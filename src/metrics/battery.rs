//! Battery charge, shown only while it is below a threshold.
use crate::read_line::ReadLineError;
use crate::text::{chars_of, decimal, parse_u8, parse_unsigned, push_decimal, string_of, trim, trim_chars};
use crate::{CommonError, Metric};
use vstd::prelude::*;
use vstd::string::*;

verus! {

/// What the battery's status file says.
#[derive(Debug, Clone, Copy, PartialEq, Eq, Structural)]
pub enum ChargeState {
    Charging,
    Discharging,
    Unknown,
}

/// The state that a status line names, after trimming.
pub open spec fn charge_state_of(status: Seq<char>) -> ChargeState {
    if trim(status) == "Charging"@ {
        ChargeState::Charging
    } else if trim(status) == "Discharging"@ {
        ChargeState::Discharging
    } else {
        ChargeState::Unknown
    }
}

/// The glyphs of a charge state.
pub open spec fn charge_glyphs(state: ChargeState) -> Seq<char> {
    match state {
        ChargeState::Charging => "🔌🔼"@,
        ChargeState::Discharging => "🔋🔽"@,
        ChargeState::Unknown => "🔋"@,
    }
}

/// The charge that a capacity line gives, after trimming.
pub open spec fn capacity_of(capacity: Seq<char>) -> Option<nat> {
    parse_unsigned(trim(capacity), u8::MAX as nat)
}

/// The state of the battery's status line.
pub fn charge_state(status: &str) -> (r: ChargeState)
    ensures
        r == charge_state_of(status@),
{
    let t = string_of(&trim_chars(&chars_of(status)));
    if t == "Charging".to_owned() {
        ChargeState::Charging
    } else if t == "Discharging".to_owned() {
        ChargeState::Discharging
    } else {
        ChargeState::Unknown
    }
}

/// The charge percentage of the battery's capacity line.
pub fn parse_capacity(capacity: &str) -> (r: Result<u8, CommonError>)
    ensures
        match capacity_of(capacity@) {
            Some(p) => r == Ok::<u8, CommonError>(p as u8),
            None => r == Err::<u8, CommonError>(CommonError::ParseInt),
        },
{
    match parse_u8(&trim_chars(&chars_of(capacity))) {
        Some(p) => Ok(p),
        None => Err(CommonError::ParseInt),
    }
}

/// The battery: its charge state and percentage, shown below `threshold`.
pub struct BatteryMetric {
    threshold: u8,
    state: Option<ChargeState>,
    percentage: Option<u8>,
}

impl BatteryMetric {
    pub closed spec fn spec_threshold(&self) -> u8 {
        self.threshold
    }

    pub closed spec fn spec_state(&self) -> Option<ChargeState> {
        self.state
    }

    pub closed spec fn spec_percentage(&self) -> Option<u8> {
        self.percentage
    }

    /// A battery shown while its charge is below `threshold` percent; nothing
    /// known yet.
    pub fn new(threshold: u8) -> (r: Self)
        ensures
            r.spec_threshold() == threshold,
            r.spec_state() is None,
            r.spec_percentage() is None,
    {
        BatteryMetric { threshold, state: None, percentage: None }
    }

    /// Takes the status line and the capacity line, or why each could not be
    /// read. On any failure nothing is known.
    pub fn update(
        &mut self,
        status: Result<String, ReadLineError>,
        capacity: Result<String, ReadLineError>,
    ) -> (r: Result<(), CommonError>)
        ensures
            final(self).spec_threshold() == old(self).spec_threshold(),
            r is Err ==> final(self).spec_state() is None && final(self).spec_percentage() is None,
            match (status, capacity) {
                (Err(e), _) => r == Err::<(), CommonError>(CommonError::ReadLine(e)),
                (Ok(_), Err(e)) => r == Err::<(), CommonError>(CommonError::ReadLine(e)),
                (Ok(s), Ok(c)) => match capacity_of(c@) {
                    None => r == Err::<(), CommonError>(CommonError::ParseInt),
                    Some(p) => {
                        &&& r is Ok
                        &&& final(self).spec_state() == Some(charge_state_of(s@))
                        &&& final(self).spec_percentage() == Some(p as u8)
                    },
                },
            },
    {
        let result = match (status, capacity) {
            (Err(e), _) => Err(CommonError::ReadLine(e)),
            (Ok(_), Err(e)) => Err(CommonError::ReadLine(e)),
            (Ok(s), Ok(c)) => {
                let state = charge_state(s.as_str());
                match parse_capacity(c.as_str()) {
                    Ok(p) => Ok((state, p)),
                    Err(e) => Err(e),
                }
            },
        };
        match result {
            Ok((state, p)) => {
                self.state = Some(state);
                self.percentage = Some(p);
                Ok(())
            },
            Err(e) => {
                self.state = None;
                self.percentage = None;
                Err(e)
            },
        }
    }

    /// The text: the glyphs and the percentage when the charge is known and
    /// below the threshold; empty otherwise.
    pub fn text(&self) -> (r: String)
        ensures
            match (self.spec_state(), self.spec_percentage()) {
                (Some(st), Some(p)) => if p < self.spec_threshold() {
                    r@ == charge_glyphs(st) + " "@ + decimal(p as nat) + "%"@
                } else {
                    r@ == Seq::<char>::empty()
                },
                _ => r@ == Seq::<char>::empty(),
            },
    {
        let mut s = String::new();
        match (self.state, self.percentage) {
            (Some(st), Some(p)) => {
                if p < self.threshold {
                    match st {
                        ChargeState::Charging => s.append("🔌🔼"),
                        ChargeState::Discharging => s.append("🔋🔽"),
                        ChargeState::Unknown => s.append("🔋"),
                    }
                    s.append(" ");
                    push_decimal(&mut s, p as u64);
                    s.append("%");
                }
            },
            _ => {},
        }
        s
    }
}

impl Metric for BatteryMetric {
    open spec fn spec_name(&self) -> Seq<char> {
        "Battery"@
    }

    fn name(&self) -> (r: &'static str) {
        "Battery"
    }
}

} // verus!
