//! Charge of a bluetooth headset, as the bluetooth tool reports it.
use crate::text::{chars_of, decimal, parse_u8, parse_unsigned, push_decimal, trim, trim_chars};
use crate::{CommandOutput, Metric};
use vstd::prelude::*;
use vstd::string::*;

verus! {

/// The charge that the query's output gives: its trimmed text as a `u8`.
/// `None` when the command could not run or its output is not a number.
pub open spec fn charge_of(out: Option<CommandOutput>) -> Option<nat> {
    match out {
        None => None,
        Some(o) => match o.stdout {
            None => None,
            Some(text) => parse_unsigned(trim(text@), u8::MAX as nat),
        },
    }
}

/// The headset's charge, if known.
pub struct BluetoothChargeMetric {
    charge: Option<u8>,
}

impl BluetoothChargeMetric {
    pub closed spec fn spec_charge(&self) -> Option<u8> {
        self.charge
    }

    /// Nothing known yet.
    pub fn new() -> (r: Self)
        ensures
            r.spec_charge() is None,
    {
        BluetoothChargeMetric { charge: None }
    }

    /// Takes the output of the charge query (`None`: it could not run).
    pub fn update(&mut self, out: Option<CommandOutput>)
        ensures
            match charge_of(out) {
                Some(c) => final(self).spec_charge() == Some(c as u8),
                None => final(self).spec_charge() is None,
            },
    {
        self.charge = match out {
            None => None,
            Some(o) => match o.stdout {
                None => None,
                Some(text) => parse_u8(&trim_chars(&chars_of(text.as_str()))),
            },
        };
    }

    /// The text: headset glyphs and the charge; empty while unknown.
    pub fn text(&self) -> (r: String)
        ensures
            self.spec_charge() matches Some(c) ==> r@ == "\u{1f3a7}\u{26a1}\u{fe0f} "@ + decimal(
                c as nat,
            ) + "%"@,
            self.spec_charge() is None ==> r@ == Seq::<char>::empty(),
    {
        let mut s = String::new();
        if let Some(c) = self.charge {
            s.append("\u{1f3a7}\u{26a1}\u{fe0f} ");
            push_decimal(&mut s, c as u64);
            s.append("%");
        }
        s
    }
}

impl Default for BluetoothChargeMetric {
    fn default() -> (r: Self)
        ensures
            r.spec_charge() is None,
    {
        BluetoothChargeMetric::new()
    }
}

impl Metric for BluetoothChargeMetric {
    open spec fn spec_name(&self) -> Seq<char> {
        "Bluetooth Charge"@
    }

    fn name(&self) -> (r: &'static str) {
        "Bluetooth Charge"
    }
}

} // verus!
