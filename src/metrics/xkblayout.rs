//! The active keyboard layout, as the layout switcher prints it.
use crate::text::{fixed_capacity, strip_newline, strip_newline_str, utf8_len};
use crate::{CommandOutput, CommonError, Metric};
use vstd::prelude::*;
use vstd::string::*;

verus! {

/// Capacity of a layout name, in bytes.
pub const LOCALE_CAPACITY: usize = 32;

/// The layout name in the switcher's output, or why there is none.
pub open spec fn locale_of(out: Result<CommandOutput, CommonError>) -> Result<Seq<char>, CommonError> {
    match out {
        Err(e) => Err(e),
        Ok(o) => if o.code != Some(0i32) {
            Err(CommonError::UnsuccessfullShell(o.code))
        } else {
            match o.stdout {
                None => Err(CommonError::Utf8),
                Some(text) => if utf8_len(strip_newline(text@)) <= LOCALE_CAPACITY {
                    Ok(strip_newline(text@))
                } else {
                    Err(CommonError::Capacity)
                },
            }
        },
    }
}

/// The active layout, if known.
pub struct XkbLayoutMetric {
    locale: Option<String>,
}

impl XkbLayoutMetric {
    pub closed spec fn spec_locale(&self) -> Option<Seq<char>> {
        match self.locale {
            Some(l) => Some(l@),
            None => None,
        }
    }

    /// Nothing known yet.
    pub fn new() -> (r: Self)
        ensures
            r.spec_locale() is None,
    {
        XkbLayoutMetric { locale: None }
    }

    /// Takes the switcher's output, or why it could not run. On failure the
    /// layout becomes unknown.
    pub fn update(&mut self, out: Result<CommandOutput, CommonError>) -> (r: Result<(), CommonError>)
        ensures
            match locale_of(out) {
                Ok(l) => r is Ok && final(self).spec_locale() == Some(l),
                Err(e) => r == Err::<(), CommonError>(e) && final(self).spec_locale() is None,
            },
    {
        let result: Result<String, CommonError> = match out {
            Err(e) => Err(e),
            Ok(o) => {
                if o.code != Some(0i32) {
                    Err(CommonError::UnsuccessfullShell(o.code))
                } else {
                    match o.stdout {
                        None => Err(CommonError::Utf8),
                        Some(text) => {
                            let stripped = strip_newline_str(text.as_str());
                            match fixed_capacity::<32>(stripped) {
                                Some(l) => Ok(l),
                                None => Err(CommonError::Capacity),
                            }
                        },
                    }
                }
            },
        };
        match result {
            Ok(l) => {
                self.locale = Some(l);
                Ok(())
            },
            Err(e) => {
                self.locale = None;
                Err(e)
            },
        }
    }

    /// The text: a globe and the layout; empty while unknown.
    pub fn text(&self) -> (r: String)
        ensures
            self.spec_locale() matches Some(l) ==> r@ == "🌍 "@ + l,
            self.spec_locale() is None ==> r@ == Seq::<char>::empty(),
    {
        let mut s = String::new();
        match &self.locale {
            Some(l) => {
                s.append("🌍 ");
                s.append(l.as_str());
            },
            None => {},
        }
        s
    }
}

impl Default for XkbLayoutMetric {
    fn default() -> (r: Self)
        ensures
            r.spec_locale() is None,
    {
        XkbLayoutMetric::new()
    }
}

impl Metric for XkbLayoutMetric {
    open spec fn spec_name(&self) -> Seq<char> {
        "xkblayout"@
    }

    fn name(&self) -> (r: &'static str) {
        "xkblayout"
    }
}

} // verus!
