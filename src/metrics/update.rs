//! Pending package updates, and whether the kernel is among them.
use crate::text::{chars_of, contains, contains_chars, decimal, lines, lines_of, push_decimal};
use crate::{CommandOutput, Metric};
use vstd::prelude::*;
use vstd::string::*;

verus! {

/// Whether a kernel update is pending, and how many updates are: the lines
/// of a successful check, and whether they mention `linux`. Nothing pending
/// when the check fails.
pub open spec fn updates_of(out: Option<CommandOutput>) -> (bool, nat) {
    match out {
        Some(o) => if o.code == Some(0i32) {
            match o.stdout {
                Some(text) => (contains(text@, "linux"@), lines(text@).len()),
                None => (false, 0),
            }
        } else {
            (false, 0)
        },
        None => (false, 0),
    }
}

/// Pending updates, checked every `timeout` nanoseconds.
pub struct UpdatesMetric {
    system_update: bool,
    updates_count: usize,
    timeout: u64,
}

impl UpdatesMetric {
    pub closed spec fn spec_system_update(&self) -> bool {
        self.system_update
    }

    pub closed spec fn spec_count(&self) -> nat {
        self.updates_count as nat
    }

    pub closed spec fn spec_timeout(&self) -> u64 {
        self.timeout
    }

    /// Nothing pending yet; checks every `timeout` nanoseconds.
    pub fn new(timeout: u64) -> (r: Self)
        ensures
            r.spec_timeout() == timeout,
            r.spec_count() == 0,
            !r.spec_system_update(),
    {
        UpdatesMetric { timeout, updates_count: 0, system_update: false }
    }

    /// The interval between checks, in nanoseconds.
    pub fn get_timeout(&self) -> (r: u64)
        ensures
            r == self.spec_timeout(),
    {
        self.timeout
    }

    /// Takes the output of the update check (`None`: it could not run).
    pub fn update(&mut self, out: Option<CommandOutput>)
        ensures
            final(self).spec_timeout() == old(self).spec_timeout(),
            (final(self).spec_system_update(), final(self).spec_count()) == updates_of(out),
    {
        let (system, count) = match out {
            Some(o) => if o.code == Some(0i32) {
                match o.stdout {
                    Some(text) => {
                        let cs = chars_of(text.as_str());
                        let ls = lines_of(&cs);
                        proof {
                            assert(crate::text::views(ls@).len() == ls@.len());
                        }
                        (contains_chars(&cs, &chars_of("linux")), ls.len())
                    },
                    None => (false, 0),
                }
            } else {
                (false, 0)
            },
            None => (false, 0),
        };
        self.system_update = system;
        self.updates_count = count;
    }

    /// The text: nothing without pending updates; otherwise a glyph, a `!`
    /// when the kernel is among them, and their number.
    pub fn text(&self) -> (r: String)
        ensures
            self.spec_count() == 0 ==> r@ == Seq::<char>::empty(),
            self.spec_count() > 0 && self.spec_system_update() ==> r@ == "🔁! "@ + decimal(
                self.spec_count(),
            ),
            self.spec_count() > 0 && !self.spec_system_update() ==> r@ == "🔁 "@ + decimal(
                self.spec_count(),
            ),
    {
        let mut s = String::new();
        if self.updates_count == 0 {
            return s;
        }
        if self.system_update {
            s.append("🔁! ");
        } else {
            s.append("🔁 ");
        }
        push_decimal(&mut s, self.updates_count as u64);
        s
    }
}

impl Metric for UpdatesMetric {
    open spec fn spec_name(&self) -> Seq<char> {
        "Updates"@
    }

    fn name(&self) -> (r: &'static str) {
        "Updates"
    }
}

} // verus!
