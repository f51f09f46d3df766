//! Memory usage, as the memory summary command prints it.
use crate::text::{fixed_capacity, strip_newline, strip_newline_str, utf8_len};
use crate::{CommandOutput, Metric};
use vstd::prelude::*;
use vstd::string::*;

verus! {

/// Capacity of the usage text, in bytes.
pub const USAGE_CAPACITY: usize = 24;

/// The usage text of the command's output: its line, without the trailing
/// newline, when it fits the capacity; empty when it does not or the command
/// gave nothing.
pub open spec fn usage_of(out: Option<CommandOutput>) -> Seq<char> {
    match out {
        Some(o) => match o.stdout {
            Some(text) => if utf8_len(strip_newline(text@)) <= USAGE_CAPACITY {
                strip_newline(text@)
            } else {
                seq![]
            },
            None => seq![],
        },
        None => seq![],
    }
}

/// The last usage text.
pub struct MemMetric {
    usage: String,
}

impl MemMetric {
    pub closed spec fn spec_usage(&self) -> Seq<char> {
        self.usage@
    }

    /// An empty usage.
    pub fn new() -> (r: Self)
        ensures
            r.spec_usage() == Seq::<char>::empty(),
    {
        MemMetric { usage: String::new() }
    }

    /// Takes the command's output (`None`: it could not run).
    pub fn update(&mut self, out: Option<CommandOutput>)
        ensures
            final(self).spec_usage() == usage_of(out),
    {
        let usage = match out {
            Some(o) => match o.stdout {
                Some(text) => match fixed_capacity::<24>(strip_newline_str(text.as_str())) {
                    Some(u) => u,
                    None => String::new(),
                },
                None => String::new(),
            },
            None => String::new(),
        };
        self.usage = usage;
        assert(self.usage@ =~= usage_of(out));
    }

    /// The text: a memo glyph and the usage; empty while the usage is.
    pub fn text(&self) -> (r: String)
        ensures
            self.spec_usage().len() > 0 ==> r@ == "📝 "@ + self.spec_usage(),
            self.spec_usage().len() == 0 ==> r@ == Seq::<char>::empty(),
    {
        let mut s = String::new();
        if self.usage.as_str().unicode_len() > 0 {
            s.append("📝 ");
            s.append(self.usage.as_str());
        }
        s
    }
}

impl Default for MemMetric {
    fn default() -> (r: Self)
        ensures
            r.spec_usage() == Seq::<char>::empty(),
    {
        MemMetric::new()
    }
}

impl Metric for MemMetric {
    open spec fn spec_name(&self) -> Seq<char> {
        "Mem"@
    }

    fn name(&self) -> (r: &'static str) {
        "Mem"
    }
}

} // verus!
