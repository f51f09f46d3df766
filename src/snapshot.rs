//! Single-slot "latest value wins" cell: the last published text of one metric
//! and the time of its last successful sample.
use vstd::prelude::*;

verus! {

/// What a snapshot holds.
pub struct SnapshotView {
    pub text: Seq<char>,
    pub last_success: Option<u64>,
}

/// The state after publishing each of `writes` in order, starting from `s`:
/// `Some((text, now))` is a successful sample, `None` an unavailable one.
pub open spec fn after_writes(s: SnapshotView, writes: Seq<Option<(Seq<char>, u64)>>) -> SnapshotView
    decreases writes.len(),
{
    if writes.len() == 0 {
        s
    } else {
        let prev = after_writes(s, writes.drop_last());
        match writes.last() {
            Some((text, now)) => SnapshotView { text, last_success: Some(now) },
            None => SnapshotView { text: seq![], last_success: prev.last_success },
        }
    }
}

/// The latest published text of a metric. Each write replaces the whole
/// value, so a read sees exactly the newest write.
pub struct Snapshot {
    text: String,
    last_success: Option<u64>,
}

impl View for Snapshot {
    type V = SnapshotView;

    closed spec fn view(&self) -> SnapshotView {
        SnapshotView { text: self.text@, last_success: self.last_success }
    }
}

impl Snapshot {
    /// An empty snapshot that has never seen a successful sample.
    pub fn new() -> (r: Snapshot)
        ensures
            r@.text == Seq::<char>::empty(),
            r@.last_success is None,
    {
        Snapshot { text: String::new(), last_success: None }
    }

    /// Publishes the text of a successful sample taken at `now`.
    pub fn publish(&mut self, text: String, now: u64)
        ensures
            final(self)@ == after_writes(old(self)@, seq![Some((text@, now))]),
            final(self)@.text == text@,
            final(self)@.last_success == Some(now),
    {
        self.text = text;
        self.last_success = Some(now);
        assert(seq![Some((text@, now))].drop_last() =~= Seq::<Option<(Seq<char>, u64)>>::empty());
    }

    /// Publishes "unavailable": the text becomes empty, the time of the last
    /// success stays.
    pub fn publish_unavailable(&mut self)
        ensures
            final(self)@ == after_writes(old(self)@, seq![None]),
            final(self)@.text == Seq::<char>::empty(),
            final(self)@.last_success == old(self)@.last_success,
    {
        self.text = String::new();
        assert(self@.text =~= seq![]);
        assert(after_writes(old(self)@, Seq::<Option<(Seq<char>, u64)>>::empty()) == old(self)@);
        assert(seq![None::<(Seq<char>, u64)>].drop_last() =~= Seq::<Option<(Seq<char>, u64)>>::empty());
    }

    /// The latest published text.
    pub fn read(&self) -> (r: String)
        ensures
            r@ == self@.text,
    {
        self.text.clone()
    }

    /// The time of the last successful sample, if any.
    pub fn last_success(&self) -> (r: Option<u64>)
        ensures
            r == self@.last_success,
    {
        self.last_success
    }
}

/// Writes compose: publishing `a` and then `b` is publishing `a + b`.
pub proof fn lemma_after_writes_append(
    s: SnapshotView,
    a: Seq<Option<(Seq<char>, u64)>>,
    b: Seq<Option<(Seq<char>, u64)>>,
)
    ensures
        after_writes(after_writes(s, a), b) == after_writes(s, a + b),
    decreases b.len(),
{
    if b.len() == 0 {
        assert(a + b =~= a);
    } else {
        lemma_after_writes_append(s, a, b.drop_last());
        assert((a + b).drop_last() =~= a + b.drop_last());
    }
}

/// A read after any run of writes sees the newest one: the text of the last
/// successful write, or nothing after an unavailable one, or the prior value
/// when there was no write.
pub proof fn lemma_read_sees_newest(s: SnapshotView, writes: Seq<Option<(Seq<char>, u64)>>)
    ensures
        after_writes(s, writes).text == if writes.len() == 0 {
            s.text
        } else {
            match writes.last() {
                Some((text, _)) => text,
                None => Seq::<char>::empty(),
            }
        },
{
}

} // verus!
