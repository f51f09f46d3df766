//! Reading the first line of a small file into a fixed-size buffer. The
//! caller reads chunks from the file; `LineReader` decides when the line is
//! complete and decodes it.
use vstd::prelude::*;
use vstd::utf8::{decode_utf8, valid_utf8};

verus! {

/// Why a line could not be read.
#[derive(Debug, Clone, Copy, PartialEq, Eq, Structural)]
pub enum ReadLineError {
    /// The file could not be opened or read.
    Io,
    /// The line is not valid UTF-8.
    Utf8,
    /// The line is longer than the buffer.
    Capacity,
}

/// `i` is the index of the first `b` in `s`.
pub open spec fn is_first_index(s: Seq<u8>, b: u8, i: int) -> bool {
    &&& 0 <= i < s.len()
    &&& s[i] == b
    &&& forall|j: int| 0 <= j < i ==> s[j] != b
}

/// `b` does not occur in `s`.
pub open spec fn lacks(s: Seq<u8>, b: u8) -> bool {
    forall|j: int| 0 <= j < s.len() ==> s[j] != b
}

/// The newline byte.
pub const NEWLINE: u8 = 10;

/// Relies on `memchr::memchr`: the index of the first occurrence of `needle`
/// in `haystack`, or `None` when there is none.
#[verifier::external_body]
fn memchr_byte(needle: u8, haystack: &[u8]) -> (r: Option<usize>)
    ensures
        match r {
            Some(i) => is_first_index(haystack@, needle, i as int),
            None => lacks(haystack@, needle),
        },
{
    memchr::memchr(needle, haystack)
}

/// Relies on `std::str::from_utf8`: the text that `bytes` encode, or `None`
/// when they are not valid UTF-8.
#[verifier::external_body]
pub(crate) fn utf8_text(bytes: &[u8]) -> (r: Option<String>)
    ensures
        r is Some <==> valid_utf8(bytes@),
        r matches Some(s) ==> s@ == decode_utf8(bytes@),
{
    match std::str::from_utf8(bytes) {
        Ok(s) => Some(s.to_string()),
        Err(_) => None,
    }
}

/// What a line reader holds.
pub struct LineReaderView {
    pub bytes: Seq<u8>,
    pub capacity: nat,
    pub finished: bool,
}

/// Collects the first line of a file from chunks read in turn. A line may
/// take up to `capacity` bytes; the reader holds one byte more, so that a
/// longer line is seen as such. Reading stops at end of file, at the first
/// newline (which is not kept), or when the held bytes exceed the capacity.
pub struct LineReader {
    bytes: Vec<u8>,
    capacity: usize,
    finished: bool,
}

impl View for LineReader {
    type V = LineReaderView;

    closed spec fn view(&self) -> LineReaderView {
        LineReaderView { bytes: self.bytes@, capacity: self.capacity as nat, finished: self.finished }
    }
}

impl LineReader {
    /// At most one byte beyond the capacity is held, and never a newline.
    pub open spec fn wf(&self) -> bool {
        &&& self@.bytes.len() <= self@.capacity + 1
        &&& self@.capacity < usize::MAX
        &&& lacks(self@.bytes, NEWLINE)
    }

    /// An empty reader for a line of at most `capacity` bytes.
    pub fn new(capacity: usize) -> (r: LineReader)
        requires
            capacity < usize::MAX,
        ensures
            r.wf(),
            r@.bytes == Seq::<u8>::empty(),
            r@.capacity == capacity,
            !r@.finished,
    {
        LineReader { bytes: Vec::new(), capacity, finished: false }
    }

    /// The most the next chunk may hold.
    pub fn room(&self) -> (r: usize)
        requires
            self.wf(),
        ensures
            r == self@.capacity + 1 - self@.bytes.len(),
    {
        self.capacity + 1 - self.bytes.len()
    }

    /// Whether reading is over.
    pub fn is_finished(&self) -> (r: bool)
        ensures
            r == self@.finished,
    {
        self.finished
    }

    /// Takes the next chunk read from the file; an empty chunk is end of file.
    /// A chunk with a newline contributes the bytes before its first newline
    /// and ends reading.
    pub fn on_chunk(&mut self, chunk: &[u8])
        requires
            old(self).wf(),
            !old(self)@.finished,
            chunk@.len() <= old(self)@.capacity + 1 - old(self)@.bytes.len(),
        ensures
            final(self).wf(),
            final(self)@.capacity == old(self)@.capacity,
            chunk@.len() == 0 ==> final(self)@.finished && final(self)@.bytes == old(self)@.bytes,
            chunk@.len() > 0 ==> (forall|p: int|
                is_first_index(chunk@, NEWLINE, p) ==> final(self)@.finished && final(self)@.bytes
                    == old(self)@.bytes + chunk@.subrange(0, p)),
            chunk@.len() > 0 && lacks(chunk@, NEWLINE) ==> final(self)@.bytes == old(self)@.bytes
                + chunk@ && final(self)@.finished == (final(self)@.bytes.len()
                == old(self)@.capacity + 1),
    {
        let n = chunk.len();
        if n == 0 {
            self.finished = true;
            return;
        }
        let newline = memchr_byte(NEWLINE, chunk);
        let keep: usize = match newline {
            Some(p) => p,
            None => n,
        };
        let ghost start = self.bytes@;
        let mut i: usize = 0;
        while i < keep
            invariant
                i <= keep <= n,
                n == chunk@.len(),
                self.bytes@ == start + chunk@.subrange(0, i as int),
                self.capacity == old(self)@.capacity,
                self.finished == old(self)@.finished,
                lacks(start, NEWLINE),
                forall|j: int| 0 <= j < keep ==> chunk@[j] != NEWLINE,
                lacks(self.bytes@, NEWLINE),
            decreases keep - i,
        {
            self.bytes.push(chunk[i]);
            assert(self.bytes@ =~= start + chunk@.subrange(0, i + 1));
            i = i + 1;
        }
        assert(chunk@.subrange(0, n as int) =~= chunk@);
        proof {
            assert forall|p: int| is_first_index(chunk@, NEWLINE, p) implies p == keep by {
                match newline {
                    Some(q) => {
                        if p < q {
                            assert(chunk@[p] != NEWLINE);
                        } else if q < p {
                            assert(chunk@[q as int] != NEWLINE);
                        }
                    },
                    None => {
                        assert(chunk@[p] != NEWLINE);
                    },
                }
            }
            if lacks(chunk@, NEWLINE) {
                if newline is Some {
                    assert(chunk@[keep as int] == NEWLINE);
                }
            }
        }
        self.finished = newline.is_some() || self.bytes.len() == self.capacity + 1;
    }

    /// The line: the collected bytes as text, or why there is none.
    pub fn finish(&self) -> (r: Result<String, ReadLineError>)
        ensures
            self@.bytes.len() > self@.capacity ==> r == Err::<String, ReadLineError>(
                ReadLineError::Capacity,
            ),
            self@.bytes.len() <= self@.capacity && !valid_utf8(self@.bytes) ==> r == Err::<
                String,
                ReadLineError,
            >(ReadLineError::Utf8),
            r is Ok <==> self@.bytes.len() <= self@.capacity && valid_utf8(self@.bytes),
            r matches Ok(s) ==> s@ == decode_utf8(self@.bytes),
    {
        if self.bytes.len() > self.capacity {
            return Err(ReadLineError::Capacity);
        }
        match utf8_text(self.bytes.as_slice()) {
            Some(s) => Ok(s),
            None => Err(ReadLineError::Utf8),
        }
    }
}

} // verus!
