//! Status-line compositor: joins the non-empty metric texts with a separator
//! and fits the result to a display width in chars, padding on the left with
//! spaces or cutting between chars.
use crate::text::{chars_of, push_char, push_chars};
use vstd::prelude::*;

verus! {

/// The views of a sequence of strings.
pub open spec fn texts_view(texts: Seq<String>) -> Seq<Seq<char>> {
    texts.map_values(|t: String| t@)
}

/// The non-empty texts in order, with `sep` between each two of them.
pub open spec fn joined(texts: Seq<Seq<char>>, sep: Seq<char>) -> Seq<char>
    decreases texts.len(),
{
    if texts.len() == 0 {
        seq![]
    } else {
        let prev = joined(texts.drop_last(), sep);
        let t = texts.last();
        if t.len() == 0 {
            prev
        } else if prev.len() == 0 {
            t
        } else {
            prev + sep + t
        }
    }
}

/// `n` spaces.
pub open spec fn spaces(n: nat) -> Seq<char> {
    Seq::new(n, |i: int| ' ')
}

/// The number of leading chars of `s` that are kept at `width`.
pub open spec fn kept(s: Seq<char>, width: nat) -> nat {
    if s.len() <= width {
        s.len()
    } else {
        width
    }
}

/// `s` cut to its first `width` chars, then padded on the left with spaces
/// to exactly `width` chars.
pub open spec fn fit_to_width(s: Seq<char>, width: nat) -> Seq<char> {
    spaces((width - kept(s, width)) as nat) + s.subrange(0, kept(s, width) as int)
}

/// The status line for `texts`, in order.
pub open spec fn status_line(texts: Seq<Seq<char>>, sep: Seq<char>, width: nat) -> Seq<char> {
    fit_to_width(joined(texts, sep), width)
}

proof fn lemma_joined_all_empty(texts: Seq<Seq<char>>, sep: Seq<char>)
    requires
        forall|i: int| 0 <= i < texts.len() ==> (#[trigger] texts[i]).len() == 0,
    ensures
        joined(texts, sep) == Seq::<char>::empty(),
    decreases texts.len(),
{
    if texts.len() > 0 {
        lemma_joined_all_empty(texts.drop_last(), sep);
        assert(texts.last() == texts[texts.len() - 1]);
    }
}

/// The composed line is exactly `width` chars long, and what follows the
/// padding is a run of whole leading chars of the joined text, all of it when
/// it fits: no char is ever cut.
pub proof fn lemma_status_line_fits(texts: Seq<Seq<char>>, sep: Seq<char>, width: nat)
    ensures
        status_line(texts, sep, width).len() == width,
        joined(texts, sep).len() <= width ==> status_line(texts, sep, width) == spaces(
            (width - joined(texts, sep).len()) as nat,
        ) + joined(texts, sep),
        ({
            let line = status_line(texts, sep, width);
            let j = joined(texts, sep);
            exists|k: int|
                0 <= k <= j.len() && k <= line.len() && line == spaces((line.len() - k) as nat)
                    + j.subrange(0, k)
        }),
{
    let j = joined(texts, sep);
    let line = status_line(texts, sep, width);
    let k = kept(j, width) as int;
    assert(j.subrange(0, j.len() as int) =~= j);
    assert(line == spaces((line.len() - k) as nat) + j.subrange(0, k));
}

/// With every text empty, the line is `width` spaces.
pub proof fn lemma_status_line_all_empty(texts: Seq<Seq<char>>, sep: Seq<char>, width: nat)
    requires
        forall|i: int| 0 <= i < texts.len() ==> (#[trigger] texts[i]).len() == 0,
    ensures
        status_line(texts, sep, width) == spaces(width),
{
    lemma_joined_all_empty(texts, sep);
    assert(Seq::<char>::empty().subrange(0, 0) =~= Seq::<char>::empty());
    assert(spaces(width) + Seq::<char>::empty() =~= spaces(width));
}

/// Composing the same texts twice gives the same line: the line depends on
/// the texts, the separator and the width alone.
pub proof fn lemma_compose_idempotent(
    a: Seq<Seq<char>>,
    b: Seq<Seq<char>>,
    sep: Seq<char>,
    width: nat,
)
    requires
        a == b,
    ensures
        status_line(a, sep, width) == status_line(b, sep, width),
{
}

/// Appends `t` to `v`.
fn extend(v: &mut Vec<char>, t: Vec<char>)
    ensures
        final(v)@ == old(v)@ + t@,
{
    let mut t = t;
    v.append(&mut t);
}

/// Joins the non-empty `texts` in order with `separator` between each two.
pub fn join_texts(texts: &Vec<String>, separator: &str) -> (r: Vec<char>)
    ensures
        r@ == joined(texts_view(texts@), separator@),
{
    let mut out: Vec<char> = Vec::new();
    let mut i: usize = 0;
    while i < texts.len()
        invariant
            i <= texts@.len(),
            out@ == joined(texts_view(texts@.subrange(0, i as int)), separator@),
        decreases texts@.len() - i,
    {
        let ghost pre = texts_view(texts@.subrange(0, i as int));
        let ghost next = texts_view(texts@.subrange(0, i + 1));
        assert(next.drop_last() =~= pre);
        assert(next.last() == texts@[i as int]@);
        let t = chars_of(texts[i].as_str());
        if t.len() > 0 {
            if out.len() > 0 {
                extend(&mut out, chars_of(separator));
            }
            extend(&mut out, t);
        }
        i = i + 1;
    }
    assert(texts@.subrange(0, texts@.len() as int) =~= texts@);
    out
}

/// `s` cut to its first `width` chars and padded on the left with spaces
/// to exactly `width` chars.
pub fn fit_width(s: &Vec<char>, width: usize) -> (r: String)
    ensures
        r@ == fit_to_width(s@, width as nat),
{
    let keep: usize = if s.len() <= width {
        s.len()
    } else {
        width
    };
    let mut line = String::new();
    let mut k: usize = 0;
    while k < width - keep
        invariant
            keep <= width,
            k <= width - keep,
            line@ == spaces(k as nat),
        decreases width - keep - k,
    {
        push_char(&mut line, ' ');
        assert(line@ =~= spaces((k + 1) as nat));
        k = k + 1;
    }
    let mut j: usize = 0;
    let mut prefix: Vec<char> = Vec::new();
    while j < keep
        invariant
            j <= keep <= s@.len(),
            prefix@ == s@.subrange(0, j as int),
        decreases keep - j,
    {
        prefix.push(s[j]);
        assert(prefix@ =~= s@.subrange(0, j + 1));
        j = j + 1;
    }
    push_chars(&mut line, &prefix);
    line
}

/// Composes the status line: the non-empty `texts` in order, `separator`
/// between each two, cut to its first `width` chars or padded on the left
/// with spaces to exactly `width` chars.
pub fn compose(texts: &Vec<String>, separator: &str, width: usize) -> (r: String)
    ensures
        r@ == status_line(texts_view(texts@), separator@, width as nat),
{
    let joined = join_texts(texts, separator);
    fit_width(&joined, width)
}

} // verus!
