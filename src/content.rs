use unicode_segmentation::UnicodeSegmentation;
use vstd::prelude::*;
use vstd::string::*;
use vstd::utf8::encode_utf8;

use crate::ansi::{erase_bytes, queue_erase, Erase};

verus! {

/// A queue holding more graphemes than this is flushed whole, whatever the
/// room left on the terminal.
pub const MAX_GRAPHEME_BUFFER: usize = 1000000;

/// The number of extended grapheme clusters in a text.
pub uninterp spec fn graphemes(s: Seq<char>) -> nat;

/// Relies on unicode-segmentation's `graphemes(true)`: the count of extended
/// grapheme clusters, a function of the text alone.
#[verifier::external_body]
fn grapheme_count(s: &str) -> (r: usize)
    ensures
        r as nat == graphemes(s@),
{
    s.graphemes(true).count()
}

/// One line of text, made of segments printed one after the other.
#[derive(Clone, Debug)]
pub struct Line {
    pub spans: Vec<String>,
}

impl View for Line {
    type V = Seq<Seq<char>>;

    open spec fn view(&self) -> Seq<Seq<char>> {
        self.spans@.map_values(|s: String| s@)
    }
}

/// The length of a line's segments, in graphemes.
pub open spec fn spans_len(spans: Seq<Seq<char>>) -> nat
    decreases spans.len(),
{
    if spans.len() == 0 {
        0
    } else {
        spans_len(spans.drop_last()) + graphemes(spans.last())
    }
}

/// The length of a line in graphemes.
pub open spec fn line_len(l: Line) -> nat {
    spans_len(l@)
}

/// The summed length in graphemes of a sequence of lines.
pub open spec fn total_len(q: Seq<Line>) -> nat
    decreases q.len(),
{
    if q.len() == 0 {
        0
    } else {
        total_len(q.drop_last()) + line_len(q.last())
    }
}

/// Whether a queue of lines is too large to drain a screenful at a time.
pub open spec fn oversized(q: Seq<Line>) -> bool {
    total_len(q) > MAX_GRAPHEME_BUFFER
}

/// The UTF-8 bytes of a line's segments.
pub open spec fn spans_bytes(spans: Seq<Seq<char>>) -> Seq<u8>
    decreases spans.len(),
{
    if spans.len() == 0 {
        Seq::empty()
    } else {
        spans_bytes(spans.drop_last()) + encode_utf8(spans.last())
    }
}

/// The bytes that print a line: its text, an erase of what is left of the
/// terminal row, and a newline.
pub open spec fn line_bytes(l: Line) -> Seq<u8> {
    spans_bytes(l@) + erase_bytes(Erase::LineRight) + seq![0x0a]
}

/// The bytes that print a sequence of lines, in order.
pub open spec fn lines_bytes(q: Seq<Line>) -> Seq<u8>
    decreases q.len(),
{
    if q.len() == 0 {
        Seq::empty()
    } else {
        lines_bytes(q.drop_last()) + line_bytes(q.last())
    }
}

/// How many lines a render with an optional limit takes from the front.
pub open spec fn taken(len: nat, limit: Option<usize>) -> nat {
    match limit {
        Some(n) => if (n as nat) < len { n as nat } else { len },
        None => len,
    }
}

proof fn lemma_spans_len_prefix(spans: Seq<Seq<char>>, j: int)
    requires
        0 <= j <= spans.len(),
    ensures
        spans_len(spans.take(j)) <= spans_len(spans),
    decreases spans.len(),
{
    if j < spans.len() {
        lemma_spans_len_prefix(spans.drop_last(), j);
        assert(spans.drop_last().take(j) =~= spans.take(j));
    } else {
        assert(spans.take(j) =~= spans);
    }
}

proof fn lemma_total_len_prefix(q: Seq<Line>, i: int)
    requires
        0 <= i <= q.len(),
    ensures
        total_len(q.take(i)) <= total_len(q),
    decreases q.len(),
{
    if i < q.len() {
        lemma_total_len_prefix(q.drop_last(), i);
        assert(q.drop_last().take(i) =~= q.take(i));
    } else {
        assert(q.take(i) =~= q);
    }
}

impl Line {
    /// A line of the given segments.
    pub fn from_spans(spans: Vec<String>) -> (r: Line)
        ensures
            r.spans@ == spans@,
    {
        Line { spans }
    }

    /// Appends this line's bytes to `buffer`.
    pub fn render(&self, buffer: &mut Vec<u8>) -> (r: Result<(), anyhow::Error>)
        ensures
            r is Ok,
            final(buffer)@ == old(buffer)@ + line_bytes(*self),
    {
        let mut j: usize = 0;
        while j < self.spans.len()
            invariant
                0 <= j <= self.spans@.len(),
                buffer@ == old(buffer)@ + spans_bytes(self@.take(j as int)),
            decreases self.spans@.len() - j,
        {
            let mut bytes = self.spans[j].as_str().as_bytes_vec();
            buffer.append(&mut bytes);
            proof {
                assert(self@.take(j + 1).drop_last() =~= self@.take(j as int));
            }
            j = j + 1;
        }
        assert(self@.take(j as int) =~= self@);
        queue_erase(buffer, Erase::LineRight)?;
        buffer.push(0x0a);
        assert(buffer@ =~= old(buffer)@ + line_bytes(*self));
        Ok(())
    }
}

/// Whether the lines hold more than `MAX_GRAPHEME_BUFFER` graphemes. Stops
/// counting as soon as the bound is passed.
pub fn is_big(lines: &Vec<Line>) -> (r: bool)
    ensures
        r == oversized(lines@),
{
    let mut total: usize = 0;
    let mut i: usize = 0;
    while i < lines.len()
        invariant
            0 <= i <= lines@.len(),
            total as nat == total_len(lines@.take(i as int)),
            total <= MAX_GRAPHEME_BUFFER,
        decreases lines@.len() - i,
    {
        let line = &lines[i];
        let mut j: usize = 0;
        while j < line.spans.len()
            invariant
                0 <= i < lines@.len(),
                *line == lines@[i as int],
                0 <= j <= line.spans@.len(),
                total as nat == total_len(lines@.take(i as int)) + spans_len(line@.take(j as int)),
                total <= MAX_GRAPHEME_BUFFER,
            decreases line.spans@.len() - j,
        {
            let c = grapheme_count(line.spans[j].as_str());
            assert(line@.take(j + 1).drop_last() =~= line@.take(j as int));
            if c > MAX_GRAPHEME_BUFFER - total {
                proof {
                    lemma_spans_len_prefix(line@, j + 1);
                    lemma_total_len_prefix(lines@, i + 1);
                    assert(lines@.take(i + 1).drop_last() =~= lines@.take(i as int));
                }
                return true;
            }
            total = total + c;
            j = j + 1;
        }
        proof {
            assert(line@.take(j as int) =~= line@);
            assert(lines@.take(i + 1).drop_last() =~= lines@.take(i as int));
        }
        i = i + 1;
    }
    assert(lines@.take(i as int) =~= lines@);
    false
}

/// Takes up to `limit` lines (all of them when there is no limit) from the
/// front of `lines` and appends their bytes to `buffer`, in order.
pub fn render_lines(lines: &mut Vec<Line>, buffer: &mut Vec<u8>, limit: Option<usize>) -> (r: Result<(), anyhow::Error>)
    ensures
        final(lines)@ == old(lines)@.skip(taken(old(lines)@.len(), limit) as int),
        r is Ok,
        final(buffer)@ == old(buffer)@ + lines_bytes(old(lines)@.take(taken(old(lines)@.len(), limit) as int)),
{
    let n: usize = match limit {
        Some(l) => if l < lines.len() { l } else { lines.len() },
        None => lines.len(),
    };
    let mut drained = lines.split_off(n);
    std::mem::swap(lines, &mut drained);
    let mut i: usize = 0;
    while i < drained.len()
        invariant
            0 <= i <= drained@.len(),
            n as nat == taken(old(lines)@.len(), limit),
            drained@ == old(lines)@.take(n as int),
            lines@ == old(lines)@.skip(n as int),
            buffer@ == old(buffer)@ + lines_bytes(drained@.take(i as int)),
        decreases drained@.len() - i,
    {
        drained[i].render(buffer)?;
        proof {
            assert(drained@.take(i + 1).drop_last() =~= drained@.take(i as int));
        }
        i = i + 1;
    }
    assert(drained@.take(i as int) =~= drained@);
    Ok(())
}

} // verus!
