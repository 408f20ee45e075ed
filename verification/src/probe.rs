//! The probe-then-resize protocol for variable-length native replies.
//!
//! Some native queries write text of unknown length — the current log path,
//! a newline-joined list of file paths — into a caller-supplied buffer and
//! return the number of bytes they need, terminator included. The protocol:
//! probe with a fixed-size buffer; if the required length exceeds it, resize
//! to at least that length and ask exactly once more; a second shortfall is
//! treated as empty output, never retried again. The boundary code runs the
//! two calls; the capacity decisions and the parsing of the reply live here.
use vstd::prelude::*;
use vstd::string::StrSliceExecFns;
use crate::marshal::push_char;

verus! {

/// Capacity of the first probe buffer, in bytes.
pub const INITIAL_QUERY_CAPACITY: usize = 4096;

/// The pieces of `s` between occurrences of `sep`, in order. A sequence with
/// no separator is one piece; every separator ends a piece, so a trailing
/// separator yields a trailing empty piece.
pub open spec fn split_on(s: Seq<char>, sep: char) -> Seq<Seq<char>>
    decreases s.len(),
{
    if s.len() == 0 {
        seq![Seq::<char>::empty()]
    } else if s.last() == sep {
        split_on(s.drop_last(), sep).push(Seq::empty())
    } else {
        let rest = split_on(s.drop_last(), sep);
        rest.update(rest.len() - 1, rest.last().push(s.last()))
    }
}

/// The results carried by a joined native reply: an empty reply carries no
/// results — not one empty result — and a non-empty reply carries its
/// newline-separated pieces in the engine's order.
pub open spec fn lines_of(s: Seq<char>) -> Seq<Seq<char>> {
    if s.len() == 0 {
        Seq::empty()
    } else {
        split_on(s, '\n')
    }
}

/// Decide the second call of the protocol: no retry when the reply fit,
/// otherwise one retry with a buffer of exactly the required length.
pub fn next_request(capacity: usize, required: usize) -> (r: Option<usize>)
    ensures
        r is Some <==> required > capacity,
        r matches Some(c) ==> c == required,
{
    if required > capacity {
        Some(required)
    } else {
        None
    }
}

/// Split a retrieved reply on newlines. An empty reply yields an empty
/// sequence, not a one-element sequence holding the empty string.
pub fn split_lines(s: &str) -> (r: Vec<String>)
    ensures
        r@.map_values(|t: String| t@) == lines_of(s@),
{
    if s.is_empty() {
        let r: Vec<String> = Vec::new();
        proof {
            assert(r@.map_values(|t: String| t@) =~= lines_of(s@));
        }
        return r;
    }
    let n = s.unicode_len();
    let mut out: Vec<String> = Vec::new();
    let mut cur = String::new();
    let mut i: usize = 0;
    while i < n
        invariant
            i <= n,
            n == s@.len(),
            n > 0,
            out@.map_values(|t: String| t@).push(cur@) == split_on(
                s@.subrange(0, i as int),
                '\n',
            ),
        decreases n - i,
    {
        let c = s.get_char(i);
        let ghost pre0 = s@.subrange(0, i as int);
        let ghost pre1 = s@.subrange(0, (i + 1) as int);
        proof {
            assert(pre1.drop_last() =~= pre0);
            assert(pre1.last() == s@[i as int]);
        }
        if c == '\n' {
            let ghost old_out = out@;
            let ghost old_cur = cur@;
            out.push(cur);
            cur = String::new();
            proof {
                assert(out@.map_values(|t: String| t@).push(cur@) =~= split_on(pre1, '\n'));
            }
        } else {
            let ghost old_pieces = out@.map_values(|t: String| t@).push(cur@);
            push_char(&mut cur, c);
            proof {
                assert(out@.map_values(|t: String| t@).push(cur@) =~= old_pieces.update(
                    old_pieces.len() - 1,
                    old_pieces.last().push(s@[i as int]),
                ));
            }
        }
        i = i + 1;
    }
    proof {
        assert(s@.subrange(0, n as int) =~= s@);
    }
    out.push(cur);
    proof {
        assert(out@.map_values(|t: String| t@) =~= lines_of(s@));
    }
    out
}

/// Finish a joined query: when even the resized buffer was too small, the
/// defined outcome is empty output; otherwise the reply splits on newlines.
pub fn parse_joined(capacity: usize, required: usize, text: &str) -> (r: Vec<String>)
    ensures
        required > capacity ==> r@.len() == 0,
        required <= capacity ==> r@.map_values(|t: String| t@) == lines_of(text@),
        text@.len() == 0 ==> r@.len() == 0,
{
    if required > capacity {
        Vec::new()
    } else {
        let r = split_lines(text);
        proof {
            if text@.len() == 0 {
                assert(r@.map_values(|t: String| t@).len() == 0);
            }
        }
        r
    }
}

/// Interpret a fixed-buffer path query: a zero status means the path is not
/// available, any other status hands the retrieved text through.
pub fn path_reply(status: i32, text: String) -> (r: Option<String>)
    ensures
        r is Some <==> status != 0,
        r matches Some(p) ==> p == text,
{
    if status == 0 {
        None
    } else {
        Some(text)
    }
}

} // verus!
