//! The lines of a text, taken on its UTF-8 bytes.
//!
//! A line ends at a line feed; a carriage return just before that line feed
//! belongs to the line ending. The last line needs no line feed, and nothing
//! follows a final line feed.
use vstd::prelude::*;
use vstd::string::StringSliceAdditionalSpecFns;
use vstd::utf8::{
    encode_utf8_valid_utf8, is_char_boundary, is_char_boundary_iff_not_is_continuation_byte,
    is_char_boundary_start_end_of_seq, valid_utf8,
};

verus! {

/// The line feed.
pub const LINE_FEED: u8 = 10;

/// The carriage return.
pub const CARRIAGE_RETURN: u8 = 13;

/// Where the first line feed of `s` stands, or the length of `s` where it
/// holds none.
pub open spec fn newline_pos(s: Seq<u8>) -> int
    decreases s.len(),
{
    if s.len() == 0 {
        0
    } else if s[0] == LINE_FEED {
        0
    } else {
        1 + newline_pos(s.skip(1))
    }
}

/// The first line of a text that is not empty, without its line ending.
pub open spec fn first_line(s: Seq<u8>) -> Seq<u8> {
    let end = newline_pos(s);
    if 0 < end < s.len() && s[end - 1] == CARRIAGE_RETURN {
        s.subrange(0, end - 1)
    } else {
        s.subrange(0, end)
    }
}

/// Line `k` of a text, counted from zero, or `None` where the text has no
/// more than `k` lines.
pub open spec fn line_at(s: Seq<u8>, k: nat) -> Option<Seq<u8>>
    decreases k,
{
    if s.len() == 0 {
        None
    } else if k == 0 {
        Some(first_line(s))
    } else if newline_pos(s) >= s.len() {
        None
    } else {
        line_at(s.skip(newline_pos(s) + 1), (k - 1) as nat)
    }
}

/// The first line feed stands where a line feed follows bytes that are none.
pub proof fn lemma_newline_pos(s: Seq<u8>, p: int)
    requires
        0 <= p <= s.len(),
        forall|j: int| 0 <= j < p ==> s[j] != LINE_FEED,
        p < s.len() ==> s[p] == LINE_FEED,
    ensures
        newline_pos(s) == p,
    decreases s.len(),
{
    if s.len() > 0 && p > 0 {
        assert(s[0] != LINE_FEED);
        let t = s.skip(1);
        assert forall|j: int| 0 <= j < p - 1 implies t[j] != LINE_FEED by {
            assert(t[j] == s[j + 1]);
        }
        lemma_newline_pos(t, p - 1);
    }
}

/// Finds the first line feed.
fn find_newline(bytes: &[u8]) -> (p: usize)
    ensures
        p == newline_pos(bytes@),
        p <= bytes@.len(),
        p < bytes@.len() ==> bytes@[p as int] == LINE_FEED,
{
    let n: usize = bytes.len();
    let mut i: usize = 0;
    while i < n && bytes[i] != LINE_FEED
        invariant
            n == bytes@.len(),
            i <= n,
            forall|j: int| 0 <= j < i ==> bytes@[j] != LINE_FEED,
        decreases n - i,
    {
        i += 1;
    }
    proof {
        lemma_newline_pos(bytes@, i as int);
    }
    i
}

/// Cuts a text before a byte that is a line feed or a carriage return, or at
/// its end, and returns the part in front.
fn head_before<'a>(text: &'a str, cut: usize) -> (r: &'a str)
    requires
        cut <= text.spec_bytes().len(),
        cut < text.spec_bytes().len() ==> text.spec_bytes()[cut as int] == LINE_FEED
            || text.spec_bytes()[cut as int] == CARRIAGE_RETURN,
    ensures
        r.spec_bytes() == text.spec_bytes().subrange(0, cut as int),
{
    proof {
        let bytes = text.spec_bytes();
        encode_utf8_valid_utf8(text@);
        if cut < bytes.len() {
            is_char_boundary_iff_not_is_continuation_byte(bytes, cut as int);
        } else {
            is_char_boundary_start_end_of_seq(bytes);
        }
    }
    let (head, _) = text.split_at(cut);
    head
}

/// Drops a line and its line feed from the front of a text.
fn tail_after<'a>(text: &'a str, end: usize) -> (r: &'a str)
    requires
        end < text.spec_bytes().len(),
        text.spec_bytes()[end as int] == LINE_FEED,
    ensures
        r.spec_bytes() == text.spec_bytes().skip(end + 1),
{
    let ghost bytes = text.spec_bytes();
    proof {
        encode_utf8_valid_utf8(text@);
        is_char_boundary_iff_not_is_continuation_byte(bytes, end as int);
    }
    let (_, from_feed) = text.split_at(end);
    proof {
        let rest = from_feed.spec_bytes();
        encode_utf8_valid_utf8(from_feed@);
        assert(rest[0] == LINE_FEED);
        reveal_with_fuel(valid_utf8, 2);
        reveal_with_fuel(is_char_boundary, 2);
        assert(is_char_boundary(rest, 1));
    }
    let (_, tail) = from_feed.split_at(1);
    assert(tail.spec_bytes() =~= bytes.skip(end + 1));
    tail
}

/// Takes line `k` of a text, counted from zero.
pub fn nth_line<'a>(text: &'a str, k: usize) -> (r: Option<&'a str>)
    ensures
        match r {
            Some(line) => line_at(text.spec_bytes(), k as nat) == Some(line.spec_bytes()),
            None => line_at(text.spec_bytes(), k as nat) is None,
        },
{
    let mut rest: &str = text;
    let mut left: usize = k;
    loop
        invariant
            line_at(text.spec_bytes(), k as nat) == line_at(rest.spec_bytes(), left as nat),
        decreases left,
    {
        let bytes = rest.as_bytes();
        let n: usize = bytes.len();
        if n == 0 {
            return None;
        }
        let end: usize = find_newline(bytes);
        if left == 0 {
            let cut: usize = if 0 < end && end < n && bytes[end - 1] == CARRIAGE_RETURN {
                end - 1
            } else {
                end
            };
            let line = head_before(rest, cut);
            return Some(line);
        }
        if end >= n {
            return None;
        }
        rest = tail_after(rest, end);
        left -= 1;
    }
}

} // verus!
