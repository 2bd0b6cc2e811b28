//! The line protocol spoken with the recognizer subprocess.
//!
//! Outbound: one request line `"<width> <height>\n"` naming the canvas
//! dimensions; the subprocess reads the rendered canvas out-of-band using
//! them. Inbound: one line per result; a line opening with the literal
//! prefix `recognized:` carries the recognized text (surrounding ASCII
//! whitespace trimmed), any other line is diagnostic noise and is ignored.

use vstd::prelude::*;

verus! {

pub const SPACE: u8 = 32;

pub const NEWLINE: u8 = 10;

/// The decimal digits of `n`, most significant first, as ASCII bytes.
pub open spec fn dec_spec(n: nat) -> Seq<u8>
    decreases n,
{
    if n < 10 {
        seq![(48 + n) as u8]
    } else {
        dec_spec(n / 10).push((48 + n % 10) as u8)
    }
}

/// Render `n` in decimal ASCII.
pub fn u32_dec(n: u32) -> (r: Vec<u8>)
    ensures
        r@ == dec_spec(n as nat),
    decreases n,
{
    if n < 10 {
        let mut r: Vec<u8> = Vec::new();
        r.push(48 + n as u8);
        proof {
            assert(r@ =~= dec_spec(n as nat));
        }
        r
    } else {
        let mut r = u32_dec(n / 10);
        r.push(48 + (n % 10) as u8);
        r
    }
}

/// The request line for a canvas of the given dimensions.
pub open spec fn request_line_spec(width: u32, height: u32) -> Seq<u8> {
    dec_spec(width as nat) + seq![SPACE] + dec_spec(height as nat) + seq![NEWLINE]
}

/// Build the outbound recognition request for the given canvas dimensions.
pub fn request_line(width: u32, height: u32) -> (r: Vec<u8>)
    ensures
        r@ == request_line_spec(width, height),
{
    let mut r = u32_dec(width);
    r.push(SPACE);
    let mut h = u32_dec(height);
    r.append(&mut h);
    r.push(NEWLINE);
    proof {
        assert(r@ =~= request_line_spec(width, height));
    }
    r
}

/// ASCII whitespace, as the trim on a response line understands it.
pub open spec fn is_ws(b: u8) -> bool {
    b == 32 || b == 9 || b == 10 || b == 13
}

/// `s` with leading ASCII whitespace removed.
pub open spec fn trim_left_spec(s: Seq<u8>) -> Seq<u8>
    decreases s.len(),
{
    if s.len() > 0 && is_ws(s[0]) {
        trim_left_spec(s.drop_first())
    } else {
        s
    }
}

/// `s` with trailing ASCII whitespace removed.
pub open spec fn trim_right_spec(s: Seq<u8>) -> Seq<u8>
    decreases s.len(),
{
    if s.len() > 0 && is_ws(s.last()) {
        trim_right_spec(s.drop_last())
    } else {
        s
    }
}

/// `s` with surrounding ASCII whitespace removed.
pub open spec fn trim_spec(s: Seq<u8>) -> Seq<u8> {
    trim_right_spec(trim_left_spec(s))
}

/// When the first `i` bytes are whitespace, trimming from the left skips them.
proof fn lemma_trim_left_skip(s: Seq<u8>, i: int)
    requires
        0 <= i <= s.len(),
        forall|k: int| 0 <= k < i ==> is_ws(s[k]),
    ensures
        trim_left_spec(s) == trim_left_spec(s.subrange(i, s.len() as int)),
    decreases i,
{
    if i == 0 {
        assert(s.subrange(0, s.len() as int) =~= s);
    } else {
        let t = s.drop_first();
        assert(trim_left_spec(s) == trim_left_spec(t));
        lemma_trim_left_skip(t, i - 1);
        assert(t.subrange(i - 1, t.len() as int) =~= s.subrange(i, s.len() as int));
    }
}

/// When the bytes from `j` on are whitespace, trimming from the right drops them.
proof fn lemma_trim_right_skip(s: Seq<u8>, j: int)
    requires
        0 <= j <= s.len(),
        forall|k: int| j <= k < s.len() ==> is_ws(s[k]),
    ensures
        trim_right_spec(s) == trim_right_spec(s.subrange(0, j)),
    decreases s.len() - j,
{
    if j == s.len() {
        assert(s.subrange(0, j) =~= s);
    } else {
        let t = s.drop_last();
        assert(is_ws(s.last()));
        assert(trim_right_spec(s) == trim_right_spec(t));
        lemma_trim_right_skip(t, j);
        assert(t.subrange(0, j) =~= s.subrange(0, j));
    }
}

fn is_ws_byte(b: u8) -> (r: bool)
    ensures
        r == is_ws(b),
{
    b == 32 || b == 9 || b == 10 || b == 13
}

/// Remove surrounding ASCII whitespace from `s`.
pub fn trim_ascii(s: &[u8]) -> (r: Vec<u8>)
    ensures
        r@ == trim_spec(s@),
{
    let len = s.len();
    let mut lo: usize = 0;
    while lo < len && is_ws_byte(s[lo])
        invariant
            len == s@.len(),
            0 <= lo <= len,
            forall|k: int| 0 <= k < lo ==> is_ws(s@[k]),
        decreases len - lo,
    {
        lo = lo + 1;
    }
    let mut hi: usize = len;
    while hi > lo && is_ws_byte(s[hi - 1])
        invariant
            len == s@.len(),
            0 <= lo <= hi <= len,
            forall|k: int| hi <= k < len ==> is_ws(s@[k]),
        decreases hi,
    {
        hi = hi - 1;
    }
    let mut r: Vec<u8> = Vec::new();
    let mut i: usize = lo;
    while i < hi
        invariant
            len == s@.len(),
            lo <= i <= hi <= len,
            r@ == s@.subrange(lo as int, i as int),
        decreases hi - i,
    {
        let b = s[i];
        r.push(b);
        proof {
            assert(r@ =~= s@.subrange(lo as int, i + 1));
        }
        i = i + 1;
    }
    proof {
        let sv = s@;
        let l = sv.len() as int;
        lemma_trim_left_skip(sv, lo as int);
        let t = sv.subrange(lo as int, l);
        if lo < len {
            assert(!is_ws(t[0]));
        }
        assert(trim_left_spec(t) == t);
        lemma_trim_right_skip(t, hi - lo);
        let u = t.subrange(0, hi - lo);
        if hi > lo {
            assert(!is_ws(u.last()));
        }
        assert(trim_right_spec(u) == u);
        assert(u =~= sv.subrange(lo as int, hi as int));
        assert(r@ =~= u);
    }
    r
}

/// The literal prefix that marks a recognition result line: `recognized:`.
pub open spec fn result_prefix() -> Seq<u8> {
    seq![114u8, 101u8, 99u8, 111u8, 103u8, 110u8, 105u8, 122u8, 101u8, 100u8, 58u8]
}

/// What an inbound line means: the trimmed remainder after the result
/// prefix, or nothing for a diagnostic line.
pub open spec fn parse_response_spec(line: Seq<u8>) -> Option<Seq<u8>> {
    if line.len() >= 11 && line.subrange(0, 11) == result_prefix() {
        Some(trim_spec(line.subrange(11, line.len() as int)))
    } else {
        None
    }
}

/// Parse one inbound line from the recognizer.
pub fn parse_response(line: &[u8]) -> (r: Option<Vec<u8>>)
    ensures
        match r {
            Some(text) => parse_response_spec(line@) == Some(text@),
            None => parse_response_spec(line@) is None,
        },
{
    let prefix: Vec<u8> = vec![114u8, 101, 99, 111, 103, 110, 105, 122, 101, 100, 58];
    proof {
        assert(prefix@ =~= result_prefix());
    }
    if line.len() < 11 {
        return None;
    }
    let mut i: usize = 0;
    while i < 11
        invariant
            line@.len() >= 11,
            prefix@ == result_prefix(),
            0 <= i <= 11,
            forall|k: int| 0 <= k < i ==> line@[k] == result_prefix()[k],
        decreases 11 - i,
    {
        if line[i] != prefix[i] {
            proof {
                assert(line@.subrange(0, 11)[i as int] != result_prefix()[i as int]);
            }
            return None;
        }
        i = i + 1;
    }
    proof {
        assert(line@.subrange(0, 11) =~= result_prefix());
    }
    let tail = vstd::slice::slice_subrange(line, 11, line.len());
    let rest = trim_ascii(tail);
    Some(rest)
}

} // verus!
