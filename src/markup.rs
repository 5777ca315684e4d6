use vstd::prelude::*;

verus! {

// The markup converter fails to return on a few inputs:
// - a `<!DOCTYPE` that its scan reaches with no `>` after it;
// - a tag that it takes as self-closing (it looks for `/` by character
//   count) while the byte before the closing `>` lies inside a multi-byte
//   character: it then slices the string there;
// - elements nested deeper than its recursive renderer can go;
// - a list `start` value that, plus the number of items, passes `usize::MAX`
//   (its attribute reader takes `start=v` and `start"v"`, and skips spaces).
// `markup_supported` follows the converter's own scan over the UTF-8 bytes
// of the markup (text, comments, DOCTYPE, and tags closed by the first `>`
// outside quotes) and excludes these cases. It errs on the safe side in two
// places: it counts every `start` value inside a tag, not only on lists, and
// a `start` value needs 19 digits before it is refused.

/// The deepest element nesting that is handed to the converter.
pub const MAX_NESTING: usize = 256;

pub const MODE_TEXT: u8 = 0;

pub const MODE_DOCTYPE: u8 = 1;

pub const MODE_COMMENT: u8 = 2;

pub const MODE_TAG: u8 = 3;

/// Where a scan of the markup stands: what it is inside, how many elements
/// are open, and, inside a tag, where the tag began and the open quotes
/// (their count and the innermost one).
#[derive(Clone, Copy)]
pub struct ScanState {
    pub mode: u8,
    pub depth: usize,
    pub start: usize,
    pub quotes: usize,
    pub top: u8,
}

pub open spec fn initial_state() -> ScanState {
    ScanState { mode: MODE_TEXT, depth: 0, start: 0, quotes: 0, top: 0 }
}

/// `pat` occurs in `b` at position `p`.
pub open spec fn occurs_at(b: Seq<u8>, p: int, pat: Seq<u8>) -> bool {
    0 <= p && p + pat.len() <= b.len() && b.subrange(p, p + pat.len()) == pat
}

pub open spec fn doctype_pattern() -> Seq<u8> {
    seq![0x3cu8, 0x21, 0x44, 0x4f, 0x43, 0x54, 0x59, 0x50, 0x45]
}

pub open spec fn comment_end_pattern() -> Seq<u8> {
    seq![0x2du8, 0x2d, 0x3e]
}

pub open spec fn is_continuation(c: u8) -> bool {
    0x80 <= c < 0xc0
}

pub open spec fn in_text(s: ScanState, depth: usize) -> ScanState {
    ScanState { mode: MODE_TEXT, depth, start: 0, quotes: 0, top: 0 }
}

/// The state after tag byte `c`: a quote equal to the innermost open quote
/// closes it, any other quote opens a new one (open quotes alternate, so
/// after a close the innermost is the other quote character).
pub open spec fn tag_step(s: ScanState, c: u8) -> ScanState {
    if c == 0x22 || c == 0x27 {
        if s.quotes > 0 && s.top == c {
            ScanState {
                quotes: (s.quotes - 1) as usize,
                top: if c == 0x22 { 0x27u8 } else { 0x22u8 },
                ..s
            }
        } else {
            ScanState { quotes: (s.quotes + 1) as usize, top: c, ..s }
        }
    } else {
        s
    }
}

/// The first byte of the `k`-th character (from 0) that starts at or after
/// byte `r`.
pub open spec fn nth_char_byte(b: Seq<u8>, r: int, k: nat) -> Option<u8>
    decreases b.len() - r,
{
    if r < 0 || r >= b.len() {
        None
    } else if is_continuation(b[r]) {
        nth_char_byte(b, r + 1, k)
    } else if k == 0 {
        Some(b[r])
    } else {
        nth_char_byte(b, r + 1, (k - 1) as nat)
    }
}

/// The converter's test for a self-closing tag that begins at `start` and
/// closes at `q`: the character at character index `q - start - 1` is `/`.
pub open spec fn converter_self_closing(b: Seq<u8>, start: int, q: int) -> bool {
    nth_char_byte(b, start, (q - start - 1) as nat) == Some(0x2fu8)
}

/// The scan from position `i` in state `s` meets none of the failing cases.
pub open spec fn scan_ok(b: Seq<u8>, i: int, s: ScanState) -> bool
    decreases b.len() - i,
{
    if i < 0 || i >= b.len() {
        s.mode != MODE_DOCTYPE
    } else if s.mode == MODE_TEXT {
        if b[i] != 0x3c {
            scan_ok(b, i + 1, s)
        } else if i + 1 < b.len() && b[i + 1] == 0x21 {
            if occurs_at(b, i, doctype_pattern()) {
                scan_ok(b, i + 1, ScanState { mode: MODE_DOCTYPE, ..s })
            } else {
                scan_ok(b, i + 1, ScanState { mode: MODE_COMMENT, ..s })
            }
        } else {
            scan_ok(b, i + 1, ScanState { mode: MODE_TAG, start: i as usize, quotes: 0, top: 0, ..s })
        }
    } else if s.mode == MODE_DOCTYPE {
        if b[i] == 0x3e {
            scan_ok(b, i + 1, in_text(s, s.depth))
        } else {
            scan_ok(b, i + 1, s)
        }
    } else if s.mode == MODE_COMMENT {
        if occurs_at(b, i, comment_end_pattern()) {
            scan_ok(b, i + 3, in_text(s, s.depth))
        } else {
            scan_ok(b, i + 1, s)
        }
    } else if b[i] == 0x3e && s.quotes == 0 {
        let self_closing = converter_self_closing(b, s.start as int, i);
        if self_closing && is_continuation(b[i - 1]) {
            false
        } else if b[s.start + 1] == 0x2f {
            scan_ok(b, i + 1, in_text(s, if s.depth > 0 { (s.depth - 1) as usize } else { 0 }))
        } else if self_closing {
            scan_ok(b, i + 1, in_text(s, s.depth))
        } else if s.depth >= MAX_NESTING {
            false
        } else {
            scan_ok(b, i + 1, in_text(s, (s.depth + 1) as usize))
        }
    } else if start_key_at(b, i) && digits_in_run(b, i + 5) >= 19 {
        false
    } else {
        scan_ok(b, i + 1, tag_step(s, b[i]))
    }
}

pub open spec fn start_key_pattern() -> Seq<u8> {
    seq![0x73u8, 0x74, 0x61, 0x72, 0x74]
}

/// `start` at `p`, followed by `=` or by a quote: a `start` attribute with a
/// value, as the converter's attribute reader takes it.
pub open spec fn start_key_at(b: Seq<u8>, p: int) -> bool {
    &&& occurs_at(b, p, start_key_pattern())
    &&& p + 5 < b.len()
    &&& (b[p + 5] == 0x3d || b[p + 5] == 0x22)
}

pub open spec fn is_digit(c: u8) -> bool {
    0x30 <= c <= 0x39
}

/// A byte that can stand between a `start` key and the end of a numeric
/// value: `=`, quotes, a sign, digits, and whitespace (the reader skips
/// whitespace before a value; non-ASCII bytes are kept in for Unicode
/// spaces).
pub open spec fn value_byte(c: u8) -> bool {
    is_digit(c) || c == 0x2b || c == 0x22 || c == 0x3d || (0x09 <= c <= 0x0d) || c == 0x20 || c >= 0x80
}

/// The digits in the run of value bytes that begins at `j`.
pub open spec fn digits_in_run(b: Seq<u8>, j: int) -> nat
    decreases b.len() - j,
{
    if j < 0 || j >= b.len() || !value_byte(b[j]) {
        0
    } else {
        digits_in_run(b, j + 1) + if is_digit(b[j]) { 1nat } else { 0nat }
    }
}

/// Markup that the converter handles without failing to return.
pub open spec fn markup_supported(b: Seq<u8>) -> bool {
    scan_ok(b, 0, initial_state())
}

fn pattern_at(b: &[u8], p: usize, pat: &Vec<u8>) -> (r: bool)
    ensures
        r == occurs_at(b@, p as int, pat@),
{
    if p > b.len() || pat.len() > b.len() - p {
        return false;
    }
    let bl = b.len();
    let mut k: usize = 0;
    while k < pat.len()
        invariant
            bl == b@.len(),
            p + pat@.len() <= b@.len(),
            k <= pat@.len(),
            forall|j: int| 0 <= j < k ==> b@[p + j] == pat@[j],
        decreases pat@.len() - k,
    {
        if b[p + k] != pat[k] {
            assert(b@.subrange(p as int, p + pat@.len())[k as int] != pat@[k as int]);
            return false;
        }
        k = k + 1;
    }
    assert(b@.subrange(p as int, p + pat@.len()) =~= pat@);
    true
}

fn nth_char(b: &[u8], r0: usize, k0: usize) -> (r: Option<u8>)
    ensures
        r == nth_char_byte(b@, r0 as int, k0 as nat),
{
    let n = b.len();
    let mut r: usize = r0;
    let mut k: usize = k0;
    while r < n
        invariant
            n == b@.len(),
            r0 <= r,
            nth_char_byte(b@, r0 as int, k0 as nat) == nth_char_byte(b@, r as int, k as nat),
        decreases n - r,
    {
        let c = b[r];
        if !(0x80 <= c && c < 0xc0) {
            if k == 0 {
                return Some(c);
            }
            k = k - 1;
        }
        r = r + 1;
    }
    None
}

fn scan_markup(b: &[u8]) -> (r: bool)
    ensures
        r == scan_ok(b@, 0, initial_state()),
{
    let n = b.len();
    let doctype: Vec<u8> = vec![0x3c, 0x21, 0x44, 0x4f, 0x43, 0x54, 0x59, 0x50, 0x45];
    let comment_end: Vec<u8> = vec![0x2d, 0x2d, 0x3e];
    assert(doctype@ =~= doctype_pattern());
    assert(comment_end@ =~= comment_end_pattern());
    let key: Vec<u8> = vec![0x73, 0x74, 0x61, 0x72, 0x74];
    assert(key@ =~= start_key_pattern());
    let mut s = ScanState { mode: MODE_TEXT, depth: 0, start: 0, quotes: 0, top: 0 };
    let mut i: usize = 0;
    while i < n
        invariant
            n == b@.len(),
            i <= n,
            doctype@ == doctype_pattern(),
            comment_end@ == comment_end_pattern(),
            key@ == start_key_pattern(),
            s.quotes <= i,
            s.depth <= MAX_NESTING,
            s.mode == MODE_TAG ==> s.start + 1 <= i,
            s.mode <= MODE_TAG,
            scan_ok(b@, 0, initial_state()) == scan_ok(b@, i as int, s),
        decreases n - i,
    {
        let c = b[i];
        if s.mode == MODE_TEXT {
            if c != 0x3c {
            } else if i + 1 < n && b[i + 1] == 0x21 {
                if pattern_at(b, i, &doctype) {
                    s = ScanState { mode: MODE_DOCTYPE, ..s };
                } else {
                    s = ScanState { mode: MODE_COMMENT, ..s };
                }
            } else {
                s = ScanState { mode: MODE_TAG, start: i, quotes: 0, top: 0, ..s };
            }
            i = i + 1;
        } else if s.mode == MODE_DOCTYPE {
            if c == 0x3e {
                s = ScanState { mode: MODE_TEXT, depth: s.depth, start: 0, quotes: 0, top: 0 };
            }
            i = i + 1;
        } else if s.mode == MODE_COMMENT {
            if pattern_at(b, i, &comment_end) {
                s = ScanState { mode: MODE_TEXT, depth: s.depth, start: 0, quotes: 0, top: 0 };
                i = i + 3;
            } else {
                i = i + 1;
            }
        } else if c == 0x3e && s.quotes == 0 {
            let before = b[i - 1];
            let self_closing = match nth_char(b, s.start, i - s.start - 1) {
                Some(x) => x == 0x2f,
                None => false,
            };
            if self_closing && 0x80 <= before && before < 0xc0 {
                return false;
            }
            let depth = if b[s.start + 1] == 0x2f {
                if s.depth > 0 { s.depth - 1 } else { 0 }
            } else if self_closing {
                s.depth
            } else if s.depth >= MAX_NESTING {
                return false;
            } else {
                s.depth + 1
            };
            s = ScanState { mode: MODE_TEXT, depth, start: 0, quotes: 0, top: 0 };
            i = i + 1;
        } else {
            if pattern_at(b, i, &key) && i + 5 < n && (b[i + 5] == 0x3d || b[i + 5] == 0x22) {
                if run_digits(b, i + 5) >= 19 {
                    return false;
                }
            }
            if c == 0x22 || c == 0x27 {
                if s.quotes > 0 && s.top == c {
                    s = ScanState { quotes: s.quotes - 1, top: if c == 0x22 { 0x27 } else { 0x22 }, ..s };
                } else {
                    s = ScanState { quotes: s.quotes + 1, top: c, ..s };
                }
            }
            i = i + 1;
        }
    }
    s.mode != MODE_DOCTYPE
}

fn run_digits(b: &[u8], j0: usize) -> (r: usize)
    requires
        j0 <= b@.len(),
    ensures
        r as nat == digits_in_run(b@, j0 as int),
{
    let n = b.len();
    let mut count: usize = 0;
    let mut j: usize = j0;
    while j < n
        invariant
            n == b@.len(),
            j0 <= j <= n,
            count <= j - j0,
            digits_in_run(b@, j0 as int) == count + digits_in_run(b@, j as int),
        decreases n - j,
    {
        let c = b[j];
        let digit = 0x30 <= c && c <= 0x39;
        if !(digit || c == 0x2b || c == 0x22 || c == 0x3d || (0x09 <= c && c <= 0x0d) || c == 0x20 || c >= 0x80) {
            return count;
        }
        if digit {
            count = count + 1;
        }
        j = j + 1;
    }
    count
}

/// Decides `markup_supported` on the UTF-8 bytes of a markup string.
pub fn is_supported_markup(b: &[u8]) -> (r: bool)
    ensures
        r == markup_supported(b@),
{
    scan_markup(b)
}

} // verus!
