use vstd::prelude::*;

verus! {

// The feed parser reads extension elements (`prefix:name`) recursively, one
// call per level of nesting, with no bound of its own. `feed_supported`
// bounds the element nesting of a response body. It follows the lexer of the
// XML reader underneath: text up to `<`; start tags closed by the first `>`
// outside quotes (an empty element `<a/>` opens and closes at once); end
// tags likewise; comments closed by a `-->` past `<!--`; CDATA
// closed by `]]>`; processing instructions closed by `?>`; DOCTYPE closed by
// the first `>` outside quotes. Where that reader stops with an error, the
// scan stops too. A DOCTYPE with an internal subset (`[`) and the
// instruction `<?>`, on which a lexer could differ, are refused.

/// The deepest element nesting accepted in a feed body.
pub const MAX_FEED_NESTING: usize = 256;

pub const XML_TEXT: u8 = 0;

pub const XML_TAG: u8 = 1;

pub const XML_END_TAG: u8 = 2;

pub const XML_COMMENT: u8 = 3;

pub const XML_CDATA: u8 = 4;

pub const XML_PI: u8 = 5;

pub const XML_DOCTYPE: u8 = 6;

/// Where a scan of a feed body stands: what it is inside, how many elements
/// are open, where the current markup began, and the open quote (0 if none).
#[derive(Clone, Copy)]
pub struct XmlScan {
    pub mode: u8,
    pub depth: usize,
    pub start: usize,
    pub quote: u8,
}

pub open spec fn xml_text(depth: usize) -> XmlScan {
    XmlScan { mode: XML_TEXT, depth, start: 0, quote: 0 }
}

pub open spec fn is_quote(c: u8) -> bool {
    c == 0x22 || c == 0x27
}

/// The scan from position `i` in state `s` never nests deeper than
/// `MAX_FEED_NESTING` and meets nothing it refuses.
pub open spec fn feed_scan_ok(b: Seq<u8>, i: int, s: XmlScan) -> bool
    decreases b.len() - i,
{
    if i < 0 || i >= b.len() {
        true
    } else if s.mode == XML_TEXT {
        if b[i] != 0x3c {
            feed_scan_ok(b, i + 1, s)
        } else if i + 1 >= b.len() {
            true
        } else if b[i + 1] == 0x21 {
            if i + 2 >= b.len() {
                true
            } else if b[i + 2] == 0x5b {
                feed_scan_ok(b, i + 3, XmlScan { mode: XML_CDATA, start: i as usize, ..s })
            } else if b[i + 2] == 0x2d {
                feed_scan_ok(b, i + 3, XmlScan { mode: XML_COMMENT, start: i as usize, ..s })
            } else if b[i + 2] == 0x44 || b[i + 2] == 0x64 {
                feed_scan_ok(b, i + 3, XmlScan { mode: XML_DOCTYPE, start: i as usize, quote: 0, ..s })
            } else {
                true
            }
        } else if b[i + 1] == 0x3f {
            if i + 2 >= b.len() {
                true
            } else if b[i + 2] == 0x3e {
                false
            } else {
                feed_scan_ok(b, i + 2, XmlScan { mode: XML_PI, start: i as usize, ..s })
            }
        } else if b[i + 1] == 0x2f {
            feed_scan_ok(b, i + 2, XmlScan { mode: XML_END_TAG, start: i as usize, quote: 0, ..s })
        } else {
            feed_scan_ok(b, i + 1, XmlScan { mode: XML_TAG, start: i as usize, quote: 0, ..s })
        }
    } else if s.mode == XML_CDATA {
        if b[i] == 0x3e && b[i - 1] == 0x5d && b[i - 2] == 0x5d {
            feed_scan_ok(b, i + 1, xml_text(s.depth))
        } else {
            feed_scan_ok(b, i + 1, s)
        }
    } else if s.mode == XML_COMMENT {
        if b[i] == 0x3e && i - s.start > 5 && b[i - 1] == 0x2d && b[i - 2] == 0x2d {
            feed_scan_ok(b, i + 1, xml_text(s.depth))
        } else {
            feed_scan_ok(b, i + 1, s)
        }
    } else if s.mode == XML_PI {
        if b[i] == 0x3e && b[i - 1] == 0x3f {
            feed_scan_ok(b, i + 1, xml_text(s.depth))
        } else {
            feed_scan_ok(b, i + 1, s)
        }
    } else if s.quote != 0 {
        if b[i] == s.quote {
            feed_scan_ok(b, i + 1, XmlScan { quote: 0, ..s })
        } else {
            feed_scan_ok(b, i + 1, s)
        }
    } else if is_quote(b[i]) {
        feed_scan_ok(b, i + 1, XmlScan { quote: b[i], ..s })
    } else if s.mode == XML_DOCTYPE {
        if b[i] == 0x5b {
            false
        } else if b[i] == 0x3e {
            feed_scan_ok(b, i + 1, xml_text(s.depth))
        } else {
            feed_scan_ok(b, i + 1, s)
        }
    } else if s.mode == XML_END_TAG {
        if b[i] == 0x3e {
            feed_scan_ok(b, i + 1, xml_text(if s.depth > 0 { (s.depth - 1) as usize } else { 0 }))
        } else {
            feed_scan_ok(b, i + 1, s)
        }
    } else if b[i] == 0x3e {
        if s.depth >= MAX_FEED_NESTING {
            false
        } else if b[i - 1] == 0x2f {
            feed_scan_ok(b, i + 1, xml_text(s.depth))
        } else {
            feed_scan_ok(b, i + 1, xml_text((s.depth + 1) as usize))
        }
    } else {
        feed_scan_ok(b, i + 1, s)
    }
}

/// A feed body that the parser reads without nesting deeper than
/// `MAX_FEED_NESTING`.
pub open spec fn feed_supported(b: Seq<u8>) -> bool {
    feed_scan_ok(b, 0, xml_text(0))
}

/// Decides `feed_supported`.
pub fn is_supported_feed(b: &[u8]) -> (r: bool)
    ensures
        r == feed_supported(b@),
{
    let n = b.len();
    let mut s = XmlScan { mode: XML_TEXT, depth: 0, start: 0, quote: 0 };
    let mut i: usize = 0;
    while i < n
        invariant
            n == b@.len(),
            i <= n,
            s.depth <= MAX_FEED_NESTING,
            s.mode <= XML_DOCTYPE,
            s.mode != XML_TEXT ==> s.start + 1 <= i,
            (s.mode == XML_CDATA || s.mode == XML_COMMENT) ==> s.start + 3 <= i,
            s.mode == XML_PI ==> s.start + 2 <= i,
            s.mode == XML_TEXT ==> s.quote == 0,
            (s.mode == XML_TAG || s.mode == XML_DOCTYPE || s.mode == XML_END_TAG) || s.quote == 0,
            feed_scan_ok(b@, 0, xml_text(0)) == feed_scan_ok(b@, i as int, s),
        decreases n - i,
    {
        let c = b[i];
        if s.mode == XML_TEXT {
            if c != 0x3c {
                i = i + 1;
            } else if n - i <= 1 {
                return true;
            } else if b[i + 1] == 0x21 {
                if n - i <= 2 {
                    return true;
                }
                let d = b[i + 2];
                if d == 0x5b {
                    s = XmlScan { mode: XML_CDATA, start: i, ..s };
                } else if d == 0x2d {
                    s = XmlScan { mode: XML_COMMENT, start: i, ..s };
                } else if d == 0x44 || d == 0x64 {
                    s = XmlScan { mode: XML_DOCTYPE, start: i, quote: 0, ..s };
                } else {
                    return true;
                }
                i = i + 3;
            } else if b[i + 1] == 0x3f {
                if n - i <= 2 {
                    return true;
                }
                if b[i + 2] == 0x3e {
                    return false;
                }
                s = XmlScan { mode: XML_PI, start: i, ..s };
                i = i + 2;
            } else if b[i + 1] == 0x2f {
                s = XmlScan { mode: XML_END_TAG, start: i, quote: 0, ..s };
                i = i + 2;
            } else {
                s = XmlScan { mode: XML_TAG, start: i, quote: 0, ..s };
                i = i + 1;
            }
        } else if s.mode == XML_CDATA {
            if c == 0x3e && b[i - 1] == 0x5d && b[i - 2] == 0x5d {
                s = XmlScan { mode: XML_TEXT, depth: s.depth, start: 0, quote: 0 };
            }
            i = i + 1;
        } else if s.mode == XML_COMMENT {
            if c == 0x3e && i - s.start > 5 && b[i - 1] == 0x2d && b[i - 2] == 0x2d {
                s = XmlScan { mode: XML_TEXT, depth: s.depth, start: 0, quote: 0 };
            }
            i = i + 1;
        } else if s.mode == XML_PI {
            if c == 0x3e && b[i - 1] == 0x3f {
                s = XmlScan { mode: XML_TEXT, depth: s.depth, start: 0, quote: 0 };
            }
            i = i + 1;
        } else if s.quote != 0 {
            if c == s.quote {
                s = XmlScan { quote: 0, ..s };
            }
            i = i + 1;
        } else if c == 0x22 || c == 0x27 {
            s = XmlScan { quote: c, ..s };
            i = i + 1;
        } else if s.mode == XML_DOCTYPE {
            if c == 0x5b {
                return false;
            } else if c == 0x3e {
                s = XmlScan { mode: XML_TEXT, depth: s.depth, start: 0, quote: 0 };
            }
            i = i + 1;
        } else if s.mode == XML_END_TAG {
            if c == 0x3e {
                let depth = if s.depth > 0 { s.depth - 1 } else { 0 };
                s = XmlScan { mode: XML_TEXT, depth, start: 0, quote: 0 };
            }
            i = i + 1;
        } else if c == 0x3e {
            if s.depth >= MAX_FEED_NESTING {
                return false;
            }
            let depth = if b[i - 1] == 0x2f { s.depth } else { s.depth + 1 };
            s = XmlScan { mode: XML_TEXT, depth, start: 0, quote: 0 };
            i = i + 1;
        } else {
            i = i + 1;
        }
    }
    true
}

} // verus!
