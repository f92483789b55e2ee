//! Reading string values out of TOML documents.
use vstd::prelude::*;
use vstd::string::StringSliceAdditionalSpecFns;

verus! {

/// Whether the `toml` crate accepts `text` as a TOML document.
pub uninterp spec fn toml_accepts(text: Seq<char>) -> bool;

/// The string that the TOML document `text` holds under the key path `path`:
/// `None` where a key on the way is missing or does not lead to a table, or
/// the value at the end is not a string.
pub uninterp spec fn toml_string_at(text: Seq<char>, path: Seq<Seq<char>>) -> Option<Seq<char>>;

/// The key path written as a sequence of character sequences.
pub open spec fn key_path(path: Seq<&str>) -> Seq<Seq<char>> {
    path.map_values(|k: &str| k@)
}

/// The view of an optional owned string.
pub open spec fn opt_view(s: Option<String>) -> Option<Seq<char>> {
    match s {
        Some(v) => Some(v@),
        None => None,
    }
}


/// The deepest nesting, as `nesting_depth` measures it, that a text handed
/// to the parser may reach. The parser and the value it builds descend once
/// per open array or inline table and once per segment of a dotted key or
/// table header, with no limit of their own. A table header and a line below
/// it are measured apart, so the descent stays under twice this bound.
pub const MAX_NESTING: usize = 64;

/// Where the scanner stands in the text, as the TOML tokenizer reads it.
#[derive(Clone, Copy, Debug, PartialEq, Eq, Structural)]
pub enum LexState {
    /// Between tokens: brackets, braces and dots here count.
    Normal,
    /// After `#`, up to the end of the line.
    Comment,
    /// Inside a one-line basic string.
    Basic,
    /// Inside a one-line literal string.
    Literal,
    /// Inside a multi-line basic string.
    MultiBasic,
    /// Inside a multi-line literal string.
    MultiLiteral,
}

/// The byte at `k`, or zero past either end.
pub open spec fn byte_at(bytes: Seq<u8>, k: int) -> u8 {
    if 0 <= k < bytes.len() {
        bytes[k]
    } else {
        0
    }
}

/// Where a multi-line string that closes with the three quotes `q` at `i`
/// ends: up to two more quotes belong to its content.
pub open spec fn multi_close_end(bytes: Seq<u8>, i: int, q: u8) -> int {
    if byte_at(bytes, i + 3) == q {
        if byte_at(bytes, i + 4) == q {
            i + 5
        } else {
            i + 4
        }
    } else {
        i + 3
    }
}

/// The count of dots after a line ends: kept inside an open array or inline
/// table, cleared at the top level.
pub open spec fn dots_after_line(open: nat, dots: nat) -> nat {
    if open == 0 {
        0
    } else {
        dots
    }
}

/// One step of the scanner at `i`: the next position and state, the count of
/// open arrays and inline tables, and the count of dots since the last line
/// end at the top level.
pub open spec fn scan_step(bytes: Seq<u8>, i: int, st: LexState, open: nat, dots: nat) -> (
    int,
    LexState,
    nat,
    nat,
) {
    let b = byte_at(bytes, i);
    let b1 = byte_at(bytes, i + 1);
    let b2 = byte_at(bytes, i + 2);
    match st {
        LexState::Normal => if b == 0x23 {
            (i + 1, LexState::Comment, open, dots)
        } else if b == 0x22 && b1 == 0x22 && b2 == 0x22 {
            (i + 3, LexState::MultiBasic, open, dots)
        } else if b == 0x27 && b1 == 0x27 && b2 == 0x27 {
            (i + 3, LexState::MultiLiteral, open, dots)
        } else if (b == 0x22 || b == 0x27) && b1 == b {
            (i + 2, LexState::Normal, open, dots)
        } else if b == 0x22 {
            (i + 1, LexState::Basic, open, dots)
        } else if b == 0x27 {
            (i + 1, LexState::Literal, open, dots)
        } else if b == 0x5b || b == 0x7b {
            (i + 1, LexState::Normal, open + 1, dots)
        } else if b == 0x5d || b == 0x7d {
            (i + 1, LexState::Normal, if open > 0 { (open - 1) as nat } else { 0 }, dots)
        } else if b == 0x2e {
            (i + 1, LexState::Normal, open, dots + 1)
        } else if b == 0x0a {
            (i + 1, LexState::Normal, open, dots_after_line(open, dots))
        } else {
            (i + 1, LexState::Normal, open, dots)
        },
        LexState::Comment => if b == 0x0a {
            (i + 1, LexState::Normal, open, dots_after_line(open, dots))
        } else {
            (i + 1, LexState::Comment, open, dots)
        },
        LexState::Basic => if b == 0x5c {
            (i + 2, LexState::Basic, open, dots)
        } else if b == 0x22 || b == 0x0a {
            (i + 1, LexState::Normal, open, dots)
        } else {
            (i + 1, LexState::Basic, open, dots)
        },
        LexState::Literal => if b == 0x27 || b == 0x0a {
            (i + 1, LexState::Normal, open, dots)
        } else {
            (i + 1, LexState::Literal, open, dots)
        },
        LexState::MultiBasic => if b == 0x5c {
            (i + 2, LexState::MultiBasic, open, dots)
        } else if b == 0x22 && b1 == 0x22 && b2 == 0x22 {
            (multi_close_end(bytes, i, 0x22), LexState::Normal, open, dots)
        } else {
            (i + 1, LexState::MultiBasic, open, dots)
        },
        LexState::MultiLiteral => if b == 0x27 && b1 == 0x27 && b2 == 0x27 {
            (multi_close_end(bytes, i, 0x27), LexState::Normal, open, dots)
        } else {
            (i + 1, LexState::MultiLiteral, open, dots)
        },
    }
}

/// The largest `open + dots` that the scanner reaches from position `i` on.
pub open spec fn nesting_from(bytes: Seq<u8>, i: int, st: LexState, open: nat, dots: nat) -> nat
    decreases bytes.len() - i,
{
    if i < 0 || i >= bytes.len() {
        open + dots
    } else {
        let next = scan_step(bytes, i, st, open, dots);
        // Every step moves forward; a position past the end counts as the end.
        let j = if next.0 <= i {
            i + 1
        } else if next.0 <= bytes.len() {
            next.0
        } else {
            bytes.len() as int
        };
        let rest = nesting_from(bytes, j, next.1, next.2, next.3);
        if rest > open + dots {
            rest
        } else {
            open + dots
        }
    }
}

/// How deep the text nests outside strings and comments: the open arrays and
/// inline tables plus the dots of keys (and of numbers) since the last line
/// end at the top level.
pub open spec fn nesting_depth(text: &str) -> nat {
    nesting_from(text.spec_bytes(), 0, LexState::Normal, 0, 0)
}

/// Whether `text` is shallow enough to be handed to the parser.
pub open spec fn parser_safe(text: &str) -> bool {
    nesting_depth(text) <= MAX_NESTING
}

/// The byte `off` places after `i`, or zero past the end.
fn byte_after(bytes: &[u8], i: usize, off: usize) -> (r: u8)
    requires
        i < bytes@.len(),
    ensures
        r == byte_at(bytes@, i + off),
{
    if off < bytes.len() - i {
        bytes[i + off]
    } else {
        0
    }
}

/// `i + k`, or the end of the text where that lies past it.
fn advance(n: usize, i: usize, k: usize) -> (j: usize)
    requires
        i < n,
    ensures
        j == if i + k <= n { i + k } else { n as int },
{
    if k <= n - i {
        i + k
    } else {
        n
    }
}

/// One scanner step, with positions past the end moved back to the end.
fn scan_step_exec(bytes: &[u8], i: usize, st: LexState, open: usize, dots: usize) -> (r: (
    usize,
    LexState,
    usize,
    usize,
))
    requires
        i < bytes@.len(),
        open + dots <= MAX_NESTING,
    ensures
        ({
            let s = scan_step(bytes@, i as int, st, open as nat, dots as nat);
            &&& r.0 == if s.0 <= bytes@.len() { s.0 } else { bytes@.len() as int }
            &&& r.1 == s.1
            &&& r.2 == s.2
            &&& r.3 == s.3
        }),
{
    let n = bytes.len();
    let b = bytes[i];
    let b1 = byte_after(bytes, i, 1);
    let b2 = byte_after(bytes, i, 2);
    match st {
        LexState::Normal => if b == 0x23 {
            (i + 1, LexState::Comment, open, dots)
        } else if b == 0x22 && b1 == 0x22 && b2 == 0x22 {
            (advance(n, i, 3), LexState::MultiBasic, open, dots)
        } else if b == 0x27 && b1 == 0x27 && b2 == 0x27 {
            (advance(n, i, 3), LexState::MultiLiteral, open, dots)
        } else if (b == 0x22 || b == 0x27) && b1 == b {
            (advance(n, i, 2), LexState::Normal, open, dots)
        } else if b == 0x22 {
            (i + 1, LexState::Basic, open, dots)
        } else if b == 0x27 {
            (i + 1, LexState::Literal, open, dots)
        } else if b == 0x5b || b == 0x7b {
            (i + 1, LexState::Normal, open + 1, dots)
        } else if b == 0x5d || b == 0x7d {
            (i + 1, LexState::Normal, if open > 0 { open - 1 } else { 0 }, dots)
        } else if b == 0x2e {
            (i + 1, LexState::Normal, open, dots + 1)
        } else if b == 0x0a {
            (i + 1, LexState::Normal, open, if open == 0 { 0 } else { dots })
        } else {
            (i + 1, LexState::Normal, open, dots)
        },
        LexState::Comment => if b == 0x0a {
            (i + 1, LexState::Normal, open, if open == 0 { 0 } else { dots })
        } else {
            (i + 1, LexState::Comment, open, dots)
        },
        LexState::Basic => if b == 0x5c {
            (advance(n, i, 2), LexState::Basic, open, dots)
        } else if b == 0x22 || b == 0x0a {
            (i + 1, LexState::Normal, open, dots)
        } else {
            (i + 1, LexState::Basic, open, dots)
        },
        LexState::Literal => if b == 0x27 || b == 0x0a {
            (i + 1, LexState::Normal, open, dots)
        } else {
            (i + 1, LexState::Literal, open, dots)
        },
        LexState::MultiBasic => if b == 0x5c {
            (advance(n, i, 2), LexState::MultiBasic, open, dots)
        } else if b == 0x22 && b1 == 0x22 && b2 == 0x22 {
            let b3 = byte_after(bytes, i, 3);
            let b4 = byte_after(bytes, i, 4);
            let k: usize = if b3 == 0x22 { if b4 == 0x22 { 5 } else { 4 } } else { 3 };
            (advance(n, i, k), LexState::Normal, open, dots)
        } else {
            (i + 1, LexState::MultiBasic, open, dots)
        },
        LexState::MultiLiteral => if b == 0x27 && b1 == 0x27 && b2 == 0x27 {
            let b3 = byte_after(bytes, i, 3);
            let b4 = byte_after(bytes, i, 4);
            let k: usize = if b3 == 0x27 { if b4 == 0x27 { 5 } else { 4 } } else { 3 };
            (advance(n, i, k), LexState::Normal, open, dots)
        } else {
            (i + 1, LexState::MultiLiteral, open, dots)
        },
    }
}

/// Decides `parser_safe`: scans the text once, and stops as soon as the
/// nesting passes the bound.
pub fn is_parser_safe(text: &str) -> (r: bool)
    ensures
        r == parser_safe(text),
{
    let bytes = text.as_bytes();
    let n = bytes.len();
    let mut i: usize = 0;
    let mut st = LexState::Normal;
    let mut open: usize = 0;
    let mut dots: usize = 0;
    while i < n
        invariant
            n == bytes@.len(),
            bytes@ == text.spec_bytes(),
            i <= n,
            open + dots <= MAX_NESTING,
            parser_safe(text) == (nesting_from(bytes@, i as int, st, open as nat, dots as nat)
                <= MAX_NESTING),
        decreases n - i,
    {
        let ghost s = scan_step(bytes@, i as int, st, open as nat, dots as nat);
        let r = scan_step_exec(bytes, i, st, open, dots);
        proof {
            assert(s.0 > i);
        }
        i = r.0;
        st = r.1;
        open = r.2;
        dots = r.3;
        if open + dots > MAX_NESTING {
            assert(nesting_from(bytes@, i as int, st, open as nat, dots as nat) >= open + dots);
            return false;
        }
    }
    true
}

/// The string that a lookup finds: none in a text that is too deeply nested
/// to be parsed or that does not parse.
pub open spec fn string_in(text: &str, path: Seq<Seq<char>>) -> Option<Seq<char>> {
    if parser_safe(text) && toml_accepts(text@) {
        toml_string_at(text@, path)
    } else {
        None
    }
}

/// Relies on `toml::from_str` into a `toml::Value`, then `toml::Value::get` for
/// each key of `path` and `toml::Value::as_str` at its end. `None` when the
/// text does not parse; else the string stored under that path, if any. Both
/// depend on the text and the path alone. The parser and the value it builds
/// recurse once per nested array or inline table and once per segment of a
/// dotted key or table header, so the text must be shallow enough for the
/// stack.
#[verifier::external_body]
pub(crate) fn lookup_string(text: &str, path: &[&str]) -> (r: Option<Option<String>>)
    requires
        parser_safe(text),
    ensures
        r is None <==> !toml_accepts(text@),
        r matches Some(v) ==> opt_view(v) == toml_string_at(text@, key_path(path@)),
{
    let doc = toml::from_str::<toml::Value>(text).ok()?;
    let mut node = &doc;
    for key in path {
        match node.get(*key) {
            Some(child) => node = child,
            None => return Some(None),
        }
    }
    Some(node.as_str().map(String::from))
}

} // verus!
