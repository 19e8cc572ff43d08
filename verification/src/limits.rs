//! Limits on a text that is handed to a reader of an outside crate. Such a
//! reader runs on what the network or a file gave, and must come back from
//! it: a text is refused where the reader would call itself too deep or
//! count beyond what its numbers hold, and nowhere else.
//!
//! Both readers are followed byte by byte, so that a bracket inside a string
//! or a comment is not taken for one that nests.

use vstd::prelude::*;

verus! {

/// The most bytes that a JSON text may have. The reader of JSON keeps the
/// place and the length of each key in 16 bits.
pub const MAX_JSON_BYTES: usize = 65535;

/// The most arrays, objects and tables that may stand inside one another. A
/// reader goes one call deeper for each.
pub const MAX_DEPTH: usize = 128;

/// The most digits that an exponent may have. The reader of JSON adds the
/// digits of an exponent up in a machine word, which may have 32 bits.
pub const MAX_EXPONENT_DIGITS: usize = 9;

/// The most dots that the header of a table may have: a header of 128 parts
/// makes tables 128 deep.
pub const MAX_HEADER_DOTS: usize = 127;

/// Whether the byte opens an array, an object or a table: `[` or `{`.
pub open spec fn is_opening(byte: u8) -> bool {
    byte == 0x5b || byte == 0x7b
}

/// Whether the byte closes an array, an object or a table: `]` or `}`.
pub open spec fn is_closing(byte: u8) -> bool {
    byte == 0x5d || byte == 0x7d
}

/// Whether the byte is a decimal digit.
pub open spec fn is_digit(byte: u8) -> bool {
    0x30 <= byte <= 0x39
}

/// Whether the byte is the `e` or `E` that starts an exponent.
pub open spec fn is_exponent_mark(byte: u8) -> bool {
    byte == 0x65 || byte == 0x45
}

/// Whether the byte is a plus or a minus sign.
pub open spec fn is_sign(byte: u8) -> bool {
    byte == 0x2b || byte == 0x2d
}

/// One less, and zero for zero.
pub open spec fn one_less(n: nat) -> nat {
    if n > 0 {
        (n - 1) as nat
    } else {
        0
    }
}

/// How many digits stand in a row from the position `from` on.
pub open spec fn digits_from(bytes: Seq<u8>, from: int) -> nat
    decreases bytes.len() - from,
{
    if 0 <= from < bytes.len() && is_digit(bytes[from]) {
        1 + digits_from(bytes, from + 1)
    } else {
        0
    }
}

/// Where the digits of an exponent start whose mark stands at `mark`: behind
/// the mark, or behind the sign that follows it.
pub open spec fn exponent_start(bytes: Seq<u8>, mark: int) -> int {
    if mark + 1 < bytes.len() && is_sign(bytes[mark + 1]) {
        mark + 2
    } else {
        mark + 1
    }
}

/// Where a reader of JSON stands in a text: inside a string or not, behind a
/// backslash or not, and how many arrays and objects are open.
pub struct JsonScan {
    pub in_string: bool,
    pub escaped: bool,
    pub depth: nat,
}

/// Where the reader of JSON stands after one more byte. Inside a string a
/// backslash takes the next byte with it and a quote ends the string; outside
/// a quote starts one and a bracket opens or closes.
pub open spec fn json_step(at: JsonScan, byte: u8) -> JsonScan {
    if at.in_string {
        if at.escaped {
            JsonScan { escaped: false, ..at }
        } else if byte == 0x5c {
            JsonScan { escaped: true, ..at }
        } else if byte == 0x22 {
            JsonScan { in_string: false, ..at }
        } else {
            at
        }
    } else if byte == 0x22 {
        JsonScan { in_string: true, escaped: false, depth: at.depth }
    } else if is_opening(byte) {
        JsonScan { depth: at.depth + 1, ..at }
    } else if is_closing(byte) {
        JsonScan { depth: one_less(at.depth), ..at }
    } else {
        at
    }
}

/// Where the reader of JSON stands after the first `n` bytes.
pub open spec fn json_scan(bytes: Seq<u8>, n: int) -> JsonScan
    decreases n,
{
    if n <= 0 {
        JsonScan { in_string: false, escaped: false, depth: 0 }
    } else {
        json_step(json_scan(bytes, n - 1), bytes[n - 1])
    }
}

/// Whether the byte at `mark`, if it starts an exponent outside a string, is
/// followed by no more digits than an exponent may have.
pub open spec fn exponent_within(bytes: Seq<u8>, mark: int) -> bool {
    !json_scan(bytes, mark).in_string && is_exponent_mark(bytes[mark]) ==> digits_from(
        bytes,
        exponent_start(bytes, mark),
    ) <= MAX_EXPONENT_DIGITS
}

/// Whether a text is within what the reader of JSON is given: it has no more
/// bytes than `MAX_JSON_BYTES`, no more arrays and objects stand inside one
/// another than `MAX_DEPTH`, and no `e` or `E` outside a string is followed
/// by more digits than `MAX_EXPONENT_DIGITS`.
pub open spec fn json_within_limits(bytes: Seq<u8>) -> bool {
    &&& bytes.len() <= MAX_JSON_BYTES
    &&& forall|n: int| 0 <= n <= bytes.len() ==> (#[trigger] json_scan(bytes, n)).depth <= MAX_DEPTH
    &&& forall|mark: int| 0 <= mark < bytes.len() ==> #[trigger] exponent_within(bytes, mark)
}

/// Whether more than `limit` digits stand in a row from `from` on.
fn digits_exceed(bytes: &[u8], from: usize, limit: usize) -> (exceeds: bool)
    requires
        limit < usize::MAX,
    ensures
        exceeds == (digits_from(bytes@, from as int) > limit),
{
    let mut count: usize = 0;
    while count <= limit && from < bytes.len() && count < bytes.len() - from && 0x30 <= bytes[from
        + count] && bytes[from + count] <= 0x39
        invariant
            count <= limit + 1,
            limit < usize::MAX,
            from < bytes@.len() ==> count <= bytes@.len() - from,
            digits_from(bytes@, from as int) == count + digits_from(bytes@, from + count),
        decreases limit + 1 - count,
    {
        count = count + 1;
    }
    count > limit
}

/// Whether the bytes of a text are within what the reader of JSON is given.
pub fn check_json_limits(bytes: &[u8]) -> (ok: bool)
    ensures
        ok == json_within_limits(bytes@),
{
    if bytes.len() > MAX_JSON_BYTES {
        return false;
    }
    let mut in_string: bool = false;
    let mut escaped: bool = false;
    let mut depth: usize = 0;
    let mut i: usize = 0;
    while i < bytes.len()
        invariant
            i <= bytes@.len(),
            json_scan(bytes@, i as int) == (JsonScan { in_string, escaped, depth: depth as nat }),
            forall|n: int| 0 <= n <= i ==> (#[trigger] json_scan(bytes@, n)).depth <= MAX_DEPTH,
            forall|mark: int| 0 <= mark < i ==> #[trigger] exponent_within(bytes@, mark),
        decreases bytes@.len() - i,
    {
        let byte: u8 = bytes[i];
        if in_string {
            if escaped {
                escaped = false;
            } else if byte == 0x5c {
                escaped = true;
            } else if byte == 0x22 {
                in_string = false;
            }
        } else if byte == 0x22 {
            in_string = true;
            escaped = false;
        } else if byte == 0x5b || byte == 0x7b {
            if depth == MAX_DEPTH {
                assert(json_scan(bytes@, i + 1).depth > MAX_DEPTH);
                return false;
            }
            depth = depth + 1;
        } else if byte == 0x5d || byte == 0x7d {
            if depth > 0 {
                depth = depth - 1;
            }
        } else if byte == 0x65 || byte == 0x45 {
            let start: usize = if i + 1 < bytes.len() && (bytes[i + 1] == 0x2b || bytes[i + 1]
                == 0x2d) {
                i + 2
            } else {
                i + 1
            };
            if digits_exceed(bytes, start, MAX_EXPONENT_DIGITS) {
                assert(!exponent_within(bytes@, i as int));
                return false;
            }
        }
        assert(json_scan(bytes@, i + 1) == json_step(json_scan(bytes@, i as int), byte));
        i = i + 1;
    }
    true
}

/// What a reader of TOML is reading.
#[derive(Debug, Clone, Copy, PartialEq, Eq, Structural)]
pub enum TomlMode {
    /// Keys, values and what stands between them.
    Plain,
    /// A comment, to the end of the line.
    Comment,
    /// A string between double quotes, or between three of them.
    Basic { multiline: bool },
    /// A string between single quotes, or between three of them.
    Literal { multiline: bool },
}

/// Where a reader of TOML stands in a text.
pub struct TomlScan {
    pub mode: TomlMode,
    /// How many arrays, inline tables and headers are open.
    pub depth: nat,
    /// Whether the outermost bracket that is open started a line: the header
    /// of a table starts one, an array follows an equals sign.
    pub header: bool,
    /// The dots outside strings in the header that is open.
    pub dots: nat,
    /// Whether an equals sign was seen since the line began.
    pub assigned: bool,
}

/// The byte at a position, and zero behind the end.
pub open spec fn byte_at(bytes: Seq<u8>, pos: int) -> u8 {
    if 0 <= pos < bytes.len() {
        bytes[pos]
    } else {
        0
    }
}

/// How many bytes a quote at `pos` takes with a mark of three: three where
/// two more quotes follow, two where one follows, else one.
pub open spec fn quotes_at(bytes: Seq<u8>, pos: int, quote: u8) -> int {
    if byte_at(bytes, pos + 1) == quote && byte_at(bytes, pos + 2) == quote {
        3
    } else if byte_at(bytes, pos + 1) == quote {
        2
    } else {
        1
    }
}

/// Where the reader of TOML stands after the bytes that start at `pos` and
/// belong together, and where the next ones start.
///
/// A string starts with one quote or with three; two quotes are an empty
/// string. A string of three ends with three. In a string between double
/// quotes a backslash takes the next byte with it, and the string may run
/// over the end of a line: the reader notes a fault there and reads on. A
/// string between single quotes ends with its line at the latest. A comment
/// ends with the line. Outside strings and comments a bracket opens or
/// closes, a dot in a header is counted, and a line that ends outside all
/// brackets starts the next statement. A bracket that starts a statement
/// starts a header; an array stands behind an equals sign.
pub open spec fn toml_next(bytes: Seq<u8>, pos: int, at: TomlScan) -> (int, TomlScan) {
    let byte = bytes[pos];
    match at.mode {
        TomlMode::Comment => if byte == 0x0a {
            (
                pos + 1,
                TomlScan {
                    mode: TomlMode::Plain,
                    assigned: at.assigned && at.depth > 0,
                    ..at
                },
            )
        } else {
            (pos + 1, at)
        },
        TomlMode::Basic { multiline } => if byte == 0x5c {
            (if pos + 1 < bytes.len() { pos + 2 } else { pos + 1 }, at)
        } else if byte == 0x22 {
            if !multiline {
                (pos + 1, TomlScan { mode: TomlMode::Plain, ..at })
            } else if quotes_at(bytes, pos, 0x22) == 3 {
                (pos + 3, TomlScan { mode: TomlMode::Plain, ..at })
            } else {
                (pos + quotes_at(bytes, pos, 0x22), at)
            }
        } else {
            (pos + 1, at)
        },
        TomlMode::Literal { multiline } => if byte == 0x27 {
            if !multiline {
                (pos + 1, TomlScan { mode: TomlMode::Plain, ..at })
            } else if quotes_at(bytes, pos, 0x27) == 3 {
                (pos + 3, TomlScan { mode: TomlMode::Plain, ..at })
            } else {
                (pos + quotes_at(bytes, pos, 0x27), at)
            }
        } else if byte == 0x0a && !multiline {
            (pos + 1, TomlScan { mode: TomlMode::Plain, ..at })
        } else {
            (pos + 1, at)
        },
        TomlMode::Plain => if byte == 0x23 {
            (pos + 1, TomlScan { mode: TomlMode::Comment, ..at })
        } else if byte == 0x22 {
            if quotes_at(bytes, pos, 0x22) == 3 {
                (pos + 3, TomlScan { mode: TomlMode::Basic { multiline: true }, ..at })
            } else if quotes_at(bytes, pos, 0x22) == 2 {
                (pos + 2, at)
            } else {
                (pos + 1, TomlScan { mode: TomlMode::Basic { multiline: false }, ..at })
            }
        } else if byte == 0x27 {
            if quotes_at(bytes, pos, 0x27) == 3 {
                (pos + 3, TomlScan { mode: TomlMode::Literal { multiline: true }, ..at })
            } else if quotes_at(bytes, pos, 0x27) == 2 {
                (pos + 2, at)
            } else {
                (pos + 1, TomlScan { mode: TomlMode::Literal { multiline: false }, ..at })
            }
        } else if is_opening(byte) {
            if at.depth == 0 {
                (
                    pos + 1,
                    TomlScan { depth: 1, header: byte == 0x5b && !at.assigned, dots: 0, ..at },
                )
            } else {
                (pos + 1, TomlScan { depth: at.depth + 1, ..at })
            }
        } else if is_closing(byte) {
            if at.depth <= 1 {
                (pos + 1, TomlScan { depth: 0, header: false, dots: 0, ..at })
            } else {
                (pos + 1, TomlScan { depth: one_less(at.depth), ..at })
            }
        } else if byte == 0x2e && at.header {
            (pos + 1, TomlScan { dots: at.dots + 1, ..at })
        } else if byte == 0x3d && at.depth == 0 {
            (pos + 1, TomlScan { assigned: true, ..at })
        } else if byte == 0x0a && at.depth == 0 {
            (pos + 1, TomlScan { assigned: false, ..at })
        } else {
            (pos + 1, at)
        },
    }
}

/// Whether the reader of TOML stays within the limits from `pos` on: no more
/// arrays, inline tables and headers stand inside one another than
/// `MAX_DEPTH`, and no header has more dots than `MAX_HEADER_DOTS`.
pub open spec fn toml_within(bytes: Seq<u8>, pos: int, at: TomlScan) -> bool
    decreases bytes.len() - pos,
{
    if 0 <= pos < bytes.len() {
        let next = toml_next(bytes, pos, at);
        &&& next.1.depth <= MAX_DEPTH
        &&& next.1.dots <= MAX_HEADER_DOTS
        &&& pos < next.0 <= bytes.len() ==> toml_within(bytes, next.0, next.1)
    } else {
        true
    }
}

/// Where the reader of TOML stands before the first byte.
pub open spec fn toml_start() -> TomlScan {
    TomlScan { mode: TomlMode::Plain, depth: 0, header: false, dots: 0, assigned: false }
}

/// Whether a text is within what the reader of TOML is given.
pub open spec fn toml_within_limits(bytes: Seq<u8>) -> bool {
    toml_within(bytes, 0, toml_start())
}

/// The place of a reader of TOML, as the check keeps it.
pub struct TomlLexer {
    pub mode: TomlMode,
    pub depth: usize,
    pub header: bool,
    pub dots: usize,
    pub assigned: bool,
}

impl View for TomlLexer {
    type V = TomlScan;

    open spec fn view(&self) -> TomlScan {
        TomlScan {
            mode: self.mode,
            depth: self.depth as nat,
            header: self.header,
            dots: self.dots as nat,
            assigned: self.assigned,
        }
    }
}

/// How many bytes a quote at `pos` takes with a mark of three.
fn count_quotes(bytes: &[u8], pos: usize, quote: u8) -> (count: usize)
    requires
        pos < bytes@.len(),
        quote != 0,
    ensures
        count == quotes_at(bytes@, pos as int, quote),
        1 <= count <= 3,
        pos + count <= bytes@.len(),
{
    let rest: usize = bytes.len() - pos;
    if rest > 1 && bytes[pos + 1] == quote {
        if rest > 2 && bytes[pos + 2] == quote {
            3
        } else {
            2
        }
    } else {
        1
    }
}

/// Takes the bytes that start at `pos` and belong together.
fn toml_advance(bytes: &[u8], pos: usize, at: TomlLexer) -> (next: (usize, TomlLexer))
    requires
        pos < bytes@.len(),
        at.depth <= MAX_DEPTH,
        at.dots <= MAX_HEADER_DOTS,
    ensures
        (next.0 as int, next.1@) == toml_next(bytes@, pos as int, at@),
        pos < next.0 <= bytes@.len(),
{
    let byte: u8 = bytes[pos];
    let rest: usize = bytes.len() - pos;
    let TomlLexer { mode, depth, header, dots, assigned } = at;
    match mode {
        TomlMode::Comment => {
            if byte == 0x0a {
                (
                    pos + 1,
                    TomlLexer {
                        mode: TomlMode::Plain,
                        depth,
                        header,
                        dots,
                        assigned: assigned && depth > 0,
                    },
                )
            } else {
                (pos + 1, TomlLexer { mode, depth, header, dots, assigned })
            }
        },
        TomlMode::Basic { multiline } => {
            if byte == 0x5c {
                let taken: usize = if rest > 1 {
                    2
                } else {
                    1
                };
                (pos + taken, TomlLexer { mode, depth, header, dots, assigned })
            } else if byte == 0x22 {
                let quotes: usize = count_quotes(bytes, pos, 0x22);
                if !multiline {
                    (pos + 1, TomlLexer { mode: TomlMode::Plain, depth, header, dots, assigned })
                } else if quotes == 3 {
                    (pos + 3, TomlLexer { mode: TomlMode::Plain, depth, header, dots, assigned })
                } else {
                    (pos + quotes, TomlLexer { mode, depth, header, dots, assigned })
                }
            } else {
                (pos + 1, TomlLexer { mode, depth, header, dots, assigned })
            }
        },
        TomlMode::Literal { multiline } => {
            if byte == 0x27 {
                let quotes: usize = count_quotes(bytes, pos, 0x27);
                if !multiline {
                    (pos + 1, TomlLexer { mode: TomlMode::Plain, depth, header, dots, assigned })
                } else if quotes == 3 {
                    (pos + 3, TomlLexer { mode: TomlMode::Plain, depth, header, dots, assigned })
                } else {
                    (pos + quotes, TomlLexer { mode, depth, header, dots, assigned })
                }
            } else if byte == 0x0a && !multiline {
                (pos + 1, TomlLexer { mode: TomlMode::Plain, depth, header, dots, assigned })
            } else {
                (pos + 1, TomlLexer { mode, depth, header, dots, assigned })
            }
        },
        TomlMode::Plain => {
            if byte == 0x23 {
                (pos + 1, TomlLexer { mode: TomlMode::Comment, depth, header, dots, assigned })
            } else if byte == 0x22 {
                let quotes: usize = count_quotes(bytes, pos, 0x22);
                if quotes == 3 {
                    let mode: TomlMode = TomlMode::Basic { multiline: true };
                    (pos + 3, TomlLexer { mode, depth, header, dots, assigned })
                } else if quotes == 2 {
                    (pos + 2, TomlLexer { mode, depth, header, dots, assigned })
                } else {
                    let mode: TomlMode = TomlMode::Basic { multiline: false };
                    (pos + 1, TomlLexer { mode, depth, header, dots, assigned })
                }
            } else if byte == 0x27 {
                let quotes: usize = count_quotes(bytes, pos, 0x27);
                if quotes == 3 {
                    let mode: TomlMode = TomlMode::Literal { multiline: true };
                    (pos + 3, TomlLexer { mode, depth, header, dots, assigned })
                } else if quotes == 2 {
                    (pos + 2, TomlLexer { mode, depth, header, dots, assigned })
                } else {
                    let mode: TomlMode = TomlMode::Literal { multiline: false };
                    (pos + 1, TomlLexer { mode, depth, header, dots, assigned })
                }
            } else if byte == 0x5b || byte == 0x7b {
                if depth == 0 {
                    let header: bool = byte == 0x5b && !assigned;
                    (pos + 1, TomlLexer { mode, depth: 1, header, dots: 0, assigned })
                } else {
                    (pos + 1, TomlLexer { mode, depth: depth + 1, header, dots, assigned })
                }
            } else if byte == 0x5d || byte == 0x7d {
                if depth <= 1 {
                    (pos + 1, TomlLexer { mode, depth: 0, header: false, dots: 0, assigned })
                } else {
                    (pos + 1, TomlLexer { mode, depth: depth - 1, header, dots, assigned })
                }
            } else if byte == 0x2e && header {
                (pos + 1, TomlLexer { mode, depth, header, dots: dots + 1, assigned })
            } else if byte == 0x3d && depth == 0 {
                (pos + 1, TomlLexer { mode, depth, header, dots, assigned: true })
            } else if byte == 0x0a && depth == 0 {
                (pos + 1, TomlLexer { mode, depth, header, dots, assigned: false })
            } else {
                (pos + 1, TomlLexer { mode, depth, header, dots, assigned })
            }
        },
    }
}

/// Whether the bytes of a text are within what the reader of TOML is given.
pub fn check_toml_limits(bytes: &[u8]) -> (ok: bool)
    ensures
        ok == toml_within_limits(bytes@),
{
    let mut at: TomlLexer = TomlLexer {
        mode: TomlMode::Plain,
        depth: 0,
        header: false,
        dots: 0,
        assigned: false,
    };
    let mut pos: usize = 0;
    while pos < bytes.len()
        invariant
            at.depth <= MAX_DEPTH,
            at.dots <= MAX_HEADER_DOTS,
            toml_within_limits(bytes@) == toml_within(bytes@, pos as int, at@),
        decreases bytes@.len() - pos,
    {
        let next: (usize, TomlLexer) = toml_advance(bytes, pos, at);
        if next.1.depth > MAX_DEPTH || next.1.dots > MAX_HEADER_DOTS {
            return false;
        }
        pos = next.0;
        at = next.1;
    }
    true
}

} // verus!
