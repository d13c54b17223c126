//! The `head`-like tool: the first lines, or the first bytes, of each
//! source, with a header naming the source when there are several.

use vstd::prelude::*;
use crate::error::{ToolError, error_message};
use crate::source::{names_or_stdin, sources_or_stdin};

verus! {

/// What the tool is asked to do: the sources in order, a byte limit if
/// bytes are counted, else the line limit.
pub struct Config {
    pub files: Vec<String>,
    pub bytes: Option<usize>,
    pub lines: usize,
}

/// The line limit when none is given.
pub const DEFAULT_LINES: usize = 10;

/// Whether `c` is an ASCII decimal digit.
pub open spec fn is_digit(c: char) -> bool {
    '0' <= c && c <= '9'
}

/// The value of a string of decimal digits.
pub open spec fn digits_value(s: Seq<char>) -> nat
    decreases s.len(),
{
    if s.len() == 0 {
        0
    } else {
        digits_value(s.drop_last()) * 10 + (s.last() as nat - '0' as nat) as nat
    }
}

/// The digits of an unsigned number's text: a leading `+` is dropped.
pub open spec fn unsigned_digits(s: Seq<char>) -> Seq<char> {
    if s.len() > 0 && s[0] == '+' {
        s.drop_first()
    } else {
        s
    }
}

/// Whether `s` is the text of a `usize`: an optional `+`, then one or more
/// decimal digits whose value fits.
pub open spec fn is_usize_text(s: Seq<char>) -> bool {
    let d = unsigned_digits(s);
    &&& d.len() > 0
    &&& forall|i: int| 0 <= i < d.len() ==> is_digit(#[trigger] d[i])
    &&& digits_value(d) <= usize::MAX
}

/// The value of the text of a `usize`.
pub open spec fn usize_text_value(s: Seq<char>) -> nat {
    digits_value(unsigned_digits(s))
}

/// Relies on `<usize as FromStr>::from_str` (`str::parse`): it accepts an
/// optional `+` followed by one or more ASCII digits whose value fits in a
/// `usize`, and refuses anything else, whitespace included.
#[verifier::external_body]
fn parse_usize(s: &str) -> (r: Option<usize>)
    ensures
        r is Some <==> is_usize_text(s@),
        r is Some ==> r->0 as nat == usize_text_value(s@),
{
    s.parse::<usize>().ok()
}

/// Whether `s` is the text of a positive `usize`.
pub open spec fn is_positive_text(s: Seq<char>) -> bool {
    is_usize_text(s) && usize_text_value(s) > 0
}

/// Reads a positive integer; on failure the error is the text given.
pub fn parse_positive_int(val: &str) -> (r: Result<usize, String>)
    ensures
        r is Ok <==> is_positive_text(val@),
        r is Ok ==> r->Ok_0 as nat == usize_text_value(val@),
        r is Err ==> r->Err_0@ == val@,
{
    match parse_usize(val) {
        Some(n) => {
            if n > 0 {
                Ok(n)
            } else {
                Err(String::from_str(val))
            }
        },
        None => Err(String::from_str(val)),
    }
}

/// The message for a line count that is not a positive integer.
pub open spec fn bad_lines_message(s: Seq<char>) -> Seq<char> {
    "illegal line count -- "@ + s
}

/// The message for a byte count that is not a positive integer.
pub open spec fn bad_bytes_message(s: Seq<char>) -> Seq<char> {
    "illegal byte count -- "@ + s
}

/// The message when both a line count and a byte count are given.
pub open spec fn count_conflict_message() -> Seq<char> {
    "the options --lines and --bytes cannot be used together"@
}

impl Config {
    /// A configuration from the sources named (standard input when none is),
    /// the line count given if any (ten when none is) and the byte count
    /// given if any. The two counts exclude each other; each must be a
    /// positive integer, the line count being checked first.
    pub fn from_args(files: Vec<String>, lines: Option<&str>, bytes: Option<&str>) -> (r: Result<
        Config,
        ToolError,
    >)
        ensures
            r is Err <==> (lines is Some && bytes is Some) || (lines is Some && !is_positive_text(
                lines->0@,
            )) || (bytes is Some && !is_positive_text(bytes->0@)),
            r is Err ==> r->Err_0 is ConfigError,
            lines is Some && bytes is Some ==> error_message(r->Err_0) == count_conflict_message(),
            lines is Some && bytes is None && !is_positive_text(lines->0@) ==> error_message(
                r->Err_0,
            ) == bad_lines_message(lines->0@),
            lines is None && bytes is Some && !is_positive_text(bytes->0@) ==> error_message(
                r->Err_0,
            ) == bad_bytes_message(bytes->0@),
            r is Ok ==> {
                let c = r->Ok_0;
                &&& c.files@.map_values(|f: String| f@) == sources_or_stdin(files@)
                &&& lines is Some ==> c.lines as nat == usize_text_value(lines->0@)
                &&& lines is None ==> c.lines == DEFAULT_LINES
                &&& bytes is Some ==> c.bytes is Some && c.bytes->0 as nat == usize_text_value(
                    bytes->0@,
                )
                &&& bytes is None ==> c.bytes is None
            },
    {
        if lines.is_some() && bytes.is_some() {
            let message = String::from_str("the options --lines and --bytes cannot be used together");
            proof { reveal_strlit("the options --lines and --bytes cannot be used together"); }
            return Err(ToolError::ConfigError { message });
        }
        let mut line_count: usize = DEFAULT_LINES;
        if let Some(text) = lines {
            match parse_positive_int(text) {
                Ok(n) => {
                    line_count = n;
                },
                Err(e) => {
                    let message = String::from_str("illegal line count -- ").concat(e.as_str());
                    return Err(ToolError::ConfigError { message });
                },
            }
        }
        let mut byte_count: Option<usize> = None;
        if let Some(text) = bytes {
            match parse_positive_int(text) {
                Ok(n) => {
                    byte_count = Some(n);
                },
                Err(e) => {
                    let message = String::from_str("illegal byte count -- ").concat(e.as_str());
                    return Err(ToolError::ConfigError { message });
                },
            }
        }
        Ok(Config { files: names_or_stdin(files), bytes: byte_count, lines: line_count })
    }
}

/// The header line written before a source when there are several: the
/// sources after the first are set off by a blank line.
pub open spec fn header_text(name: Seq<char>, index: nat) -> Seq<char> {
    (if index > 0 {
        seq!['\n']
    } else {
        Seq::empty()
    }) + "==> "@ + name + " <=="@
}

/// The header written before the source `name`, the one at `index` of
/// `total` sources; none when there is one source.
pub fn header(name: &String, index: usize, total: usize) -> (r: Option<String>)
    ensures
        r is Some <==> total > 1,
        r is Some ==> r->0@ == header_text(name@, index as nat),
{
    if total <= 1 {
        return None;
    }
    let mut h = String::new();
    if index > 0 {
        h.append("\n");
    }
    h.append("==> ");
    h.append(name.as_str());
    h.append(" <==");
    proof {
        reveal_strlit("\n");
        reveal_strlit("==> ");
        reveal_strlit(" <==");
        assert(h@ =~= header_text(name@, index as nat));
    }
    Some(h)
}

/// Whether another line is to be read from a source after `emitted` lines
/// have been written: only when lines are counted and the limit is not met.
pub fn wants_more_lines(config: &Config, emitted: usize) -> (r: bool)
    ensures
        r <==> config.bytes is None && emitted < config.lines,
{
    config.bytes.is_none() && emitted < config.lines
}

/// The smaller of two counts.
pub open spec fn min_nat(a: nat, b: nat) -> nat {
    if a <= b {
        a
    } else {
        b
    }
}

/// The first `limit` lines of a source, or all of them when it has fewer.
pub fn head_lines(lines: &Vec<String>, limit: usize) -> (r: Vec<String>)
    ensures
        r@ == lines@.take(min_nat(limit as nat, lines@.len()) as int),
{
    let mut out: Vec<String> = Vec::new();
    let mut i: usize = 0;
    while i < lines.len() && i < limit
        invariant
            i <= lines.len(),
            i <= limit,
            out@ == lines@.take(i as int),
        decreases lines.len() - i,
    {
        out.push(lines[i].clone());
        assert(out@ =~= lines@.take(i + 1));
        i = i + 1;
    }
    assert(out@ =~= lines@.take(min_nat(limit as nat, lines@.len()) as int));
    out
}

/// The text that the bytes `b` decode to, each invalid sequence replaced.
pub uninterp spec fn utf8_lossy(b: Seq<u8>) -> Seq<char>;

/// Whether every byte of `b` is ASCII.
pub open spec fn all_ascii(b: Seq<u8>) -> bool {
    forall|i: int| 0 <= i < b.len() ==> #[trigger] b[i] < 128
}

/// Relies on `String::from_utf8_lossy`: the text the bytes encode, with
/// each invalid sequence replaced; ASCII bytes are valid UTF-8 and each
/// decodes to the character of the same code.
#[verifier::external_body]
fn decode_lossy(b: &[u8]) -> (r: String)
    ensures
        r@ == utf8_lossy(b@),
        all_ascii(b@) ==> r@ == b@.map_values(|x: u8| x as char),
{
    String::from_utf8_lossy(b).into_owned()
}

/// The first `limit` bytes of a source, or all of them when it has fewer,
/// decoded as text with invalid sequences replaced.
pub fn head_bytes(content: &Vec<u8>, limit: usize) -> (r: String)
    ensures
        r@ == utf8_lossy(content@.take(min_nat(limit as nat, content@.len()) as int)),
        all_ascii(content@) ==> r@ == content@.take(
            min_nat(limit as nat, content@.len()) as int,
        ).map_values(|x: u8| x as char),
{
    let mut kept: Vec<u8> = Vec::new();
    let mut i: usize = 0;
    while i < content.len() && i < limit
        invariant
            i <= content.len(),
            i <= limit,
            kept@ == content@.take(i as int),
        decreases content.len() - i,
    {
        kept.push(content[i]);
        assert(kept@ =~= content@.take(i + 1));
        i = i + 1;
    }
    assert(kept@ =~= content@.take(min_nat(limit as nat, content@.len()) as int));
    decode_lossy(kept.as_slice())
}

} // verus!
