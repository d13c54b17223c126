//! The `cat`-like tool: each line of a source is written as read, optionally
//! numbered and optionally marked with `$` at its end.

use vstd::prelude::*;
use crate::error::{ToolError, error_message};
use crate::source::{names_or_stdin, sources_or_stdin};
use crate::text::{counter_field, format_counter};

verus! {

/// What the tool is asked to do: the sources in order, whether lines end in
/// `$`, whether all lines are numbered, whether non-blank lines are.
pub struct Config {
    pub files: Vec<String>,
    pub dollar_sign: bool,
    pub number_lines: bool,
    pub number_nonblank_lines: bool,
}

/// Whether `line` gets a number under `cfg`.
pub open spec fn is_numbered(cfg: Config, line: Seq<char>) -> bool {
    (cfg.number_nonblank_lines && line.len() > 0) || cfg.number_lines
}

/// How many lines of `s` get a number under `cfg`.
pub open spec fn numbered_count(cfg: Config, s: Seq<Seq<char>>) -> nat
    decreases s.len(),
{
    if s.len() == 0 {
        0
    } else {
        numbered_count(cfg, s.drop_last()) + if is_numbered(cfg, s.last()) {
            1nat
        } else {
            0nat
        }
    }
}

/// The line as written, with its end marker when asked for.
pub open spec fn marked(cfg: Config, line: Seq<char>) -> Seq<char> {
    if cfg.dollar_sign {
        line.push('$')
    } else {
        line
    }
}

/// The line written for `line` when it is the one after those of `before`
/// in its source.
pub open spec fn cat_line(cfg: Config, before: Seq<Seq<char>>, line: Seq<char>) -> Seq<char> {
    if is_numbered(cfg, line) {
        counter_field(numbered_count(cfg, before) + 1) + seq!['\t'] + marked(cfg, line)
    } else {
        marked(cfg, line)
    }
}

/// The lines written for the lines `s` of one source: the counter starts
/// at one in each source.
pub open spec fn cat_output(cfg: Config, s: Seq<Seq<char>>) -> Seq<Seq<char>> {
    Seq::new(s.len(), |i: int| cat_line(cfg, s.take(i), s[i]))
}

/// The text of each line.
pub open spec fn line_views(lines: Seq<String>) -> Seq<Seq<char>> {
    lines.map_values(|l: String| l@)
}

proof fn lemma_numbered_count_bound(cfg: Config, s: Seq<Seq<char>>)
    ensures
        numbered_count(cfg, s) <= s.len(),
    decreases s.len(),
{
    if s.len() > 0 {
        lemma_numbered_count_bound(cfg, s.drop_last());
    }
}

/// The message when both kinds of numbering are asked for.
pub open spec fn number_conflict_message() -> Seq<char> {
    "the options --number and --number-nonblank cannot be used together"@
}

impl Config {
    /// A configuration with the sources named (standard input when none
    /// is) and the three flags. Numbering all lines and numbering non-blank
    /// lines exclude each other.
    pub fn new(
        files: Vec<String>,
        dollar_sign: bool,
        number_lines: bool,
        number_nonblank_lines: bool,
    ) -> (r: Result<Config, ToolError>)
        ensures
            r is Err <==> number_lines && number_nonblank_lines,
            r is Err ==> r->Err_0 is ConfigError && error_message(r->Err_0)
                == number_conflict_message(),
            r is Ok ==> {
                let c = r->Ok_0;
                &&& c.files@.map_values(|f: String| f@) == sources_or_stdin(files@)
                &&& c.dollar_sign == dollar_sign
                &&& c.number_lines == number_lines
                &&& c.number_nonblank_lines == number_nonblank_lines
            },
    {
        if number_lines && number_nonblank_lines {
            let message = String::from_str(
                "the options --number and --number-nonblank cannot be used together",
            );
            proof { reveal_strlit("the options --number and --number-nonblank cannot be used together"); }
            return Err(ToolError::ConfigError { message });
        }
        Ok(Config { files: names_or_stdin(files), dollar_sign, number_lines, number_nonblank_lines })
    }
}

/// Whether `line` gets a number under `config`.
pub fn numbers_line(config: &Config, line: &String) -> (r: bool)
    ensures
        r == is_numbered(*config, line@),
{
    (config.number_nonblank_lines && line.as_str().unicode_len() > 0) || config.number_lines
}

/// The line written for `line`, where `number` is the count shown if the
/// line gets one.
pub fn format_line(config: &Config, line: &String, number: usize) -> (r: String)
    ensures
        is_numbered(*config, line@) ==> r@ == counter_field(number as nat) + seq!['\t']
            + marked(*config, line@),
        !is_numbered(*config, line@) ==> r@ == marked(*config, line@),
{
    let mut body = line.clone();
    if config.dollar_sign {
        proof { reveal_strlit("$"); }
        body.append("$");
    }
    if numbers_line(config, line) {
        proof { reveal_strlit("\t"); }
        let r = format_counter(number).concat("\t").concat(body.as_str());
        r
    } else {
        body
    }
}

/// The lines written for the lines of one source, in order.
pub fn cat_lines(config: &Config, lines: &Vec<String>) -> (r: Vec<String>)
    ensures
        line_views(r@) == cat_output(*config, line_views(lines@)),
{
    let ghost s = line_views(lines@);
    let mut out: Vec<String> = Vec::new();
    let mut done: usize = 0;
    let mut i: usize = 0;
    while i < lines.len()
        invariant
            s == line_views(lines@),
            i <= lines.len(),
            done == numbered_count(*config, s.take(i as int)),
            line_views(out@) == cat_output(*config, s.take(i as int)),
        decreases lines.len() - i,
    {
        proof {
            assert(s.take(i + 1).drop_last() =~= s.take(i as int));
            lemma_numbered_count_bound(*config, s.take(i as int));
        }
        let line = format_line(config, &lines[i], done + 1);
        if numbers_line(config, &lines[i]) {
            done = done + 1;
        }
        let ghost old_out = out@;
        out.push(line);
        proof {
            assert(line_views(out@) =~= line_views(old_out).push(line@));
            assert forall|k: int| 0 <= k < i implies s.take(i + 1).take(k) =~= s.take(
                i as int,
            ).take(k) by {}
            assert(s.take(i + 1).take(i as int) =~= s.take(i as int));
            assert(line_views(out@) =~= cat_output(*config, s.take(i + 1)));
        }
        i = i + 1;
    }
    assert(s.take(i as int) =~= s);
    out
}

/// Without flags, each source is written as it was read.
pub proof fn lemma_plain_output_is_input(cfg: Config, s: Seq<Seq<char>>)
    requires
        !cfg.dollar_sign,
        !cfg.number_lines,
        !cfg.number_nonblank_lines,
    ensures
        cat_output(cfg, s) == s,
{
    assert(cat_output(cfg, s) =~= s);
}

/// With the end marker, every line written ends in `$`; a line that gets no
/// number is the line read followed by `$`.
pub proof fn lemma_dollar_ends_each_line(cfg: Config, s: Seq<Seq<char>>)
    requires
        cfg.dollar_sign,
    ensures
        forall|i: int| 0 <= i < s.len() ==> #[trigger] cat_output(cfg, s)[i].last() == '$',
        forall|i: int|
            0 <= i < s.len() && !is_numbered(cfg, s[i]) ==> #[trigger] cat_output(cfg, s)[i]
                == s[i].push('$'),
{
}

} // verus!
