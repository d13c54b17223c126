//! The `uniq`-like tool: consecutive runs of equal lines collapse to one,
//! optionally prefixed with the length of the run.

use vstd::prelude::*;
use crate::text::{counter_field, format_counter};

verus! {

/// What the tool is asked to do: the input source (`"-"` for standard
/// input), the output destination (standard output when absent), and
/// whether each kept line carries its count.
pub struct Config {
    pub in_file: String,
    pub out_file: Option<String>,
    pub count: bool,
}

impl Config {
    /// A configuration reading `in_file` (standard input when none is
    /// named), writing to `out_file` (standard output when none is named).
    pub fn new(in_file: Option<String>, out_file: Option<String>, count: bool) -> (r: Config)
        ensures
            in_file is Some ==> r.in_file@ == in_file->0@,
            in_file is None ==> r.in_file@ == seq!['-'],
            r.out_file == out_file,
            r.count == count,
    {
        let in_file = match in_file {
            Some(name) => name,
            None => {
                let dash = String::from_str("-");
                proof { reveal_strlit("-"); }
                assert(dash@ =~= seq!['-']);
                dash
            },
        };
        Config { in_file, out_file, count }
    }
}

/// Counts taken of one file.
#[derive(Debug, PartialEq, Eq, Structural)]
pub struct FileInfo {
    pub num_lines: usize,
    pub num_words: usize,
    pub num_bytes: usize,
    pub num_chars: usize,
}

/// The text of each line.
pub open spec fn line_views(lines: Seq<String>) -> Seq<Seq<char>> {
    lines.map_values(|l: String| l@)
}

/// The runs of equal adjacent lines of `s`, in order: each is the line and
/// how many times it occurs in a row. No two adjacent runs hold equal lines.
pub open spec fn runs(s: Seq<Seq<char>>) -> Seq<(Seq<char>, nat)>
    decreases s.len(),
{
    if s.len() == 0 {
        Seq::empty()
    } else {
        let r = runs(s.drop_last());
        let x = s.last();
        if r.len() > 0 && r.last().0 == x {
            r.update(r.len() - 1, (x, r.last().1 + 1))
        } else {
            r.push((x, 1))
        }
    }
}

/// One kept line as written: with its count in front when `count` is set.
pub open spec fn run_line(line: Seq<char>, n: nat, count: bool) -> Seq<char> {
    if count {
        counter_field(n) + seq![' '] + line
    } else {
        line
    }
}

/// The lines written for the input `s`.
pub open spec fn uniq_output(s: Seq<Seq<char>>, count: bool) -> Seq<Seq<char>> {
    runs(s).map_values(|p: (Seq<char>, nat)| run_line(p.0, p.1, count))
}

/// Writes one kept line.
pub fn format_run(line: &String, n: usize, count: bool) -> (r: String)
    ensures
        r@ == run_line(line@, n as nat, count),
{
    if count {
        proof { reveal_strlit(" "); }
        let r = format_counter(n).concat(" ").concat(line.as_str());
        r
    } else {
        line.clone()
    }
}

/// Collapses each run of equal adjacent lines to one line, prefixed with the
/// length of the run when `count` is set. Lines are compared exactly.
pub fn uniq_lines(lines: &Vec<String>, count: bool) -> (r: Vec<String>)
    ensures
        line_views(r@) == uniq_output(line_views(lines@), count),
{
    let ghost s = line_views(lines@);
    let mut out: Vec<String> = Vec::new();
    if lines.len() == 0 {
        assert(line_views(out@) =~= uniq_output(s, count));
        return out;
    }
    proof {
        assert(s.take(1).drop_last() =~= Seq::<Seq<char>>::empty());
        assert(runs(Seq::<Seq<char>>::empty()) =~= Seq::empty());
        assert(s.take(1).last() == s[0]);
        assert(runs(s.take(1)) =~= seq![(s[0], 1nat)]);
        assert(line_views(out@) =~= runs(s.take(1)).drop_last().map_values(
            |p: (Seq<char>, nat)| run_line(p.0, p.1, count),
        ));
    }
    let mut cur: usize = 0;
    let mut cnt: usize = 1;
    let mut i: usize = 1;
    while i < lines.len()
        invariant
            s == line_views(lines@),
            1 <= i <= lines.len(),
            cur < i,
            1 <= cnt <= i,
            runs(s.take(i as int)).len() > 0,
            runs(s.take(i as int)).last() == (s[cur as int], cnt as nat),
            line_views(out@) == runs(s.take(i as int)).drop_last().map_values(
                |p: (Seq<char>, nat)| run_line(p.0, p.1, count),
            ),
        decreases lines.len() - i,
    {
        let ghost before = runs(s.take(i as int));
        assert(s.take(i + 1).drop_last() =~= s.take(i as int));
        assert(s.take(i + 1).last() == s[i as int]);
        if lines[i] == lines[cur] {
            cnt = cnt + 1;
            assert(runs(s.take(i + 1)).drop_last() =~= before.drop_last());
        } else {
            let line = format_run(&lines[cur], cnt, count);
            let ghost old_out = out@;
            out.push(line);
            proof {
                assert(runs(s.take(i + 1)).drop_last() =~= before);
                assert(before =~= before.drop_last().push(before.last()));
                assert(line_views(out@) =~= line_views(old_out).push(line@));
                assert(line_views(out@) =~= before.map_values(
                    |p: (Seq<char>, nat)| run_line(p.0, p.1, count),
                ));
            }
            cur = i;
            cnt = 1;
        }
        i = i + 1;
    }
    let line = format_run(&lines[cur], cnt, count);
    let ghost old_out = out@;
    out.push(line);
    proof {
        let r = runs(s.take(i as int));
        assert(s.take(i as int) =~= s);
        assert(r =~= r.drop_last().push(r.last()));
        assert(line_views(out@) =~= line_views(old_out).push(line@));
        assert(line_views(out@) =~= uniq_output(s, count));
    }
    out
}

} // verus!
