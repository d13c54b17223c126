//! Where a tool reads from: the name `"-"` stands for standard input, any
//! other name for a file of that name.

use vstd::prelude::*;

verus! {

/// A readable source, as named on the command line.
pub enum Source {
    Stdin,
    File { name: String },
}

/// The name that stands for standard input.
pub open spec fn is_stdin_name(name: Seq<char>) -> bool {
    name == seq!['-']
}

/// The source that a name denotes.
pub fn source_of(name: &String) -> (r: Source)
    ensures
        r is Stdin <==> is_stdin_name(name@),
        r is File ==> r->File_name@ == name@,
{
    let n = name.as_str();
    if n.unicode_len() == 1 && n.get_char(0) == '-' {
        assert(name@ =~= seq!['-']);
        Source::Stdin
    } else {
        Source::File { name: name.clone() }
    }
}

/// The sources to read: those named, or standard input when none is.
pub open spec fn sources_or_stdin(files: Seq<String>) -> Seq<Seq<char>> {
    if files.len() == 0 {
        seq![seq!['-']]
    } else {
        files.map_values(|f: String| f@)
    }
}

/// The names given, or `"-"` alone when none is.
pub fn names_or_stdin(files: Vec<String>) -> (r: Vec<String>)
    ensures
        r@.map_values(|f: String| f@) == sources_or_stdin(files@),
{
    if files.len() == 0 {
        let dash = String::from_str("-");
        proof { reveal_strlit("-"); }
        assert(dash@ =~= seq!['-']);
        let r = vec![dash];
        assert(r@.map_values(|f: String| f@) =~= sources_or_stdin(files@));
        r
    } else {
        files
    }
}

} // verus!
