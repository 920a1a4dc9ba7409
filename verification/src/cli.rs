//! Command-line argument parsing.

use vstd::prelude::*;

verus! {

/// Argument parsing error conditions.
#[derive(Clone, Copy, Debug, PartialEq, Eq, Structural)]
pub enum Error {
    /// User did not supply a required argument.
    MissingArgument,
    /// User passed an unrecognized option.
    UnrecognizedOption,
}

impl Error {
    /// A short description of the error, as shown to the user.
    pub fn message(&self) -> (m: &'static str)
        ensures
            *self is MissingArgument ==> m@ == "missing argument"@,
            *self is UnrecognizedOption ==> m@ == "invalid option"@,
    {
        match self {
            Error::MissingArgument => "missing argument",
            Error::UnrecognizedOption => "invalid option",
        }
    }
}

/// Results of argument parsing.
#[derive(Clone, Debug)]
pub enum Request {
    /// User passed the "help" option.
    Help,
    /// User passed the "version" option.
    Version,
    /// Everything is good, the user passed some paths.
    View { files: Vec<String> },
}

/// Whether an argument is an option: it starts with a dash.
pub open spec fn is_option_arg(a: Seq<char>) -> bool {
    a.len() > 0 && a[0] == '-'
}

/// Whether an argument asks for the help text.
pub open spec fn is_help_arg(a: Seq<char>) -> bool {
    a == "-h"@ || a == "--help"@
}

/// Whether an argument asks for the version.
pub open spec fn is_version_arg(a: Seq<char>) -> bool {
    a == "-v"@ || a == "--version"@
}

/// The index of the first option among the arguments, or their number if
/// none is an option.
pub open spec fn first_option_idx(args: Seq<Seq<char>>) -> int
    decreases args.len(),
{
    if args.len() == 0 {
        0
    } else if is_option_arg(args[0]) {
        0
    } else {
        1 + first_option_idx(args.drop_first())
    }
}

proof fn lemma_first_option_idx(args: Seq<Seq<char>>, i: int)
    requires
        0 <= i <= args.len(),
        forall|j: int| 0 <= j < i ==> !is_option_arg(#[trigger] args[j]),
        i < args.len() ==> is_option_arg(args[i]),
    ensures
        i < args.len() ==> first_option_idx(args) == i,
        i == args.len() ==> first_option_idx(args) == args.len(),
    decreases args.len(),
{
    if args.len() > 0 && !is_option_arg(args[0]) {
        assert(i > 0);
        lemma_first_option_idx(args.drop_first(), i - 1);
    }
}

/// Whether two strings hold the same characters.
fn str_eq(a: &str, b: &str) -> (r: bool)
    ensures
        r == (a@ == b@),
{
    let la = a.unicode_len();
    let lb = b.unicode_len();
    if la != lb {
        assert(a@ != b@) by {
            assert(a@.len() != b@.len());
        }
        return false;
    }
    let mut i: usize = 0;
    while i < la
        invariant
            i <= la,
            la == a@.len(),
            la == b@.len(),
            forall|j: int| 0 <= j < i ==> a@[j] == b@[j],
        decreases la - i,
    {
        if a.get_char(i) != b.get_char(i) {
            return false;
        }
        i = i + 1;
    }
    proof {
        assert(a@ =~= b@);
    }
    true
}

/// Whether the string starts with a dash.
fn starts_with_dash(a: &str) -> (r: bool)
    ensures
        r == is_option_arg(a@),
{
    a.unicode_len() > 0 && a.get_char(0) == '-'
}

/// Parses command-line arguments.
///
/// The arguments are the actual arguments alone; the first element is not
/// the executable name. The first argument starting with a dash decides:
/// `-h`/`--help` asks for the help text, `-v`/`--version` for the version,
/// any other dash argument is an unrecognized option. With no dash
/// arguments at all, the arguments are the files to view, and none at all
/// is a missing argument.
pub fn parse(args: Vec<String>) -> (r: Result<Request, Error>)
    ensures
        ({
            let views = args.deep_view();
            let i = first_option_idx(views);
            &&& (i < views.len() && is_help_arg(views[i])) ==> (r matches Ok(Request::Help))
            &&& (i < views.len() && !is_help_arg(views[i]) && is_version_arg(views[i])) ==> (r
                matches Ok(Request::Version))
            &&& (i < views.len() && !is_help_arg(views[i]) && !is_version_arg(views[i])) ==> (r
                matches Err(Error::UnrecognizedOption))
            &&& (i == views.len() && views.len() == 0) ==> (r matches Err(Error::MissingArgument))
            &&& (i == views.len() && views.len() > 0) ==> (r matches Ok(Request::View { files })
                && files.deep_view() == views)
        }),
{
    let ghost views = args.deep_view();
    let mut files: Vec<String> = Vec::new();
    let mut i: usize = 0;
    while i < args.len()
        invariant
            i <= args.len(),
            views == args.deep_view(),
            forall|j: int| 0 <= j < i ==> !is_option_arg(#[trigger] views[j]),
            files@ == args@.take(i as int),
        decreases args.len() - i,
    {
        let arg = &args[i];
        proof {
            reveal_strlit("-h");
            reveal_strlit("--help");
            reveal_strlit("-v");
            reveal_strlit("--version");
            assert(views[i as int] == args@[i as int]@);
        }
        if str_eq(arg.as_str(), "-h") || str_eq(arg.as_str(), "--help") {
            proof {
                lemma_first_option_idx(views, i as int);
            }
            return Ok(Request::Help);
        }
        if str_eq(arg.as_str(), "-v") || str_eq(arg.as_str(), "--version") {
            proof {
                lemma_first_option_idx(views, i as int);
            }
            return Ok(Request::Version);
        }
        if starts_with_dash(arg.as_str()) {
            proof {
                lemma_first_option_idx(views, i as int);
            }
            return Err(Error::UnrecognizedOption);
        }
        files.push(arg.clone());
        proof {
            assert(files@ =~= args@.take(i + 1));
        }
        i = i + 1;
    }
    proof {
        lemma_first_option_idx(views, views.len() as int);
    }
    if files.len() == 0 {
        Err(Error::MissingArgument)
    } else {
        proof {
            assert(files@ =~= args@);
            assert(files.deep_view() =~= views);
        }
        Ok(Request::View { files })
    }
}

} // verus!
