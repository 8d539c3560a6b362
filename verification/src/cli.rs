//! The command line: `program <url> <filename> [save-directory]`.

use vstd::prelude::*;

verus! {

/// What the user asked for.
#[derive(Debug)]
pub struct Invocation {
    pub url: String,
    pub filename: String,
    /// The directory to save into; the current directory when none is given.
    pub directory: String,
}

/// The directory that is used when the command line names none.
pub open spec fn default_directory() -> Seq<char> {
    "."@
}

/// Whether the arguments, the program's name included, name at least a URL
/// and a file name.
pub open spec fn is_usable(args: Seq<String>) -> bool {
    args.len() >= 3
}

/// Reads the arguments, of which the first is the program's name. Returns
/// `None` when the URL or the file name is missing. Arguments after the
/// directory are ignored.
pub fn parse_invocation(args: &Vec<String>) -> (invocation: Option<Invocation>)
    ensures
        invocation is Some <==> is_usable(args@),
        invocation matches Some(inv) ==> {
            &&& inv.url@ == args@[1]@
            &&& inv.filename@ == args@[2]@
            &&& inv.directory@ == if args@.len() > 3 {
                args@[3]@
            } else {
                default_directory()
            }
        },
{
    if args.len() < 3 {
        return None;
    }
    let directory = if args.len() > 3 {
        args[3].clone()
    } else {
        String::from_str(".")
    };
    Some(Invocation { url: args[1].clone(), filename: args[2].clone(), directory })
}

} // verus!
