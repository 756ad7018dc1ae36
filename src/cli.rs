//! The command line: the program name and one executable path.
use vstd::prelude::*;

verus! {

/// The command line held other than exactly one argument after the program
/// name; `given` is the number of words it held, the program name included.
#[derive(Clone, Copy, Debug, PartialEq, Eq, Structural)]
pub struct UsageError {
    pub given: usize,
}

/// The path of the application to supervise, from the full argument list.
pub fn app_path_from_args(args: &Vec<String>) -> (r: Result<String, UsageError>)
    ensures
        args@.len() == 2 ==> (r matches Ok(p) && p@ == args@[1]@),
        args@.len() != 2 ==> r == Err::<String, UsageError>(UsageError { given: args.len() }),
{
    if args.len() == 2 {
        Ok(args[1].clone())
    } else {
        Err(UsageError { given: args.len() })
    }
}

} // verus!
