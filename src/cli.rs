use vstd::prelude::*;

verus! {

/// The credentials of a command line `<program> <username> <password>`: present
/// exactly when there are two arguments after the program's name.
pub fn credentials_from_args(args: &Vec<String>) -> (r: Option<(String, String)>)
    ensures
        r is Some <==> args@.len() == 3,
        r matches Some((u, p)) ==> u@ == args@[1]@ && p@ == args@[2]@,
{
    if args.len() == 3 {
        Some((args[1].clone(), args[2].clone()))
    } else {
        None
    }
}

} // verus!
