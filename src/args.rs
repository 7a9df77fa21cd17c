use vstd::prelude::*;

verus! {

/// The number of entries a well-formed argument list holds: the program
/// name, the search query and the bearer token.
pub const ARG_COUNT: usize = 3;

/// The search query and bearer token taken from the command line.
pub struct SearchArgs {
    pub query: String,
    pub token: String,
}

/// Splits the process's argument list (program name first) into the search
/// query and the bearer token. There must be exactly two arguments after the
/// program name; any other count is a usage error and gives `None`.
pub fn parse_args(args: &Vec<String>) -> (r: Option<SearchArgs>)
    ensures
        r is Some <==> args@.len() == 3,
        r matches Some(a) ==> a.query@ == args@[1]@ && a.token@ == args@[2]@,
{
    if args.len() != ARG_COUNT {
        return None;
    }
    Some(SearchArgs { query: args[1].clone(), token: args[2].clone() })
}

} // verus!
