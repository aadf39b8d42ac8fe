//! The command line of a single exchange: the email and the password of the
//! account, each given as an option.

use vstd::prelude::*;

verus! {

/// The account named on the command line.
#[derive(Clone, Debug, PartialEq, Eq)]
pub struct Args {
    /// Email address of account to authenticate
    pub email: String,
    /// Password of account to authenticate
    pub password: String,
}

/// The command line does not name both values.
#[derive(Clone, Copy, Debug, PartialEq, Eq, Structural)]
pub struct UsageError;

/// The values that a command line gives to two required options, the first
/// item of `argv` being the program's name; `None` where the command line
/// does not give both, or asks for help or for the version instead.
pub uninterp spec fn option_values(argv: Seq<Seq<char>>, first: Seq<char>, second: Seq<char>)
    -> Option<(Seq<char>, Seq<char>)>;

/// A name that an option can have: letters only, at least one.
pub open spec fn is_option_name(name: Seq<char>) -> bool {
    &&& 0 < name.len() <= 32
    &&& forall|i: int| 0 <= i < name.len() ==> 'a' <= #[trigger] name[i] <= 'z'
}

/// Parses `argv` with `clap::App::get_matches_from_safe`, as `structopt`
/// hands it on, for an application with two required options that take one
/// value each. Each option goes by its name after `--` and by the first
/// letter of its name after `-`. What comes back is what
/// `ArgMatches::value_of` gives for the two names; it depends on `argv` and
/// the names alone.
#[verifier::external_body]
fn clap_option_values(argv: &Vec<String>, first: &str, second: &str) -> (r: Option<
    (String, String),
>)
    requires
        is_option_name(first@),
        is_option_name(second@),
        first@[0] != second@[0],
    ensures
        match r {
            Some(found) => option_values(argv.deep_view(), first@, second@) == Some(
                (found.0@, found.1@),
            ),
            None => option_values(argv.deep_view(), first@, second@) is None,
        },
{
    let one = structopt::clap::Arg::with_name(first).short(first).long(first);
    let two = structopt::clap::Arg::with_name(second).short(second).long(second);
    let found = structopt::clap::App::new("")
        .arg(one.takes_value(true).required(true))
        .arg(two.takes_value(true).required(true))
        .get_matches_from_safe(argv)
        .ok()?;
    Some((found.value_of(first)?.to_string(), found.value_of(second)?.to_string()))
}

impl Args {
    /// The account that the option values name, where both are there.
    pub fn from_option_values(found: Option<(String, String)>) -> (r: Result<Args, UsageError>)
        ensures
            match found {
                Some(values) => r is Ok && r->Ok_0.email == values.0 && r->Ok_0.password
                    == values.1,
                None => r is Err,
            },
    {
        match found {
            Some((email, password)) => Ok(Args { email, password }),
            None => Err(UsageError),
        }
    }

    /// Reads the command line `argv`, whose first item is the program's
    /// name: `--email` or `-e` gives the email, `--password` or `-p` the
    /// password, and both are required.
    pub fn parse_args(argv: &Vec<String>) -> (r: Result<Args, UsageError>)
        ensures
            match r {
                Ok(args) => option_values(argv.deep_view(), "email"@, "password"@) == Some(
                    (args.email@, args.password@),
                ),
                Err(_) => option_values(argv.deep_view(), "email"@, "password"@) is None,
            },
    {
        proof {
            reveal_strlit("email");
            reveal_strlit("password");
        }
        Args::from_option_values(clap_option_values(argv, "email", "password"))
    }
}

} // verus!
