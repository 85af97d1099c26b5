//! Where the binaries, the data, the secrets and the logs live below the
//! home directory. The home directory is handed in: nothing here looks at
//! the environment.

use vstd::prelude::*;
use vstd::string::*;

verus! {

/// `base` with the path `rest` joined on: an absolute `rest` stands for
/// itself; else it follows `base`, after a separator unless `base` is empty
/// or ends in one.
pub open spec fn join_of(base: Seq<char>, rest: Seq<char>) -> Seq<char> {
    if rest.len() > 0 && rest[0] == '/' {
        rest
    } else if base.len() > 0 && base.last() != '/' {
        base + seq!['/'] + rest
    } else {
        base + rest
    }
}

/// Joins the path `rest` onto `base`.
pub fn join(base: &str, rest: &str) -> (r: String)
    ensures
        r@ == join_of(base@, rest@),
{
    let rest_len: usize = rest.unicode_len();
    if rest_len > 0 && rest.get_char(0) == '/' {
        return String::from_str(rest);
    }
    let base_len: usize = base.unicode_len();
    let mut path = String::from_str(base);
    if base_len > 0 && base.get_char(base_len - 1) != '/' {
        proof {
            reveal_strlit("/");
            assert("/"@ =~= seq!['/']);
        }
        path.append("/");
    }
    path.append(rest);
    path
}

/// The directory of the node binaries below `home`.
pub open spec fn bin_dir_of(home: Seq<char>) -> Seq<char> {
    join_of(home, ".ethup/bin"@)
}

/// The directory of the shared secret below `home`.
pub open spec fn secret_dir_of(home: Seq<char>) -> Seq<char> {
    join_of(home, ".ethup/secrets"@)
}

/// The directory of the nodes' data below `home`.
pub open spec fn data_dir_of(home: Seq<char>) -> Seq<char> {
    join_of(home, ".ethup/data"@)
}

/// The directory of the nodes' logs below `home`.
pub open spec fn log_dir_of(home: Seq<char>) -> Seq<char> {
    join_of(home, ".ethup/logs"@)
}

/// The directory of the node binaries below `home`.
pub fn bin_dir(home: &str) -> (r: String)
    ensures
        r@ == bin_dir_of(home@),
{
    join(home, ".ethup/bin")
}

/// The directory of the shared secret below `home`.
pub fn secret_dir(home: &str) -> (r: String)
    ensures
        r@ == secret_dir_of(home@),
{
    join(home, ".ethup/secrets")
}

/// The directory of the nodes' data below `home`.
pub fn data_dir(home: &str) -> (r: String)
    ensures
        r@ == data_dir_of(home@),
{
    join(home, ".ethup/data")
}

/// The directory of the nodes' logs below `home`.
pub fn log_dir(home: &str) -> (r: String)
    ensures
        r@ == log_dir_of(home@),
{
    join(home, ".ethup/logs")
}

} // verus!
