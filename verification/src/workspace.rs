//! The name of the scratch workspace of a run.
//!
//! Every run works in a directory of its own under the system's temporary
//! directory. Its name is `tmp-` followed by ten random letters and digits,
//! so that two runs do not meet in one directory.
use rand::distr::Alphanumeric;
use rand::Rng;
use vstd::prelude::*;
use vstd::string::StringExecFns;

verus! {

/// How many random characters a workspace name ends in.
pub const SUFFIX_LENGTH: usize = 10;

/// An ASCII letter or digit.
pub open spec fn is_alphanumeric(c: char) -> bool {
    ('0' <= c && c <= '9') || ('a' <= c && c <= 'z') || ('A' <= c && c <= 'Z')
}

/// A text of letters and digits only.
pub open spec fn all_alphanumeric(s: Seq<char>) -> bool {
    forall|i: int| 0 <= i < s.len() ==> is_alphanumeric(#[trigger] s[i])
}

/// The shape of a workspace name.
pub open spec fn is_workspace_name(name: Seq<char>) -> bool {
    exists|suffix: Seq<char>|
        #![trigger all_alphanumeric(suffix)]
        name == "tmp-"@ + suffix && suffix.len() == SUFFIX_LENGTH && all_alphanumeric(suffix)
}

/// Draws `length` characters from `rand`'s `Alphanumeric` distribution with
/// the thread's generator. Whatever is drawn, the result has `length`
/// characters and each is an ASCII letter or digit; nothing else is claimed
/// of it, and two calls may differ.
#[verifier::external_body]
fn random_alphanumeric(length: usize) -> (s: String)
    ensures
        s@.len() == length,
        all_alphanumeric(s@),
{
    rand::rng().sample_iter(&Alphanumeric).take(length).map(char::from).collect()
}

/// The workspace name that ends in `suffix`.
pub fn workspace_name_with(suffix: &str) -> (name: String)
    ensures
        name@ == "tmp-"@ + suffix@,
{
    String::from_str("tmp-").concat(suffix)
}

/// A fresh workspace name.
pub fn workspace_name() -> (name: String)
    ensures
        is_workspace_name(name@),
{
    let suffix = random_alphanumeric(SUFFIX_LENGTH);
    let name = workspace_name_with(suffix.as_str());
    assert(all_alphanumeric(suffix@));
    name
}

} // verus!
