//! Login policy: demo credential check and auth-token issuing.

use vstd::prelude::*;

use crate::error::Error;
use crate::token::{format_token, lemma_token_round_trip, token_of, token_user_id, token_wf};

verus! {

/// Demo acceptance policy: the credentials pass exactly when username and
/// password are equal and non-empty.
pub open spec fn login_accepted(username: Seq<char>, password: Seq<char>) -> bool {
    username == password && username.len() > 0
}

/// Demo id derivation: the user id issued for a username is its length
/// in characters.
pub open spec fn derived_user_id(username: Seq<char>) -> u64 {
    username.len() as u64
}

/// Whether two strings hold the same characters.
#[verifier::loop_isolation(false)]
fn str_eq(a: &str, b: &str) -> (r: bool)
    ensures
        r == (a@ == b@),
{
    let na = a.unicode_len();
    let nb = b.unicode_len();
    if na != nb {
        return false;
    }
    let mut i: usize = 0;
    while i < na
        invariant
            0 <= i <= na,
            na == a@.len(),
            na == b@.len(),
            forall|k: int| 0 <= k < i ==> a@[k] == b@[k],
        decreases na - i,
    {
        if a.get_char(i) != b.get_char(i) {
            return false;
        }
        i = i + 1;
    }
    proof {
        assert(a@ =~= b@);
    }
    true
}

/// Validates the credentials and, on success, issues the auth cookie
/// value: a well-formed token for the username's derived user id.
/// Anything else fails with `LoginFail`.
pub fn login(username: &str, password: &str) -> (r: Result<String, Error>)
    ensures
        login_accepted(username@, password@) ==> r is Ok && r->Ok_0@ == token_of(
            derived_user_id(username@),
        ),
        !login_accepted(username@, password@) ==> r == Err::<String, Error>(Error::LoginFail),
{
    let n = username.unicode_len();
    if n > 0 && str_eq(username, password) {
        Ok(format_token(n as u64))
    } else {
        Err(Error::LoginFail)
    }
}

/// Law: for accepted credentials, the issued cookie token is well-formed
/// and parses back to the same derived user id.
pub proof fn lemma_login_token_round_trip(username: Seq<char>, password: Seq<char>)
    requires
        login_accepted(username, password),
    ensures
        token_wf(token_of(derived_user_id(username))),
        token_user_id(token_of(derived_user_id(username))) == derived_user_id(username),
{
    lemma_token_round_trip(derived_user_id(username));
}

} // verus!
