use vstd::prelude::*;
use vstd::string::*;

use crate::error::SdkError;

verus! {

/// The token that authenticates a client: `account=<account>&api_key=<api_key>`.
pub open spec fn token_of(account: Seq<char>, api_key: Seq<char>) -> Seq<char> {
    "account="@ + account + "&api_key="@ + api_key
}

/// The printed form of a pair of credentials.
pub open spec fn credentials_text(account: Seq<char>, api_key: Seq<char>) -> Seq<char> {
    "account: "@ + account + ", api_key: "@ + api_key
}

/// An account and its key, with the token derived from them.
/// Both are non-empty; nothing changes after construction.
#[derive(Debug, Clone)]
pub struct Credentials {
    account: String,
    api_key: String,
    token: String,
}

impl Credentials {
    pub closed spec fn account_view(&self) -> Seq<char> {
        self.account@
    }

    pub closed spec fn api_key_view(&self) -> Seq<char> {
        self.api_key@
    }

    pub closed spec fn token_view(&self) -> Seq<char> {
        self.token@
    }

    /// Well-formed: both parts non-empty and the token derived from them.
    pub open spec fn wf(&self) -> bool {
        &&& self.account_view().len() > 0
        &&& self.api_key_view().len() > 0
        &&& self.token_view() == token_of(self.account_view(), self.api_key_view())
    }

    /// Builds credentials; an empty account or key is a `ParamsError`.
    pub fn new(account: &str, api_key: &str) -> (r: Result<Credentials, SdkError>)
        ensures
            account@.len() > 0 && api_key@.len() > 0 <==> r is Ok,
            r matches Ok(c) ==> {
                &&& c.wf()
                &&& c.account_view() == account@
                &&& c.api_key_view() == api_key@
            },
            account@.len() == 0 ==> (r matches Err(SdkError::ParamsError(m))
                && m@ == "account should not be empty"@),
            account@.len() > 0 && api_key@.len() == 0 ==> (r matches Err(SdkError::ParamsError(m))
                && m@ == "api_key should not be empty"@),
    {
        if account.is_empty() {
            return Err(SdkError::ParamsError(String::from_str("account should not be empty")));
        }
        if api_key.is_empty() {
            return Err(SdkError::ParamsError(String::from_str("api_key should not be empty")));
        }
        let token = String::from_str("account=").concat(account).concat("&api_key=").concat(api_key);
        Ok(Credentials {
            account: String::from_str(account),
            api_key: String::from_str(api_key),
            token,
        })
    }

    /// The account and key in printed form.
    pub fn to_string(&self) -> (r: String)
        ensures
            r@ == credentials_text(self.account_view(), self.api_key_view()),
    {
        String::from_str("account: ").concat(self.account.as_str()).concat(", api_key: ").concat(
            self.api_key.as_str(),
        )
    }

    /// The token sent as the bearer value of each request.
    pub fn token(&self) -> (r: &str)
        ensures
            r@ == self.token_view(),
    {
        self.token.as_str()
    }
}

/// Two constructions from the same account and key give the same token,
/// and that token is the one derived from them.
pub proof fn lemma_token_deterministic(c1: Credentials, c2: Credentials)
    requires
        c1.wf(),
        c2.wf(),
        c1.account_view() == c2.account_view(),
        c1.api_key_view() == c2.api_key_view(),
    ensures
        c1.token_view() == c2.token_view(),
        c1.token_view() == token_of(c1.account_view(), c1.api_key_view()),
{
}

} // verus!
