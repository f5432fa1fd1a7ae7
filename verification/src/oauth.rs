//! What the platform hands back when a login comes round to the dashboard.

use vstd::prelude::*;
use vstd::string::*;

verus! {

/// The two values of the redirect that ends a login: the state that the login began with,
/// and the code to trade for a token.
#[derive(Clone, Debug)]
pub struct OAuthResponse {
    state: String,
    code: String,
}

/// The mathematical value of an [`OAuthResponse`].
pub struct OAuthResponseView {
    pub state: Seq<char>,
    pub code: Seq<char>,
}

impl View for OAuthResponse {
    type V = OAuthResponseView;

    closed spec fn view(&self) -> OAuthResponseView {
        OAuthResponseView { state: self.state@, code: self.code@ }
    }
}

impl OAuthResponse {
    /// The response that carries `state` and `code`.
    pub fn new(state: String, code: String) -> (response: OAuthResponse)
        ensures
            response@ == (OAuthResponseView { state: state@, code: code@ }),
    {
        OAuthResponse { state, code }
    }

    /// The state that came back.
    pub fn state(&self) -> (state: &String)
        ensures
            state@ == self@.state,
    {
        &self.state
    }

    /// The code to trade for a token.
    pub fn code(&self) -> (code: &String)
        ensures
            code@ == self@.code,
    {
        &self.code
    }

    /// Whether the state that came back is the one that the login began with. A login whose
    /// state differs was not begun by this browser and must not go on.
    pub fn state_matches(&self, expected: &str) -> (same: bool)
        ensures
            same == (self@.state == expected@),
    {
        let expected = String::from_str(expected);
        self.state == expected
    }
}

} // verus!
