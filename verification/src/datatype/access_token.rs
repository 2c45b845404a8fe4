use vstd::prelude::*;

verus! {

/// What the authentication server hands out: the bearer token and what it
/// says about it.
#[derive(Clone, Debug, PartialEq, Eq)]
pub struct AccessToken {
    pub access_token: String,
    pub token_type: String,
    pub expires_in: i32,
    pub scope: Vec<String>,
}

/// What an `AccessToken` holds, as plain values.
pub struct AccessTokenView {
    pub access_token: Seq<char>,
    pub token_type: Seq<char>,
    pub expires_in: int,
    pub scope: Seq<Seq<char>>,
}

impl View for AccessToken {
    type V = AccessTokenView;

    open spec fn view(&self) -> AccessTokenView {
        AccessTokenView {
            access_token: self.access_token@,
            token_type: self.token_type@,
            expires_in: self.expires_in as int,
            scope: self.scope@.map_values(|s: String| s@),
        }
    }
}

impl AccessToken {
    /// A copy that holds the same values.
    pub fn duplicate(&self) -> (copy: AccessToken)
        ensures
            copy@ == self@,
    {
        let mut scope: Vec<String> = Vec::new();
        let mut i: usize = 0;
        while i < self.scope.len()
            invariant
                i <= self.scope.len(),
                scope@ == self.scope@.subrange(0, i as int),
            decreases self.scope.len() - i,
        {
            scope.push(self.scope[i].clone());
            assert(scope@ =~= self.scope@.subrange(0, i + 1));
            i = i + 1;
        }
        assert(scope@ =~= self.scope@);
        AccessToken {
            access_token: self.access_token.clone(),
            token_type: self.token_type.clone(),
            expires_in: self.expires_in,
            scope,
        }
    }
}

impl Default for AccessToken {
    /// The empty token: no text, no scope, no lifetime.
    fn default() -> (token: AccessToken)
        ensures
            token@ == (AccessTokenView {
                access_token: Seq::empty(),
                token_type: Seq::empty(),
                expires_in: 0,
                scope: Seq::empty(),
            }),
    {
        let token = AccessToken {
            access_token: String::new(),
            token_type: String::new(),
            expires_in: 0,
            scope: Vec::new(),
        };
        assert(token@.scope =~= Seq::empty());
        token
    }
}

} // verus!
