//! The set of tokens that may upload and delete pastes.
use vstd::prelude::*;
use crate::error::ErrorResponse;
use crate::text::str_eq;

verus! {

/// The accepted tokens, as loaded from the token file.
#[derive(Debug)]
pub struct TokenSet {
    tokens: Vec<String>,
}

/// The texts of a list of tokens.
pub open spec fn token_texts(tokens: Seq<String>) -> Seq<Seq<char>> {
    tokens.map_values(|t: String| t@)
}

impl View for TokenSet {
    type V = Seq<Seq<char>>;

    closed spec fn view(&self) -> Seq<Seq<char>> {
        token_texts(self.tokens@)
    }
}

impl TokenSet {
    /// A set that accepts no token.
    pub fn new() -> (r: TokenSet)
        ensures
            r@ == Seq::<Seq<char>>::empty(),
    {
        let r = TokenSet { tokens: Vec::new() };
        assert(r@ =~= Seq::<Seq<char>>::empty());
        r
    }

    /// A set holding exactly `tokens`.
    pub fn from_tokens(tokens: Vec<String>) -> (r: TokenSet)
        ensures
            r@ == token_texts(tokens@),
    {
        TokenSet { tokens }
    }

    /// Replaces the whole set by `tokens` (what reloading the token file
    /// does).
    pub fn replace(&mut self, tokens: Vec<String>)
        ensures
            final(self)@ == token_texts(tokens@),
    {
        self.tokens = tokens;
    }

    /// Whether `token` is one of the accepted tokens.
    pub fn contains(&self, token: &str) -> (r: bool)
        ensures
            r == self@.contains(token@),
    {
        let n = self.tokens.len();
        let mut i: usize = 0;
        while i < n
            invariant
                n == self.tokens@.len(),
                i <= n,
                forall|j: int| 0 <= j < i ==> self.tokens@[j]@ != token@,
            decreases n - i,
        {
            if str_eq(self.tokens[i].as_str(), token) {
                assert(self@[i as int] == token@);
                return true;
            }
            i = i + 1;
        }
        assert forall|j: int| 0 <= j < self@.len() implies self@[j] != token@ by {
            assert(self@[j] == self.tokens@[j]@);
        }
        false
    }
}

impl TokenSet {
    /// Admits a request that carries `token` when the token is in the set;
    /// otherwise answers `401` with the body `UNAUTHORIZED`.
    pub fn authorize(&self, token: &str) -> (r: Result<(), ErrorResponse>)
        ensures
            r is Ok <==> self@.contains(token@),
            r matches Err(e) ==> e.status == 401 && e.body@ == "UNAUTHORIZED"@,
    {
        if self.contains(token) {
            Ok(())
        } else {
            Err(ErrorResponse { status: 401, body: String::from_str("UNAUTHORIZED") })
        }
    }
}

/// A reload makes the set accept exactly the tokens that were loaded: a
/// token is accepted afterwards if and only if it is among them, whatever
/// the set accepted before.
pub proof fn law_reload_accepts_exactly_loaded(after: TokenSet, loaded: Seq<String>, token: Seq<char>)
    requires
        after@ == token_texts(loaded),
    ensures
        after@.contains(token) <==> exists|i: int| 0 <= i < loaded.len() && #[trigger] loaded[i]@ == token,
{
    if after@.contains(token) {
        let k = choose|k: int| 0 <= k < after@.len() && after@[k] == token;
        assert(loaded[k]@ == token);
    }
    if exists|i: int| 0 <= i < loaded.len() && #[trigger] loaded[i]@ == token {
        let i = choose|i: int| 0 <= i < loaded.len() && #[trigger] loaded[i]@ == token;
        assert(after@[i] == token);
    }
}

} // verus!
