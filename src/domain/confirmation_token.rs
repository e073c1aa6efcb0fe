use vstd::prelude::*;
use vstd::string::*;

verus! {

/// Number of symbols in a token.
pub const TOKEN_LEN: usize = 25;

/// Number of symbols in the token alphabet.
pub const ALPHABET_LEN: usize = 62;

/// The URL-safe symbols a token is drawn from.
pub open spec fn token_alphabet() -> Seq<char> {
    "ABCDEFGHIJKLMNOPQRSTUVWXYZabcdefghijklmnopqrstuvwxyz0123456789"@
}

/// The token spelled by `draws`, each draw picking a symbol of the alphabet.
pub open spec fn spell(draws: Seq<usize>) -> Seq<char> {
    draws.map_values(|d: usize| token_alphabet()[d as int])
}

/// `draws` can spell a token: one index of the alphabet per symbol.
pub open spec fn draws_in_range(draws: Seq<usize>) -> bool {
    draws.len() == TOKEN_LEN && forall|i: int| 0 <= i < draws.len() ==> draws[i] < ALPHABET_LEN
}

/// `s` has the shape of a token: `TOKEN_LEN` symbols of the alphabet.
pub open spec fn is_token_text(s: Seq<char>) -> bool {
    &&& s.len() == TOKEN_LEN
    &&& forall|i: int| 0 <= i < s.len() ==> token_alphabet().contains(#[trigger] s[i])
}

/// Relies on `rand::Rng::gen_range` over `rand::thread_rng` (a cryptographically
/// secure generator seeded by the operating system): a value below `bound`.
#[verifier::external_body]
fn draw_below(bound: usize) -> (r: usize)
    requires
        bound > 0,
    ensures
        r < bound,
{
    rand::Rng::gen_range(&mut rand::thread_rng(), 0..bound)
}

/// An opaque credential that confirms one pending subscription.
#[derive(Debug)]
pub struct ConfirmationToken {
    value: String,
}

impl View for ConfirmationToken {
    type V = Seq<char>;

    closed spec fn view(&self) -> Seq<char> {
        self.value@
    }
}

impl ConfirmationToken {
    #[verifier::type_invariant]
    closed spec fn inv(self) -> bool {
        is_token_text(self.value@)
    }

    /// Spells the token picked by `draws`; `None` unless there is one draw per
    /// symbol and each is an index of the alphabet.
    pub fn from_draws(draws: &Vec<usize>) -> (r: Option<ConfirmationToken>)
        ensures
            r is Some <==> draws_in_range(draws@),
            r is Some ==> r->Some_0@ == spell(draws@),
            r is Some ==> is_token_text(r->Some_0@),
    {
        if draws.len() != TOKEN_LEN {
            return None;
        }
        let mut k: usize = 0;
        while k < draws.len()
            invariant
                forall|j: int| 0 <= j < k ==> draws@[j] < ALPHABET_LEN,
                k <= draws.len(),
            decreases draws.len() - k,
        {
            if draws[k] >= ALPHABET_LEN {
                return None;
            }
            k = k + 1;
        }
        let alphabet = "ABCDEFGHIJKLMNOPQRSTUVWXYZabcdefghijklmnopqrstuvwxyz0123456789";
        proof {
            reveal_strlit("ABCDEFGHIJKLMNOPQRSTUVWXYZabcdefghijklmnopqrstuvwxyz0123456789");
        }
        assert(alphabet@ == token_alphabet());
        let mut value = String::new();
        let mut i: usize = 0;
        while i < draws.len()
            invariant
                draws_in_range(draws@),
                alphabet@ == token_alphabet(),
                alphabet@.len() == ALPHABET_LEN,
                i <= draws.len(),
                value@ == spell(draws@.subrange(0, i as int)),
            decreases draws.len() - i,
        {
            let d = draws[i];
            let symbol = alphabet.substring_char(d, d + 1);
            value.append(symbol);
            assert(spell(draws@.subrange(0, i + 1)) =~= spell(draws@.subrange(0, i as int)).push(
                token_alphabet()[d as int],
            ));
            i = i + 1;
        }
        assert(draws@.subrange(0, draws@.len() as int) =~= draws@);
        proof {
            lemma_spelled_from_alphabet(draws@);
        }
        Some(ConfirmationToken { value })
    }

    /// A fresh token from the secure random source: `TOKEN_LEN` symbols of the alphabet.
    pub fn generate() -> (r: ConfirmationToken)
        ensures
            exists|draws: Seq<usize>| draws_in_range(draws) && r@ == spell(draws),
            is_token_text(r@),
    {
        let mut draws: Vec<usize> = Vec::new();
        while draws.len() < TOKEN_LEN
            invariant
                draws.len() <= TOKEN_LEN,
                forall|j: int| 0 <= j < draws.len() ==> draws@[j] < ALPHABET_LEN,
            decreases TOKEN_LEN - draws.len(),
        {
            let d = draw_below(ALPHABET_LEN);
            draws.push(d);
        }
        Self::from_draws(&draws).unwrap()
    }

    /// The token as sent to the subscriber.
    pub fn as_str(&self) -> (r: &str)
        ensures
            r@ == self@,
            is_token_text(r@),
    {
        proof {
            use_type_invariant(self);
        }
        self.value.as_str()
    }

    /// Whether this token is written as `other`.
    pub fn matches(&self, other: &str) -> (r: bool)
        ensures
            r == (self@ == other@),
    {
        self.value == String::from_str(other)
    }
}

/// Every symbol of a spelled token belongs to the alphabet.
pub proof fn lemma_spelled_from_alphabet(draws: Seq<usize>)
    requires
        draws_in_range(draws),
    ensures
        is_token_text(spell(draws)),
{
    reveal_strlit("ABCDEFGHIJKLMNOPQRSTUVWXYZabcdefghijklmnopqrstuvwxyz0123456789");
    assert forall|i: int| 0 <= i < spell(draws).len() implies token_alphabet().contains(
        #[trigger] spell(draws)[i],
    ) by {
        assert(token_alphabet()[draws[i] as int] == spell(draws)[i]);
    }
}

} // verus!
