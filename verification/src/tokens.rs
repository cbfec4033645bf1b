//! Token counting with the `cl100k_base` byte-pair encoding, and the budget
//! that the counts are held against.

use vstd::prelude::*;

verus! {

/// The tokens that the `cl100k_base` encoding gives a text, special tokens
/// allowed; `None` where the encoder reports that it could not split the text.
pub uninterp spec fn cl100k_tokens(text: Seq<char>) -> Option<Seq<u32>>;

/// Calls `tiktoken_rs::CoreBPE::encode` on the shared `cl100k_base` encoder
/// (`tiktoken_rs::cl100k_base_singleton`, built once from the vocabulary
/// that ships inside that crate), with every special token of the encoder
/// allowed (`CoreBPE::special_tokens`). That is what
/// `encode_with_special_tokens` does, short of unwrapping the result.
/// Trusted, not proved: the tokens returned are a function of the text
/// alone, named `cl100k_tokens`, and the error that the encoder returns when
/// its splitting pattern gives up comes back as `None`.
#[verifier::external_body]
fn cl100k_encode(text: &str) -> (tokens: Option<Vec<u32>>)
    ensures
        match tokens {
            Some(found) => cl100k_tokens(text@) == Some(found@),
            None => cl100k_tokens(text@).is_none(),
        },
{
    let encoder = tiktoken_rs::cl100k_base_singleton();
    match encoder.encode(text, &encoder.special_tokens()) {
        Ok((tokens, _)) => Some(tokens),
        Err(_) => None,
    }
}

/// The number of tokens in an encoding, where there is one.
pub open spec fn count_of(tokens: Option<Seq<u32>>) -> Option<nat> {
    match tokens {
        Some(found) => Some(found.len()),
        None => None,
    }
}

/// The number of `cl100k_base` tokens in a text.
pub open spec fn token_count(text: Seq<char>) -> Option<nat> {
    count_of(cl100k_tokens(text))
}

/// Counts the tokens of an encoding that has already been computed.
pub fn count_encoded(tokens: &Option<Vec<u32>>) -> (count: Option<usize>)
    ensures
        match count {
            Some(n) => tokens.is_some() && n == tokens.unwrap()@.len(),
            None => tokens.is_none(),
        },
{
    match tokens {
        Some(found) => Some(found.len()),
        None => None,
    }
}

/// Counts the `cl100k_base` tokens of a text; `None` where the encoder fails.
pub fn count_tokens(text: &str) -> (count: Option<usize>)
    ensures
        match count {
            Some(n) => token_count(text@) == Some(n as nat),
            None => token_count(text@).is_none(),
        },
{
    let tokens = cl100k_encode(text);
    count_encoded(&tokens)
}

/// The token counts of one invocation: those of the user text and those of
/// the parent prompt.
#[derive(Clone, Copy, Debug, PartialEq, Eq, Structural)]
pub struct TokenUsage {
    pub text_tokens: usize,
    pub prompt_tokens: usize,
}

/// The two counts as numbers.
pub struct Usage {
    pub text_tokens: nat,
    pub prompt_tokens: nat,
}

impl Usage {
    /// The combined count.
    pub open spec fn sum(self) -> nat {
        self.text_tokens + self.prompt_tokens
    }

    /// Whether the combined count stays within a ceiling.
    pub open spec fn fits(self, ceiling: nat) -> bool {
        self.sum() <= ceiling
    }
}

impl View for TokenUsage {
    type V = Usage;

    open spec fn view(&self) -> Usage {
        Usage { text_tokens: self.text_tokens as nat, prompt_tokens: self.prompt_tokens as nat }
    }
}

impl TokenUsage {
    /// Returns the combined count.
    pub fn total(&self) -> (total: u128)
        ensures
            total == self@.sum(),
    {
        self.text_tokens as u128 + self.prompt_tokens as u128
    }

    /// Tells whether the combined count stays within `ceiling`.
    pub fn within(&self, ceiling: u64) -> (ok: bool)
        ensures
            ok == self@.fits(ceiling as nat),
    {
        self.total() <= ceiling as u128
    }
}

} // verus!
