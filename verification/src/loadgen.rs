//! The settings and the request text of the load generator.

use vstd::prelude::*;
use vstd::string::StringExecFns;

verus! {

/// Where the load generator sends its requests.
#[derive(Clone, Copy, Debug, PartialEq, Eq, Structural)]
pub enum Service {
    /// The proxy, one input per request.
    Proxy,
    /// The downstream service itself, a batch of one per request.
    Native,
}

impl Service {
    /// The URL of the service's embedding endpoint.
    pub open spec fn spec_url(self) -> Seq<char> {
        match self {
            Service::Proxy => "http://localhost:3000/embed"@,
            Service::Native => "http://localhost:8080/embed"@,
        }
    }

    /// The URL of the service's embedding endpoint.
    pub fn url(self) -> (url: &'static str)
        ensures
            url@ == self.spec_url(),
    {
        match self {
            Service::Proxy => "http://localhost:3000/embed",
            Service::Native => "http://localhost:8080/embed",
        }
    }
}

/// The settings of one load run.
#[derive(Clone, Copy, Debug)]
pub struct Args {
    /// How many requests to send.
    pub requests: usize,
    /// How many of them may be in flight at once.
    pub concurrency: usize,
    /// Where to send them.
    pub service: Service,
    /// How many words each request's text holds.
    pub tokens: usize,
}

/// The number of words in a request's text when none is given.
pub const DEFAULT_TOKENS: usize = 128;

/// The text of `tokens` words: `word ` that many times.
pub open spec fn base_text(tokens: nat) -> Seq<char>
    decreases tokens,
{
    if tokens == 0 {
        Seq::empty()
    } else {
        base_text((tokens - 1) as nat) + "word "@
    }
}

/// A text of `tokens` words, each followed by a space: about one token per
/// word for the usual tokenizers.
pub fn make_base_text(tokens: usize) -> (text: String)
    ensures
        text@ == base_text(tokens as nat),
{
    let mut text = String::new();
    let mut made: usize = 0;
    while made < tokens
        invariant
            made <= tokens,
            text@ == base_text(made as nat),
        decreases tokens - made,
    {
        text.append("word ");
        made = made + 1;
    }
    text
}

/// The length of the text of `tokens` words: five characters a word.
pub proof fn base_text_length(tokens: nat)
    ensures
        base_text(tokens).len() == 5 * tokens,
    decreases tokens,
{
    reveal_strlit("word ");
    if tokens > 0 {
        base_text_length((tokens - 1) as nat);
    }
}

} // verus!
