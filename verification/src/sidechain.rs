//! The worker's RPC endpoint, as far as it can be described without a
//! connection: where it is, and what is made of a message that it sends.

use vstd::prelude::*;

verus! {

/// The compact rendering of the JSON value that `text` spells, or `None`
/// where `text` is not one JSON value.
pub uninterp spec fn json_compact(text: Seq<char>) -> Option<Seq<char>>;

/// `serde_json::from_str` at type `Value`, then `Value::to_string`: parses
/// one JSON value and renders it without insignificant whitespace; the call
/// fails exactly where the text is not one JSON value.
#[verifier::external_body]
fn json_render(text: &str) -> (r: Result<String, serde_json::Error>)
    ensures
        match r {
            Ok(rendered) => json_compact(text@) == Some(rendered@),
            Err(_) => json_compact(text@) is None,
        },
{
    Ok(serde_json::from_str::<serde_json::Value>(text)?.to_string())
}

/// Handles the answer to a plain request: the first message that arrives is
/// the answer.
#[derive(Default, Debug, PartialEq, Eq, Clone)]
pub struct GetSidechainRequestHandler;

impl GetSidechainRequestHandler {
    /// What is handed on for a message that arrived as `text`: the message's
    /// JSON value in compact form, or `None` for a message that is not JSON,
    /// which is an invalid answer.
    pub fn answer(&self, text: &str) -> (r: Option<String>)
        ensures
            match r {
                Some(answer) => json_compact(text@) == Some(answer@),
                None => json_compact(text@) is None,
            },
    {
        match json_render(text) {
            Ok(rendered) => Some(rendered),
            Err(_) => None,
        }
    }
}

/// A client of the worker's RPC endpoint.
#[derive(Debug, Clone, Default)]
pub struct SidechainRpcClient {
    url: String,
}

impl View for SidechainRpcClient {
    type V = Seq<char>;

    /// The endpoint's URL.
    closed spec fn view(&self) -> Seq<char> {
        self.url@
    }
}

impl SidechainRpcClient {
    /// A client of the endpoint at `url`. No connection is made.
    pub fn new(url: &str) -> (client: SidechainRpcClient)
        ensures
            client@ == url@,
    {
        SidechainRpcClient { url: url.to_owned() }
    }

    /// The endpoint's URL.
    pub fn url(&self) -> (url: &str)
        ensures
            url@ == self@,
    {
        self.url.as_str()
    }
}

} // verus!
