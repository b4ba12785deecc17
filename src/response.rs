use vstd::prelude::*;
use vstd::string::StringExecFns;

use crate::text::same_text;

verus! {

/// How the delegated tool finished: the category of sound to play.
#[derive(Clone, Copy, Debug, PartialEq, Eq, Structural)]
pub enum Response {
    Positive,
    Negative,
}

/// A text that names no response.
#[derive(Clone, Copy, Debug, PartialEq, Eq, Structural)]
pub struct ParseResponseError;

/// The text that stands for a response when it crosses a process boundary.
pub open spec fn response_text(r: Response) -> Seq<char> {
    match r {
        Response::Positive => "Positive"@,
        Response::Negative => "Negative"@,
    }
}

/// The response that a text names, if any.
pub open spec fn response_from_text(s: Seq<char>) -> Option<Response> {
    if s == "Positive"@ {
        Some(Response::Positive)
    } else if s == "Negative"@ {
        Some(Response::Negative)
    } else {
        None
    }
}

impl Response {
    /// The textual form of the response.
    pub fn to_string(&self) -> (r: String)
        ensures
            r@ == response_text(*self),
    {
        match self {
            Response::Positive => String::from_str("Positive"),
            Response::Negative => String::from_str("Negative"),
        }
    }

    /// Reads a response back from its textual form; any other text is refused.
    pub fn from_str(s: &str) -> (r: Result<Response, ParseResponseError>)
        ensures
            match response_from_text(s@) {
                Some(k) => r == Ok::<Response, ParseResponseError>(k),
                None => r == Err::<Response, ParseResponseError>(ParseResponseError),
            },
    {
        if same_text(s, "Positive") {
            Ok(Response::Positive)
        } else if same_text(s, "Negative") {
            Ok(Response::Negative)
        } else {
            Err(ParseResponseError)
        }
    }
}

/// Reading back the text of a response gives that response, and the only
/// texts that read as a response are the texts of the two responses.
pub proof fn lemma_response_text_round_trip(r: Response, s: Seq<char>)
    ensures
        response_from_text(response_text(r)) == Some(r),
        response_from_text(s) is Some ==> response_text(response_from_text(s).unwrap()) == s,
        response_from_text(s) is None ==> s != response_text(Response::Positive) && s
            != response_text(Response::Negative),
{
    reveal_strlit("Positive");
    reveal_strlit("Negative");
    assert("Positive"@ != "Negative"@) by {
        assert("Positive"@[0] != "Negative"@[0]);
    }
}

} // verus!
