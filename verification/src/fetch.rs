//! The page fetcher's decisions: which address to ask, and whether what came
//! back is a page.

use vstd::prelude::*;
use vstd::string::*;

verus! {

/// The address of the status pages, up to the token.
pub const BASE_URL: &'static str =
    "https://www.boulderado.de/boulderadoweb/gym-clientcounter/index.php?mode=get&token=";

/// Why no page was fetched.
#[derive(Clone, Copy, Debug, PartialEq, Eq, Structural)]
pub enum FetchError {
    /// The request did not get an answer.
    Network,
    /// The answer came with a status that is no success.
    Status(u16),
    /// The body of the answer is no text.
    Undecodable,
}

/// What a request led to.
#[derive(Debug)]
pub enum FetchOutcome {
    /// The request did not get an answer.
    Unreachable,
    /// The server answered, with this status and this body; the body is `None`
    /// where it could not be decoded as text.
    Answered { status: u16, body: Option<String> },
}

/// The mathematical value of a `FetchOutcome`.
pub enum FetchOutcomeView {
    Unreachable,
    Answered { status: int, body: Option<Seq<char>> },
}

impl View for FetchOutcome {
    type V = FetchOutcomeView;

    open spec fn view(&self) -> FetchOutcomeView {
        match self {
            FetchOutcome::Unreachable => FetchOutcomeView::Unreachable,
            FetchOutcome::Answered { status, body } => FetchOutcomeView::Answered {
                status: *status as int,
                body: match body {
                    Some(text) => Some(text@),
                    None => None,
                },
            },
        }
    }
}

/// Whether a status is one of the success codes, 200 to 299.
pub open spec fn is_success(status: int) -> bool {
    200 <= status <= 299
}

/// The page that an outcome carries, or the reason why it carries none.
pub open spec fn page_of(outcome: FetchOutcomeView) -> Result<Seq<char>, FetchError> {
    match outcome {
        FetchOutcomeView::Unreachable => Err(FetchError::Network),
        FetchOutcomeView::Answered { status, body } => if !is_success(status) {
            Err(FetchError::Status(status as u16))
        } else {
            match body {
                Some(text) => Ok(text),
                None => Err(FetchError::Undecodable),
            }
        },
    }
}

/// The address of the status page that `token` gives access to: the base
/// address with the token behind it, as it is.
pub fn site_url(base: &str, token: &str) -> (url: String)
    ensures
        url@ == base@ + token@,
{
    let mut url = String::new();
    url.append(base);
    url.append(token);
    assert(url@ =~= base@ + token@);
    url
}

/// Takes the page out of an outcome. A request without an answer, a status
/// outside 200 to 299 and a body that is no text are failures, in this
/// order.
pub fn into_page(outcome: FetchOutcome) -> (r: Result<String, FetchError>)
    ensures
        match r {
            Ok(page) => page_of(outcome@) == Ok::<Seq<char>, FetchError>(page@),
            Err(e) => page_of(outcome@) == Err::<Seq<char>, FetchError>(e),
        },
{
    match outcome {
        FetchOutcome::Unreachable => Err(FetchError::Network),
        FetchOutcome::Answered { status, body } => if status < 200 || status > 299 {
            Err(FetchError::Status(status))
        } else {
            match body {
                Some(text) => Ok(text),
                None => Err(FetchError::Undecodable),
            }
        },
    }
}

} // verus!
