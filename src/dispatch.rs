use vstd::prelude::*;
use vstd::string::*;

use crate::records::{APIResponse, TrackView};
use crate::report::{track_lines, track_lines_of};

verus! {

/// The status code of a successful search.
pub const STATUS_OK: u16 = 200;

/// The status code that asks for a fresh bearer token.
pub const STATUS_UNAUTHORIZED: u16 = 401;

/// What to do once the status of the response is known.
#[derive(Debug, Clone, Copy, PartialEq, Eq, Structural)]
pub enum StatusAction {
    /// The search succeeded: read the body as a search response.
    ReadBody,
    /// The token was refused: ask the user for a new one.
    NeedNewToken,
    /// Any other status: an unanticipated fault that ends the run abnormally.
    Unexpected,
}

/// The action each status code calls for: 200 reads the body, 401 asks
/// for a new token, and every other status is unexpected.
pub open spec fn action_of(status: u16) -> StatusAction {
    if status == 200 {
        StatusAction::ReadBody
    } else if status == 401 {
        StatusAction::NeedNewToken
    } else {
        StatusAction::Unexpected
    }
}

/// Decides what to do with a response from its status code alone.
pub fn on_status(status: u16) -> (r: StatusAction)
    ensures
        r == action_of(status),
{
    if status == STATUS_OK {
        StatusAction::ReadBody
    } else if status == STATUS_UNAUTHORIZED {
        StatusAction::NeedNewToken
    } else {
        StatusAction::Unexpected
    }
}

/// How one run ends.
pub enum Outcome {
    /// Write these lines to standard output and finish normally.
    Print(Vec<String>),
    /// Terminate abnormally with this diagnostic.
    Abort(String),
}

/// How a run ends, with its output as sequences of characters.
pub enum OutcomeView {
    Print(Seq<Seq<char>>),
    Abort(Seq<char>),
}

impl View for Outcome {
    type V = OutcomeView;

    open spec fn view(&self) -> OutcomeView {
        match self {
            Outcome::Print(lines) => OutcomeView::Print(lines@.map_values(|l: String| l@)),
            Outcome::Abort(msg) => OutcomeView::Abort(msg@),
        }
    }
}

pub open spec fn shape_mismatch_text() -> Seq<char> {
    "Hm, the response didn't match the shape we expected."@
}

pub open spec fn need_token_text() -> Seq<char> {
    "Need to grab a new token"@
}

pub open spec fn unexpected_text() -> Seq<char> {
    "Uh oh! Something unexpected happened: "@
}

pub open spec fn digits() -> Seq<char> {
    "0123456789"@
}

/// The decimal digits of `n`, most significant first, without leading zeros.
pub open spec fn decimal(n: nat) -> Seq<char>
    decreases n,
{
    if n < 10 {
        digits().subrange(n as int, n + 1 as int)
    } else {
        decimal(n / 10) + digits().subrange((n % 10) as int, (n % 10) + 1 as int)
    }
}

/// The diagnostic for a status outside the anticipated ones.
pub open spec fn unexpected_status_text(status: u16) -> Seq<char> {
    unexpected_text() + decimal(status as nat)
}

/// What the tracks of a parsed body hold, if the body could be parsed.
pub open spec fn parsed_view(parsed: Option<&APIResponse>) -> Option<Seq<TrackView>> {
    match parsed {
        Some(p) => Some(p@),
        None => None,
    }
}

/// How a run ends, given the status code and, where the body was read, the
/// search response it held (`None` where it did not fit the expected shape).
pub open spec fn outcome_of(status: u16, parsed: Option<Seq<TrackView>>) -> OutcomeView {
    match action_of(status) {
        StatusAction::ReadBody => match parsed {
            Some(tracks) => OutcomeView::Print(track_lines_of(tracks)),
            None => OutcomeView::Print(seq![shape_mismatch_text()]),
        },
        StatusAction::NeedNewToken => OutcomeView::Print(seq![need_token_text()]),
        StatusAction::Unexpected => OutcomeView::Abort(unexpected_status_text(status)),
    }
}

fn append_decimal(out: &mut String, n: u16)
    ensures
        final(out)@ == old(out)@ + decimal(n as nat),
    decreases n,
{
    let ghost start = out@;
    if n >= 10 {
        append_decimal(out, n / 10);
    }
    let d: usize = (n % 10) as usize;
    let all = "0123456789";
    proof {
        reveal_strlit("0123456789");
    }
    out.append(all.substring_char(d, d + 1));
    proof {
        if n >= 10 {
            assert(out@ =~= start + decimal(n as nat));
        }
    }
}

/// The diagnostic written when the run ends on an unanticipated status.
pub fn unexpected_status_message(status: u16) -> (r: String)
    ensures
        r@ == unexpected_status_text(status),
{
    let mut r = String::from_str("Uh oh! Something unexpected happened: ");
    append_decimal(&mut r, status);
    r
}

/// Decides how a run ends from the response's status code and, where the
/// status asked for the body to be read, the outcome of reading it.
pub fn respond(status: u16, parsed: Option<&APIResponse>) -> (r: Outcome)
    ensures
        r@ == outcome_of(status, parsed_view(parsed)),
{
    match on_status(status) {
        StatusAction::ReadBody => match parsed {
            Some(response) => Outcome::Print(track_lines(&response.tracks.items)),
            None => {
                let lines = vec![String::from_str("Hm, the response didn't match the shape we expected.")];
                proof {
                    assert(lines@.map_values(|l: String| l@) =~= seq![shape_mismatch_text()]);
                }
                Outcome::Print(lines)
            },
        },
        StatusAction::NeedNewToken => {
            let lines = vec![String::from_str("Need to grab a new token")];
            proof {
                assert(lines@.map_values(|l: String| l@) =~= seq![need_token_text()]);
            }
            Outcome::Print(lines)
        },
        StatusAction::Unexpected => Outcome::Abort(unexpected_status_message(status)),
    }
}

/// A run is repeatable: two responses with the same status and bodies that
/// hold the same tracks end the same way, with the same output.
pub proof fn lemma_respond_deterministic(
    status: u16,
    first: Option<Seq<TrackView>>,
    second: Option<Seq<TrackView>>,
)
    requires
        status == 200 ==> first == second,
    ensures
        outcome_of(status, first) == outcome_of(status, second),
{
}

} // verus!
