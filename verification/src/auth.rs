//! Authentication of a request by the session identifier that its
//! `Authorization` header carries.

use vstd::prelude::*;
use crate::ids::{object_id_of, ObjectId};
use crate::protocol::{answer, perform, respond, Command, CommandView, Outcome, OutcomeView, Status, Step, StepView};

verus! {

/// The session identifier that an `Authorization` header value names, if any.
pub open spec fn header_session_id(header: Option<Seq<char>>) -> Option<Seq<u8>> {
    match header {
        Some(text) => object_id_of(text),
        None => None,
    }
}

/// The user of the session that a lookup found, if it found one.
pub open spec fn session_user(o: OutcomeView) -> Option<Seq<u8>> {
    match o {
        OutcomeView::Session(s) => Some(s.user_id),
        _ => None,
    }
}

pub enum GateView {
    /// The request is answered, or the session is looked up.
    Decided(StepView),
    /// The session was found; the request is on behalf of this user.
    Passed(Seq<u8>),
}

/// The start of every handler that needs a logged-in user: look up the
/// session that the header names (the first outcome of the history answers
/// that lookup); without a well-formed header, or without a session, the
/// request is unauthorized.
pub open spec fn gate(header: Option<Seq<char>>, history: Seq<OutcomeView>) -> GateView {
    match header_session_id(header) {
        None => GateView::Decided(answer(Status::Unauthorized)),
        Some(session_id) => if history.len() == 0 {
            GateView::Decided(perform(CommandView::FindSession { session_id }))
        } else {
            match session_user(history[0]) {
                None => GateView::Decided(answer(Status::Unauthorized)),
                Some(user) => GateView::Passed(user),
            }
        },
    }
}

pub enum Gate {
    Decided(Step),
    Passed(ObjectId),
}

impl View for Gate {
    type V = GateView;

    open spec fn view(&self) -> GateView {
        match self {
            Gate::Decided(s) => GateView::Decided(s@),
            Gate::Passed(u) => GateView::Passed(u@),
        }
    }
}

/// The session identifier that an `Authorization` header value names.
pub fn session_id_of_header(header: Option<&str>) -> (res: Option<ObjectId>)
    ensures
        res.deep_view() == header_session_id(header.deep_view()),
{
    match header {
        Some(text) => ObjectId::parse(text),
        None => None,
    }
}

/// Decides the authentication part of a request.
pub fn authenticate(header: Option<&str>, history: &[Outcome]) -> (res: Gate)
    ensures
        res@ == gate(header.deep_view(), history.deep_view()),
{
    match session_id_of_header(header) {
        None => Gate::Decided(respond(Status::Unauthorized)),
        Some(session_id) => {
            if history.len() == 0 {
                Gate::Decided(Step::Perform(Command::FindSession { session_id }))
            } else {
                match &history[0] {
                    Outcome::Session(s) => Gate::Passed(s.user_id),
                    _ => Gate::Decided(respond(Status::Unauthorized)),
                }
            }
        },
    }
}

} // verus!
