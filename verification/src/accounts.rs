//! The first version of the account endpoints: checks whether an e-mail
//! address or a user name is taken, account creation, logout, and login by
//! password or by session.

use vstd::prelude::*;
use crate::ids::{object_id_of, ObjectId};
use crate::protocol::{
    answer, answer_with, found, perform, respond, respond_with, succeeded, is_found, is_success,
    Command, CommandView, Outcome, OutcomeView, Payload, PayloadView, Status, Step, StepView,
};
use crate::records::{copy_text, SessionView, User, UserView};
use crate::sessions::is_live;
use crate::text::{lowercase, to_lowercase};
use crate::users::{login_answers_fit, login_plan, login_step};

verus! {

/// Answers whether a lookup (`history[0]`) found a user: "1" if so, "0" if
/// not, and no content if the lookup failed.
pub open spec fn taken_plan(lookup: CommandView, history: Seq<OutcomeView>) -> StepView {
    if history.len() == 0 {
        perform(lookup)
    } else if !succeeded(history[0]) {
        answer(Status::NoContent)
    } else if found(history[0]) {
        answer_with(Status::Success, PayloadView::Text("1"@))
    } else {
        answer_with(Status::Success, PayloadView::Text("0"@))
    }
}

/// The account stored by `create_user`: as given, with the e-mail address
/// in lower case.
pub open spec fn created_user(form: UserView) -> UserView {
    UserView {
        id: None,
        email: lowercase(form.email),
        username: form.username,
        hash: form.hash,
        salt: form.salt,
        role: None,
        artist_id: None,
    }
}

/// Answers `POST /user/create`: stores the account (`history[0]`).
pub open spec fn create_user_plan(form: UserView, history: Seq<OutcomeView>) -> StepView {
    if history.len() == 0 {
        perform(CommandView::InsertUser { user: created_user(form) })
    } else if succeeded(history[0]) {
        answer_with(Status::Success, PayloadView::Text("success"@))
    } else {
        answer(Status::Conflict)
    }
}

/// Answers `DELETE /user/delete`: deletes the session that the text names
/// (whatever comes of it).
pub open spec fn delete_user_plan(session_text: Seq<char>, history: Seq<OutcomeView>) -> StepView {
    match object_id_of(session_text) {
        None => answer(Status::BadRequest),
        Some(session_id) => if history.len() == 0 {
            perform(CommandView::DeleteSession { session_id })
        } else {
            answer(Status::Success)
        },
    }
}

/// Answers `POST /user/loginSession`: the session (`history[0]`) is
/// accepted while it is live at the current time (`history[1]`).
pub open spec fn login_with_session_plan(session_text: Seq<char>, history: Seq<OutcomeView>) -> StepView {
    match object_id_of(session_text) {
        None => answer(Status::BadRequest),
        Some(session_id) => if history.len() == 0 {
            perform(CommandView::FindSession { session_id })
        } else {
            match history[0] {
                OutcomeView::Session(s) => if history.len() == 1 {
                    perform(CommandView::ReadClock)
                } else {
                    match history[1] {
                        OutcomeView::Clock(now) => if is_live(s.expiration_date as int, now as int) {
                            answer(Status::Success)
                        } else {
                            answer(Status::Unauthorized)
                        },
                        _ => answer(Status::Unauthorized),
                    }
                },
                _ => answer(Status::Unauthorized),
            }
        },
    }
}

/// Answers `POST /testing`: looks up the session that the cookie names
/// (whatever comes of it) and greets the user named in the request.
pub open spec fn index_plan(session_cookie: Seq<char>, username: Seq<char>, history: Seq<OutcomeView>) -> StepView {
    if history.len() == 0 {
        perform(CommandView::FindSession { session_id: object_id_of(session_cookie)->0 })
    } else {
        answer_with(Status::Success, PayloadView::Text("Welcome "@ + username + "!"@))
    }
}

fn text_payload(text: &'static str) -> (res: Payload)
    ensures
        res@ == PayloadView::Text(text@),
{
    Payload::Text(text.to_owned())
}

fn taken_step(lookup: Command, history: &[Outcome]) -> (res: Step)
    ensures
        res@ == taken_plan(lookup@, history.deep_view()),
{
    if history.len() == 0 {
        return Step::Perform(lookup);
    }
    if !is_success(&history[0]) {
        respond(Status::NoContent)
    } else if is_found(&history[0]) {
        respond_with(Status::Success, text_payload("1"))
    } else {
        respond_with(Status::Success, text_payload("0"))
    }
}

pub fn email_exists(email: &str, history: &[Outcome]) -> (res: Step)
    ensures
        res@ == taken_plan(CommandView::FindUserByEmail { email: email@ }, history.deep_view()),
{
    taken_step(Command::FindUserByEmail { email: email.to_owned() }, history)
}

pub fn username_exists(username: &str, history: &[Outcome]) -> (res: Step)
    ensures
        res@ == taken_plan(CommandView::FindUserByUsername { username: username@ }, history.deep_view()),
{
    taken_step(Command::FindUserByUsername { username: username.to_owned() }, history)
}

pub fn create_user(info: &User, history: &[Outcome]) -> (res: Step)
    ensures
        res@ == create_user_plan(info@, history.deep_view()),
{
    if history.len() == 0 {
        let user = User {
            id: None,
            email: to_lowercase(info.email.as_str()),
            username: copy_text(&info.username),
            hash: copy_text(&info.hash),
            salt: copy_text(&info.salt),
            role: None,
            artist_id: None,
        };
        return Step::Perform(Command::InsertUser { user });
    }
    if is_success(&history[0]) {
        respond_with(Status::Success, text_payload("success"))
    } else {
        respond(Status::Conflict)
    }
}

pub fn delete_user(session_id: &str, history: &[Outcome]) -> (res: Step)
    ensures
        res@ == delete_user_plan(session_id@, history.deep_view()),
{
    match ObjectId::parse(session_id) {
        None => respond(Status::BadRequest),
        Some(id) => {
            if history.len() == 0 {
                Step::Perform(Command::DeleteSession { session_id: id })
            } else {
                respond(Status::Success)
            }
        },
    }
}

pub fn login_with_password(email: &str, password: &str, history: &[Outcome]) -> (res: Step)
    requires
        login_answers_fit(history.deep_view()),
    ensures
        res@ == login_plan(email@, password@, history.deep_view(), Status::Forbidden, Status::InternalServerError),
{
    login_step(email, password, history, Status::Forbidden, Status::InternalServerError)
}

pub fn login_with_session(session_id: &str, history: &[Outcome]) -> (res: Step)
    ensures
        res@ == login_with_session_plan(session_id@, history.deep_view()),
{
    let id = match ObjectId::parse(session_id) {
        Some(id) => id,
        None => return respond(Status::BadRequest),
    };
    if history.len() == 0 {
        return Step::Perform(Command::FindSession { session_id: id });
    }
    match &history[0] {
        Outcome::Session(s) => {
            if history.len() == 1 {
                return Step::Perform(Command::ReadClock);
            }
            match &history[1] {
                Outcome::Clock(now) => {
                    if *now <= s.expiration_date {
                        respond(Status::Success)
                    } else {
                        respond(Status::Unauthorized)
                    }
                },
                _ => respond(Status::Unauthorized),
            }
        },
        _ => respond(Status::Unauthorized),
    }
}

pub fn index(session_cookie: &str, info: &User, history: &[Outcome]) -> (res: Step)
    requires
        object_id_of(session_cookie@) is Some,
    ensures
        res@ == index_plan(session_cookie@, info.username@, history.deep_view()),
{
    if history.len() == 0 {
        let session_id = match ObjectId::parse(session_cookie) {
            Some(id) => id,
            None => return respond(Status::BadRequest),
        };
        return Step::Perform(Command::FindSession { session_id });
    }
    let mut greeting = "Welcome ".to_owned();
    greeting.append(info.username.as_str());
    greeting.append("!");
    respond_with(Status::Success, Payload::Text(greeting))
}

/// Whether an address or name is taken: the lookup is made, and the answer
/// is "1" when a user is found, "0" when none is, and 204 when the lookup
/// fails.
pub proof fn lemma_taken_answers(email: Seq<char>, username: Seq<char>, user: UserView)
    ensures
        taken_plan(CommandView::FindUserByEmail { email }, seq![]) == perform(
            CommandView::FindUserByEmail { email },
        ),
        taken_plan(CommandView::FindUserByUsername { username }, seq![]) == perform(
            CommandView::FindUserByUsername { username },
        ),
        forall|lookup: CommandView|
            #![trigger taken_plan(lookup, seq![OutcomeView::User(user)])]
            {
                &&& taken_plan(lookup, seq![OutcomeView::User(user)]) == answer_with(
                    Status::Success,
                    PayloadView::Text("1"@),
                )
                &&& taken_plan(lookup, seq![OutcomeView::Missing]) == answer_with(
                    Status::Success,
                    PayloadView::Text("0"@),
                )
                &&& taken_plan(lookup, seq![OutcomeView::Failed]) == answer(Status::NoContent)
            },
{
}

/// Creating an account stores it as given, with the e-mail address in
/// lower case and no role, artist or identifier; 200 "success" when stored,
/// 409 when the store refuses it.
pub proof fn lemma_account_creation(form: UserView, stored: OutcomeView)
    requires
        !(stored is Failed),
    ensures
        create_user_plan(form, seq![]) == perform(
            CommandView::InsertUser {
                user: UserView {
                    id: None,
                    email: lowercase(form.email),
                    hash: form.hash,
                    salt: form.salt,
                    username: form.username,
                    role: None,
                    artist_id: None,
                },
            },
        ),
        create_user_plan(form, seq![stored]) == answer_with(Status::Success, PayloadView::Text("success"@)),
        create_user_plan(form, seq![OutcomeView::Failed]) == answer(Status::Conflict),
{
}

/// Logging out deletes the named session and answers 200 whatever came of
/// it; a malformed session identifier is 400.
pub proof fn lemma_logout(text: Seq<char>, session_id: Seq<u8>, outcome: OutcomeView, history: Seq<OutcomeView>)
    requires
        object_id_of(text) == Some(session_id),
    ensures
        delete_user_plan(text, seq![]) == perform(CommandView::DeleteSession { session_id }),
        delete_user_plan(text, seq![outcome]) == answer(Status::Success),
        forall|bad: Seq<char>| object_id_of(bad) is None ==> #[trigger] delete_user_plan(bad, history) == answer(
            Status::BadRequest,
        ),
{
}

/// Logging in by session: the session is looked up and the clock read; the
/// answer is 200 while the clock is at or before the expiration date, 401
/// after it or when there is no session; a malformed identifier is 400.
pub proof fn lemma_login_by_session(
    text: Seq<char>,
    session_id: Seq<u8>,
    session: SessionView,
    now: i64,
    none: OutcomeView,
)
    requires
        object_id_of(text) == Some(session_id),
        !(none is Session),
    ensures
        login_with_session_plan(text, seq![]) == perform(CommandView::FindSession { session_id }),
        login_with_session_plan(text, seq![OutcomeView::Session(session)]) == perform(CommandView::ReadClock),
        now <= session.expiration_date ==> login_with_session_plan(
            text,
            seq![OutcomeView::Session(session), OutcomeView::Clock(now)],
        ) == answer(Status::Success),
        now > session.expiration_date ==> login_with_session_plan(
            text,
            seq![OutcomeView::Session(session), OutcomeView::Clock(now)],
        ) == answer(Status::Unauthorized),
        login_with_session_plan(text, seq![none]) == answer(Status::Unauthorized),
{
}

/// The greeting looks up the cookie's session and then answers 200 with
/// "Welcome <name>!", whatever came of the lookup.
pub proof fn lemma_greeting(cookie: Seq<char>, session_id: Seq<u8>, username: Seq<char>, outcome: OutcomeView)
    requires
        object_id_of(cookie) == Some(session_id),
    ensures
        index_plan(cookie, username, seq![]) == perform(CommandView::FindSession { session_id }),
        index_plan(cookie, username, seq![outcome]) == answer_with(
            Status::Success,
            PayloadView::Text("Welcome "@ + username + "!"@),
        ),
{
}

} // verus!
