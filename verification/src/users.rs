//! Accounts: logging in with a password, registering, reading one's own
//! account, reading another user's profile, and changing one's e-mail
//! address or name.

use vstd::prelude::*;
use vstd::utf8::is_ascii_chars;
use crate::auth::{authenticate, gate, Gate, GateView};
use crate::comments::query_object_id;
use crate::ids::{lower_hex, object_id_of};
use crate::auth::header_session_id;
use crate::password::{password_digest, password_hash, password_matches, sha256};
use vstd::utf8::encode_utf8;
use crate::protocol::{
    answer, answer_with, perform, respond, respond_with, succeeded, is_found, is_success,
    found, Command, CommandView, Outcome, OutcomeView, Payload, PayloadView, Status, Step, StepView,
};
use crate::query::query_value;
use crate::records::{copy_optional_text, copy_text, Session, SessionView, User, UserUpdateForm, UserView};
use crate::sessions::{expiry_after, session_expiry, SESSION_LIFE};
use crate::text::{lowercase, to_lowercase};

verus! {

/// The answers of a login conversation have the kinds that its commands
/// call for: the clock reads a time at which a session can still be given
/// an expiration date, the user found carries its identifier (the store
/// gives every document one), and an inserted session comes back with its
/// new identifier (or a failure).
pub open spec fn login_answers_fit(history: Seq<OutcomeView>) -> bool {
    &&& history.len() > 1 ==> {
        &&& history[1] is Clock
        &&& history[1]->Clock_0 <= i64::MAX - SESSION_LIFE
        &&& history[0] is User ==> history[0]->User_0.id is Some
    }
    &&& history.len() > 2 ==> (history[2] is Failed || history[2] is Inserted)
}

/// Logging in with an e-mail address and a password: find the user
/// (`history[0]`); if the salted password digest matches, read the clock
/// (`history[1]`), open a session lasting `SESSION_LIFE` seconds
/// (`history[2]`) and answer with its identifier and expiration date.
/// `mismatch` answers a wrong password, `unsaved` a failed insert.
pub open spec fn login_plan(
    email: Seq<char>,
    password: Seq<char>,
    history: Seq<OutcomeView>,
    mismatch: Status,
    unsaved: Status,
) -> StepView {
    if history.len() == 0 {
        perform(CommandView::FindUserByEmail { email })
    } else {
        match history[0] {
            OutcomeView::User(user) => if password_hash(password, user.salt) != user.hash {
                answer(mismatch)
            } else if history.len() == 1 {
                perform(CommandView::ReadClock)
            } else {
                let now = history[1]->Clock_0;
                let expiration_date = expiry_after(now as int) as i64;
                if history.len() == 2 {
                    perform(CommandView::InsertSession {
                        session: SessionView { user_id: user.id->0, expiration_date },
                    })
                } else {
                    match history[2] {
                        OutcomeView::Inserted(session_id) => answer_with(
                            Status::Success,
                            PayloadView::NewSession { session_id: lower_hex(session_id), expiration_date },
                        ),
                        _ => answer(unsaved),
                    }
                }
            },
            _ => answer(Status::Unauthorized),
        }
    }
}

/// The account stored for a registration: the e-mail address in lower
/// case, the salted digest of the password (which the form carries in its
/// `hash` field) in place of the password, and the role of a fan.
pub open spec fn registered_user(form: UserView) -> UserView {
    UserView {
        id: None,
        email: lowercase(form.email),
        username: form.username,
        hash: password_hash(form.hash, form.salt),
        salt: form.salt,
        role: Some("fan"@),
        artist_id: None,
    }
}

/// Answers `POST /users/register`: stores the new account (`history[0]`).
pub open spec fn register_plan(form: UserView, history: Seq<OutcomeView>) -> StepView {
    if history.len() == 0 {
        perform(CommandView::InsertUser { user: registered_user(form) })
    } else if succeeded(history[0]) {
        answer(Status::Success)
    } else {
        answer(Status::BadRequest)
    }
}

/// Answers `GET users/user_info?session_id=..` with the account of the
/// session's user: the session (`history[0]`), then the user (`history[1]`).
pub open spec fn get_user_plan(query: Seq<char>, history: Seq<OutcomeView>) -> StepView {
    match query_value(query, "session_id"@) {
        None => answer(Status::BadRequest),
        Some(text) => match object_id_of(text) {
            None => answer(Status::BadRequest),
            Some(session_id) => if history.len() == 0 {
                perform(CommandView::FindSession { session_id })
            } else {
                match history[0] {
                    OutcomeView::Session(s) => if history.len() == 1 {
                        perform(CommandView::FindUser { user_id: s.user_id })
                    } else {
                        match history[1] {
                            OutcomeView::User(u) => answer_with(
                                Status::Success,
                                PayloadView::Account {
                                    username: u.username,
                                    email: u.email,
                                    role: u.role->0,
                                    id: u.id->0,
                                    artist_id: u.artist_id,
                                },
                            ),
                            _ => answer(Status::BadRequest),
                        }
                    },
                    _ => answer(Status::BadRequest),
                }
            },
        },
    }
}

/// Answers `GET /users/search_user?user_id=..` with the user's public
/// profile (`history[0]`).
pub open spec fn search_user_plan(query: Seq<char>, history: Seq<OutcomeView>) -> StepView {
    match query_value(query, "user_id"@) {
        None => answer(Status::BadRequest),
        Some(text) => match object_id_of(text) {
            None => answer(Status::BadRequest),
            Some(user_id) => if history.len() == 0 {
                perform(CommandView::FindUser { user_id })
            } else {
                match history[0] {
                    OutcomeView::User(u) => answer_with(
                        Status::Success,
                        PayloadView::Profile {
                            role: u.role,
                            username: u.username,
                            id: u.id,
                            artist_id: u.artist_id,
                        },
                    ),
                    _ => answer(Status::BadRequest),
                }
            },
        },
    }
}

/// Answers `PUT /users` for the logged-in user: sets the e-mail address if
/// the form gives one, otherwise the name if it gives one (`history[1]`).
pub open spec fn update_user_plan(
    header: Option<Seq<char>>,
    email: Option<Seq<char>>,
    username: Option<Seq<char>>,
    history: Seq<OutcomeView>,
) -> StepView {
    match gate(header, history) {
        GateView::Decided(step) => step,
        GateView::Passed(user) => if email is None && username is None {
            answer(Status::BadRequest)
        } else if history.len() == 1 {
            match email {
                Some(e) => perform(CommandView::SetUserEmail { user_id: user, email: e }),
                None => perform(CommandView::SetUsername { user_id: user, username: username->0 }),
            }
        } else if found(history[1]) {
            answer(Status::Success)
        } else {
            answer(Status::BadRequest)
        },
    }
}

/// The login conversation, answering a wrong password with `mismatch` and a
/// failed insert with `unsaved`.
pub(crate) fn login_step(
    email: &str,
    password: &str,
    history: &[Outcome],
    mismatch: Status,
    unsaved: Status,
) -> (res: Step)
    requires
        login_answers_fit(history.deep_view()),
    ensures
        res@ == login_plan(email@, password@, history.deep_view(), mismatch, unsaved),
{
    let ghost h = history.deep_view();
    if history.len() == 0 {
        return Step::Perform(Command::FindUserByEmail { email: email.to_owned() });
    }
    match &history[0] {
        Outcome::User(user) => {
            if !password_matches(password, user.salt.as_str(), user.hash.as_str()) {
                return respond(mismatch);
            }
            if history.len() == 1 {
                return Step::Perform(Command::ReadClock);
            }
            let now = match &history[1] {
                Outcome::Clock(t) => *t,
                _ => {
                    assert(h[1] is Clock);
                    return respond(unsaved);
                },
            };
            assert(h[0] is User && h[1] is Clock);
            let expiration_date = session_expiry(now);
            let user_id = match user.id {
                Some(id) => id,
                None => {
                    assert(h[0]->User_0.id is Some);
                    return respond(unsaved);
                },
            };
            if history.len() == 2 {
                return Step::Perform(Command::InsertSession {
                    session: Session { user_id, expiration_date },
                });
            }
            match &history[2] {
                Outcome::Inserted(session_id) => respond_with(
                    Status::Success,
                    Payload::NewSession { session_id: session_id.to_hex(), expiration_date },
                ),
                _ => respond(unsaved),
            }
        },
        _ => respond(Status::Unauthorized),
    }
}

pub fn login(email: &str, password: &str, history: &[Outcome]) -> (res: Step)
    requires
        login_answers_fit(history.deep_view()),
    ensures
        res@ == login_plan(email@, password@, history.deep_view(), Status::Unauthorized, Status::Unauthorized),
{
    login_step(email, password, history, Status::Unauthorized, Status::Unauthorized)
}

pub fn register(info: &User, history: &[Outcome]) -> (res: Step)
    ensures
        res@ == register_plan(info@, history.deep_view()),
{
    if history.len() == 0 {
        let user = User {
            id: None,
            email: to_lowercase(info.email.as_str()),
            username: copy_text(&info.username),
            hash: password_digest(info.hash.as_str(), info.salt.as_str()),
            salt: copy_text(&info.salt),
            role: Some("fan".to_owned()),
            artist_id: None,
        };
        return Step::Perform(Command::InsertUser { user });
    }
    if is_success(&history[0]) {
        respond(Status::Success)
    } else {
        respond(Status::BadRequest)
    }
}

/// The answers of an account lookup carry a role and an identifier.
pub open spec fn account_answers_complete(history: Seq<OutcomeView>) -> bool {
    history.len() > 1 ==> match history[1] {
        OutcomeView::User(u) => u.role is Some && u.id is Some,
        _ => true,
    }
}

pub fn get_user(query: &str, history: &[Outcome]) -> (res: Step)
    requires
        is_ascii_chars(query@),
        account_answers_complete(history.deep_view()),
    ensures
        res@ == get_user_plan(query@, history.deep_view()),
{
    let ghost h = history.deep_view();
    let session_id = match query_object_id(query, "session_id") {
        Some(id) => id,
        None => return respond(Status::BadRequest),
    };
    if history.len() == 0 {
        return Step::Perform(Command::FindSession { session_id });
    }
    match &history[0] {
        Outcome::Session(s) => {
            if history.len() == 1 {
                return Step::Perform(Command::FindUser { user_id: s.user_id });
            }
            match &history[1] {
                Outcome::User(u) => {
                    assert(h[1] is User);
                    match (&u.role, u.id) {
                        (Some(role), Some(id)) => respond_with(
                            Status::Success,
                            Payload::Account {
                                username: copy_text(&u.username),
                                email: copy_text(&u.email),
                                role: copy_text(role),
                                id,
                                artist_id: copy_optional_text(&u.artist_id),
                            },
                        ),
                        _ => respond(Status::BadRequest),
                    }
                },
                _ => respond(Status::BadRequest),
            }
        },
        _ => respond(Status::BadRequest),
    }
}

pub fn search_user(query: &str, history: &[Outcome]) -> (res: Step)
    requires
        is_ascii_chars(query@),
    ensures
        res@ == search_user_plan(query@, history.deep_view()),
{
    let user_id = match query_object_id(query, "user_id") {
        Some(id) => id,
        None => return respond(Status::BadRequest),
    };
    if history.len() == 0 {
        return Step::Perform(Command::FindUser { user_id });
    }
    match &history[0] {
        Outcome::User(u) => respond_with(
            Status::Success,
            Payload::Profile {
                role: copy_optional_text(&u.role),
                username: copy_text(&u.username),
                id: u.id,
                artist_id: copy_optional_text(&u.artist_id),
            },
        ),
        _ => respond(Status::BadRequest),
    }
}

pub fn update_user(authorization: Option<&str>, info: &UserUpdateForm, history: &[Outcome]) -> (res: Step)
    ensures
        res@ == update_user_plan(
            authorization.deep_view(),
            info.email.deep_view(),
            info.username.deep_view(),
            history.deep_view(),
        ),
{
    let user = match authenticate(authorization, history) {
        Gate::Decided(step) => return step,
        Gate::Passed(user) => user,
    };
    match (&info.email, &info.username) {
        (None, None) => respond(Status::BadRequest),
        (email, username) => {
            if history.len() == 1 {
                match email {
                    Some(e) => Step::Perform(Command::SetUserEmail { user_id: user, email: copy_text(e) }),
                    None => {
                        let name = match username {
                            Some(n) => copy_text(n),
                            None => String::new(),
                        };
                        Step::Perform(Command::SetUsername { user_id: user, username: name })
                    },
                }
            } else if is_found(&history[1]) {
                respond(Status::Success)
            } else {
                respond(Status::BadRequest)
            }
        },
    }
}

/// A user who registered with a password is let in with that password:
/// the stored digest matches, so login goes on to open a session.
pub proof fn lemma_registered_password_is_accepted(
    form: UserView,
    id: Seq<u8>,
    email: Seq<char>,
    mismatch: Status,
    unsaved: Status,
)
    ensures
        login_plan(
            email,
            form.hash,
            seq![OutcomeView::User(UserView { id: Some(id), ..registered_user(form) })],
            mismatch,
            unsaved,
        ) == perform(CommandView::ReadClock),
{
}

/// A password whose salted digest differs from the stored one is refused
/// before any session is opened.
pub proof fn lemma_wrong_password_is_refused(
    email: Seq<char>,
    password: Seq<char>,
    user: UserView,
    history: Seq<OutcomeView>,
    mismatch: Status,
    unsaved: Status,
)
    requires
        history.len() >= 1,
        history[0] == OutcomeView::User(user),
        password_hash(password, user.salt) != user.hash,
    ensures
        login_plan(email, password, history, mismatch, unsaved) == answer(mismatch),
{
}

/// The session that a login opens at time `opened` is accepted by a login
/// by session at any time up to `SESSION_LIFE` seconds later, and refused
/// after that.
pub proof fn lemma_new_session_lasts_its_life(
    email: Seq<char>,
    password: Seq<char>,
    history: Seq<OutcomeView>,
    mismatch: Status,
    unsaved: Status,
    session: SessionView,
    opened: i64,
    session_text: Seq<char>,
    later: i64,
)
    requires
        login_plan(email, password, history, mismatch, unsaved) == perform(
            CommandView::InsertSession { session },
        ),
        history[1] == OutcomeView::Clock(opened),
        opened <= i64::MAX - SESSION_LIFE,
        object_id_of(session_text) is Some,
    ensures
        opened <= later <= opened + SESSION_LIFE ==> crate::accounts::login_with_session_plan(
            session_text,
            seq![OutcomeView::Session(session), OutcomeView::Clock(later)],
        ) == answer(Status::Success),
        later > opened + SESSION_LIFE ==> crate::accounts::login_with_session_plan(
            session_text,
            seq![OutcomeView::Session(session), OutcomeView::Clock(later)],
        ) == answer(Status::Unauthorized),
{
    assert(session.expiration_date == opened + SESSION_LIFE);
}

/// Logging in, step by step, for any stored user (whatever its role or
/// artist): the user is looked up by the e-mail address as given; when the
/// salted digest of the password equals the stored hash, the clock is
/// read, a session of that user expiring `SESSION_LIFE` seconds later is
/// stored, and the answer is 200 with the session's identifier and
/// expiration date; a failed store gets `unsaved`; no user, 401.
pub proof fn lemma_login_conversation(
    email: Seq<char>,
    password: Seq<char>,
    user: UserView,
    user_id: Seq<u8>,
    now: i64,
    session_id: Seq<u8>,
    mismatch: Status,
    unsaved: Status,
    other: OutcomeView,
)
    requires
        user.id == Some(user_id),
        password_hash(password, user.salt) == user.hash,
        now <= i64::MAX - SESSION_LIFE,
        !(other is User),
    ensures
        login_plan(email, password, seq![], mismatch, unsaved) == perform(
            CommandView::FindUserByEmail { email },
        ),
        login_plan(email, password, seq![OutcomeView::User(user)], mismatch, unsaved) == perform(
            CommandView::ReadClock,
        ),
        login_plan(
            email,
            password,
            seq![OutcomeView::User(user), OutcomeView::Clock(now)],
            mismatch,
            unsaved,
        ) == perform(
            CommandView::InsertSession {
                session: SessionView { user_id, expiration_date: (now + 1800) as i64 },
            },
        ),
        login_plan(
            email,
            password,
            seq![OutcomeView::User(user), OutcomeView::Clock(now), OutcomeView::Inserted(session_id)],
            mismatch,
            unsaved,
        ) == answer_with(
            Status::Success,
            PayloadView::NewSession {
                session_id: lower_hex(session_id),
                expiration_date: (now + 1800) as i64,
            },
        ),
        login_plan(
            email,
            password,
            seq![OutcomeView::User(user), OutcomeView::Clock(now), OutcomeView::Failed],
            mismatch,
            unsaved,
        ) == answer(unsaved),
        login_plan(email, password, seq![other], mismatch, unsaved) == answer(Status::Unauthorized),
{
}

/// Registering stores one account: the e-mail address in lower case, the
/// given name and salt, the salted digest of the given password (carried in
/// the form's `hash` field), the role "fan", no artist and no identifier;
/// a stored account is answered 200, a failed store 400.
pub proof fn lemma_registration(form: UserView, stored: OutcomeView)
    requires
        !(stored is Failed),
    ensures
        register_plan(form, seq![]) == perform(
            CommandView::InsertUser {
                user: UserView {
                    id: None,
                    email: lowercase(form.email),
                    hash: lower_hex(sha256(encode_utf8(form.hash + form.salt))),
                    salt: form.salt,
                    username: form.username,
                    role: Some("fan"@),
                    artist_id: None,
                },
            },
        ),
        register_plan(form, seq![stored]) == answer(Status::Success),
        register_plan(form, seq![OutcomeView::Failed]) == answer(Status::BadRequest),
{
}

/// Reading one's account: the session named by `session_id` is looked up,
/// then its user, and the answer is 200 with that user's name, address,
/// role, identifier and artist; 400 when either is not found.
pub proof fn lemma_account_reading(
    query: Seq<char>,
    text: Seq<char>,
    session_id: Seq<u8>,
    session: SessionView,
    user: UserView,
    role: Seq<char>,
    user_id: Seq<u8>,
    none: OutcomeView,
)
    requires
        query_value(query, "session_id"@) == Some(text),
        object_id_of(text) == Some(session_id),
        user.role == Some(role),
        user.id == Some(user_id),
        none is Missing || none is Failed,
    ensures
        get_user_plan(query, seq![]) == perform(CommandView::FindSession { session_id }),
        get_user_plan(query, seq![OutcomeView::Session(session)]) == perform(
            CommandView::FindUser { user_id: session.user_id },
        ),
        get_user_plan(query, seq![OutcomeView::Session(session), OutcomeView::User(user)]) == answer_with(
            Status::Success,
            PayloadView::Account {
                username: user.username,
                email: user.email,
                role,
                id: user_id,
                artist_id: user.artist_id,
            },
        ),
        get_user_plan(query, seq![none]) == answer(Status::BadRequest),
        get_user_plan(query, seq![OutcomeView::Session(session), none]) == answer(Status::BadRequest),
{
}

/// Reading a profile: the user named by `user_id` is looked up and the
/// answer is 200 with its role, name, identifier and artist; 400 when none
/// is found.
pub proof fn lemma_profile_reading(
    query: Seq<char>,
    text: Seq<char>,
    user_id: Seq<u8>,
    user: UserView,
    none: OutcomeView,
)
    requires
        query_value(query, "user_id"@) == Some(text),
        object_id_of(text) == Some(user_id),
        !(none is User),
    ensures
        search_user_plan(query, seq![]) == perform(CommandView::FindUser { user_id }),
        search_user_plan(query, seq![OutcomeView::User(user)]) == answer_with(
            Status::Success,
            PayloadView::Profile {
                role: user.role,
                username: user.username,
                id: user.id,
                artist_id: user.artist_id,
            },
        ),
        search_user_plan(query, seq![none]) == answer(Status::BadRequest),
{
}

/// Changing one's account sets the given e-mail address, or, when the form
/// gives none, the given name, on the session's user; 200 when the user was
/// found, 400 otherwise or when the form gives neither.
pub proof fn lemma_account_update(
    header: Option<Seq<char>>,
    session_id: Seq<u8>,
    session: SessionView,
    email: Seq<char>,
    username: Seq<char>,
    name: Option<Seq<char>>,
    updated: UserView,
    none: OutcomeView,
    history: Seq<OutcomeView>,
)
    requires
        header_session_id(header) == Some(session_id),
        none is Missing || none is Failed,
        history.len() >= 1,
        history[0] == OutcomeView::Session(session),
    ensures
        update_user_plan(header, Some(email), name, seq![OutcomeView::Session(session)]) == perform(
            CommandView::SetUserEmail { user_id: session.user_id, email },
        ),
        update_user_plan(header, None, Some(username), seq![OutcomeView::Session(session)]) == perform(
            CommandView::SetUsername { user_id: session.user_id, username },
        ),
        update_user_plan(header, None, None, history) == answer(Status::BadRequest),
        update_user_plan(header, Some(email), name, seq![OutcomeView::Session(session), OutcomeView::User(updated)])
            == answer(Status::Success),
        update_user_plan(header, Some(email), name, seq![OutcomeView::Session(session), none]) == answer(
            Status::BadRequest,
        ),
{
}

} // verus!
