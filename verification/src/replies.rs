//! Replies to comments: listing, writing, deleting (by the author, or by an
//! administrator) and editing.

use vstd::prelude::*;
use vstd::utf8::is_ascii_chars;
use crate::auth::{authenticate, gate, Gate, GateView};
use crate::comments::{admin_role, query_object_id};
use crate::ids::object_id_of;
use crate::protocol::{
    answer, answer_with, found, perform, respond, respond_with, succeeded, is_found, is_success,
    Command, CommandView, Outcome, OutcomeView, Payload, PayloadView, Status, Step, StepView,
};
use crate::query::query_value;
use crate::auth::header_session_id;
use crate::records::{copy_text, Reply, ReplyView, SessionView};

verus! {

/// The replies of the run of replies that starts at `history[from]`.
pub open spec fn reply_run(history: Seq<OutcomeView>, from: int) -> Seq<ReplyView>
    decreases history.len() - from,
{
    if from < 0 || from >= history.len() {
        seq![]
    } else {
        match history[from] {
            OutcomeView::Reply(r) => seq![r] + reply_run(history, from + 1),
            _ => seq![],
        }
    }
}

/// Answers `GET /replies?comment_id=..`: opens a cursor over the replies to
/// the comment (`history[0]`), reads it to its end or first error
/// (`history[1..]`), and answers with the replies read.
pub open spec fn get_replies_plan(query: Seq<char>, history: Seq<OutcomeView>) -> StepView {
    match query_value(query, "comment_id"@) {
        None => answer(Status::BadRequest),
        Some(text) => match object_id_of(text) {
            None => answer(Status::BadRequest),
            Some(comment_id) => if history.len() == 0 {
                perform(CommandView::FindRepliesTo { comment_id })
            } else if !succeeded(history[0]) {
                answer(Status::BadRequest)
            } else {
                let run = reply_run(history, 1);
                if 1 + run.len() == history.len() {
                    perform(CommandView::NextDocument)
                } else {
                    answer_with(Status::Success, PayloadView::Replies(run))
                }
            },
        },
    }
}

/// The reply stored for a posted one: its comment and content, written by
/// the session's user, with no likes yet.
pub open spec fn reply_to_store(posted: ReplyView, author: Seq<u8>) -> ReplyView {
    ReplyView { comment_id: posted.comment_id, id: None, content: posted.content, author, likes: 0 }
}

/// Answers `POST /replies` for the logged-in user: stores the posted reply
/// as written by that user (`history[1]`).
pub open spec fn create_reply_plan(header: Option<Seq<char>>, posted: ReplyView, history: Seq<OutcomeView>) -> StepView {
    match gate(header, history) {
        GateView::Decided(step) => step,
        GateView::Passed(user) => if history.len() == 1 {
            perform(CommandView::InsertReply { reply: reply_to_store(posted, user) })
        } else if succeeded(history[1]) {
            answer(Status::Success)
        } else {
            answer(Status::Unauthorized)
        },
    }
}

/// Answers `DELETE /replies?reply_id=..` for the logged-in user: deletes the
/// reply if the user wrote it (`history[1]`); otherwise, if the user is an
/// administrator (`history[2]`), deletes it whoever wrote it (`history[3]`).
pub open spec fn delete_reply_plan(header: Option<Seq<char>>, query: Seq<char>, history: Seq<OutcomeView>) -> StepView {
    match gate(header, history) {
        GateView::Decided(step) => step,
        GateView::Passed(user) => match query_value(query, "reply_id"@) {
            None => answer(Status::Unauthorized),
            Some(text) => match object_id_of(text) {
                None => answer(Status::Unauthorized),
                Some(reply_id) => if history.len() == 1 {
                    perform(CommandView::DeleteReply { reply_id, author: Some(user) })
                } else if found(history[1]) {
                    answer(Status::Success)
                } else if history.len() == 2 {
                    perform(CommandView::FindUserWithRole { user_id: user, role: admin_role() })
                } else if !found(history[2]) {
                    answer(Status::Unauthorized)
                } else if history.len() == 3 {
                    perform(CommandView::DeleteReply { reply_id, author: None })
                } else if found(history[3]) {
                    answer(Status::Success)
                } else {
                    answer(Status::Unauthorized)
                },
            },
        },
    }
}

/// Answers `PUT /replies?reply_id=..` for the logged-in user: sets the
/// content of the reply if the user wrote it (`history[1]`).
pub open spec fn update_reply_plan(header: Option<Seq<char>>, query: Seq<char>, content: Seq<char>, history: Seq<OutcomeView>) -> StepView {
    match gate(header, history) {
        GateView::Decided(step) => step,
        GateView::Passed(user) => match query_value(query, "reply_id"@) {
            None => answer(Status::Unauthorized),
            Some(text) => match object_id_of(text) {
                None => answer(Status::Unauthorized),
                Some(reply_id) => if history.len() == 1 {
                    perform(CommandView::SetReplyContent { reply_id, author: user, content })
                } else if found(history[1]) {
                    answer(Status::Success)
                } else {
                    answer(Status::Unauthorized)
                },
            },
        },
    }
}

pub fn get_replies(query: &str, history: &[Outcome]) -> (res: Step)
    requires
        is_ascii_chars(query@),
    ensures
        res@ == get_replies_plan(query@, history.deep_view()),
{
    let comment_id = match query_object_id(query, "comment_id") {
        Some(id) => id,
        None => return respond(Status::BadRequest),
    };
    if history.len() == 0 {
        return Step::Perform(Command::FindRepliesTo { comment_id });
    }
    if !is_success(&history[0]) {
        return respond(Status::BadRequest);
    }
    let ghost h = history.deep_view();
    let mut replies: Vec<Reply> = Vec::new();
    let mut i: usize = 1;
    loop
        invariant
            1 <= i <= history.len(),
            h == history.deep_view(),
            replies.deep_view() + reply_run(h, i as int) == reply_run(h, 1),
            replies.len() == i - 1,
        ensures
            replies.deep_view() == reply_run(h, 1),
            1 <= i <= history.len(),
            replies.len() == i - 1,
            i == history.len() || !(history.deep_view()[i as int] is Reply),
        decreases history.len() - i,
    {
        if i == history.len() {
            assert(replies.deep_view() =~= replies.deep_view() + reply_run(h, i as int));
            break;
        }
        match &history[i] {
            Outcome::Reply(r) => {
                replies.push(r.copy());
                assert(reply_run(h, i as int) == seq![r@] + reply_run(h, i + 1));
                assert(replies.deep_view() + reply_run(h, i + 1) =~= reply_run(h, 1));
                i = i + 1;
            },
            _ => {
                assert(replies.deep_view() =~= replies.deep_view() + reply_run(h, i as int));
                break;
            },
        }
    }
    if i == history.len() {
        return Step::Perform(Command::NextDocument);
    }
    respond_with(Status::Success, Payload::Replies(replies))
}

pub fn create_reply(authorization: Option<&str>, info: &Reply, history: &[Outcome]) -> (res: Step)
    ensures
        res@ == create_reply_plan(authorization.deep_view(), info@, history.deep_view()),
{
    let user = match authenticate(authorization, history) {
        Gate::Decided(step) => return step,
        Gate::Passed(user) => user,
    };
    if history.len() == 1 {
        let reply = Reply {
            comment_id: info.comment_id,
            id: None,
            content: copy_text(&info.content),
            author: user,
            likes: 0,
        };
        return Step::Perform(Command::InsertReply { reply });
    }
    if is_success(&history[1]) {
        respond(Status::Success)
    } else {
        respond(Status::Unauthorized)
    }
}

pub fn delete_reply(authorization: Option<&str>, query: &str, history: &[Outcome]) -> (res: Step)
    requires
        is_ascii_chars(query@),
    ensures
        res@ == delete_reply_plan(authorization.deep_view(), query@, history.deep_view()),
{
    let user = match authenticate(authorization, history) {
        Gate::Decided(step) => return step,
        Gate::Passed(user) => user,
    };
    let reply_id = match query_object_id(query, "reply_id") {
        Some(id) => id,
        None => return respond(Status::Unauthorized),
    };
    if history.len() == 1 {
        return Step::Perform(Command::DeleteReply { reply_id, author: Some(user) });
    }
    if is_found(&history[1]) {
        return respond(Status::Success);
    }
    if history.len() == 2 {
        let role = "admin".to_owned();
        return Step::Perform(Command::FindUserWithRole { user_id: user, role });
    }
    if !is_found(&history[2]) {
        return respond(Status::Unauthorized);
    }
    if history.len() == 3 {
        return Step::Perform(Command::DeleteReply { reply_id, author: None });
    }
    if is_found(&history[3]) {
        respond(Status::Success)
    } else {
        respond(Status::Unauthorized)
    }
}

pub fn update_reply(authorization: Option<&str>, query: &str, info: &Reply, history: &[Outcome]) -> (res: Step)
    requires
        is_ascii_chars(query@),
    ensures
        res@ == update_reply_plan(authorization.deep_view(), query@, info.content@, history.deep_view()),
{
    let user = match authenticate(authorization, history) {
        Gate::Decided(step) => return step,
        Gate::Passed(user) => user,
    };
    let reply_id = match query_object_id(query, "reply_id") {
        Some(id) => id,
        None => return respond(Status::Unauthorized),
    };
    if history.len() == 1 {
        return Step::Perform(Command::SetReplyContent {
            reply_id,
            author: user,
            content: copy_text(&info.content),
        });
    }
    if is_found(&history[1]) {
        respond(Status::Success)
    } else {
        respond(Status::Unauthorized)
    }
}

/// A history that opens a cursor, yields these replies, and then has
/// `tail` (which starts with something other than a reply, or is empty).
pub open spec fn cursor_of_replies(replies: Seq<ReplyView>, tail: Seq<OutcomeView>) -> Seq<OutcomeView> {
    seq![OutcomeView::Opened] + replies.map_values(|r: ReplyView| OutcomeView::Reply(r)) + tail
}

proof fn lemma_reply_run_suffix(replies: Seq<ReplyView>, tail: Seq<OutcomeView>, k: int)
    requires
        1 <= k <= replies.len() + 1,
        tail.len() == 0 || !(tail[0] is Reply),
    ensures
        reply_run(cursor_of_replies(replies, tail), k) == replies.subrange(k - 1, replies.len() as int),
    decreases replies.len() + 1 - k,
{
    let h = cursor_of_replies(replies, tail);
    if k <= replies.len() {
        lemma_reply_run_suffix(replies, tail, k + 1);
        assert(h[k] == OutcomeView::Reply(replies[k - 1]));
        assert(replies.subrange(k - 1, replies.len() as int) =~= seq![replies[k - 1]] + replies.subrange(
            k,
            replies.len() as int,
        ));
    } else {
        if tail.len() > 0 {
            assert(h[k] == tail[0]);
        }
        assert(replies.subrange(k - 1, replies.len() as int) =~= Seq::<ReplyView>::empty());
    }
}

/// Listing the replies to a comment: the cursor is opened, read while it
/// yields replies, and the answer is 200 with exactly the replies it
/// yielded, in order, once it ends or fails; a failure to open is 400.
pub proof fn lemma_replies_listed_in_full(
    query: Seq<char>,
    text: Seq<char>,
    comment_id: Seq<u8>,
    replies: Seq<ReplyView>,
    end: OutcomeView,
)
    requires
        query_value(query, "comment_id"@) == Some(text),
        object_id_of(text) == Some(comment_id),
        !(end is Reply),
    ensures
        get_replies_plan(query, seq![]) == perform(CommandView::FindRepliesTo { comment_id }),
        get_replies_plan(query, seq![OutcomeView::Failed]) == answer(Status::BadRequest),
        get_replies_plan(query, cursor_of_replies(replies, seq![])) == perform(CommandView::NextDocument),
        get_replies_plan(query, cursor_of_replies(replies, seq![end])) == answer_with(
            Status::Success,
            PayloadView::Replies(replies),
        ),
{
    lemma_reply_run_suffix(replies, seq![], 1);
    lemma_reply_run_suffix(replies, seq![end], 1);
    assert(replies.subrange(0, replies.len() as int) =~= replies);
}

/// Posting a reply: the session is looked up, the reply is stored under
/// the posted comment and content, written by the session's user, with no
/// likes and no identifier, and a stored reply is answered 200, a failed
/// store 401.
pub proof fn lemma_reply_posting(
    header: Option<Seq<char>>,
    session_id: Seq<u8>,
    posted: ReplyView,
    session: SessionView,
    stored: OutcomeView,
)
    requires
        header_session_id(header) == Some(session_id),
        !(stored is Failed),
    ensures
        create_reply_plan(header, posted, seq![]) == perform(CommandView::FindSession { session_id }),
        create_reply_plan(header, posted, seq![OutcomeView::Session(session)]) == perform(
            CommandView::InsertReply {
                reply: ReplyView {
                    id: None,
                    content: posted.content,
                    author: session.user_id,
                    likes: 0,
                    comment_id: posted.comment_id,
                },
            },
        ),
        create_reply_plan(header, posted, seq![OutcomeView::Session(session), stored]) == answer(
            Status::Success,
        ),
        create_reply_plan(header, posted, seq![OutcomeView::Session(session), OutcomeView::Failed])
            == answer(Status::Unauthorized),
{
}

/// Deleting a reply: the session's user's own reply is deleted and 200
/// answered; when it is not theirs, the user is checked for the
/// administrator role, and an administrator deletes the reply whoever wrote
/// it (200 when it was there); anyone else is answered 401.
pub proof fn lemma_reply_deletion(
    header: Option<Seq<char>>,
    query: Seq<char>,
    session_id: Seq<u8>,
    text: Seq<char>,
    reply_id: Seq<u8>,
    session: SessionView,
    own: ReplyView,
    none: OutcomeView,
    admin: OutcomeView,
    deleted: ReplyView,
    not_deleted: OutcomeView,
)
    requires
        header_session_id(header) == Some(session_id),
        query_value(query, "reply_id"@) == Some(text),
        object_id_of(text) == Some(reply_id),
        none is Missing || none is Failed,
        admin is User,
        not_deleted is Missing || not_deleted is Failed,
    ensures
        delete_reply_plan(header, query, seq![OutcomeView::Session(session)]) == perform(
            CommandView::DeleteReply { reply_id, author: Some(session.user_id) },
        ),
        delete_reply_plan(header, query, seq![OutcomeView::Session(session), OutcomeView::Reply(own)])
            == answer(Status::Success),
        delete_reply_plan(header, query, seq![OutcomeView::Session(session), none]) == perform(
            CommandView::FindUserWithRole { user_id: session.user_id, role: "admin"@ },
        ),
        delete_reply_plan(header, query, seq![OutcomeView::Session(session), none, none]) == answer(
            Status::Unauthorized,
        ),
        delete_reply_plan(header, query, seq![OutcomeView::Session(session), none, admin]) == perform(
            CommandView::DeleteReply { reply_id, author: None },
        ),
        delete_reply_plan(
            header,
            query,
            seq![OutcomeView::Session(session), none, admin, OutcomeView::Reply(deleted)],
        ) == answer(Status::Success),
        delete_reply_plan(header, query, seq![OutcomeView::Session(session), none, admin, not_deleted])
            == answer(Status::Unauthorized),
{
}

/// Editing a reply sets the new content on the reply of that identifier
/// written by the session's user; 200 if there was one, 401 otherwise.
pub proof fn lemma_reply_editing(
    header: Option<Seq<char>>,
    query: Seq<char>,
    content: Seq<char>,
    session_id: Seq<u8>,
    text: Seq<char>,
    reply_id: Seq<u8>,
    session: SessionView,
    edited: ReplyView,
    none: OutcomeView,
)
    requires
        header_session_id(header) == Some(session_id),
        query_value(query, "reply_id"@) == Some(text),
        object_id_of(text) == Some(reply_id),
        none is Missing || none is Failed,
    ensures
        update_reply_plan(header, query, content, seq![OutcomeView::Session(session)]) == perform(
            CommandView::SetReplyContent { reply_id, author: session.user_id, content },
        ),
        update_reply_plan(header, query, content, seq![OutcomeView::Session(session), OutcomeView::Reply(edited)])
            == answer(Status::Success),
        update_reply_plan(header, query, content, seq![OutcomeView::Session(session), none]) == answer(
            Status::Unauthorized,
        ),
{
}

} // verus!
