//! Comments on artists, albums and songs: listing, reading, writing,
//! deleting (by the author, or by an administrator) and editing.

use vstd::prelude::*;
use vstd::utf8::is_ascii_chars;
use crate::auth::{authenticate, gate, header_session_id, session_id_of_header, Gate, GateView};
use crate::ids::{object_id_of, ObjectId};
use crate::protocol::{
    answer, answer_with, found, perform, respond, respond_with, succeeded, is_found, is_success,
    Command, CommandView, Outcome, OutcomeView, Payload, PayloadView, Status, Step, StepView,
};
use crate::query::{query_value, QueryParams};
use crate::records::{copy_text, Comment, CommentView, SessionView};

verus! {

/// The role that may delete anyone's comments and replies.
pub open spec fn admin_role() -> Seq<char> {
    "admin"@
}

/// The comments of the run of comments that starts at `history[from]`.
pub open spec fn comment_run(history: Seq<OutcomeView>, from: int) -> Seq<CommentView>
    decreases history.len() - from,
{
    if from < 0 || from >= history.len() {
        seq![]
    } else {
        match history[from] {
            OutcomeView::Comment(c) => seq![c] + comment_run(history, from + 1),
            _ => seq![],
        }
    }
}

/// Answers `GET /comments?target_id=..`: opens a cursor over the comments on
/// the target (`history[0]`), reads it to its end or first error
/// (`history[1..]`), and answers with the comments read.
pub open spec fn get_comments_plan(query: Seq<char>, history: Seq<OutcomeView>) -> StepView {
    match query_value(query, "target_id"@) {
        None => answer(Status::BadRequest),
        Some(target_id) => if history.len() == 0 {
            perform(CommandView::FindCommentsOnTarget { target_id })
        } else if !succeeded(history[0]) {
            answer(Status::BadRequest)
        } else {
            let run = comment_run(history, 1);
            if 1 + run.len() == history.len() {
                perform(CommandView::NextDocument)
            } else {
                answer_with(Status::Success, PayloadView::Comments(run))
            }
        },
    }
}

/// Answers `GET /comments/{comment_id}` with the comment (`history[0]`).
pub open spec fn find_comment_by_id_plan(comment_text: Option<Seq<char>>, history: Seq<OutcomeView>) -> StepView {
    if comment_text is None || object_id_of(comment_text->0) is None {
        answer(Status::BadRequest)
    } else if history.len() == 0 {
        perform(CommandView::FindComment { comment_id: object_id_of(comment_text->0)->0 })
    } else {
        match history[0] {
            OutcomeView::Comment(c) => answer_with(Status::Success, PayloadView::Comment(c)),
            _ => answer(Status::BadRequest),
        }
    }
}

/// The comment stored for a posted one: as posted, without an identifier.
pub open spec fn comment_to_store(posted: CommentView) -> CommentView {
    CommentView { id: None, ..posted }
}

/// Answers `POST /comments`: with a session (`history[0]`), stores the
/// posted comment (`history[1]`).
pub open spec fn create_comment_plan(header: Option<Seq<char>>, posted: CommentView, history: Seq<OutcomeView>) -> StepView {
    match header_session_id(header) {
        None => answer(Status::Unauthorized),
        Some(session_id) => if history.len() == 0 {
            perform(CommandView::FindSession { session_id })
        } else if !found(history[0]) {
            answer(Status::Unauthorized)
        } else if history.len() == 1 {
            perform(CommandView::InsertComment { comment: comment_to_store(posted) })
        } else if succeeded(history[1]) {
            answer(Status::Success)
        } else {
            answer(Status::Unauthorized)
        },
    }
}

/// Answers `DELETE /comments?comment_id=..` for the logged-in user: deletes
/// the comment if the user wrote it (`history[1]`); otherwise, if the user
/// is an administrator (`history[2]`), deletes it whoever wrote it
/// (`history[3]`).
pub open spec fn delete_comment_plan(header: Option<Seq<char>>, query: Seq<char>, history: Seq<OutcomeView>) -> StepView {
    match gate(header, history) {
        GateView::Decided(step) => step,
        GateView::Passed(user) => match query_value(query, "comment_id"@) {
            None => answer(Status::Unauthorized),
            Some(text) => match object_id_of(text) {
                None => answer(Status::Unauthorized),
                Some(comment_id) => if history.len() == 1 {
                    perform(CommandView::DeleteComment { comment_id, author: Some(user) })
                } else if found(history[1]) {
                    answer(Status::Success)
                } else if history.len() == 2 {
                    perform(CommandView::FindUserWithRole { user_id: user, role: admin_role() })
                } else if !found(history[2]) {
                    answer(Status::Unauthorized)
                } else if history.len() == 3 {
                    perform(CommandView::DeleteComment { comment_id, author: None })
                } else if found(history[3]) {
                    answer(Status::Success)
                } else {
                    answer(Status::Unauthorized)
                },
            },
        },
    }
}

/// Answers `PUT /comments?comment_id=..` for the logged-in user: sets the
/// content of the comment if the user wrote it (`history[1]`).
pub open spec fn update_comment_plan(header: Option<Seq<char>>, query: Seq<char>, content: Seq<char>, history: Seq<OutcomeView>) -> StepView {
    match gate(header, history) {
        GateView::Decided(step) => step,
        GateView::Passed(user) => match query_value(query, "comment_id"@) {
            None => answer(Status::Unauthorized),
            Some(text) => match object_id_of(text) {
                None => answer(Status::Unauthorized),
                Some(comment_id) => if history.len() == 1 {
                    perform(CommandView::SetCommentContent { comment_id, author: user, content })
                } else if found(history[1]) {
                    answer(Status::Success)
                } else {
                    answer(Status::Unauthorized)
                },
            },
        },
    }
}

/// Reads the identifier that a query parameter names.
pub(crate) fn query_object_id(query: &str, name: &str) -> (res: Option<ObjectId>)
    requires
        is_ascii_chars(query@),
    ensures
        match query_value(query@, name@) {
            Some(text) => res.deep_view() == object_id_of(text),
            None => res is None,
        },
{
    let params = QueryParams::parse(query);
    match params.get(name) {
        Some(text) => ObjectId::parse(text.as_str()),
        None => None,
    }
}

pub fn get_comments(query: &str, history: &[Outcome]) -> (res: Step)
    requires
        is_ascii_chars(query@),
    ensures
        res@ == get_comments_plan(query@, history.deep_view()),
{
    let params = QueryParams::parse(query);
    let target_id = match params.get("target_id") {
        Some(t) => t,
        None => return respond(Status::BadRequest),
    };
    if history.len() == 0 {
        return Step::Perform(Command::FindCommentsOnTarget { target_id });
    }
    if !is_success(&history[0]) {
        return respond(Status::BadRequest);
    }
    let ghost h = history.deep_view();
    let mut comments: Vec<Comment> = Vec::new();
    let mut i: usize = 1;
    loop
        invariant
            1 <= i <= history.len(),
            h == history.deep_view(),
            comments.deep_view() + comment_run(h, i as int) == comment_run(h, 1),
            comments.len() == i - 1,
        ensures
            comments.deep_view() == comment_run(h, 1),
            1 <= i <= history.len(),
            comments.len() == i - 1,
            i == history.len() || !(history.deep_view()[i as int] is Comment),
        decreases history.len() - i,
    {
        if i == history.len() {
            assert(comments.deep_view() =~= comments.deep_view() + comment_run(h, i as int));
            break;
        }
        match &history[i] {
            Outcome::Comment(c) => {
                comments.push(c.copy());
                assert(comment_run(h, i as int) == seq![c@] + comment_run(h, i + 1));
                assert(comments.deep_view() + comment_run(h, i + 1) =~= comment_run(h, 1));
                i = i + 1;
            },
            _ => {
                assert(comments.deep_view() =~= comments.deep_view() + comment_run(h, i as int));
                break;
            },
        }
    }
    if i == history.len() {
        return Step::Perform(Command::NextDocument);
    }
    respond_with(Status::Success, Payload::Comments(comments))
}

pub fn find_comment_by_id(comment_id: Option<&str>, history: &[Outcome]) -> (res: Step)
    ensures
        res@ == find_comment_by_id_plan(comment_id.deep_view(), history.deep_view()),
{
    let id = match comment_id {
        Some(text) => ObjectId::parse(text),
        None => None,
    };
    let id = match id {
        Some(id) => id,
        None => return respond(Status::BadRequest),
    };
    if history.len() == 0 {
        return Step::Perform(Command::FindComment { comment_id: id });
    }
    match &history[0] {
        Outcome::Comment(c) => respond_with(Status::Success, Payload::Comment(c.copy())),
        _ => respond(Status::BadRequest),
    }
}

pub fn create_comment(authorization: Option<&str>, info: &Comment, history: &[Outcome]) -> (res: Step)
    ensures
        res@ == create_comment_plan(authorization.deep_view(), info@, history.deep_view()),
{
    let session_id = match session_id_of_header(authorization) {
        Some(id) => id,
        None => return respond(Status::Unauthorized),
    };
    if history.len() == 0 {
        return Step::Perform(Command::FindSession { session_id });
    }
    if !is_found(&history[0]) {
        return respond(Status::Unauthorized);
    }
    if history.len() == 1 {
        let comment = Comment {
            target_id: copy_text(&info.target_id),
            author: info.author,
            likes: info.likes,
            content: copy_text(&info.content),
            id: None,
        };
        return Step::Perform(Command::InsertComment { comment });
    }
    if is_success(&history[1]) {
        respond(Status::Success)
    } else {
        respond(Status::Unauthorized)
    }
}

pub fn delete_comment(authorization: Option<&str>, query: &str, history: &[Outcome]) -> (res: Step)
    requires
        is_ascii_chars(query@),
    ensures
        res@ == delete_comment_plan(authorization.deep_view(), query@, history.deep_view()),
{
    let user = match authenticate(authorization, history) {
        Gate::Decided(step) => return step,
        Gate::Passed(user) => user,
    };
    let comment_id = match query_object_id(query, "comment_id") {
        Some(id) => id,
        None => return respond(Status::Unauthorized),
    };
    if history.len() == 1 {
        return Step::Perform(Command::DeleteComment { comment_id, author: Some(user) });
    }
    if is_found(&history[1]) {
        return respond(Status::Success);
    }
    if history.len() == 2 {
        let role = "admin".to_owned();
        return Step::Perform(Command::FindUserWithRole { user_id: user, role });
    }
    if !is_found(&history[2]) {
        return respond(Status::Unauthorized);
    }
    if history.len() == 3 {
        return Step::Perform(Command::DeleteComment { comment_id, author: None });
    }
    if is_found(&history[3]) {
        respond(Status::Success)
    } else {
        respond(Status::Unauthorized)
    }
}

pub fn update_comment(authorization: Option<&str>, query: &str, info: &Comment, history: &[Outcome]) -> (res: Step)
    requires
        is_ascii_chars(query@),
    ensures
        res@ == update_comment_plan(authorization.deep_view(), query@, info.content@, history.deep_view()),
{
    let user = match authenticate(authorization, history) {
        Gate::Decided(step) => return step,
        Gate::Passed(user) => user,
    };
    let comment_id = match query_object_id(query, "comment_id") {
        Some(id) => id,
        None => return respond(Status::Unauthorized),
    };
    if history.len() == 1 {
        return Step::Perform(Command::SetCommentContent {
            comment_id,
            author: user,
            content: copy_text(&info.content),
        });
    }
    if is_found(&history[1]) {
        respond(Status::Success)
    } else {
        respond(Status::Unauthorized)
    }
}

/// A history that opens a cursor, yields these comments, and then has
/// `tail` (which starts with something other than a comment, or is empty).
pub open spec fn cursor_of_comments(comments: Seq<CommentView>, tail: Seq<OutcomeView>) -> Seq<OutcomeView> {
    seq![OutcomeView::Opened] + comments.map_values(|c: CommentView| OutcomeView::Comment(c)) + tail
}

proof fn lemma_comment_run_suffix(comments: Seq<CommentView>, tail: Seq<OutcomeView>, k: int)
    requires
        1 <= k <= comments.len() + 1,
        tail.len() == 0 || !(tail[0] is Comment),
    ensures
        comment_run(cursor_of_comments(comments, tail), k) == comments.subrange(k - 1, comments.len() as int),
    decreases comments.len() + 1 - k,
{
    let h = cursor_of_comments(comments, tail);
    if k <= comments.len() {
        lemma_comment_run_suffix(comments, tail, k + 1);
        assert(h[k] == OutcomeView::Comment(comments[k - 1]));
        assert(comments.subrange(k - 1, comments.len() as int) =~= seq![comments[k - 1]] + comments.subrange(
            k,
            comments.len() as int,
        ));
    } else {
        if tail.len() > 0 {
            assert(h[k] == tail[0]);
        }
        assert(comments.subrange(k - 1, comments.len() as int) =~= Seq::<CommentView>::empty());
    }
}

/// Listing the comments on a target: the cursor over the target's comments
/// is opened, read while it yields comments, and the answer is 200 with
/// exactly the comments it yielded, in order, once it ends or fails; a
/// failure to open, or a query without a target, is 400.
pub proof fn lemma_comments_listed_in_full(
    query: Seq<char>,
    target_id: Seq<char>,
    comments: Seq<CommentView>,
    end: OutcomeView,
    history: Seq<OutcomeView>,
)
    requires
        query_value(query, "target_id"@) == Some(target_id),
        !(end is Comment),
    ensures
        get_comments_plan(query, seq![]) == perform(CommandView::FindCommentsOnTarget { target_id }),
        get_comments_plan(query, seq![OutcomeView::Failed]) == answer(Status::BadRequest),
        get_comments_plan(query, cursor_of_comments(comments, seq![])) == perform(CommandView::NextDocument),
        get_comments_plan(query, cursor_of_comments(comments, seq![end])) == answer_with(
            Status::Success,
            PayloadView::Comments(comments),
        ),
{
    lemma_comment_run_suffix(comments, seq![], 1);
    lemma_comment_run_suffix(comments, seq![end], 1);
    assert(comments.subrange(0, comments.len() as int) =~= comments);
}

/// A query without a target is answered 400.
pub proof fn lemma_comments_need_a_target(query: Seq<char>, history: Seq<OutcomeView>)
    requires
        query_value(query, "target_id"@) is None,
    ensures
        get_comments_plan(query, history) == answer(Status::BadRequest),
{
}

/// Reading a comment by identifier answers 200 with the comment found, and
/// 400 when none is found or the identifier is malformed.
pub proof fn lemma_comment_by_identifier(
    text: Seq<char>,
    comment_id: Seq<u8>,
    comment: CommentView,
    none: OutcomeView,
    history: Seq<OutcomeView>,
)
    requires
        object_id_of(text) == Some(comment_id),
        !(none is Comment),
    ensures
        find_comment_by_id_plan(Some(text), seq![]) == perform(CommandView::FindComment { comment_id }),
        find_comment_by_id_plan(Some(text), seq![OutcomeView::Comment(comment)]) == answer_with(
            Status::Success,
            PayloadView::Comment(comment),
        ),
        find_comment_by_id_plan(Some(text), seq![none]) == answer(Status::BadRequest),
        find_comment_by_id_plan(None, history) == answer(Status::BadRequest),
{
}

/// Posting a comment: the session is looked up, and when found the posted
/// comment is stored as posted (target, author, likes, content) without an
/// identifier; a stored comment is answered 200, anything else 401.
pub proof fn lemma_comment_posting(
    header: Option<Seq<char>>,
    session_id: Seq<u8>,
    posted: CommentView,
    session: SessionView,
    stored: OutcomeView,
)
    requires
        header_session_id(header) == Some(session_id),
        !(stored is Failed),
    ensures
        create_comment_plan(header, posted, seq![]) == perform(CommandView::FindSession { session_id }),
        create_comment_plan(header, posted, seq![OutcomeView::Session(session)]) == perform(
            CommandView::InsertComment {
                comment: CommentView {
                    id: None,
                    content: posted.content,
                    author: posted.author,
                    target_id: posted.target_id,
                    likes: posted.likes,
                },
            },
        ),
        create_comment_plan(header, posted, seq![OutcomeView::Session(session), stored]) == answer(
            Status::Success,
        ),
        create_comment_plan(header, posted, seq![OutcomeView::Session(session), OutcomeView::Failed])
            == answer(Status::Unauthorized),
        create_comment_plan(header, posted, seq![OutcomeView::Missing]) == answer(Status::Unauthorized),
{
}

/// Deleting a comment: the session's user's own comment is deleted and 200
/// answered; when it is not theirs, the user is checked for the
/// administrator role, and an administrator deletes the comment whoever
/// wrote it (200 when it was there); anyone else is answered 401.
pub proof fn lemma_comment_deletion(
    header: Option<Seq<char>>,
    query: Seq<char>,
    session_id: Seq<u8>,
    text: Seq<char>,
    comment_id: Seq<u8>,
    session: SessionView,
    own: CommentView,
    none: OutcomeView,
    admin: OutcomeView,
    deleted: CommentView,
    not_deleted: OutcomeView,
)
    requires
        header_session_id(header) == Some(session_id),
        query_value(query, "comment_id"@) == Some(text),
        object_id_of(text) == Some(comment_id),
        none is Missing || none is Failed,
        admin is User,
        not_deleted is Missing || not_deleted is Failed,
    ensures
        delete_comment_plan(header, query, seq![OutcomeView::Session(session)]) == perform(
            CommandView::DeleteComment { comment_id, author: Some(session.user_id) },
        ),
        delete_comment_plan(header, query, seq![OutcomeView::Session(session), OutcomeView::Comment(own)])
            == answer(Status::Success),
        delete_comment_plan(header, query, seq![OutcomeView::Session(session), none]) == perform(
            CommandView::FindUserWithRole { user_id: session.user_id, role: "admin"@ },
        ),
        delete_comment_plan(header, query, seq![OutcomeView::Session(session), none, none]) == answer(
            Status::Unauthorized,
        ),
        delete_comment_plan(header, query, seq![OutcomeView::Session(session), none, admin]) == perform(
            CommandView::DeleteComment { comment_id, author: None },
        ),
        delete_comment_plan(
            header,
            query,
            seq![OutcomeView::Session(session), none, admin, OutcomeView::Comment(deleted)],
        ) == answer(Status::Success),
        delete_comment_plan(header, query, seq![OutcomeView::Session(session), none, admin, not_deleted])
            == answer(Status::Unauthorized),
{
}

/// Editing a comment sets the new content on the comment of that
/// identifier written by the session's user; 200 if there was one, 401
/// otherwise.
pub proof fn lemma_comment_editing(
    header: Option<Seq<char>>,
    query: Seq<char>,
    content: Seq<char>,
    session_id: Seq<u8>,
    text: Seq<char>,
    comment_id: Seq<u8>,
    session: SessionView,
    edited: CommentView,
    none: OutcomeView,
)
    requires
        header_session_id(header) == Some(session_id),
        query_value(query, "comment_id"@) == Some(text),
        object_id_of(text) == Some(comment_id),
        none is Missing || none is Failed,
    ensures
        update_comment_plan(header, query, content, seq![OutcomeView::Session(session)]) == perform(
            CommandView::SetCommentContent { comment_id, author: session.user_id, content },
        ),
        update_comment_plan(
            header,
            query,
            content,
            seq![OutcomeView::Session(session), OutcomeView::Comment(edited)],
        ) == answer(Status::Success),
        update_comment_plan(header, query, content, seq![OutcomeView::Session(session), none]) == answer(
            Status::Unauthorized,
        ),
{
}

} // verus!
