//! Likes of comments and replies: whether a user likes a target, liking and
//! unliking, and keeping the target's like count in step.

use vstd::prelude::*;
use vstd::utf8::is_ascii_chars;
use crate::auth::{authenticate, gate, Gate, GateView};
use crate::counters::{MAX_LIKES, count_after_like, count_after_unlike, increased_likes, reduced_likes, stored_likes};
use crate::ids::{object_id_of, ObjectId};
use crate::protocol::{
    answer, answer_with, found, perform, respond, respond_with, succeeded, is_found, is_success,
    Command, CommandView, Outcome, OutcomeView, Payload, PayloadView, Status, Step, StepView,
};
use crate::query::{query_value, QueryParams};
use crate::auth::header_session_id;
use crate::records::{CommentView, Like, LikeView, ReplyView, SessionView};
use crate::text::text_equals;

verus! {

/// No comment or reply in the history has a like count of `u64::MAX` (the
/// store holds counts as signed 64-bit numbers, so none has).
pub open spec fn counts_below_max(history: Seq<OutcomeView>) -> bool {
    forall|i: int|
        0 <= i < history.len() ==> match #[trigger] history[i] {
            OutcomeView::Comment(c) => c.likes < u64::MAX,
            OutcomeView::Reply(r) => r.likes < u64::MAX,
            _ => true,
        }
}

/// Keeping a comment's count in step with a new like: find the comment
/// (answered at `history[from]`), then write its count plus one. `None`
/// once there is nothing more to do.
pub open spec fn increase_comment_likes_plan(target_id: Seq<u8>, history: Seq<OutcomeView>, from: int) -> Option<CommandView> {
    if history.len() <= from {
        Some(CommandView::FindComment { comment_id: target_id })
    } else {
        match history[from] {
            OutcomeView::Comment(c) => if history.len() == from + 1 {
                Some(CommandView::SetCommentLikes { comment_id: c.id, likes: count_after_like(c.likes) as i64 })
            } else {
                None
            },
            _ => None,
        }
    }
}

/// As `increase_comment_likes_plan`, for a reply.
pub open spec fn increase_reply_likes_plan(target_id: Seq<u8>, history: Seq<OutcomeView>, from: int) -> Option<CommandView> {
    if history.len() <= from {
        Some(CommandView::FindReply { reply_id: target_id })
    } else {
        match history[from] {
            OutcomeView::Reply(r) => if history.len() == from + 1 {
                Some(CommandView::SetReplyLikes { reply_id: r.id, likes: count_after_like(r.likes) as i64 })
            } else {
                None
            },
            _ => None,
        }
    }
}

/// Keeping a comment's count in step with a removed like.
pub open spec fn reduce_comment_likes_plan(target_id: Seq<u8>, history: Seq<OutcomeView>, from: int) -> Option<CommandView> {
    if history.len() <= from {
        Some(CommandView::FindComment { comment_id: target_id })
    } else {
        match history[from] {
            OutcomeView::Comment(c) => if history.len() == from + 1 {
                Some(CommandView::SetCommentLikes { comment_id: c.id, likes: count_after_unlike(c.likes) as i64 })
            } else {
                None
            },
            _ => None,
        }
    }
}

/// Keeping a reply's count in step with a removed like.
pub open spec fn reduce_reply_likes_plan(target_id: Seq<u8>, history: Seq<OutcomeView>, from: int) -> Option<CommandView> {
    if history.len() <= from {
        Some(CommandView::FindReply { reply_id: target_id })
    } else {
        match history[from] {
            OutcomeView::Reply(r) => if history.len() == from + 1 {
                Some(CommandView::SetReplyLikes { reply_id: r.id, likes: count_after_unlike(r.likes) as i64 })
            } else {
                None
            },
            _ => None,
        }
    }
}

pub fn increase_likes_comment(target_id: ObjectId, history: &[Outcome], from: usize) -> (res: Option<Command>)
    requires
        counts_below_max(history.deep_view()),
    ensures
        res.deep_view() == increase_comment_likes_plan(target_id@, history.deep_view(), from as int),
{
    if history.len() <= from {
        return Some(Command::FindComment { comment_id: target_id });
    }
    match &history[from] {
        Outcome::Comment(c) => {
            if history.len() == from + 1 {
                assert(history.deep_view()[from as int] == history[from as int]@);
                Some(Command::SetCommentLikes { comment_id: c.id, likes: stored_likes(increased_likes(c.likes)) })
            } else {
                None
            }
        },
        _ => None,
    }
}

pub fn increase_likes_reply(target_id: ObjectId, history: &[Outcome], from: usize) -> (res: Option<Command>)
    requires
        counts_below_max(history.deep_view()),
    ensures
        res.deep_view() == increase_reply_likes_plan(target_id@, history.deep_view(), from as int),
{
    if history.len() <= from {
        return Some(Command::FindReply { reply_id: target_id });
    }
    match &history[from] {
        Outcome::Reply(r) => {
            if history.len() == from + 1 {
                assert(history.deep_view()[from as int] == history[from as int]@);
                Some(Command::SetReplyLikes { reply_id: r.id, likes: stored_likes(increased_likes(r.likes)) })
            } else {
                None
            }
        },
        _ => None,
    }
}

pub fn reduce_likes_comment(target_id: ObjectId, history: &[Outcome], from: usize) -> (res: Option<Command>)
    ensures
        res.deep_view() == reduce_comment_likes_plan(target_id@, history.deep_view(), from as int),
{
    if history.len() <= from {
        return Some(Command::FindComment { comment_id: target_id });
    }
    match &history[from] {
        Outcome::Comment(c) => {
            if history.len() == from + 1 {
                Some(Command::SetCommentLikes { comment_id: c.id, likes: stored_likes(reduced_likes(c.likes)) })
            } else {
                None
            }
        },
        _ => None,
    }
}

pub fn reduce_likes_reply(target_id: ObjectId, history: &[Outcome], from: usize) -> (res: Option<Command>)
    ensures
        res.deep_view() == reduce_reply_likes_plan(target_id@, history.deep_view(), from as int),
{
    if history.len() <= from {
        return Some(Command::FindReply { reply_id: target_id });
    }
    match &history[from] {
        Outcome::Reply(r) => {
            if history.len() == from + 1 {
                Some(Command::SetReplyLikes { reply_id: r.id, likes: stored_likes(reduced_likes(r.likes)) })
            } else {
                None
            }
        },
        _ => None,
    }
}

/// The parameters `target_id` (an identifier) and `target` of a like
/// request, when both are present and the identifier is well formed.
pub open spec fn like_request(query: Seq<char>) -> Option<(Seq<u8>, Seq<char>)> {
    let id_text = query_value(query, "target_id"@);
    let target = query_value(query, "target"@);
    if id_text is Some && target is Some && object_id_of(id_text->0) is Some {
        Some((object_id_of(id_text->0)->0, target->0))
    } else {
        None
    }
}

/// Targets whose likes are recorded: comments and replies.
pub open spec fn likeable(target: Seq<char>) -> bool {
    target == "comment"@ || target == "reply"@
}

/// Targets whose likes may be removed.
pub open spec fn unlikeable(target: Seq<char>) -> bool {
    target == "comment"@ || target == "reply"@ || target == "artist"@ || target == "album"@
}

/// Answers `GET /likes?user_id=..&target_id=..`: whether the user likes the
/// target. The lookup is answered by `history[0]`.
pub open spec fn is_like_plan(query: Seq<char>, history: Seq<OutcomeView>) -> StepView {
    let user_text = query_value(query, "user_id"@);
    let target_text = query_value(query, "target_id"@);
    if user_text is Some && target_text is Some && object_id_of(user_text->0) is Some
        && object_id_of(target_text->0) is Some {
        if history.len() == 0 {
            perform(CommandView::FindLike {
                user_id: object_id_of(user_text->0)->0,
                target_id: object_id_of(target_text->0)->0,
            })
        } else {
            answer_with(Status::Success, PayloadView::LikeState(found(history[0])))
        }
    } else {
        answer(Status::BadRequest)
    }
}

/// Answers `POST /likes?target_id=..&target=..` for the logged-in user:
/// records the like (`history[1]`) and then adds one to the comment's or
/// reply's count (`history[2..]`).
pub open spec fn create_like_plan(header: Option<Seq<char>>, query: Seq<char>, history: Seq<OutcomeView>) -> StepView {
    match gate(header, history) {
        GateView::Decided(step) => step,
        GateView::Passed(user) => match like_request(query) {
            None => answer(Status::Unauthorized),
            Some((target_id, target)) => if !likeable(target) {
                answer(Status::BadRequest)
            } else if history.len() == 1 {
                perform(CommandView::InsertLike {
                    like: LikeView { id: None, user_id: user, target_id, target },
                })
            } else if !succeeded(history[1]) {
                answer(Status::BadRequest)
            } else {
                let follow = if target == "comment"@ {
                    increase_comment_likes_plan(target_id, history, 2)
                } else {
                    increase_reply_likes_plan(target_id, history, 2)
                };
                match follow {
                    Some(c) => perform(c),
                    None => answer(Status::Success),
                }
            },
        },
    }
}

/// Answers `DELETE /likes?target_id=..&target=..` for the logged-in user:
/// removes the like (`history[1]`) and then takes one from the comment's or
/// reply's count (`history[2..]`).
pub open spec fn delete_like_plan(header: Option<Seq<char>>, query: Seq<char>, history: Seq<OutcomeView>) -> StepView {
    match gate(header, history) {
        GateView::Decided(step) => step,
        GateView::Passed(user) => match like_request(query) {
            None => answer(Status::Unauthorized),
            Some((target_id, target)) => if !unlikeable(target) {
                answer(Status::BadRequest)
            } else if history.len() == 1 {
                perform(CommandView::DeleteLike { user_id: user, target_id })
            } else {
                match history[1] {
                    OutcomeView::Like(removed) => {
                        let follow = if target == "comment"@ {
                            reduce_comment_likes_plan(removed.target_id, history, 2)
                        } else if target == "reply"@ {
                            reduce_reply_likes_plan(removed.target_id, history, 2)
                        } else {
                            None
                        };
                        match follow {
                            Some(c) => perform(c),
                            None => answer(Status::Success),
                        }
                    },
                    _ => answer(Status::BadRequest),
                }
            },
        },
    }
}

fn like_request_of(query: &str) -> (res: Option<(ObjectId, String)>)
    requires
        is_ascii_chars(query@),
    ensures
        match res {
            Some((id, target)) => like_request(query@) == Some((id@, target@)),
            None => like_request(query@) is None,
        },
{
    let params = QueryParams::parse(query);
    let id_text = params.get("target_id");
    let target = params.get("target");
    match (id_text, target) {
        (Some(id_text), Some(target)) => match ObjectId::parse(id_text.as_str()) {
            Some(id) => Some((id, target)),
            None => None,
        },
        _ => None,
    }
}

pub fn is_like(query: &str, history: &[Outcome]) -> (res: Step)
    requires
        is_ascii_chars(query@),
    ensures
        res@ == is_like_plan(query@, history.deep_view()),
{
    let params = QueryParams::parse(query);
    let user_text = params.get("user_id");
    let target_text = params.get("target_id");
    if let (Some(user_text), Some(target_text)) = (user_text, target_text) {
        if let (Some(user_id), Some(target_id)) = (ObjectId::parse(user_text.as_str()), ObjectId::parse(target_text.as_str())) {
            if history.len() == 0 {
                return Step::Perform(Command::FindLike { user_id, target_id });
            }
            return respond_with(Status::Success, Payload::LikeState(is_found(&history[0])));
        }
    }
    respond(Status::BadRequest)
}

pub fn create_like(authorization: Option<&str>, query: &str, history: &[Outcome]) -> (res: Step)
    requires
        is_ascii_chars(query@),
        counts_below_max(history.deep_view()),
    ensures
        res@ == create_like_plan(authorization.deep_view(), query@, history.deep_view()),
{
    let user = match authenticate(authorization, history) {
        Gate::Decided(step) => return step,
        Gate::Passed(user) => user,
    };
    let (target_id, target) = match like_request_of(query) {
        Some(request) => request,
        None => return respond(Status::Unauthorized),
    };
    let is_comment = text_equals(target.as_str(), "comment");
    let is_reply = text_equals(target.as_str(), "reply");
    if !(is_comment || is_reply) {
        return respond(Status::BadRequest);
    }
    if history.len() == 1 {
        return Step::Perform(Command::InsertLike {
            like: Like { id: None, user_id: user, target_id, target },
        });
    }
    if !is_success(&history[1]) {
        return respond(Status::BadRequest);
    }
    let follow = if is_comment {
        increase_likes_comment(target_id, history, 2)
    } else {
        increase_likes_reply(target_id, history, 2)
    };
    match follow {
        Some(c) => Step::Perform(c),
        None => respond(Status::Success),
    }
}

pub fn delete_like(authorization: Option<&str>, query: &str, history: &[Outcome]) -> (res: Step)
    requires
        is_ascii_chars(query@),
    ensures
        res@ == delete_like_plan(authorization.deep_view(), query@, history.deep_view()),
{
    let user = match authenticate(authorization, history) {
        Gate::Decided(step) => return step,
        Gate::Passed(user) => user,
    };
    let (target_id, target) = match like_request_of(query) {
        Some(request) => request,
        None => return respond(Status::Unauthorized),
    };
    let is_comment = text_equals(target.as_str(), "comment");
    let is_reply = text_equals(target.as_str(), "reply");
    let is_artist = text_equals(target.as_str(), "artist");
    let is_album = text_equals(target.as_str(), "album");
    if !(is_comment || is_reply || is_artist || is_album) {
        return respond(Status::BadRequest);
    }
    if history.len() == 1 {
        return Step::Perform(Command::DeleteLike { user_id: user, target_id });
    }
    match &history[1] {
        Outcome::Like(removed) => {
            let follow = if is_comment {
                reduce_likes_comment(removed.target_id, history, 2)
            } else if is_reply {
                reduce_likes_reply(removed.target_id, history, 2)
            } else {
                None
            };
            match follow {
                Some(c) => Step::Perform(c),
                None => respond(Status::Success),
            }
        },
        _ => respond(Status::BadRequest),
    }
}

/// Liking a comment and then taking the like back leaves the comment's
/// count as it was: the count that a like writes, read back by the unlike,
/// is written back one lower.
pub proof fn lemma_like_then_unlike_restores_count(
    like_header: Option<Seq<char>>,
    like_query: Seq<char>,
    like_history: Seq<OutcomeView>,
    liked: CommentView,
    written: i64,
    unlike_header: Option<Seq<char>>,
    unlike_query: Seq<char>,
    unlike_history: Seq<OutcomeView>,
    read_back: CommentView,
    rewritten: i64,
)
    requires
        like_history.len() == 3,
        like_history[2] == OutcomeView::Comment(liked),
        liked.likes < MAX_LIKES,
        create_like_plan(like_header, like_query, like_history) == perform(
            CommandView::SetCommentLikes { comment_id: liked.id, likes: written },
        ),
        unlike_history.len() == 3,
        unlike_history[2] == OutcomeView::Comment(read_back),
        read_back.likes == written,
        delete_like_plan(unlike_header, unlike_query, unlike_history) == perform(
            CommandView::SetCommentLikes { comment_id: read_back.id, likes: rewritten },
        ),
    ensures
        written == liked.likes + 1,
        rewritten == liked.likes,
{
}

/// A like request whose header names a session, and whose query names a
/// well-formed target identifier and a target kind.
pub open spec fn names_like(
    header: Option<Seq<char>>,
    query: Seq<char>,
    session_id: Seq<u8>,
    target_id: Seq<u8>,
    target: Seq<char>,
) -> bool {
    &&& header_session_id(header) == Some(session_id)
    &&& query_value(query, "target"@) == Some(target)
    &&& exists|text: Seq<char>|
        query_value(query, "target_id"@) == Some(text) && object_id_of(text) == Some(target_id)
}

/// Liking a comment or reply, step by step: the session is looked up, the
/// like is stored for the session's user, then the target is read and its
/// count is written back one higher, and the answer is 200.
pub proof fn lemma_like_conversation(
    header: Option<Seq<char>>,
    query: Seq<char>,
    session_id: Seq<u8>,
    target_id: Seq<u8>,
    target: Seq<char>,
    session: SessionView,
    stored: OutcomeView,
    comment: CommentView,
    reply: ReplyView,
    last: OutcomeView,
)
    requires
        names_like(header, query, session_id, target_id, target),
        target == "comment"@ || target == "reply"@,
        !(stored is Failed),
        comment.likes < MAX_LIKES,
        reply.likes < MAX_LIKES,
    ensures
        create_like_plan(header, query, seq![]) == perform(CommandView::FindSession { session_id }),
        create_like_plan(header, query, seq![OutcomeView::Session(session)]) == perform(
            CommandView::InsertLike {
                like: LikeView { id: None, user_id: session.user_id, target_id, target },
            },
        ),
        create_like_plan(header, query, seq![OutcomeView::Session(session), OutcomeView::Failed])
            == answer(Status::BadRequest),
        target == "comment"@ ==> {
            &&& create_like_plan(header, query, seq![OutcomeView::Session(session), stored])
                == perform(CommandView::FindComment { comment_id: target_id })
            &&& create_like_plan(
                header,
                query,
                seq![OutcomeView::Session(session), stored, OutcomeView::Comment(comment)],
            ) == perform(
                CommandView::SetCommentLikes { comment_id: comment.id, likes: (comment.likes + 1) as i64 },
            )
            &&& create_like_plan(
                header,
                query,
                seq![OutcomeView::Session(session), stored, OutcomeView::Comment(comment), last],
            ) == answer(Status::Success)
            &&& create_like_plan(
                header,
                query,
                seq![OutcomeView::Session(session), stored, OutcomeView::Missing],
            ) == answer(Status::Success)
        },
        target == "reply"@ ==> {
            &&& create_like_plan(header, query, seq![OutcomeView::Session(session), stored])
                == perform(CommandView::FindReply { reply_id: target_id })
            &&& create_like_plan(
                header,
                query,
                seq![OutcomeView::Session(session), stored, OutcomeView::Reply(reply)],
            ) == perform(
                CommandView::SetReplyLikes { reply_id: reply.id, likes: (reply.likes + 1) as i64 },
            )
            &&& create_like_plan(
                header,
                query,
                seq![OutcomeView::Session(session), stored, OutcomeView::Reply(reply), last],
            ) == answer(Status::Success)
            &&& create_like_plan(
                header,
                query,
                seq![OutcomeView::Session(session), stored, OutcomeView::Missing],
            ) == answer(Status::Success)
        },
{
    reveal_strlit("comment");
    reveal_strlit("reply");
    assert("comment"@.len() == 7 && "reply"@.len() == 5);
    assert("comment"@ != "reply"@);
}

/// Unliking, step by step: the session is looked up, the session user's
/// like of the target is removed, then the removed like's comment or reply
/// is read and its count is written back one lower (never below zero), and
/// the answer is 200; for an artist or album there is no count to change.
/// A like that was not there is answered 400.
pub proof fn lemma_unlike_conversation(
    header: Option<Seq<char>>,
    query: Seq<char>,
    session_id: Seq<u8>,
    target_id: Seq<u8>,
    target: Seq<char>,
    session: SessionView,
    removed: LikeView,
    comment: CommentView,
    reply: ReplyView,
    not_removed: OutcomeView,
    last: OutcomeView,
)
    requires
        names_like(header, query, session_id, target_id, target),
        target == "comment"@ || target == "reply"@ || target == "artist"@ || target == "album"@,
        !(not_removed is Like),
    ensures
        delete_like_plan(header, query, seq![]) == perform(CommandView::FindSession { session_id }),
        delete_like_plan(header, query, seq![OutcomeView::Session(session)]) == perform(
            CommandView::DeleteLike { user_id: session.user_id, target_id },
        ),
        delete_like_plan(header, query, seq![OutcomeView::Session(session), not_removed])
            == answer(Status::BadRequest),
        target == "comment"@ ==> {
            &&& delete_like_plan(header, query, seq![OutcomeView::Session(session), OutcomeView::Like(removed)])
                == perform(CommandView::FindComment { comment_id: removed.target_id })
            &&& delete_like_plan(
                header,
                query,
                seq![OutcomeView::Session(session), OutcomeView::Like(removed), OutcomeView::Comment(comment)],
            ) == perform(
                CommandView::SetCommentLikes {
                    comment_id: comment.id,
                    likes: (if comment.likes == 0 { 0 } else { comment.likes - 1 }) as i64,
                },
            )
            &&& delete_like_plan(
                header,
                query,
                seq![
                    OutcomeView::Session(session),
                    OutcomeView::Like(removed),
                    OutcomeView::Comment(comment),
                    last,
                ],
            ) == answer(Status::Success)
        },
        target == "reply"@ ==> {
            &&& delete_like_plan(header, query, seq![OutcomeView::Session(session), OutcomeView::Like(removed)])
                == perform(CommandView::FindReply { reply_id: removed.target_id })
            &&& delete_like_plan(
                header,
                query,
                seq![OutcomeView::Session(session), OutcomeView::Like(removed), OutcomeView::Reply(reply)],
            ) == perform(
                CommandView::SetReplyLikes {
                    reply_id: reply.id,
                    likes: (if reply.likes == 0 { 0 } else { reply.likes - 1 }) as i64,
                },
            )
            &&& delete_like_plan(
                header,
                query,
                seq![
                    OutcomeView::Session(session),
                    OutcomeView::Like(removed),
                    OutcomeView::Reply(reply),
                    last,
                ],
            ) == answer(Status::Success)
        },
        (target == "artist"@ || target == "album"@) ==> delete_like_plan(
            header,
            query,
            seq![OutcomeView::Session(session), OutcomeView::Like(removed)],
        ) == answer(Status::Success),
{
    reveal_strlit("comment");
    reveal_strlit("reply");
    reveal_strlit("artist");
    reveal_strlit("album");
    assert("comment"@.len() == 7 && "reply"@.len() == 5 && "artist"@.len() == 6);
    assert("album"@.len() == 5 && "album"@[0] != "reply"@[0]);
    assert("comment"@ != "reply"@ && "artist"@ != "comment"@ && "artist"@ != "reply"@);
    assert("album"@ != "comment"@ && "album"@ != "reply"@);
}

/// Requests naming another kind of target are answered 400 once the
/// session is found; requests without a well-formed target identifier or
/// without a kind are answered 401.
pub proof fn lemma_like_request_refusals(
    header: Option<Seq<char>>,
    query: Seq<char>,
    session: SessionView,
    target: Seq<char>,
    history: Seq<OutcomeView>,
)
    requires
        header_session_id(header) is Some,
        history.len() >= 1,
        history[0] == OutcomeView::Session(session),
    ensures
        (forall|text: Seq<char>| query_value(query, "target_id"@) == Some(text) ==> object_id_of(text) is None)
            ==> create_like_plan(header, query, history) == answer(Status::Unauthorized)
            && delete_like_plan(header, query, history) == answer(Status::Unauthorized),
        query_value(query, "target"@) is None ==> create_like_plan(header, query, history) == answer(
            Status::Unauthorized,
        ) && delete_like_plan(header, query, history) == answer(Status::Unauthorized),
        (exists|text: Seq<char>| query_value(query, "target_id"@) == Some(text) && object_id_of(text) is Some)
            && query_value(query, "target"@) == Some(target) && target != "comment"@ && target != "reply"@ ==>
            create_like_plan(header, query, history) == answer(Status::BadRequest),
        (exists|text: Seq<char>| query_value(query, "target_id"@) == Some(text) && object_id_of(text) is Some)
            && query_value(query, "target"@) == Some(target) && target != "comment"@ && target != "reply"@
            && target != "artist"@ && target != "album"@ ==>
            delete_like_plan(header, query, history) == answer(Status::BadRequest),
{
}

/// Asking whether a user likes a target: with both identifiers well formed
/// the like is looked up and the answer is 200 with whether it was found;
/// otherwise 400.
pub proof fn lemma_is_like_answers(
    query: Seq<char>,
    user_text: Seq<char>,
    target_text: Seq<char>,
    user_id: Seq<u8>,
    target_id: Seq<u8>,
    like: LikeView,
    other: OutcomeView,
)
    requires
        query_value(query, "user_id"@) == Some(user_text),
        query_value(query, "target_id"@) == Some(target_text),
        object_id_of(user_text) == Some(user_id),
        object_id_of(target_text) == Some(target_id),
        other is Missing || other is Failed,
    ensures
        is_like_plan(query, seq![]) == perform(CommandView::FindLike { user_id, target_id }),
        is_like_plan(query, seq![OutcomeView::Like(like)]) == answer_with(
            Status::Success,
            PayloadView::LikeState(true),
        ),
        is_like_plan(query, seq![other]) == answer_with(Status::Success, PayloadView::LikeState(false)),
{
}

/// Asking with a missing or malformed identifier is answered 400.
pub proof fn lemma_is_like_refusal(query: Seq<char>, history: Seq<OutcomeView>)
    requires
        !(exists|u: Seq<char>, t: Seq<char>|
            query_value(query, "user_id"@) == Some(u) && query_value(query, "target_id"@) == Some(t)
                && object_id_of(u) is Some && object_id_of(t) is Some),
    ensures
        is_like_plan(query, history) == answer(Status::BadRequest),
{
}

} // verus!
