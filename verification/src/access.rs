//! Access rules that hold across the handlers: who may change what.

use vstd::prelude::*;
use crate::artists::{dislike_artist_plan, like_artist_plan};
use crate::auth::{header_session_id, session_user};
use crate::comments::{admin_role, create_comment_plan, delete_comment_plan, update_comment_plan};
use crate::likes::{create_like_plan, delete_like_plan};
use crate::protocol::{answer, found, perform, CommandView, OutcomeView, Status, StepView};
use crate::records::{CommentView, ReplyView};
use crate::replies::{create_reply_plan, delete_reply_plan, update_reply_plan};
use crate::users::update_user_plan;

verus! {

/// Whether the request has not (yet) shown a session: the header names no
/// session, or the lookup of the session it names found none.
pub open spec fn unauthenticated(header: Option<Seq<char>>, history: Seq<OutcomeView>) -> bool {
    ||| header_session_id(header) is None
    ||| (history.len() >= 1 && session_user(history[0]) is None)
}

/// Every request that acts on behalf of a user and shows no session is
/// answered `401 Unauthorized`, whatever else it carries.
pub proof fn lemma_no_session_no_access(
    header: Option<Seq<char>>,
    query: Seq<char>,
    content: Seq<char>,
    email: Option<Seq<char>>,
    username: Option<Seq<char>>,
    posted_reply: ReplyView,
    history: Seq<OutcomeView>,
)
    requires
        unauthenticated(header, history),
    ensures
        create_like_plan(header, query, history) == answer(Status::Unauthorized),
        delete_like_plan(header, query, history) == answer(Status::Unauthorized),
        like_artist_plan(header, query, history) == answer(Status::Unauthorized),
        dislike_artist_plan(header, query, history) == answer(Status::Unauthorized),
        delete_comment_plan(header, query, history) == answer(Status::Unauthorized),
        update_comment_plan(header, query, content, history) == answer(Status::Unauthorized),
        create_reply_plan(header, posted_reply, history) == answer(Status::Unauthorized),
        delete_reply_plan(header, query, history) == answer(Status::Unauthorized),
        update_reply_plan(header, query, content, history) == answer(Status::Unauthorized),
        update_user_plan(header, email, username, history) == answer(Status::Unauthorized),
{
}

/// Posting a comment without a session found is answered `401 Unauthorized`.
pub proof fn lemma_no_session_no_comment(
    header: Option<Seq<char>>,
    posted: CommentView,
    history: Seq<OutcomeView>,
)
    requires
        header_session_id(header) is None || (history.len() >= 1 && !found(history[0])),
    ensures
        create_comment_plan(header, posted, history) == answer(Status::Unauthorized),
{
}

/// Before a session is shown, the only database operation that a request
/// on behalf of a user asks for is the lookup of the session its header
/// names.
pub proof fn lemma_session_lookup_comes_first(
    header: Option<Seq<char>>,
    query: Seq<char>,
    content: Seq<char>,
    email: Option<Seq<char>>,
    username: Option<Seq<char>>,
    posted_comment: CommentView,
    posted_reply: ReplyView,
)
    ensures
        ({
            let first = match header_session_id(header) {
                Some(session_id) => perform(CommandView::FindSession { session_id }),
                None => answer(Status::Unauthorized),
            };
            let none = Seq::<OutcomeView>::empty();
            &&& create_like_plan(header, query, none) == first
            &&& delete_like_plan(header, query, none) == first
            &&& like_artist_plan(header, query, none) == first
            &&& dislike_artist_plan(header, query, none) == first
            &&& create_comment_plan(header, posted_comment, none) == first
            &&& delete_comment_plan(header, query, none) == first
            &&& update_comment_plan(header, query, content, none) == first
            &&& create_reply_plan(header, posted_reply, none) == first
            &&& delete_reply_plan(header, query, none) == first
            &&& update_reply_plan(header, query, content, none) == first
            &&& update_user_plan(header, email, username, none) == first
        }),
{
}

/// A comment is deleted only as its author's, or, when the user is not its
/// author, after the store confirmed that the user is an administrator.
pub proof fn lemma_comment_deletion_is_owned_or_admin(
    header: Option<Seq<char>>,
    query: Seq<char>,
    history: Seq<OutcomeView>,
    comment_id: Seq<u8>,
    author: Option<Seq<u8>>,
)
    requires
        delete_comment_plan(header, query, history) == perform(
            CommandView::DeleteComment { comment_id, author },
        ),
    ensures
        history.len() >= 1,
        session_user(history[0]) is Some,
        match author {
            Some(a) => a == session_user(history[0])->0,
            None => {
                &&& history.len() == 3
                &&& found(history[2])
                &&& delete_comment_plan(header, query, history.take(2)) == perform(
                    CommandView::FindUserWithRole {
                        user_id: session_user(history[0])->0,
                        role: admin_role(),
                    },
                )
            },
        },
{
    if history.len() >= 2 {
        assert(history.take(2)[0] == history[0]);
        assert(history.take(2)[1] == history[1]);
    }
}

/// A reply is deleted only as its author's, or, when the user is not its
/// author, after the store confirmed that the user is an administrator.
pub proof fn lemma_reply_deletion_is_owned_or_admin(
    header: Option<Seq<char>>,
    query: Seq<char>,
    history: Seq<OutcomeView>,
    reply_id: Seq<u8>,
    author: Option<Seq<u8>>,
)
    requires
        delete_reply_plan(header, query, history) == perform(
            CommandView::DeleteReply { reply_id, author },
        ),
    ensures
        history.len() >= 1,
        session_user(history[0]) is Some,
        match author {
            Some(a) => a == session_user(history[0])->0,
            None => {
                &&& history.len() == 3
                &&& found(history[2])
                &&& delete_reply_plan(header, query, history.take(2)) == perform(
                    CommandView::FindUserWithRole {
                        user_id: session_user(history[0])->0,
                        role: admin_role(),
                    },
                )
            },
        },
{
    if history.len() >= 2 {
        assert(history.take(2)[0] == history[0]);
        assert(history.take(2)[1] == history[1]);
    }
}

/// Edits of comments and replies are limited to those that the session's
/// user wrote, and posted replies are written in that user's name.
pub proof fn lemma_edits_are_by_the_author(
    header: Option<Seq<char>>,
    query: Seq<char>,
    content: Seq<char>,
    posted_reply: ReplyView,
    history: Seq<OutcomeView>,
)
    ensures
        update_comment_plan(header, query, content, history) matches StepView::Perform(
            CommandView::SetCommentContent { author, .. },
        ) ==> history.len() == 1 && session_user(history[0]) == Some(author),
        update_reply_plan(header, query, content, history) matches StepView::Perform(
            CommandView::SetReplyContent { author, .. },
        ) ==> history.len() == 1 && session_user(history[0]) == Some(author),
        create_reply_plan(header, posted_reply, history) matches StepView::Perform(
            CommandView::InsertReply { reply },
        ) ==> history.len() == 1 && session_user(history[0]) == Some(reply.author),
{
}

/// Likes are recorded and removed for the session's user only.
pub proof fn lemma_likes_belong_to_the_session_user(
    header: Option<Seq<char>>,
    query: Seq<char>,
    history: Seq<OutcomeView>,
)
    ensures
        create_like_plan(header, query, history) matches StepView::Perform(
            CommandView::InsertLike { like },
        ) ==> history.len() == 1 && session_user(history[0]) == Some(like.user_id),
        delete_like_plan(header, query, history) matches StepView::Perform(
            CommandView::DeleteLike { user_id, .. },
        ) ==> history.len() == 1 && session_user(history[0]) == Some(user_id),
        like_artist_plan(header, query, history) matches StepView::Perform(
            CommandView::InsertArtistLike { like },
        ) ==> history.len() == 2 && session_user(history[0]) == Some(like.user_id) && found(history[1]),
        dislike_artist_plan(header, query, history) matches StepView::Perform(
            CommandView::DeleteArtistLike { user_id, .. },
        ) ==> history.len() == 1 && session_user(history[0]) == Some(user_id),
{
}

} // verus!
