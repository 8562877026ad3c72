//! The conversation between a request handler and the server that drives it.
//!
//! A handler is a function from its request and the outcomes received so far
//! to a `Step`: either a database `Command` for the server to carry out (its
//! `Outcome` is then appended to the history and the handler called again),
//! or the final `Response`.

use vstd::prelude::*;
use crate::ids::ObjectId;
use crate::records::{
    Comment, CommentView, Like, LikeArtist, LikeArtistView, LikeView, Reply, ReplyView, Session,
    SessionView, User, UserView,
};

verus! {

/// A database operation (or a clock reading) that a handler asks for.
pub enum Command {
    /// Find the user with this e-mail address.
    FindUserByEmail { email: String },
    /// Find the user with this user name.
    FindUserByUsername { username: String },
    /// Find the user with this identifier.
    FindUser { user_id: ObjectId },
    /// Find the user with this identifier if its role is `role`.
    FindUserWithRole { user_id: ObjectId, role: String },
    /// Insert a new user.
    InsertUser { user: User },
    /// Set a user's e-mail address; the outcome is the user found.
    SetUserEmail { user_id: ObjectId, email: String },
    /// Set a user's name; the outcome is the user found.
    SetUsername { user_id: ObjectId, username: String },
    /// Find the session with this identifier.
    FindSession { session_id: ObjectId },
    /// Insert a new session; the outcome carries the new identifier.
    InsertSession { session: Session },
    /// Delete the session with this identifier.
    DeleteSession { session_id: ObjectId },
    /// Delete every session whose expiration date is before `now`.
    DeleteExpiredSessions { now: i64 },
    /// Read the current time (seconds since the Unix epoch).
    ReadClock,
    /// Open a cursor over the comments on a target.
    FindCommentsOnTarget { target_id: String },
    /// Find the comment with this identifier.
    FindComment { comment_id: ObjectId },
    /// Insert a new comment.
    InsertComment { comment: Comment },
    /// Find and delete a comment, by identifier and, if given, author.
    DeleteComment { comment_id: ObjectId, author: Option<ObjectId> },
    /// Find a comment by identifier and author and set its content.
    SetCommentContent { comment_id: ObjectId, author: ObjectId, content: String },
    /// Set the like count of the comment with this identifier.
    SetCommentLikes { comment_id: Option<ObjectId>, likes: i64 },
    /// Open a cursor over the replies to a comment.
    FindRepliesTo { comment_id: ObjectId },
    /// Find the reply with this identifier.
    FindReply { reply_id: ObjectId },
    /// Insert a new reply.
    InsertReply { reply: Reply },
    /// Find and delete a reply, by identifier and, if given, author.
    DeleteReply { reply_id: ObjectId, author: Option<ObjectId> },
    /// Find a reply by identifier and author and set its content.
    SetReplyContent { reply_id: ObjectId, author: ObjectId, content: String },
    /// Set the like count of the reply with this identifier.
    SetReplyLikes { reply_id: Option<ObjectId>, likes: i64 },
    /// Find a user's like of a target.
    FindLike { user_id: ObjectId, target_id: ObjectId },
    /// Insert a like.
    InsertLike { like: Like },
    /// Find and delete a user's like of a target.
    DeleteLike { user_id: ObjectId, target_id: ObjectId },
    /// Find a user's like of an artist.
    FindArtistLike { user_id: ObjectId, artist_id: String },
    /// Insert a like of an artist.
    InsertArtistLike { like: LikeArtist },
    /// Find and delete a user's like of an artist.
    DeleteArtistLike { user_id: ObjectId, artist_id: String },
    /// Open a cursor over a user's likes of artists.
    FindArtistLikesOf { user_id: ObjectId },
    /// Read the next document of the cursor opened last.
    NextDocument,
}

pub enum CommandView {
    FindUserByEmail { email: Seq<char> },
    FindUserByUsername { username: Seq<char> },
    FindUser { user_id: Seq<u8> },
    FindUserWithRole { user_id: Seq<u8>, role: Seq<char> },
    InsertUser { user: UserView },
    SetUserEmail { user_id: Seq<u8>, email: Seq<char> },
    SetUsername { user_id: Seq<u8>, username: Seq<char> },
    FindSession { session_id: Seq<u8> },
    InsertSession { session: SessionView },
    DeleteSession { session_id: Seq<u8> },
    DeleteExpiredSessions { now: i64 },
    ReadClock,
    FindCommentsOnTarget { target_id: Seq<char> },
    FindComment { comment_id: Seq<u8> },
    InsertComment { comment: CommentView },
    DeleteComment { comment_id: Seq<u8>, author: Option<Seq<u8>> },
    SetCommentContent { comment_id: Seq<u8>, author: Seq<u8>, content: Seq<char> },
    SetCommentLikes { comment_id: Option<Seq<u8>>, likes: i64 },
    FindRepliesTo { comment_id: Seq<u8> },
    FindReply { reply_id: Seq<u8> },
    InsertReply { reply: ReplyView },
    DeleteReply { reply_id: Seq<u8>, author: Option<Seq<u8>> },
    SetReplyContent { reply_id: Seq<u8>, author: Seq<u8>, content: Seq<char> },
    SetReplyLikes { reply_id: Option<Seq<u8>>, likes: i64 },
    FindLike { user_id: Seq<u8>, target_id: Seq<u8> },
    InsertLike { like: LikeView },
    DeleteLike { user_id: Seq<u8>, target_id: Seq<u8> },
    FindArtistLike { user_id: Seq<u8>, artist_id: Seq<char> },
    InsertArtistLike { like: LikeArtistView },
    DeleteArtistLike { user_id: Seq<u8>, artist_id: Seq<char> },
    FindArtistLikesOf { user_id: Seq<u8> },
    NextDocument,
}

impl View for Command {
    type V = CommandView;

    open spec fn view(&self) -> CommandView {
        match self {
            Command::FindUserByEmail { email } => CommandView::FindUserByEmail { email: email@ },
            Command::FindUserByUsername { username } => CommandView::FindUserByUsername {
                username: username@,
            },
            Command::FindUser { user_id } => CommandView::FindUser { user_id: user_id@ },
            Command::FindUserWithRole { user_id, role } => CommandView::FindUserWithRole {
                user_id: user_id@,
                role: role@,
            },
            Command::InsertUser { user } => CommandView::InsertUser { user: user@ },
            Command::SetUserEmail { user_id, email } => CommandView::SetUserEmail {
                user_id: user_id@,
                email: email@,
            },
            Command::SetUsername { user_id, username } => CommandView::SetUsername {
                user_id: user_id@,
                username: username@,
            },
            Command::FindSession { session_id } => CommandView::FindSession {
                session_id: session_id@,
            },
            Command::InsertSession { session } => CommandView::InsertSession { session: session@ },
            Command::DeleteSession { session_id } => CommandView::DeleteSession {
                session_id: session_id@,
            },
            Command::DeleteExpiredSessions { now } => CommandView::DeleteExpiredSessions {
                now: *now,
            },
            Command::ReadClock => CommandView::ReadClock,
            Command::FindCommentsOnTarget { target_id } => CommandView::FindCommentsOnTarget {
                target_id: target_id@,
            },
            Command::FindComment { comment_id } => CommandView::FindComment {
                comment_id: comment_id@,
            },
            Command::InsertComment { comment } => CommandView::InsertComment { comment: comment@ },
            Command::DeleteComment { comment_id, author } => CommandView::DeleteComment {
                comment_id: comment_id@,
                author: author.deep_view(),
            },
            Command::SetCommentContent { comment_id, author, content } =>
                CommandView::SetCommentContent {
                    comment_id: comment_id@,
                    author: author@,
                    content: content@,
                },
            Command::SetCommentLikes { comment_id, likes } => CommandView::SetCommentLikes {
                comment_id: comment_id.deep_view(),
                likes: *likes,
            },
            Command::FindRepliesTo { comment_id } => CommandView::FindRepliesTo {
                comment_id: comment_id@,
            },
            Command::FindReply { reply_id } => CommandView::FindReply { reply_id: reply_id@ },
            Command::InsertReply { reply } => CommandView::InsertReply { reply: reply@ },
            Command::DeleteReply { reply_id, author } => CommandView::DeleteReply {
                reply_id: reply_id@,
                author: author.deep_view(),
            },
            Command::SetReplyContent { reply_id, author, content } => CommandView::SetReplyContent {
                reply_id: reply_id@,
                author: author@,
                content: content@,
            },
            Command::SetReplyLikes { reply_id, likes } => CommandView::SetReplyLikes {
                reply_id: reply_id.deep_view(),
                likes: *likes,
            },
            Command::FindLike { user_id, target_id } => CommandView::FindLike {
                user_id: user_id@,
                target_id: target_id@,
            },
            Command::InsertLike { like } => CommandView::InsertLike { like: like@ },
            Command::DeleteLike { user_id, target_id } => CommandView::DeleteLike {
                user_id: user_id@,
                target_id: target_id@,
            },
            Command::FindArtistLike { user_id, artist_id } => CommandView::FindArtistLike {
                user_id: user_id@,
                artist_id: artist_id@,
            },
            Command::InsertArtistLike { like } => CommandView::InsertArtistLike { like: like@ },
            Command::DeleteArtistLike { user_id, artist_id } => CommandView::DeleteArtistLike {
                user_id: user_id@,
                artist_id: artist_id@,
            },
            Command::FindArtistLikesOf { user_id } => CommandView::FindArtistLikesOf {
                user_id: user_id@,
            },
            Command::NextDocument => CommandView::NextDocument,
        }
    }
}

impl DeepView for Command {
    type V = CommandView;

    open spec fn deep_view(&self) -> CommandView {
        self@
    }
}

/// What became of a command.
pub enum Outcome {
    /// The database reported an error.
    Failed,
    /// No document matched (or the cursor is exhausted).
    Missing,
    /// The operation succeeded and returned nothing of interest.
    Done,
    /// An insert succeeded and the database chose this identifier.
    Inserted(ObjectId),
    /// A cursor was opened.
    Opened,
    /// The clock read this many seconds since the Unix epoch.
    Clock(i64),
    Session(Session),
    User(User),
    Comment(Comment),
    Reply(Reply),
    Like(Like),
    ArtistLike(LikeArtist),
}

pub enum OutcomeView {
    Failed,
    Missing,
    Done,
    Inserted(Seq<u8>),
    Opened,
    Clock(i64),
    Session(SessionView),
    User(UserView),
    Comment(CommentView),
    Reply(ReplyView),
    Like(LikeView),
    ArtistLike(LikeArtistView),
}

impl View for Outcome {
    type V = OutcomeView;

    open spec fn view(&self) -> OutcomeView {
        match self {
            Outcome::Failed => OutcomeView::Failed,
            Outcome::Missing => OutcomeView::Missing,
            Outcome::Done => OutcomeView::Done,
            Outcome::Inserted(id) => OutcomeView::Inserted(id@),
            Outcome::Opened => OutcomeView::Opened,
            Outcome::Clock(t) => OutcomeView::Clock(*t),
            Outcome::Session(s) => OutcomeView::Session(s@),
            Outcome::User(u) => OutcomeView::User(u@),
            Outcome::Comment(c) => OutcomeView::Comment(c@),
            Outcome::Reply(r) => OutcomeView::Reply(r@),
            Outcome::Like(l) => OutcomeView::Like(l@),
            Outcome::ArtistLike(l) => OutcomeView::ArtistLike(l@),
        }
    }
}

impl DeepView for Outcome {
    type V = OutcomeView;

    open spec fn deep_view(&self) -> OutcomeView {
        self@
    }
}

/// Whether an outcome carries a document (`Ok(Some(..))`).
pub open spec fn found(o: OutcomeView) -> bool {
    ||| o is Session
    ||| o is User
    ||| o is Comment
    ||| o is Reply
    ||| o is Like
    ||| o is ArtistLike
}

/// Whether an operation did not fail (`Ok(..)`).
pub open spec fn succeeded(o: OutcomeView) -> bool {
    !(o is Failed)
}

pub(crate) fn is_found(o: &Outcome) -> (res: bool)
    ensures
        res == found(o@),
{
    match o {
        Outcome::Session(_) | Outcome::User(_) | Outcome::Comment(_) | Outcome::Reply(_)
        | Outcome::Like(_) | Outcome::ArtistLike(_) => true,
        _ => false,
    }
}

pub(crate) fn is_success(o: &Outcome) -> (res: bool)
    ensures
        res == succeeded(o@),
{
    match o {
        Outcome::Failed => false,
        _ => true,
    }
}

/// The HTTP status of a response.
#[derive(Clone, Copy, Debug, PartialEq, Eq, Structural)]
pub enum Status {
    /// 200
    Success,
    BadRequest,
    Unauthorized,
    Forbidden,
    NoContent,
    InternalServerError,
    Conflict,
}

/// The body of a response.
pub enum Payload {
    Empty,
    Text(String),
    /// `{"like": ..}`
    LikeState(bool),
    /// `{"session_id": .., "expiration_date": ..}`
    NewSession { session_id: String, expiration_date: i64 },
    Comment(Comment),
    Comments(Vec<Comment>),
    Replies(Vec<Reply>),
    /// The account of the session's user.
    Account { username: String, email: String, role: String, id: ObjectId, artist_id: Option<String> },
    /// The public profile of a user.
    Profile { role: Option<String>, username: String, id: Option<ObjectId>, artist_id: Option<String> },
    ArtistIds(Vec<String>),
}

pub enum PayloadView {
    Empty,
    Text(Seq<char>),
    LikeState(bool),
    NewSession { session_id: Seq<char>, expiration_date: i64 },
    Comment(CommentView),
    Comments(Seq<CommentView>),
    Replies(Seq<ReplyView>),
    Account {
        username: Seq<char>,
        email: Seq<char>,
        role: Seq<char>,
        id: Seq<u8>,
        artist_id: Option<Seq<char>>,
    },
    Profile {
        role: Option<Seq<char>>,
        username: Seq<char>,
        id: Option<Seq<u8>>,
        artist_id: Option<Seq<char>>,
    },
    ArtistIds(Seq<Seq<char>>),
}

impl View for Payload {
    type V = PayloadView;

    open spec fn view(&self) -> PayloadView {
        match self {
            Payload::Empty => PayloadView::Empty,
            Payload::Text(t) => PayloadView::Text(t@),
            Payload::LikeState(b) => PayloadView::LikeState(*b),
            Payload::NewSession { session_id, expiration_date } => PayloadView::NewSession {
                session_id: session_id@,
                expiration_date: *expiration_date,
            },
            Payload::Comment(c) => PayloadView::Comment(c@),
            Payload::Comments(cs) => PayloadView::Comments(cs.deep_view()),
            Payload::Replies(rs) => PayloadView::Replies(rs.deep_view()),
            Payload::Account { username, email, role, id, artist_id } => PayloadView::Account {
                username: username@,
                email: email@,
                role: role@,
                id: id@,
                artist_id: artist_id.deep_view(),
            },
            Payload::Profile { role, username, id, artist_id } => PayloadView::Profile {
                role: role.deep_view(),
                username: username@,
                id: id.deep_view(),
                artist_id: artist_id.deep_view(),
            },
            Payload::ArtistIds(ids) => PayloadView::ArtistIds(ids.deep_view()),
        }
    }
}

/// A response: a status and a body.
pub struct Response {
    pub status: Status,
    pub payload: Payload,
}

pub struct ResponseView {
    pub status: Status,
    pub payload: PayloadView,
}

impl View for Response {
    type V = ResponseView;

    open spec fn view(&self) -> ResponseView {
        ResponseView { status: self.status, payload: self.payload@ }
    }
}

/// What a handler does next.
pub enum Step {
    Perform(Command),
    Respond(Response),
}

pub enum StepView {
    Perform(CommandView),
    Respond(ResponseView),
}

impl View for Step {
    type V = StepView;

    open spec fn view(&self) -> StepView {
        match self {
            Step::Perform(c) => StepView::Perform(c@),
            Step::Respond(r) => StepView::Respond(r@),
        }
    }
}

/// A response with this status and no body.
pub open spec fn answer(status: Status) -> StepView {
    StepView::Respond(ResponseView { status, payload: PayloadView::Empty })
}

/// A response with this status and body.
pub open spec fn answer_with(status: Status, payload: PayloadView) -> StepView {
    StepView::Respond(ResponseView { status, payload })
}

pub open spec fn perform(c: CommandView) -> StepView {
    StepView::Perform(c)
}

/// Responds with this status and no body.
pub(crate) fn respond(status: Status) -> (res: Step)
    ensures
        res@ == answer(status),
{
    Step::Respond(Response { status, payload: Payload::Empty })
}

/// Responds with this status and body.
pub(crate) fn respond_with(status: Status, payload: Payload) -> (res: Step)
    ensures
        res@ == answer_with(status, payload@),
{
    Step::Respond(Response { status, payload })
}

} // verus!
