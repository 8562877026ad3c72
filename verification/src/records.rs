//! The documents that the service keeps: users, sessions, comments, replies,
//! likes of comments and replies, and likes of artists.

use vstd::prelude::*;
use crate::ids::ObjectId;

verus! {

impl DeepView for ObjectId {
    type V = Seq<u8>;

    open spec fn deep_view(&self) -> Seq<u8> {
        self@
    }
}

pub(crate) fn copy_text(s: &String) -> (res: String)
    ensures
        res@ == s@,
{
    s.clone()
}

pub(crate) fn copy_optional_text(s: &Option<String>) -> (res: Option<String>)
    ensures
        res.deep_view() == s.deep_view(),
{
    match s {
        Some(t) => Some(t.clone()),
        None => None,
    }
}

/// An account. `hash` holds the salted password digest.
pub struct User {
    pub id: Option<ObjectId>,
    pub email: String,
    pub hash: String,
    pub salt: String,
    pub username: String,
    pub role: Option<String>,
    pub artist_id: Option<String>,
}

pub struct UserView {
    pub id: Option<Seq<u8>>,
    pub email: Seq<char>,
    pub hash: Seq<char>,
    pub salt: Seq<char>,
    pub username: Seq<char>,
    pub role: Option<Seq<char>>,
    pub artist_id: Option<Seq<char>>,
}

impl View for User {
    type V = UserView;

    open spec fn view(&self) -> UserView {
        UserView {
            id: self.id.deep_view(),
            email: self.email@,
            hash: self.hash@,
            salt: self.salt@,
            username: self.username@,
            role: self.role.deep_view(),
            artist_id: self.artist_id.deep_view(),
        }
    }
}

impl DeepView for User {
    type V = UserView;

    open spec fn deep_view(&self) -> UserView {
        self@
    }
}

/// The fields of an account that a user may change.
pub struct UserUpdateForm {
    pub email: Option<String>,
    pub username: Option<String>,
}

/// A login session of a user, valid up to and including `expiration_date`
/// (seconds since the Unix epoch).
#[derive(Clone, Copy, Debug)]
pub struct Session {
    pub user_id: ObjectId,
    pub expiration_date: i64,
}

pub struct SessionView {
    pub user_id: Seq<u8>,
    pub expiration_date: i64,
}

impl View for Session {
    type V = SessionView;

    open spec fn view(&self) -> SessionView {
        SessionView { user_id: self.user_id@, expiration_date: self.expiration_date }
    }
}

impl DeepView for Session {
    type V = SessionView;

    open spec fn deep_view(&self) -> SessionView {
        self@
    }
}

/// A comment on a target (an artist, album or song, named by `target_id`).
pub struct Comment {
    pub id: Option<ObjectId>,
    pub content: String,
    pub author: ObjectId,
    pub target_id: String,
    pub likes: u64,
}

pub struct CommentView {
    pub id: Option<Seq<u8>>,
    pub content: Seq<char>,
    pub author: Seq<u8>,
    pub target_id: Seq<char>,
    pub likes: u64,
}

impl View for Comment {
    type V = CommentView;

    open spec fn view(&self) -> CommentView {
        CommentView {
            id: self.id.deep_view(),
            content: self.content@,
            author: self.author@,
            target_id: self.target_id@,
            likes: self.likes,
        }
    }
}

impl DeepView for Comment {
    type V = CommentView;

    open spec fn deep_view(&self) -> CommentView {
        self@
    }
}

impl Comment {
    pub fn copy(&self) -> (res: Comment)
        ensures
            res@ == self@,
    {
        Comment {
            id: self.id,
            content: copy_text(&self.content),
            author: self.author,
            target_id: copy_text(&self.target_id),
            likes: self.likes,
        }
    }
}

/// A reply to a comment.
pub struct Reply {
    pub id: Option<ObjectId>,
    pub content: String,
    pub author: ObjectId,
    pub likes: u64,
    pub comment_id: ObjectId,
}

pub struct ReplyView {
    pub id: Option<Seq<u8>>,
    pub content: Seq<char>,
    pub author: Seq<u8>,
    pub likes: u64,
    pub comment_id: Seq<u8>,
}

impl View for Reply {
    type V = ReplyView;

    open spec fn view(&self) -> ReplyView {
        ReplyView {
            id: self.id.deep_view(),
            content: self.content@,
            author: self.author@,
            likes: self.likes,
            comment_id: self.comment_id@,
        }
    }
}

impl DeepView for Reply {
    type V = ReplyView;

    open spec fn deep_view(&self) -> ReplyView {
        self@
    }
}

impl Reply {
    pub fn copy(&self) -> (res: Reply)
        ensures
            res@ == self@,
    {
        Reply {
            id: self.id,
            content: copy_text(&self.content),
            author: self.author,
            likes: self.likes,
            comment_id: self.comment_id,
        }
    }
}

/// A user's like of a comment or reply; `target` names the kind of target.
pub struct Like {
    pub id: Option<ObjectId>,
    pub user_id: ObjectId,
    pub target_id: ObjectId,
    pub target: String,
}

pub struct LikeView {
    pub id: Option<Seq<u8>>,
    pub user_id: Seq<u8>,
    pub target_id: Seq<u8>,
    pub target: Seq<char>,
}

impl View for Like {
    type V = LikeView;

    open spec fn view(&self) -> LikeView {
        LikeView {
            id: self.id.deep_view(),
            user_id: self.user_id@,
            target_id: self.target_id@,
            target: self.target@,
        }
    }
}

impl DeepView for Like {
    type V = LikeView;

    open spec fn deep_view(&self) -> LikeView {
        self@
    }
}

/// A user's like of an artist.
pub struct LikeArtist {
    pub id: Option<ObjectId>,
    pub user_id: ObjectId,
    pub artist_id: String,
}

pub struct LikeArtistView {
    pub id: Option<Seq<u8>>,
    pub user_id: Seq<u8>,
    pub artist_id: Seq<char>,
}

impl View for LikeArtist {
    type V = LikeArtistView;

    open spec fn view(&self) -> LikeArtistView {
        LikeArtistView { id: self.id.deep_view(), user_id: self.user_id@, artist_id: self.artist_id@ }
    }
}

impl DeepView for LikeArtist {
    type V = LikeArtistView;

    open spec fn deep_view(&self) -> LikeArtistView {
        self@
    }
}

} // verus!
