use musicview::accounts::{
    create_user, delete_user, email_exists, index, login_with_password, login_with_session,
    username_exists,
};
use musicview::artists::{dislike_artist, get_liked_artists, is_like_artist, like_artist};
use musicview::comments::{
    create_comment, delete_comment, find_comment_by_id, get_comments, update_comment,
};
use musicview::ids::ObjectId;
use musicview::likes::{
    create_like, delete_like, increase_likes_comment, increase_likes_reply, is_like,
    reduce_likes_comment, reduce_likes_reply,
};
use musicview::password::password_digest;
use musicview::protocol::{Command, Outcome, Payload, Status, Step};
use musicview::records::{Comment, Like, LikeArtist, Reply, Session, User, UserUpdateForm};
use musicview::replies::{create_reply, delete_reply, get_replies, update_reply};
use musicview::users::{get_user, login, register, search_user, update_user};

const SESSION: &str = "aaaaaaaaaaaaaaaaaaaaaaaa";
const USER: &str = "bbbbbbbbbbbbbbbbbbbbbbbb";
const TARGET: &str = "cccccccccccccccccccccccc";

fn id(text: &str) -> ObjectId {
    ObjectId::parse(text).unwrap()
}

fn session() -> Outcome {
    Outcome::Session(Session { user_id: id(USER), expiration_date: 10_000 })
}

fn status(step: &Step) -> Status {
    match step {
        Step::Respond(r) => r.status,
        Step::Perform(_) => panic!("expected a response"),
    }
}

fn command(step: Step) -> Command {
    match step {
        Step::Perform(c) => c,
        Step::Respond(_) => panic!("expected a command"),
    }
}

fn comment(likes: u64) -> Comment {
    Comment {
        id: Some(id(TARGET)),
        content: "nice".to_string(),
        author: id(USER),
        target_id: "album-1".to_string(),
        likes,
    }
}

fn reply(likes: u64) -> Reply {
    Reply {
        id: Some(id(TARGET)),
        content: "agreed".to_string(),
        author: id(USER),
        likes,
        comment_id: id(TARGET),
    }
}

fn account(password: &str, salt: &str) -> User {
    User {
        id: Some(id(USER)),
        email: "fan@example.com".to_string(),
        hash: password_digest(password, salt),
        salt: salt.to_string(),
        username: "fan".to_string(),
        role: Some("fan".to_string()),
        artist_id: None,
    }
}

#[test]
fn like_requests_need_a_session() {
    let query = "target_id=cccccccccccccccccccccccc&target=comment";
    assert_eq!(status(&create_like(None, query, &[])), Status::Unauthorized);
    assert_eq!(status(&create_like(Some("not-an-id"), query, &[])), Status::Unauthorized);
    match command(create_like(Some(SESSION), query, &[])) {
        Command::FindSession { session_id } => assert_eq!(session_id.bytes, id(SESSION).bytes),
        _ => panic!("expected the session lookup"),
    }
    assert_eq!(status(&create_like(Some(SESSION), query, &[Outcome::Missing])), Status::Unauthorized);
    assert_eq!(status(&create_like(Some(SESSION), query, &[Outcome::Failed])), Status::Unauthorized);
}

#[test]
fn liking_a_comment_adds_one_to_its_count() {
    let query = "target_id=cccccccccccccccccccccccc&target=comment";
    let mut history = vec![session()];
    match command(create_like(Some(SESSION), query, &history)) {
        Command::InsertLike { like } => {
            assert_eq!(like.user_id.bytes, id(USER).bytes);
            assert_eq!(like.target_id.bytes, id(TARGET).bytes);
            assert_eq!(like.target, "comment");
            assert!(like.id.is_none());
        }
        _ => panic!("expected the like to be stored"),
    }
    history.push(Outcome::Done);
    match command(create_like(Some(SESSION), query, &history)) {
        Command::FindComment { comment_id } => assert_eq!(comment_id.bytes, id(TARGET).bytes),
        _ => panic!("expected the comment lookup"),
    }
    history.push(Outcome::Comment(comment(41)));
    match command(create_like(Some(SESSION), query, &history)) {
        Command::SetCommentLikes { comment_id, likes } => {
            assert_eq!(comment_id.unwrap().bytes, id(TARGET).bytes);
            assert_eq!(likes, 42);
        }
        _ => panic!("expected the count to be written"),
    }
    history.push(Outcome::Done);
    assert_eq!(status(&create_like(Some(SESSION), query, &history)), Status::Success);
}

#[test]
fn liking_a_missing_comment_still_succeeds() {
    let query = "target=reply&target_id=cccccccccccccccccccccccc";
    let history = vec![session(), Outcome::Done];
    match command(create_like(Some(SESSION), query, &history)) {
        Command::FindReply { reply_id } => assert_eq!(reply_id.bytes, id(TARGET).bytes),
        _ => panic!("expected the reply lookup"),
    }
    let history = vec![session(), Outcome::Done, Outcome::Missing];
    assert_eq!(status(&create_like(Some(SESSION), query, &history)), Status::Success);
}

#[test]
fn liking_checks_the_target() {
    let s = Some(SESSION);
    let h = [session()];
    assert_eq!(status(&create_like(s, "target_id=cccccccccccccccccccccccc&target=artist", &h)), Status::BadRequest);
    assert_eq!(status(&create_like(s, "target_id=cccccccccccccccccccccccc", &h)), Status::Unauthorized);
    assert_eq!(status(&create_like(s, "target_id=xyz&target=comment", &h)), Status::Unauthorized);
    let h = [session(), Outcome::Failed];
    assert_eq!(status(&create_like(s, "target_id=cccccccccccccccccccccccc&target=comment", &h)), Status::BadRequest);
}

#[test]
fn unliking_a_reply_takes_one_from_its_count() {
    let query = "target_id=cccccccccccccccccccccccc&target=reply";
    let h = [session()];
    match command(delete_like(Some(SESSION), query, &h)) {
        Command::DeleteLike { user_id, target_id } => {
            assert_eq!(user_id.bytes, id(USER).bytes);
            assert_eq!(target_id.bytes, id(TARGET).bytes);
        }
        _ => panic!("expected the like to be deleted"),
    }
    let removed = Outcome::Like(Like {
        id: None,
        user_id: id(USER),
        target_id: id(TARGET),
        target: "reply".to_string(),
    });
    let h = [session(), removed];
    assert!(matches!(command(delete_like(Some(SESSION), query, &h)), Command::FindReply { .. }));
    let h = [session(), Outcome::Like(Like { id: None, user_id: id(USER), target_id: id(TARGET), target: "reply".to_string() }), Outcome::Reply(reply(0))];
    match command(delete_like(Some(SESSION), query, &h)) {
        Command::SetReplyLikes { likes, .. } => assert_eq!(likes, 0),
        _ => panic!("expected the count to be written"),
    }
}

#[test]
fn unliking_an_album_needs_no_count() {
    let query = "target_id=cccccccccccccccccccccccc&target=album";
    let like = Like { id: None, user_id: id(USER), target_id: id(TARGET), target: "album".to_string() };
    let h = [session(), Outcome::Like(like)];
    assert_eq!(status(&delete_like(Some(SESSION), query, &h)), Status::Success);
    let h = [session(), Outcome::Missing];
    assert_eq!(status(&delete_like(Some(SESSION), query, &h)), Status::BadRequest);
    let h = [session()];
    assert_eq!(status(&delete_like(Some(SESSION), "target_id=cccccccccccccccccccccccc&target=song", &h)), Status::BadRequest);
}

#[test]
fn count_helpers_follow_their_plans() {
    let t = id(TARGET);
    assert!(matches!(increase_likes_comment(t, &[], 0), Some(Command::FindComment { .. })));
    match increase_likes_reply(t, &[Outcome::Reply(reply(9))], 0) {
        Some(Command::SetReplyLikes { likes, .. }) => assert_eq!(likes, 10),
        _ => panic!("expected the count to be written"),
    }
    match reduce_likes_comment(t, &[Outcome::Comment(comment(0))], 0) {
        Some(Command::SetCommentLikes { likes, .. }) => assert_eq!(likes, 0),
        _ => panic!("expected the count to be written"),
    }
    assert!(reduce_likes_reply(t, &[Outcome::Missing], 0).is_none());
    assert!(reduce_likes_reply(t, &[Outcome::Reply(reply(3)), Outcome::Done], 0).is_none());
}

#[test]
fn asking_whether_a_user_likes_a_target() {
    let query = "user_id=bbbbbbbbbbbbbbbbbbbbbbbb&target_id=cccccccccccccccccccccccc";
    assert!(matches!(command(is_like(query, &[])), Command::FindLike { .. }));
    let like = Like { id: None, user_id: id(USER), target_id: id(TARGET), target: "comment".to_string() };
    match is_like(query, &[Outcome::Like(like)]) {
        Step::Respond(r) => {
            assert_eq!(r.status, Status::Success);
            assert!(matches!(r.payload, Payload::LikeState(true)));
        }
        _ => panic!("expected an answer"),
    }
    match is_like(query, &[Outcome::Failed]) {
        Step::Respond(r) => assert!(matches!(r.payload, Payload::LikeState(false))),
        _ => panic!("expected an answer"),
    }
    assert_eq!(status(&is_like("user_id=bbbbbbbbbbbbbbbbbbbbbbbb", &[])), Status::BadRequest);
}

#[test]
fn liking_an_artist_needs_a_fan() {
    let query = "artist_id=artist-7";
    let h = [session()];
    match command(like_artist(Some(SESSION), query, &h)) {
        Command::FindUserWithRole { role, .. } => assert_eq!(role, "fan"),
        _ => panic!("expected the role check"),
    }
    let h = [session(), Outcome::Missing];
    assert_eq!(status(&like_artist(Some(SESSION), query, &h)), Status::Unauthorized);
    let h = [session(), Outcome::User(account("pw", "salt"))];
    match command(like_artist(Some(SESSION), query, &h)) {
        Command::InsertArtistLike { like } => assert_eq!(like.artist_id, "artist-7"),
        _ => panic!("expected the like to be stored"),
    }
    let h = [session(), Outcome::User(account("pw", "salt")), Outcome::Done];
    assert_eq!(status(&like_artist(Some(SESSION), query, &h)), Status::Success);
    let h = [session(), Outcome::User(account("pw", "salt")), Outcome::Failed];
    assert_eq!(status(&like_artist(Some(SESSION), query, &h)), Status::Unauthorized);
    let h = [session(), Outcome::User(account("pw", "salt"))];
    assert_eq!(status(&like_artist(Some(SESSION), "other=1", &h)), Status::Unauthorized);
}

#[test]
fn disliking_and_asking_about_artists() {
    let h = [session()];
    assert!(matches!(command(dislike_artist(Some(SESSION), "artist_id=a", &h)), Command::DeleteArtistLike { .. }));
    let liked = LikeArtist { id: None, user_id: id(USER), artist_id: "a".to_string() };
    let h = [session(), Outcome::ArtistLike(liked)];
    assert_eq!(status(&dislike_artist(Some(SESSION), "artist_id=a", &h)), Status::Success);
    let h = [session(), Outcome::Missing];
    assert_eq!(status(&dislike_artist(Some(SESSION), "artist_id=a", &h)), Status::Unauthorized);
    let q = "user_id=bbbbbbbbbbbbbbbbbbbbbbbb&artist_id=a";
    assert!(matches!(command(is_like_artist(q, &[])), Command::FindArtistLike { .. }));
    assert_eq!(status(&is_like_artist("user_id=zz&artist_id=a", &[])), Status::BadRequest);
}

#[test]
fn liked_artists_are_the_last_ten_newest_first() {
    let mut history = vec![Outcome::Opened];
    for n in 0..12 {
        match command(get_liked_artists(Some(USER), &history)) {
            Command::NextDocument => {}
            _ => panic!("expected to read on"),
        }
        history.push(Outcome::ArtistLike(LikeArtist {
            id: None,
            user_id: id(USER),
            artist_id: format!("artist-{}", n),
        }));
    }
    history.push(Outcome::Missing);
    match get_liked_artists(Some(USER), &history) {
        Step::Respond(r) => match r.payload {
            Payload::ArtistIds(ids) => {
                let expected: Vec<String> = (2..12).rev().map(|n| format!("artist-{}", n)).collect();
                assert_eq!(ids, expected);
            }
            _ => panic!("expected artist identifiers"),
        },
        _ => panic!("expected an answer"),
    }
    assert_eq!(status(&get_liked_artists(Some("bad"), &[])), Status::BadRequest);
    assert_eq!(status(&get_liked_artists(Some(USER), &[Outcome::Failed])), Status::BadRequest);
}

#[test]
fn comments_are_read_until_the_cursor_ends_or_fails() {
    let q = "target_id=album-1";
    match command(get_comments(q, &[])) {
        Command::FindCommentsOnTarget { target_id } => assert_eq!(target_id, "album-1"),
        _ => panic!("expected the comments to be found"),
    }
    let h = [Outcome::Opened, Outcome::Comment(comment(1)), Outcome::Comment(comment(2)), Outcome::Failed];
    match get_comments(q, &h) {
        Step::Respond(r) => match r.payload {
            Payload::Comments(cs) => {
                assert_eq!(cs.len(), 2);
                assert_eq!(cs[1].likes, 2);
            }
            _ => panic!("expected comments"),
        },
        _ => panic!("expected an answer"),
    }
    assert_eq!(status(&get_comments("x=1", &[])), Status::BadRequest);
    assert_eq!(status(&get_comments(q, &[Outcome::Failed])), Status::BadRequest);
}

#[test]
fn a_comment_by_its_identifier() {
    assert!(matches!(command(find_comment_by_id(Some(TARGET), &[])), Command::FindComment { .. }));
    match find_comment_by_id(Some(TARGET), &[Outcome::Comment(comment(3))]) {
        Step::Respond(r) => assert!(matches!(r.payload, Payload::Comment(ref c) if c.likes == 3)),
        _ => panic!("expected an answer"),
    }
    assert_eq!(status(&find_comment_by_id(Some(TARGET), &[Outcome::Missing])), Status::BadRequest);
    assert_eq!(status(&find_comment_by_id(None, &[])), Status::BadRequest);
}

#[test]
fn posting_a_comment_stores_it_without_identifier() {
    let posted = comment(5);
    assert_eq!(status(&create_comment(None, &posted, &[])), Status::Unauthorized);
    match command(create_comment(Some(SESSION), &posted, &[Outcome::User(account("a", "b"))])) {
        Command::InsertComment { comment } => {
            assert!(comment.id.is_none());
            assert_eq!(comment.likes, 5);
            assert_eq!(comment.content, "nice");
        }
        _ => panic!("expected the comment to be stored"),
    }
    assert_eq!(status(&create_comment(Some(SESSION), &posted, &[session(), Outcome::Failed])), Status::Unauthorized);
    assert_eq!(status(&create_comment(Some(SESSION), &posted, &[session(), Outcome::Done])), Status::Success);
}

#[test]
fn deleting_a_comment_as_author_or_administrator() {
    let q = "comment_id=cccccccccccccccccccccccc";
    match command(delete_comment(Some(SESSION), q, &[session()])) {
        Command::DeleteComment { author, .. } => assert_eq!(author.unwrap().bytes, id(USER).bytes),
        _ => panic!("expected the delete"),
    }
    assert_eq!(status(&delete_comment(Some(SESSION), q, &[session(), Outcome::Comment(comment(0))])), Status::Success);
    match command(delete_comment(Some(SESSION), q, &[session(), Outcome::Missing])) {
        Command::FindUserWithRole { role, .. } => assert_eq!(role, "admin"),
        _ => panic!("expected the role check"),
    }
    assert_eq!(status(&delete_comment(Some(SESSION), q, &[session(), Outcome::Missing, Outcome::Missing])), Status::Unauthorized);
    let admin = Outcome::User(account("a", "b"));
    match command(delete_comment(Some(SESSION), q, &[session(), Outcome::Missing, admin])) {
        Command::DeleteComment { author, .. } => assert!(author.is_none()),
        _ => panic!("expected the delete"),
    }
    let h = [session(), Outcome::Missing, Outcome::User(account("a", "b")), Outcome::Missing];
    assert_eq!(status(&delete_comment(Some(SESSION), q, &h)), Status::Unauthorized);
    assert_eq!(status(&delete_comment(Some(SESSION), "comment_id=1", &[session()])), Status::Unauthorized);
}

#[test]
fn editing_a_comment() {
    let q = "comment_id=cccccccccccccccccccccccc";
    let mut edit = comment(0);
    edit.content = "better".to_string();
    match command(update_comment(Some(SESSION), q, &edit, &[session()])) {
        Command::SetCommentContent { content, author, .. } => {
            assert_eq!(content, "better");
            assert_eq!(author.bytes, id(USER).bytes);
        }
        _ => panic!("expected the edit"),
    }
    assert_eq!(status(&update_comment(Some(SESSION), q, &edit, &[session(), Outcome::Missing])), Status::Unauthorized);
}

#[test]
fn replies_flow() {
    let q = "comment_id=cccccccccccccccccccccccc";
    assert!(matches!(command(get_replies(q, &[])), Command::FindRepliesTo { .. }));
    match get_replies(q, &[Outcome::Opened, Outcome::Reply(reply(1)), Outcome::Missing]) {
        Step::Respond(r) => assert!(matches!(r.payload, Payload::Replies(ref rs) if rs.len() == 1)),
        _ => panic!("expected an answer"),
    }
    assert_eq!(status(&get_replies("comment_id=nope", &[])), Status::BadRequest);
    let mut posted = reply(99);
    posted.author = id(TARGET);
    match command(create_reply(Some(SESSION), &posted, &[session()])) {
        Command::InsertReply { reply } => {
            assert_eq!(reply.likes, 0);
            assert_eq!(reply.author.bytes, id(USER).bytes);
            assert!(reply.id.is_none());
        }
        _ => panic!("expected the reply to be stored"),
    }
    let rq = "reply_id=cccccccccccccccccccccccc";
    assert!(matches!(command(delete_reply(Some(SESSION), rq, &[session()])), Command::DeleteReply { .. }));
    assert_eq!(status(&delete_reply(None, rq, &[])), Status::Unauthorized);
    assert!(matches!(command(update_reply(Some(SESSION), rq, &posted, &[session()])), Command::SetReplyContent { .. }));
    assert_eq!(status(&update_reply(Some(SESSION), rq, &posted, &[session(), Outcome::Reply(reply(0))])), Status::Success);
}

#[test]
fn login_opens_a_session_for_the_right_password() {
    let user = Outcome::User(account("secret", "pepper"));
    match command(login("fan@example.com", "secret", &[])) {
        Command::FindUserByEmail { email } => assert_eq!(email, "fan@example.com"),
        _ => panic!("expected the user lookup"),
    }
    assert!(matches!(command(login("fan@example.com", "secret", &[user])), Command::ReadClock));
    let h = [Outcome::User(account("secret", "pepper")), Outcome::Clock(1_000)];
    match command(login("fan@example.com", "secret", &h)) {
        Command::InsertSession { session } => {
            assert_eq!(session.expiration_date, 2_800);
            assert_eq!(session.user_id.bytes, id(USER).bytes);
        }
        _ => panic!("expected the session to be stored"),
    }
    let h = [Outcome::User(account("secret", "pepper")), Outcome::Clock(1_000), Outcome::Inserted(id(SESSION))];
    match login("fan@example.com", "secret", &h) {
        Step::Respond(r) => {
            assert_eq!(r.status, Status::Success);
            match r.payload {
                Payload::NewSession { session_id, expiration_date } => {
                    assert_eq!(session_id, SESSION);
                    assert_eq!(expiration_date, 2_800);
                }
                _ => panic!("expected the new session"),
            }
        }
        _ => panic!("expected an answer"),
    }
}

#[test]
fn login_refusals() {
    let wrong = [Outcome::User(account("secret", "pepper"))];
    assert_eq!(status(&login("fan@example.com", "guess", &wrong)), Status::Unauthorized);
    assert_eq!(status(&login_with_password("fan@example.com", "guess", &wrong)), Status::Forbidden);
    assert_eq!(status(&login("x@example.com", "secret", &[Outcome::Missing])), Status::Unauthorized);
    assert_eq!(status(&login_with_password("x@example.com", "secret", &[Outcome::Failed])), Status::Unauthorized);
    let failed = [Outcome::User(account("secret", "pepper")), Outcome::Clock(1_000), Outcome::Failed];
    assert_eq!(status(&login("fan@example.com", "secret", &failed)), Status::Unauthorized);
    assert_eq!(status(&login_with_password("fan@example.com", "secret", &failed)), Status::InternalServerError);
}

#[test]
fn registration_stores_the_digest_and_lower_case_address() {
    let form = User {
        id: None,
        email: "Fan@Example.COM".to_string(),
        hash: "secret".to_string(),
        salt: "pepper".to_string(),
        username: "fan".to_string(),
        role: None,
        artist_id: Some("ignored".to_string()),
    };
    match command(register(&form, &[])) {
        Command::InsertUser { user } => {
            assert_eq!(user.email, "fan@example.com");
            assert_eq!(user.hash, password_digest("secret", "pepper"));
            assert_eq!(user.salt, "pepper");
            assert_eq!(user.role.as_deref(), Some("fan"));
            assert!(user.artist_id.is_none());
            assert!(user.id.is_none());
            let mut stored = user;
            stored.id = Some(id(USER));
            assert!(matches!(command(login("fan@example.com", "secret", &[Outcome::User(stored)])), Command::ReadClock));
        }
        _ => panic!("expected the user to be stored"),
    }
    assert_eq!(status(&register(&form, &[Outcome::Done])), Status::Success);
    assert_eq!(status(&register(&form, &[Outcome::Failed])), Status::BadRequest);
}

#[test]
fn reading_accounts_and_profiles() {
    let q = "session_id=aaaaaaaaaaaaaaaaaaaaaaaa";
    assert!(matches!(command(get_user(q, &[])), Command::FindSession { .. }));
    assert!(matches!(command(get_user(q, &[session()])), Command::FindUser { .. }));
    match get_user(q, &[session(), Outcome::User(account("a", "b"))]) {
        Step::Respond(r) => match r.payload {
            Payload::Account { username, role, .. } => {
                assert_eq!(username, "fan");
                assert_eq!(role, "fan");
            }
            _ => panic!("expected the account"),
        },
        _ => panic!("expected an answer"),
    }
    assert_eq!(status(&get_user(q, &[Outcome::Missing])), Status::BadRequest);
    assert_eq!(status(&get_user("session_id=1", &[])), Status::BadRequest);
    match search_user("user_id=bbbbbbbbbbbbbbbbbbbbbbbb", &[Outcome::User(account("a", "b"))]) {
        Step::Respond(r) => assert!(matches!(r.payload, Payload::Profile { .. })),
        _ => panic!("expected an answer"),
    }
    assert_eq!(status(&search_user("user_id=bbbbbbbbbbbbbbbbbbbbbbbb", &[Outcome::Missing])), Status::BadRequest);
}

#[test]
fn updating_an_account() {
    let both = UserUpdateForm { email: Some("new@example.com".to_string()), username: Some("n".to_string()) };
    match command(update_user(Some(SESSION), &both, &[session()])) {
        Command::SetUserEmail { email, .. } => assert_eq!(email, "new@example.com"),
        _ => panic!("expected the address to be set"),
    }
    let name = UserUpdateForm { email: None, username: Some("n".to_string()) };
    match command(update_user(Some(SESSION), &name, &[session()])) {
        Command::SetUsername { username, .. } => assert_eq!(username, "n"),
        _ => panic!("expected the name to be set"),
    }
    let neither = UserUpdateForm { email: None, username: None };
    assert_eq!(status(&update_user(Some(SESSION), &neither, &[session()])), Status::BadRequest);
    assert_eq!(status(&update_user(Some(SESSION), &name, &[session(), Outcome::User(account("a", "b"))])), Status::Success);
    assert_eq!(status(&update_user(Some(SESSION), &name, &[session(), Outcome::Missing])), Status::BadRequest);
}

#[test]
fn first_account_endpoints() {
    match email_exists("a@b.c", &[Outcome::User(account("a", "b"))]) {
        Step::Respond(r) => assert!(matches!(r.payload, Payload::Text(ref t) if t == "1")),
        _ => panic!("expected an answer"),
    }
    match username_exists("fan", &[Outcome::Missing]) {
        Step::Respond(r) => assert!(matches!(r.payload, Payload::Text(ref t) if t == "0")),
        _ => panic!("expected an answer"),
    }
    assert_eq!(status(&email_exists("a@b.c", &[Outcome::Failed])), Status::NoContent);
    let form = account("a", "b");
    match command(create_user(&form, &[])) {
        Command::InsertUser { user } => {
            assert_eq!(user.hash, form.hash);
            assert!(user.role.is_none());
        }
        _ => panic!("expected the user to be stored"),
    }
    assert_eq!(status(&create_user(&form, &[Outcome::Failed])), Status::Conflict);
    match create_user(&form, &[Outcome::Done]) {
        Step::Respond(r) => assert!(matches!(r.payload, Payload::Text(ref t) if t == "success")),
        _ => panic!("expected an answer"),
    }
    assert!(matches!(command(delete_user(SESSION, &[])), Command::DeleteSession { .. }));
    assert_eq!(status(&delete_user(SESSION, &[Outcome::Failed])), Status::Success);
    assert_eq!(status(&delete_user("nope", &[])), Status::BadRequest);
}

#[test]
fn login_by_session_checks_the_expiration_date() {
    assert_eq!(status(&login_with_session("bad", &[])), Status::BadRequest);
    assert!(matches!(command(login_with_session(SESSION, &[session()])), Command::ReadClock));
    assert_eq!(status(&login_with_session(SESSION, &[session(), Outcome::Clock(10_000)])), Status::Success);
    assert_eq!(status(&login_with_session(SESSION, &[session(), Outcome::Clock(10_001)])), Status::Unauthorized);
    assert_eq!(status(&login_with_session(SESSION, &[Outcome::Missing])), Status::Unauthorized);
}

#[test]
fn the_greeting_names_the_user() {
    let user = account("a", "b");
    assert!(matches!(command(index(SESSION, &user, &[])), Command::FindSession { .. }));
    match index(SESSION, &user, &[Outcome::Failed]) {
        Step::Respond(r) => assert!(matches!(r.payload, Payload::Text(ref t) if t == "Welcome fan!")),
        _ => panic!("expected an answer"),
    }
}

#[test]
fn a_like_taken_back_restores_the_count() {
    let like_query = "target_id=cccccccccccccccccccccccc&target=comment";
    let h = [session(), Outcome::Done, Outcome::Comment(comment(41))];
    let written = match command(create_like(Some(SESSION), like_query, &h)) {
        Command::SetCommentLikes { likes, .. } => likes,
        _ => panic!("expected the count to be written"),
    };
    assert_eq!(written, 42);
    let removed = Like { id: None, user_id: id(USER), target_id: id(TARGET), target: "comment".to_string() };
    let h = [session(), Outcome::Like(removed), Outcome::Comment(comment(written as u64))];
    match command(delete_like(Some(SESSION), like_query, &h)) {
        Command::SetCommentLikes { likes, .. } => assert_eq!(likes, 41),
        _ => panic!("expected the count to be written"),
    }
}

#[test]
fn requests_without_a_session_change_nothing() {
    let q = "comment_id=cccccccccccccccccccccccc&reply_id=cccccccccccccccccccccccc&artist_id=a";
    let h = [Outcome::Missing];
    let form = UserUpdateForm { email: Some("e".to_string()), username: None };
    assert_eq!(status(&delete_comment(Some(SESSION), q, &h)), Status::Unauthorized);
    assert_eq!(status(&update_comment(Some(SESSION), q, &comment(0), &h)), Status::Unauthorized);
    assert_eq!(status(&delete_reply(Some(SESSION), q, &h)), Status::Unauthorized);
    assert_eq!(status(&update_reply(Some(SESSION), q, &reply(0), &h)), Status::Unauthorized);
    assert_eq!(status(&create_reply(Some(SESSION), &reply(0), &h)), Status::Unauthorized);
    assert_eq!(status(&like_artist(Some(SESSION), q, &h)), Status::Unauthorized);
    assert_eq!(status(&dislike_artist(Some(SESSION), q, &h)), Status::Unauthorized);
    assert_eq!(status(&update_user(Some(SESSION), &form, &h)), Status::Unauthorized);
    assert_eq!(status(&delete_like(None, q, &[])), Status::Unauthorized);
}
