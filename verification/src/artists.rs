//! Likes of artists: liking, unliking, asking whether a user likes an
//! artist, and listing the artists a user liked last.

use vstd::prelude::*;
use vstd::utf8::is_ascii_chars;
use crate::auth::{authenticate, gate, Gate, GateView};
use crate::ids::{object_id_of, ObjectId};
use crate::protocol::{
    answer, answer_with, found, perform, respond, respond_with, succeeded, is_found, is_success,
    Command, CommandView, Outcome, OutcomeView, Payload, PayloadView, Status, Step, StepView,
};
use crate::query::{query_value, QueryParams};
use crate::auth::header_session_id;
use crate::records::{copy_text, LikeArtist, LikeArtistView, SessionView, UserView};

verus! {

/// The role a user must have to like an artist.
pub open spec fn fan_role() -> Seq<char> {
    "fan"@
}

/// Answers `POST /artists?artist_id=..` for the logged-in user: checks that
/// the user is a fan (`history[1]`), then records the like (`history[2]`).
pub open spec fn like_artist_plan(header: Option<Seq<char>>, query: Seq<char>, history: Seq<OutcomeView>) -> StepView {
    match gate(header, history) {
        GateView::Decided(step) => step,
        GateView::Passed(user) => if history.len() == 1 {
            perform(CommandView::FindUserWithRole { user_id: user, role: fan_role() })
        } else if !found(history[1]) {
            answer(Status::Unauthorized)
        } else {
            match query_value(query, "artist_id"@) {
                None => answer(Status::Unauthorized),
                Some(artist_id) => if history.len() == 2 {
                    perform(CommandView::InsertArtistLike {
                        like: LikeArtistView { id: None, user_id: user, artist_id },
                    })
                } else if succeeded(history[2]) {
                    answer(Status::Success)
                } else {
                    answer(Status::Unauthorized)
                },
            }
        },
    }
}

/// Answers `DELETE /artists?artist_id=..` for the logged-in user: removes the
/// like (`history[1]`).
pub open spec fn dislike_artist_plan(header: Option<Seq<char>>, query: Seq<char>, history: Seq<OutcomeView>) -> StepView {
    match gate(header, history) {
        GateView::Decided(step) => step,
        GateView::Passed(user) => match query_value(query, "artist_id"@) {
            None => answer(Status::Unauthorized),
            Some(artist_id) => if history.len() == 1 {
                perform(CommandView::DeleteArtistLike { user_id: user, artist_id })
            } else if found(history[1]) {
                answer(Status::Success)
            } else {
                answer(Status::Unauthorized)
            },
        },
    }
}

/// Answers `GET /artists?user_id=..&artist_id=..`: whether the user likes
/// the artist (`history[0]`).
pub open spec fn is_like_artist_plan(query: Seq<char>, history: Seq<OutcomeView>) -> StepView {
    let user_text = query_value(query, "user_id"@);
    let artist_id = query_value(query, "artist_id"@);
    if user_text is Some && artist_id is Some && object_id_of(user_text->0) is Some {
        if history.len() == 0 {
            perform(CommandView::FindArtistLike {
                user_id: object_id_of(user_text->0)->0,
                artist_id: artist_id->0,
            })
        } else {
            answer_with(Status::Success, PayloadView::LikeState(found(history[0])))
        }
    } else {
        answer(Status::BadRequest)
    }
}

/// The artist identifiers of the run of artist likes that starts at
/// `history[from]`.
pub open spec fn artist_run(history: Seq<OutcomeView>, from: int) -> Seq<Seq<char>>
    decreases history.len() - from,
{
    if from < 0 || from >= history.len() {
        seq![]
    } else {
        match history[from] {
            OutcomeView::ArtistLike(l) => seq![l.artist_id] + artist_run(history, from + 1),
            _ => seq![],
        }
    }
}

/// The last (at most) ten entries, the last one first.
pub open spec fn latest_ten(ids: Seq<Seq<char>>) -> Seq<Seq<char>> {
    let k = if ids.len() < 10 { ids.len() } else { 10 };
    Seq::new(k, |i: int| ids[ids.len() - 1 - i])
}

/// Answers `GET /artists/{user_id}`: opens a cursor over the user's likes
/// of artists (`history[0]`), reads it to its end or first error
/// (`history[1..]`), and answers with the artists liked last, the last one
/// first, at most ten.
pub open spec fn get_liked_artists_plan(user_text: Option<Seq<char>>, history: Seq<OutcomeView>) -> StepView {
    if user_text is None || object_id_of(user_text->0) is None {
        answer(Status::BadRequest)
    } else if history.len() == 0 {
        perform(CommandView::FindArtistLikesOf { user_id: object_id_of(user_text->0)->0 })
    } else if !succeeded(history[0]) {
        answer(Status::BadRequest)
    } else {
        let run = artist_run(history, 1);
        if 1 + run.len() == history.len() {
            perform(CommandView::NextDocument)
        } else {
            answer_with(Status::Success, PayloadView::ArtistIds(latest_ten(run)))
        }
    }
}

pub fn like_artist(authorization: Option<&str>, query: &str, history: &[Outcome]) -> (res: Step)
    requires
        is_ascii_chars(query@),
    ensures
        res@ == like_artist_plan(authorization.deep_view(), query@, history.deep_view()),
{
    let user = match authenticate(authorization, history) {
        Gate::Decided(step) => return step,
        Gate::Passed(user) => user,
    };
    if history.len() == 1 {
        let role = "fan".to_owned();
        return Step::Perform(Command::FindUserWithRole { user_id: user, role });
    }
    if !is_found(&history[1]) {
        return respond(Status::Unauthorized);
    }
    let params = QueryParams::parse(query);
    match params.get("artist_id") {
        None => respond(Status::Unauthorized),
        Some(artist_id) => {
            if history.len() == 2 {
                Step::Perform(Command::InsertArtistLike {
                    like: LikeArtist { id: None, user_id: user, artist_id },
                })
            } else if is_success(&history[2]) {
                respond(Status::Success)
            } else {
                respond(Status::Unauthorized)
            }
        },
    }
}

pub fn dislike_artist(authorization: Option<&str>, query: &str, history: &[Outcome]) -> (res: Step)
    requires
        is_ascii_chars(query@),
    ensures
        res@ == dislike_artist_plan(authorization.deep_view(), query@, history.deep_view()),
{
    let user = match authenticate(authorization, history) {
        Gate::Decided(step) => return step,
        Gate::Passed(user) => user,
    };
    let params = QueryParams::parse(query);
    match params.get("artist_id") {
        None => respond(Status::Unauthorized),
        Some(artist_id) => {
            if history.len() == 1 {
                Step::Perform(Command::DeleteArtistLike { user_id: user, artist_id })
            } else if is_found(&history[1]) {
                respond(Status::Success)
            } else {
                respond(Status::Unauthorized)
            }
        },
    }
}

pub fn is_like_artist(query: &str, history: &[Outcome]) -> (res: Step)
    requires
        is_ascii_chars(query@),
    ensures
        res@ == is_like_artist_plan(query@, history.deep_view()),
{
    let params = QueryParams::parse(query);
    let user_text = params.get("user_id");
    let artist_id = params.get("artist_id");
    if let (Some(user_text), Some(artist_id)) = (user_text, artist_id) {
        if let Some(user_id) = ObjectId::parse(user_text.as_str()) {
            if history.len() == 0 {
                return Step::Perform(Command::FindArtistLike { user_id, artist_id });
            }
            return respond_with(Status::Success, Payload::LikeState(is_found(&history[0])));
        }
    }
    respond(Status::BadRequest)
}

/// The latest ten of a list, last first, taken from its end one by one.
fn take_latest_ten(likes: Vec<String>) -> (res: Vec<String>)
    ensures
        res.deep_view() == latest_ten(likes.deep_view()),
{
    let ghost all = likes.deep_view();
    let mut likes = likes;
    let mut response: Vec<String> = Vec::new();
    while likes.len() != 0 && response.len() < 10
        invariant
            response.len() <= 10,
            likes.len() + response.len() == all.len(),
            likes.deep_view() == all.subrange(0, likes.len() as int),
            forall|i: int| 0 <= i < response.len() ==> #[trigger] response.deep_view()[i] == all[all.len() - 1 - i],
        decreases likes.len(),
    {
        let ghost before = likes@;
        let ghost before_response = response.deep_view();
        let last = likes.pop().unwrap();
        proof {
            assert(last == before[likes.len() as int]);
            assert(all.subrange(0, likes.len() + 1)[likes.len() as int] == before[likes.len() as int]@);
            assert(last@ == all[likes.len() as int]);
        }
        response.push(last);
        assert(response.deep_view() =~= before_response.push(last@));
        assert(likes.deep_view() =~= all.subrange(0, likes.len() as int));
    }
    assert(response.deep_view() =~= latest_ten(all));
    response
}

pub fn get_liked_artists(user_id: Option<&str>, history: &[Outcome]) -> (res: Step)
    ensures
        res@ == get_liked_artists_plan(user_id.deep_view(), history.deep_view()),
{
    let user = match user_id {
        Some(text) => ObjectId::parse(text),
        None => None,
    };
    let user = match user {
        Some(u) => u,
        None => return respond(Status::BadRequest),
    };
    if history.len() == 0 {
        return Step::Perform(Command::FindArtistLikesOf { user_id: user });
    }
    if !is_success(&history[0]) {
        return respond(Status::BadRequest);
    }
    let ghost h = history.deep_view();
    let mut likes: Vec<String> = Vec::new();
    let mut i: usize = 1;
    loop
        invariant
            1 <= i <= history.len(),
            h == history.deep_view(),
            likes.deep_view() + artist_run(h, i as int) == artist_run(h, 1),
            likes.len() == i - 1,
        ensures
            likes.deep_view() == artist_run(h, 1),
            1 <= i <= history.len(),
            likes.len() == i - 1,
            i == history.len() || !(history.deep_view()[i as int] is ArtistLike),
        decreases history.len() - i,
    {
        if i == history.len() {
            assert(artist_run(h, i as int) =~= seq![]);
            assert(likes.deep_view() =~= likes.deep_view() + artist_run(h, i as int));
            break;
        }
        match &history[i] {
            Outcome::ArtistLike(l) => {
                likes.push(copy_text(&l.artist_id));
                assert(artist_run(h, i as int) == seq![l.artist_id@] + artist_run(h, i + 1));
                assert(likes.deep_view() + artist_run(h, i + 1) =~= artist_run(h, 1));
                i = i + 1;
            },
            _ => {
                assert(artist_run(h, i as int) =~= seq![]);
                assert(likes.deep_view() =~= likes.deep_view() + artist_run(h, i as int));
                break;
            },
        }
    }
    if i == history.len() {
        return Step::Perform(Command::NextDocument);
    }
    respond_with(Status::Success, Payload::ArtistIds(take_latest_ten(likes)))
}

/// The list of liked artists holds at most ten entries: the last ones
/// liked, the last one first; all of them when there are at most ten.
pub proof fn lemma_latest_ten(ids: Seq<Seq<char>>)
    ensures
        latest_ten(ids).len() <= 10,
        latest_ten(ids).len() == ids.len() || latest_ten(ids).len() == 10,
        ids.len() > 0 ==> latest_ten(ids)[0] == ids.last(),
        ids.len() <= 10 ==> latest_ten(ids) == ids.reverse(),
{
    if ids.len() <= 10 {
        assert(latest_ten(ids) =~= ids.reverse());
    }
}

/// A history that opens a cursor, yields these likes of artists, and then
/// has `tail` (which starts with something other than such a like, or is
/// empty).
pub open spec fn cursor_of_artist_likes(likes: Seq<LikeArtistView>, tail: Seq<OutcomeView>) -> Seq<OutcomeView> {
    seq![OutcomeView::Opened] + likes.map_values(|l: LikeArtistView| OutcomeView::ArtistLike(l)) + tail
}

proof fn lemma_artist_run_suffix(likes: Seq<LikeArtistView>, tail: Seq<OutcomeView>, k: int)
    requires
        1 <= k <= likes.len() + 1,
        tail.len() == 0 || !(tail[0] is ArtistLike),
    ensures
        artist_run(cursor_of_artist_likes(likes, tail), k) == likes.subrange(k - 1, likes.len() as int).map_values(
            |l: LikeArtistView| l.artist_id,
        ),
    decreases likes.len() + 1 - k,
{
    let h = cursor_of_artist_likes(likes, tail);
    if k <= likes.len() {
        lemma_artist_run_suffix(likes, tail, k + 1);
        assert(h[k] == OutcomeView::ArtistLike(likes[k - 1]));
        assert(likes.subrange(k - 1, likes.len() as int).map_values(|l: LikeArtistView| l.artist_id) =~= seq![
            likes[k - 1].artist_id,
        ] + likes.subrange(k, likes.len() as int).map_values(|l: LikeArtistView| l.artist_id));
    } else {
        if tail.len() > 0 {
            assert(h[k] == tail[0]);
        }
        assert(likes.subrange(k - 1, likes.len() as int).map_values(|l: LikeArtistView| l.artist_id)
            =~= Seq::<Seq<char>>::empty());
    }
}

/// Listing a user's liked artists: the cursor over the user's likes is
/// opened and read while it yields likes; once it ends or fails, the answer
/// is 200 with the artists of the last (at most) ten likes it yielded, the
/// last one first; a failure to open, or a malformed user, is 400.
pub proof fn lemma_liked_artists_listing(
    text: Seq<char>,
    user_id: Seq<u8>,
    likes: Seq<LikeArtistView>,
    end: OutcomeView,
)
    requires
        object_id_of(text) == Some(user_id),
        !(end is ArtistLike),
    ensures
        get_liked_artists_plan(Some(text), seq![]) == perform(CommandView::FindArtistLikesOf { user_id }),
        get_liked_artists_plan(Some(text), seq![OutcomeView::Failed]) == answer(Status::BadRequest),
        get_liked_artists_plan(None, seq![]) == answer(Status::BadRequest),
        get_liked_artists_plan(Some(text), cursor_of_artist_likes(likes, seq![])) == perform(
            CommandView::NextDocument,
        ),
        ({
            let step = get_liked_artists_plan(Some(text), cursor_of_artist_likes(likes, seq![end]));
            let n = likes.len();
            &&& step is Respond
            &&& step->Respond_0.status == Status::Success
            &&& step->Respond_0.payload is ArtistIds
            &&& step->Respond_0.payload->ArtistIds_0.len() == (if n < 10 { n } else { 10 })
            &&& forall|i: int|
                0 <= i < step->Respond_0.payload->ArtistIds_0.len() ==> #[trigger] step->Respond_0.payload->ArtistIds_0[i]
                    == likes[n - 1 - i].artist_id
        }),
{
    lemma_artist_run_suffix(likes, seq![], 1);
    lemma_artist_run_suffix(likes, seq![end], 1);
    assert(likes.subrange(0, likes.len() as int) =~= likes);
}

/// Liking an artist: the session is looked up, the session's user must be
/// a fan, and then the like of the named artist by that user is stored;
/// 200 when stored, 401 when not a fan, when the store fails, or when no
/// artist is named.
pub proof fn lemma_artist_liking(
    header: Option<Seq<char>>,
    query: Seq<char>,
    session_id: Seq<u8>,
    artist_id: Seq<char>,
    session: SessionView,
    fan: UserView,
    none: OutcomeView,
    stored: OutcomeView,
)
    requires
        header_session_id(header) == Some(session_id),
        query_value(query, "artist_id"@) == Some(artist_id),
        none is Missing || none is Failed,
        !(stored is Failed),
    ensures
        like_artist_plan(header, query, seq![]) == perform(CommandView::FindSession { session_id }),
        like_artist_plan(header, query, seq![OutcomeView::Session(session)]) == perform(
            CommandView::FindUserWithRole { user_id: session.user_id, role: "fan"@ },
        ),
        like_artist_plan(header, query, seq![OutcomeView::Session(session), none]) == answer(
            Status::Unauthorized,
        ),
        like_artist_plan(header, query, seq![OutcomeView::Session(session), OutcomeView::User(fan)]) == perform(
            CommandView::InsertArtistLike {
                like: LikeArtistView { id: None, user_id: session.user_id, artist_id },
            },
        ),
        like_artist_plan(header, query, seq![OutcomeView::Session(session), OutcomeView::User(fan), stored])
            == answer(Status::Success),
        like_artist_plan(
            header,
            query,
            seq![OutcomeView::Session(session), OutcomeView::User(fan), OutcomeView::Failed],
        ) == answer(Status::Unauthorized),
{
}

/// Unliking an artist removes the session user's like of the named artist:
/// 200 when there was one, 401 otherwise.
pub proof fn lemma_artist_unliking(
    header: Option<Seq<char>>,
    query: Seq<char>,
    session_id: Seq<u8>,
    artist_id: Seq<char>,
    session: SessionView,
    removed: LikeArtistView,
    none: OutcomeView,
)
    requires
        header_session_id(header) == Some(session_id),
        query_value(query, "artist_id"@) == Some(artist_id),
        none is Missing || none is Failed,
    ensures
        dislike_artist_plan(header, query, seq![OutcomeView::Session(session)]) == perform(
            CommandView::DeleteArtistLike { user_id: session.user_id, artist_id },
        ),
        dislike_artist_plan(header, query, seq![OutcomeView::Session(session), OutcomeView::ArtistLike(removed)])
            == answer(Status::Success),
        dislike_artist_plan(header, query, seq![OutcomeView::Session(session), none]) == answer(
            Status::Unauthorized,
        ),
{
}

/// Asking whether a user likes an artist: the like is looked up and the
/// answer is 200 with whether it was found; a malformed user is 400.
pub proof fn lemma_artist_like_question(
    query: Seq<char>,
    user_text: Seq<char>,
    user_id: Seq<u8>,
    artist_id: Seq<char>,
    like: LikeArtistView,
    other: OutcomeView,
)
    requires
        query_value(query, "user_id"@) == Some(user_text),
        query_value(query, "artist_id"@) == Some(artist_id),
        other is Missing || other is Failed,
    ensures
        object_id_of(user_text) == Some(user_id) ==> {
            &&& is_like_artist_plan(query, seq![]) == perform(CommandView::FindArtistLike { user_id, artist_id })
            &&& is_like_artist_plan(query, seq![OutcomeView::ArtistLike(like)]) == answer_with(
                Status::Success,
                PayloadView::LikeState(true),
            )
            &&& is_like_artist_plan(query, seq![other]) == answer_with(Status::Success, PayloadView::LikeState(false))
        },
        object_id_of(user_text) is None ==> is_like_artist_plan(query, seq![]) == answer(Status::BadRequest),
{
}

} // verus!
