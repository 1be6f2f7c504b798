//! What to watch next: the next episode of the season, the first episode of
//! the next season, or else a random episode or movie. The library decides;
//! the database lookups are made by the caller, one query at a time.
use vstd::prelude::*;
use crate::text::{decimal, push_chars, push_decimal, string_from_chars, to_chars};
use crate::text::push_str;
use crate::random::pseudo_random_range;

verus! {

/// A recommended content item and the title to show for it.
pub struct Recommendation {
    pub id: u64,
    pub title: String,
}

/// Why no recommendation could be made.
#[derive(Clone, Copy, PartialEq, Eq, Structural, Debug)]
pub enum RecommendError {
    /// The database holds neither an episode nor a movie.
    NothingToRecommend,
}

/// `<title> - Episode <episode>`.
pub open spec fn episode_title(title: Seq<char>, episode: u64) -> Seq<char> {
    title + " - Episode "@ + decimal(episode as nat)
}

/// `<title> - <season title> - Season <season> - Episode <episode>`.
pub open spec fn next_episode_title(
    title: Seq<char>,
    season_title: Seq<char>,
    season: u64,
    episode: u64,
) -> Seq<char> {
    title + " - "@ + season_title + " - Season "@ + decimal(season as nat) + " - Episode "@
        + decimal(episode as nat)
}

fn make_episode_title(title: &str, episode: u64) -> (r: String)
    ensures
        r@ == episode_title(title@, episode),
{
    let mut out: Vec<char> = Vec::new();
    push_str(&mut out, title);
    push_str(&mut out, " - Episode ");
    push_decimal(&mut out, episode);
    string_from_chars(out.as_slice())
}

/// The recommendation made from a random episode and a random movie, where
/// the database has them; `random` picks between the two when both exist:
/// `0` picks the episode, any other value the movie.
pub fn pick_random(
    episode: Option<(u64, String, u64)>,
    movie: Option<(u64, String)>,
    random: u32,
) -> (r: Result<Recommendation, RecommendError>)
    ensures
        match (episode, movie) {
            (None, None) => r == Err::<Recommendation, RecommendError>(
                RecommendError::NothingToRecommend,
            ),
            (Some(e), None) => r matches Ok(rec) && rec.id == e.0 && rec.title@ == episode_title(
                e.1@,
                e.2,
            ),
            (None, Some(m)) => r matches Ok(rec) && rec.id == m.0 && rec.title@ == m.1@,
            (Some(e), Some(m)) => if random == 0 {
                r matches Ok(rec) && rec.id == e.0 && rec.title@ == episode_title(e.1@, e.2)
            } else {
                r matches Ok(rec) && rec.id == m.0 && rec.title@ == m.1@
            },
        },
{
    match (episode, movie) {
        (Some((id, title, number)), None) => Ok(
            Recommendation { id, title: make_episode_title(title.as_str(), number) },
        ),
        (None, Some((id, title))) => Ok(Recommendation { id, title }),
        (None, None) => Err(RecommendError::NothingToRecommend),
        (Some((episode_id, episode_title, number)), Some((movie_id, movie_title))) => {
            if random == 0 {
                Ok(
                    Recommendation {
                        id: episode_id,
                        title: make_episode_title(episode_title.as_str(), number),
                    },
                )
            } else {
                Ok(Recommendation { id: movie_id, title: movie_title })
            }
        },
    }
}

/// A random pick between a random episode and a random movie: with both
/// present, either one is recommended.
pub fn random_recommendation(episode: Option<(u64, String, u64)>, movie: Option<(u64, String)>) -> (r:
    Result<Recommendation, RecommendError>)
    ensures
        match (episode, movie) {
            (None, None) => r == Err::<Recommendation, RecommendError>(
                RecommendError::NothingToRecommend,
            ),
            (Some(e), None) => r matches Ok(rec) && rec.id == e.0 && rec.title@ == episode_title(
                e.1@,
                e.2,
            ),
            (None, Some(m)) => r matches Ok(rec) && rec.id == m.0 && rec.title@ == m.1@,
            (Some(e), Some(m)) => r matches Ok(rec) && ((rec.id == e.0 && rec.title@
                == episode_title(e.1@, e.2)) || (rec.id == m.0 && rec.title@ == m.1@)),
        },
{
    let random = if episode.is_some() && movie.is_some() {
        pseudo_random_range(0, 2)
    } else {
        0
    };
    pick_random(episode, movie, random)
}

/// A database lookup that the recommendation needs next.
#[derive(Clone, Copy, PartialEq, Eq, Structural, Debug)]
pub enum RecommendQuery {
    /// The episode number of the content, and the season that holds it.
    Position { content_id: u64 },
    /// The episode with the given number in the season.
    Episode { season_id: u64, episode: u64 },
    /// The series that holds the season.
    Series { season_id: u64 },
    /// The season with the given number in the series.
    Season { series_id: u64, season: u64 },
    /// The first episode of the season.
    FirstEpisode { season_id: u64 },
}

/// The answer to a lookup, in the order of `RecommendQuery`'s variants.
pub enum RecommendAnswer {
    /// The episode number, and the season's collection id, number and title.
    Position { episode: Option<u64>, season: Option<(u64, u64, String)> },
    /// The episode's content id, title and number.
    Episode(Option<(u64, String, u64)>),
    /// The series' collection id.
    Series(Option<u64>),
    /// The season's collection id.
    Season(Option<u64>),
    /// The episode's content id and title.
    FirstEpisode(Option<(u64, String)>),
}

/// Where the recommendation stands: which lookup it waits for, and what it
/// knows of the watched episode's season.
pub enum RecommendState {
    AwaitPosition,
    AwaitEpisode { season_id: u64, season: u64, season_title: String },
    AwaitSeries { season_id: u64, season: u64 },
    AwaitSeason { season: u64 },
    AwaitFirstEpisode,
}

/// What to do after an answer: make another lookup, recommend, or fall
/// back to a random pick.
pub enum RecommendAction {
    Query(RecommendQuery),
    Recommend(Recommendation),
    Random,
}

/// Whether `answer` answers the lookup that `state` waits for.
pub open spec fn answers(state: RecommendState, answer: RecommendAnswer) -> bool {
    match state {
        RecommendState::AwaitPosition => answer is Position,
        RecommendState::AwaitEpisode { .. } => answer is Episode,
        RecommendState::AwaitSeries { .. } => answer is Series,
        RecommendState::AwaitSeason { .. } => answer is Season,
        RecommendState::AwaitFirstEpisode => answer is FirstEpisode,
    }
}

/// Whether the numbers in the answer leave room for the next one: the
/// database stores them as signed 64-bit values, so this always holds.
pub open spec fn numbers_in_range(answer: RecommendAnswer) -> bool {
    match answer {
        RecommendAnswer::Position { episode, season } => (episode matches Some(e) ==> e
            < u64::MAX) && (season matches Some(s) ==> s.1 < u64::MAX),
        _ => true,
    }
}

/// How far the lookups have come; every further lookup moves forward, so
/// a recommendation takes at most five lookups.
pub open spec fn stage(state: RecommendState) -> int {
    match state {
        RecommendState::AwaitPosition => 0,
        RecommendState::AwaitEpisode { .. } => 1,
        RecommendState::AwaitSeries { .. } => 2,
        RecommendState::AwaitSeason { .. } => 3,
        RecommendState::AwaitFirstEpisode => 4,
    }
}

/// The season number a state carries leaves room for the next season.
pub open spec fn state_in_range(state: RecommendState) -> bool {
    match state {
        RecommendState::AwaitEpisode { season, .. } => season < u64::MAX,
        RecommendState::AwaitSeries { season, .. } => season < u64::MAX,
        RecommendState::AwaitSeason { season } => season < u64::MAX,
        _ => true,
    }
}

/// The first lookup for the content that was watched.
pub fn recommend_start(content_id: u64) -> (r: (RecommendState, RecommendQuery))
    ensures
        r.0 is AwaitPosition,
        r.1 == (RecommendQuery::Position { content_id }),
{
    (RecommendState::AwaitPosition, RecommendQuery::Position { content_id })
}

/// One step of the recommendation. With the watched episode's number and
/// season known, the next episode of the season is recommended; without
/// it, the first episode of the next season of the same series; whenever
/// something is missing on the way, a random pick.
pub fn recommend_step(state: RecommendState, answer: RecommendAnswer) -> (r: (
    RecommendState,
    RecommendAction,
))
    requires
        answers(state, answer),
        numbers_in_range(answer),
        state_in_range(state),
    ensures
        state_in_range(r.0),
        r.1 is Query ==> stage(r.0) > stage(state),
        match (state, answer) {
            (RecommendState::AwaitPosition, RecommendAnswer::Position { episode, season }) => match (
                season,
                episode,
            ) {
                (Some(s), Some(e)) => {
                    &&& r.0 matches RecommendState::AwaitEpisode { season_id, season, season_title }
                        && season_id == s.0 && season == s.1 && season_title@ == s.2@
                    &&& r.1 == RecommendAction::Query(
                        RecommendQuery::Episode { season_id: s.0, episode: (e + 1) as u64 },
                    )
                },
                _ => r.1 is Random,
            },
            (
                RecommendState::AwaitEpisode { season_id, season, season_title },
                RecommendAnswer::Episode(found),
            ) => match found {
                Some(ep) => r.1 matches RecommendAction::Recommend(rec) && rec.id == ep.0
                    && rec.title@ == next_episode_title(ep.1@, season_title@, season, ep.2),
                None => {
                    &&& r.0 == (RecommendState::AwaitSeries { season_id, season })
                    &&& r.1 == RecommendAction::Query(RecommendQuery::Series { season_id })
                },
            },
            (RecommendState::AwaitSeries { season_id, season }, RecommendAnswer::Series(found)) => match found {
                Some(series_id) => {
                    &&& r.0 == (RecommendState::AwaitSeason { season })
                    &&& r.1 == RecommendAction::Query(
                        RecommendQuery::Season { series_id, season: (season + 1) as u64 },
                    )
                },
                None => r.1 is Random,
            },
            (RecommendState::AwaitSeason { season }, RecommendAnswer::Season(found)) => match found {
                Some(next_season) => {
                    &&& r.0 is AwaitFirstEpisode
                    &&& r.1 == RecommendAction::Query(
                        RecommendQuery::FirstEpisode { season_id: next_season },
                    )
                },
                None => r.1 is Random,
            },
            (RecommendState::AwaitFirstEpisode, RecommendAnswer::FirstEpisode(found)) => match found {
                Some(ep) => r.1 matches RecommendAction::Recommend(rec) && rec.id == ep.0
                    && rec.title@ == ep.1@ + " - Episode 1"@,
                None => r.1 is Random,
            },
            _ => false,
        },
{
    match (state, answer) {
        (RecommendState::AwaitPosition, RecommendAnswer::Position { episode, season }) => {
            match (season, episode) {
                (Some((season_id, season, season_title)), Some(e)) => (
                    RecommendState::AwaitEpisode { season_id, season, season_title },
                    RecommendAction::Query(RecommendQuery::Episode { season_id, episode: e + 1 }),
                ),
                _ => (RecommendState::AwaitPosition, RecommendAction::Random),
            }
        },
        (
            RecommendState::AwaitEpisode { season_id, season, season_title },
            RecommendAnswer::Episode(found),
        ) => match found {
            Some((id, title, episode)) => {
                let mut out: Vec<char> = Vec::new();
                push_str(&mut out, title.as_str());
                push_str(&mut out, " - ");
                let st = to_chars(season_title.as_str());
                push_chars(&mut out, st.as_slice());
                push_str(&mut out, " - Season ");
                push_decimal(&mut out, season);
                push_str(&mut out, " - Episode ");
                push_decimal(&mut out, episode);
                let rec = Recommendation { id, title: string_from_chars(out.as_slice()) };
                (RecommendState::AwaitSeries { season_id, season }, RecommendAction::Recommend(rec))
            },
            None => (
                RecommendState::AwaitSeries { season_id, season },
                RecommendAction::Query(RecommendQuery::Series { season_id }),
            ),
        },
        (RecommendState::AwaitSeries { season_id, season }, RecommendAnswer::Series(found)) => {
            match found {
                Some(series_id) => (
                    RecommendState::AwaitSeason { season },
                    RecommendAction::Query(RecommendQuery::Season { series_id, season: season + 1 }),
                ),
                None => (RecommendState::AwaitSeries { season_id, season }, RecommendAction::Random),
            }
        },
        (RecommendState::AwaitSeason { season }, RecommendAnswer::Season(found)) => match found {
            Some(next_season) => (
                RecommendState::AwaitFirstEpisode,
                RecommendAction::Query(RecommendQuery::FirstEpisode { season_id: next_season }),
            ),
            None => (RecommendState::AwaitSeason { season }, RecommendAction::Random),
        },
        (RecommendState::AwaitFirstEpisode, RecommendAnswer::FirstEpisode(found)) => match found {
            Some((id, title)) => {
                let mut out: Vec<char> = Vec::new();
                push_str(&mut out, title.as_str());
                push_str(&mut out, " - Episode 1");
                (
                    RecommendState::AwaitFirstEpisode,
                    RecommendAction::Recommend(
                        Recommendation { id, title: string_from_chars(out.as_slice()) },
                    ),
                )
            },
            None => (RecommendState::AwaitFirstEpisode, RecommendAction::Random),
        },
        _ => {
            proof {
                assert(false);
            }
            (RecommendState::AwaitFirstEpisode, RecommendAction::Random)
        },
    }
}

/// The popup that offers the recommendation at the end of a video.
pub struct RecommendationPopup {
    pub id: u64,
    pub image: String,
    pub title: String,
}

impl RecommendationPopup {
    /// The popup for a recommendation, without a picture yet.
    pub fn from_recommendation(rec: Recommendation) -> (r: Self)
        ensures
            r.id == rec.id,
            r.title@ == rec.title@,
            r.image@ == Seq::<char>::empty(),
    {
        RecommendationPopup { id: rec.id, image: String::new(), title: rec.title }
    }
}

} // verus!
