use media_recommendation_engine::recommendation::{
    pick_random, random_recommendation, recommend_start, recommend_step, RecommendAction,
    RecommendAnswer, RecommendError, RecommendQuery, RecommendState, Recommendation,
    RecommendationPopup,
};

fn title_of(action: &RecommendAction) -> Option<(u64, String)> {
    match action {
        RecommendAction::Recommend(Recommendation { id, title }) => Some((*id, title.clone())),
        _ => None,
    }
}

#[test]
fn random_pick_between_episode_and_movie() {
    let ep = Some((4, "Pilot".to_string(), 1));
    let mv = Some((9, "Heat".to_string()));
    let r = pick_random(ep.clone(), mv.clone(), 0).ok().unwrap();
    assert_eq!((r.id, r.title.as_str()), (4, "Pilot - Episode 1"));
    let r = pick_random(ep.clone(), mv.clone(), 1).ok().unwrap();
    assert_eq!((r.id, r.title.as_str()), (9, "Heat"));
    let r = pick_random(ep.clone(), None, 1).ok().unwrap();
    assert_eq!(r.title, "Pilot - Episode 1");
    let r = pick_random(None, mv.clone(), 0).ok().unwrap();
    assert_eq!(r.id, 9);
    assert!(matches!(pick_random(None, None, 0), Err(RecommendError::NothingToRecommend)));
    let r = random_recommendation(ep, mv).ok().unwrap();
    assert!(r.id == 4 || r.id == 9);
}

#[test]
fn next_episode_of_the_season() {
    let (state, query) = recommend_start(17);
    assert_eq!(query, RecommendQuery::Position { content_id: 17 });
    let (state, action) = recommend_step(
        state,
        RecommendAnswer::Position { episode: Some(3), season: Some((40, 2, "Arc".to_string())) },
    );
    assert!(matches!(action, RecommendAction::Query(RecommendQuery::Episode { season_id: 40, episode: 4 })));
    let (_, action) = recommend_step(state, RecommendAnswer::Episode(Some((18, "Show".to_string(), 4))));
    assert_eq!(title_of(&action), Some((18, "Show - Arc - Season 2 - Episode 4".to_string())));
}

#[test]
fn first_episode_of_the_next_season() {
    let (state, _) = recommend_start(17);
    let (state, _) = recommend_step(
        state,
        RecommendAnswer::Position { episode: Some(10), season: Some((40, 2, "Arc".to_string())) },
    );
    let (state, action) = recommend_step(state, RecommendAnswer::Episode(None));
    assert!(matches!(action, RecommendAction::Query(RecommendQuery::Series { season_id: 40 })));
    let (state, action) = recommend_step(state, RecommendAnswer::Series(Some(5)));
    assert!(matches!(action, RecommendAction::Query(RecommendQuery::Season { series_id: 5, season: 3 })));
    let (state, action) = recommend_step(state, RecommendAnswer::Season(Some(41)));
    assert!(matches!(action, RecommendAction::Query(RecommendQuery::FirstEpisode { season_id: 41 })));
    let (_, action) = recommend_step(state, RecommendAnswer::FirstEpisode(Some((50, "Show".to_string()))));
    assert_eq!(title_of(&action), Some((50, "Show - Episode 1".to_string())));
}

#[test]
fn missing_information_falls_back_to_random() {
    let (state, _) = recommend_start(1);
    let (_, action) = recommend_step(state, RecommendAnswer::Position { episode: None, season: None });
    assert!(matches!(action, RecommendAction::Random));
    let (state, _) = recommend_start(1);
    let (state, _) = recommend_step(
        state,
        RecommendAnswer::Position { episode: Some(1), season: Some((2, 1, "S".to_string())) },
    );
    let (state, _) = recommend_step(state, RecommendAnswer::Episode(None));
    let (_, action) = recommend_step(state, RecommendAnswer::Series(None));
    assert!(matches!(action, RecommendAction::Random));
    let s = RecommendState::AwaitSeason { season: 1 };
    let (_, action) = recommend_step(s, RecommendAnswer::Season(None));
    assert!(matches!(action, RecommendAction::Random));
    let (_, action) = recommend_step(RecommendState::AwaitFirstEpisode, RecommendAnswer::FirstEpisode(None));
    assert!(matches!(action, RecommendAction::Random));
}

#[test]
fn popup_for_a_recommendation() {
    let p = RecommendationPopup::from_recommendation(Recommendation { id: 3, title: "T".to_string() });
    assert_eq!(p.id, 3);
    assert_eq!(p.title, "T");
    assert_eq!(p.image, "");
}
