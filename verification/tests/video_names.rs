use media_recommendation_engine::media_path::{MediaPath, PathComponent};
use media_recommendation_engine::video_name::{
    infer_from_video_filename, infer_from_video_path, NameClassification, PathClassification,
};

fn path(text: &str) -> MediaPath {
    let mut components = Vec::new();
    if text.starts_with('/') {
        components.push(PathComponent::Other);
    }
    for part in text.split('/').filter(|p| !p.is_empty()) {
        components.push(PathComponent::Normal(part.to_string()));
    }
    MediaPath { text: text.to_string(), components }
}

fn text(v: &[char]) -> String {
    v.iter().collect()
}

fn opt(v: Option<Vec<char>>) -> Option<String> {
    v.map(|x| text(&x))
}

#[test]
fn one_word_titles_are_read() {
    match infer_from_video_filename(&path("Pilot - s01e01.mp4")) {
        NameClassification::Episode { title, season, episode, part } => {
            assert_eq!(text(&title), "Pilot");
            assert_eq!((season, episode, part), (Some(1), Some(1), None));
        }
        _ => panic!("expected an episode"),
    }
    match infer_from_video_filename(&path("/films/Inception.mp4")) {
        NameClassification::Movie { title, part } => {
            assert_eq!(text(&title), "Inception");
            assert_eq!(part, None);
        }
        _ => panic!("expected a movie"),
    }
    match infer_from_video_filename(&path("/films/Amélie Émile.mp4")) {
        NameClassification::Movie { title, .. } => assert_eq!(text(&title), "Amélie Émile"),
        _ => panic!("expected a movie"),
    }
}

#[test]
fn year_drops_and_words_rejoin_with_single_spaces() {
    match infer_from_video_filename(&path("/films/The  Big   Lebowski (1998).mp4")) {
        NameClassification::Movie { title, .. } => assert_eq!(text(&title), "The Big Lebowski"),
        _ => panic!("expected a movie"),
    }
    match infer_from_video_filename(&path("/films/The  Big Movie.mp4")) {
        NameClassification::Movie { title, .. } => assert_eq!(text(&title), "The  Big Movie"),
        _ => panic!("expected a movie"),
    }
}

#[test]
fn most_verbose_episode_path() {
    match infer_from_video_path(&path("Breaking Bad/Season 1/First Season/Episode 1/Pilot/Pilot - s01e01.mp4")) {
        PathClassification::Episode { episode_title, episode, season_title, season, series_title, .. } => {
            assert_eq!(opt(episode_title), Some("Pilot".to_string()));
            assert_eq!(episode, Some(1));
            assert_eq!(opt(season_title), Some("First Season".to_string()));
            assert_eq!(season, Some(1));
            assert_eq!(opt(series_title), Some("Breaking Bad".to_string()));
        }
        _ => panic!("expected an episode"),
    }
}

#[test]
fn directory_numbers_allow_any_whitespace() {
    match infer_from_video_path(&path("Show/Season  2/Title/Episode3/Clip.mp4")) {
        PathClassification::Episode { episode_title, episode, season_title, season, series_title, .. } => {
            assert_eq!(episode, Some(3));
            assert_eq!(season, Some(2));
            assert_eq!(opt(episode_title), Some("Clip".to_string()));
            assert_eq!(opt(season_title), Some("Title".to_string()));
            assert_eq!(opt(series_title), Some("Show".to_string()));
        }
        _ => panic!("expected an episode"),
    }
}

#[test]
fn a_path_without_a_file_name_is_a_movie() {
    assert!(matches!(infer_from_video_path(&path("/")), PathClassification::Movie { franchise: None }));
}

#[test]
fn movie_file_name_drops_the_year() {
    match infer_from_video_filename(&path("/Movies/Heat (1995).mp4")) {
        NameClassification::Movie { title, part } => {
            assert_eq!(text(&title), "Heat");
            assert_eq!(part, None);
        }
        _ => panic!("expected a movie"),
    }
}

#[test]
fn episode_file_name_reads_the_metadata() {
    match infer_from_video_filename(&path("/Show/The Show - s01e02p3.mp4")) {
        NameClassification::Episode { title, season, episode, part } => {
            assert_eq!(text(&title), "The Show");
            assert_eq!(season, Some(1));
            assert_eq!(episode, Some(2));
            assert_eq!(part, Some(3));
        }
        _ => panic!("expected an episode"),
    }
}

#[test]
fn episode_path_names_series_and_season() {
    match infer_from_video_path(&path("/Series/Season 1/Show Name - s01e03.mp4")) {
        PathClassification::Episode {
            episode_title,
            episode,
            season_title,
            season,
            series_title,
            franchise,
        } => {
            assert!(episode_title.is_none());
            assert_eq!(episode, Some(3));
            assert_eq!(text(&season_title.unwrap()), "Show Name");
            assert_eq!(season, Some(1));
            assert_eq!(text(&series_title.unwrap()), "Series");
            assert_eq!(text(&franchise.unwrap()), "Series");
        }
        _ => panic!("expected an episode"),
    }
}

#[test]
fn movie_path_finds_its_franchise() {
    match infer_from_video_path(&path("/Movies/Heat/Heat (1995).mp4")) {
        PathClassification::Movie { franchise } => {
            assert_eq!(text(&franchise.unwrap()), "Heat");
        }
        _ => panic!("expected a movie"),
    }
}

use media_recommendation_engine::video_name::{
    episode_write, merge_episode, movie_franchise, part_reference, EpisodeWrite, PartReference,
};

fn v(s: &str) -> Vec<char> {
    s.chars().collect()
}

#[test]
fn movie_franchise_from_path_or_title() {
    let with = PathClassification::Movie { franchise: Some(v("Saga")) };
    assert_eq!(text(&movie_franchise(v("Part One"), with)), "Saga");
    let without = PathClassification::Movie { franchise: None };
    assert_eq!(text(&movie_franchise(v("Part One"), without)), "Part One");
}

#[test]
fn episode_numbers_from_name_titles_from_path() {
    let path = PathClassification::Episode {
        episode_title: Some(v("Pilot")),
        episode: Some(9),
        season_title: Some(v("First")),
        season: Some(4),
        series_title: Some(v("Show")),
        franchise: None,
    };
    let e = merge_episode(Some(1), None, Some(2), path);
    assert_eq!(e.season, Some(1));
    assert_eq!(e.episode, Some(9));
    assert_eq!(e.part, Some(2));
    assert_eq!(text(&e.episode_title.unwrap()), "Pilot");
    assert_eq!(text(&e.season_title.unwrap()), "First");
    assert_eq!(text(&e.series_title.unwrap()), "Show");
    assert_eq!(text(&e.franchise.unwrap()), "Show");
    let e = merge_episode(Some(1), Some(3), None, PathClassification::Movie { franchise: Some(v("F")) });
    assert_eq!(e.episode, Some(3));
    assert!(e.franchise.is_none());
    assert!(e.series_title.is_none());
}

#[test]
fn parts_and_episode_writes() {
    assert_eq!(part_reference(Some(2), 7), PartReference::Multipart { part: 2 });
    assert_eq!(part_reference(None, 7), PartReference::Direct { data_id: 7 });
    assert_eq!(part_reference(None, 7).flag(), 0);
    assert_eq!(part_reference(Some(1), 7).flag(), 1);
    assert_eq!(episode_write(None), EpisodeWrite::Insert);
    assert_eq!(episode_write(Some((1, 2, 0))), EpisodeWrite::MakeMultipart { id: 1, video_id: 2 });
    assert_eq!(episode_write(Some((1, 2, 1))), EpisodeWrite::JoinMultipart { video_id: 2 });
    assert_eq!(episode_write(Some((1, 2, 5))), EpisodeWrite::Keep);
}
