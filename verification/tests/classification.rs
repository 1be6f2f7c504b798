use media_recommendation_engine::classify::{
    classify, merge_hints, strip_info, strip_year, Classification, ClassificationCategory,
    ClassifyError, CollectionHint, Franchise, Series,
};
use media_recommendation_engine::db_types::{CollectionType, ContentType, TableId};
use media_recommendation_engine::media_path::{file_type, FileType, MediaPath, PathComponent};

fn path(text: &str) -> MediaPath {
    let mut components = Vec::new();
    if text.starts_with('/') {
        components.push(PathComponent::Other);
    }
    for part in text.split('/').filter(|p| !p.is_empty()) {
        components.push(PathComponent::Normal(part.to_string()));
    }
    MediaPath { text: text.to_string(), components }
}

fn chars(s: &str) -> Vec<char> {
    s.chars().collect()
}

fn text(v: &[char]) -> String {
    v.iter().collect()
}

#[test]
fn strip_info_reads_season_episode_and_part() {
    let (title, info) = strip_info(&chars("Show - s02e05p1"));
    assert_eq!(text(&title), "Show");
    assert_eq!(info.season, Some(2));
    assert_eq!(info.episode, Some(5));
    assert_eq!(info.part, Some(1));
}

#[test]
fn strip_info_without_dash_keeps_title() {
    let (title, info) = strip_info(&chars("Plain Title"));
    assert_eq!(text(&title), "Plain Title");
    assert_eq!(info.season, None);
    assert_eq!(info.episode, None);
    assert_eq!(info.part, None);
}

#[test]
fn strip_year_drops_year_in_brackets() {
    let (title, year) = strip_year(&chars("Heat (1995)"));
    assert_eq!(text(&title), "Heat ");
    assert_eq!(year, Some(1995));
    let (title, year) = strip_year(&chars("Heat (nineties)"));
    assert_eq!(text(&title), "Heat (nineties)");
    assert_eq!(year, None);
}

#[test]
fn file_types_by_extension() {
    assert_eq!(file_type(&path("/a/b.mp4")), Some(FileType::Video));
    assert_eq!(file_type(&path("/a/b.mp3")), Some(FileType::Audio));
    assert_eq!(file_type(&path("/a/b.txt")), Some(FileType::Unknown));
    assert_eq!(file_type(&path("/a/README")), None);
}

#[test]
fn episode_in_season_directory() {
    let c = classify(
        &path("/media/Franchise X/Season 2 - Arc/Show - s02e05.mp4"),
        CollectionHint::NoHint,
    )
    .ok()
    .unwrap();
    assert_eq!(c.title, "Show");
    assert_eq!(c.part, 0);
    assert_eq!(c.category, ClassificationCategory::Episode { episode: 5 });
    assert_eq!(c.content_type(), ContentType::Episode);
    match c.collectionhint {
        CollectionHint::Season(s) => {
            assert_eq!(s.title, "Arc");
            assert_eq!(s.season, 2);
            let series = s.series.unwrap();
            assert_eq!(series.title, "Franchise X");
            assert_eq!(series.franchise.unwrap().title, "media");
        }
        _ => panic!("expected a season hint"),
    }
}

#[test]
fn movie_in_its_own_directory() {
    let c = classify(&path("/films/Heat/Heat (1995).mp4"), CollectionHint::NoHint).ok().unwrap();
    assert_eq!(c.title, "Heat ");
    assert_eq!(c.category, ClassificationCategory::Movie);
    match c.collectionhint {
        CollectionHint::Movie(m) => {
            assert_eq!(m.title, "Heat ");
            assert_eq!(m.franchise.unwrap().title, "Heat");
        }
        _ => panic!("expected a movie hint"),
    }
}

#[test]
fn theme_song_becomes_theme_target() {
    let c = classify(&path("/music/Main theme.mp3"), CollectionHint::NoHint).ok().unwrap();
    assert_eq!(c.title, "Main theme");
    assert_eq!(c.category, ClassificationCategory::Song);
    match c.collectionhint {
        CollectionHint::ThemeTarget { inner } => assert!(matches!(*inner, CollectionHint::NoHint)),
        _ => panic!("expected a theme target"),
    }
}

#[test]
fn unknown_and_extensionless_files() {
    let c = classify(&path("/x/readme.txt"), CollectionHint::NoHint).ok().unwrap();
    assert_eq!(c.title, "");
    assert_eq!(c.category, ClassificationCategory::Other);
    assert!(matches!(c.collectionhint, CollectionHint::NoHint));
    let c = classify(&path("/x/README"), CollectionHint::NoHint).ok().unwrap();
    assert_eq!(c.title, "README");
    assert_eq!(c.category, ClassificationCategory::Other);
}

#[test]
fn season_without_number_is_an_error() {
    let r = classify(&path("/show/Season x/ep.mp4"), CollectionHint::NoHint);
    match r {
        Err(ClassifyError::SeasonNumber { directory }) => assert_eq!(directory, "Season x"),
        Ok(_) => panic!("a season without a number was classified"),
    }
}

#[test]
fn season_error_names_the_directory() {
    let r = classify(&path("Show/Season/ep - s01e01.mp4"), CollectionHint::NoHint);
    match r {
        Err(e) => {
            assert_eq!(e.message(), "Failed to parse season number from \"Season\"");
        },
        Ok(_) => panic!("a season without a number was classified"),
    }
}

#[test]
fn database_hint_used_when_path_has_none() {
    let c = classify(
        &path("/stuff/Some Movie.mp4"),
        CollectionHint::franchise("Known".to_string()),
    )
    .ok()
    .unwrap();
    match c.collectionhint {
        CollectionHint::Franchise(f) => assert_eq!(f.title, "Known"),
        _ => panic!("expected the database's franchise"),
    }
}

#[test]
fn merging_prefers_the_more_specific_hint() {
    let franchise = CollectionHint::franchise("F".to_string());
    let season = CollectionHint::season("S".to_string(), 1, None);
    match merge_hints(franchise, season) {
        CollectionHint::Season(s) => assert_eq!(s.title, "S"),
        _ => panic!("expected the season"),
    }
    let series = CollectionHint::series("A".to_string(), Some(Franchise { title: "F".to_string() }));
    let other_series = CollectionHint::series("B".to_string(), None);
    match merge_hints(series, other_series) {
        CollectionHint::Series(Series { title, .. }) => assert_eq!(title, "B"),
        _ => panic!("expected the path's series"),
    }
    match merge_hints(CollectionHint::movie("M".to_string(), None), CollectionHint::NoHint) {
        CollectionHint::Movie(m) => assert_eq!(m.title, "M"),
        _ => panic!("expected the movie"),
    }
}

#[test]
fn empty_classification() {
    let c = Classification::empty();
    assert_eq!(c.title, "");
    assert_eq!(c.part, 0);
    assert_eq!(c.content_type(), ContentType::Other);
    let c = Classification::new("t".to_string(), ClassificationCategory::Song, CollectionHint::NoHint);
    assert_eq!(c.part, 0);
    assert_eq!(c.content_type(), ContentType::Song);
}

#[test]
fn database_codes_round_trip() {
    for t in [ContentType::Other, ContentType::Movie, ContentType::Episode, ContentType::Song] {
        assert_eq!(ContentType::column_result(t.to_sql()), Some(t));
    }
    assert_eq!(ContentType::Episode.to_sql(), 2);
    assert_eq!(ContentType::column_result(9), None);
    for t in [TableId::Collection, TableId::Content] {
        assert_eq!(TableId::column_result(t.to_sql()), Some(t));
    }
    for t in [
        CollectionType::UserCollection,
        CollectionType::Franchise,
        CollectionType::Season,
        CollectionType::Series,
        CollectionType::Theme,
    ] {
        assert_eq!(CollectionType::column_result(t.to_sql()), Some(t));
    }
    assert_eq!(CollectionType::column_result(-1), None);
}

use media_recommendation_engine::media_path::{path_to_db, AsDBString, PathExt};

#[test]
fn paths_as_the_database_stores_them() {
    let p = path("/media/a b/c.mp3");
    assert_eq!(path_to_db(&p), "/media/a b/c.mp3");
    assert_eq!(p.as_db_string(), "/media/a b/c.mp3");
    assert_eq!(PathExt::file_type(&p), Some(FileType::Audio));
}
