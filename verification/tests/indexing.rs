use media_recommendation_engine::classify::{
    Classification, ClassificationCategory, ClassifyError, CollectionHint, Franchise, Season, Series,
};
use media_recommendation_engine::db_types::TableId;
use media_recommendation_engine::indexing::{
    assignment, content_changed, hint_from_collection, indexing_plan, partition_known,
    reference_kind, scan_dir, theme_first_step, theme_lookup, theme_next_step, theme_target,
    union_ids, unique_paths, walk_direct, walk_indirect, database_walk_step, Assignment,
    CollectionRecord, WalkEvent, WalkState,
    ContentCheck, ReferenceKind, ScanStep, ThemeLookup, ThemeStep, WalkAction,
};

fn s(x: &str) -> String {
    x.to_string()
}

#[test]
fn scan_collects_files_and_descends_when_recursive() {
    let listing = vec![(s("/m/a.mp4"), false), (s("/m/sub"), true), (s("/m/b.mp3"), false)];
    let steps = scan_dir(listing.clone(), true);
    assert_eq!(steps.len(), 3);
    assert!(matches!(&steps[0], ScanStep::File(p) if p == "/m/a.mp4"));
    assert!(matches!(&steps[1], ScanStep::Descend(p) if p == "/m/sub"));
    assert!(matches!(&steps[2], ScanStep::File(p) if p == "/m/b.mp3"));
    let flat = scan_dir(listing, false);
    assert_eq!(flat.len(), 2);
    assert!(matches!(&flat[1], ScanStep::File(p) if p == "/m/b.mp3"));
}

#[test]
fn scanned_paths_are_kept_once() {
    let u = unique_paths(vec![s("a"), s("b"), s("a"), s("c"), s("b")]);
    assert_eq!(u, vec![s("a"), s("b"), s("c")]);
}

#[test]
fn database_files_split_by_presence_on_disk() {
    let files = vec![(1, s("/a")), (2, s("/gone")), (3, s("/b"))];
    let disk = vec![s("/b"), s("/a")];
    let (both, only_db) = partition_known(files, &disk);
    assert_eq!(both, vec![(1, s("/a")), (3, s("/b"))]);
    assert_eq!(only_db, vec![(2, s("/gone"))]);
}

#[test]
fn changed_content_is_detected() {
    assert_eq!(content_changed(10, Some(10)), ContentCheck::Unchanged);
    assert_eq!(content_changed(10, Some(11)), ContentCheck::Changed);
    assert_eq!(content_changed(10, None), ContentCheck::Unknown);
}

#[test]
fn categories_get_their_tables() {
    assert_eq!(reference_kind(ClassificationCategory::Other), None);
    assert_eq!(reference_kind(ClassificationCategory::Movie), Some(ReferenceKind::Movie));
    assert_eq!(
        reference_kind(ClassificationCategory::Episode { episode: 4 }),
        Some(ReferenceKind::Episode { episode: 4 })
    );
    assert_eq!(reference_kind(ClassificationCategory::Song), Some(ReferenceKind::Song));
}

#[test]
fn hints_decide_where_content_is_filed() {
    assert_eq!(assignment(&CollectionHint::NoHint), Assignment::Unknown);
    assert_eq!(
        assignment(&CollectionHint::ThemeTarget { inner: Box::new(CollectionHint::NoHint) }),
        Assignment::Deferred
    );
    assert_eq!(assignment(&CollectionHint::movie(s("M"), None)), Assignment::Nowhere);
    assert_eq!(
        assignment(&CollectionHint::movie(s("M"), Some(Franchise { title: s("F") }))),
        Assignment::Franchise
    );
    assert_eq!(assignment(&CollectionHint::series(s("S"), None)), Assignment::Series);
    assert_eq!(assignment(&CollectionHint::season(s("S"), 1, None)), Assignment::Season);
}

#[test]
fn theme_targets_are_looked_up_by_kind() {
    assert_eq!(theme_lookup(&CollectionHint::NoHint), ThemeLookup::NoTarget);
    assert_eq!(theme_lookup(&CollectionHint::movie(s("M"), None)), ThemeLookup::Movie);
    assert_eq!(theme_lookup(&CollectionHint::franchise(s("F"))), ThemeLookup::Franchise);
    assert_eq!(
        theme_lookup(&CollectionHint::series(s("S"), Some(Franchise { title: s("F") }))),
        ThemeLookup::SeriesInFranchise
    );
    assert_eq!(theme_lookup(&CollectionHint::series(s("S"), None)), ThemeLookup::Series);
    let in_franchise = Series { title: s("S"), franchise: Some(Franchise { title: s("F") }) };
    assert_eq!(
        theme_lookup(&CollectionHint::season(s("X"), 1, Some(in_franchise))),
        ThemeLookup::SeasonInFranchise
    );
    let plain = Series { title: s("S"), franchise: None };
    assert_eq!(theme_lookup(&CollectionHint::season(s("X"), 1, Some(plain))), ThemeLookup::SeasonInSeries);
    assert_eq!(theme_lookup(&CollectionHint::season(s("X"), 1, None)), ThemeLookup::Season);
}

fn classified(title: &str, category: ClassificationCategory, hint: CollectionHint) -> Result<Classification, ClassifyError> {
    Ok(Classification::new(title.to_string(), category, hint))
}

fn franchise(t: &str) -> CollectionHint {
    CollectionHint::Franchise(Franchise { title: t.to_string() })
}

#[test]
fn plan_files_every_file_and_themes_last() {
    let results = vec![
        classified("Heat", ClassificationCategory::Movie, franchise("Heat")),
        classified(
            "Theme",
            ClassificationCategory::Song,
            CollectionHint::ThemeTarget { inner: Box::new(franchise("Heat")) },
        ),
        classified("Notes", ClassificationCategory::Other, CollectionHint::NoHint),
    ];
    let plan = indexing_plan(&vec![10, 11, 12], &results, &vec![Some(3), None, None]);
    assert_eq!(plan.actions.len(), 3);
    assert_eq!(plan.actions[0].data_id, 10);
    assert_eq!(plan.actions[0].relink_content, Some(3));
    assert_eq!(plan.actions[0].reference, Some(ReferenceKind::Movie));
    assert_eq!(plan.actions[0].assignment, Assignment::Franchise);
    assert_eq!(plan.actions[1].reference, Some(ReferenceKind::Song));
    assert_eq!(plan.actions[1].assignment, Assignment::Deferred);
    assert_eq!(plan.actions[2].reference, None);
    assert_eq!(plan.actions[2].assignment, Assignment::Unknown);
    assert_eq!(plan.themes, vec![11]);
}

#[test]
fn one_failed_classification_files_nothing() {
    let results = vec![
        classified("Heat", ClassificationCategory::Movie, franchise("Heat")),
        Err(ClassifyError::SeasonNumber { directory: "Season x".to_string() }),
    ];
    let plan = indexing_plan(&vec![1, 2], &results, &vec![None, None]);
    assert!(plan.actions.is_empty());
    assert!(plan.themes.is_empty());
}

#[test]
fn database_walk_steps() {
    assert!(matches!(walk_direct(vec![], &vec![]), WalkAction::NextAncestor));
    assert!(matches!(walk_direct(vec![4], &vec![9]), WalkAction::Found(9)));
    assert!(matches!(walk_direct(vec![4], &vec![]), WalkAction::Found(4)));
    match walk_direct(vec![4, 5], &vec![9]) {
        WalkAction::Expand(v) => assert_eq!(v, vec![4, 5]),
        _ => panic!("several collections are narrowed down"),
    }
    match walk_indirect(vec![1, 2]) {
        WalkAction::Expand(v) => assert_eq!(v, vec![1, 2]),
        _ => panic!("several containers are narrowed down"),
    }
    assert!(matches!(walk_indirect(vec![8]), WalkAction::Found(8)));
    assert!(matches!(walk_indirect(vec![]), WalkAction::NextAncestor));
    assert_eq!(union_ids(&vec![vec![3, 1], vec![1, 2], vec![]]), vec![3, 1, 2]);
}

#[test]
fn collections_found_in_the_database_become_hints() {
    assert!(matches!(hint_from_collection(CollectionRecord::UserCollection), CollectionHint::NoHint));
    assert!(matches!(hint_from_collection(CollectionRecord::Theme), CollectionHint::NoHint));
    match hint_from_collection(CollectionRecord::Franchise { title: "Heat".to_string() }) {
        CollectionHint::Franchise(f) => assert_eq!(f.title, "Heat"),
        _ => panic!("a franchise gives a franchise hint"),
    }
    match hint_from_collection(CollectionRecord::Season {
        title: "One".to_string(),
        season: 1,
        series: Some(Series { title: "Show".to_string(), franchise: None }),
    }) {
        CollectionHint::Season(Season { title, season, series }) => {
            assert_eq!(title, "One");
            assert_eq!(season, 1);
            assert_eq!(series.unwrap().title, "Show");
        },
        _ => panic!("a season gives a season hint"),
    }
    match hint_from_collection(CollectionRecord::Series { title: "Show".to_string(), franchise: None }) {
        CollectionHint::Series(s) => assert_eq!(s.title, "Show"),
        _ => panic!("a series gives a series hint"),
    }
}

#[test]
fn themes_are_found_or_created() {
    assert_eq!(theme_target(ThemeLookup::Movie, Some(4)), Some((TableId::Content, 4)));
    assert_eq!(theme_target(ThemeLookup::Franchise, Some(4)), Some((TableId::Collection, 4)));
    assert_eq!(theme_target(ThemeLookup::Season, None), None);
    assert_eq!(theme_target(ThemeLookup::NoTarget, Some(4)), None);
    assert_eq!(theme_first_step(None), ThemeStep::Finish(None));
    let s = theme_first_step(Some((TableId::Collection, 4)));
    assert_eq!(s, ThemeStep::FindTheme { table: TableId::Collection, target: 4 });
    let s = theme_next_step(s, None);
    assert_eq!(s, ThemeStep::InsertTheme { table: TableId::Collection, target: 4 });
    let s = theme_next_step(s, Some(6));
    assert_eq!(s, ThemeStep::FindCollection { theme: 6 });
    let s = theme_next_step(s, None);
    assert_eq!(s, ThemeStep::InsertCollection { theme: 6 });
    assert_eq!(theme_next_step(s, Some(8)), ThemeStep::Finish(Some(8)));
    let found = theme_next_step(theme_next_step(ThemeStep::FindTheme { table: TableId::Content, target: 1 }, Some(2)), Some(3));
    assert_eq!(found, ThemeStep::Finish(Some(3)));
}

#[test]
fn database_walk_narrows_then_stops() {
    let s = database_walk_step(WalkState::AskDirect, WalkEvent::Direct { direct: vec![], movies: vec![] });
    assert!(matches!(s, WalkState::AskDirect));
    let s = database_walk_step(s, WalkEvent::Direct { direct: vec![1, 2], movies: vec![] });
    match &s {
        WalkState::AskIndirect(v) => assert_eq!(*v, vec![1, 2]),
        _ => panic!("several collections are narrowed down"),
    }
    let s = database_walk_step(s, WalkEvent::Indirect(vec![5, 6]));
    assert!(matches!(s, WalkState::AskIndirect(_)));
    let s = database_walk_step(s, WalkEvent::Indirect(vec![7]));
    assert!(matches!(s, WalkState::Done(Some(7))));
    let s = database_walk_step(s, WalkEvent::Direct { direct: vec![9], movies: vec![] });
    assert!(matches!(s, WalkState::Done(Some(7))));
    let s = database_walk_step(WalkState::AskIndirect(vec![1, 2]), WalkEvent::Indirect(vec![]));
    assert!(matches!(s, WalkState::AskDirect));
    let s = database_walk_step(s, WalkEvent::NoMoreAncestors);
    assert!(matches!(s, WalkState::Done(None)));
    let s = database_walk_step(WalkState::AskDirect, WalkEvent::Direct { direct: vec![3], movies: vec![4] });
    assert!(matches!(s, WalkState::Done(Some(4))));
}
