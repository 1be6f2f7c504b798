use media_recommendation_engine::frontend::{frontend_redirect, frontend_redirect_explicit, HXTarget};
use media_recommendation_engine::library::{
    collection_element, collection_top, episode_element, episode_top, franchise_categories,
    library_page, movie_element, next_page, page_offset, playable_top, preview_page,
    season_categories, series_categories, session_element, Preview, PreviewRow, PAGE_SIZE,
};

#[test]
fn preview_names_round_trip() {
    for p in [Preview::Franchise, Preview::Movie, Preview::Series, Preview::Season, Preview::Episode] {
        assert_eq!(Preview::parse(p.as_str()), Some(p));
    }
    assert_eq!(Preview::parse("Album"), None);
    assert_eq!(Preview::parse("movie"), None);
}

#[test]
fn library_starts_with_franchises() {
    let l = library_page();
    assert_eq!(l.load_next.route, "/library/Franchise/0");
    assert_eq!(l.load_next.page, 0);
    assert_eq!(l.load_next.per_page, PAGE_SIZE);
    assert!(l.load_next.random() < 1_000_000_000);
}

#[test]
fn collection_tiles_open_their_preview() {
    let e = collection_element(Preview::Series, 12, "Show".to_string());
    assert_eq!(e.title, "Show");
    assert_eq!(e.redirect_entire, frontend_redirect("/preview/Series/12", HXTarget::Content));
    assert_eq!(e.redirect_img, "");
    assert_eq!(e.redirect_title, "");
}

#[test]
fn movie_and_episode_tiles_play_and_preview() {
    let m = movie_element(3, "Heat".to_string(), 30);
    assert_eq!(m.redirect_entire, "");
    assert_eq!(m.redirect_img, frontend_redirect_explicit("/video/30", HXTarget::All, None));
    assert_eq!(m.redirect_title, frontend_redirect("/preview/Movie/3", HXTarget::Content));
    let e = episode_element(8, "Pilot", 1, 80);
    assert_eq!(e.title, "Pilot - Episode 1");
    assert_eq!(e.redirect_img, "hx-get=\"/video/80\" hx-target=#all");
    assert_eq!(e.redirect_title, frontend_redirect("/preview/Episode/8", HXTarget::Content));
    let s = session_element(77);
    assert_eq!(s.title, "Session 77");
    assert_eq!(s.redirect_entire, frontend_redirect("/video/session/77", HXTarget::All));
}

#[test]
fn preview_tops() {
    let t = collection_top("F".to_string());
    assert_eq!(t.image_interaction, "");
    let t = playable_top("Heat".to_string(), 5);
    assert_eq!(t.title, "Heat");
    assert_eq!(t.image_interaction, "hx-get=\"/video/5\" hx-target=#all");
}

#[test]
fn next_page_only_after_a_full_page() {
    assert!(next_page(Preview::Movie, 4, 19, 0, 20).is_none());
    let n = next_page(Preview::Movie, 4, 20, 0, 20).unwrap();
    assert_eq!(n.route, "/library/Movie/4");
    assert_eq!(n.page, 1);
    assert_eq!(n.per_page, 20);
    assert_eq!(page_offset(3, 20), 60);
}

#[test]
fn preview_sections() {
    let s = season_categories(9);
    assert_eq!(s.len(), 1);
    assert_eq!(s[0].heading, "<h2> Episodes </h2>");
    assert_eq!(s[0].load_next.route, "/library/Episode/9");
    assert!(series_categories(2, 0, None).is_empty());
    let one = series_categories(2, 1, Some(7));
    assert_eq!(one[0].load_next.route, "/library/Episode/7");
    let many = series_categories(2, 3, None);
    assert_eq!(many[0].heading, "<h2> Seasons </h2>");
    assert_eq!(many[0].load_next.route, "/library/Season/2");
    let f = franchise_categories(1, 2, 2, Vec::new());
    assert_eq!(f.len(), 2);
    assert_eq!(f[0].heading, "<h1> Movies </h1>");
    assert_eq!(f[0].load_next.route, "/library/Movie/1");
    assert_eq!(f[1].heading, "<h1> Series </h1>");
    assert_eq!(f[1].load_next.route, "/library/Series/1");
    let f = franchise_categories(1, 0, 1, series_categories(6, 2, None));
    assert_eq!(f.len(), 1);
    assert_eq!(f[0].load_next.route, "/library/Season/6");
    assert!(franchise_categories(1, 0, 0, Vec::new()).is_empty());
}

fn row(id: u64, title: &str, episode: u64, video_id: u64) -> PreviewRow {
    PreviewRow { id, title: title.to_string(), episode, video_id }
}

#[test]
fn episode_top_names_the_episode() {
    let t = episode_top("Pilot", 3, 9);
    assert_eq!(t.title, "Pilot - Episode 3");
    assert_eq!(t.image_interaction, frontend_redirect_explicit("/video/9", HXTarget::All, None));
}

#[test]
fn a_page_of_franchises_has_a_tile_per_row() {
    let p = preview_page(Preview::Franchise, 0, vec![row(4, "Alien", 0, 0), row(2, "Batman", 0, 0)], 0, 2);
    assert_eq!(p.elements.len(), 2);
    assert_eq!(p.elements[0].title, "Alien");
    assert_eq!(p.elements[0].redirect_entire, frontend_redirect("/preview/Franchise/4", HXTarget::Content));
    assert_eq!(p.elements[1].title, "Batman");
    assert_eq!(p.elements[1].redirect_img, "");
    let next = p.load_next.unwrap();
    assert_eq!(next.route, "/library/Franchise/0");
    assert_eq!(next.page, 1);
    assert_eq!(next.per_page, 2);
}

#[test]
fn a_short_page_has_no_next_link() {
    let p = preview_page(Preview::Episode, 7, vec![row(11, "Pilot", 1, 40)], 2, 20);
    assert_eq!(p.elements.len(), 1);
    assert_eq!(p.elements[0].title, "Pilot - Episode 1");
    assert_eq!(p.elements[0].redirect_img, frontend_redirect_explicit("/video/40", HXTarget::All, None));
    assert_eq!(p.elements[0].redirect_title, frontend_redirect("/preview/Episode/11", HXTarget::Content));
    assert!(p.load_next.is_none());
    let empty = preview_page(Preview::Movie, 7, Vec::new(), u64::MAX, 20);
    assert!(empty.elements.is_empty());
    assert!(empty.load_next.is_none());
}

#[test]
fn a_page_of_movies_plays_and_previews() {
    let p = preview_page(Preview::Movie, 5, vec![row(3, "Heat", 0, 30)], 0, 1);
    assert_eq!(p.elements[0].title, "Heat");
    assert_eq!(p.elements[0].redirect_entire, "");
    assert_eq!(p.elements[0].redirect_img, frontend_redirect_explicit("/video/30", HXTarget::All, None));
    assert_eq!(p.elements[0].redirect_title, frontend_redirect("/preview/Movie/3", HXTarget::Content));
    assert_eq!(p.load_next.unwrap().route, "/library/Movie/5");
}
