//! The library pages: the kinds of collection a preview shows, the grid
//! elements of a page of results, the sections of a preview, and the link
//! that loads the next page.
use vstd::prelude::*;
use crate::frontend::{
    frontend_redirect, frontend_redirect_explicit, push_url_spec, redirect_spec, HXTarget,
};
use crate::random::pseudo_random;
use crate::recommendation::episode_title;
use crate::text::{push_str, decimal, push_decimal, string_from_chars, to_chars};

verus! {

/// What a preview or a page of the library lists.
#[derive(Clone, Copy, PartialEq, Eq, Structural, Debug)]
pub enum Preview {
    Franchise,
    Movie,
    Series,
    Season,
    Episode,
}

pub open spec fn preview_name(p: Preview) -> Seq<char> {
    match p {
        Preview::Franchise => "Franchise"@,
        Preview::Movie => "Movie"@,
        Preview::Series => "Series"@,
        Preview::Season => "Season"@,
        Preview::Episode => "Episode"@,
    }
}

impl Preview {
    /// The name of the kind, as it stands in routes.
    pub fn as_str(self) -> (r: &'static str)
        ensures
            r@ == preview_name(self),
    {
        match self {
            Preview::Franchise => "Franchise",
            Preview::Movie => "Movie",
            Preview::Series => "Series",
            Preview::Season => "Season",
            Preview::Episode => "Episode",
        }
    }

    /// The kind named in a route, if the name is one of the five.
    pub fn parse(name: &str) -> (r: Option<Preview>)
        ensures
            match r {
                Some(p) => preview_name(p) == name@,
                None => forall|p: Preview| preview_name(p) != name@,
            },
    {
        let n = to_chars(name);
        let kinds = [
            Preview::Franchise,
            Preview::Movie,
            Preview::Series,
            Preview::Season,
            Preview::Episode,
        ];
        let mut i: usize = 0;
        while i < 5
            invariant
                i <= 5,
                n@ == name@,
                kinds@ == seq![
                    Preview::Franchise,
                    Preview::Movie,
                    Preview::Series,
                    Preview::Season,
                    Preview::Episode,
                ],
                forall|j: int| 0 <= j < i ==> preview_name(#[trigger] kinds@[j]) != name@,
            decreases 5 - i,
        {
            let k = kinds[i];
            let candidate = to_chars(k.as_str());
            if crate::text::chars_equal(n.as_slice(), candidate.as_slice()) {
                return Some(k);
            }
            i = i + 1;
        }
        assert forall|p: Preview| preview_name(p) != name@ by {
            match p {
                Preview::Franchise => assert(kinds@[0] == p),
                Preview::Movie => assert(kinds@[1] == p),
                Preview::Series => assert(kinds@[2] == p),
                Preview::Season => assert(kinds@[3] == p),
                Preview::Episode => assert(kinds@[4] == p),
            }
        }
        None
    }
}

/// The link that loads a page of results: the route, the page number and
/// the page size, and a random number that keeps browsers from reusing an
/// earlier response.
pub struct LoadNext {
    pub route: String,
    pub page: u64,
    pub per_page: u64,
    random: u32,
}

/// A page link as plain values.
pub struct LoadNextView {
    pub route: Seq<char>,
    pub page: u64,
    pub per_page: u64,
}

impl View for LoadNext {
    type V = LoadNextView;

    closed spec fn view(&self) -> LoadNextView {
        LoadNextView { route: self.route@, page: self.page, per_page: self.per_page }
    }
}

impl LoadNext {
    /// The random number that keeps browsers from reusing a response.
    pub closed spec fn nonce(&self) -> u32 {
        self.random
    }

    pub fn new(route: String, page: u64, per_page: u64) -> (r: Self)
        ensures
            r@ == (LoadNextView { route: route@, page, per_page }),
            r.nonce() < 1_000_000_000,
    {
        LoadNext { route, page, per_page, random: pseudo_random() }
    }

    pub fn random(&self) -> (r: u32)
        ensures
            r == self.nonce(),
    {
        self.random
    }
}

/// One tile of a library page.
pub struct GridElement {
    pub title: String,
    pub redirect_entire: String,
    pub redirect_img: String,
    pub redirect_title: String,
}

/// The large picture on top of a preview and what clicking it does.
pub struct LargeImage {
    pub title: String,
    pub image_interaction: String,
}

/// A section of a preview: its heading and the link that loads it.
pub struct Category {
    pub heading: String,
    pub load_next: LoadNext,
}

/// A preview page: the picture on top and the sections under it.
pub struct PreviewTemplate {
    pub top: LargeImage,
    pub categories: Vec<Category>,
}

/// The library page: it loads the first page of franchises.
pub struct Library {
    pub load_next: LoadNext,
}

/// How many tiles a page of the library holds.
pub const PAGE_SIZE: u64 = 20;

/// `<prefix><kind>/<id>`.
pub open spec fn kind_route(prefix: Seq<char>, kind: Preview, id: u64) -> Seq<char> {
    prefix + preview_name(kind) + "/"@ + decimal(id as nat)
}

/// The attributes that load `route` into the content part of the page.
pub open spec fn content_link(route: Seq<char>) -> Seq<char> {
    redirect_spec(route, HXTarget::Content, Some(push_url_spec(route, HXTarget::Content)))
}

/// The attributes that open the player for a video.
pub open spec fn play_link(video_id: u64) -> Seq<char> {
    redirect_spec("/video/"@ + decimal(video_id as nat), HXTarget::All, None)
}

fn make_kind_route(prefix: &str, kind: Preview, id: u64) -> (r: String)
    ensures
        r@ == kind_route(prefix@, kind, id),
{
    let mut out: Vec<char> = Vec::new();
    push_str(&mut out, prefix);
    push_str(&mut out, kind.as_str());
    push_str(&mut out, "/");
    push_decimal(&mut out, id);
    proof {
        assert(out@ =~= kind_route(prefix@, kind, id));
    }
    string_from_chars(out.as_slice())
}

fn make_play_link(video_id: u64) -> (r: String)
    ensures
        r@ == play_link(video_id),
{
    let mut route: Vec<char> = Vec::new();
    push_str(&mut route, "/video/");
    push_decimal(&mut route, video_id);
    assert(route@ =~= "/video/"@ + decimal(video_id as nat));
    let route = string_from_chars(route.as_slice());
    frontend_redirect_explicit(route.as_str(), HXTarget::All, None)
}

/// The library page, which starts with the first page of franchises.
pub fn library_page() -> (r: Library)
    ensures
        r.load_next@ == (LoadNextView {
            route: "/library/Franchise/0"@,
            page: 0,
            per_page: PAGE_SIZE,
        }),
{
    let mut route: Vec<char> = Vec::new();
    push_str(&mut route, "/library/Franchise/0");
    Library { load_next: LoadNext::new(string_from_chars(route.as_slice()), 0, PAGE_SIZE) }
}

/// The tile of a franchise, series or season: clicking it opens the
/// preview of the collection.
pub fn collection_element(kind: Preview, id: u64, title: String) -> (r: GridElement)
    requires
        kind is Franchise || kind is Series || kind is Season,
    ensures
        r.title@ == title@,
        r.redirect_entire@ == content_link(kind_route("/preview/"@, kind, id)),
        r.redirect_img@ == Seq::<char>::empty(),
        r.redirect_title@ == Seq::<char>::empty(),
{
    let route = make_kind_route("/preview/", kind, id);
    GridElement {
        title,
        redirect_entire: frontend_redirect(route.as_str(), HXTarget::Content),
        redirect_img: String::new(),
        redirect_title: String::new(),
    }
}

/// The tile of a movie: the picture plays it, the title opens its preview.
pub fn movie_element(movie_id: u64, title: String, video_id: u64) -> (r: GridElement)
    ensures
        r.title@ == title@,
        r.redirect_entire@ == Seq::<char>::empty(),
        r.redirect_img@ == play_link(video_id),
        r.redirect_title@ == content_link(kind_route("/preview/"@, Preview::Movie, movie_id)),
{
    let route = make_kind_route("/preview/", Preview::Movie, movie_id);
    GridElement {
        title,
        redirect_entire: String::new(),
        redirect_img: make_play_link(video_id),
        redirect_title: frontend_redirect(route.as_str(), HXTarget::Content),
    }
}

/// The tile of an episode, titled `<name> - Episode <episode>`: the
/// picture plays it, the title opens its preview.
pub fn episode_element(episode_id: u64, name: &str, episode: u64, video_id: u64) -> (r: GridElement)
    ensures
        r.title@ == episode_title(name@, episode),
        r.redirect_entire@ == Seq::<char>::empty(),
        r.redirect_img@ == play_link(video_id),
        r.redirect_title@ == content_link(kind_route("/preview/"@, Preview::Episode, episode_id)),
{
    let mut title: Vec<char> = Vec::new();
    push_str(&mut title, name);
    push_str(&mut title, " - Episode ");
    push_decimal(&mut title, episode);
    let route = make_kind_route("/preview/", Preview::Episode, episode_id);
    GridElement {
        title: string_from_chars(title.as_slice()),
        redirect_entire: String::new(),
        redirect_img: make_play_link(video_id),
        redirect_title: frontend_redirect(route.as_str(), HXTarget::Content),
    }
}

/// The tile of a running streaming session, titled `Session <id>`:
/// clicking it joins the session.
pub fn session_element(id: u32) -> (r: GridElement)
    ensures
        r.title@ == "Session "@ + decimal(id as nat),
        r.redirect_entire@ == redirect_spec(
            "/video/session/"@ + decimal(id as nat),
            HXTarget::All,
            Some(push_url_spec("/video/session/"@ + decimal(id as nat), HXTarget::All)),
        ),
        r.redirect_img@ == Seq::<char>::empty(),
        r.redirect_title@ == Seq::<char>::empty(),
{
    let mut title: Vec<char> = Vec::new();
    push_str(&mut title, "Session ");
    push_decimal(&mut title, id as u64);
    let mut route: Vec<char> = Vec::new();
    push_str(&mut route, "/video/session/");
    push_decimal(&mut route, id as u64);
    assert(route@ =~= "/video/session/"@ + decimal(id as nat));
    let route = string_from_chars(route.as_slice());
    GridElement {
        title: string_from_chars(title.as_slice()),
        redirect_entire: frontend_redirect(route.as_str(), HXTarget::All),
        redirect_img: String::new(),
        redirect_title: String::new(),
    }
}

/// The picture on top of a collection's preview: its title, and nothing
/// to click.
pub fn collection_top(title: String) -> (r: LargeImage)
    ensures
        r.title@ == title@,
        r.image_interaction@ == Seq::<char>::empty(),
{
    LargeImage { title, image_interaction: String::new() }
}

/// The picture on top of an episode's preview, titled
/// `<title> - Episode <episode>`: clicking it plays the video.
pub fn episode_top(title: &str, episode: u64, video_id: u64) -> (r: LargeImage)
    ensures
        r.title@ == episode_title(title@, episode),
        r.image_interaction@ == play_link(video_id),
{
    let mut t: Vec<char> = Vec::new();
    push_str(&mut t, title);
    push_str(&mut t, " - Episode ");
    push_decimal(&mut t, episode);
    LargeImage { title: string_from_chars(t.as_slice()), image_interaction: make_play_link(video_id) }
}

/// The picture on top of a movie's or episode's preview: clicking it plays
/// the video.
pub fn playable_top(title: String, video_id: u64) -> (r: LargeImage)
    ensures
        r.title@ == title@,
        r.image_interaction@ == play_link(video_id),
{
    LargeImage { title, image_interaction: make_play_link(video_id) }
}

/// The offset of a page in the result list.
pub fn page_offset(page: u64, per_page: u64) -> (r: u64)
    requires
        page * per_page <= u64::MAX,
    ensures
        r == page * per_page,
{
    page * per_page
}

/// The link to the page after the current one, which the library shows
/// only when the current page came back full.
pub fn next_page(kind: Preview, id: u64, count: usize, page: u64, per_page: u64) -> (r: Option<
    LoadNext,
>)
    requires
        (count as int) >= (per_page as int) ==> page < u64::MAX,
    ensures
        (count as int) < (per_page as int) ==> r is None,
        (count as int) >= (per_page as int) ==> (r matches Some(l) && l@ == (LoadNextView {
            route: kind_route("/library/"@, kind, id),
            page: (page + 1) as u64,
            per_page,
        })),
{
    if (count as u64) < per_page {
        None
    } else {
        let route = make_kind_route("/library/", kind, id);
        Some(LoadNext::new(route, page + 1, per_page))
    }
}

/// One row of a page of results: the id of the collection, movie or
/// episode and its title; for an episode its number; for a movie or an
/// episode the video that plays it.
pub struct PreviewRow {
    pub id: u64,
    pub title: String,
    pub episode: u64,
    pub video_id: u64,
}

/// A page of results: its tiles, and the link to the next page when this
/// one came back full.
pub struct PreviewPage {
    pub elements: Vec<GridElement>,
    pub load_next: Option<LoadNext>,
}

/// A tile as plain values: title, link of the whole tile, of the picture and
/// of the title.
pub open spec fn tile_view(e: GridElement) -> (Seq<char>, Seq<char>, Seq<char>, Seq<char>) {
    (e.title@, e.redirect_entire@, e.redirect_img@, e.redirect_title@)
}

/// The tile that a page of `kind` shows for one row.
pub open spec fn row_tile(kind: Preview, row: PreviewRow) -> (
    Seq<char>,
    Seq<char>,
    Seq<char>,
    Seq<char>,
) {
    match kind {
        Preview::Movie => (
            row.title@,
            Seq::empty(),
            play_link(row.video_id),
            content_link(kind_route("/preview/"@, Preview::Movie, row.id)),
        ),
        Preview::Episode => (
            episode_title(row.title@, row.episode),
            Seq::empty(),
            play_link(row.video_id),
            content_link(kind_route("/preview/"@, Preview::Episode, row.id)),
        ),
        _ => (row.title@, content_link(kind_route("/preview/"@, kind, row.id)), Seq::empty(), Seq::empty()),
    }
}

fn row_element(kind: Preview, row: PreviewRow) -> (r: GridElement)
    ensures
        tile_view(r) == row_tile(kind, row),
{
    match kind {
        Preview::Movie => movie_element(row.id, row.title, row.video_id),
        Preview::Episode => episode_element(row.id, row.title.as_str(), row.episode, row.video_id),
        _ => collection_element(kind, row.id, row.title),
    }
}

/// A page of `kind` in collection `id`: one tile per row, in the order of
/// the rows, and the link to the next page when the page is full.
pub fn preview_page(kind: Preview, id: u64, rows: Vec<PreviewRow>, page: u64, per_page: u64) -> (r:
    PreviewPage)
    requires
        (rows.len() as int) >= (per_page as int) ==> page < u64::MAX,
    ensures
        r.elements.len() == rows.len(),
        forall|i: int|
            0 <= i < rows.len() ==> tile_view(#[trigger] r.elements@[i]) == row_tile(kind, rows@[i]),
        (rows.len() as int) < (per_page as int) ==> r.load_next is None,
        (rows.len() as int) >= (per_page as int) ==> (r.load_next matches Some(l) && l@ == (
        LoadNextView { route: kind_route("/library/"@, kind, id), page: (page + 1) as u64, per_page })),
{
    let count = rows.len();
    let ghost all = rows@;
    let mut elements: Vec<GridElement> = Vec::new();
    for row in it: rows.into_iter()
        invariant
            it.seq() == all,
            elements.len() == it.index(),
            forall|i: int|
                0 <= i < it.index() ==> tile_view(#[trigger] elements@[i]) == row_tile(kind, all[i]),
    {
        elements.push(row_element(kind, row));
    }
    let load_next = next_page(kind, id, count, page, per_page);
    PreviewPage { elements, load_next }
}

/// A section as plain values: its heading and the route, page and size of
/// its link.
pub open spec fn category_view(c: Category) -> (Seq<char>, LoadNextView) {
    (c.heading@, c.load_next@)
}

pub open spec fn categories_view(c: Seq<Category>) -> Seq<(Seq<char>, LoadNextView)> {
    c.map_values(|x: Category| category_view(x))
}

/// A section that loads the first page of `kind` in collection `id`.
pub open spec fn section(heading: Seq<char>, kind: Preview, id: u64) -> (Seq<char>, LoadNextView) {
    (heading, LoadNextView { route: kind_route("/library/"@, kind, id), page: 0, per_page: PAGE_SIZE })
}

fn make_section(heading: &str, kind: Preview, id: u64) -> (r: Category)
    ensures
        category_view(r) == section(heading@, kind, id),
{
    let mut h: Vec<char> = Vec::new();
    push_str(&mut h, heading);
    assert(h@ =~= heading@);
    let route = make_kind_route("/library/", kind, id);
    Category {
        heading: string_from_chars(h.as_slice()),
        load_next: LoadNext::new(route, 0, PAGE_SIZE),
    }
}

/// The sections of a season's preview: its episodes.
pub fn season_categories(id: u64) -> (r: Vec<Category>)
    ensures
        categories_view(r@) == seq![section("<h2> Episodes </h2>"@, Preview::Episode, id)],
{
    let mut out: Vec<Category> = Vec::new();
    out.push(make_section("<h2> Episodes </h2>", Preview::Episode, id));
    assert(categories_view(out@) =~= seq![section("<h2> Episodes </h2>"@, Preview::Episode, id)]);
    out
}

/// The sections of a series' preview with `season_count` seasons: none
/// without seasons; the episodes of the only season when there is one
/// (`only_season`); otherwise the list of seasons.
pub fn series_categories(id: u64, season_count: u64, only_season: Option<u64>) -> (r: Vec<Category>)
    requires
        season_count == 1 ==> only_season is Some,
    ensures
        season_count == 0 ==> categories_view(r@) == Seq::<(Seq<char>, LoadNextView)>::empty(),
        season_count == 1 ==> categories_view(r@) == seq![
            section("<h2> Episodes </h2>"@, Preview::Episode, only_season->0),
        ],
        season_count >= 2 ==> categories_view(r@) == seq![
            section("<h2> Seasons </h2>"@, Preview::Season, id),
        ],
{
    if season_count == 0 {
        let out: Vec<Category> = Vec::new();
        assert(categories_view(out@) =~= Seq::<(Seq<char>, LoadNextView)>::empty());
        out
    } else if season_count == 1 {
        match only_season {
            Some(season_id) => season_categories(season_id),
            None => Vec::new(),
        }
    } else {
        let mut out: Vec<Category> = Vec::new();
        out.push(make_section("<h2> Seasons </h2>", Preview::Season, id));
        assert(categories_view(out@) =~= seq![section("<h2> Seasons </h2>"@, Preview::Season, id)]);
        out
    }
}

/// The sections of a franchise's preview: its movies, when it has any;
/// then, for its series, nothing without one, the sections of the only
/// series when there is one (`only_series`), or the list of series.
pub fn franchise_categories(
    id: u64,
    movie_count: u64,
    series_count: usize,
    only_series: Vec<Category>,
) -> (r: Vec<Category>)
    ensures
        categories_view(r@) == (if movie_count > 0 {
            seq![section("<h1> Movies </h1>"@, Preview::Movie, id)]
        } else {
            Seq::empty()
        }) + (if series_count == 0 {
            Seq::empty()
        } else if series_count == 1 {
            categories_view(only_series@)
        } else {
            seq![section("<h1> Series </h1>"@, Preview::Series, id)]
        }),
{
    let mut out: Vec<Category> = Vec::new();
    if movie_count > 0 {
        out.push(make_section("<h1> Movies </h1>", Preview::Movie, id));
    }
    let ghost head = out@;
    assert(categories_view(head) =~= (if movie_count > 0 {
        seq![section("<h1> Movies </h1>"@, Preview::Movie, id)]
    } else {
        Seq::empty()
    }));
    if series_count == 1 {
        let mut rest = only_series;
        let ghost tail = rest@;
        out.append(&mut rest);
        assert(categories_view(out@) =~= categories_view(head) + categories_view(tail));
    } else if series_count >= 2 {
        out.push(make_section("<h1> Series </h1>", Preview::Series, id));
        assert(categories_view(out@) =~= categories_view(head) + seq![
            section("<h1> Series </h1>"@, Preview::Series, id),
        ]);
    } else {
        assert(categories_view(out@) =~= categories_view(head) + Seq::empty());
    }
    out
}

} // verus!
