//! Classification of a media file from its path: what it is (movie,
//! episode, song), its title and part, and the collection it belongs to.
use vstd::prelude::*;
use crate::db_types::ContentType;
use crate::media_path::{
    directory_names, file_stem, file_type, file_type_of, FileType, MediaPath,
};
use crate::text::{
    chars_equal, contains, contains_chars, copy_range, parse_between, parse_between_chars, push_str,
    parse_until, parse_until_chars, rsplit_once, rsplit_once_chars, split_once, split_once_chars,
    starts_with, starts_with_chars, string_from_chars, to_chars, trim, trim_chars, trim_end,
    trim_end_chars, trim_start, trim_start_chars, trim_start_matches, trim_start_matches_chars,
    views, Pat, Pattern,
};

verus! {

/// What a file is.
#[derive(Clone, Copy, PartialEq, Eq, Structural, Debug)]
pub enum ClassificationCategory {
    Other,
    Movie,
    Episode { episode: u64 },
    Song,
}

pub struct Franchise {
    pub title: String,
}

pub struct Movie {
    pub title: String,
    pub franchise: Option<Franchise>,
}

pub struct Series {
    pub title: String,
    pub franchise: Option<Franchise>,
}

pub struct Season {
    pub title: String,
    pub season: u64,
    pub series: Option<Series>,
}

/// The collection a file probably belongs to.
pub enum CollectionHint {
    NoHint,
    Movie(Movie),
    Franchise(Franchise),
    Series(Series),
    Season(Season),
    ThemeTarget { inner: Box<CollectionHint> },
}

/// The result of classifying one file.
pub struct Classification {
    pub title: String,
    pub part: u64,
    pub category: ClassificationCategory,
    pub collectionhint: CollectionHint,
}

/// Why a file could not be classified.
#[derive(Debug)]
pub enum ClassifyError {
    /// The directory, named as it stands in the path, names a season without
    /// a season number.
    SeasonNumber { directory: String },
}

/// The mathematical form of a [`ClassifyError`].
pub enum ClassifyFailure {
    SeasonNumber { directory: Seq<char> },
}

pub open spec fn error_view(e: ClassifyError) -> ClassifyFailure {
    match e {
        ClassifyError::SeasonNumber { directory } => ClassifyFailure::SeasonNumber { directory: directory@ },
    }
}

/// The text of a failure: `Failed to parse season number from "<directory>"`.
pub open spec fn failure_message(e: ClassifyFailure) -> Seq<char> {
    match e {
        ClassifyFailure::SeasonNumber { directory } => "Failed to parse season number from \""@ + directory
            + "\""@,
    }
}

impl ClassifyError {
    /// What went wrong, in words.
    pub fn message(&self) -> (r: String)
        ensures
            r@ == failure_message(error_view(*self)),
    {
        match self {
            ClassifyError::SeasonNumber { directory } => {
                let mut out: Vec<char> = Vec::new();
                push_str(&mut out, "Failed to parse season number from \"");
                push_str(&mut out, directory.as_str());
                push_str(&mut out, "\"");
                string_from_chars(out.as_slice())
            },
        }
    }
}

/// The mathematical form of a [`Series`].
pub struct SeriesModel {
    pub title: Seq<char>,
    pub franchise: Option<Seq<char>>,
}

/// The mathematical form of a [`CollectionHint`]; a franchise is its title.
pub enum HintModel {
    NoHint,
    Movie { title: Seq<char>, franchise: Option<Seq<char>> },
    Franchise { title: Seq<char> },
    Series { series: SeriesModel },
    Season { title: Seq<char>, season: u64, series: Option<SeriesModel> },
    ThemeTarget { inner: Box<HintModel> },
}

/// The mathematical form of a [`Classification`].
pub struct ClassificationModel {
    pub title: Seq<char>,
    pub part: u64,
    pub category: ClassificationCategory,
    pub hint: HintModel,
}

pub open spec fn franchise_view(f: Option<Franchise>) -> Option<Seq<char>> {
    match f {
        Some(f) => Some(f.title@),
        None => None,
    }
}

pub open spec fn series_view(s: Series) -> SeriesModel {
    SeriesModel { title: s.title@, franchise: franchise_view(s.franchise) }
}

pub open spec fn opt_series_view(s: Option<Series>) -> Option<SeriesModel> {
    match s {
        Some(s) => Some(series_view(s)),
        None => None,
    }
}

pub open spec fn hint_view(h: CollectionHint) -> HintModel
    decreases h,
{
    match h {
        CollectionHint::NoHint => HintModel::NoHint,
        CollectionHint::Movie(m) => HintModel::Movie {
            title: m.title@,
            franchise: franchise_view(m.franchise),
        },
        CollectionHint::Franchise(f) => HintModel::Franchise { title: f.title@ },
        CollectionHint::Series(s) => HintModel::Series { series: series_view(s) },
        CollectionHint::Season(s) => HintModel::Season {
            title: s.title@,
            season: s.season,
            series: opt_series_view(s.series),
        },
        CollectionHint::ThemeTarget { inner } => HintModel::ThemeTarget {
            inner: Box::new(hint_view(*inner)),
        },
    }
}

pub open spec fn classification_view(c: Classification) -> ClassificationModel {
    ClassificationModel {
        title: c.title@,
        part: c.part,
        category: c.category,
        hint: hint_view(c.collectionhint),
    }
}

/// Season, episode and part numbers found in a file name.
#[derive(Clone, Copy, PartialEq, Eq, Structural, Debug)]
pub struct Info {
    pub season: Option<u64>,
    pub episode: Option<u64>,
    pub part: Option<u64>,
}

/// The number that follows the first `key` in `metadata`.
pub open spec fn metadata_number(metadata: Seq<char>, key: char) -> Option<u64> {
    match parse_between(metadata, Pat::Char(key), Pat::NonDigit, u64::MAX as nat) {
        Some(v) => Some(v as u64),
        None => None,
    }
}

/// A title ends in ` - <metadata>`, where the metadata holds `s<season>`,
/// `e<episode>` and `p<part>`, each optional and in any order; the title
/// is what stands before the last `-`, without trailing whitespace.
pub open spec fn strip_info_spec(title: Seq<char>) -> (Seq<char>, Info) {
    match rsplit_once(title, Pat::Char('-')) {
        None => (title, Info { season: None, episode: None, part: None }),
        Some((begin, metadata)) => (
            trim_end(begin),
            Info {
                season: metadata_number(metadata, 's'),
                episode: metadata_number(metadata, 'e'),
                part: metadata_number(metadata, 'p'),
            },
        ),
    }
}

/// A title may end in `(<year>)`: the year is removed from the title and
/// returned when the text after the last `(` starts with a number that
/// fits in a `u32`, closed by `)` or by the end of the title.
pub open spec fn strip_year_spec(title: Seq<char>) -> (Seq<char>, Option<u32>) {
    match rsplit_once(title, Pat::Char('(')) {
        None => (title, None),
        Some((left, right)) => match parse_until(right, Pat::Char(')'), u32::MAX as nat) {
            Some(y) => (left, Some(y as u32)),
            None => (title, None),
        },
    }
}

fn key_number(metadata: &[char], key: char) -> (r: Option<u64>)
    ensures
        r == metadata_number(metadata@, key),
{
    match parse_between_chars(metadata, &Pattern::Char(key), &Pattern::NonDigit, u64::MAX) {
        Some(v) => Some(v),
        None => None,
    }
}

/// Splits the season, episode and part information off a title.
pub fn strip_info(title: &[char]) -> (r: (Vec<char>, Info))
    ensures
        (r.0@, r.1) == strip_info_spec(title@),
{
    match rsplit_once_chars(title, &Pattern::Char('-')) {
        None => (copy_range(title, 0, title.len()), Info { season: None, episode: None, part: None }),
        Some((begin, metadata)) => {
            let season = key_number(metadata.as_slice(), 's');
            let episode = key_number(metadata.as_slice(), 'e');
            let part = key_number(metadata.as_slice(), 'p');
            (trim_end_chars(begin.as_slice()), Info { season, episode, part })
        },
    }
}

/// Splits a trailing `(<year>)` off a title.
pub fn strip_year(title: &[char]) -> (r: (Vec<char>, Option<u32>))
    ensures
        (r.0@, r.1) == strip_year_spec(title@),
{
    match rsplit_once_chars(title, &Pattern::Char('(')) {
        None => (copy_range(title, 0, title.len()), None),
        Some((left, right)) => match parse_until_chars(right.as_slice(), &Pattern::Char(')'), 4294967295) {
            Some(y) => {
                assert(y <= u32::MAX);
                (left, Some(y as u32))
            },
            None => (copy_range(title, 0, title.len()), None),
        },
    }
}


/// What `str::to_lowercase` returns for a text (the Unicode lowercase
/// mapping of each character).
pub uninterp spec fn unicode_lowercase(s: Seq<char>) -> Seq<char>;

/// `str::to_lowercase`.
#[verifier::external_body]
fn to_lowercase(s: &[char]) -> (r: Vec<char>)
    ensures
        r@ == unicode_lowercase(s@),
{
    let text: String = s.iter().collect();
    text.to_lowercase().chars().collect()
}

/// The directory names up to the first one that contains `!noclassify`.
pub open spec fn classifiable_directories(d: Seq<Seq<char>>) -> Seq<Seq<char>>
    decreases d.len(),
{
    if d.len() == 0 || contains(d[0], "!noclassify"@) {
        Seq::empty()
    } else {
        seq![d[0]] + classifiable_directories(d.drop_first())
    }
}

/// The file stem of a path, or nothing.
pub open spec fn stem_or_empty(p: MediaPath) -> Seq<char> {
    match file_stem(p) {
        Some(s) => s,
        None => Seq::empty(),
    }
}

/// The title of a file: its stem without metadata and year.
pub open spec fn base_title(p: MediaPath) -> Seq<char> {
    strip_year_spec(strip_info_spec(stem_or_empty(p)).0).0
}

/// The title of a season directory: what follows the first `-`, trimmed.
pub open spec fn season_title(dir: Seq<char>) -> Seq<char> {
    trim(
        match split_once(dir, Pat::Char('-')) {
            Some((_, b)) => b,
            None => dir,
        },
    )
}

/// The number of a season directory `season <n>...`.
pub open spec fn season_number(dir: Seq<char>) -> Option<nat> {
    parse_until(
        trim_start(trim_start_matches(unicode_lowercase(dir), "season"@)),
        Pat::NonDigit,
        u64::MAX as nat,
    )
}

/// The collection a path names. Only the nearest directories count, up to
/// one that contains `!noclassify`:
/// - a first directory `season <n> - <title>` names a season, the next
///   directory its series and the one after that the franchise (the
///   series' title when there is none);
/// - a first directory named like the file names a movie of the franchise
///   in the directory after it (or of a franchise named like the movie);
/// - a first directory that the title starts with is the franchise of a
///   movie.
pub open spec fn path_hint(p: MediaPath) -> Result<HintModel, ClassifyFailure> {
    let preserved = stem_or_empty(p);
    let original = base_title(p);
    let dirs = classifiable_directories(directory_names(p));
    if dirs.len() == 0 {
        Ok(HintModel::NoHint)
    } else {
        let next = dirs[0];
        if starts_with(unicode_lowercase(next), "season"@) {
            match season_number(next) {
                None => Err(ClassifyFailure::SeasonNumber { directory: next }),
                Some(n) => Ok(
                    HintModel::Season {
                        title: season_title(next),
                        season: n as u64,
                        series: if dirs.len() >= 2 {
                            Some(
                                SeriesModel {
                                    title: dirs[1],
                                    franchise: Some(
                                        if dirs.len() >= 3 {
                                            dirs[2]
                                        } else {
                                            dirs[1]
                                        },
                                    ),
                                },
                            )
                        } else {
                            None
                        },
                    },
                ),
            }
        } else if next == preserved {
            Ok(
                HintModel::Movie {
                    title: original,
                    franchise: Some(
                        if dirs.len() >= 2 {
                            dirs[1]
                        } else {
                            original
                        },
                    ),
                },
            )
        } else if starts_with(original, next) {
            Ok(HintModel::Movie { title: original, franchise: Some(next) })
        } else {
            Ok(HintModel::NoHint)
        }
    }
}

/// How specific a hint is: a movie is the most specific, then a season, a
/// series and a franchise.
pub open spec fn hint_rank(h: HintModel) -> int {
    match h {
        HintModel::NoHint => 0,
        HintModel::Franchise { .. } => 1,
        HintModel::Series { .. } => 2,
        HintModel::Season { .. } => 3,
        HintModel::Movie { .. } => 4,
        HintModel::ThemeTarget { .. } => 5,
    }
}

/// The hint of the database and the hint of the path combined: a missing
/// hint gives way to the other; of two hints of one kind the path's wins;
/// otherwise the more specific one wins.
pub open spec fn merge_spec(database: HintModel, path: HintModel) -> HintModel {
    if database is NoHint {
        path
    } else if path is NoHint {
        database
    } else if hint_rank(database) == hint_rank(path) {
        path
    } else if hint_rank(database) > hint_rank(path) {
        database
    } else {
        path
    }
}

/// A hint that is not a theme target.
pub open spec fn plain_hint(h: HintModel) -> bool {
    !(h is ThemeTarget)
}

/// The classification of a video file.
pub open spec fn video_spec(p: MediaPath, database: HintModel) -> Result<ClassificationModel, ClassifyFailure> {
    let (t1, info) = strip_info_spec(stem_or_empty(p));
    let title = strip_year_spec(t1).0;
    match path_hint(p) {
        Err(e) => Err(e),
        Ok(ph) => {
            let hint = merge_spec(database, ph);
            let category = match info.episode {
                Some(e) => ClassificationCategory::Episode { episode: e },
                None => ClassificationCategory::Movie,
            };
            let part = match (info.episode, info.part) {
                (Some(_), Some(x)) => x,
                _ => 0,
            };
            let hint2 = match (hint, info.episode, info.season) {
                (HintModel::Season { title, season: _, series }, Some(_), Some(s)) => HintModel::Season {
                    title,
                    season: s,
                    series,
                },
                _ => hint,
            };
            Ok(ClassificationModel { title, part, category, hint: hint2 })
        },
    }
}

/// The classification of an audio file: a song, a theme when its name
/// contains `theme`.
pub open spec fn audio_spec(p: MediaPath, database: HintModel) -> Result<ClassificationModel, ClassifyFailure> {
    let name = stem_or_empty(p);
    match path_hint(p) {
        Err(e) => Err(e),
        Ok(ph) => {
            let h = merge_spec(database, ph);
            Ok(
                ClassificationModel {
                    title: strip_year_spec(name).0,
                    part: 0,
                    category: ClassificationCategory::Song,
                    hint: if contains(name, "theme"@) {
                        HintModel::ThemeTarget { inner: Box::new(h) }
                    } else {
                        h
                    },
                },
            )
        },
    }
}

/// The classification of a file of unknown kind.
pub open spec fn empty_model(title: Seq<char>) -> ClassificationModel {
    ClassificationModel {
        title,
        part: 0,
        category: ClassificationCategory::Other,
        hint: HintModel::NoHint,
    }
}

/// The classification of any file.
pub open spec fn classify_spec(p: MediaPath, database: HintModel) -> Result<ClassificationModel, ClassifyFailure> {
    match file_type_of(p) {
        None => Ok(
            empty_model(
                match file_stem(p) {
                    Some(s) => s,
                    None => p.text@,
                },
            ),
        ),
        Some(FileType::Video) => video_spec(p, database),
        Some(FileType::Audio) => audio_spec(p, database),
        Some(FileType::Unknown) => Ok(empty_model(Seq::empty())),
    }
}

pub open spec fn result_view(r: Result<Classification, ClassifyError>) -> Result<ClassificationModel, ClassifyFailure> {
    match r {
        Ok(c) => Ok(classification_view(c)),
        Err(e) => Err(error_view(e)),
    }
}

pub open spec fn hint_result_view(r: Result<CollectionHint, ClassifyError>) -> Result<HintModel, ClassifyFailure> {
    match r {
        Ok(h) => Ok(hint_view(h)),
        Err(e) => Err(error_view(e)),
    }
}

impl Classification {
    /// A classification of nothing: no title, part 0, other, no hint.
    pub fn empty() -> (r: Self)
        ensures
            classification_view(r) == empty_model(Seq::empty()),
    {
        Classification {
            title: String::new(),
            part: 0,
            category: ClassificationCategory::Other,
            collectionhint: CollectionHint::NoHint,
        }
    }

    /// A classification of part 0.
    pub fn new(title: String, category: ClassificationCategory, collectionhint: CollectionHint) -> (r: Self)
        ensures
            r.title == title,
            r.part == 0,
            r.category == category,
            r.collectionhint == collectionhint,
    {
        Classification { title, part: 0, category, collectionhint }
    }

    /// The content type that the category stands for.
    pub fn content_type(&self) -> (r: ContentType)
        ensures
            r == (match self.category {
                ClassificationCategory::Other => ContentType::Other,
                ClassificationCategory::Movie => ContentType::Movie,
                ClassificationCategory::Episode { .. } => ContentType::Episode,
                ClassificationCategory::Song => ContentType::Song,
            }),
    {
        match self.category {
            ClassificationCategory::Other => ContentType::Other,
            ClassificationCategory::Movie => ContentType::Movie,
            ClassificationCategory::Episode { .. } => ContentType::Episode,
            ClassificationCategory::Song => ContentType::Song,
        }
    }
}

impl CollectionHint {
    pub fn franchise(title: String) -> (r: Self)
        ensures
            r == CollectionHint::Franchise(Franchise { title }),
    {
        CollectionHint::Franchise(Franchise { title })
    }

    pub fn movie(title: String, franchise: Option<Franchise>) -> (r: Self)
        ensures
            r == CollectionHint::Movie(Movie { title, franchise }),
    {
        CollectionHint::Movie(Movie { title, franchise })
    }

    pub fn series(title: String, franchise: Option<Franchise>) -> (r: Self)
        ensures
            r == CollectionHint::Series(Series { title, franchise }),
    {
        CollectionHint::Series(Series { title, franchise })
    }

    pub fn season(title: String, season: u64, series: Option<Series>) -> (r: Self)
        ensures
            r == CollectionHint::Season(Season { title, season, series }),
    {
        CollectionHint::Season(Season { title, season, series })
    }
}

fn string_of(v: &Vec<char>) -> (s: String)
    ensures
        s@ == v@,
{
    string_from_chars(v.as_slice())
}

/// The stem of the path, or nothing.
fn stem_chars(path: &MediaPath) -> (r: Vec<char>)
    ensures
        r@ == stem_or_empty(*path),
{
    match path.file_stem() {
        Some(s) => s,
        None => Vec::new(),
    }
}

/// The directory names that count for classification.
fn classifiable(path: &MediaPath) -> (r: Vec<Vec<char>>)
    ensures
        views(r@) == classifiable_directories(directory_names(*path)),
{
    let dirs = path.directory_names();
    let marker = to_chars("!noclassify");
    let mut r: Vec<Vec<char>> = Vec::new();
    let mut i: usize = 0;
    let ghost d = views(dirs@);
    assert(d.subrange(0, d.len() as int) =~= d);
    assert(views(r@) + classifiable_directories(d) =~= classifiable_directories(d));
    while i < dirs.len()
        invariant
            i <= dirs@.len(),
            d == views(dirs@),
            d == directory_names(*path),
            marker@ == "!noclassify"@,
            classifiable_directories(d) == views(r@) + classifiable_directories(
                d.subrange(i as int, d.len() as int),
            ),
        decreases dirs@.len() - i,
    {
        let ghost rest = d.subrange(i as int, d.len() as int);
        assert(rest[0] == dirs@[i as int]@);
        if contains_chars(dirs[i].as_slice(), marker.as_slice()) {
            assert(views(r@) + Seq::<Seq<char>>::empty() =~= views(r@));
            return r;
        }
        assert(rest.drop_first() =~= d.subrange(i + 1, d.len() as int));
        let ghost before = views(r@);
        let item = copy_range(dirs[i].as_slice(), 0, dirs[i].len());
        assert(item@ =~= dirs@[i as int]@);
        r.push(item);
        assert(views(r@) =~= before.push(dirs@[i as int]@));
        assert(before + (seq![rest[0]] + classifiable_directories(rest.drop_first())) =~= views(r@)
            + classifiable_directories(rest.drop_first()));
        i = i + 1;
    }
    assert(classifiable_directories(d.subrange(i as int, d.len() as int)) =~= Seq::<Seq<char>>::empty());
    assert(views(r@) + Seq::<Seq<char>>::empty() =~= views(r@));
    r
}

/// The collection that the directories of a path name.
pub fn infer_collection_from_path(path: &MediaPath) -> (r: Result<CollectionHint, ClassifyError>)
    ensures
        hint_result_view(r) == path_hint(*path),
{
    let preserved = stem_chars(path);
    let (t1, _) = strip_info(preserved.as_slice());
    let (original, _) = strip_year(t1.as_slice());
    let dirs = classifiable(path);
    let ghost ds = views(dirs@);
    if dirs.len() == 0 {
        return Ok(CollectionHint::NoHint);
    }
    let next = &dirs[0];
    assert(ds[0] == next@);
    assert(dirs.len() >= 2 ==> ds[1] == dirs@[1]@);
    assert(dirs.len() >= 3 ==> ds[2] == dirs@[2]@);
    let lowercase = to_lowercase(next.as_slice());
    let season_word = to_chars("season");
    if starts_with_chars(lowercase.as_slice(), season_word.as_slice()) {
        let rest = trim_start_matches_chars(lowercase.as_slice(), season_word.as_slice());
        let rest = trim_start_chars(rest.as_slice());
        let season_num = match parse_until_chars(rest.as_slice(), &Pattern::NonDigit, u64::MAX) {
            Some(n) => n,
            None => {
                return Err(ClassifyError::SeasonNumber { directory: string_of(next) });
            },
        };
        let after = match split_once_chars(next.as_slice(), &Pattern::Char('-')) {
            Some((_, b)) => b,
            None => {
                let whole = copy_range(next.as_slice(), 0, next.len());
                assert(whole@ =~= next@);
                whole
            },
        };
        let title = trim_chars(after.as_slice());
        let series = if dirs.len() >= 2 {
            let franchise = if dirs.len() >= 3 {
                string_of(&dirs[2])
            } else {
                string_of(&dirs[1])
            };
            Some(Series { title: string_of(&dirs[1]), franchise: Some(Franchise { title: franchise }) })
        } else {
            None
        };
        let r = CollectionHint::Season(Season { title: string_of(&title), season: season_num, series });
        Ok(r)
    } else if chars_equal(next.as_slice(), preserved.as_slice()) {
        let franchise = if dirs.len() >= 2 {
            string_of(&dirs[1])
        } else {
            string_of(&original)
        };
        Ok(CollectionHint::Movie(Movie { title: string_of(&original), franchise: Some(Franchise { title: franchise }) }))
    } else if starts_with_chars(original.as_slice(), next.as_slice()) {
        Ok(CollectionHint::Movie(Movie { title: string_of(&original), franchise: Some(Franchise { title: string_of(next) }) }))
    } else {
        Ok(CollectionHint::NoHint)
    }
}

/// How specific a hint is.
fn rank(h: &CollectionHint) -> (r: u8)
    ensures
        r as int == hint_rank(hint_view(*h)),
{
    match h {
        CollectionHint::NoHint => 0,
        CollectionHint::Franchise(_) => 1,
        CollectionHint::Series(_) => 2,
        CollectionHint::Season(_) => 3,
        CollectionHint::Movie(_) => 4,
        CollectionHint::ThemeTarget { .. } => 5,
    }
}

/// Combines the hint of the database with the hint of the path.
pub fn merge_hints(database_inferred: CollectionHint, path_inferred: CollectionHint) -> (r: CollectionHint)
    requires
        plain_hint(hint_view(database_inferred)),
        plain_hint(hint_view(path_inferred)),
    ensures
        hint_view(r) == merge_spec(hint_view(database_inferred), hint_view(path_inferred)),
{
    let d = rank(&database_inferred);
    let p = rank(&path_inferred);
    if d == 0 {
        path_inferred
    } else if p == 0 {
        database_inferred
    } else if d == p {
        path_inferred
    } else if d > p {
        database_inferred
    } else {
        path_inferred
    }
}

/// The collection of a file: what the database knows of its directories
/// combined with what its path names.
pub fn infer_collection(path: &MediaPath, database_inferred: CollectionHint) -> (r: Result<CollectionHint, ClassifyError>)
    requires
        plain_hint(hint_view(database_inferred)),
    ensures
        hint_result_view(r) == (match path_hint(*path) {
            Ok(ph) => Ok(merge_spec(hint_view(database_inferred), ph)),
            Err(e) => Err(e),
        }),
{
    let path_inferred = infer_collection_from_path(path)?;
    Ok(merge_hints(database_inferred, path_inferred))
}

/// Classifies a video file.
pub fn classify_video(path: &MediaPath, database_inferred: CollectionHint) -> (r: Result<Classification, ClassifyError>)
    requires
        plain_hint(hint_view(database_inferred)),
    ensures
        result_view(r) == video_spec(*path, hint_view(database_inferred)),
{
    let stem = stem_chars(path);
    let (t1, info) = strip_info(stem.as_slice());
    let (title, _) = strip_year(t1.as_slice());
    let mut c_part: u64 = 0;
    let mut c_season: Option<u64> = None;
    let category = match info.episode {
        Some(episode) => {
            if let Some(part) = info.part {
                c_part = part;
            }
            c_season = info.season;
            ClassificationCategory::Episode { episode }
        },
        None => ClassificationCategory::Movie,
    };
    let hint = infer_collection(path, database_inferred)?;
    let hint = match hint {
        CollectionHint::Season(s) => match c_season {
            Some(cs) => CollectionHint::Season(Season { title: s.title, season: cs, series: s.series }),
            None => CollectionHint::Season(s),
        },
        other => other,
    };
    Ok(Classification { title: string_of(&title), part: c_part, category, collectionhint: hint })
}

/// Classifies an audio file.
pub fn classify_audio(path: &MediaPath, database_inferred: CollectionHint) -> (r: Result<Classification, ClassifyError>)
    requires
        plain_hint(hint_view(database_inferred)),
    ensures
        result_view(r) == audio_spec(*path, hint_view(database_inferred)),
{
    let file_name = stem_chars(path);
    let theme = to_chars("theme");
    let collection = if contains_chars(file_name.as_slice(), theme.as_slice()) {
        let hint = infer_collection(path, database_inferred)?;
        CollectionHint::ThemeTarget { inner: Box::new(hint) }
    } else {
        infer_collection(path, database_inferred)?
    };
    let (title, _year) = strip_year(file_name.as_slice());
    Ok(Classification::new(string_of(&title), ClassificationCategory::Song, collection))
}

/// Classifies a file of unknown kind: nothing is known of it.
pub fn classify_unknown(_path: &MediaPath) -> (r: Classification)
    ensures
        classification_view(r) == empty_model(Seq::empty()),
{
    Classification::empty()
}

/// Classifies a file by its kind. `database_inferred` is what the database
/// knows of the collections of the file's directories.
pub fn classify(path: &MediaPath, database_inferred: CollectionHint) -> (r: Result<Classification, ClassifyError>)
    requires
        plain_hint(hint_view(database_inferred)),
    ensures
        result_view(r) == classify_spec(*path, hint_view(database_inferred)),
{
    let Some(file_type) = file_type(path) else {
        let mut classification = Classification::empty();
        classification.title = match path.file_stem() {
            Some(s) => string_of(&s),
            None => path.text.clone(),
        };
        return Ok(classification);
    };
    match file_type {
        FileType::Video => classify_video(path, database_inferred),
        FileType::Audio => classify_audio(path, database_inferred),
        FileType::Unknown => Ok(classify_unknown(path)),
    }
}

/// Combining hints keeps one of them, and the result is as specific as
/// the more specific of the two.
pub proof fn merge_keeps_the_more_specific_hint(database: HintModel, path: HintModel)
    ensures
        merge_spec(database, path) == database || merge_spec(database, path) == path,
        hint_rank(merge_spec(database, path)) == if hint_rank(database) >= hint_rank(path) {
            hint_rank(database)
        } else {
            hint_rank(path)
        },
{
}

/// A missing hint changes nothing, and a hint combined with itself stays.
pub proof fn merge_identities(h: HintModel)
    ensures
        merge_spec(HintModel::NoHint, h) == h,
        merge_spec(h, HintModel::NoHint) == h,
        merge_spec(h, h) == h,
{
}

/// The kind of file decides the category: videos are movies or episodes,
/// audio files songs, and anything else is filed as other, with no hint.
pub proof fn file_kind_decides_category(p: MediaPath, database: HintModel)
    ensures
        classify_spec(p, database) matches Ok(m) ==> {
            &&& file_type_of(p) == Some(FileType::Video) ==> (m.category is Movie
                || m.category is Episode)
            &&& file_type_of(p) == Some(FileType::Audio) ==> m.category is Song
            &&& (file_type_of(p) is None || file_type_of(p) == Some(FileType::Unknown)) ==> (
            m.category is Other && m.hint is NoHint)
        },
{
}

/// Classification fails only for a video or audio file whose nearest
/// classifiable directory is a season directory without a season number;
/// every other file is classified.
pub proof fn classification_fails_only_on_unnumbered_seasons(p: MediaPath, database: HintModel)
    ensures
        classify_spec(p, database) is Err <==> {
            let dirs = classifiable_directories(directory_names(p));
            &&& (file_type_of(p) == Some(FileType::Video) || file_type_of(p) == Some(FileType::Audio))
            &&& dirs.len() > 0
            &&& starts_with(unicode_lowercase(dirs[0]), "season"@)
            &&& season_number(dirs[0]) is None
            &&& classify_spec(p, database) == Err::<ClassificationModel, ClassifyFailure>(
                ClassifyFailure::SeasonNumber { directory: dirs[0] },
            )
        },
{
}

/// How the nearest directories name a file's collection. Without a
/// classifiable directory there is no hint. A nearest directory named like
/// the file (and not a season) makes the file a movie titled by its name,
/// whose franchise is the directory above that one, or the movie's own
/// title when there is none. A numbered season directory makes a season
/// whose series is the directory above it and whose franchise is the one
/// above that, or the series again.
pub proof fn nearest_directories_name_the_collection(p: MediaPath)
    ensures
        ({
            let dirs = classifiable_directories(directory_names(p));
            let title = base_title(p);
            &&& dirs.len() == 0 ==> path_hint(p) == Ok::<HintModel, ClassifyFailure>(HintModel::NoHint)
            &&& dirs.len() >= 2 && !starts_with(unicode_lowercase(dirs[0]), "season"@) && dirs[0]
                == stem_or_empty(p) ==> path_hint(p) == Ok::<HintModel, ClassifyFailure>(
                HintModel::Movie { title, franchise: Some(dirs[1]) },
            )
            &&& dirs.len() == 1 && !starts_with(unicode_lowercase(dirs[0]), "season"@) && dirs[0]
                == stem_or_empty(p) ==> path_hint(p) == Ok::<HintModel, ClassifyFailure>(
                HintModel::Movie { title, franchise: Some(title) },
            )
            &&& dirs.len() >= 1 && starts_with(unicode_lowercase(dirs[0]), "season"@) ==> match season_number(
                dirs[0],
            ) {
                None => path_hint(p) == Err::<HintModel, ClassifyFailure>(
                    ClassifyFailure::SeasonNumber { directory: dirs[0] },
                ),
                Some(n) => path_hint(p) matches Ok(HintModel::Season { season, series, .. })
                    && season == n && (dirs.len() == 1 ==> series is None) && (dirs.len() == 2
                    ==> series == Some(SeriesModel { title: dirs[1], franchise: Some(dirs[1]) }))
                    && (dirs.len() >= 3 ==> series == Some(
                    SeriesModel { title: dirs[1], franchise: Some(dirs[2]) },
                )),
            }
        }),
{
}

/// For a video classified without a hint from the database, a nearest
/// directory named like the file files it as a movie of the franchise in
/// the directory above.
pub proof fn movie_directory_sits_in_its_franchise(p: MediaPath)
    requires
        file_type_of(p) == Some(FileType::Video),
        classifiable_directories(directory_names(p)).len() >= 2,
        !starts_with(unicode_lowercase(classifiable_directories(directory_names(p))[0]), "season"@),
        classifiable_directories(directory_names(p))[0] == stem_or_empty(p),
    ensures
        classify_spec(p, HintModel::NoHint) matches Ok(m) && m.hint == (HintModel::Movie {
            title: base_title(p),
            franchise: Some(classifiable_directories(directory_names(p))[1]),
        }),
{
    nearest_directories_name_the_collection(p);
}

} // verus!
