//! What the name of a video file and the names of the directories above it
//! say about it: movie or episode, title, season, episode and part.
use vstd::prelude::*;
use crate::media_path::{components_view, split_at_dot, trailing_names, split_at_dot_chars, MediaPath};
use crate::text::{
    is_white, is_whitespace, trim_start, trim_start_chars, trim_start_matches,
    trim_start_matches_chars, ascii_lowercase, ascii_lowercase_chars, chars_equal, copy_range, parse_between,
    parse_between_chars, parse_until, parse_until_chars, rsplit_once, rsplit_once_chars,
    starts_with, starts_with_chars, to_chars, trim_end, trim_end_chars, views, Pat, Pattern,
};

verus! {

/// What a video file name says.
pub enum NameClassification {
    Movie { title: Vec<char>, part: Option<u64> },
    Episode { title: Vec<char>, season: Option<u64>, episode: Option<u64>, part: Option<u64> },
}

/// The mathematical form of a [`NameClassification`].
pub enum NameModel {
    Movie { title: Seq<char>, part: Option<u64> },
    Episode { title: Seq<char>, season: Option<u64>, episode: Option<u64>, part: Option<u64> },
}

pub open spec fn name_view(c: NameClassification) -> NameModel {
    match c {
        NameClassification::Movie { title, part } => NameModel::Movie { title: title@, part },
        NameClassification::Episode { title, season, episode, part } => NameModel::Episode {
            title: title@,
            season,
            episode,
            part,
        },
    }
}

/// The stem of a file name: what stands before its last dot.
pub open spec fn name_stem(name: Seq<char>) -> Seq<char> {
    let (before, after) = split_at_dot(name);
    match before {
        Some(b) => b,
        None => match after {
            Some(a) => a,
            None => Seq::empty(),
        },
    }
}

/// The stem before its last `-`, and the metadata after it; a stem without
/// `-` is all metadata.
pub open spec fn stem_parts(stem: Seq<char>) -> (Seq<char>, Seq<char>) {
    match rsplit_once(stem, Pat::Char('-')) {
        Some(parts) => parts,
        None => (Seq::empty(), stem),
    }
}

pub open spec fn number_after(metadata: Seq<char>, key: char) -> Option<u64> {
    match parse_between(metadata, Pat::Char(key), Pat::NonDigit, u64::MAX as nat) {
        Some(v) => Some(v as u64),
        None => None,
    }
}

/// The name without the metadata of an episode, trimmed at the end.
pub open spec fn name_rest(stem: Seq<char>) -> Seq<char> {
    let (begin, metadata) = stem_parts(stem);
    let is_movie = number_after(metadata, 's') is None && number_after(metadata, 'e') is None;
    trim_end(if is_movie { stem } else { begin })
}

/// The words of `s` after the word begun in `cur`: the runs of characters
/// that are not whitespace.
pub open spec fn words_from(s: Seq<char>, cur: Seq<char>) -> Seq<Seq<char>>
    decreases s.len(),
{
    if s.len() == 0 {
        if cur.len() > 0 {
            seq![cur]
        } else {
            Seq::empty()
        }
    } else if is_white(s[0]) {
        (if cur.len() > 0 {
            seq![cur]
        } else {
            Seq::empty()
        }) + words_from(s.drop_first(), Seq::empty())
    } else {
        words_from(s.drop_first(), cur.push(s[0]))
    }
}

/// `str::split_whitespace`.
pub open spec fn words(s: Seq<char>) -> Seq<Seq<char>> {
    words_from(s, Seq::empty())
}

/// Words joined with single spaces.
pub open spec fn joined(ws: Seq<Seq<char>>) -> Seq<char>
    decreases ws.len(),
{
    if ws.len() == 0 {
        Seq::empty()
    } else if ws.len() == 1 {
        ws[0]
    } else {
        joined(ws.drop_last()) + seq![' '] + ws.last()
    }
}

/// A file stem whose name, once the metadata of an episode is cut off,
/// holds a word: the name rules need one to look for the year.
pub open spec fn titled_stem(stem: Seq<char>) -> bool {
    words(name_rest(stem)).len() > 0
}

/// The classification that a file stem gives: the metadata after the
/// last `-` holds `s<season>`, `e<episode>`, `p<part>`; without season and
/// episode the file is a movie. When the last word is a character and a
/// year that fits a `u16` (`(1995`), the title is the words before it,
/// joined with single spaces; otherwise the title is the name as it
/// stands.
pub open spec fn stem_classification(stem: Seq<char>) -> NameModel {
    let (begin, metadata) = stem_parts(stem);
    let season = number_after(metadata, 's');
    let episode = number_after(metadata, 'e');
    let part = number_after(metadata, 'p');
    let rest = name_rest(stem);
    let ws = words(rest);
    let name = if ws.len() > 0 && parse_until(ws.last().drop_first(), Pat::NonDigit, u16::MAX as nat) is Some {
        joined(ws.drop_last())
    } else {
        rest
    };
    if season is None && episode is None {
        NameModel::Movie { title: name, part }
    } else {
        NameModel::Episode { title: name, season, episode, part }
    }
}

/// The words of a text.
fn split_words(s: &[char]) -> (r: Vec<Vec<char>>)
    ensures
        views(r@) == words(s@),
        forall|k: int| 0 <= k < r@.len() ==> (#[trigger] r@[k]).len() > 0,
{
    let n = s.len();
    let mut out: Vec<Vec<char>> = Vec::new();
    let mut cur: Vec<char> = Vec::new();
    let mut i: usize = 0;
    assert(s@.subrange(0, n as int) =~= s@);
    while i < n
        invariant
            i <= n,
            n == s@.len(),
            views(out@) + words_from(s@.subrange(i as int, n as int), cur@) == words(s@),
            forall|k: int| 0 <= k < out@.len() ==> (#[trigger] out@[k]).len() > 0,
        decreases n - i,
    {
        let ghost sub = s@.subrange(i as int, n as int);
        assert(sub.drop_first() =~= s@.subrange(i + 1, n as int));
        assert(sub[0] == s@[i as int]);
        let c = s[i];
        if is_whitespace(c) {
            if cur.len() > 0 {
                let ghost before = views(out@);
                let ghost w = cur@;
                out.push(cur);
                cur = Vec::new();
                assert(views(out@) =~= before.push(w));
                assert(before.push(w) + words_from(s@.subrange(i + 1, n as int), Seq::empty()) =~= before
                    + (seq![w] + words_from(s@.subrange(i + 1, n as int), Seq::empty())));
            } else {
                assert(cur@ =~= Seq::<char>::empty());
                assert(Seq::<Seq<char>>::empty() + words_from(s@.subrange(i + 1, n as int), Seq::empty())
                    =~= words_from(s@.subrange(i + 1, n as int), Seq::empty()));
            }
        } else {
            cur.push(c);
        }
        i = i + 1;
    }
    assert(s@.subrange(n as int, n as int) =~= Seq::<char>::empty());
    if cur.len() > 0 {
        let ghost before = views(out@);
        let ghost w = cur@;
        out.push(cur);
        assert(views(out@) =~= before + seq![w]);
    } else {
        assert(views(out@) + Seq::<Seq<char>>::empty() =~= views(out@));
    }
    out
}

/// The first `n` words joined with single spaces.
fn join_words(ws: &Vec<Vec<char>>, n: usize) -> (r: Vec<char>)
    requires
        n <= ws@.len(),
    ensures
        r@ == joined(views(ws@).subrange(0, n as int)),
{
    let ghost v = views(ws@);
    let mut out: Vec<char> = Vec::new();
    let mut k: usize = 0;
    assert(v.subrange(0, 0) =~= Seq::<Seq<char>>::empty());
    while k < n
        invariant
            k <= n <= ws@.len(),
            v == views(ws@),
            out@ == joined(v.subrange(0, k as int)),
        decreases n - k,
    {
        let ghost next = v.subrange(0, k + 1);
        assert(next.drop_last() =~= v.subrange(0, k as int));
        assert(next.last() == ws@[k as int]@);
        if k > 0 {
            out.push(' ');
        }
        crate::text::push_chars(&mut out, ws[k].as_slice());
        assert(out@ =~= joined(next));
        k = k + 1;
    }
    out
}

/// Classifies a file by its stem.
pub fn classify_stem(stem: &[char]) -> (r: NameClassification)
    requires
        titled_stem(stem@),
    ensures
        name_view(r) == stem_classification(stem@),
{
    let (begin, metadata) = match rsplit_once_chars(stem, &Pattern::Char('-')) {
        Some(parts) => parts,
        None => {
            let empty: Vec<char> = Vec::new();
            assert(empty@ =~= Seq::<char>::empty());
            assert(stem@.subrange(0, stem@.len() as int) =~= stem@);
            (empty, copy_range(stem, 0, stem.len()))
        },
    };
    let season = parse_between_chars(metadata.as_slice(), &Pattern::Char('s'), &Pattern::NonDigit, u64::MAX);
    let episode = parse_between_chars(metadata.as_slice(), &Pattern::Char('e'), &Pattern::NonDigit, u64::MAX);
    let part = parse_between_chars(metadata.as_slice(), &Pattern::Char('p'), &Pattern::NonDigit, u64::MAX);
    assert(season == number_after(metadata@, 's'));
    assert(episode == number_after(metadata@, 'e'));
    assert(part == number_after(metadata@, 'p'));
    let is_movie = season.is_none() && episode.is_none();
    let rest = if is_movie {
        trim_end_chars(stem)
    } else {
        trim_end_chars(begin.as_slice())
    };
    let ws = split_words(rest.as_slice());
    let n = ws.len();
    let ghost wv = views(ws@);
    assert(wv.last() == ws@[n - 1]@);
    let last = &ws[n - 1];
    let tail = copy_range(last.as_slice(), 1, last.len());
    assert(tail@ =~= wv.last().drop_first());
    let name = match parse_until_chars(tail.as_slice(), &Pattern::NonDigit, 65535) {
        Some(_) => {
            let j = join_words(&ws, n - 1);
            assert(wv.subrange(0, n - 1) =~= wv.drop_last());
            j
        },
        None => rest,
    };
    if is_movie {
        NameClassification::Movie { title: name, part }
    } else {
        NameClassification::Episode { title: name, season, episode, part }
    }
}

/// The stem of a path's file, for a path that has one.
pub open spec fn path_stem(p: MediaPath) -> Seq<char> {
    name_stem(trailing_names(components_view(p))[0])
}

/// A path that ends in a file name whose stem has a title.
pub open spec fn titled_path(p: MediaPath) -> bool {
    &&& trailing_names(components_view(p)).len() > 0
    &&& titled_stem(path_stem(p))
}

/// Classifies a video by its file name.
pub fn infer_from_video_filename(path: &MediaPath) -> (r: NameClassification)
    requires
        titled_path(*path),
    ensures
        name_view(r) == stem_classification(path_stem(*path)),
{
    let names = path.trailing_names();
    assert(views(names@)[0] == names@[0]@);
    let stem = stem_of(names[0].as_slice());
    classify_stem(stem.as_slice())
}

/// The stem of a file name.
fn stem_of(name: &[char]) -> (r: Vec<char>)
    ensures
        r@ == name_stem(name@),
{
    let (before, after) = split_at_dot_chars(name);
    match before {
        Some(b) => b,
        None => match after {
            Some(a) => a,
            None => Vec::new(),
        },
    }
}


/// What the path of a video says.
pub enum PathClassification {
    Movie { franchise: Option<Vec<char>> },
    Episode {
        episode_title: Option<Vec<char>>,
        episode: Option<u64>,
        season_title: Option<Vec<char>>,
        season: Option<u64>,
        series_title: Option<Vec<char>>,
        franchise: Option<Vec<char>>,
    },
}

/// The mathematical form of a [`PathClassification`].
pub enum PathModel {
    Movie { franchise: Option<Seq<char>> },
    Episode {
        episode_title: Option<Seq<char>>,
        episode: Option<u64>,
        season_title: Option<Seq<char>>,
        season: Option<u64>,
        series_title: Option<Seq<char>>,
        franchise: Option<Seq<char>>,
    },
}

pub open spec fn opt_view(v: Option<Vec<char>>) -> Option<Seq<char>> {
    match v {
        Some(v) => Some(v@),
        None => None,
    }
}

pub open spec fn path_view(c: PathClassification) -> PathModel {
    match c {
        PathClassification::Movie { franchise } => PathModel::Movie { franchise: opt_view(franchise) },
        PathClassification::Episode {
            episode_title,
            episode,
            season_title,
            season,
            series_title,
            franchise,
        } => PathModel::Episode {
            episode_title: opt_view(episode_title),
            episode,
            season_title: opt_view(season_title),
            season,
            series_title: opt_view(series_title),
            franchise: opt_view(franchise),
        },
    }
}

/// The state of the walk up the directories: the step counter, the
/// directories not yet read, the names collected, and the season and
/// episode numbers found.
pub struct Walk {
    pub step: int,
    pub rest: Seq<Seq<char>>,
    pub names: Seq<Seq<char>>,
    pub season: Option<u64>,
    pub episode: Option<u64>,
}

/// The number after a directory's leading word (`season`, `episode`) and
/// any whitespace: the digits that follow, as a `u64`.
pub open spec fn dir_number(lower: Seq<char>, word: Seq<char>) -> Option<nat> {
    parse_until(trim_start(trim_start_matches(lower, word)), Pat::NonDigit, u64::MAX as nat)
}

fn read_dir_number(lower: &[char], word: &[char]) -> (r: Option<u64>)
    ensures
        r matches Some(v) ==> dir_number(lower@, word@) == Some(v as nat),
        r is None ==> dir_number(lower@, word@) is None,
{
    let after = trim_start_matches_chars(lower, word);
    let after = trim_start_chars(after.as_slice());
    parse_until_chars(after.as_slice(), &Pattern::NonDigit, u64::MAX)
}

/// The walk up to four directories: `episode<n>` may stand among the
/// first two and `season<n>` anywhere, with any whitespace before the
/// number; reading one moves the counter past
/// the directories that can no longer hold it. Every other directory adds
/// its name.
pub open spec fn walk(w: Walk) -> Walk
    decreases 4 - w.step,
{
    if w.step >= 4 {
        w
    } else if w.rest.len() == 0 {
        walk(Walk { step: w.step + 1, ..w })
    } else {
        let dir = w.rest[0];
        let lower = ascii_lowercase(dir);
        let rest = w.rest.drop_first();
        if starts_with(lower, "episode"@) && w.step < 2 {
            match dir_number(lower, "episode"@) {
                Some(e) => walk(Walk { step: 2, rest, episode: Some(e as u64), ..w }),
                None => walk(Walk { step: w.step + 1, rest, ..w }),
            }
        } else if starts_with(lower, "season"@) {
            match dir_number(lower, "season"@) {
                Some(s) => walk(Walk { step: 4, rest, season: Some(s as u64), ..w }),
                None => walk(Walk { step: w.step + 1, rest, ..w }),
            }
        } else {
            walk(Walk { step: w.step + 1, rest, names: w.names.push(dir), ..w })
        }
    }
}

/// `Vec::dedup`: consecutive equal names collapsed into the first.
pub open spec fn dedup(s: Seq<Seq<char>>) -> Seq<Seq<char>>
    decreases s.len(),
{
    if s.len() <= 1 {
        s
    } else if s.last() == s[s.len() - 2] {
        dedup(s.drop_last())
    } else {
        dedup(s.drop_last()).push(s.last())
    }
}

/// The name at position `k` from the end, if there is one.
pub open spec fn from_end(s: Seq<Seq<char>>, k: int) -> Option<Seq<char>> {
    if k < s.len() {
        Some(s[s.len() - 1 - k])
    } else {
        None
    }
}

/// The first name, from the end, after the last one, that differs from `stem`.
pub open spec fn franchise_before(s: Seq<Seq<char>>, stem: Seq<char>) -> Option<Seq<char>>
    decreases s.len(),
{
    if s.len() == 0 {
        None
    } else if s.last() != stem {
        Some(s.last())
    } else {
        franchise_before(s.drop_last(), stem)
    }
}

/// What the path of a video says. The most verbose form is
/// `<series>/season <n>/<season title>/episode <n>/<episode title>/<file>`;
/// the title from the file name counts as the first name. With a season or
/// an episode number the names, read from the top, give series, season and
/// episode title (the series is also the franchise); without, the path is a
/// movie whose franchise is the first name below the top that is not the
/// file's stem.
pub open spec fn video_path_spec(p: MediaPath) -> PathModel {
    let comps = trailing_names(components_view(p));
    if comps.len() == 0 {
        PathModel::Movie { franchise: None }
    } else {
        video_names_spec(comps)
    }
}

/// What the names at the end of a path, the file name first, say.
pub open spec fn video_names_spec(comps: Seq<Seq<char>>) -> PathModel {
    let file_name = comps[0];
    let (title, season0, episode0) = match stem_classification(name_stem(file_name)) {
        NameModel::Movie { title, .. } => (title, None, None),
        NameModel::Episode { title, season, episode, .. } => (title, season, episode),
    };
    let w = walk(
        Walk { step: 0, rest: comps.drop_first(), names: seq![title], season: season0, episode: episode0 },
    );
    let names = if w.rest.len() > 0 {
        w.names.push(w.rest[0])
    } else {
        w.names
    };
    if w.season is Some || w.episode is Some {
        let d = dedup(names);
        PathModel::Episode {
            episode_title: from_end(d, 2),
            episode: w.episode,
            season_title: from_end(d, 1),
            season: w.season,
            series_title: from_end(d, 0),
            franchise: from_end(d, 0),
        }
    } else {
        PathModel::Movie {
            franchise: if names.len() == 0 {
                None
            } else {
                franchise_before(names.drop_last(), name_stem(file_name))
            },
        }
    }
}

/// Directories none of which names a season or an episode.
pub open spec fn no_numbered_dirs(dirs: Seq<Seq<char>>) -> bool {
    forall|k: int|
        0 <= k < dirs.len() ==> !starts_with(ascii_lowercase(#[trigger] dirs[k]), "season"@)
            && !starts_with(ascii_lowercase(dirs[k]), "episode"@)
}

proof fn lemma_walk_keeps_numbers(w: Walk)
    requires
        no_numbered_dirs(w.rest),
    ensures
        walk(w).season == w.season,
        walk(w).episode == w.episode,
    decreases 4 - w.step,
{
    if w.step < 4 {
        if w.rest.len() == 0 {
            lemma_walk_keeps_numbers(Walk { step: w.step + 1, ..w });
        } else {
            let rest = w.rest.drop_first();
            assert(no_numbered_dirs(rest)) by {
                assert forall|k: int| 0 <= k < rest.len() implies !starts_with(
                    ascii_lowercase(#[trigger] rest[k]),
                    "season"@,
                ) && !starts_with(ascii_lowercase(rest[k]), "episode"@) by {
                    assert(rest[k] == w.rest[k + 1]);
                }
            }
            assert(w.rest[0] == w.rest[0]);
            lemma_walk_keeps_numbers(
                Walk { step: w.step + 1, rest, names: w.names.push(w.rest[0]), ..w },
            );
        }
    }
}

/// Where no directory above the file names a season or an episode, the
/// path says what the file name says: a movie for a movie's name, and for
/// an episode's name an episode with the same season and episode numbers.
pub proof fn path_numbers_come_from_the_file_name(p: MediaPath)
    requires
        titled_path(p),
        no_numbered_dirs(trailing_names(components_view(p)).drop_first()),
    ensures
        match stem_classification(path_stem(p)) {
            NameModel::Movie { .. } => video_path_spec(p) is Movie,
            NameModel::Episode { season, episode, .. } => video_path_spec(p) matches PathModel::Episode {
                season: s,
                episode: e,
                ..
            } && s == season && e == episode,
        },
{
    let comps = trailing_names(components_view(p));
    let (title, season0, episode0) = match stem_classification(name_stem(comps[0])) {
        NameModel::Movie { title, .. } => (title, None::<u64>, None::<u64>),
        NameModel::Episode { title, season, episode, .. } => (title, season, episode),
    };
    let w0 = Walk { step: 0, rest: comps.drop_first(), names: seq![title], season: season0, episode: episode0 };
    lemma_walk_keeps_numbers(w0);
}

proof fn lemma_dedup_last(s: Seq<Seq<char>>)
    requires
        s.len() > 0,
    ensures
        dedup(s).len() > 0,
        dedup(s).last() == s.last(),
    decreases s.len(),
{
    if s.len() > 1 {
        lemma_dedup_last(s.drop_last());
    }
}

/// `Vec::dedup` on names.
fn dedup_names(s: &Vec<Vec<char>>) -> (r: Vec<Vec<char>>)
    ensures
        views(r@) == dedup(views(s@)),
{
    let ghost v = views(s@);
    let mut r: Vec<Vec<char>> = Vec::new();
    let mut k: usize = 0;
    while k < s.len()
        invariant
            k <= s@.len(),
            v == views(s@),
            views(r@) == dedup(v.subrange(0, k as int)),
        decreases s@.len() - k,
    {
        let ghost pre = v.subrange(0, k as int);
        let ghost next = v.subrange(0, k + 1);
        assert(next.drop_last() =~= pre);
        assert(next.last() == s@[k as int]@);
        if k == 0 {
            let item = copy_range(s[k].as_slice(), 0, s[k].len());
            assert(item@ =~= s@[k as int]@);
            r.push(item);
            assert(views(r@) =~= next);
        } else {
            proof {
                lemma_dedup_last(pre);
            }
            let n = r.len();
            assert(views(r@)[n - 1] == r@[n - 1]@);
            assert(next[next.len() - 2] == pre.last());
            if chars_equal(r[n - 1].as_slice(), s[k].as_slice()) {
            } else {
                let item = copy_range(s[k].as_slice(), 0, s[k].len());
                assert(item@ =~= s@[k as int]@);
                let ghost before = views(r@);
                r.push(item);
                assert(views(r@) =~= before.push(next.last()));
            }
        }
        k = k + 1;
    }
    assert(v.subrange(0, s@.len() as int) =~= v);
    r
}

/// The name `k` positions from the end.
fn name_from_end(s: &Vec<Vec<char>>, k: usize) -> (r: Option<Vec<char>>)
    ensures
        opt_view(r) == from_end(views(s@), k as int),
{
    if k < s.len() {
        let i = s.len() - 1 - k;
        let item = copy_range(s[i].as_slice(), 0, s[i].len());
        assert(item@ =~= s@[i as int]@);
        Some(item)
    } else {
        None
    }
}

/// The first name, from the end, that differs from `stem`, among the
/// first `n` names.
fn franchise_among(s: &Vec<Vec<char>>, n: usize, stem: &[char]) -> (r: Option<Vec<char>>)
    requires
        n <= s@.len(),
    ensures
        opt_view(r) == franchise_before(views(s@).subrange(0, n as int), stem@),
{
    let ghost v = views(s@);
    let mut i: usize = n;
    while i > 0
        invariant
            i <= n <= s@.len(),
            v == views(s@),
            franchise_before(v.subrange(0, n as int), stem@) == franchise_before(
                v.subrange(0, i as int),
                stem@,
            ),
        decreases i,
    {
        let ghost cur = v.subrange(0, i as int);
        assert(cur.last() == s@[i - 1]@);
        assert(cur.drop_last() =~= v.subrange(0, i - 1));
        if !chars_equal(s[i - 1].as_slice(), stem) {
            let item = copy_range(s[i - 1].as_slice(), 0, s[i - 1].len());
            assert(item@ =~= s@[i - 1]@);
            return Some(item);
        }
        i = i - 1;
    }
    None
}

/// Classifies a video by its path.
pub fn infer_from_video_path(path: &MediaPath) -> (r: PathClassification)
    requires
        trailing_names(components_view(*path)).len() > 0 ==> titled_stem(path_stem(*path)),
    ensures
        path_view(r) == video_path_spec(*path),
{
    let comps = path.trailing_names();
    let ghost cs = views(comps@);
    if comps.len() == 0 {
        return PathClassification::Movie { franchise: None };
    }
    let file_name = &comps[0];
    assert(cs[0] == file_name@);
    let stem = stem_of(file_name.as_slice());
    let mut season: Option<u64> = None;
    let mut episode: Option<u64> = None;
    let mut names: Vec<Vec<char>> = Vec::new();
    match classify_stem(stem.as_slice()) {
        NameClassification::Movie { title, .. } => {
            names.push(title);
        },
        NameClassification::Episode { title, season: s, episode: e, .. } => {
            season = s;
            episode = e;
            names.push(title);
        },
    }
    let ghost title_seq = match stem_classification(name_stem(cs[0])) {
        NameModel::Movie { title, .. } => title,
        NameModel::Episode { title, .. } => title,
    };
    assert(views(names@) =~= seq![title_seq]);
    let episode_word = to_chars("episode");
    let season_word = to_chars("season");
    let ghost w0 = Walk {
        step: 0,
        rest: cs.drop_first(),
        names: views(names@),
        season,
        episode,
    };
    let ghost target = walk(w0);
    let mut next: usize = 1;
    let mut i: usize = 0;
    while i < 4
        invariant
            1 <= next <= comps@.len(),
            names@.len() >= 1,
            i <= 4,
            cs == views(comps@),
            episode_word@ == "episode"@,
            season_word@ == "season"@,
            walk(
                Walk {
                    step: i as int,
                    rest: cs.subrange(next as int, cs.len() as int),
                    names: views(names@),
                    season,
                    episode,
                },
            ) == target,
        decreases 4 - i,
    {
        let ghost w = Walk {
            step: i as int,
            rest: cs.subrange(next as int, cs.len() as int),
            names: views(names@),
            season,
            episode,
        };
        if next < comps.len() {
            let dir = &comps[next];
            assert(w.rest[0] == dir@);
            assert(w.rest.drop_first() =~= cs.subrange(next + 1, cs.len() as int));
            let lower = ascii_lowercase_chars(dir.as_slice());
            if starts_with_chars(lower.as_slice(), episode_word.as_slice()) && i < 2 {
                match read_dir_number(lower.as_slice(), episode_word.as_slice()) {
                    Some(e) => {
                        episode = Some(e);
                        i = 1;
                    },
                    None => {},
                }
            } else if starts_with_chars(lower.as_slice(), season_word.as_slice()) && i < 4 {
                match read_dir_number(lower.as_slice(), season_word.as_slice()) {
                    Some(s) => {
                        season = Some(s);
                        i = 3;
                    },
                    None => {},
                }
            } else {
                let item = copy_range(dir.as_slice(), 0, dir.len());
                assert(item@ =~= dir@);
                let ghost before = views(names@);
                names.push(item);
                assert(views(names@) =~= before.push(dir@));
            }
            next = next + 1;
        } else {
            assert(w.rest.len() == 0);
        }
        i = i + 1;
    }
    let ghost wf = Walk {
        step: i as int,
        rest: cs.subrange(next as int, cs.len() as int),
        names: views(names@),
        season,
        episode,
    };
    assert(walk(wf) == wf);
    if next < comps.len() {
        let item = copy_range(comps[next].as_slice(), 0, comps[next].len());
        assert(item@ =~= comps@[next as int]@);
        let ghost before = views(names@);
        names.push(item);
        assert(views(names@) =~= before.push(wf.rest[0]));
    }
    if season.is_some() || episode.is_some() {
        let d = dedup_names(&names);
        PathClassification::Episode {
            episode_title: name_from_end(&d, 2),
            episode,
            season_title: name_from_end(&d, 1),
            season,
            series_title: name_from_end(&d, 0),
            franchise: name_from_end(&d, 0),
        }
    } else {
        let n = names.len();
        assert(views(names@).drop_last() =~= views(names@).subrange(0, n - 1));
        PathClassification::Movie { franchise: franchise_among(&names, n - 1, stem.as_slice()) }
    }
}

/// The franchise a movie is filed under: the one its path names, or else
/// a franchise of its own title.
pub fn movie_franchise(title: Vec<char>, path: PathClassification) -> (r: Vec<char>)
    ensures
        r@ == match path_view(path) {
            PathModel::Movie { franchise } => match franchise {
                Some(f) => f,
                None => title@,
            },
            PathModel::Episode { franchise, .. } => match franchise {
                Some(f) => f,
                None => title@,
            },
        },
{
    let franchise = match path {
        PathClassification::Movie { franchise } => franchise,
        PathClassification::Episode { franchise, .. } => franchise,
    };
    match franchise {
        Some(f) => f,
        None => title,
    }
}

/// What is known of an episode once its file name and its path are read.
pub struct EpisodeClassification {
    pub episode_title: Option<Vec<char>>,
    pub episode: Option<u64>,
    pub season_title: Option<Vec<char>>,
    pub season: Option<u64>,
    pub series_title: Option<Vec<char>>,
    pub part: Option<u64>,
    pub franchise: Option<Vec<char>>,
}

pub open spec fn or_else<T>(a: Option<T>, b: Option<T>) -> Option<T> {
    if a is Some {
        a
    } else {
        b
    }
}

fn copy_opt(v: &Option<Vec<char>>) -> (r: Option<Vec<char>>)
    ensures
        opt_view(r) == opt_view(*v),
{
    match v {
        Some(x) => Some(copy_range(x.as_slice(), 0, x.len())),
        None => None,
    }
}

/// The episode's numbers from its file name, completed by what its path
/// says: the file name wins where it gives a number; titles come from the
/// path; the franchise is the path's, or else its series.
pub fn merge_episode(season: Option<u64>, episode: Option<u64>, part: Option<u64>, path: PathClassification) -> (r:
    EpisodeClassification)
    ensures
        r.part == part,
        match path_view(path) {
            PathModel::Episode {
                episode_title: et,
                episode: e,
                season_title: st,
                season: s,
                series_title: se,
                franchise: f,
            } => {
                &&& opt_view(r.episode_title) == et
                &&& r.episode == or_else(episode, e)
                &&& opt_view(r.season_title) == st
                &&& r.season == or_else(season, s)
                &&& opt_view(r.series_title) == se
                &&& opt_view(r.franchise) == or_else(f, se)
            },
            PathModel::Movie { .. } => {
                &&& r.episode_title is None
                &&& r.episode == episode
                &&& r.season_title is None
                &&& r.season == season
                &&& r.series_title is None
                &&& r.franchise is None
            },
        },
{
    match path {
        PathClassification::Episode {
            episode_title,
            episode: e,
            season_title,
            season: s,
            series_title,
            franchise,
        } => {
            let fr = match franchise {
                Some(f) => Some(f),
                None => copy_opt(&series_title),
            };
            EpisodeClassification {
                episode_title,
                episode: if episode.is_some() {
                    episode
                } else {
                    e
                },
                season_title,
                season: if season.is_some() {
                    season
                } else {
                    s
                },
                series_title,
                part,
                franchise: fr,
            }
        },
        PathClassification::Movie { .. } => EpisodeClassification {
            episode_title: None,
            episode,
            season_title: None,
            season,
            series_title: None,
            part,
            franchise: None,
        },
    }
}

/// How a video file is referenced: directly by its data file (flag 0),
/// or through the part of a multi-part video (flag 1).
#[derive(Clone, Copy, PartialEq, Eq, Structural, Debug)]
pub enum PartReference {
    Direct { data_id: u64 },
    Multipart { part: u64 },
}

impl PartReference {
    pub fn flag(&self) -> (r: u64)
        ensures
            r == (if self is Direct { 0u64 } else { 1u64 }),
    {
        match self {
            PartReference::Direct { .. } => 0,
            PartReference::Multipart { .. } => 1,
        }
    }
}

pub fn part_reference(part: Option<u64>, data_id: u64) -> (r: PartReference)
    ensures
        r == match part {
            Some(p) => PartReference::Multipart { part: p },
            None => PartReference::Direct { data_id },
        },
{
    match part {
        Some(p) => PartReference::Multipart { part: p },
        None => PartReference::Direct { data_id },
    }
}

/// What storing an episode does, given the episode already stored with
/// the same season, number and title (its id, video and reference flag).
#[derive(Clone, Copy, PartialEq, Eq, Structural, Debug)]
pub enum EpisodeWrite {
    /// No such episode yet: insert it.
    Insert,
    /// The stored episode pointed at one video: point it at the new
    /// reference and keep its old video as part 0.
    MakeMultipart { id: u64, video_id: u64 },
    /// The stored episode is multi-part already: move the new parts there.
    JoinMultipart { video_id: u64 },
    /// A reference flag this version does not know: leave it.
    Keep,
}

pub fn episode_write(existing: Option<(u64, u64, u64)>) -> (r: EpisodeWrite)
    ensures
        r == match existing {
            None => EpisodeWrite::Insert,
            Some((id, video_id, flag)) => if flag == 0 {
                EpisodeWrite::MakeMultipart { id, video_id }
            } else if flag == 1 {
                EpisodeWrite::JoinMultipart { video_id }
            } else {
                EpisodeWrite::Keep
            },
        },
{
    match existing {
        None => EpisodeWrite::Insert,
        Some((id, video_id, flag)) => if flag == 0 {
            EpisodeWrite::MakeMultipart { id, video_id }
        } else if flag == 1 {
            EpisodeWrite::JoinMultipart { video_id }
        } else {
            EpisodeWrite::Keep
        },
    }
}

/// A directory that names neither a season nor an episode.
pub open spec fn plain_dir(d: Seq<char>) -> bool {
    !starts_with(ascii_lowercase(d), "season"@) && !starts_with(ascii_lowercase(d), "episode"@)
}

proof fn lemma_walk_plain_prefix(w: Walk, j: int)
    requires
        0 <= j <= w.rest.len(),
        0 <= w.step,
        w.step + j <= 4,
        forall|k: int| 0 <= k < j ==> plain_dir(#[trigger] w.rest[k]),
    ensures
        walk(w) == walk(
            Walk {
                step: w.step + j,
                rest: w.rest.subrange(j, w.rest.len() as int),
                names: w.names + w.rest.subrange(0, j),
                ..w
            },
        ),
    decreases j,
{
    if j == 0 {
        assert(w.rest.subrange(0, w.rest.len() as int) =~= w.rest);
        assert(w.names + w.rest.subrange(0, 0) =~= w.names);
    } else {
        let dir = w.rest[0];
        assert(plain_dir(w.rest[0]));
        let w1 = Walk { step: w.step + 1, rest: w.rest.drop_first(), names: w.names.push(dir), ..w };
        assert(walk(w) == walk(w1));
        assert forall|k: int| 0 <= k < j - 1 implies plain_dir(#[trigger] w1.rest[k]) by {
            assert(w1.rest[k] == w.rest[k + 1]);
            assert(plain_dir(w.rest[k + 1]));
        }
        lemma_walk_plain_prefix(w1, j - 1);
        assert(w1.rest.subrange(j - 1, w1.rest.len() as int) =~= w.rest.subrange(j, w.rest.len() as int));
        assert(w1.names + w1.rest.subrange(0, j - 1) =~= w.names + w.rest.subrange(0, j));
    }
}

/// A numbered season directory ends the walk up the directories: the
/// directory right above it is the series (and the franchise), whatever
/// lies further up. The season directory may stand directly above the file
/// or above up to three directories that name neither a season nor an
/// episode.
pub proof fn season_directory_ends_the_walk(p: MediaPath, j: int)
    requires
        1 <= j <= 4,
        j + 1 < trailing_names(components_view(p)).len(),
        forall|k: int| 1 <= k < j ==> plain_dir(#[trigger] trailing_names(components_view(p))[k]),
        starts_with(ascii_lowercase(trailing_names(components_view(p))[j]), "season"@),
        dir_number(ascii_lowercase(trailing_names(components_view(p))[j]), "season"@) is Some,
    ensures
        video_path_spec(p) matches PathModel::Episode { season, series_title, franchise, .. } && season
            == Some(dir_number(ascii_lowercase(trailing_names(components_view(p))[j]), "season"@)->0 as u64)
            && series_title == Some(trailing_names(components_view(p))[j + 1]) && franchise == Some(
            trailing_names(components_view(p))[j + 1],
        ),
{
    reveal_strlit("season");
    reveal_strlit("episode");
    let comps = trailing_names(components_view(p));
    let file_name = comps[0];
    let (title, season0, episode0) = match stem_classification(name_stem(file_name)) {
        NameModel::Movie { title, .. } => (title, None::<u64>, None::<u64>),
        NameModel::Episode { title, season, episode, .. } => (title, season, episode),
    };
    let w0 = Walk { step: 0, rest: comps.drop_first(), names: seq![title], season: season0, episode: episode0 };
    assert forall|k: int| 0 <= k < j - 1 implies plain_dir(#[trigger] w0.rest[k]) by {
        assert(w0.rest[k] == comps[k + 1]);
        assert(plain_dir(comps[k + 1]));
    }
    lemma_walk_plain_prefix(w0, j - 1);
    let w1 = Walk {
        step: j - 1,
        rest: w0.rest.subrange(j - 1, w0.rest.len() as int),
        names: w0.names + w0.rest.subrange(0, j - 1),
        ..w0
    };
    assert(w1.rest[0] == comps[j]);
    let lower = ascii_lowercase(comps[j]);
    assert("season"@.len() == 6 && "season"@[0] == 's');
    assert("episode"@.len() == 7 && "episode"@[0] == 'e');
    assert(lower.subrange(0, 6)[0] == lower[0]);
    assert(lower[0] == 's');
    if starts_with(lower, "episode"@) {
        assert(lower.subrange(0, 7)[0] == lower[0]);
    }
    assert(!starts_with(lower, "episode"@));
    let n = dir_number(lower, "season"@)->0;
    let w2 = Walk { step: 4, rest: w1.rest.drop_first(), season: Some(n as u64), ..w1 };
    assert(walk(w1) == walk(w2));
    assert(walk(w2) == w2);
    assert(w2.rest[0] == comps[j + 1]);
    let names = w2.names.push(w2.rest[0]);
    lemma_dedup_last(names);
}

/// A numbered episode directory directly above the file is read, and two
/// more directories above it that name neither a season nor an episode are
/// the titles; the directory above those is the series.
pub proof fn episode_directory_leaves_two_titles(p: MediaPath)
    requires
        4 < trailing_names(components_view(p)).len(),
        starts_with(ascii_lowercase(trailing_names(components_view(p))[1]), "episode"@),
        dir_number(ascii_lowercase(trailing_names(components_view(p))[1]), "episode"@) is Some,
        plain_dir(trailing_names(components_view(p))[2]),
        plain_dir(trailing_names(components_view(p))[3]),
    ensures
        video_path_spec(p) matches PathModel::Episode { episode, series_title, .. } && episode == Some(
            dir_number(ascii_lowercase(trailing_names(components_view(p))[1]), "episode"@)->0 as u64,
        ) && series_title == Some(trailing_names(components_view(p))[4]),
{
    let comps = trailing_names(components_view(p));
    let file_name = comps[0];
    let (title, season0, episode0) = match stem_classification(name_stem(file_name)) {
        NameModel::Movie { title, .. } => (title, None::<u64>, None::<u64>),
        NameModel::Episode { title, season, episode, .. } => (title, season, episode),
    };
    let w0 = Walk { step: 0, rest: comps.drop_first(), names: seq![title], season: season0, episode: episode0 };
    let e = dir_number(ascii_lowercase(comps[1]), "episode"@)->0;
    assert(w0.rest[0] == comps[1]);
    let w1 = Walk { step: 2, rest: w0.rest.drop_first(), episode: Some(e as u64), ..w0 };
    assert(walk(w0) == walk(w1));
    assert(w1.rest[0] == comps[2] && w1.rest[1] == comps[3]);
    lemma_walk_plain_prefix(w1, 2);
    let w2 = Walk {
        step: 4,
        rest: w1.rest.subrange(2, w1.rest.len() as int),
        names: w1.names + w1.rest.subrange(0, 2),
        ..w1
    };
    assert(walk(w2) == w2);
    assert(w2.rest[0] == comps[4]);
    let names = w2.names.push(w2.rest[0]);
    lemma_dedup_last(names);
}

} // verus!
