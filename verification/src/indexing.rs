//! The decisions of an indexing pass: which directory entries are media
//! files, which database entries still exist on disk, which content
//! changed, and where new content is filed.
use vstd::prelude::*;
use crate::db_types::TableId;
use crate::classify::{
    franchise_view, hint_view, opt_series_view, Classification, ClassificationCategory, ClassifyError,
    CollectionHint, Franchise, HintModel, Season, Series,
};

verus! {

/// What to do with one entry of a directory listing.
pub enum ScanStep {
    /// Scan this subdirectory in turn, at this point of the listing.
    Descend(String),
    /// Collect this file.
    File(String),
}

/// The steps of a listing of (path, is a directory) entries, in order:
/// files are collected; directories are scanned when `recurse` is set and
/// skipped otherwise.
pub open spec fn scan_steps(entries: Seq<(Seq<char>, bool)>, recurse: bool) -> Seq<(Seq<char>, bool)>
    decreases entries.len(),
{
    if entries.len() == 0 {
        Seq::empty()
    } else {
        let rest = scan_steps(entries.drop_last(), recurse);
        let e = entries.last();
        if e.1 && !recurse {
            rest
        } else {
            rest.push(e)
        }
    }
}

pub open spec fn entry_views(s: Seq<(String, bool)>) -> Seq<(Seq<char>, bool)> {
    s.map_values(|e: (String, bool)| (e.0@, e.1))
}

/// A step as plain values: the path, and whether to descend into it.
pub open spec fn step_view(s: ScanStep) -> (Seq<char>, bool) {
    match s {
        ScanStep::Descend(p) => (p@, true),
        ScanStep::File(p) => (p@, false),
    }
}

pub open spec fn step_views(s: Seq<ScanStep>) -> Seq<(Seq<char>, bool)> {
    s.map_values(|x: ScanStep| step_view(x))
}

/// The steps for one directory listing.
pub fn scan_dir(entries: Vec<(String, bool)>, recurse: bool) -> (r: Vec<ScanStep>)
    ensures
        step_views(r@) == scan_steps(entry_views(entries@), recurse),
{
    let ghost all = entry_views(entries@);
    let count = entries.len();
    let mut rest = entries;
    let mut out: Vec<ScanStep> = Vec::new();
    let mut k: usize = 0;
    while rest.len() > 0
        invariant
            k + rest@.len() == count,
            all.len() == count,
            entry_views(rest@) == all.subrange(k as int, count as int),
            step_views(out@) == scan_steps(all.subrange(0, k as int), recurse),
        decreases rest@.len(),
    {
        let ghost r0 = rest@;
        let (path, is_dir) = rest.remove(0);
        assert(entry_views(r0)[0] == all[k as int]);
        assert(entry_views(rest@) =~= entry_views(r0).subrange(1, r0.len() as int));
        assert(entry_views(rest@) =~= all.subrange(k + 1, count as int));
        let ghost prefix = all.subrange(0, k + 1);
        assert(prefix.drop_last() =~= all.subrange(0, k as int));
        if is_dir {
            if recurse {
                out.push(ScanStep::Descend(path));
            }
        } else {
            out.push(ScanStep::File(path));
        }
        assert(step_views(out@) =~= scan_steps(prefix, recurse));
        k = k + 1;
    }
    assert(all.subrange(0, count as int) =~= all);
    out
}

pub open spec fn string_views(s: Seq<String>) -> Seq<Seq<char>> {
    s.map_values(|x: String| x@)
}

fn contains_string(list: &Vec<String>, s: &String) -> (r: bool)
    ensures
        r == string_views(list@).contains(s@),
{
    let mut i: usize = 0;
    while i < list.len()
        invariant
            i <= list@.len(),
            forall|j: int| 0 <= j < i ==> #[trigger] string_views(list@)[j] != s@,
        decreases list@.len() - i,
    {
        if list[i] == *s {
            assert(string_views(list@)[i as int] == s@);
            return true;
        }
        i = i + 1;
    }
    false
}

/// The set of scanned paths: each path that was scanned, once.
pub fn unique_paths(paths: Vec<String>) -> (r: Vec<String>)
    ensures
        string_views(r@).no_duplicates(),
        forall|p: Seq<char>| string_views(r@).contains(p) <==> string_views(paths@).contains(p),
{
    let ghost all = string_views(paths@);
    let count = paths.len();
    let mut rest = paths;
    let mut out: Vec<String> = Vec::new();
    let mut k: usize = 0;
    while rest.len() > 0
        invariant
            k + rest@.len() == count,
            all.len() == count,
            string_views(rest@) == all.subrange(k as int, count as int),
            string_views(out@).no_duplicates(),
            forall|p: Seq<char>| string_views(out@).contains(p) <==> all.subrange(0, k as int).contains(p),
        decreases rest@.len(),
    {
        let ghost r0 = rest@;
        let p = rest.remove(0);
        assert(string_views(r0)[0] == all[k as int]);
        assert(string_views(rest@) =~= string_views(r0).subrange(1, r0.len() as int));
        assert(string_views(rest@) =~= all.subrange(k + 1, count as int));
        let ghost before = string_views(out@);
        let seen = contains_string(&out, &p);
        if !seen {
            out.push(p);
            assert(string_views(out@) =~= before.push(all[k as int]));
        }
        assert forall|q: Seq<char>| string_views(out@).contains(q) <==> all.subrange(0, k + 1).contains(q) by {
            let prefix = all.subrange(0, k + 1);
            if all.subrange(0, k as int).contains(q) {
                let j = choose|j: int| 0 <= j < k && all.subrange(0, k as int)[j] == q;
                assert(prefix[j] == q);
            }
            if prefix.contains(q) {
                let j = choose|j: int| 0 <= j < k + 1 && prefix[j] == q;
                if j < k {
                    assert(all.subrange(0, k as int)[j] == q);
                }
            }
            if string_views(out@).contains(q) && !before.contains(q) {
                assert(string_views(out@).last() == q);
                assert(prefix[k as int] == q);
            }
            if before.contains(q) {
                let j = choose|j: int| 0 <= j < before.len() && before[j] == q;
                assert(string_views(out@)[j] == q);
            }
            if q == all[k as int] && seen {
                assert(before.contains(q));
            }
            if q == all[k as int] && !seen {
                assert(string_views(out@)[before.len() as int] == q);
            }
        }
        k = k + 1;
    }
    assert(all.subrange(0, count as int) =~= all);
    out
}

pub open spec fn file_views(s: Seq<(u64, String)>) -> Seq<(u64, Seq<char>)> {
    s.map_values(|e: (u64, String)| (e.0, e.1@))
}

/// The database's files whose path was (`on_disk`) or was not found on
/// disk, in their order.
pub open spec fn files_where(files: Seq<(u64, Seq<char>)>, disk: Seq<Seq<char>>, on_disk: bool) -> Seq<
    (u64, Seq<char>),
>
    decreases files.len(),
{
    if files.len() == 0 {
        Seq::empty()
    } else {
        let rest = files_where(files.drop_last(), disk, on_disk);
        if disk.contains(files.last().1) == on_disk {
            rest.push(files.last())
        } else {
            rest
        }
    }
}

/// Splits the database's files into those still on disk and those only in
/// the database.
pub fn partition_known(files: Vec<(u64, String)>, on_disk: &Vec<String>) -> (r: (
    Vec<(u64, String)>,
    Vec<(u64, String)>,
))
    ensures
        file_views(r.0@) == files_where(file_views(files@), string_views(on_disk@), true),
        file_views(r.1@) == files_where(file_views(files@), string_views(on_disk@), false),
{
    let ghost all = file_views(files@);
    let ghost disk = string_views(on_disk@);
    let count = files.len();
    let mut rest = files;
    let mut both: Vec<(u64, String)> = Vec::new();
    let mut only_database: Vec<(u64, String)> = Vec::new();
    let mut k: usize = 0;
    while rest.len() > 0
        invariant
            k + rest@.len() == count,
            all.len() == count,
            disk == string_views(on_disk@),
            file_views(rest@) == all.subrange(k as int, count as int),
            file_views(both@) == files_where(all.subrange(0, k as int), disk, true),
            file_views(only_database@) == files_where(all.subrange(0, k as int), disk, false),
        decreases rest@.len(),
    {
        let ghost r0 = rest@;
        let (id, path) = rest.remove(0);
        assert(file_views(r0)[0] == all[k as int]);
        assert(file_views(rest@) =~= file_views(r0).subrange(1, r0.len() as int));
        assert(file_views(rest@) =~= all.subrange(k + 1, count as int));
        let ghost prefix = all.subrange(0, k + 1);
        assert(prefix.drop_last() =~= all.subrange(0, k as int));
        if contains_string(on_disk, &path) {
            both.push((id, path));
        } else {
            only_database.push((id, path));
        }
        assert(file_views(both@) =~= files_where(prefix, disk, true));
        assert(file_views(only_database@) =~= files_where(prefix, disk, false));
        k = k + 1;
    }
    assert(all.subrange(0, count as int) =~= all);
    (both, only_database)
}

/// What the modification time says of a file that has content.
#[derive(Clone, Copy, PartialEq, Eq, Structural, Debug)]
pub enum ContentCheck {
    /// The modification time could not be read: the file is left alone.
    Unknown,
    /// The file is as it was when its content was recorded.
    Unchanged,
    /// The file changed: its content is unlinked and classified anew.
    Changed,
}

pub fn content_changed(last_changed: u64, last_modified: Option<u64>) -> (r: ContentCheck)
    ensures
        r == match last_modified {
            None => ContentCheck::Unknown,
            Some(m) => if m == last_changed {
                ContentCheck::Unchanged
            } else {
                ContentCheck::Changed
            },
        },
{
    match last_modified {
        None => ContentCheck::Unknown,
        Some(m) => if m == last_changed {
            ContentCheck::Unchanged
        } else {
            ContentCheck::Changed
        },
    }
}

/// The table that a classified file's content refers to.
#[derive(Clone, Copy, PartialEq, Eq, Structural, Debug)]
pub enum ReferenceKind {
    Movie,
    Episode { episode: u64 },
    Song,
}

/// Movies, episodes and songs get a row of their own; other files none.
pub open spec fn reference_of(category: ClassificationCategory) -> Option<ReferenceKind> {
    match category {
        ClassificationCategory::Other => None,
        ClassificationCategory::Movie => Some(ReferenceKind::Movie),
        ClassificationCategory::Episode { episode } => Some(ReferenceKind::Episode { episode }),
        ClassificationCategory::Song => Some(ReferenceKind::Song),
    }
}

/// Movies, episodes and songs get a row of their own; other files none.
pub fn reference_kind(category: ClassificationCategory) -> (r: Option<ReferenceKind>)
    ensures
        r == reference_of(category),
{
    match category {
        ClassificationCategory::Other => None,
        ClassificationCategory::Movie => Some(ReferenceKind::Movie),
        ClassificationCategory::Episode { episode } => Some(ReferenceKind::Episode { episode }),
        ClassificationCategory::Song => Some(ReferenceKind::Song),
    }
}

/// The collection that new content is filed under.
#[derive(Clone, Copy, PartialEq, Eq, Structural, Debug)]
pub enum Assignment {
    /// Nothing is known: the content stays unfiled, with a warning.
    Unknown,
    /// A theme: filed after all other content, once its target exists.
    Deferred,
    /// A movie without a franchise: filed nowhere.
    Nowhere,
    /// The franchise of the hint, or of the movie.
    Franchise,
    Series,
    Season,
}

/// Where content with a hint is filed.
pub open spec fn assignment_of(hint: HintModel) -> Assignment {
    match hint {
        HintModel::NoHint => Assignment::Unknown,
        HintModel::ThemeTarget { .. } => Assignment::Deferred,
        HintModel::Movie { franchise, .. } => if franchise is Some {
            Assignment::Franchise
        } else {
            Assignment::Nowhere
        },
        HintModel::Franchise { .. } => Assignment::Franchise,
        HintModel::Series { .. } => Assignment::Series,
        HintModel::Season { .. } => Assignment::Season,
    }
}

pub fn assignment(hint: &CollectionHint) -> (r: Assignment)
    ensures
        r == assignment_of(hint_view(*hint)),
{
    match hint {
        CollectionHint::NoHint => Assignment::Unknown,
        CollectionHint::ThemeTarget { .. } => Assignment::Deferred,
        CollectionHint::Movie(m) => if m.franchise.is_some() {
            Assignment::Franchise
        } else {
            Assignment::Nowhere
        },
        CollectionHint::Franchise(_) => Assignment::Franchise,
        CollectionHint::Series(_) => Assignment::Series,
        CollectionHint::Season(_) => Assignment::Season,
    }
}

/// How the target of a theme is looked up.
#[derive(Clone, Copy, PartialEq, Eq, Structural, Debug)]
pub enum ThemeLookup {
    /// No target: the theme is filed nowhere.
    NoTarget,
    /// The movie content with the hint's title.
    Movie,
    /// The franchise collection with the hint's title.
    Franchise,
    /// The series with the title inside the named franchise.
    SeriesInFranchise,
    /// The series collection with the title.
    Series,
    /// The series named by the season's title inside its series' franchise.
    SeasonInFranchise,
    /// The series named by the season's title inside any collection.
    SeasonInSeries,
    /// The season collection with the number and title.
    Season,
}

/// The lookup for a theme's target hint; a theme never targets a theme.
pub fn theme_lookup(target: &CollectionHint) -> (r: ThemeLookup)
    requires
        !(hint_view(*target) is ThemeTarget),
    ensures
        r == match hint_view(*target) {
            HintModel::NoHint => ThemeLookup::NoTarget,
            HintModel::Movie { .. } => ThemeLookup::Movie,
            HintModel::Franchise { .. } => ThemeLookup::Franchise,
            HintModel::Series { series } => if series.franchise is Some {
                ThemeLookup::SeriesInFranchise
            } else {
                ThemeLookup::Series
            },
            HintModel::Season { series, .. } => match series {
                Some(s) => if s.franchise is Some {
                    ThemeLookup::SeasonInFranchise
                } else {
                    ThemeLookup::SeasonInSeries
                },
                None => ThemeLookup::Season,
            },
            HintModel::ThemeTarget { .. } => ThemeLookup::NoTarget,
        },
{
    match target {
        CollectionHint::NoHint => ThemeLookup::NoTarget,
        CollectionHint::Movie(_) => ThemeLookup::Movie,
        CollectionHint::Franchise(_) => ThemeLookup::Franchise,
        CollectionHint::Series(s) => if s.franchise.is_some() {
            ThemeLookup::SeriesInFranchise
        } else {
            ThemeLookup::Series
        },
        CollectionHint::Season(s) => match &s.series {
            Some(series) => if series.franchise.is_some() {
                ThemeLookup::SeasonInFranchise
            } else {
                ThemeLookup::SeasonInSeries
            },
            None => ThemeLookup::Season,
        },
        CollectionHint::ThemeTarget { .. } => ThemeLookup::NoTarget,
    }
}

/// What the collections found for a directory say about a file's
/// collection.
#[derive(Clone, Copy, PartialEq, Eq, Structural, Debug)]
pub enum MatchDecision {
    /// This collection (or the single movie's content).
    Found(u64),
    /// Nothing here: look at the next directory up.
    NextAncestor,
    /// Several collections: look at the collections that contain them.
    Indirect,
}

/// The decision for a directory from the collections that directly hold
/// content below it (`direct`) and the movies below the file's path
/// (`movies`): a single movie decides when there is no more than one
/// collection; otherwise a single collection decides; several collections
/// are narrowed down through the collections that contain them.
pub fn direct_match(direct: &Vec<u64>, movies: &Vec<u64>) -> (r: MatchDecision)
    ensures
        r == if direct@.len() <= 1 && movies@.len() == 1 {
            MatchDecision::Found(movies@[0])
        } else if direct@.len() == 0 {
            MatchDecision::NextAncestor
        } else if direct@.len() == 1 {
            MatchDecision::Found(direct@[0])
        } else {
            MatchDecision::Indirect
        },
{
    if direct.len() <= 1 && movies.len() == 1 {
        MatchDecision::Found(movies[0])
    } else if direct.len() == 0 {
        MatchDecision::NextAncestor
    } else if direct.len() == 1 {
        MatchDecision::Found(direct[0])
    } else {
        MatchDecision::Indirect
    }
}

/// The decision from the containing collections once fewer than two are
/// left: the single one, or the next directory up without any.
pub fn indirect_match(indirect: &Vec<u64>) -> (r: MatchDecision)
    requires
        indirect@.len() <= 1,
    ensures
        r == if indirect@.len() == 1 {
            MatchDecision::Found(indirect@[0])
        } else {
            MatchDecision::NextAncestor
        },
{
    if indirect.len() == 1 {
        MatchDecision::Found(indirect[0])
    } else {
        MatchDecision::NextAncestor
    }
}

/// What is done with one file that has no content yet, in the order of the
/// files: the content found by the file's hash is linked to the file
/// (`relink_content`); the row of the movie, episode or song and the content
/// are created; the content is filed as `assignment` says.
pub struct FilingAction {
    pub data_id: u64,
    pub relink_content: Option<u64>,
    pub reference: Option<ReferenceKind>,
    pub assignment: Assignment,
}

/// The filing of an indexing pass: first every action, in order; then the
/// themes, by their files, once all other content is filed.
pub struct IndexingPlan {
    pub actions: Vec<FilingAction>,
    pub themes: Vec<u64>,
}

/// Whether every file was classified.
pub open spec fn all_classified(results: Seq<Result<Classification, ClassifyError>>) -> bool {
    forall|i: int| 0 <= i < results.len() ==> #[trigger] results[i] is Ok
}

/// The action for one classified file.
pub open spec fn action_of(data_id: u64, relink: Option<u64>, c: Classification) -> (
    u64,
    Option<u64>,
    Option<ReferenceKind>,
    Assignment,
) {
    (data_id, relink, reference_of(c.category), assignment_of(hint_view(c.collectionhint)))
}

pub open spec fn action_view(a: FilingAction) -> (u64, Option<u64>, Option<ReferenceKind>, Assignment) {
    (a.data_id, a.relink_content, a.reference, a.assignment)
}

/// The files, in order, whose content is a theme.
pub open spec fn deferred_files(actions: Seq<(u64, Option<u64>, Option<ReferenceKind>, Assignment)>) -> Seq<
    u64,
>
    decreases actions.len(),
{
    if actions.len() == 0 {
        Seq::empty()
    } else {
        let rest = deferred_files(actions.drop_last());
        if actions.last().3 == Assignment::Deferred {
            rest.push(actions.last().0)
        } else {
            rest
        }
    }
}

/// The filing of the files without content (`data_ids`), from their
/// classifications and the content that their hash found (`by_hash`). When
/// one file could not be classified, nothing is filed; otherwise each file
/// gets its action, in order, and the themes are filed after all of them.
pub fn indexing_plan(
    data_ids: &Vec<u64>,
    results: &Vec<Result<Classification, ClassifyError>>,
    by_hash: &Vec<Option<u64>>,
) -> (r: IndexingPlan)
    requires
        data_ids.len() == results.len(),
        by_hash.len() == results.len(),
    ensures
        !all_classified(results@) ==> r.actions.len() == 0 && r.themes.len() == 0,
        all_classified(results@) ==> {
            &&& r.actions.len() == results.len()
            &&& forall|i: int|
                0 <= i < results.len() ==> (results@[i] matches Ok(c) && action_view(
                    #[trigger] r.actions@[i],
                ) == action_of(data_ids@[i], by_hash@[i], c))
            &&& r.themes@ == deferred_files(r.actions@.map_values(|a: FilingAction| action_view(a)))
        },
{
    let n = results.len();
    let mut k: usize = 0;
    while k < n
        invariant
            k <= n,
            n == results.len(),
            forall|i: int| 0 <= i < k ==> #[trigger] results@[i] is Ok,
        decreases n - k,
    {
        if results[k].is_err() {
            return IndexingPlan { actions: Vec::new(), themes: Vec::new() };
        }
        k = k + 1;
    }
    let mut actions: Vec<FilingAction> = Vec::new();
    let mut themes: Vec<u64> = Vec::new();
    let mut i: usize = 0;
    while i < n
        invariant
            i <= n,
            n == results.len(),
            n == data_ids.len(),
            n == by_hash.len(),
            all_classified(results@),
            actions.len() == i,
            forall|j: int|
                0 <= j < i ==> (results@[j] matches Ok(c) && action_view(#[trigger] actions@[j])
                    == action_of(data_ids@[j], by_hash@[j], c)),
            themes@ == deferred_files(actions@.map_values(|a: FilingAction| action_view(a))),
        decreases n - i,
    {
        assert(results@[i as int] is Ok);
        match &results[i] {
            Ok(c) => {
                let ghost before = actions@.map_values(|a: FilingAction| action_view(a));
                let a = FilingAction {
                    data_id: data_ids[i],
                    relink_content: by_hash[i],
                    reference: reference_kind(c.category),
                    assignment: assignment(&c.collectionhint),
                };
                let deferred = a.assignment == Assignment::Deferred;
                let id = a.data_id;
                actions.push(a);
                let ghost after = actions@.map_values(|a: FilingAction| action_view(a));
                assert(after.drop_last() =~= before);
                if deferred {
                    themes.push(id);
                }
            },
            Err(_) => {},
        }
        i = i + 1;
    }
    IndexingPlan { actions, themes }
}

/// A theme is filed only after every action of the plan, and only themes
/// are filed then: each file of the theme pass is a file whose action
/// defers it.
pub proof fn themes_come_from_deferred_actions(
    actions: Seq<(u64, Option<u64>, Option<ReferenceKind>, Assignment)>,
    file: u64,
)
    ensures
        deferred_files(actions).contains(file) <==> exists|i: int|
            0 <= i < actions.len() && #[trigger] actions[i].0 == file && actions[i].3
                == Assignment::Deferred,
    decreases actions.len(),
{
    if actions.len() > 0 {
        let init = actions.drop_last();
        themes_come_from_deferred_actions(init, file);
        let rest = deferred_files(init);
        if exists|i: int|
            0 <= i < init.len() && #[trigger] init[i].0 == file && init[i].3 == Assignment::Deferred {
            let i = choose|i: int|
                0 <= i < init.len() && #[trigger] init[i].0 == file && init[i].3 == Assignment::Deferred;
            assert(actions[i] == init[i]);
        }
        if deferred_files(actions).contains(file) && !rest.contains(file) {
            let k = choose|k: int| 0 <= k < deferred_files(actions).len() && deferred_files(actions)[k] == file;
            assert(actions.last().3 == Assignment::Deferred);
            assert(actions[actions.len() - 1].0 == file);
        }
        if rest.contains(file) && actions.last().3 == Assignment::Deferred {
            let k = choose|k: int| 0 <= k < rest.len() && rest[k] == file;
            assert(rest.push(actions.last().0)[k] == file);
        }
        if exists|i: int|
            0 <= i < actions.len() && #[trigger] actions[i].0 == file && actions[i].3
                == Assignment::Deferred {
            let i = choose|i: int|
                0 <= i < actions.len() && #[trigger] actions[i].0 == file && actions[i].3
                    == Assignment::Deferred;
            if i < actions.len() - 1 {
                assert(init[i] == actions[i]);
            } else {
                assert(rest.push(file)[rest.len() as int] == file);
            }
        }
    }
}

/// The next step of the search for a file's collection in the database.
pub enum WalkAction {
    /// Nothing found here: look at the next directory up.
    NextAncestor,
    /// Several collections: look at the collections that contain these.
    Expand(Vec<u64>),
    /// The collection (or the single movie's content) was found.
    Found(u64),
}

/// The step for a directory, from the collections that directly hold
/// content below it and the movies below the file's path; see
/// [`direct_match`].
pub fn walk_direct(direct: Vec<u64>, movies: &Vec<u64>) -> (r: WalkAction)
    ensures
        direct@.len() <= 1 && movies@.len() == 1 ==> r == WalkAction::Found(movies@[0]),
        !(direct@.len() <= 1 && movies@.len() == 1) && direct@.len() == 0 ==> r
            == WalkAction::NextAncestor,
        !(direct@.len() <= 1 && movies@.len() == 1) && direct@.len() == 1 ==> r == WalkAction::Found(
            direct@[0],
        ),
        direct@.len() > 1 ==> (r matches WalkAction::Expand(v) && v@ == direct@),
{
    match direct_match(&direct, movies) {
        MatchDecision::Found(id) => WalkAction::Found(id),
        MatchDecision::NextAncestor => WalkAction::NextAncestor,
        MatchDecision::Indirect => WalkAction::Expand(direct),
    }
}

/// The step once the collections containing the earlier ones are known:
/// more than one are narrowed down further; a single one is the result;
/// none sends the search to the next directory up.
pub fn walk_indirect(indirect: Vec<u64>) -> (r: WalkAction)
    ensures
        indirect@.len() > 1 ==> (r matches WalkAction::Expand(v) && v@ == indirect@),
        indirect@.len() == 1 ==> r == WalkAction::Found(indirect@[0]),
        indirect@.len() == 0 ==> r == WalkAction::NextAncestor,
{
    if indirect.len() > 1 {
        WalkAction::Expand(indirect)
    } else {
        match indirect_match(&indirect) {
            MatchDecision::Found(id) => WalkAction::Found(id),
            _ => WalkAction::NextAncestor,
        }
    }
}

fn contains_id(list: &Vec<u64>, x: u64) -> (r: bool)
    ensures
        r == list@.contains(x),
{
    let mut i: usize = 0;
    while i < list.len()
        invariant
            i <= list@.len(),
            forall|j: int| 0 <= j < i ==> list@[j] != x,
        decreases list@.len() - i,
    {
        if list[i] == x {
            return true;
        }
        i = i + 1;
    }
    false
}

/// Whether `x` is in one of the groups.
pub open spec fn in_some_group(groups: Seq<Vec<u64>>, x: u64) -> bool {
    exists|g: int| 0 <= g < groups.len() && #[trigger] groups[g]@.contains(x)
}

/// The collections found for several collections, each once: the union of
/// the groups.
pub fn union_ids(groups: &Vec<Vec<u64>>) -> (r: Vec<u64>)
    ensures
        r@.no_duplicates(),
        forall|x: u64| #[trigger] r@.contains(x) <==> in_some_group(groups@, x),
{
    let mut out: Vec<u64> = Vec::new();
    let mut i: usize = 0;
    while i < groups.len()
        invariant
            i <= groups@.len(),
            out@.no_duplicates(),
            forall|x: u64| #[trigger] out@.contains(x) <==> in_some_group(groups@.subrange(0, i as int), x),
        decreases groups@.len() - i,
    {
        let group = &groups[i];
        let mut j: usize = 0;
        while j < group.len()
            invariant
                i < groups@.len(),
                *group == groups@[i as int],
                j <= group@.len(),
                out@.no_duplicates(),
                forall|x: u64| #[trigger] out@.contains(x) <==> (in_some_group(groups@.subrange(0, i as int), x)
                    || group@.subrange(0, j as int).contains(x)),
            decreases group@.len() - j,
        {
            let x = group[j];
            let ghost before = out@;
            if !contains_id(&out, x) {
                out.push(x);
                assert forall|y: u64| before.contains(y) implies out@.contains(y) by {
                    let k = choose|k: int| 0 <= k < before.len() && before[k] == y;
                    assert(out@[k] == y);
                }
                assert(out@[before.len() as int] == x);
            }
            assert forall|y: u64| #[trigger] out@.contains(y) <==> (in_some_group(groups@.subrange(0, i as int), y)
                || group@.subrange(0, j + 1).contains(y)) by {
                assert(before.contains(y) <==> (in_some_group(groups@.subrange(0, i as int), y)
                    || group@.subrange(0, j as int).contains(y)));
                if out@.contains(y) && y != x {
                    let k = choose|k: int| 0 <= k < out@.len() && out@[k] == y;
                    if k < before.len() {
                        assert(before[k] == y);
                    }
                }
                if group@.subrange(0, j as int).contains(y) {
                    let k = choose|k: int| 0 <= k < j && #[trigger] group@.subrange(0, j as int)[k] == y;
                    assert(group@.subrange(0, j + 1)[k] == y);
                }
                if group@.subrange(0, j + 1).contains(y) {
                    let k = choose|k: int| 0 <= k < j + 1 && #[trigger] group@.subrange(0, j + 1)[k] == y;
                    if k < j {
                        assert(group@.subrange(0, j as int)[k] == y);
                    } else {
                        assert(y == x);
                    }
                }
                if out@.contains(y) && !before.contains(y) {
                    let k = choose|k: int| 0 <= k < out@.len() && out@[k] == y;
                    assert(y == x);
                    assert(group@.subrange(0, j + 1)[j as int] == y);
                }
                if y == x && before.contains(y) {
                    assert(out@ == before);
                }
            }
            j = j + 1;
        }
        assert(group@.subrange(0, group@.len() as int) =~= group@);
        assert forall|x: u64| #[trigger] out@.contains(x) <==> in_some_group(groups@.subrange(0, i + 1), x) by {
            let next = groups@.subrange(0, i + 1);
            if in_some_group(groups@.subrange(0, i as int), x) {
                let g = choose|g: int| 0 <= g < i && #[trigger] groups@.subrange(0, i as int)[g]@.contains(x);
                assert(next[g] == groups@.subrange(0, i as int)[g]);
            }
            if group@.contains(x) {
                assert(next[i as int] == *group);
            }
            if in_some_group(next, x) {
                let g = choose|g: int| 0 <= g < i + 1 && #[trigger] next[g]@.contains(x);
                if g < i {
                    assert(groups@.subrange(0, i as int)[g] == next[g]);
                } else {
                    assert(next[g] == *group);
                }
            }
        }
        i = i + 1;
    }
    assert(groups@.subrange(0, groups@.len() as int) =~= groups@);
    out
}

/// What the database holds of a collection that was found: its type, and
/// for a franchise its title, for a season its title, number and series,
/// for a series its title and franchise.
pub enum CollectionRecord {
    UserCollection,
    Theme,
    Franchise { title: String },
    Season { title: String, season: u64, series: Option<Series> },
    Series { title: String, franchise: Option<Franchise> },
}

/// The hint a collection found in the database gives: user collections and
/// themes give none.
pub open spec fn record_hint(record: CollectionRecord) -> HintModel {
    match record {
        CollectionRecord::UserCollection => HintModel::NoHint,
        CollectionRecord::Theme => HintModel::NoHint,
        CollectionRecord::Franchise { title } => HintModel::Franchise { title: title@ },
        CollectionRecord::Season { title, season, series } => HintModel::Season {
            title: title@,
            season,
            series: opt_series_view(series),
        },
        CollectionRecord::Series { title, franchise } => HintModel::Series {
            series: crate::classify::SeriesModel { title: title@, franchise: franchise_view(franchise) },
        },
    }
}

pub fn hint_from_collection(record: CollectionRecord) -> (r: CollectionHint)
    ensures
        hint_view(r) == record_hint(record),
{
    match record {
        CollectionRecord::UserCollection => CollectionHint::NoHint,
        CollectionRecord::Theme => CollectionHint::NoHint,
        CollectionRecord::Franchise { title } => CollectionHint::Franchise(Franchise { title }),
        CollectionRecord::Season { title, season, series } => CollectionHint::Season(
            Season { title, season, series },
        ),
        CollectionRecord::Series { title, franchise } => CollectionHint::Series(Series { title, franchise }),
    }
}

/// What a theme targets, from how it is looked up and what the lookup
/// found: a movie's content, or a collection; nothing without a target or
/// when the lookup found nothing.
pub fn theme_target(lookup: ThemeLookup, found: Option<u64>) -> (r: Option<(TableId, u64)>)
    ensures
        r == match found {
            None => None,
            Some(id) => match lookup {
                ThemeLookup::NoTarget => None,
                ThemeLookup::Movie => Some((TableId::Content, id)),
                _ => Some((TableId::Collection, id)),
            },
        },
{
    match found {
        None => None,
        Some(id) => match lookup {
            ThemeLookup::NoTarget => None,
            ThemeLookup::Movie => Some((TableId::Content, id)),
            _ => Some((TableId::Collection, id)),
        },
    }
}

/// The steps that find the collection of a theme, creating the theme and
/// its collection where they do not exist yet.
#[derive(Clone, Copy, PartialEq, Eq, Structural, Debug)]
pub enum ThemeStep {
    /// Look up the theme of the target.
    FindTheme { table: TableId, target: u64 },
    /// Create the theme of the target; the answer is its id.
    InsertTheme { table: TableId, target: u64 },
    /// Look up the collection of the theme.
    FindCollection { theme: u64 },
    /// Create the collection of the theme; the answer is its id.
    InsertCollection { theme: u64 },
    /// Done: the theme's collection, or none for a theme without a target.
    Finish(Option<u64>),
}

/// The first step for a theme's target.
pub fn theme_first_step(target: Option<(TableId, u64)>) -> (r: ThemeStep)
    ensures
        r == match target {
            None => ThemeStep::Finish(None),
            Some((table, target)) => ThemeStep::FindTheme { table, target },
        },
{
    match target {
        None => ThemeStep::Finish(None),
        Some((table, target)) => ThemeStep::FindTheme { table, target },
    }
}

/// The step after `step`, given what it answered: a lookup that finds the
/// theme or collection moves on with it, one that finds nothing creates it;
/// a creation moves on with the new id.
pub open spec fn next_theme_step(step: ThemeStep, answer: Option<u64>) -> ThemeStep {
    match step {
        ThemeStep::FindTheme { table, target } => match answer {
            Some(theme) => ThemeStep::FindCollection { theme },
            None => ThemeStep::InsertTheme { table, target },
        },
        ThemeStep::InsertTheme { .. } => ThemeStep::FindCollection { theme: answer->0 },
        ThemeStep::FindCollection { theme } => match answer {
            Some(c) => ThemeStep::Finish(Some(c)),
            None => ThemeStep::InsertCollection { theme },
        },
        ThemeStep::InsertCollection { .. } => ThemeStep::Finish(Some(answer->0)),
        ThemeStep::Finish(c) => ThemeStep::Finish(c),
    }
}

pub fn theme_next_step(step: ThemeStep, answer: Option<u64>) -> (r: ThemeStep)
    requires
        (step is InsertTheme || step is InsertCollection) ==> answer is Some,
    ensures
        r == next_theme_step(step, answer),
{
    match step {
        ThemeStep::FindTheme { table, target } => match answer {
            Some(theme) => ThemeStep::FindCollection { theme },
            None => ThemeStep::InsertTheme { table, target },
        },
        ThemeStep::InsertTheme { .. } => match answer {
            Some(theme) => ThemeStep::FindCollection { theme },
            None => step,
        },
        ThemeStep::FindCollection { theme } => match answer {
            Some(c) => ThemeStep::Finish(Some(c)),
            None => ThemeStep::InsertCollection { theme },
        },
        ThemeStep::InsertCollection { .. } => match answer {
            Some(c) => ThemeStep::Finish(Some(c)),
            None => step,
        },
        ThemeStep::Finish(c) => ThemeStep::Finish(c),
    }
}

/// A theme and collection that exist are used as they are: two lookups
/// that find them finish with the collection found, and nothing is created.
/// Where neither exists, each is created once, the theme first, and the new
/// collection is the result.
pub proof fn themes_are_found_or_created_once(table: TableId, target: u64, theme: u64, collection: u64)
    ensures
        next_theme_step(
            next_theme_step(ThemeStep::FindTheme { table, target }, Some(theme)),
            Some(collection),
        ) == ThemeStep::Finish(Some(collection)),
        next_theme_step(ThemeStep::FindTheme { table, target }, None) == (ThemeStep::InsertTheme {
            table,
            target,
        }),
        next_theme_step(ThemeStep::InsertTheme { table, target }, Some(theme)) == (
        ThemeStep::FindCollection { theme }),
        next_theme_step(ThemeStep::FindCollection { theme }, None) == (ThemeStep::InsertCollection {
            theme,
        }),
        next_theme_step(ThemeStep::InsertCollection { theme }, Some(collection)) == ThemeStep::Finish(
            Some(collection),
        ),
{
}

/// Where the search for a file's collection in the database stands.
pub enum WalkState {
    /// Ask for the collections and movies below the next directory up.
    AskDirect,
    /// Ask for the collections that contain these.
    AskIndirect(Vec<u64>),
    /// The search is over: the collection (or movie content) found, if any.
    Done(Option<u64>),
}

/// What the database answered.
pub enum WalkEvent {
    /// The collections holding content below the directory, and the movies
    /// below the file's path.
    Direct { direct: Vec<u64>, movies: Vec<u64> },
    /// The collections containing the ones asked for, each once.
    Indirect(Vec<u64>),
    /// The path has no directory left.
    NoMoreAncestors,
}

pub enum WalkStateView {
    AskDirect,
    AskIndirect(Seq<u64>),
    Done(Option<u64>),
}

pub enum WalkEventView {
    Direct { direct: Seq<u64>, movies: Seq<u64> },
    Indirect(Seq<u64>),
    NoMoreAncestors,
}

pub open spec fn walk_state_view(s: WalkState) -> WalkStateView {
    match s {
        WalkState::AskDirect => WalkStateView::AskDirect,
        WalkState::AskIndirect(v) => WalkStateView::AskIndirect(v@),
        WalkState::Done(x) => WalkStateView::Done(x),
    }
}

pub open spec fn walk_event_view(e: WalkEvent) -> WalkEventView {
    match e {
        WalkEvent::Direct { direct, movies } => WalkEventView::Direct { direct: direct@, movies: movies@ },
        WalkEvent::Indirect(v) => WalkEventView::Indirect(v@),
        WalkEvent::NoMoreAncestors => WalkEventView::NoMoreAncestors,
    }
}

/// The next state of the search: a single movie, or a single collection,
/// below a directory ends it; no collection goes on to the next directory
/// up; several are narrowed down through the collections containing them
/// until fewer than two are left, one of which ends the search and none of
/// which goes on to the next directory up. Without a directory left, nothing
/// was found. An answer that does not fit the question changes nothing.
pub open spec fn walk_next(state: WalkStateView, event: WalkEventView) -> WalkStateView {
    match state {
        WalkStateView::Done(x) => WalkStateView::Done(x),
        WalkStateView::AskDirect => match event {
            WalkEventView::NoMoreAncestors => WalkStateView::Done(None),
            WalkEventView::Direct { direct, movies } => if direct.len() <= 1 && movies.len() == 1 {
                WalkStateView::Done(Some(movies[0]))
            } else if direct.len() == 0 {
                WalkStateView::AskDirect
            } else if direct.len() == 1 {
                WalkStateView::Done(Some(direct[0]))
            } else {
                WalkStateView::AskIndirect(direct)
            },
            WalkEventView::Indirect(_) => state,
        },
        WalkStateView::AskIndirect(_) => match event {
            WalkEventView::Indirect(ids) => if ids.len() > 1 {
                WalkStateView::AskIndirect(ids)
            } else if ids.len() == 1 {
                WalkStateView::Done(Some(ids[0]))
            } else {
                WalkStateView::AskDirect
            },
            _ => state,
        },
    }
}

/// One step of the search for a file's collection in the database.
pub fn database_walk_step(state: WalkState, event: WalkEvent) -> (r: WalkState)
    ensures
        walk_state_view(r) == walk_next(walk_state_view(state), walk_event_view(event)),
{
    match state {
        WalkState::Done(x) => WalkState::Done(x),
        WalkState::AskDirect => match event {
            WalkEvent::NoMoreAncestors => WalkState::Done(None),
            WalkEvent::Direct { direct, movies } => match walk_direct(direct, &movies) {
                WalkAction::Found(id) => WalkState::Done(Some(id)),
                WalkAction::NextAncestor => WalkState::AskDirect,
                WalkAction::Expand(v) => WalkState::AskIndirect(v),
            },
            WalkEvent::Indirect(_) => WalkState::AskDirect,
        },
        WalkState::AskIndirect(v) => match event {
            WalkEvent::Indirect(ids) => match walk_indirect(ids) {
                WalkAction::Found(id) => WalkState::Done(Some(id)),
                WalkAction::NextAncestor => WalkState::AskDirect,
                WalkAction::Expand(w) => WalkState::AskIndirect(w),
            },
            _ => WalkState::AskIndirect(v),
        },
    }
}

/// The state after a run of answers.
pub open spec fn walk_run(state: WalkStateView, events: Seq<WalkEventView>) -> WalkStateView
    decreases events.len(),
{
    if events.len() == 0 {
        state
    } else {
        walk_run(walk_next(state, events[0]), events.drop_first())
    }
}

/// The search stops at the first answer that decides it: once it is done,
/// no later answer changes its result.
pub proof fn walk_stops_when_decided(state: WalkStateView, first: Seq<WalkEventView>, later: Seq<WalkEventView>)
    requires
        walk_run(state, first) is Done,
    ensures
        walk_run(state, first + later) == walk_run(state, first),
    decreases first.len(),
{
    if first.len() == 0 {
        lemma_done_stays(state, later);
        assert(first + later =~= later);
    } else {
        assert((first + later).drop_first() =~= first.drop_first() + later);
        assert((first + later)[0] == first[0]);
        walk_stops_when_decided(walk_next(state, first[0]), first.drop_first(), later);
    }
}

proof fn lemma_done_stays(state: WalkStateView, events: Seq<WalkEventView>)
    requires
        state is Done,
    ensures
        walk_run(state, events) == state,
    decreases events.len(),
{
    if events.len() > 0 {
        lemma_done_stays(walk_next(state, events[0]), events.drop_first());
    }
}

} // verus!
