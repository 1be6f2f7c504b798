//! A file system path as the indexer reads it: its text and its components,
//! with the file-name rules of `std::path::Path`.
use vstd::prelude::*;
use crate::text::{copy_range, rfind, rfind_pattern, to_chars, views, Pat, Pattern};

verus! {

/// One component of a path. `Normal` holds a named component; `Other`
/// stands for a root, a prefix, `.` or `..`.
#[derive(Clone)]
pub enum PathComponent {
    Normal(String),
    Other,
}

/// A path: its full text (lossily decoded) and its components.
#[derive(Clone)]
pub struct MediaPath {
    pub text: String,
    pub components: Vec<PathComponent>,
}

pub open spec fn component_view(c: PathComponent) -> Option<Seq<char>> {
    match c {
        PathComponent::Normal(s) => Some(s@),
        PathComponent::Other => None,
    }
}

/// The components of a path; `Some` for a named component.
pub open spec fn components_view(p: MediaPath) -> Seq<Option<Seq<char>>> {
    p.components@.map_values(|c: PathComponent| component_view(c))
}

/// `Path::file_name`: the last component, when it is a named one.
pub open spec fn file_name(p: MediaPath) -> Option<Seq<char>> {
    let c = components_view(p);
    if c.len() == 0 {
        None
    } else {
        c.last()
    }
}

/// The split of a file name at its last dot that `Path::file_stem` and
/// `Path::extension` share: `(before, after)`.
pub open spec fn split_at_dot(name: Seq<char>) -> (Option<Seq<char>>, Option<Seq<char>>) {
    if name == seq!['.', '.'] {
        (Some(name), None)
    } else {
        match rfind(name, Pat::Char('.')) {
            None => (None, Some(name)),
            Some(i) => if i == 0 {
                (Some(name), None)
            } else {
                (Some(name.subrange(0, i)), Some(name.subrange(i + 1, name.len() as int)))
            },
        }
    }
}

/// `Path::file_stem`.
pub open spec fn file_stem(p: MediaPath) -> Option<Seq<char>> {
    match file_name(p) {
        None => None,
        Some(n) => {
            let (before, after) = split_at_dot(n);
            if before is Some {
                before
            } else {
                after
            }
        },
    }
}

/// `Path::extension`.
pub open spec fn extension(p: MediaPath) -> Option<Seq<char>> {
    match file_name(p) {
        None => None,
        Some(n) => {
            let (before, after) = split_at_dot(n);
            if before is Some {
                after
            } else {
                None
            }
        },
    }
}

/// The named components of `c`, last first.
pub open spec fn names_reversed(c: Seq<Option<Seq<char>>>) -> Seq<Seq<char>>
    decreases c.len(),
{
    if c.len() == 0 {
        Seq::empty()
    } else {
        match c.last() {
            Some(n) => seq![n] + names_reversed(c.drop_last()),
            None => names_reversed(c.drop_last()),
        }
    }
}

/// The names of the directories that hold the file, nearest first:
/// `path.ancestors().skip(1).filter_map(Path::file_name)`.
pub open spec fn directory_names(p: MediaPath) -> Seq<Seq<char>> {
    let c = components_view(p);
    if c.len() == 0 {
        Seq::empty()
    } else {
        names_reversed(c.drop_last())
    }
}

/// The named components at the end of the path, last first, up to the
/// first component that is not a named one:
/// `path.components().rev().take_while(is normal)`.
pub open spec fn trailing_names(c: Seq<Option<Seq<char>>>) -> Seq<Seq<char>>
    decreases c.len(),
{
    if c.len() == 0 {
        Seq::empty()
    } else {
        match c.last() {
            Some(n) => seq![n] + trailing_names(c.drop_last()),
            None => Seq::empty(),
        }
    }
}

impl MediaPath {
    /// `Path::file_name`.
    pub fn file_name(&self) -> (r: Option<Vec<char>>)
        ensures
            r matches Some(v) ==> file_name(*self) == Some(v@),
            r is None ==> file_name(*self) is None,
    {
        let n = self.components.len();
        if n == 0 {
            return None;
        }
        match &self.components[n - 1] {
            PathComponent::Normal(s) => Some(to_chars(s.as_str())),
            PathComponent::Other => None,
        }
    }

    /// `Path::file_stem`.
    pub fn file_stem(&self) -> (r: Option<Vec<char>>)
        ensures
            r matches Some(v) ==> file_stem(*self) == Some(v@),
            r is None ==> file_stem(*self) is None,
    {
        match self.file_name() {
            None => None,
            Some(name) => {
                let (before, after) = split_at_dot_chars(name.as_slice());
                match before {
                    Some(b) => Some(b),
                    None => after,
                }
            },
        }
    }

    /// `Path::extension`.
    pub fn extension(&self) -> (r: Option<Vec<char>>)
        ensures
            r matches Some(v) ==> extension(*self) == Some(v@),
            r is None ==> extension(*self) is None,
    {
        match self.file_name() {
            None => None,
            Some(name) => {
                let (before, after) = split_at_dot_chars(name.as_slice());
                match before {
                    Some(_) => after,
                    None => None,
                }
            },
        }
    }

    /// The names of the directories that hold the file, nearest first.
    pub fn directory_names(&self) -> (r: Vec<Vec<char>>)
        ensures
            views(r@) == directory_names(*self),
    {
        let n = self.components.len();
        let mut r: Vec<Vec<char>> = Vec::new();
        if n == 0 {
            assert(views(r@) =~= Seq::<Seq<char>>::empty());
            return r;
        }
        let ghost c = components_view(*self).drop_last();
        let mut i: usize = n - 1;
        assert(c.subrange(0, i as int) =~= c);
        assert(views(r@) + names_reversed(c) =~= names_reversed(c));
        while i > 0
            invariant
                i <= n - 1,
                n == self.components@.len(),
                c == components_view(*self).drop_last(),
                names_reversed(c) == views(r@) + names_reversed(c.subrange(0, i as int)),
            decreases i,
        {
            assert(c.subrange(0, i as int).drop_last() =~= c.subrange(0, i - 1));
            match &self.components[i - 1] {
                PathComponent::Normal(s) => {
                    let v = to_chars(s.as_str());
                    let ghost before = views(r@);
                    r.push(v);
                    assert(views(r@) =~= before.push(v@));
                    assert(before + (seq![v@] + names_reversed(c.subrange(0, i - 1))) =~= before.push(v@) + names_reversed(c.subrange(0, i - 1)));
                },
                PathComponent::Other => {},
            }
            i = i - 1;
        }
        assert(names_reversed(c.subrange(0, 0)) =~= Seq::<Seq<char>>::empty());
        assert(c.subrange(0, n - 1) =~= c);
        assert(views(r@) + Seq::<Seq<char>>::empty() =~= views(r@));
        r
    }

    /// The named components at the end of the path, last first.
    pub fn trailing_names(&self) -> (r: Vec<Vec<char>>)
        ensures
            views(r@) == trailing_names(components_view(*self)),
    {
        let n = self.components.len();
        let ghost c = components_view(*self);
        let mut r: Vec<Vec<char>> = Vec::new();
        let mut i: usize = n;
        assert(c.subrange(0, n as int) =~= c);
        assert(views(r@) + trailing_names(c) =~= trailing_names(c));
        while i > 0
            invariant
                i <= n,
                n == self.components@.len(),
                c == components_view(*self),
                trailing_names(c) == views(r@) + trailing_names(c.subrange(0, i as int)),
            decreases i,
        {
            assert(c.subrange(0, i as int).drop_last() =~= c.subrange(0, i - 1));
            match &self.components[i - 1] {
                PathComponent::Normal(s) => {
                    let v = to_chars(s.as_str());
                    let ghost before = views(r@);
                    r.push(v);
                    assert(views(r@) =~= before.push(v@));
                    assert(before + (seq![v@] + trailing_names(c.subrange(0, i - 1))) =~= before.push(v@) + trailing_names(c.subrange(0, i - 1)));
                },
                PathComponent::Other => {
                    assert(views(r@) + Seq::<Seq<char>>::empty() =~= views(r@));
                    return r;
                },
            }
            i = i - 1;
        }
        assert(trailing_names(c.subrange(0, 0)) =~= Seq::<Seq<char>>::empty());
        assert(views(r@) + Seq::<Seq<char>>::empty() =~= views(r@));
        r
    }
}

/// The split of a file name at its last dot.
pub fn split_at_dot_chars(name: &[char]) -> (r: (Option<Vec<char>>, Option<Vec<char>>))
    ensures
        (match r.0 { Some(v) => Some(v@), None => None::<Seq<char>> },
         match r.1 { Some(v) => Some(v@), None => None::<Seq<char>> }) == split_at_dot(name@),
{
    if name.len() == 2 && name[0] == '.' && name[1] == '.' {
        assert(name@ =~= seq!['.', '.']);
        return (Some(copy_range(name, 0, 2)), None);
    }
    assert(name@ != seq!['.', '.']);
    match rfind_pattern(name, &Pattern::Char('.')) {
        None => (None, Some(copy_range(name, 0, name.len()))),
        Some(i) => {
            if i == 0 {
                (Some(copy_range(name, 0, name.len())), None)
            } else {
                (Some(copy_range(name, 0, i)), Some(copy_range(name, i + 1, name.len())))
            }
        },
    }
}

/// The kinds of media files that the indexer knows.
#[derive(Clone, Copy, PartialEq, Eq, Structural, Debug)]
pub enum FileType {
    Video,
    Audio,
    Unknown,
}

/// The file type that a path's extension names: `mp4` is a video, `mp3`
/// audio, anything else unknown; a path without an extension has none.
pub open spec fn file_type_of(p: MediaPath) -> Option<FileType> {
    match extension(p) {
        None => None,
        Some(e) => if e == seq!['m', 'p', '4'] {
            Some(FileType::Video)
        } else if e == seq!['m', 'p', '3'] {
            Some(FileType::Audio)
        } else {
            Some(FileType::Unknown)
        },
    }
}

/// Whether the characters are exactly `m`, `p` and the given last one.
fn is_mp(e: &[char], last: char) -> (r: bool)
    ensures
        r == (e@ == seq!['m', 'p', last]),
{
    if e.len() == 3 && e[0] == 'm' && e[1] == 'p' && e[2] == last {
        assert(e@ =~= seq!['m', 'p', last]);
        true
    } else {
        proof {
            if e@ == seq!['m', 'p', last] {
                assert(e@[2] == last);
            }
        }
        false
    }
}

/// Returns the file type classified into what is known by the system;
/// `None` if the path has no file extension.
pub fn file_type(path: &MediaPath) -> (r: Option<FileType>)
    ensures
        r == file_type_of(*path),
{
    match path.extension() {
        None => None,
        Some(e) => {
            if is_mp(e.as_slice(), '4') {
                Some(FileType::Video)
            } else if is_mp(e.as_slice(), '3') {
                Some(FileType::Audio)
            } else {
                Some(FileType::Unknown)
            }
        },
    }
}

/// The text of a path as the database stores it.
pub fn path_to_db(path: &MediaPath) -> (r: &str)
    ensures
        r@ == path.text@,
{
    path.text.as_str()
}

/// The text under which a path is stored in the database.
pub trait AsDBString {
    fn as_db_string(&self) -> &str;
}

impl AsDBString for MediaPath {
    fn as_db_string(&self) -> (r: &str)
        ensures
            r@ == self.text@,
    {
        self.text.as_str()
    }
}

/// What the indexer asks of a path.
pub trait PathExt {
    fn file_type(&self) -> Option<FileType>;
}

impl PathExt for MediaPath {
    fn file_type(&self) -> (r: Option<FileType>)
        ensures
            r == file_type_of(*self),
    {
        file_type(self)
    }
}

} // verus!
