//! HLS playlists of a session: the ones already built, looked up by their
//! stream set, and stored playlists rewritten for the session that plays
//! them.
use vstd::prelude::*;
use crate::text::{
    decimal, push_chars, push_decimal, split_once, split_once_chars, string_from_chars, to_chars,
    Pat, Pattern,
};

verus! {

/// A playlist built for one stream set.
pub struct Playlist {
    pub identifier: String,
    pub string_repr: String,
}

/// The playlist text of the first playlist built for the stream set.
pub fn find_playlist(playlists: &Vec<Playlist>, identifier: &str) -> (r: Option<String>)
    ensures
        match r {
            Some(text) => exists|i: int|
                0 <= i < playlists@.len() && playlists@[i].identifier@ == identifier@
                    && text@ == playlists@[i].string_repr@ && forall|j: int|
                    0 <= j < i ==> #[trigger] playlists@[j].identifier@ != identifier@,
            None => forall|j: int|
                0 <= j < playlists@.len() ==> #[trigger] playlists@[j].identifier@ != identifier@,
        },
{
    let wanted = to_chars(identifier);
    let mut i: usize = 0;
    while i < playlists.len()
        invariant
            i <= playlists@.len(),
            wanted@ == identifier@,
            forall|j: int| 0 <= j < i ==> #[trigger] playlists@[j].identifier@ != identifier@,
        decreases playlists@.len() - i,
    {
        let candidate = to_chars(playlists[i].identifier.as_str());
        if crate::text::chars_equal(candidate.as_slice(), wanted.as_slice()) {
            let text = playlists[i].string_repr.clone();
            assert(playlists@[i as int].identifier@ == identifier@);
            return Some(text);
        }
        i = i + 1;
    }
    None
}

/// The lines of a text with a flag that tells whether a line feed ended
/// them; a line feed at the very end starts no further line.
pub open spec fn raw_lines(s: Seq<char>) -> Seq<(Seq<char>, bool)>
    decreases s.len(),
{
    if s.len() == 0 {
        Seq::empty()
    } else {
        let rest = raw_lines(s.drop_first());
        if s[0] == '\n' {
            seq![(Seq::<char>::empty(), true)] + rest
        } else if rest.len() == 0 {
            seq![(seq![s[0]], false)]
        } else {
            rest.update(0, (seq![s[0]] + rest[0].0, rest[0].1))
        }
    }
}

/// A line without its ending: a carriage return goes with the line feed
/// that follows it.
pub open spec fn line_text(l: (Seq<char>, bool)) -> Seq<char> {
    if l.1 && l.0.len() > 0 && l.0.last() == '\r' {
        l.0.drop_last()
    } else {
        l.0
    }
}

/// `str::lines`.
pub open spec fn lines(s: Seq<char>) -> Seq<Seq<char>> {
    raw_lines(s).map_values(|l: (Seq<char>, bool)| line_text(l))
}

/// A line of a stored playlist as it is served to session `session_id`:
/// comment lines stay; a segment line `<old session>.<rest>` becomes
/// `<session_id>.<rest>`. Each line ends in a line feed.
pub open spec fn rebased_line(line: Seq<char>, session_id: u32) -> Seq<char> {
    if line.len() > 0 && line[0] == '#' {
        line + seq!['\n']
    } else {
        match split_once(line, Pat::Char('.')) {
            Some((_, rest)) => decimal(session_id as nat) + seq!['.'] + rest + seq!['\n'],
            None => seq!['\n'],
        }
    }
}

pub open spec fn rebased(ls: Seq<Seq<char>>, session_id: u32) -> Seq<char>
    decreases ls.len(),
{
    if ls.len() == 0 {
        Seq::empty()
    } else {
        rebased(ls.drop_last(), session_id) + rebased_line(ls.last(), session_id)
    }
}

/// Every segment line of the playlist names a session before a `.`.
pub open spec fn well_formed_playlist(s: Seq<char>) -> bool {
    forall|i: int|
        0 <= i < lines(s).len() ==> {
            let l = #[trigger] lines(s)[i];
            (l.len() > 0 && l[0] == '#') || split_once(l, Pat::Char('.')) is Some
        }
}

fn raw_lines_of(s: &[char]) -> (r: Vec<(Vec<char>, bool)>)
    ensures
        r@.len() == raw_lines(s@).len(),
        forall|i: int| 0 <= i < r@.len() ==> (#[trigger] r@[i]).0@ == raw_lines(s@)[i].0 && r@[i].1
            == raw_lines(s@)[i].1,
{
    let mut out: Vec<(Vec<char>, bool)> = Vec::new();
    let mut i: usize = s.len();
    assert(s@.subrange(s@.len() as int, s@.len() as int) =~= Seq::<char>::empty());
    while i > 0
        invariant
            i <= s@.len(),
            out@.len() == raw_lines(s@.subrange(i as int, s@.len() as int)).len(),
            forall|k: int|
                0 <= k < out@.len() ==> (#[trigger] out@[k]).0@ == raw_lines(
                    s@.subrange(i as int, s@.len() as int),
                )[k].0 && out@[k].1 == raw_lines(s@.subrange(i as int, s@.len() as int))[k].1,
        decreases i,
    {
        let ghost tail = s@.subrange(i as int, s@.len() as int);
        let ghost cur = s@.subrange(i - 1, s@.len() as int);
        assert(cur.drop_first() =~= tail);
        assert(cur[0] == s@[i - 1]);
        let c = s[i - 1];
        let ghost before = out@;
        if c == '\n' {
            out.insert(0, (Vec::new(), true));
            assert forall|k: int| 0 <= k < out@.len() implies (#[trigger] out@[k]).0@ == raw_lines(
                cur,
            )[k].0 && out@[k].1 == raw_lines(cur)[k].1 by {
                if k > 0 {
                    assert(out@[k] == before[k - 1]);
                }
            }
        } else if out.len() == 0 {
            let mut l: Vec<char> = Vec::new();
            l.push(c);
            out.push((l, false));
            assert(out@[0].0@ =~= seq![c]);
        } else {
            let (mut first, ended) = out.remove(0);
            first.insert(0, c);
            out.insert(0, (first, ended));
            assert(out@[0].0@ =~= seq![c] + raw_lines(tail)[0].0);
            assert forall|k: int| 0 <= k < out@.len() implies (#[trigger] out@[k]).0@ == raw_lines(
                cur,
            )[k].0 && out@[k].1 == raw_lines(cur)[k].1 by {
                if k > 0 {
                    assert(out@[k] == before[k]);
                }
            }
        }
        i = i - 1;
    }
    assert(s@.subrange(0, s@.len() as int) =~= s@);
    out
}

/// A stored playlist as it is served to session `session_id`: each line
/// is rewritten by `rebased_line`.
pub fn rebase_playlist(file: &str, session_id: u32) -> (r: String)
    requires
        well_formed_playlist(file@),
    ensures
        r@ == rebased(lines(file@), session_id),
{
    let chars = to_chars(file);
    let raw = raw_lines_of(chars.as_slice());
    let ghost ls = lines(file@);
    let mut out: Vec<char> = Vec::new();
    let mut i: usize = 0;
    while i < raw.len()
        invariant
            i <= raw@.len(),
            chars@ == file@,
            raw@.len() == ls.len(),
            ls == lines(file@),
            well_formed_playlist(file@),
            forall|k: int| 0 <= k < raw@.len() ==> line_text(((#[trigger] raw@[k]).0@, raw@[k].1)) == ls[k],
            out@ == rebased(ls.subrange(0, i as int), session_id),
        decreases raw@.len() - i,
    {
        let line: &Vec<char> = &raw[i].0;
        let ended = raw[i].1;
        let mut n = line.len();
        if ended && n > 0 && line[n - 1] == '\r' {
            n = n - 1;
        }
        let text = crate::text::copy_range(line.as_slice(), 0, n);
        assert(text@ =~= ls[i as int]);
        assert(ls.subrange(0, i + 1).drop_last() =~= ls.subrange(0, i as int));
        assert(ls.subrange(0, i + 1).last() == ls[i as int]);
        if n > 0 && text[0] == '#' {
            push_chars(&mut out, text.as_slice());
            out.push('\n');
        } else {
            assert(split_once(ls[i as int], Pat::Char('.')) is Some);
            match split_once_chars(text.as_slice(), &Pattern::Char('.')) {
                Some((_, rest)) => {
                    push_decimal(&mut out, session_id as u64);
                    out.push('.');
                    push_chars(&mut out, rest.as_slice());
                    out.push('\n');
                },
                None => {
                    out.push('\n');
                },
            }
        }
        assert(out@ =~= rebased(ls.subrange(0, i + 1), session_id));
        i = i + 1;
    }
    assert(ls.subrange(0, raw@.len() as int) =~= ls);
    string_from_chars(out.as_slice())
}

/// The playlists a stream set was served, in the order they were built.
pub struct PlaylistCache {
    playlists: Vec<Playlist>,
}

/// The playlist text of the first entry for `identifier`.
pub open spec fn first_playlist(entries: Seq<(Seq<char>, Seq<char>)>, identifier: Seq<char>) -> Option<
    Seq<char>,
>
    decreases entries.len(),
{
    if entries.len() == 0 {
        None
    } else if entries[0].0 == identifier {
        Some(entries[0].1)
    } else {
        first_playlist(entries.drop_first(), identifier)
    }
}

pub open spec fn string_option_view(o: Option<String>) -> Option<Seq<char>> {
    match o {
        Some(s) => Some(s@),
        None => None,
    }
}

impl PlaylistCache {
    /// The cached playlists as (stream set, text) pairs, oldest first.
    pub closed spec fn entries(&self) -> Seq<(Seq<char>, Seq<char>)> {
        self.playlists@.map_values(|p: Playlist| (p.identifier@, p.string_repr@))
    }

    pub fn new() -> (r: Self)
        ensures
            r.entries() == Seq::<(Seq<char>, Seq<char>)>::empty(),
    {
        let r = PlaylistCache { playlists: Vec::new() };
        assert(r.entries() =~= Seq::<(Seq<char>, Seq<char>)>::empty());
        r
    }

    /// The playlist already built for the stream set, if there is one: it
    /// is served again as it is, and nothing else is asked.
    pub fn cached(&self, identifier: &str) -> (r: Option<String>)
        ensures
            string_option_view(r) == first_playlist(self.entries(), identifier@),
    {
        let wanted = to_chars(identifier);
        let ghost all = self.entries();
        assert(all.subrange(0, all.len() as int) =~= all);
        let mut i: usize = 0;
        while i < self.playlists.len()
            invariant
                i <= self.playlists@.len(),
                all == self.entries(),
                all.len() == self.playlists@.len(),
                wanted@ == identifier@,
                first_playlist(all, identifier@) == first_playlist(
                    all.subrange(i as int, all.len() as int),
                    identifier@,
                ),
            decreases self.playlists@.len() - i,
        {
            let ghost rest = all.subrange(i as int, all.len() as int);
            assert(rest[0] == all[i as int]);
            assert(all[i as int] == (self.playlists@[i as int].identifier@, self.playlists@[i as int].string_repr@));
            let candidate = to_chars(self.playlists[i].identifier.as_str());
            if crate::text::chars_equal(candidate.as_slice(), wanted.as_slice()) {
                return Some(self.playlists[i].string_repr.clone());
            }
            assert(rest.drop_first() =~= all.subrange(i + 1, all.len() as int));
            i = i + 1;
        }
        None
    }

    /// Keeps a newly built playlist for its stream set.
    pub fn remember(&mut self, identifier: String, text: String)
        ensures
            final(self).entries() == old(self).entries().push((identifier@, text@)),
    {
        self.playlists.push(Playlist { identifier, string_repr: text });
        assert(self.entries() =~= old(self).entries().push((identifier@, text@)));
    }

    /// Serves a stored playlist to session `session_id` for a stream set that
    /// had none cached: the playlist is rewritten for the session, kept, and
    /// returned.
    pub fn serve_stored(&mut self, identifier: String, file: &str, session_id: u32) -> (r: String)
        requires
            well_formed_playlist(file@),
        ensures
            r@ == rebased(lines(file@), session_id),
            final(self).entries() == old(self).entries().push((identifier@, r@)),
    {
        let text = rebase_playlist(file, session_id);
        let out = text.clone();
        self.remember(identifier, text);
        out
    }
}

/// Keeping a playlist never changes what an earlier lookup found, and once
/// a stream set was kept, every later lookup of it finds the first playlist
/// kept for it: a second request for the same stream set is served from the
/// cache.
pub proof fn cached_playlists_stay(
    entries: Seq<(Seq<char>, Seq<char>)>,
    identifier: Seq<char>,
    text: Seq<char>,
    other: (Seq<char>, Seq<char>),
)
    ensures
        first_playlist(entries, identifier) is None ==> first_playlist(
            entries.push((identifier, text)),
            identifier,
        ) == Some(text),
        first_playlist(entries, identifier) is Some ==> first_playlist(entries.push(other), identifier)
            == first_playlist(entries, identifier),
        other.0 != identifier ==> first_playlist(entries.push(other), identifier) == first_playlist(
            entries,
            identifier,
        ),
    decreases entries.len(),
{
    if entries.len() > 0 {
        assert(entries.push((identifier, text)).drop_first() =~= entries.drop_first().push((identifier, text)));
        assert(entries.push(other).drop_first() =~= entries.drop_first().push(other));
        cached_playlists_stay(entries.drop_first(), identifier, text, other);
        assert(entries.push(other)[0] == entries[0]);
        assert(entries.push((identifier, text))[0] == entries[0]);
    } else {
        let e = entries.push(other);
        assert(e[0] == other);
        assert(e.drop_first() =~= entries);
        assert(first_playlist(entries, identifier) is None);
    }
}

} // verus!
