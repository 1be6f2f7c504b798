//! The streams of a media file that a client asks for, written as
//! `v,a,<index>,...`.
use vstd::prelude::*;
use crate::text::{decimal, decimal_chars, string_from_chars, to_chars};

verus! {

/// One stream: the best video stream, the best audio stream, or a stream
/// by its index.
#[derive(Clone, Copy, PartialEq, Eq, Structural, Debug)]
pub enum StreamIndex {
    Video,
    Audio,
    Index(u16),
}

/// A set of requested streams and the text that identifies it.
pub struct StreamIndicies {
    pub str_repr: String,
    pub streams: Vec<StreamIndex>,
}

/// Why a stream list could not be read.
#[derive(Clone, Copy, PartialEq, Eq, Structural, Debug)]
pub enum StreamListError {
    /// An entry is longer than one character or is not `v`, `a` or a digit.
    BadRequest,
}

pub open spec fn is_named(s: StreamIndex) -> bool {
    s is Video || s is Audio
}

/// The indices of the indexed streams, in order.
pub open spec fn indices(s: Seq<StreamIndex>) -> Seq<u16>
    decreases s.len(),
{
    if s.len() == 0 {
        Seq::empty()
    } else {
        match s.last() {
            StreamIndex::Index(i) => indices(s.drop_last()).push(i),
            _ => indices(s.drop_last()),
        }
    }
}

/// The named streams (video and audio), in order.
pub open spec fn named(s: Seq<StreamIndex>) -> Seq<StreamIndex> {
    s.filter(|x: StreamIndex| is_named(x))
}

pub open spec fn ascending(s: Seq<u16>) -> bool {
    forall|i: int, j: int| 0 <= i <= j < s.len() ==> s[i] <= s[j]
}

/// `i,` for each index.
pub open spec fn index_text(s: Seq<u16>) -> Seq<char>
    decreases s.len(),
{
    if s.len() == 0 {
        Seq::empty()
    } else {
        index_text(s.drop_last()) + decimal(s.last() as nat) + seq![',']
    }
}

/// The identifying text: `v,` when video is asked for, `a,` when audio
/// is, then `<index>,` for each indexed stream in ascending order.
pub open spec fn repr_spec(s: Seq<StreamIndex>, sorted: Seq<u16>) -> Seq<char> {
    (if s.contains(StreamIndex::Video) {
        seq!['v', ',']
    } else {
        Seq::empty()
    }) + (if s.contains(StreamIndex::Audio) {
        seq!['a', ',']
    } else {
        Seq::empty()
    }) + index_text(sorted)
}

pub open spec fn as_streams(s: Seq<u16>) -> Seq<StreamIndex> {
    s.map_values(|i: u16| StreamIndex::Index(i))
}

proof fn lemma_contains_push(s: Seq<StreamIndex>, x: StreamIndex, y: StreamIndex)
    ensures
        s.push(x).contains(y) <==> (s.contains(y) || x == y),
{
    if s.contains(y) {
        let j = choose|j: int| 0 <= j < s.len() && s[j] == y;
        assert(s.push(x)[j] == y);
    }
    if x == y {
        assert(s.push(x)[s.len() as int] == y);
    }
    if s.push(x).contains(y) && x != y {
        let j = choose|j: int| 0 <= j < s.push(x).len() && s.push(x)[j] == y;
        assert(s[j] == y);
    }
}

/// Inserts `x` into the ascending `v`, after the elements not above it.
fn insert_sorted(v: &mut Vec<u16>, x: u16)
    requires
        ascending(old(v)@),
    ensures
        ascending(final(v)@),
        final(v)@.to_multiset() == old(v)@.to_multiset().insert(x),
{
    let mut i: usize = 0;
    while i < v.len() && v[i] <= x
        invariant
            i <= v@.len(),
            forall|j: int| 0 <= j < i ==> v@[j] <= x,
        decreases v@.len() - i,
    {
        i = i + 1;
    }
    proof {
        vstd::seq_lib::to_multiset_insert(v@, i as int, x);
    }
    let ghost before = v@;
    v.insert(i, x);
    assert(v@ == before.insert(i as int, x));
    assert forall|a: int, b: int| 0 <= a <= b < v@.len() implies v@[a] <= v@[b] by {
        if a < i && b < i {
        } else if a < i && b == i {
        } else if a < i {
            assert(v@[b] == before[b - 1]);
        } else if a == i && b == i {
        } else if a == i {
            assert(v@[b] == before[b - 1]);
            assert(i < before.len());
            assert(before[i as int] > x);
        } else {
            assert(v@[b] == before[b - 1]);
            assert(v@[a] == before[a - 1]);
        }
    }
}

impl StreamIndicies {
    /// The stream set of `streams`: the named streams keep their order and
    /// come first, then the indexed streams in ascending order.
    pub fn new(streams: Vec<StreamIndex>) -> (r: Self)
        ensures
            exists|sorted: Seq<u16>|
                #![trigger ascending(sorted)]
                {
                    &&& ascending(sorted)
                    &&& sorted.to_multiset() == indices(streams@).to_multiset()
                    &&& r.streams@ == named(streams@) + as_streams(sorted)
                    &&& r.str_repr@ == repr_spec(streams@, sorted)
                },
    {
        let mut has_video = false;
        let mut has_audio = false;
        let mut named_streams: Vec<StreamIndex> = Vec::new();
        let mut sorted: Vec<u16> = Vec::new();
        let mut k: usize = 0;
        while k < streams.len()
            invariant
                k <= streams@.len(),
                has_video == streams@.subrange(0, k as int).contains(StreamIndex::Video),
                has_audio == streams@.subrange(0, k as int).contains(StreamIndex::Audio),
                named_streams@ == named(streams@.subrange(0, k as int)),
                ascending(sorted@),
                sorted@.to_multiset() == indices(streams@.subrange(0, k as int)).to_multiset(),
            decreases streams@.len() - k,
        {
            let ghost pre = streams@.subrange(0, k as int);
            let ghost next = streams@.subrange(0, k + 1);
            assert(next.drop_last() =~= pre);
            assert(next =~= pre.push(streams@[k as int]));
            proof {
                pre.lemma_filter_push(streams@[k as int], |x: StreamIndex| is_named(x));
            }
            let s = streams[k];
            match s {
                StreamIndex::Video => {
                    has_video = true;
                    named_streams.push(s);
                },
                StreamIndex::Audio => {
                    has_audio = true;
                    named_streams.push(s);
                },
                StreamIndex::Index(i) => {
                    insert_sorted(&mut sorted, i);
                    proof {
                        vstd::seq_lib::to_multiset_build(indices(pre), i);
                    }
                },
            }
            proof {
                lemma_contains_push(pre, s, StreamIndex::Video);
                lemma_contains_push(pre, s, StreamIndex::Audio);
            }
            k = k + 1;
        }
        assert(streams@.subrange(0, streams@.len() as int) =~= streams@);
        let mut repr: Vec<char> = Vec::new();
        if has_video {
            repr.push('v');
            repr.push(',');
        }
        if has_audio {
            repr.push('a');
            repr.push(',');
        }
        let ghost head = repr@;
        assert(head =~= (if streams@.contains(StreamIndex::Video) {
            seq!['v', ',']
        } else {
            Seq::empty()
        }) + (if streams@.contains(StreamIndex::Audio) {
            seq!['a', ',']
        } else {
            Seq::empty()
        }));
        let mut all = named_streams;
        let mut j: usize = 0;
        let ghost base = all@;
        while j < sorted.len()
            invariant
                j <= sorted@.len(),
                all@ == base + as_streams(sorted@.subrange(0, j as int)),
                repr@ == head + index_text(sorted@.subrange(0, j as int)),
            decreases sorted@.len() - j,
        {
            let i = sorted[j];
            all.push(StreamIndex::Index(i));
            let digits = decimal_chars(i as u64);
            let mut d: usize = 0;
            let ghost r0 = repr@;
            while d < digits.len()
                invariant
                    d <= digits@.len(),
                    repr@ == r0 + digits@.subrange(0, d as int),
                decreases digits@.len() - d,
            {
                repr.push(digits[d]);
                d = d + 1;
            }
            repr.push(',');
            assert(digits@.subrange(0, digits@.len() as int) =~= digits@);
            assert(sorted@.subrange(0, j + 1).drop_last() =~= sorted@.subrange(0, j as int));
            assert(as_streams(sorted@.subrange(0, j + 1)) =~= as_streams(sorted@.subrange(0, j as int)).push(
                StreamIndex::Index(i),
            ));
            assert(repr@ =~= head + index_text(sorted@.subrange(0, j + 1)));
            j = j + 1;
        }
        assert(sorted@.subrange(0, sorted@.len() as int) =~= sorted@);
        StreamIndicies { str_repr: string_from_chars(repr.as_slice()), streams: all }
    }
}

/// The stream set that a `v,a,<digit>,...` list asks for: entries are
/// separated by commas, and the list ends at the first empty entry. An
/// entry `v` is the video, `a` the audio, and a digit is the stream whose
/// index is that digit's character code.
pub open spec fn entry_stream(c: char) -> Option<StreamIndex> {
    if c == 'v' {
        Some(StreamIndex::Video)
    } else if c == 'a' {
        Some(StreamIndex::Audio)
    } else if crate::text::is_digit(c) {
        Some(StreamIndex::Index(c as u16))
    } else {
        None
    }
}

/// The streams a list asks for, or `None` when an entry is malformed.
pub open spec fn parse_streams(s: Seq<char>) -> Option<Seq<StreamIndex>>
    decreases s.len(),
{
    if s.len() == 0 || s[0] == ',' {
        Some(Seq::empty())
    } else if s.len() >= 2 && s[1] != ',' {
        None
    } else {
        match entry_stream(s[0]) {
            None => None,
            Some(x) => if s.len() == 1 {
                Some(seq![x])
            } else {
                match parse_streams(s.subrange(2, s.len() as int)) {
                    Some(rest) => Some(seq![x] + rest),
                    None => None,
                }
            },
        }
    }
}

impl StreamIndicies {
    /// Reads a stream list such as `v,a,2,`.
    pub fn try_from(value: &str) -> (r: Result<Self, StreamListError>)
        ensures
            r is Ok <==> parse_streams(value@) is Some,
            r matches Ok(set) ==> exists|sorted: Seq<u16>|
                #![trigger ascending(sorted)]
                {
                    let streams = parse_streams(value@)->0;
                    &&& ascending(sorted)
                    &&& sorted.to_multiset() == indices(streams).to_multiset()
                    &&& set.streams@ == named(streams) + as_streams(sorted)
                    &&& set.str_repr@ == repr_spec(streams, sorted)
                },
    {
        let chars = to_chars(value);
        let mut streams: Vec<StreamIndex> = Vec::new();
        let mut pos: usize = 0;
        proof {
            assert(chars@.subrange(0, chars@.len() as int) =~= chars@);
            match parse_streams(value@) {
                Some(rest) => {
                    assert(Seq::<StreamIndex>::empty() + rest =~= rest);
                },
                None => {},
            }
        }
        loop
            invariant
                pos <= chars@.len(),
                chars@ == value@,
                parse_streams(value@) == (match parse_streams(chars@.subrange(pos as int, chars@.len() as int)) {
                    Some(rest) => Some(streams@ + rest),
                    None => None,
                }),
            ensures
                parse_streams(value@) == Some(streams@),
            decreases chars@.len() - pos,
        {
            let ghost cur = chars@.subrange(pos as int, chars@.len() as int);
            if pos == chars.len() || chars[pos] == ',' {
                assert(streams@ + Seq::<StreamIndex>::empty() =~= streams@);
                break;
            }
            if pos + 1 < chars.len() && chars[pos + 1] != ',' {
                return Err(StreamListError::BadRequest);
            }
            let c = chars[pos];
            let x = if c == 'v' {
                StreamIndex::Video
            } else if c == 'a' {
                StreamIndex::Audio
            } else if c >= '0' && c <= '9' {
                StreamIndex::Index(c as u16)
            } else {
                return Err(StreamListError::BadRequest);
            };
            assert(entry_stream(cur[0]) == Some(x));
            let ghost before = streams@;
            streams.push(x);
            if pos + 1 == chars.len() {
                assert(streams@ =~= before + seq![x]);
                pos = chars.len();
                assert(streams@ + Seq::<StreamIndex>::empty() =~= streams@);
                break;
            }
            assert(cur.subrange(2, cur.len() as int) =~= chars@.subrange(pos + 2, chars@.len() as int));
            proof {
                match parse_streams(cur.subrange(2, cur.len() as int)) {
                    Some(rest) => {
                        assert(before + (seq![x] + rest) =~= streams@ + rest);
                    },
                    None => {},
                }
            }
            pos = pos + 2;
        }
        Ok(StreamIndicies::new(streams))
    }
}

/// The identifier of a stream set does not depend on the order in which
/// the indexed streams were asked for: two requests that ask for the same
/// indices, and alike for video and audio, get the same identifier, so
/// they share cached segments and playlists.
pub proof fn identifier_ignores_index_order(
    a: Seq<StreamIndex>,
    b: Seq<StreamIndex>,
    sorted_a: Seq<u16>,
    sorted_b: Seq<u16>,
)
    requires
        ascending(sorted_a),
        ascending(sorted_b),
        sorted_a.to_multiset() == indices(a).to_multiset(),
        sorted_b.to_multiset() == indices(b).to_multiset(),
        indices(a).to_multiset() == indices(b).to_multiset(),
        a.contains(StreamIndex::Video) == b.contains(StreamIndex::Video),
        a.contains(StreamIndex::Audio) == b.contains(StreamIndex::Audio),
    ensures
        repr_spec(a, sorted_a) == repr_spec(b, sorted_b),
{
    let leq = |x: u16, y: u16| x <= y;
    assert(vstd::relations::total_ordering(leq));
    assert(vstd::relations::sorted_by(sorted_a, leq));
    assert(vstd::relations::sorted_by(sorted_b, leq));
    vstd::seq_lib::lemma_sorted_unique(sorted_a, sorted_b, leq);
    assert(sorted_a == sorted_b);
}

} // verus!
