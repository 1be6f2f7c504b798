//! The per-session cache of transcoded media segments: a bounded list in
//! insertion order, keyed by segment index and stream set.
use vstd::prelude::*;
use crate::stream_ident::StreamIndicies;

verus! {

/// How many segments a session keeps at most.
pub const MAX_CACHED_SEGMENTS: usize = 32;

/// One transcoded segment of a media file.
pub struct MediaSegment {
    pub data: Vec<u8>,
    pub index: usize,
    pub stream_ident: String,
}

/// What a segment holds, as plain values.
pub struct SegmentView {
    pub data: Seq<u8>,
    pub index: usize,
    pub stream_ident: Seq<char>,
}

impl View for MediaSegment {
    type V = SegmentView;

    open spec fn view(&self) -> SegmentView {
        SegmentView { data: self.data@, index: self.index, stream_ident: self.stream_ident@ }
    }
}

pub open spec fn views(s: Seq<MediaSegment>) -> Seq<SegmentView> {
    s.map_values(|m: MediaSegment| m@)
}

/// Two segments are the same cache entry when index and stream set agree.
pub open spec fn same_key(a: SegmentView, b: SegmentView) -> bool {
    a.index == b.index && a.stream_ident == b.stream_ident
}

pub open spec fn has_key(s: SegmentView, index: usize, ident: Seq<char>) -> bool {
    s.index == index && s.stream_ident == ident
}

/// Whether the cache holds an entry with the key of `s`.
pub open spec fn is_cached(cache: Seq<SegmentView>, s: SegmentView) -> bool {
    exists|j: int| 0 <= j < cache.len() && #[trigger] same_key(cache[j], s)
}

/// The new segments that the cache does not hold yet, in order.
pub open spec fn not_cached(cache: Seq<SegmentView>, new: Seq<SegmentView>) -> Seq<SegmentView>
    decreases new.len(),
{
    if new.len() == 0 {
        Seq::empty()
    } else if is_cached(cache, new.last()) {
        not_cached(cache, new.drop_last())
    } else {
        not_cached(cache, new.drop_last()).push(new.last())
    }
}

/// The last `MAX_CACHED_SEGMENTS` entries of `s`.
pub open spec fn keep_newest(s: Seq<SegmentView>) -> Seq<SegmentView> {
    if s.len() > MAX_CACHED_SEGMENTS {
        s.subrange(s.len() - MAX_CACHED_SEGMENTS, s.len() as int)
    } else {
        s
    }
}

/// The cache after `new` is added: the segments not cached yet are
/// appended, then the oldest entries are dropped down to the limit.
pub open spec fn extend_spec(cache: Seq<SegmentView>, new: Seq<SegmentView>) -> Seq<SegmentView> {
    keep_newest(cache + not_cached(cache, new))
}

/// The position of the first entry with the given key.
pub open spec fn first_with_key(cache: Seq<SegmentView>, index: usize, ident: Seq<char>) -> Option<int>
    decreases cache.len(),
{
    if cache.len() == 0 {
        None
    } else {
        match first_with_key(cache.drop_last(), index, ident) {
            Some(i) => Some(i),
            None => if has_key(cache.last(), index, ident) {
                Some(cache.len() - 1)
            } else {
                None
            },
        }
    }
}

impl MediaSegment {
    /// A copy of this segment.
    pub fn duplicate(&self) -> (r: MediaSegment)
        ensures
            r@ == self@,
    {
        let mut data: Vec<u8> = Vec::new();
        let mut i: usize = 0;
        while i < self.data.len()
            invariant
                i <= self.data@.len(),
                data@ == self.data@.subrange(0, i as int),
            decreases self.data@.len() - i,
        {
            data.push(self.data[i]);
            i = i + 1;
        }
        assert(self.data@.subrange(0, self.data@.len() as int) =~= self.data@);
        MediaSegment { data, index: self.index, stream_ident: self.stream_ident.clone() }
    }
}

/// The segments cached for one streaming session, oldest first.
pub struct MediaCache {
    pub session_id: u32,
    pub cache: Vec<MediaSegment>,
}

impl MediaCache {
    pub open spec fn entries(&self) -> Seq<SegmentView> {
        views(self.cache@)
    }

    /// An empty cache for a session.
    pub fn new(session_id: u32) -> (r: Self)
        ensures
            r.session_id == session_id,
            r.entries() == Seq::<SegmentView>::empty(),
    {
        MediaCache { session_id, cache: Vec::new() }
    }

    /// Empties the cache when the session moves to another media file.
    pub fn reuse(&mut self)
        ensures
            final(self).session_id == old(self).session_id,
            final(self).entries() == Seq::<SegmentView>::empty(),
    {
        self.cache = Vec::new();
    }

    fn position_of(&self, index: usize, ident: &String) -> (r: Option<usize>)
        ensures
            match r {
                Some(i) => i < self.cache@.len() && first_with_key(self.entries(), index, ident@)
                    == Some(i as int),
                None => first_with_key(self.entries(), index, ident@) is None,
            },
    {
        let mut i: usize = 0;
        while i < self.cache.len()
            invariant
                i <= self.cache@.len(),
                first_with_key(self.entries().subrange(0, i as int), index, ident@) is None,
            decreases self.cache@.len() - i,
        {
            let ghost prefix = self.entries().subrange(0, i + 1);
            assert(prefix.drop_last() =~= self.entries().subrange(0, i as int));
            if self.cache[i].index == index && self.cache[i].stream_ident == *ident {
                proof {
                    lemma_first_with_key_prefix(self.entries(), index, ident@, i + 1);
                }
                return Some(i);
            }
            i = i + 1;
        }
        assert(self.entries().subrange(0, self.cache@.len() as int) =~= self.entries());
        None
    }

    /// A copy of the first cached segment with the given index and streams.
    pub fn find_cached_segment(&self, index: usize, streams: &StreamIndicies) -> (r: Option<
        MediaSegment,
    >)
        ensures
            match first_with_key(self.entries(), index, streams.str_repr@) {
                Some(i) => r is Some && r->0@ == self.entries()[i],
                None => r is None,
            },
    {
        match self.position_of(index, &streams.str_repr) {
            Some(i) => Some(self.cache[i].duplicate()),
            None => None,
        }
    }

    fn holds_key(&self, s: &MediaSegment) -> (r: bool)
        ensures
            r == is_cached(self.entries(), s@),
    {
        let mut i: usize = 0;
        while i < self.cache.len()
            invariant
                i <= self.cache@.len(),
                forall|j: int| 0 <= j < i ==> !same_key(#[trigger] self.entries()[j], s@),
            decreases self.cache@.len() - i,
        {
            if self.cache[i].index == s.index && self.cache[i].stream_ident == s.stream_ident {
                assert(same_key(self.entries()[i as int], s@));
                return true;
            }
            i = i + 1;
        }
        false
    }

    /// Adds the segments whose index and streams are not cached yet, in
    /// order, then drops the oldest entries beyond `MAX_CACHED_SEGMENTS`.
    pub fn extend(&mut self, segments: Vec<MediaSegment>)
        ensures
            final(self).session_id == old(self).session_id,
            final(self).entries() == extend_spec(old(self).entries(), views(segments@)),
            final(self).entries().len() <= MAX_CACHED_SEGMENTS,
    {
        let ghost before = self.entries();
        let ghost new = views(segments@);
        let count = segments.len();
        let mut rest = segments;
        let mut fresh: Vec<MediaSegment> = Vec::new();
        let mut taken: usize = 0;
        while rest.len() > 0
            invariant
                self.entries() == before,
                new.len() == count,
                taken + rest@.len() == count,
                views(rest@) == new.subrange(taken as int, new.len() as int),
                views(fresh@) == not_cached(before, new.subrange(0, taken as int)),
            decreases rest@.len(),
        {
            let ghost r0 = rest@;
            let s = rest.remove(0);
            assert(s@ == views(r0)[0]);
            assert(views(rest@) =~= views(r0).subrange(1, r0.len() as int));
            let ghost taken_next = new.subrange(0, taken + 1);
            assert(taken_next.drop_last() =~= new.subrange(0, taken as int));
            assert(taken_next.last() == s@);
            if !self.holds_key(&s) {
                fresh.push(s);
                assert(views(fresh@) =~= not_cached(before, new.subrange(0, taken as int)).push(
                    taken_next.last(),
                ));
            }
            taken = taken + 1;
            assert(views(rest@) =~= new.subrange(taken as int, new.len() as int));
        }
        assert(new.subrange(0, taken as int) =~= new);
        let ghost cache0 = self.cache@;
        let ghost fresh0 = fresh@;
        self.cache.append(&mut fresh);
        assert(self.entries() =~= before + not_cached(before, new)) by {
            assert(self.cache@ == cache0 + fresh0);
        }
        let len = self.cache.len();
        if len > MAX_CACHED_SEGMENTS {
            let ghost all = self.cache@;
            let kept = self.cache.split_off(len - MAX_CACHED_SEGMENTS);
            self.cache = kept;
            assert(self.entries() =~= views(all).subrange(
                views(all).len() - MAX_CACHED_SEGMENTS,
                views(all).len() as int,
            ));
        }
    }
}

proof fn lemma_first_with_key_prefix(c: Seq<SegmentView>, index: usize, ident: Seq<char>, n: int)
    requires
        0 < n <= c.len(),
        first_with_key(c.subrange(0, n - 1), index, ident) is None,
        has_key(c[n - 1], index, ident),
    ensures
        first_with_key(c, index, ident) == Some(n - 1),
    decreases c.len() - n,
{
    if n == c.len() {
        assert(c.drop_last() =~= c.subrange(0, n - 1));
    } else {
        assert(c.drop_last().subrange(0, n - 1) =~= c.subrange(0, n - 1));
        lemma_first_with_key_prefix(c.drop_last(), index, ident, n);
    }
}

/// No two entries share a key.
pub open spec fn distinct_keys(s: Seq<SegmentView>) -> bool {
    forall|i: int, j: int| 0 <= i < j < s.len() ==> !same_key(#[trigger] s[i], #[trigger] s[j])
}

proof fn lemma_not_cached_members(cache: Seq<SegmentView>, new: Seq<SegmentView>)
    ensures
        not_cached(cache, new).len() <= new.len(),
        forall|k: int|
            0 <= k < not_cached(cache, new).len() ==> {
                &&& !is_cached(cache, #[trigger] not_cached(cache, new)[k])
                &&& exists|j: int| 0 <= j < new.len() && new[j] == not_cached(cache, new)[k]
            },
    decreases new.len(),
{
    if new.len() > 0 {
        lemma_not_cached_members(cache, new.drop_last());
        let prev = not_cached(cache, new.drop_last());
        assert forall|k: int| 0 <= k < not_cached(cache, new).len() implies {
            &&& !is_cached(cache, #[trigger] not_cached(cache, new)[k])
            &&& exists|j: int| 0 <= j < new.len() && new[j] == not_cached(cache, new)[k]
        } by {
            if k < prev.len() {
                let j = choose|j: int| 0 <= j < new.drop_last().len() && new.drop_last()[j] == prev[k];
                assert(new[j] == not_cached(cache, new)[k]);
            } else {
                assert(new[new.len() - 1] == not_cached(cache, new)[k]);
            }
        }
    }
}

proof fn lemma_not_cached_distinct(cache: Seq<SegmentView>, new: Seq<SegmentView>)
    requires
        distinct_keys(new),
    ensures
        distinct_keys(not_cached(cache, new)),
    decreases new.len(),
{
    if new.len() > 0 {
        let init = new.drop_last();
        assert(distinct_keys(init)) by {
            assert forall|i: int, j: int| 0 <= i < j < init.len() implies !same_key(
                #[trigger] init[i],
                #[trigger] init[j],
            ) by {
                assert(init[i] == new[i] && init[j] == new[j]);
            }
        }
        lemma_not_cached_distinct(cache, init);
        lemma_not_cached_members(cache, init);
        let prev = not_cached(cache, init);
        if !is_cached(cache, new.last()) {
            let full = prev.push(new.last());
            assert forall|i: int, j: int| 0 <= i < j < full.len() implies !same_key(
                #[trigger] full[i],
                #[trigger] full[j],
            ) by {
                if j == full.len() - 1 {
                    assert(full[i] == prev[i]);
                    let m = choose|m: int| 0 <= m < init.len() && init[m] == prev[i];
                    assert(new[m] == prev[i]);
                    assert(!same_key(new[m], new[new.len() - 1]));
                } else {
                    assert(full[i] == prev[i] && full[j] == prev[j]);
                }
            }
        }
    }
}

proof fn lemma_all_cached_adds_nothing(cache: Seq<SegmentView>, new: Seq<SegmentView>)
    requires
        forall|k: int| 0 <= k < new.len() ==> is_cached(cache, #[trigger] new[k]),
    ensures
        not_cached(cache, new) == Seq::<SegmentView>::empty(),
    decreases new.len(),
{
    if new.len() > 0 {
        assert(is_cached(cache, new[new.len() - 1]));
        assert forall|k: int| 0 <= k < new.drop_last().len() implies is_cached(
            cache,
            #[trigger] new.drop_last()[k],
        ) by {
            assert(new.drop_last()[k] == new[k]);
        }
        lemma_all_cached_adds_nothing(cache, new.drop_last());
    }
}

proof fn lemma_key_present_is_found(c: Seq<SegmentView>, k: int)
    requires
        0 <= k < c.len(),
    ensures
        first_with_key(c, c[k].index, c[k].stream_ident) is Some,
    decreases c.len(),
{
    if k < c.len() - 1 {
        assert(c.drop_last()[k] == c[k]);
        lemma_key_present_is_found(c.drop_last(), k);
    }
}

/// The cache never holds more than `MAX_CACHED_SEGMENTS` segments after an
/// extension, whatever it held before and whatever is added.
pub proof fn extend_is_bounded(cache: Seq<SegmentView>, new: Seq<SegmentView>)
    ensures
        extend_spec(cache, new).len() <= MAX_CACHED_SEGMENTS,
{
}

/// Adding only segments that are cached already leaves a cache within the
/// limit unchanged.
pub proof fn extend_with_cached_segments_is_noop(cache: Seq<SegmentView>, new: Seq<SegmentView>)
    requires
        cache.len() <= MAX_CACHED_SEGMENTS,
        forall|k: int| 0 <= k < new.len() ==> is_cached(cache, #[trigger] new[k]),
    ensures
        extend_spec(cache, new) == cache,
{
    lemma_all_cached_adds_nothing(cache, new);
    assert(cache + Seq::<SegmentView>::empty() =~= cache);
}

/// The last segment added, when it was not cached before, can be looked up
/// by its index and stream set right after the extension.
pub proof fn newest_segment_is_found(cache: Seq<SegmentView>, new: Seq<SegmentView>)
    requires
        new.len() > 0,
        !is_cached(cache, new.last()),
    ensures
        first_with_key(extend_spec(cache, new), new.last().index, new.last().stream_ident) is Some,
{
    let all = cache + not_cached(cache, new);
    assert(all.last() == new.last());
    let kept = extend_spec(cache, new);
    assert(kept.last() == new.last());
    lemma_key_present_is_found(kept, kept.len() - 1);
}

/// A cache whose entries have distinct keys keeps distinct keys when
/// segments with distinct keys are added.
pub proof fn extend_keeps_keys_distinct(cache: Seq<SegmentView>, new: Seq<SegmentView>)
    requires
        distinct_keys(cache),
        distinct_keys(new),
    ensures
        distinct_keys(extend_spec(cache, new)),
{
    lemma_not_cached_distinct(cache, new);
    lemma_not_cached_members(cache, new);
    let nc = not_cached(cache, new);
    let all = cache + nc;
    assert forall|i: int, j: int| 0 <= i < j < all.len() implies !same_key(
        #[trigger] all[i],
        #[trigger] all[j],
    ) by {
        if j < cache.len() {
        } else if i < cache.len() {
            assert(all[j] == nc[j - cache.len()]);
            assert(!is_cached(cache, nc[j - cache.len()]));
            if same_key(all[i], all[j]) {
                assert(same_key(cache[i], nc[j - cache.len()]));
            }
        } else {
            assert(all[i] == nc[i - cache.len()] && all[j] == nc[j - cache.len()]);
        }
    }
    let kept = extend_spec(cache, new);
    if all.len() > MAX_CACHED_SEGMENTS {
        let off = all.len() - MAX_CACHED_SEGMENTS;
        assert forall|i: int, j: int| 0 <= i < j < kept.len() implies !same_key(
            #[trigger] kept[i],
            #[trigger] kept[j],
        ) by {
            assert(kept[i] == all[i + off] && kept[j] == all[j + off]);
        }
    }
}

proof fn lemma_first_with_key_exact(c: Seq<SegmentView>, index: usize, ident: Seq<char>)
    ensures
        match first_with_key(c, index, ident) {
            Some(i) => {
                &&& 0 <= i < c.len()
                &&& c[i].index == index
                &&& c[i].stream_ident == ident
                &&& forall|j: int| 0 <= j < i ==> !(c[j].index == index && c[j].stream_ident == ident)
            },
            None => forall|j: int| 0 <= j < c.len() ==> !(c[j].index == index && c[j].stream_ident == ident),
        },
    decreases c.len(),
{
    if c.len() > 0 {
        let init = c.drop_last();
        lemma_first_with_key_exact(init, index, ident);
        assert forall|j: int| 0 <= j < init.len() implies init[j] == c[j] by {}
    }
}

/// A lookup finds the first entry whose index and stream set are both the
/// ones asked for, and finds nothing only when no entry has both.
pub proof fn lookup_finds_the_first_matching_entry(cache: Seq<SegmentView>, index: usize, ident: Seq<char>)
    ensures
        first_with_key(cache, index, ident) is None <==> forall|j: int|
            0 <= j < cache.len() ==> !(cache[j].index == index && cache[j].stream_ident == ident),
        first_with_key(cache, index, ident) matches Some(i) ==> {
            &&& 0 <= i < cache.len()
            &&& cache[i].index == index
            &&& cache[i].stream_ident == ident
            &&& forall|j: int| 0 <= j < i ==> !(cache[j].index == index && cache[j].stream_ident == ident)
        },
{
    lemma_first_with_key_exact(cache, index, ident);
}

/// A segment counts as cached only when an entry has both its index and
/// its stream set: a segment that differs from every entry in one of the
/// two is appended (the oldest entries giving way beyond the limit) and is
/// found by its index and stream set afterwards; one that matches an entry
/// in both is not added again.
pub proof fn segments_are_keyed_by_index_and_streams(cache: Seq<SegmentView>, s: SegmentView)
    ensures
        (forall|j: int| 0 <= j < cache.len() ==> cache[j].index != s.index || cache[j].stream_ident
            != s.stream_ident) ==> {
            &&& extend_spec(cache, seq![s]) == keep_newest(cache.push(s))
            &&& extend_spec(cache, seq![s]).last() == s
            &&& first_with_key(extend_spec(cache, seq![s]), s.index, s.stream_ident) is Some
        },
        (exists|j: int| 0 <= j < cache.len() && cache[j].index == s.index && cache[j].stream_ident
            == s.stream_ident) ==> extend_spec(cache, seq![s]) == keep_newest(cache),
{
    let one = seq![s];
    assert(one.drop_last() =~= Seq::<SegmentView>::empty());
    assert(one.last() == s);
    assert(not_cached(cache, one.drop_last()) =~= Seq::<SegmentView>::empty());
    if forall|j: int| 0 <= j < cache.len() ==> cache[j].index != s.index || cache[j].stream_ident
        != s.stream_ident {
        if is_cached(cache, s) {
            let j = choose|j: int| 0 <= j < cache.len() && #[trigger] same_key(cache[j], s);
            assert(cache[j].index != s.index || cache[j].stream_ident != s.stream_ident);
        }
        assert(!is_cached(cache, one.last()));
        assert(not_cached(cache, one) =~= seq![s]);
        assert(cache + seq![s] =~= cache.push(s));
        newest_segment_is_found(cache, one);
    }
    if exists|j: int| 0 <= j < cache.len() && cache[j].index == s.index && cache[j].stream_ident
        == s.stream_ident {
        let j = choose|j: int| 0 <= j < cache.len() && cache[j].index == s.index && cache[j].stream_ident
            == s.stream_ident;
        assert(same_key(cache[j], one.last()));
        assert(is_cached(cache, one.last()));
        assert(not_cached(cache, one) =~= Seq::<SegmentView>::empty());
        assert(cache + Seq::<SegmentView>::empty() =~= cache);
    }
}

/// Every added segment whose index and stream set no entry had can be
/// looked up by them afterwards, when the cache stays within its limit.
pub proof fn new_keys_are_found_after_extend(cache: Seq<SegmentView>, new: Seq<SegmentView>, k: int)
    requires
        0 <= k < new.len(),
        cache.len() + new.len() <= MAX_CACHED_SEGMENTS,
        forall|j: int| 0 <= j < cache.len() ==> cache[j].index != new[k].index || cache[j].stream_ident
            != new[k].stream_ident,
    ensures
        first_with_key(extend_spec(cache, new), new[k].index, new[k].stream_ident) is Some,
    decreases new.len(),
{
    lemma_not_cached_members(cache, new);
    let all = cache + not_cached(cache, new);
    assert(extend_spec(cache, new) == all);
    if k == new.len() - 1 {
        if is_cached(cache, new.last()) {
            let j = choose|j: int| 0 <= j < cache.len() && #[trigger] same_key(cache[j], new.last());
            assert(cache[j].index != new[k].index || cache[j].stream_ident != new[k].stream_ident);
        }
        assert(all.last() == new[k]);
        lemma_key_present_is_found(all, all.len() - 1);
    } else {
        let init = new.drop_last();
        assert(init[k] == new[k]);
        lemma_not_cached_members(cache, init);
        new_keys_are_found_after_extend(cache, init, k);
        let prev = cache + not_cached(cache, init);
        assert(extend_spec(cache, init) == prev);
        lemma_first_with_key_exact(prev, new[k].index, new[k].stream_ident);
        let i = first_with_key(prev, new[k].index, new[k].stream_ident)->0;
        if is_cached(cache, new.last()) {
            assert(all == prev);
        } else {
            assert(all == prev.push(new.last()));
            assert(all[i] == prev[i]);
        }
        lemma_key_present_is_found(all, i);
        assert(all[i].index == new[k].index && all[i].stream_ident == new[k].stream_ident);
    }
}

} // verus!
