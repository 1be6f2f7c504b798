//! A minimal text template: literal parts and `{{...}}` slots that are
//! filled with inserted content at render time.
use vstd::prelude::*;
use crate::text::{push_str, copy_range, find, find_pattern, string_from_chars, to_chars, Pat, Pattern};

verus! {

/// The parts of a template text: `Some` for literal text, `None` for a
/// `{{...}}` slot. A `{{` without a closing `}}` stays literal text.
pub open spec fn template_parts(t: Seq<char>) -> Seq<Option<Seq<char>>>
    decreases t.len(),
{
    match find(t, Pat::Text(seq!['{', '{'])) {
        None => if t.len() > 0 {
            seq![Some(t)]
        } else {
            Seq::empty()
        },
        Some(open) => {
            let before: Seq<Option<Seq<char>>> = if open > 0 {
                seq![Some(t.subrange(0, open))]
            } else {
                Seq::empty()
            };
            let rest = t.subrange(open, t.len() as int);
            match find(rest, Pat::Text(seq!['}', '}'])) {
                None => before + seq![Some(rest)],
                Some(close) => if 0 <= open <= t.len() && 0 <= close && close + 2 <= rest.len() {
                    before + seq![None] + template_parts(rest.subrange(close + 2, rest.len() as int))
                } else {
                    before
                },
            }
        },
    }
}

/// The content inserted into slot `slot`: every insert for that slot, in
/// the order of insertion.
pub open spec fn slot_content(inserts: Seq<(Seq<char>, isize)>, slot: int) -> Seq<char>
    decreases inserts.len(),
{
    if inserts.len() == 0 {
        Seq::empty()
    } else {
        (if inserts[0].1 == slot {
            inserts[0].0
        } else {
            Seq::empty()
        }) + slot_content(inserts.drop_first(), slot)
    }
}

/// The rendering of `parts` whose first slot is number `slot`: literal
/// parts as they are, and each slot replaced by its content.
pub open spec fn render_parts(
    parts: Seq<Option<Seq<char>>>,
    inserts: Seq<(Seq<char>, isize)>,
    slot: int,
) -> Seq<char>
    decreases parts.len(),
{
    if parts.len() == 0 {
        Seq::empty()
    } else {
        match parts[0] {
            Some(p) => p + render_parts(parts.drop_first(), inserts, slot),
            None => slot_content(inserts, slot) + render_parts(parts.drop_first(), inserts, slot + 1),
        }
    }
}

pub open spec fn part_view(p: Option<String>) -> Option<Seq<char>> {
    match p {
        Some(s) => Some(s@),
        None => None,
    }
}

pub open spec fn insert_view(i: (String, isize)) -> (Seq<char>, isize) {
    (i.0@, i.1)
}

/// A parsed template, the file it came from, and the content inserted so far.
pub struct Template {
    pub source: String,
    pub template: Vec<Option<String>>,
    pub inserts: Vec<(String, isize)>,
}

impl Template {
    /// The parts of the template.
    pub open spec fn parts(&self) -> Seq<Option<Seq<char>>> {
        self.template@.map_values(|p: Option<String>| part_view(p))
    }

    /// The content inserted so far.
    pub open spec fn inserted(&self) -> Seq<(Seq<char>, isize)> {
        self.inserts@.map_values(|i: (String, isize)| insert_view(i))
    }

    /// A template of the given parts, with nothing inserted.
    pub fn new(template: Vec<Option<String>>, source: String) -> (r: Self)
        ensures
            r.template == template,
            r.source == source,
            r.inserts@.len() == 0,
    {
        Template { source, template, inserts: Vec::new() }
    }

    /// Parses a template text read from `source`.
    pub fn parse(text: &str, source: String) -> (r: Self)
        ensures
            r.parts() == template_parts(text@),
            r.source == source,
            r.inserts@.len() == 0,
    {
        let chars = to_chars(text);
        let parts = split_template(chars.as_slice());
        Template::new(parts, source)
    }

    /// Renders the template with the given inserts only; the inserts held
    /// by the template are not used.
    pub fn render_only_with(&self, inserts: &[(String, isize)]) -> (r: String)
        ensures
            r@ == render_parts(
                self.parts(),
                inserts@.map_values(|i: (String, isize)| insert_view(i)),
                0,
            ),
    {
        let ghost ins = inserts@.map_values(|i: (String, isize)| insert_view(i));
        let ghost parts = self.parts();
        let mut out: Vec<char> = Vec::new();
        let mut current: usize = 0;
        let mut k: usize = 0;
        assert(parts.subrange(0, parts.len() as int) =~= parts);
        assert(out@ + render_parts(parts, ins, 0) =~= render_parts(parts, ins, 0));
        while k < self.template.len()
            invariant
                k <= self.template@.len(),
                current <= k,
                parts == self.parts(),
                ins == inserts@.map_values(|i: (String, isize)| insert_view(i)),
                render_parts(parts, ins, 0) == out@ + render_parts(
                    parts.subrange(k as int, parts.len() as int),
                    ins,
                    current as int,
                ),
            decreases self.template@.len() - k,
        {
            let ghost rest = parts.subrange(k as int, parts.len() as int);
            assert(rest.drop_first() =~= parts.subrange(k + 1, parts.len() as int));
            assert(rest[0] == part_view(self.template@[k as int]));
            match &self.template[k] {
                Some(part) => {
                    let ghost before = out@;
                    push_str(&mut out, part.as_str());
                    assert(before + (part@ + render_parts(rest.drop_first(), ins, current as int))
                        =~= out@ + render_parts(rest.drop_first(), ins, current as int));
                },
                None => {
                    let ghost before = out@;
                    append_slot(&mut out, inserts, current);
                    assert(before + (slot_content(ins, current as int) + render_parts(
                        rest.drop_first(),
                        ins,
                        current + 1,
                    )) =~= out@ + render_parts(rest.drop_first(), ins, current + 1));
                    current = current + 1;
                },
            }
            k = k + 1;
        }
        assert(render_parts(parts.subrange(k as int, parts.len() as int), ins, current as int)
            =~= Seq::<char>::empty());
        assert(out@ + Seq::<char>::empty() =~= out@);
        string_from_chars(out.as_slice())
    }

    /// Renders the template with the content inserted so far, and forgets
    /// that content.
    pub fn render(&mut self) -> (r: String)
        ensures
            r@ == render_parts(old(self).parts(), old(self).inserted(), 0),
            final(self).parts() == old(self).parts(),
            final(self).source == old(self).source,
            final(self).inserts@.len() == 0,
    {
        let out = self.render_only_with(self.inserts.as_slice());
        self.inserts.clear();
        out
    }

    /// Adds content to be inserted at the next render.
    pub fn insert(&mut self, inserts: &[(String, isize)])
        ensures
            final(self).inserted() == old(self).inserted() + inserts@.map_values(
                |i: (String, isize)| insert_view(i),
            ),
            final(self).parts() == old(self).parts(),
            final(self).source == old(self).source,
    {
        let ghost start = self.inserted();
        let mut k: usize = 0;
        while k < inserts.len()
            invariant
                k <= inserts@.len(),
                self.parts() == old(self).parts(),
                self.source == old(self).source,
                start == old(self).inserted(),
                self.inserted() == start + inserts@.subrange(0, k as int).map_values(
                    |i: (String, isize)| insert_view(i),
                ),
            decreases inserts@.len() - k,
        {
            let content = inserts[k].0.clone();
            let slot = inserts[k].1;
            let ghost before = self.inserted();
            self.inserts.push((content, slot));
            assert(self.inserted() =~= before.push(insert_view(inserts@[k as int])));
            assert(inserts@.subrange(0, k + 1).map_values(|i: (String, isize)| insert_view(i))
                =~= inserts@.subrange(0, k as int).map_values(|i: (String, isize)| insert_view(i)).push(
                insert_view(inserts@[k as int]),
            ));
            k = k + 1;
        }
        assert(inserts@.subrange(0, inserts@.len() as int) =~= inserts@);
    }
}

/// Appends the content of slot `slot` to `out`.
fn append_slot(out: &mut Vec<char>, inserts: &[(String, isize)], slot: usize)
    ensures
        final(out)@ == old(out)@ + slot_content(
            inserts@.map_values(|i: (String, isize)| insert_view(i)),
            slot as int,
        ),
{
    let ghost ins = inserts@.map_values(|i: (String, isize)| insert_view(i));
    let mut k: usize = 0;
    assert(ins.subrange(0, ins.len() as int) =~= ins);
    while k < inserts.len()
        invariant
            k <= inserts@.len(),
            ins == inserts@.map_values(|i: (String, isize)| insert_view(i)),
            old(out)@ + slot_content(ins, slot as int) == out@ + slot_content(
                ins.subrange(k as int, ins.len() as int),
                slot as int,
            ),
        decreases inserts@.len() - k,
    {
        let ghost rest = ins.subrange(k as int, ins.len() as int);
        assert(rest.drop_first() =~= ins.subrange(k + 1, ins.len() as int));
        assert(rest[0] == insert_view(inserts@[k as int]));
        let id = inserts[k].1;
        if id >= 0 && id as usize == slot {
            let ghost before = out@;
            push_str(out, inserts[k].0.as_str());
            assert(before + (inserts@[k as int].0@ + slot_content(rest.drop_first(), slot as int))
                =~= out@ + slot_content(rest.drop_first(), slot as int));
        } else {
            assert(Seq::<char>::empty() + slot_content(rest.drop_first(), slot as int) =~= slot_content(
                rest.drop_first(),
                slot as int,
            ));
        }
        k = k + 1;
    }
    assert(slot_content(ins.subrange(k as int, ins.len() as int), slot as int) =~= Seq::<char>::empty());
    assert(out@ + Seq::<char>::empty() =~= out@);
}

/// Splits a template text into literal parts and slots.
pub fn split_template(t: &[char]) -> (r: Vec<Option<String>>)
    ensures
        r@.map_values(|p: Option<String>| part_view(p)) == template_parts(t@),
{
    let open_pat = Pattern::Text(to_chars("{{"));
    let close_pat = Pattern::Text(to_chars("}}"));
    proof {
        reveal_strlit("{{");
        reveal_strlit("}}");
    }
    assert("{{"@ =~= seq!['{', '{']);
    assert("}}"@ =~= seq!['}', '}']);
    assert(open_pat@ == Pat::Text(seq!['{', '{']));
    assert(close_pat@ == Pat::Text(seq!['}', '}']));
    let mut parts: Vec<Option<String>> = Vec::new();
    let mut start: usize = 0;
    assert(t@.subrange(0, t@.len() as int) =~= t@);
    while start <= t.len()
        invariant
            start <= t@.len(),
            open_pat@ == Pat::Text(seq!['{', '{']),
            close_pat@ == Pat::Text(seq!['}', '}']),
            template_parts(t@) == parts@.map_values(|p: Option<String>| part_view(p)) + template_parts(
                t@.subrange(start as int, t@.len() as int),
            ),
        decreases t@.len() - start,
    {
        let ghost cur = t@.subrange(start as int, t@.len() as int);
        let ghost pre = parts@.map_values(|p: Option<String>| part_view(p));
        let rest_slice = &t[start..t.len()];
        assert(rest_slice@ =~= cur);
        match find_pattern(rest_slice, &open_pat) {
            None => {
                if start < t.len() {
                    let piece = copy_range(t, start, t.len());
                    parts.push(Some(string_from_chars(piece.as_slice())));
                    assert(parts@.map_values(|p: Option<String>| part_view(p)) =~= pre + seq![Some(cur)]);
                } else {
                    assert(parts@.map_values(|p: Option<String>| part_view(p)) + Seq::empty() =~= pre);
                }
                return parts;
            },
            Some(open) => {
                if open > 0 {
                    let piece = copy_range(t, start, start + open);
                    assert(piece@ =~= cur.subrange(0, open as int));
                    parts.push(Some(string_from_chars(piece.as_slice())));
                }
                let ghost before_parts: Seq<Option<Seq<char>>> = if open > 0 {
                    seq![Some(cur.subrange(0, open as int))]
                } else {
                    Seq::empty()
                };
                assert(parts@.map_values(|p: Option<String>| part_view(p)) =~= pre + before_parts);
                let at = start + open;
                let rest2 = &t[at..t.len()];
                let ghost rest = cur.subrange(open as int, cur.len() as int);
                assert(rest2@ =~= rest);
                match find_pattern(rest2, &close_pat) {
                    None => {
                        let piece = copy_range(t, at, t.len());
                        assert(piece@ =~= rest);
                        let ghost mid = parts@.map_values(|p: Option<String>| part_view(p));
                        parts.push(Some(string_from_chars(piece.as_slice())));
                        assert(parts@.map_values(|p: Option<String>| part_view(p)) =~= mid + seq![Some(rest)]);
                        assert(pre + (before_parts + seq![Some(rest)]) =~= mid + seq![Some(rest)]);
                        return parts;
                    },
                    Some(close) => {
                        let ghost mid = parts@.map_values(|p: Option<String>| part_view(p));
                        parts.push(None);
                        assert(parts@.map_values(|p: Option<String>| part_view(p)) =~= mid + seq![None]);
                        let next = at + close + 2;
                        assert(rest.subrange(close + 2, rest.len() as int) =~= t@.subrange(
                            next as int,
                            t@.len() as int,
                        ));
                        assert(pre + (before_parts + seq![None] + template_parts(
                            rest.subrange(close + 2, rest.len() as int),
                        )) =~= mid + seq![None] + template_parts(
                            t@.subrange(next as int, t@.len() as int),
                        ));
                        start = next;
                    },
                }
            },
        }
    }
    parts
}

/// What can be inserted into a template.
pub trait IntoContent: Sized {
    spec fn content(&self) -> Seq<char>;

    fn into_content(self) -> (r: String)
        ensures
            r@ == self.content(),
    ;
}

impl IntoContent for String {
    open spec fn content(&self) -> Seq<char> {
        self@
    }

    fn into_content(self) -> (r: String) {
        self
    }
}

impl<'a> IntoContent for &'a str {
    open spec fn content(&self) -> Seq<char> {
        (*self)@
    }

    fn into_content(self) -> (r: String) {
        let v = to_chars(self);
        string_from_chars(v.as_slice())
    }
}

impl Template {
    /// Adds one piece of content for slot `slot`.
    pub fn insert_content<C: IntoContent>(&mut self, content: C, slot: isize)
        ensures
            final(self).inserted() == old(self).inserted().push((content.content(), slot)),
            final(self).parts() == old(self).parts(),
            final(self).source == old(self).source,
    {
        let text = content.into_content();
        let ghost before = self.inserted();
        self.inserts.push((text, slot));
        assert(self.inserted() =~= before.push((content.content(), slot)));
    }
}

/// The content of a slot after two rounds of inserts is the content from
/// the first round followed by the content from the second: inserting in
/// several calls renders like inserting all at once.
pub proof fn slot_content_of_concatenation(a: Seq<(Seq<char>, isize)>, b: Seq<(Seq<char>, isize)>, slot: int)
    ensures
        slot_content(a + b, slot) == slot_content(a, slot) + slot_content(b, slot),
    decreases a.len(),
{
    if a.len() == 0 {
        assert(a + b =~= b);
        assert(Seq::<char>::empty() + slot_content(b, slot) =~= slot_content(b, slot));
    } else {
        assert((a + b).drop_first() =~= a.drop_first() + b);
        slot_content_of_concatenation(a.drop_first(), b, slot);
        let head: Seq<char> = if a[0].1 == slot {
            a[0].0
        } else {
            Seq::empty()
        };
        assert(head + (slot_content(a.drop_first(), slot) + slot_content(b, slot)) =~= (head
            + slot_content(a.drop_first(), slot)) + slot_content(b, slot));
    }
}

/// A text without `{{` is one literal part, and renders as itself whatever
/// was inserted.
pub proof fn slot_free_text_renders_unchanged(t: Seq<char>, inserts: Seq<(Seq<char>, isize)>)
    requires
        find(t, Pat::Text(seq!['{', '{'])) is None,
    ensures
        render_parts(template_parts(t), inserts, 0) == t,
{
    if t.len() > 0 {
        let parts = template_parts(t);
        assert(parts == seq![Some(t)]);
        assert(parts.drop_first() =~= Seq::<Option<Seq<char>>>::empty());
        assert(render_parts(parts.drop_first(), inserts, 0) == Seq::<char>::empty());
        assert(t + Seq::<char>::empty() =~= t);
    } else {
        assert(template_parts(t) == Seq::<Option<Seq<char>>>::empty());
        assert(t =~= Seq::<char>::empty());
    }
}

/// Inserts for a slot that no part of the template has leave the
/// rendering unchanged: only the slots that exist are filled.
pub proof fn inserts_for_other_slots_are_ignored(
    parts: Seq<Option<Seq<char>>>,
    inserts: Seq<(Seq<char>, isize)>,
    extra: Seq<(Seq<char>, isize)>,
    slot: int,
)
    requires
        forall|k: int| 0 <= k < extra.len() ==> (#[trigger] extra[k]).1 < slot,
    ensures
        render_parts(parts, inserts + extra, slot) == render_parts(parts, inserts, slot),
    decreases parts.len(),
{
    if parts.len() > 0 {
        match parts[0] {
            Some(p) => {
                inserts_for_other_slots_are_ignored(parts.drop_first(), inserts, extra, slot);
            },
            None => {
                assert forall|k: int| 0 <= k < extra.len() implies (#[trigger] extra[k]).1 < slot
                    + 1 by {}
                inserts_for_other_slots_are_ignored(parts.drop_first(), inserts, extra, slot + 1);
                slot_content_of_concatenation(inserts, extra, slot);
                lemma_no_content_for_slot(extra, slot);
                assert(slot_content(inserts, slot) + Seq::<char>::empty() =~= slot_content(
                    inserts,
                    slot,
                ));
            },
        }
    }
}

proof fn lemma_no_content_for_slot(extra: Seq<(Seq<char>, isize)>, slot: int)
    requires
        forall|k: int| 0 <= k < extra.len() ==> (#[trigger] extra[k]).1 < slot,
    ensures
        slot_content(extra, slot) == Seq::<char>::empty(),
    decreases extra.len(),
{
    if extra.len() > 0 {
        assert forall|k: int| 0 <= k < extra.drop_first().len() implies (
        #[trigger] extra.drop_first()[k]).1 < slot by {
            assert(extra.drop_first()[k] == extra[k + 1]);
        }
        lemma_no_content_for_slot(extra.drop_first(), slot);
        assert(extra[0].1 < slot);
    }
}

/// The first position at or after `k` that holds `c`, or the length of
/// `t` when none does.
pub open spec fn next_char(t: Seq<char>, c: char, k: int) -> int
    decreases t.len() - k,
{
    if k >= t.len() {
        t.len() as int
    } else if t[k] == c {
        k
    } else {
        next_char(t, c, k + 1)
    }
}

proof fn lemma_next_char(t: Seq<char>, c: char, k: int)
    requires
        0 <= k,
    ensures
        k <= next_char(t, c, k) || (k > t.len() && next_char(t, c, k) == t.len()),
        next_char(t, c, k) <= t.len() || next_char(t, c, k) == k,
        next_char(t, c, k) < t.len() ==> t[next_char(t, c, k)] == c,
        forall|m: int| k <= m < next_char(t, c, k) && m < t.len() ==> t[m] != c,
    decreases t.len() - k,
{
    if k < t.len() && t[k] != c {
        lemma_next_char(t, c, k + 1);
    }
}

/// The text inside each `{{...}}` of a template from position `p` on, the
/// way the template macro reads them: after a `{{`, the text up to the
/// next `}` is a target when a second `}` follows it.
pub open spec fn raw_targets_from(t: Seq<char>, p: int) -> Seq<Seq<char>>
    decreases t.len() - p,
{
    let i = next_char(t, '{', p);
    if p < 0 || i >= t.len() || i < p {
        Seq::empty()
    } else if !(i + 1 < t.len() && t[i + 1] == '{') {
        raw_targets_from(t, i + 1)
    } else {
        let j = next_char(t, '}', i + 1);
        if j >= t.len() || j <= i {
            Seq::empty()
        } else if !(j + 1 < t.len() && t[j + 1] == '}') {
            raw_targets_from(t, j + 1)
        } else {
            seq![t.subrange(i + 2, j)] + raw_targets_from(t, j + 2)
        }
    }
}

/// The Rust identifier that a text holds alone (whitespace and comments
/// around it aside), as `syn` parses it; `None` for anything else,
/// keywords included.
pub uninterp spec fn rust_ident(s: Seq<char>) -> Option<Seq<char>>;

/// `syn::parse_str::<syn::Ident>`, giving the identifier's text.
#[verifier::external_body]
fn parse_ident(s: &str) -> (r: Option<String>)
    ensures
        match r {
            Some(v) => rust_ident(s@) == Some(v@),
            None => rust_ident(s@) is None,
        },
{
    match syn::parse_str::<syn::Ident>(s) {
        Ok(ident) => Some(ident.to_string()),
        Err(_) => None,
    }
}

/// The identifiers among the texts, in order.
pub open spec fn idents_of(texts: Seq<Seq<char>>) -> Seq<Seq<char>>
    decreases texts.len(),
{
    if texts.len() == 0 {
        Seq::empty()
    } else {
        match rust_ident(texts.last()) {
            Some(id) => idents_of(texts.drop_last()).push(id),
            None => idents_of(texts.drop_last()),
        }
    }
}

fn next_char_at(t: &[char], c: char, k: usize) -> (r: usize)
    ensures
        r as int == next_char(t@, c, k as int),
{
    let mut m: usize = k;
    if m >= t.len() {
        return t.len();
    }
    while m < t.len()
        invariant
            k <= m <= t@.len(),
            next_char(t@, c, k as int) == next_char(t@, c, m as int),
        decreases t@.len() - m,
    {
        if t[m] == c {
            return m;
        }
        m = m + 1;
    }
    t.len()
}

/// The texts inside the `{{...}}` of a template, in order.
pub fn raw_targets(t: &[char]) -> (r: Vec<Vec<char>>)
    ensures
        crate::text::views(r@) == raw_targets_from(t@, 0),
{
    let mut out: Vec<Vec<char>> = Vec::new();
    let mut p: usize = 0;
    loop
        invariant
            p <= t@.len() + 1,
            raw_targets_from(t@, 0) == crate::text::views(out@) + raw_targets_from(t@, p as int),
        ensures
            crate::text::views(out@) == raw_targets_from(t@, 0),
        decreases t@.len() + 1 - p,
    {
        let i = next_char_at(t, '{', p);
        proof {
            lemma_next_char(t@, '{', p as int);
        }
        if i >= t.len() || i < p {
            assert(raw_targets_from(t@, p as int) == Seq::<Seq<char>>::empty());
            assert(crate::text::views(out@) + Seq::<Seq<char>>::empty() =~= crate::text::views(out@));
            break;
        }
        if !(i + 1 < t.len() && t[i + 1] == '{') {
            p = i + 1;
            continue;
        }
        let j = next_char_at(t, '}', i + 1);
        proof {
            lemma_next_char(t@, '}', i + 1);
        }
        if j >= t.len() || j <= i {
            assert(raw_targets_from(t@, p as int) == Seq::<Seq<char>>::empty());
            assert(crate::text::views(out@) + Seq::<Seq<char>>::empty() =~= crate::text::views(out@));
            break;
        }
        if !(j + 1 < t.len() && t[j + 1] == '}') {
            p = j + 1;
            continue;
        }
        assert(t@[i + 1] != '}');
        let inside = copy_range(t, i + 2, j);
        let ghost before = crate::text::views(out@);
        out.push(inside);
        assert(crate::text::views(out@) =~= before.push(t@.subrange(i + 2, j as int)));
        assert(before + (seq![t@.subrange(i + 2, j as int)] + raw_targets_from(t@, j + 2))
            =~= crate::text::views(out@) + raw_targets_from(t@, j + 2));
        p = j + 2;
    }
    out
}

/// The slot targets of a template, as the template macro generates them:
/// the identifiers inside `{{...}}`, in order; the `k`-th is slot `k`.
pub fn template_targets(text: &str) -> (r: Vec<String>)
    ensures
        r@.map_values(|s: String| s@) == idents_of(raw_targets_from(text@, 0)),
{
    let chars = to_chars(text);
    let raw = raw_targets(chars.as_slice());
    let ghost texts = crate::text::views(raw@);
    let mut out: Vec<String> = Vec::new();
    let mut k: usize = 0;
    while k < raw.len()
        invariant
            k <= raw@.len(),
            texts == crate::text::views(raw@),
            out@.map_values(|s: String| s@) == idents_of(texts.subrange(0, k as int)),
        decreases raw@.len() - k,
    {
        let ghost next = texts.subrange(0, k + 1);
        assert(next.drop_last() =~= texts.subrange(0, k as int));
        assert(next.last() == raw@[k as int]@);
        let candidate = string_from_chars(raw[k].as_slice());
        match parse_ident(candidate.as_str()) {
            Some(id) => {
                let ghost before = out@.map_values(|s: String| s@);
                out.push(id);
                assert(out@.map_values(|s: String| s@) =~= before.push(id@));
            },
            None => {},
        }
        assert(out@.map_values(|s: String| s@) =~= idents_of(next));
        k = k + 1;
    }
    assert(texts.subrange(0, raw@.len() as int) =~= texts);
    out
}

/// The slot of a target: its position among the template's targets.
pub fn slot_of(targets: &Vec<String>, name: &str) -> (r: Option<usize>)
    ensures
        match r {
            Some(k) => k < targets@.len() && targets@[k as int]@ == name@ && forall|m: int|
                0 <= m < k ==> #[trigger] targets@[m]@ != name@,
            None => forall|m: int| 0 <= m < targets@.len() ==> #[trigger] targets@[m]@ != name@,
        },
{
    let wanted = to_chars(name);
    let mut k: usize = 0;
    while k < targets.len()
        invariant
            k <= targets@.len(),
            wanted@ == name@,
            forall|m: int| 0 <= m < k ==> #[trigger] targets@[m]@ != name@,
        decreases targets@.len() - k,
    {
        let candidate = to_chars(targets[k].as_str());
        if crate::text::chars_equal(candidate.as_slice(), wanted.as_slice()) {
            return Some(k);
        }
        k = k + 1;
    }
    None
}

} // verus!
