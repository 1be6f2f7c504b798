//! Watch-together sessions: who is connected, what a client's message does
//! to the session, which messages a client is sent, and how a media
//! request names its session and segment.
use vstd::prelude::*;
use crate::auth::{User, UserView};
use crate::text::push_str;
use crate::notification::{seek_text, seek_text_spec, SimplifiedType};
use crate::random::pseudo_random;
use crate::stream_ident::StreamIndicies;
use vstd::set_lib::{lemma_int_range, lemma_len_subset, set_int_range};
use crate::text::{
    decimal, decimal_parses_back, lemma_decimal_all_digits, lemma_find_dot_after_digits, parse_uint, parse_uint_chars, split_once, split_once_chars, string_from_chars, to_chars, Pat,
    Pattern,
};

verus! {

/// Whether the video of a session plays.
#[derive(Clone, Copy, PartialEq, Eq, Structural, Debug)]
pub enum SessionState {
    Playing,
    Paused,
}

/// What a client's update message reports.
#[derive(Clone, Copy, PartialEq, Eq, Structural, Debug)]
pub enum WSMessageType {
    Play,
    Pause,
    Seek,
    /// Sent by the server only, with the session's state.
    State,
    Update,
}

/// A request for the media of a session: its playlist, or one part.
pub enum MediaRequest {
    Playlist { streams: StreamIndicies },
    Media { part: usize, streams: StreamIndicies },
}

/// The users connected to a session, each under the id of their
/// connection, in the order they joined.
pub struct SessionReceivers {
    entries: Vec<(User, u32)>,
}

pub open spec fn ids_of(s: Seq<(User, u32)>) -> Seq<u32> {
    s.map_values(|e: (User, u32)| e.1)
}

/// The ids that stay when `id` leaves, in order.
pub open spec fn without_id(ids: Seq<u32>, id: u32) -> Seq<u32>
    decreases ids.len(),
{
    if ids.len() == 0 {
        Seq::empty()
    } else if ids.last() != id {
        without_id(ids.drop_last(), id).push(ids.last())
    } else {
        without_id(ids.drop_last(), id)
    }
}

/// The entries that stay when `id` leaves, in order.
pub open spec fn without_entry(entries: Seq<(UserView, u32)>, id: u32) -> Seq<(UserView, u32)>
    decreases entries.len(),
{
    if entries.len() == 0 {
        Seq::empty()
    } else if entries.last().1 != id {
        without_entry(entries.drop_last(), id).push(entries.last())
    } else {
        without_entry(entries.drop_last(), id)
    }
}

spec fn entry_views(s: Seq<(User, u32)>) -> Seq<(UserView, u32)> {
    s.map_values(|e: (User, u32)| (e.0@, e.1))
}

impl SessionReceivers {
    /// The connection ids, in the order of joining.
    pub closed spec fn ids(&self) -> Seq<u32> {
        ids_of(self.entries@)
    }

    /// The users with their connection ids, in the order of joining.
    pub closed spec fn entries(&self) -> Seq<(UserView, u32)> {
        entry_views(self.entries@)
    }

    /// The ids are those of the entries, in the same order.
    pub proof fn ids_are_those_of_the_entries(&self)
        ensures
            self.ids() == self.entries().map_values(|e: (UserView, u32)| e.1),
    {
        assert(self.ids() =~= self.entries().map_values(|e: (UserView, u32)| e.1));
    }

    pub fn new() -> (r: Self)
        ensures
            r.ids() == Seq::<u32>::empty(),
            r.entries() == Seq::<(UserView, u32)>::empty(),
    {
        let r = SessionReceivers { entries: Vec::new() };
        assert(r.entries() =~= Seq::<(UserView, u32)>::empty());
        r
    }

    /// A connection id that no connection uses: `candidate` when it is free,
    /// else the smallest free id. With fewer connections than there are
    /// `u32` values one is always free.
    pub fn pick_connection_id(&self, candidate: u32) -> (r: u32)
        requires
            self.ids().len() < u32::MAX,
        ensures
            !self.ids().contains(r),
            !self.ids().contains(candidate) ==> r == candidate,
    {
        if self.is_free(candidate) {
            return candidate;
        }
        let n = self.entries.len();
        let mut c: u32 = 0;
        loop
            invariant
                n == self.ids().len(),
                n < u32::MAX,
                self.ids().contains(candidate),
                c as int <= n,
                forall|k: u32| k < c ==> #[trigger] self.ids().contains(k),
            decreases n - c,
        {
            if self.is_free(c) {
                return c;
            }
            if c as usize == n {
                proof {
                    lemma_some_id_is_free(self.ids());
                    assert(forall|k: u32| k <= n ==> #[trigger] self.ids().contains(k));
                }
                return c;
            }
            c = c + 1;
        }
    }

    /// A connection id for a new user: a pseudo random one, or the smallest
    /// free one when that is taken.
    pub fn new_connection_id(&self) -> (r: u32)
        requires
            self.ids().len() < u32::MAX,
        ensures
            !self.ids().contains(r),
    {
        self.pick_connection_id(pseudo_random())
    }

    /// A user joins under a fresh connection id, `candidate` when it is
    /// free; the id is returned.
    pub fn add_user(&mut self, user: User, candidate: u32) -> (id: u32)
        requires
            old(self).ids().len() < u32::MAX,
        ensures
            !old(self).ids().contains(id),
            !old(self).ids().contains(candidate) ==> id == candidate,
            final(self).ids() == old(self).ids().push(id),
            final(self).entries() == old(self).entries().push((user@, id)),
    {
        let id = self.pick_connection_id(candidate);
        self.add_receiver(user, id);
        id
    }

    /// A user joins under a connection id.
    pub fn add_receiver(&mut self, user: User, id: u32)
        ensures
            final(self).ids() == old(self).ids().push(id),
            final(self).entries() == old(self).entries().push((user@, id)),
    {
        let ghost u = user@;
        self.entries.push((user, id));
        assert(ids_of(self.entries@) =~= ids_of(old(self).entries@).push(id));
        assert(entry_views(self.entries@) =~= entry_views(old(self).entries@).push((u, id)));
    }

    /// The connection `id` leaves; every entry under that id goes.
    pub fn remove_receiver(&mut self, id: u32)
        ensures
            final(self).ids() == without_id(old(self).ids(), id),
            final(self).entries() == without_entry(old(self).entries(), id),
    {
        let ghost all = self.entries@;
        let count = self.entries.len();
        let mut rest = Vec::new();
        std::mem::swap(&mut rest, &mut self.entries);
        let mut kept: Vec<(User, u32)> = Vec::new();
        let mut k: usize = 0;
        while rest.len() > 0
            invariant
                k + rest@.len() == count,
                all.len() == count,
                rest@ == all.subrange(k as int, count as int),
                ids_of(kept@) == without_id(ids_of(all.subrange(0, k as int)), id),
                entry_views(kept@) == without_entry(entry_views(all.subrange(0, k as int)), id),
            decreases rest@.len(),
        {
            let ghost r0 = rest@;
            let e = rest.remove(0);
            assert(rest@ =~= all.subrange(k + 1, count as int));
            let ghost prefix = ids_of(all.subrange(0, k + 1));
            assert(prefix.drop_last() =~= ids_of(all.subrange(0, k as int)));
            assert(prefix.last() == e.1);
            let ghost eprefix = entry_views(all.subrange(0, k + 1));
            assert(eprefix.drop_last() =~= entry_views(all.subrange(0, k as int)));
            assert(eprefix.last() == (e.0@, e.1));
            if e.1 != id {
                let ghost ev = (e.0@, e.1);
                let ghost kept_before = entry_views(kept@);
                kept.push(e);
                assert(ids_of(kept@) =~= without_id(ids_of(all.subrange(0, k as int)), id).push(ev.1));
                assert(entry_views(kept@) =~= kept_before.push(ev));
            }
            k = k + 1;
        }
        assert(all.subrange(0, count as int) =~= all);
        self.entries = kept;
    }

    /// The connection `id` ends: its entries go, and the result tells
    /// whether the session is left without any connection.
    pub fn remove_user(&mut self, id: u32) -> (now_empty: bool)
        ensures
            final(self).ids() == without_id(old(self).ids(), id),
            final(self).entries() == without_entry(old(self).entries(), id),
            now_empty == (final(self).ids().len() == 0),
    {
        self.remove_receiver(id);
        self.receiver_count() == 0
    }

    pub fn receiver_count(&self) -> (r: usize)
        ensures
            r == self.ids().len(),
    {
        self.entries.len()
    }

    /// Whether no connection uses `id` yet.
    pub fn is_free(&self, id: u32) -> (r: bool)
        ensures
            r == !self.ids().contains(id),
    {
        let mut i: usize = 0;
        while i < self.entries.len()
            invariant
                i <= self.entries@.len(),
                forall|j: int| 0 <= j < i ==> #[trigger] self.ids()[j] != id,
            decreases self.entries@.len() - i,
        {
            if self.entries[i].1 == id {
                assert(self.ids()[i as int] == id);
                return false;
            }
            i = i + 1;
        }
        true
    }
}

/// Among the `n + 1` values `0..=n`, one is none of `n` ids.
proof fn lemma_some_id_is_free(ids: Seq<u32>)
    requires
        ids.len() < u32::MAX,
    ensures
        exists|k: u32| k <= ids.len() && !#[trigger] ids.contains(k),
{
    let n = ids.len() as int;
    if forall|k: u32| k <= n ==> #[trigger] ids.contains(k) {
        let ints = ids.map_values(|x: u32| x as int);
        assert forall|k: int| set_int_range(0, n + 1).contains(k) implies ints.to_set().contains(k) by {
            assert(ids.contains(k as u32));
            let j = choose|j: int| 0 <= j < ids.len() && ids[j] == k as u32;
            assert(ints[j] == k);
            assert(ints.contains(k));
        }
        lemma_int_range(0, n + 1);
        ints.lemma_cardinality_of_set();
        vstd::seq_lib::seq_to_set_is_finite(ints);
        lemma_len_subset(set_int_range(0, n + 1), ints.to_set());
    }
}

/// What a message sent to the clients of a session carries.
pub enum SessionOutput {
    /// The state of the session, with the kind of update, its time stamp;
    /// the position in the video is that of the player that sent it.
    StateUpdate { message_type: WSMessageType, timestamp: u64, state: SessionState },
    /// A text notification caused by the client `origin`.
    TextNotification { msg: String, origin: u32 },
    /// A user joined.
    Join,
}

/// A message to the clients as plain values.
pub enum SessionOutputView {
    StateUpdate { message_type: WSMessageType, timestamp: u64, state: SessionState },
    TextNotification { msg: Seq<char>, origin: u32 },
    Join,
}

pub open spec fn output_view(o: SessionOutput) -> SessionOutputView {
    match o {
        SessionOutput::StateUpdate { message_type, timestamp, state } => SessionOutputView::StateUpdate {
            message_type,
            timestamp,
            state,
        },
        SessionOutput::TextNotification { msg, origin } => SessionOutputView::TextNotification {
            msg: msg@,
            origin,
        },
        SessionOutput::Join => SessionOutputView::Join,
    }
}

/// What a session sends when `username` joins on connection `user_id`
/// while the session is in `state`: first the state, at time 0, then the
/// notice `<username> joined the session` from that connection, then the
/// join message. The session itself is not changed.
pub open spec fn join_outputs(username: Seq<char>, user_id: u32, state: SessionState) -> Seq<
    SessionOutputView,
> {
    seq![
        SessionOutputView::StateUpdate { message_type: WSMessageType::State, timestamp: 0, state },
        SessionOutputView::TextNotification { msg: username + " joined the session"@, origin: user_id },
        SessionOutputView::Join,
    ]
}

/// The messages a session sends, in order, when a client announces that it
/// joined.
pub fn join_messages(username: &str, user_id: u32, state: SessionState) -> (r: Vec<SessionOutput>)
    ensures
        r@.map_values(|o: SessionOutput| output_view(o)) == join_outputs(username@, user_id, state),
{
    let mut out: Vec<SessionOutput> = Vec::new();
    out.push(SessionOutput::StateUpdate { message_type: WSMessageType::State, timestamp: 0, state });
    out.push(SessionOutput::TextNotification { msg: joined_text(username), origin: user_id });
    out.push(SessionOutput::Join);
    assert(out@.map_values(|o: SessionOutput| output_view(o)) =~= join_outputs(username@, user_id, state));
    out
}

/// What a client's update does to the session: the state it sets, if any,
/// and the notification it causes, if any, with its kind.
pub struct UpdateEffects {
    pub new_state: Option<SessionState>,
    pub notification: Option<(String, SimplifiedType)>,
}

/// The effects of an update from `username`. A pause pauses the session
/// and tells the others; so does a play; a seek tells them where the
/// video went (`seek_minutes` and `seek_seconds` of the new position); a
/// plain update does neither. Only the server sends state messages.
pub fn update_effects(message_type: WSMessageType, username: &str, seek_minutes: u32, seek_seconds: u8) -> (r:
    UpdateEffects)
    requires
        message_type != WSMessageType::State,
    ensures
        message_type == WSMessageType::Pause ==> r.new_state == Some(SessionState::Paused) && (
        r.notification matches Some(n) && n.0@ == username@ + " paused the video"@ && n.1
            == SimplifiedType::StateToggle),
        message_type == WSMessageType::Play ==> r.new_state == Some(SessionState::Playing) && (
        r.notification matches Some(n) && n.0@ == username@ + " resumed the video"@ && n.1
            == SimplifiedType::StateToggle),
        message_type == WSMessageType::Seek ==> r.new_state is None && (
        r.notification matches Some(n) && n.0@ == seek_text_spec(
            username@,
            seek_minutes,
            seek_seconds,
        ) && n.1 == SimplifiedType::Seek),
        message_type == WSMessageType::Update ==> r.new_state is None && r.notification is None,
{
    match message_type {
        WSMessageType::Pause => {
            let mut out: Vec<char> = Vec::new();
            push_str(&mut out, username);
            push_str(&mut out, " paused the video");
            UpdateEffects {
                new_state: Some(SessionState::Paused),
                notification: Some((string_from_chars(out.as_slice()), SimplifiedType::StateToggle)),
            }
        },
        WSMessageType::Play => {
            let mut out: Vec<char> = Vec::new();
            push_str(&mut out, username);
            push_str(&mut out, " resumed the video");
            UpdateEffects {
                new_state: Some(SessionState::Playing),
                notification: Some((string_from_chars(out.as_slice()), SimplifiedType::StateToggle)),
            }
        },
        WSMessageType::Seek => UpdateEffects {
            new_state: None,
            notification: Some((seek_text(username, seek_minutes, seek_seconds), SimplifiedType::Seek)),
        },
        _ => UpdateEffects { new_state: None, notification: None },
    }
}

/// `<username> joined the session`.
pub fn joined_text(username: &str) -> (r: String)
    ensures
        r@ == username@ + " joined the session"@,
{
    let mut out: Vec<char> = Vec::new();
    push_str(&mut out, username);
    push_str(&mut out, " joined the session");
    string_from_chars(out.as_slice())
}

/// The notice sent when a user leaves: `<username> left the session`,
/// unless they were the last one connected.
pub fn left_notice(username: &str, receivers_left: usize) -> (r: Option<String>)
    ensures
        receivers_left == 1 ==> r is None,
        receivers_left != 1 ==> (r matches Some(t) && t@ == username@ + " left the session"@),
{
    if receivers_left == 1 {
        None
    } else {
        let mut out: Vec<char> = Vec::new();
        push_str(&mut out, username);
        push_str(&mut out, " left the session");
        Some(string_from_chars(out.as_slice()))
    }
}

/// Whether a broadcast message goes out to the client with connection
/// `user_id`: a notification is not sent back to the client that caused
/// it (`origin`); every other message goes to all.
pub fn forward_to_client(notification_origin: Option<u32>, user_id: u32) -> (r: bool)
    ensures
        r == match notification_origin {
            Some(o) => o != user_id,
            None => true,
        },
{
    match notification_origin {
        Some(o) => o != user_id,
        None => true,
    }
}

/// What a content token `<session>.<segment>.<rest>` asks for.
pub struct ContentToken {
    pub session_id: u32,
    pub segment: Option<usize>,
}

/// Why a content token was refused.
#[derive(Clone, Copy, PartialEq, Eq, Structural, Debug)]
pub enum ContentTokenError {
    /// The part before the first `.` is not a session id.
    SessionId,
}

/// The part before the first `.`, or all of it.
pub open spec fn head_of(s: Seq<char>) -> Seq<char> {
    match split_once(s, Pat::Char('.')) {
        Some((h, _)) => h,
        None => s,
    }
}

/// The part after the first `.`, or nothing.
pub open spec fn tail_of(s: Seq<char>) -> Seq<char> {
    match split_once(s, Pat::Char('.')) {
        Some((_, t)) => t,
        None => Seq::empty(),
    }
}

/// Reads a content token: the session id is the part before the first
/// `.`; the segment is the part between the first and the second `.`, when
/// that is a number; otherwise the playlist is asked for.
pub fn parse_content_token(token: &str) -> (r: Result<ContentToken, ContentTokenError>)
    ensures
        match parse_uint(head_of(token@), u32::MAX as nat) {
            None => r == Err::<ContentToken, ContentTokenError>(ContentTokenError::SessionId),
            Some(id) => r matches Ok(t) && t.session_id == id && match parse_uint(
                head_of(tail_of(token@)),
                usize::MAX as nat,
            ) {
                Some(seg) => t.segment == Some(seg as usize),
                None => t.segment is None,
            },
        },
{
    let chars = to_chars(token);
    let dot = Pattern::Char('.');
    let (head, tail): (Vec<char>, Vec<char>) = match split_once_chars(chars.as_slice(), &dot) {
        Some((h, t)) => (h, t),
        None => (chars, Vec::new()),
    };
    assert(head@ == head_of(token@));
    assert(tail@ == tail_of(token@));
    let session_id = match parse_uint_chars(head.as_slice(), u32::MAX as u64) {
        Some(v) => v as u32,
        None => {
            return Err(ContentTokenError::SessionId);
        },
    };
    let segment_text: Vec<char> = match split_once_chars(tail.as_slice(), &dot) {
        Some((h, _)) => h,
        None => tail,
    };
    assert(segment_text@ == head_of(tail_of(token@)));
    let segment = match parse_uint_chars(segment_text.as_slice(), usize::MAX as u64) {
        Some(v) => Some(v as usize),
        None => None,
    };
    Ok(ContentToken { session_id, segment })
}

/// The segment names of a session's playlists, `<session>.<segment>.<rest>`,
/// read back as that session and segment.
pub proof fn segment_names_parse_back(session_id: u32, segment: usize, rest: Seq<char>)
    ensures
        ({
            let token = decimal(session_id as nat) + seq!['.'] + decimal(segment as nat) + seq!['.']
                + rest;
            &&& parse_uint(head_of(token), u32::MAX as nat) == Some(session_id as nat)
            &&& parse_uint(head_of(tail_of(token)), usize::MAX as nat) == Some(segment as nat)
        }),
{
    let ds = decimal(session_id as nat);
    let dg = decimal(segment as nat);
    let after = dg + seq!['.'] + rest;
    let token = ds + seq!['.'] + dg + seq!['.'] + rest;
    assert(token =~= ds + seq!['.'] + after);
    lemma_decimal_all_digits(session_id as nat);
    lemma_decimal_all_digits(segment as nat);
    lemma_find_dot_after_digits(ds, after);
    assert(token.subrange(0, ds.len() as int) =~= ds);
    assert(token.subrange(ds.len() as int + 1, token.len() as int) =~= after);
    lemma_find_dot_after_digits(dg, rest);
    assert(after.subrange(0, dg.len() as int) =~= dg);
    decimal_parses_back(session_id as nat, u32::MAX as nat);
    decimal_parses_back(segment as nat, usize::MAX as nat);
}

/// The kinds of frame a websocket delivers.
#[derive(Clone, Copy, PartialEq, Eq, Structural, Debug)]
pub enum FrameKind {
    Text,
    Binary,
    Ping,
    Pong,
    Close,
}

/// What the session does with a frame from a client.
#[derive(Clone, Copy, PartialEq, Eq, Structural, Debug)]
pub enum FrameAction {
    /// Handle the text as a client message.
    Handle,
    /// Skip the frame.
    Skip,
    /// Stop listening to the client.
    Stop,
}

/// Text frames carry the client's messages; binary, ping and pong frames
/// are skipped; a close frame, or a broken connection, ends the client.
pub fn frame_action(frame: Option<FrameKind>) -> (r: FrameAction)
    ensures
        r == match frame {
            None => FrameAction::Stop,
            Some(FrameKind::Close) => FrameAction::Stop,
            Some(FrameKind::Text) => FrameAction::Handle,
            Some(_) => FrameAction::Skip,
        },
{
    match frame {
        None => FrameAction::Stop,
        Some(FrameKind::Close) => FrameAction::Stop,
        Some(FrameKind::Text) => FrameAction::Handle,
        Some(_) => FrameAction::Skip,
    }
}

/// A connection that leaves is gone from the session, and every other
/// connection stays.
pub proof fn leaving_removes_only_that_connection(ids: Seq<u32>, id: u32)
    ensures
        !without_id(ids, id).contains(id),
        forall|x: u32| x != id ==> (without_id(ids, id).contains(x) <==> ids.contains(x)),
    decreases ids.len(),
{
    if ids.len() > 0 {
        let init = ids.drop_last();
        leaving_removes_only_that_connection(init, id);
        let rest = without_id(init, id);
        assert forall|x: u32| x != id implies (without_id(ids, id).contains(x) <==> ids.contains(x)) by {
            if ids.contains(x) {
                let j = choose|j: int| 0 <= j < ids.len() && ids[j] == x;
                if j < ids.len() - 1 {
                    assert(init[j] == x);
                    assert(init.contains(x));
                    assert(rest.contains(x));
                    if ids.last() != id {
                        let k = choose|k: int| 0 <= k < rest.len() && rest[k] == x;
                        assert(rest.push(ids.last())[k] == x);
                    }
                } else {
                    assert(without_id(ids, id) == rest.push(x));
                    assert(rest.push(x)[rest.len() as int] == x);
                }
            }
            if without_id(ids, id).contains(x) {
                if ids.last() != id {
                    let k = choose|k: int| 0 <= k < rest.len() + 1 && rest.push(ids.last())[k] == x;
                    if k < rest.len() {
                        assert(rest[k] == x);
                        assert(init.contains(x));
                        let j = choose|j: int| 0 <= j < init.len() && init[j] == x;
                        assert(ids[j] == x);
                    } else {
                        assert(ids[ids.len() - 1] == x);
                    }
                } else {
                    assert(init.contains(x));
                    let j = choose|j: int| 0 <= j < init.len() && init[j] == x;
                    assert(ids[j] == x);
                }
            }
        }
        if ids.last() != id {
            if rest.push(ids.last()).contains(id) {
                let k = choose|k: int| 0 <= k < rest.len() + 1 && rest.push(ids.last())[k] == id;
                if k < rest.len() {
                    assert(rest[k] == id);
                }
            }
        }
    }
}

/// A connection that joins under a fresh id and then leaves leaves the
/// other connections as they were, in their order.
pub proof fn join_then_leave_restores(ids: Seq<u32>, id: u32)
    requires
        !ids.contains(id),
    ensures
        without_id(ids.push(id), id) == ids,
{
    assert(ids.push(id).drop_last() =~= ids);
    lemma_without_absent(ids, id);
}

proof fn lemma_without_absent(ids: Seq<u32>, id: u32)
    requires
        !ids.contains(id),
    ensures
        without_id(ids, id) == ids,
    decreases ids.len(),
{
    if ids.len() > 0 {
        let init = ids.drop_last();
        assert(ids[ids.len() - 1] == ids.last());
        assert forall|x: u32| init.contains(x) implies ids.contains(x) by {
            let j = choose|j: int| 0 <= j < init.len() && init[j] == x;
            assert(ids[j] == x);
        }
        lemma_without_absent(init, id);
        assert(init.push(ids.last()) =~= ids);
    }
}

} // verus!
