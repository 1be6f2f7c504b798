//! Throttling of the notifications that a streaming session shows: seeks
//! and play/pause toggles are sent at most once a second, the latest one
//! of each kind winning; other notifications go out at once.
use vstd::prelude::*;
use crate::text::{string_from_chars};
use crate::text::push_str;

verus! {

/// How long a kind of throttled notification waits after the last one,
/// in nanoseconds.
pub const NOTIFICATION_DELAY: u64 = 1_000_000_000;

/// The latest notification of one kind that waits to be sent, and when a
/// notification of this kind was sent last (nanoseconds since the epoch).
pub struct NotificationQueue<T> {
    pub queue: Option<T>,
    pub last_sent: u64,
}

/// How long a queue has waited at time `now`, if the clock did not go back.
pub open spec fn elapsed(last_sent: u64, now: u64) -> Option<u64> {
    if now >= last_sent {
        Some((now - last_sent) as u64)
    } else {
        None
    }
}

/// How long a queue's notification has waited: nothing without a
/// notification, the full delay when the clock went back.
pub open spec fn waiting_time<T>(q: NotificationQueue<T>, now: u64) -> u64 {
    if q.queue is None {
        0
    } else {
        match elapsed(q.last_sent, now) {
            Some(d) => d,
            None => NOTIFICATION_DELAY,
        }
    }
}

impl<T> NotificationQueue<T> {
    /// An empty queue that last sent at the epoch.
    pub fn new() -> (r: Self)
        ensures
            r.queue is None,
            r.last_sent == 0,
    {
        NotificationQueue { queue: None, last_sent: 0 }
    }

    /// Replaces the waiting notification.
    pub fn push(&mut self, notification: T)
        ensures
            final(self).queue == Some(notification),
            final(self).last_sent == old(self).last_sent,
    {
        self.queue = Some(notification);
    }

    /// At time `now`: when at least `delay` has passed since the last
    /// notification was sent, takes the waiting notification (if any) and
    /// records `now` as the time of sending; otherwise nothing changes.
    pub fn get_and_reset_at(&mut self, now: u64, delay: u64) -> (r: Option<T>)
        ensures
            (match elapsed(old(self).last_sent, now) {
                Some(d) => d >= delay,
                None => false,
            }) ==> {
                &&& r == old(self).queue
                &&& final(self).queue is None
                &&& final(self).last_sent == now
            },
            !(match elapsed(old(self).last_sent, now) {
                Some(d) => d >= delay,
                None => false,
            }) ==> {
                &&& r is None
                &&& final(self).queue == old(self).queue
                &&& final(self).last_sent == old(self).last_sent
            },
    {
        if now >= self.last_sent && now - self.last_sent >= delay {
            self.last_sent = now;
            return self.queue.take();
        }
        None
    }

    /// Takes the waiting notification when at least `delay` has passed
    /// since the last one was sent: it acts as `get_and_reset_at` at the
    /// time that the clock gives.
    pub fn get_and_reset(&mut self, delay: u64) -> (r: Option<T>)
        ensures
            exists|now: u64|
                #![trigger elapsed(old(self).last_sent, now)]
                {
                    &&& (match elapsed(old(self).last_sent, now) {
                        Some(d) => d >= delay,
                        None => false,
                    }) ==> {
                        &&& r == old(self).queue
                        &&& final(self).queue is None
                        &&& final(self).last_sent == now
                    }
                    &&& !(match elapsed(old(self).last_sent, now) {
                        Some(d) => d >= delay,
                        None => false,
                    }) ==> {
                        &&& r is None
                        &&& final(self).queue == old(self).queue
                        &&& final(self).last_sent == old(self).last_sent
                    }
                },
    {
        let now = crate::clock::nanos_since_epoch();
        self.get_and_reset_at(now, delay)
    }

    /// At time `now`, the longer of the times that the notifications of
    /// `self` and `other` have waited.
    pub fn get_maximum_delay_at(&self, other: &NotificationQueue<T>, now: u64) -> (r: u64)
        ensures
            r == (if waiting_time(*self, now) >= waiting_time(*other, now) {
                waiting_time(*self, now)
            } else {
                waiting_time(*other, now)
            }),
    {
        let self_delay = self.waiting_at(now);
        let other_delay = other.waiting_at(now);
        if self_delay >= other_delay {
            self_delay
        } else {
            other_delay
        }
    }

    fn waiting_at(&self, now: u64) -> (r: u64)
        ensures
            r == waiting_time(*self, now),
    {
        if self.queue.is_none() {
            0
        } else if now >= self.last_sent {
            now - self.last_sent
        } else {
            NOTIFICATION_DELAY
        }
    }

    /// The longer of the times that the notifications of `self` and
    /// `other` have waited.
    pub fn get_maximum_delay(&self, other: &NotificationQueue<T>) -> (r: u64)
        ensures
            exists|now: u64|
                r == (if waiting_time(*self, now) >= waiting_time(*other, now) {
                    waiting_time(*self, now)
                } else {
                    waiting_time(*other, now)
                }),
    {
        let now = crate::clock::nanos_since_epoch();
        self.get_maximum_delay_at(other, now)
    }
}

/// The kinds of notification that the notifier tells apart.
#[derive(Clone, Copy, PartialEq, Eq, Structural, Debug)]
pub enum SimplifiedType {
    StateToggle,
    Seek,
    Plain,
}

/// A notification: its text, the user that caused it, and its kind.
pub struct Notification {
    pub msg: String,
    pub origin: u32,
    pub typ: SimplifiedType,
}

/// The state of the notifier: one queue for seeks, one for toggles, and
/// how long to wait for the next event.
pub struct Notifier {
    pub seek_queue: NotificationQueue<Notification>,
    pub toggle_queue: NotificationQueue<Notification>,
    pub wait_duration: u64,
}

/// What the notifier does after an event.
pub struct NotifierStep {
    /// The notifications to send, in order.
    pub send: Vec<Notification>,
}

impl Notifier {
    /// A notifier with empty queues that waits the full delay.
    pub fn new() -> (r: Self)
        ensures
            r.seek_queue.queue is None,
            r.toggle_queue.queue is None,
            r.seek_queue.last_sent == 0,
            r.toggle_queue.last_sent == 0,
            r.wait_duration == NOTIFICATION_DELAY,
    {
        Notifier {
            seek_queue: NotificationQueue::new(),
            toggle_queue: NotificationQueue::new(),
            wait_duration: NOTIFICATION_DELAY,
        }
    }

    /// Handles one wake-up of the notifier at time `now`, with the
    /// notification that arrived, if any. A plain notification is sent at
    /// once and nothing else happens. Otherwise a seek or a toggle replaces
    /// the one waiting in its queue; the wait shortens to what is left of
    /// the delay for the longest-waiting queue; and each queue whose delay
    /// has passed sends its notification, seeks first.
    pub fn step(&mut self, now: u64, notification: Option<Notification>) -> (r: NotifierStep)
        ensures
            match notification {
                Some(n) if n.typ == SimplifiedType::Plain => {
                    &&& r.send@ == seq![n]
                    &&& final(self).seek_queue == old(self).seek_queue
                    &&& final(self).toggle_queue == old(self).toggle_queue
                    &&& final(self).wait_duration == old(self).wait_duration
                },
                _ => {
                    let seek = match notification {
                        Some(n) if n.typ == SimplifiedType::Seek => NotificationQueue {
                            queue: Some(n),
                            last_sent: old(self).seek_queue.last_sent,
                        },
                        _ => old(self).seek_queue,
                    };
                    let toggle = match notification {
                        Some(n) if n.typ == SimplifiedType::StateToggle => NotificationQueue {
                            queue: Some(n),
                            last_sent: old(self).toggle_queue.last_sent,
                        },
                        _ => old(self).toggle_queue,
                    };
                    let delay = if waiting_time(seek, now) >= waiting_time(toggle, now) {
                        waiting_time(seek, now)
                    } else {
                        waiting_time(toggle, now)
                    };
                    let seek_due = match elapsed(seek.last_sent, now) {
                        Some(d) => d >= NOTIFICATION_DELAY,
                        None => false,
                    };
                    let toggle_due = match elapsed(toggle.last_sent, now) {
                        Some(d) => d >= NOTIFICATION_DELAY,
                        None => false,
                    };
                    let sent_seek: Seq<Notification> = if seek_due && seek.queue is Some {
                        seq![seek.queue->0]
                    } else {
                        Seq::empty()
                    };
                    let sent_toggle: Seq<Notification> = if toggle_due && toggle.queue is Some {
                        seq![toggle.queue->0]
                    } else {
                        Seq::empty()
                    };
                    &&& final(self).wait_duration == (if delay < NOTIFICATION_DELAY {
                        (NOTIFICATION_DELAY - delay) as u64
                    } else {
                        old(self).wait_duration
                    })
                    &&& r.send@ == sent_seek + sent_toggle
                    &&& final(self).seek_queue == (if seek_due {
                        NotificationQueue { queue: None, last_sent: now }
                    } else {
                        seek
                    })
                    &&& final(self).toggle_queue == (if toggle_due {
                        NotificationQueue { queue: None, last_sent: now }
                    } else {
                        toggle
                    })
                },
            },
    {
        let mut send: Vec<Notification> = Vec::new();
        if let Some(n) = notification {
            match n.typ {
                SimplifiedType::Seek => self.seek_queue.push(n),
                SimplifiedType::StateToggle => self.toggle_queue.push(n),
                SimplifiedType::Plain => {
                    send.push(n);
                    return NotifierStep { send };
                },
            }
        }
        let delay = self.seek_queue.get_maximum_delay_at(&self.toggle_queue, now);
        if delay < NOTIFICATION_DELAY {
            self.wait_duration = NOTIFICATION_DELAY - delay;
        }
        let seek = self.seek_queue.get_and_reset_at(now, NOTIFICATION_DELAY);
        let toggle = self.toggle_queue.get_and_reset_at(now, NOTIFICATION_DELAY);
        if let Some(s) = seek {
            send.push(s);
        }
        if let Some(t) = toggle {
            send.push(t);
        }
        NotifierStep { send }
    }
}

/// `<username> skipped to <minutes>:<ss>` below an hour, and
/// `<username> skipped to <hours>:<mm>:<ss>` from the 61st minute on; the
/// position is given in whole minutes and seconds.
pub open spec fn seek_text_spec(username: Seq<char>, minutes: u32, seconds: u8) -> Seq<char> {
    if minutes > 60 {
        username + " skipped to "@ + crate::text::decimal((minutes / 60) as nat) + ":"@
            + two_digits((minutes % 60) as nat) + ":"@ + two_digits(seconds as nat)
    } else {
        username + " skipped to "@ + crate::text::decimal(minutes as nat) + ":"@ + two_digits(
            seconds as nat,
        )
    }
}

/// A number written with at least two digits, padded with a zero.
pub open spec fn two_digits(n: nat) -> Seq<char> {
    if n < 10 {
        seq!['0'] + crate::text::decimal(n)
    } else {
        crate::text::decimal(n)
    }
}

fn push_two_digits(out: &mut Vec<char>, n: u64)
    ensures
        final(out)@ == old(out)@ + two_digits(n as nat),
{
    if n < 10 {
        out.push('0');
    }
    let d = crate::text::decimal_chars(n);
    let ghost mid = out@;
    crate::text::push_chars(out, d.as_slice());
    if n < 10 {
        assert(mid == old(out)@.push('0'));
        assert(old(out)@.push('0') + d@ =~= old(out)@ + (seq!['0'] + d@));
    }
}

/// The text of a seek notification.
pub fn seek_text(username: &str, minutes: u32, seconds: u8) -> (r: String)
    ensures
        r@ == seek_text_spec(username@, minutes, seconds),
{
    let mut out: Vec<char> = Vec::new();
    push_str(&mut out, username);
    push_str(&mut out, " skipped to ");
    if minutes > 60 {
        let hours = crate::text::decimal_chars((minutes / 60) as u64);
        crate::text::push_chars(&mut out, hours.as_slice());
        push_str(&mut out, ":");
        push_two_digits(&mut out, (minutes % 60) as u64);
        push_str(&mut out, ":");
        push_two_digits(&mut out, seconds as u64);
        assert(out@ =~= seek_text_spec(username@, minutes, seconds));
    } else {
        let m = crate::text::decimal_chars(minutes as u64);
        crate::text::push_chars(&mut out, m.as_slice());
        push_str(&mut out, ":");
        push_two_digits(&mut out, seconds as u64);
        assert(out@ =~= seek_text_spec(username@, minutes, seconds));
    }
    string_from_chars(out.as_slice())
}

/// Whether a queue that last sent at `last_sent` may send at `now`.
pub open spec fn due(last_sent: u64, now: u64) -> bool {
    match elapsed(last_sent, now) {
        Some(d) => d >= NOTIFICATION_DELAY,
        None => false,
    }
}

/// Two throttled notifications of one kind go out at least the delay
/// apart: a queue that sent at `sent_at` is not due again before
/// `sent_at + NOTIFICATION_DELAY`, whatever waits in it.
pub proof fn throttled_sends_are_a_delay_apart(sent_at: u64, now: u64)
    requires
        now < sent_at + NOTIFICATION_DELAY,
    ensures
        !due(sent_at, now),
{
}

proof fn lemma_two_digits(n: nat)
    requires
        n < 100,
    ensures
        two_digits(n).len() == 2,
        crate::text::all_digits(two_digits(n)),
        crate::text::digits_value(two_digits(n)) == n,
{
    let d = two_digits(n);
    if n < 10 {
        crate::text::lemma_decimal_all_digits(n);
        assert(crate::text::decimal(n) == seq![crate::text::digit_char(n)]);
        assert(d =~= seq!['0', crate::text::digit_char(n)]);
        assert(d.drop_last() =~= seq!['0']);
        let z = seq!['0'];
        assert(z.drop_last() =~= Seq::<char>::empty());
        assert(z.last() == '0');
        assert(crate::text::digits_value(Seq::<char>::empty()) == 0);
        assert(crate::text::digits_value(z) == 0);
        assert(crate::text::digit_char(n) as nat == n + '0' as nat);
        assert forall|i: int| 0 <= i < d.len() implies crate::text::is_digit(#[trigger] d[i]) by {}
    } else {
        crate::text::lemma_decimal_all_digits(n);
        crate::text::lemma_decimal_all_digits(n / 10);
        assert(crate::text::decimal(n / 10) == seq![crate::text::digit_char(n / 10)]);
    }
}

/// The seek notice reads back as the position it names: after
/// `<username> skipped to ` stand the minutes, or past an hour the hours
/// and the minutes of the hour, always as two digits, then a `:` and the
/// seconds as two digits.
pub proof fn seek_text_reads_back(username: Seq<char>, minutes: u32, seconds: u8)
    requires
        seconds < 100,
    ensures
        ({
            let t = seek_text_spec(username, minutes, seconds);
            let head = username + " skipped to "@;
            let n = t.len() as int;
            &&& n >= head.len() + 4
            &&& t.subrange(0, head.len() as int) == head
            &&& t[n - 3] == ':'
            &&& crate::text::all_digits(t.subrange(n - 2, n))
            &&& crate::text::digits_value(t.subrange(n - 2, n)) == seconds
            &&& minutes > 60 ==> {
                &&& n >= head.len() + 7
                &&& t[n - 6] == ':'
                &&& crate::text::all_digits(t.subrange(n - 5, n - 3))
                &&& crate::text::digits_value(t.subrange(n - 5, n - 3)) == minutes % 60
                &&& crate::text::parse_uint(t.subrange(head.len() as int, n - 6), u32::MAX as nat) == Some(
                    (minutes / 60) as nat,
                )
            }
            &&& minutes <= 60 ==> crate::text::parse_uint(t.subrange(head.len() as int, n - 3), u32::MAX as nat)
                == Some(minutes as nat)
        }),
{
    let t = seek_text_spec(username, minutes, seconds);
    let head = username + " skipped to "@;
    let ss = two_digits(seconds as nat);
    lemma_two_digits(seconds as nat);
    reveal_strlit(":");
    assert(":"@ =~= seq![':']);
    if minutes > 60 {
        let h = crate::text::decimal((minutes / 60) as nat);
        let mm = two_digits((minutes % 60) as nat);
        lemma_two_digits((minutes % 60) as nat);
        crate::text::lemma_decimal_all_digits((minutes / 60) as nat);
        crate::text::decimal_parses_back((minutes / 60) as nat, u32::MAX as nat);
        assert(t =~= head + h + seq![':'] + mm + seq![':'] + ss);
        let n = t.len() as int;
        assert(t.subrange(0, head.len() as int) =~= head);
        assert(t.subrange(n - 2, n) =~= ss);
        assert(t.subrange(n - 5, n - 3) =~= mm);
        assert(t.subrange(head.len() as int, n - 6) =~= h);
    } else {
        let m = crate::text::decimal(minutes as nat);
        crate::text::lemma_decimal_all_digits(minutes as nat);
        crate::text::decimal_parses_back(minutes as nat, u32::MAX as nat);
        assert(t =~= head + m + seq![':'] + ss);
        let n = t.len() as int;
        assert(t.subrange(0, head.len() as int) =~= head);
        assert(t.subrange(n - 2, n) =~= ss);
        assert(t.subrange(head.len() as int, n - 3) =~= m);
    }
}

} // verus!
