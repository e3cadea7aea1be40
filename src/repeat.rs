//! Key repeat: a held key re-emits its events at a fixed interval until it is
//! released or another key is pressed.
//!
//! The timer is an explicit entry keyed by its fire time. A key press arms it,
//! a release of the same key disarms it, and each firing re-arms it one
//! interval after the time it fired.
use vstd::prelude::*;

verus! {

/// Time between two repeats of a held key, in nanoseconds.
pub const REPEAT_INTERVAL: u64 = 50_000_000;

#[derive(Debug, Clone, Copy, PartialEq, Eq, Structural)]
pub enum ElementState {
    Pressed,
    Released,
}

/// A key press or release as the keyboard state machine reports it.
#[derive(Debug, Clone, Copy, PartialEq, Eq, Structural)]
pub struct KeyboardInput {
    /// The hardware key code.
    pub scancode: u32,
    pub state: ElementState,
    /// The symbol that the keymap gives the key, under the current modifiers.
    pub keysym: u32,
    /// The active modifiers, as the keyboard state machine encodes them.
    pub modifiers: u32,
}

/// An event that the keyboard hands to the window.
#[derive(Debug, Clone, Copy, PartialEq, Eq, Structural)]
pub enum KeyEvent {
    Input(KeyboardInput),
    Character(char),
}

/// The armed timer: what to re-emit, and when.
#[derive(Debug, Clone, Copy, PartialEq, Eq, Structural)]
pub struct RepeatEntry {
    pub input: KeyboardInput,
    pub character: Option<char>,
    pub fire_at: u64,
}

/// The events for one key press: the input, then the character it produced.
pub open spec fn key_events(input: KeyboardInput, character: Option<char>) -> Seq<KeyEvent> {
    match character {
        Some(c) => seq![KeyEvent::Input(input), KeyEvent::Character(c)],
        None => seq![KeyEvent::Input(input)],
    }
}

/// One interval after `now`, or the last representable time.
pub open spec fn deadline_after(now: u64, interval: u64) -> u64 {
    if now <= u64::MAX - interval {
        (now + interval) as u64
    } else {
        u64::MAX
    }
}

/// The timer after a firing check at `now`, and what that check emits.
pub open spec fn fire_spec(armed: Option<RepeatEntry>, interval: u64, now: u64) -> (
    Option<RepeatEntry>,
    Seq<KeyEvent>,
) {
    match armed {
        Some(e) => if now >= e.fire_at {
            (
                Some(RepeatEntry { fire_at: deadline_after(now, interval), ..e }),
                key_events(e.input, e.character),
            )
        } else {
            (armed, Seq::empty())
        },
        None => (None, Seq::empty()),
    }
}

/// Firing checks at each of `times` in turn: the timer after them, and all
/// that they emit.
pub open spec fn fires(armed: Option<RepeatEntry>, interval: u64, times: Seq<u64>) -> (
    Option<RepeatEntry>,
    Seq<KeyEvent>,
)
    decreases times.len(),
{
    if times.len() == 0 {
        (armed, Seq::empty())
    } else {
        let (next, out) = fire_spec(armed, interval, times[0]);
        let (last, rest) = fires(next, interval, times.drop_first());
        (last, out + rest)
    }
}

/// `s` repeated `n` times.
pub open spec fn repeated(s: Seq<KeyEvent>, n: nat) -> Seq<KeyEvent>
    decreases n,
{
    if n == 0 {
        Seq::empty()
    } else {
        s + repeated(s, (n - 1) as nat)
    }
}

/// The repeat timer of one keyboard.
pub struct KeyRepeat {
    interval: u64,
    armed: Option<RepeatEntry>,
}

impl KeyRepeat {
    pub closed spec fn interval_spec(&self) -> u64 {
        self.interval
    }

    pub closed spec fn armed_spec(&self) -> Option<RepeatEntry> {
        self.armed
    }

    /// A disarmed timer that repeats at `interval`.
    pub fn new(interval: u64) -> (r: Self)
        ensures
            r.interval_spec() == interval,
            r.armed_spec() == None::<RepeatEntry>,
    {
        KeyRepeat { interval, armed: None }
    }

    pub fn armed(&self) -> (r: Option<RepeatEntry>)
        ensures
            r == self.armed_spec(),
    {
        self.armed
    }

    /// When the timer fires next, if it is armed.
    pub fn next_deadline(&self) -> (r: Option<u64>)
        ensures
            r == match self.armed_spec() {
                Some(e) => Some(e.fire_at),
                None => None::<u64>,
            },
    {
        match self.armed {
            Some(e) => Some(e.fire_at),
            None => None,
        }
    }

    /// A key went down at `now`: emits its events and arms the timer for that
    /// key, replacing whatever was armed.
    pub fn key_down(&mut self, input: KeyboardInput, character: Option<char>, now: u64) -> (r: Vec<
        KeyEvent,
    >)
        ensures
            r@ == key_events(input, character),
            final(self).interval_spec() == old(self).interval_spec(),
            final(self).armed_spec() == Some(
                RepeatEntry {
                    input,
                    character,
                    fire_at: deadline_after(now, old(self).interval_spec()),
                },
            ),
    {
        let fire_at = if now <= u64::MAX - self.interval {
            now + self.interval
        } else {
            u64::MAX
        };
        self.armed = Some(RepeatEntry { input, character, fire_at });
        emit(input, character)
    }

    /// A key went up: emits its input event, and disarms the timer when the
    /// armed key is that key.
    pub fn key_up(&mut self, input: KeyboardInput) -> (r: Vec<KeyEvent>)
        ensures
            r@ == seq![KeyEvent::Input(input)],
            final(self).interval_spec() == old(self).interval_spec(),
            final(self).armed_spec() == match old(self).armed_spec() {
                Some(e) => if e.input.scancode == input.scancode {
                    None
                } else {
                    Some(e)
                },
                None => None,
            },
    {
        match self.armed {
            Some(e) => {
                if e.input.scancode == input.scancode {
                    self.armed = None;
                }
            },
            None => {},
        }
        let mut out: Vec<KeyEvent> = Vec::new();
        out.push(KeyEvent::Input(input));
        out
    }

    /// Checks the timer at `now`: when it is due, emits the armed key's events
    /// again and re-arms it one interval later.
    pub fn fire(&mut self, now: u64) -> (r: Vec<KeyEvent>)
        ensures
            (final(self).armed_spec(), r@) == fire_spec(
                old(self).armed_spec(),
                old(self).interval_spec(),
                now,
            ),
            final(self).interval_spec() == old(self).interval_spec(),
    {
        match self.armed {
            Some(e) => {
                if now >= e.fire_at {
                    let fire_at = if now <= u64::MAX - self.interval {
                        now + self.interval
                    } else {
                        u64::MAX
                    };
                    self.armed = Some(RepeatEntry { fire_at, ..e });
                    emit(e.input, e.character)
                } else {
                    Vec::new()
                }
            },
            None => Vec::new(),
        }
    }
}

fn emit(input: KeyboardInput, character: Option<char>) -> (r: Vec<KeyEvent>)
    ensures
        r@ == key_events(input, character),
{
    match character {
        Some(c) => emit_with_character(input, c),
        None => {
            let mut out: Vec<KeyEvent> = Vec::new();
            out.push(KeyEvent::Input(input));
            assert(out@ =~= seq![KeyEvent::Input(input)]);
            out
        },
    }
}

fn emit_with_character(input: KeyboardInput, c: char) -> (r: Vec<KeyEvent>)
    ensures
        r@ == seq![KeyEvent::Input(input), KeyEvent::Character(c)],
{
    let mut out: Vec<KeyEvent> = Vec::new();
    out.push(KeyEvent::Input(input));
    out.push(KeyEvent::Character(c));
    assert(out@ =~= seq![KeyEvent::Input(input), KeyEvent::Character(c)]);
    out
}

/// A held key repeats: once armed for a key, firing checks that each come at
/// or after the timer's due time emit that key's events, identical each time,
/// and leave the timer armed for the same key.
pub proof fn lemma_held_key_repeats(e: RepeatEntry, interval: u64, times: Seq<u64>)
    requires
        times.len() > 0 ==> times[0] >= e.fire_at,
        forall|i: int| 0 <= i < times.len() ==> #[trigger] times[i] <= u64::MAX - interval,
        forall|i: int| 1 <= i < times.len() ==> #[trigger] times[i] >= times[i - 1] + interval,
    ensures
        fires(Some(e), interval, times).1 == repeated(key_events(e.input, e.character), times.len()),
        fires(Some(e), interval, times).0 matches Some(last) && last.input == e.input
            && last.character == e.character,
    decreases times.len(),
{
    if times.len() > 0 {
        let next = RepeatEntry { fire_at: deadline_after(times[0], interval), ..e };
        let rest = times.drop_first();
        assert forall|i: int| 1 <= i < rest.len() implies #[trigger] rest[i] >= rest[i - 1]
            + interval by {
            assert(times[i + 1] >= times[i] + interval);
        }
        assert forall|i: int| 0 <= i < rest.len() implies #[trigger] rest[i] <= u64::MAX
            - interval by {
            assert(times[i + 1] <= u64::MAX - interval);
        }
        if rest.len() > 0 {
            assert(times[1] >= times[0] + interval);
        }
        lemma_held_key_repeats(next, interval, rest);
    }
}

/// After the held key is released, no firing check emits anything.
pub proof fn lemma_released_key_stops(
    e: RepeatEntry,
    released: KeyboardInput,
    interval: u64,
    times: Seq<u64>,
)
    requires
        released.scancode == e.input.scancode,
    ensures
        fires(
            if e.input.scancode == released.scancode {
                None
            } else {
                Some(e)
            },
            interval,
            times,
        ).1 == Seq::<KeyEvent>::empty(),
{
    lemma_disarmed_stays_silent(interval, times);
}

/// A disarmed timer emits nothing and stays disarmed.
pub proof fn lemma_disarmed_stays_silent(interval: u64, times: Seq<u64>)
    ensures
        fires(None, interval, times) == (None::<RepeatEntry>, Seq::<KeyEvent>::empty()),
    decreases times.len(),
{
    if times.len() > 0 {
        lemma_disarmed_stays_silent(interval, times.drop_first());
        assert(Seq::<KeyEvent>::empty() + Seq::<KeyEvent>::empty() =~= Seq::<KeyEvent>::empty());
    }
}

} // verus!
