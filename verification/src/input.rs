//! Input to a page: which key a name stands for, which keys a text is typed
//! with, and how long the page is given to react.

use vstd::prelude::*;
use crate::run_loop::{secs_to_nanos, Deadline};
use crate::text::str_eq;
use crate::types::{PageError, NANOS_PER_MILLI, NANOS_PER_SEC};

verus! {

/// How long an input action waits for a frame, in nanoseconds. A frame that
/// does not come is no error: the wait is a pause for the page to react.
pub const INPUT_SETTLE_NANOS: u64 = 2 * NANOS_PER_SEC;

/// The quiet time after a scroll, in nanoseconds.
pub const SCROLL_IDLE_NANOS: u64 = 200 * NANOS_PER_MILLI;

/// The longest wait for quiet after a scroll, in seconds.
pub const SCROLL_IDLE_MAX_SECS: u64 = 2;

/// How long a poll for a selector or a condition waits for a frame before
/// it looks again, in nanoseconds.
pub const POLL_FRAME_NANOS: u64 = 200 * NANOS_PER_MILLI;

/// The keys that have a name.
#[derive(Debug, Clone, Copy, PartialEq, Eq, Structural)]
pub enum NamedKey {
    Enter,
    Tab,
    Escape,
    Backspace,
    Delete,
    ArrowUp,
    ArrowDown,
    ArrowLeft,
    ArrowRight,
    Home,
    End,
    PageUp,
    PageDown,
}

/// A key: one with a name, or the one that types a text.
#[derive(Debug, Clone)]
pub enum Key {
    Named(NamedKey),
    Character(String),
}

/// What a key is.
pub enum KeyView {
    Named(NamedKey),
    Character(Seq<char>),
}

impl View for Key {
    type V = KeyView;

    open spec fn view(&self) -> KeyView {
        match *self {
            Key::Named(named) => KeyView::Named(named),
            Key::Character(text) => KeyView::Character(text@),
        }
    }
}

/// The key that a name stands for. Thirteen names stand for named keys;
/// `Space` stands for the space character; every other name stands for
/// itself, as the text that the key types.
pub open spec fn key_for(name: Seq<char>) -> KeyView {
    if name == "Enter"@ {
        KeyView::Named(NamedKey::Enter)
    } else if name == "Tab"@ {
        KeyView::Named(NamedKey::Tab)
    } else if name == "Escape"@ {
        KeyView::Named(NamedKey::Escape)
    } else if name == "Backspace"@ {
        KeyView::Named(NamedKey::Backspace)
    } else if name == "Delete"@ {
        KeyView::Named(NamedKey::Delete)
    } else if name == "ArrowUp"@ {
        KeyView::Named(NamedKey::ArrowUp)
    } else if name == "ArrowDown"@ {
        KeyView::Named(NamedKey::ArrowDown)
    } else if name == "ArrowLeft"@ {
        KeyView::Named(NamedKey::ArrowLeft)
    } else if name == "ArrowRight"@ {
        KeyView::Named(NamedKey::ArrowRight)
    } else if name == "Home"@ {
        KeyView::Named(NamedKey::Home)
    } else if name == "End"@ {
        KeyView::Named(NamedKey::End)
    } else if name == "PageUp"@ {
        KeyView::Named(NamedKey::PageUp)
    } else if name == "PageDown"@ {
        KeyView::Named(NamedKey::PageDown)
    } else if name == "Space"@ {
        KeyView::Character(" "@)
    } else {
        KeyView::Character(name)
    }
}

/// Maps the name of a key to the key.
pub fn parse_key_name(name: &str) -> (key: Key)
    ensures
        key@ == key_for(name@),
{
    if str_eq(name, "Enter") {
        Key::Named(NamedKey::Enter)
    } else if str_eq(name, "Tab") {
        Key::Named(NamedKey::Tab)
    } else if str_eq(name, "Escape") {
        Key::Named(NamedKey::Escape)
    } else if str_eq(name, "Backspace") {
        Key::Named(NamedKey::Backspace)
    } else if str_eq(name, "Delete") {
        Key::Named(NamedKey::Delete)
    } else if str_eq(name, "ArrowUp") {
        Key::Named(NamedKey::ArrowUp)
    } else if str_eq(name, "ArrowDown") {
        Key::Named(NamedKey::ArrowDown)
    } else if str_eq(name, "ArrowLeft") {
        Key::Named(NamedKey::ArrowLeft)
    } else if str_eq(name, "ArrowRight") {
        Key::Named(NamedKey::ArrowRight)
    } else if str_eq(name, "Home") {
        Key::Named(NamedKey::Home)
    } else if str_eq(name, "End") {
        Key::Named(NamedKey::End)
    } else if str_eq(name, "PageUp") {
        Key::Named(NamedKey::PageUp)
    } else if str_eq(name, "PageDown") {
        Key::Named(NamedKey::PageDown)
    } else if str_eq(name, "Space") {
        Key::Character(String::from_str(" "))
    } else {
        Key::Character(String::from_str(name))
    }
}

/// The keys that type `text`: one for each character, in order. Each is
/// pressed and released before the next.
pub fn type_text_keys(text: &str) -> (keys: Vec<Key>)
    ensures
        keys@.len() == text@.len(),
        forall|i: int| 0 <= i < text@.len() ==> (#[trigger] keys@[i])@ == KeyView::Character(
            seq![text@[i]],
        ),
{
    let count = text.unicode_len();
    let mut keys: Vec<Key> = Vec::new();
    let mut i: usize = 0;
    while i < count
        invariant
            i <= count,
            count == text@.len(),
            keys@.len() == i,
            forall|k: int| 0 <= k < i ==> (#[trigger] keys@[k])@ == KeyView::Character(
                seq![text@[k]],
            ),
        decreases count - i,
    {
        let one = text.substring_char(i, i + 1);
        assert(one@ =~= seq![text@[i as int]]);
        keys.push(Key::Character(String::from_str(one)));
        i += 1;
    }
    keys
}

/// What a poll does after one look at the page.
#[derive(Debug, Clone, Copy, PartialEq, Eq, Structural)]
pub enum PollStep {
    /// What was waited for is there.
    Succeeded,
    /// The time is up.
    TimedOut,
    /// Wait for a frame for at most `POLL_FRAME_NANOS`, then look again.
    WaitForFrame,
}

/// A poll for a selector or a condition: the page is looked at, and looked
/// at again after each frame, until it shows what is waited for or the time
/// is up.
#[derive(Debug, Clone, Copy)]
pub struct PollUntil {
    pub deadline: Deadline,
}

impl PollUntil {
    /// Begins a poll of at most `timeout_secs` seconds.
    pub fn start(now: u64, timeout_secs: u64) -> (poll: PollUntil)
        ensures
            poll.deadline.at == now + secs_to_nanos(timeout_secs),
    {
        PollUntil { deadline: Deadline::after_secs(now, timeout_secs) }
    }

    /// The step after a look at `now` that found what is waited for
    /// (`satisfied`) or did not.
    pub open spec fn step(self, satisfied: bool, now: u64) -> PollStep {
        if satisfied {
            PollStep::Succeeded
        } else if now >= self.deadline.at {
            PollStep::TimedOut
        } else {
            PollStep::WaitForFrame
        }
    }

    /// Decides the next step after a look at the page.
    pub fn after_look(&self, satisfied: bool, now: u64) -> (step: PollStep)
        ensures
            step == self.step(satisfied, now),
    {
        if satisfied {
            PollStep::Succeeded
        } else if self.deadline.reached(now) {
            PollStep::TimedOut
        } else {
            PollStep::WaitForFrame
        }
    }
}

/// The result of a poll that has ended.
pub fn poll_result(succeeded: bool) -> (result: Result<(), PageError>)
    ensures
        succeeded ==> result is Ok,
        !succeeded ==> result == Err::<(), PageError>(PageError::Timeout),
{
    if succeeded {
        Ok(())
    } else {
        Err(PageError::Timeout)
    }
}

/// A poll that finds what it waits for at its first look succeeds there and
/// then, whatever the time. A poll times out only when the time asked for
/// has passed since it began, and waits for a frame only before that.
pub proof fn lemma_poll_succeeds_at_once_and_times_out_on_time(
    start: u64,
    timeout_secs: u64,
    satisfied: bool,
    now: u64,
)
    ensures
        ({
            let poll = PollUntil { deadline: Deadline { at: (start + secs_to_nanos(timeout_secs)) as u128 } };
            &&& satisfied ==> poll.step(satisfied, now) == PollStep::Succeeded
            &&& poll.step(satisfied, now) == PollStep::TimedOut ==> !satisfied && now - start
                >= secs_to_nanos(timeout_secs)
            &&& poll.step(satisfied, now) == PollStep::WaitForFrame ==> now - start
                < secs_to_nanos(timeout_secs)
        }),
{
}

} // verus!
