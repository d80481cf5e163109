//! The typed action stream: every event or command that flows through the
//! dispatch loop, the translation of raw input events into actions, and the
//! ordered multi-producer single-consumer bus the controller drains.

use vstd::prelude::*;

verus! {

use crate::status::AlertStatusString;

/// A key the terminal reports, reduced to what the dashboard reacts to.
#[derive(Clone, Copy, PartialEq, Eq, Structural, Debug)]
pub enum KeyCode {
    Esc,
    Up,
    Down,
    Enter,
    Char(char),
    Other,
}

/// Modifier keys held with a key press.
#[derive(Clone, Copy, PartialEq, Eq, Structural, Debug)]
pub struct KeyModifiers {
    pub control: bool,
    pub shift: bool,
    pub alt: bool,
}

impl KeyModifiers {
    /// No modifier held.
    pub fn none() -> (r: Self)
        ensures
            r == (KeyModifiers { control: false, shift: false, alt: false }),
    {
        KeyModifiers { control: false, shift: false, alt: false }
    }

    /// Only the control key held.
    pub fn control() -> (r: Self)
        ensures
            r == (KeyModifiers { control: true, shift: false, alt: false }),
    {
        KeyModifiers { control: true, shift: false, alt: false }
    }
}

/// Failure of a background fetch, as surfaced to the dispatch loop.
#[derive(Clone, Copy, PartialEq, Eq, Structural, Debug)]
pub enum FetchError {
    /// The request never completed.
    Network,
    /// The feed rejected the credentials.
    Unauthorized,
    /// The feed throttled the client.
    RateLimited,
    /// The feed failed on its own side.
    ServerError,
    /// The response arrived but did not decode.
    Decode,
}

/// One event or command value flowing through the dispatch loop.
pub enum Action {
    Tick,
    Render,
    Resize(u16, u16),
    KeyInput(KeyCode, KeyModifiers),
    Select(i32),
    Fetch,
    FetchCompleted(AlertStatusString),
    FetchFailed(FetchError),
    Locale,
    Refresh,
    Suspend,
    Resume,
    Quit,
    Error(String),
}

/// A raw input or timer event, as the terminal driver hands it over.
pub enum Event {
    Quit,
    Tick,
    Render,
    Resize(u16, u16),
    Key(KeyCode, KeyModifiers),
    Other,
}

/// The action a key press translates to, if any: quit on escape, `q`, or
/// control-`c`; selection movement on the arrow keys; fetch, locale,
/// refresh and suspend on their letters.
pub open spec fn action_for_key(code: KeyCode, mods: KeyModifiers) -> Option<Action> {
    if code == KeyCode::Esc || code == KeyCode::Char('q') {
        Some(Action::Quit)
    } else if (code == KeyCode::Char('c') || code == KeyCode::Char('C')) && mods == (KeyModifiers {
        control: true,
        shift: false,
        alt: false,
    }) {
        Some(Action::Quit)
    } else if code == KeyCode::Down {
        Some(Action::Select(1i32))
    } else if code == KeyCode::Up {
        Some(Action::Select(-1i32))
    } else if code == KeyCode::Char('u') {
        Some(Action::Fetch)
    } else if code == KeyCode::Char('l') {
        Some(Action::Locale)
    } else if code == KeyCode::Char('r') {
        Some(Action::Refresh)
    } else if code == KeyCode::Char('z') {
        Some(Action::Suspend)
    } else {
        None
    }
}

/// The action a raw event translates to, if any.
pub open spec fn action_for_event(e: Event) -> Option<Action> {
    match e {
        Event::Quit => Some(Action::Quit),
        Event::Tick => Some(Action::Tick),
        Event::Render => Some(Action::Render),
        Event::Resize(w, h) => Some(Action::Resize(w, h)),
        Event::Key(code, mods) => action_for_key(code, mods),
        Event::Other => None,
    }
}

/// Translate one key press into the action it commands, if any.
pub fn translate_key(code: KeyCode, mods: KeyModifiers) -> (r: Option<Action>)
    ensures
        r == action_for_key(code, mods),
{
    match code {
        KeyCode::Esc => Some(Action::Quit),
        KeyCode::Char(c) => {
            if c == 'q' {
                Some(Action::Quit)
            } else if (c == 'c' || c == 'C') && mods.control && !mods.shift && !mods.alt {
                Some(Action::Quit)
            } else if c == 'u' {
                Some(Action::Fetch)
            } else if c == 'l' {
                Some(Action::Locale)
            } else if c == 'r' {
                Some(Action::Refresh)
            } else if c == 'z' {
                Some(Action::Suspend)
            } else {
                None
            }
        },
        KeyCode::Down => Some(Action::Select(1i32)),
        KeyCode::Up => Some(Action::Select(-1i32)),
        _ => None,
    }
}

/// Translate one raw input or timer event into the action it feeds the
/// dispatch loop, if any.
pub fn translate_event(e: &Event) -> (r: Option<Action>)
    ensures
        r == action_for_event(*e),
{
    match e {
        Event::Quit => Some(Action::Quit),
        Event::Tick => Some(Action::Tick),
        Event::Render => Some(Action::Render),
        Event::Resize(w, h) => Some(Action::Resize(*w, *h)),
        Event::Key(code, mods) => translate_key(*code, *mods),
        Event::Other => None,
    }
}

/// The fetch error an HTTP response status stands for: success is no error,
/// the documented client and server statuses map to their own variants, and
/// anything else counts as a network-level failure.
pub open spec fn fetch_error_of_status(code: u16) -> Option<FetchError> {
    if 200 <= code < 300 {
        None
    } else if code == 401 || code == 403 {
        Some(FetchError::Unauthorized)
    } else if code == 429 {
        Some(FetchError::RateLimited)
    } else if 500 <= code < 600 {
        Some(FetchError::ServerError)
    } else {
        Some(FetchError::Network)
    }
}

/// Classify an HTTP response status into the fetch error it stands for.
pub fn classify_http_status(code: u16) -> (r: Option<FetchError>)
    ensures
        r == fetch_error_of_status(code),
{
    if 200 <= code && code < 300 {
        None
    } else if code == 401 || code == 403 {
        Some(FetchError::Unauthorized)
    } else if code == 429 {
        Some(FetchError::RateLimited)
    } else if 500 <= code && code < 600 {
        Some(FetchError::ServerError)
    } else {
        Some(FetchError::Network)
    }
}

/// Ordered multi-producer single-consumer queue of actions. Producers append
/// through cloned sender handles in the embedding shell; here the queue
/// itself guarantees first-in first-out delivery to the single drain loop.
pub struct ActionBus {
    queue: Vec<Action>,
}

impl ActionBus {
    /// The queued actions, oldest first.
    pub closed spec fn queued(&self) -> Seq<Action> {
        self.queue@
    }

    /// An empty bus.
    pub fn new() -> (b: Self)
        ensures
            b.queued() == Seq::<Action>::empty(),
    {
        ActionBus { queue: Vec::new() }
    }

    /// Append one action; the bus never blocks a producer.
    pub fn push(&mut self, a: Action)
        ensures
            final(self).queued() == old(self).queued().push(a),
    {
        self.queue.push(a);
    }

    /// Number of queued actions.
    pub fn len(&self) -> (n: usize)
        ensures
            n == self.queued().len(),
    {
        self.queue.len()
    }

    /// Take every queued action, oldest first, leaving the bus empty; one
    /// cycle's drain never sees actions pushed after it.
    pub fn drain(&mut self) -> (out: Vec<Action>)
        ensures
            out@ == old(self).queued(),
            final(self).queued() == Seq::<Action>::empty(),
    {
        let mut out: Vec<Action> = Vec::new();
        core::mem::swap(&mut out, &mut self.queue);
        out
    }
}

} // verus!
