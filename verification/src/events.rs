//! Input mapping and debounce: raw key events, modelled as plain values,
//! become semantic actions through a declarative table; tab-switching keys
//! are debounced by a minimum inter-trigger interval, while the remaining
//! keys always pass.

use vstd::prelude::*;

verus! {

/// The key of a raw input event, reduced to the keys the mapping reads.
#[derive(Debug, Clone, Copy, PartialEq, Eq, Structural)]
pub enum KeyCode {
    Char(char),
    Tab,
    BackTab,
    Up,
    Down,
    Esc,
    Other,
}

/// The modifier held with a key. `Plain` is no modifier at all; any
/// combination the mapping does not read collapses to `Other`.
#[derive(Debug, Clone, Copy, PartialEq, Eq, Structural)]
pub enum KeyModifier {
    Plain,
    Control,
    Shift,
    Other,
}

/// One raw key press: the key and the modifier held with it.
#[derive(Debug, Clone, Copy, PartialEq, Eq, Structural)]
pub struct KeyEventData {
    pub code: KeyCode,
    pub modifiers: KeyModifier,
}

/// One raw terminal event. Events other than key presses carry nothing the
/// mapping reads.
#[derive(Debug, Clone, Copy, PartialEq, Eq, Structural)]
pub enum InputEvent {
    Key(KeyEventData),
    Other,
}

/// The semantic command a key press stands for, independent of the input
/// device.
#[derive(Debug, Clone, Copy, PartialEq, Eq, Structural)]
pub enum AppAction {
    Quit,
    NextTab,
    PrevTab,
    GoToTab(usize),
    ScrollUp,
    ScrollDown,
    Refresh,
    Help,
}

/// The mapping table from a key press to its semantic action; unmapped
/// combinations map to nothing.
pub open spec fn action_of(e: KeyEventData) -> Option<AppAction> {
    match (e.code, e.modifiers) {
        (KeyCode::Char('q'), KeyModifier::Plain) => Some(AppAction::Quit),
        (KeyCode::Char('c'), KeyModifier::Control) => Some(AppAction::Quit),
        (KeyCode::Esc, KeyModifier::Plain) => Some(AppAction::Quit),
        (KeyCode::Tab, KeyModifier::Plain) => Some(AppAction::NextTab),
        (KeyCode::BackTab, KeyModifier::Shift) => Some(AppAction::PrevTab),
        (KeyCode::Char('1'), KeyModifier::Plain) => Some(AppAction::GoToTab(0)),
        (KeyCode::Char('2'), KeyModifier::Plain) => Some(AppAction::GoToTab(1)),
        (KeyCode::Char('3'), KeyModifier::Plain) => Some(AppAction::GoToTab(2)),
        (KeyCode::Char('4'), KeyModifier::Plain) => Some(AppAction::GoToTab(3)),
        (KeyCode::Up, KeyModifier::Plain) => Some(AppAction::ScrollUp),
        (KeyCode::Down, KeyModifier::Plain) => Some(AppAction::ScrollDown),
        (KeyCode::Char('r'), KeyModifier::Plain) => Some(AppAction::Refresh),
        (KeyCode::Char('h'), KeyModifier::Plain) => Some(AppAction::Help),
        _ => None,
    }
}

/// Maps one key press to its semantic action, exactly as the mapping table
/// says.
pub fn handle_key_event(event: KeyEventData) -> (r: Option<AppAction>)
    ensures
        r == action_of(event),
{
    match (event.code, event.modifiers) {
        (KeyCode::Char('q'), KeyModifier::Plain) => Some(AppAction::Quit),
        (KeyCode::Char('c'), KeyModifier::Control) => Some(AppAction::Quit),
        (KeyCode::Esc, KeyModifier::Plain) => Some(AppAction::Quit),
        (KeyCode::Tab, KeyModifier::Plain) => Some(AppAction::NextTab),
        (KeyCode::BackTab, KeyModifier::Shift) => Some(AppAction::PrevTab),
        (KeyCode::Char('1'), KeyModifier::Plain) => Some(AppAction::GoToTab(0)),
        (KeyCode::Char('2'), KeyModifier::Plain) => Some(AppAction::GoToTab(1)),
        (KeyCode::Char('3'), KeyModifier::Plain) => Some(AppAction::GoToTab(2)),
        (KeyCode::Char('4'), KeyModifier::Plain) => Some(AppAction::GoToTab(3)),
        (KeyCode::Up, KeyModifier::Plain) => Some(AppAction::ScrollUp),
        (KeyCode::Down, KeyModifier::Plain) => Some(AppAction::ScrollDown),
        (KeyCode::Char('r'), KeyModifier::Plain) => Some(AppAction::Refresh),
        (KeyCode::Char('h'), KeyModifier::Plain) => Some(AppAction::Help),
        _ => None,
    }
}

/// Whether an event is one of the quit keys: `q`, Ctrl-C or Esc.
pub open spec fn is_quit_event(e: InputEvent) -> bool {
    e matches InputEvent::Key(k) && action_of(k) == Some(AppAction::Quit)
}

/// Tells whether `event` asks the application to quit.
pub fn should_quit(event: &InputEvent) -> (r: bool)
    ensures
        r == is_quit_event(*event),
{
    match event {
        InputEvent::Key(k) => match (k.code, k.modifiers) {
            (KeyCode::Char('q'), KeyModifier::Plain) => true,
            (KeyCode::Char('c'), KeyModifier::Control) => true,
            (KeyCode::Esc, KeyModifier::Plain) => true,
            _ => false,
        },
        InputEvent::Other => false,
    }
}

/// The debounce guard for the tab-switching keys: when such a key last
/// fired, and the minimum interval between two honoured triggers.
pub struct EventHandler {
    pub last_key_time: Option<u64>,
    pub key_debounce_ms: u64,
}

/// Whether `e` is a key press the debounce policy covers: the tab
/// navigation keys only, so scrolling stays responsive.
pub open spec fn debounce_applies(e: InputEvent) -> bool {
    e matches InputEvent::Key(k) && (k.code is Tab || k.code is BackTab)
}

/// Milliseconds elapsed from `last` to `now`, zero if the clock appears to
/// have gone backwards.
pub open spec fn elapsed_ms(last: u64, now: u64) -> int {
    if now >= last {
        now - last
    } else {
        0
    }
}

/// Whether a trigger at `now` is honoured by a guard whose previous trigger
/// was `last`: it is, unless a previous trigger lies less than `window` ms
/// back.
pub open spec fn debounce_emits(last: Option<u64>, window: u64, now: u64) -> bool {
    !(last matches Some(t) && elapsed_ms(t, now) < window)
}

/// The guard and the passed-through event after one raw event at `now`:
/// a debounced key is dropped inside the window and recorded outside it;
/// every other event passes with the guard untouched.
pub open spec fn filter_model(h: EventHandler, e: InputEvent, now: u64) -> (
    EventHandler,
    Option<InputEvent>,
) {
    if debounce_applies(e) {
        if debounce_emits(h.last_key_time, h.key_debounce_ms, now) {
            (EventHandler { last_key_time: Some(now), key_debounce_ms: h.key_debounce_ms }, Some(e))
        } else {
            (h, None)
        }
    } else {
        (h, Some(e))
    }
}

impl EventHandler {
    /// A fresh guard: nothing has fired yet, and tab switches are held
    /// 150 ms apart.
    pub fn new() -> (h: EventHandler)
        ensures
            h.last_key_time is None,
            h.key_debounce_ms == 150,
    {
        EventHandler { last_key_time: None, key_debounce_ms: 150 }
    }

    /// Whether the debounce policy covers this key press.
    pub fn should_debounce_key(&self, key_event: &KeyEventData) -> (r: bool)
        ensures
            r == debounce_applies(InputEvent::Key(*key_event)),
    {
        match key_event.code {
            KeyCode::Tab => true,
            KeyCode::BackTab => true,
            _ => false,
        }
    }

    /// Applies the debounce policy to one raw event read at `now_ms`:
    /// returns the event if it is to be acted on, and `None` if a debounced
    /// key fired again too soon, in which case the guard is left untouched.
    pub fn filter_event(&mut self, event: InputEvent, now_ms: u64) -> (r: Option<InputEvent>)
        ensures
            (*final(self), r) == filter_model(*old(self), event, now_ms),
    {
        let debounced = match &event {
            InputEvent::Key(k) => self.should_debounce_key(k),
            InputEvent::Other => false,
        };
        if debounced {
            if let Some(last) = self.last_key_time {
                let gap = if now_ms >= last {
                    now_ms - last
                } else {
                    0
                };
                if gap < self.key_debounce_ms {
                    return None;
                }
            }
            self.last_key_time = Some(now_ms);
        }
        Some(event)
    }
}

/// The debounce window works as stated: a debounced key honoured at `t1`
/// passes the filter, and the same key at `t2` is dropped when the two
/// triggers lie less than the window apart and passed once at least the
/// full window separates them — so two close triggers yield exactly one
/// event and two far-enough triggers yield two.
pub proof fn lemma_debounce_window(h: EventHandler, e: InputEvent, t1: u64, t2: u64)
    requires
        debounce_applies(e),
        debounce_emits(h.last_key_time, h.key_debounce_ms, t1),
        t1 <= t2,
    ensures
        filter_model(h, e, t1).1 == Some(e),
        t2 - t1 < h.key_debounce_ms ==> filter_model(filter_model(h, e, t1).0, e, t2).1 is None,
        t2 - t1 >= h.key_debounce_ms ==> filter_model(filter_model(h, e, t1).0, e, t2).1 == Some(
            e,
        ),
{
}

} // verus!
