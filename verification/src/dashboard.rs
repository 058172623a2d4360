//! The dashboard controller: which tab is active and how far the process
//! list is scrolled, and how each semantic action moves that state. The
//! transition is a pure function of the current state and the action.

use vstd::prelude::*;
use crate::events::{action_of, is_quit_event, handle_key_event, should_quit, AppAction, InputEvent};
use crate::settings::Settings;

verus! {

/// The four mutually exclusive views, in their cyclic order.
#[derive(Debug, Clone, Copy, PartialEq, Eq, Structural)]
pub enum TabIndex {
    Overview,
    Processes,
    Network,
    Help,
}

/// The ordinal of a tab in the cyclic order, 0 through 3.
pub open spec fn tab_ordinal(t: TabIndex) -> int {
    match t {
        TabIndex::Overview => 0,
        TabIndex::Processes => 1,
        TabIndex::Network => 2,
        TabIndex::Help => 3,
    }
}

/// The tab at an ordinal; anything out of range falls back to Overview.
pub open spec fn tab_from_index(i: int) -> TabIndex {
    if i == 1 {
        TabIndex::Processes
    } else if i == 2 {
        TabIndex::Network
    } else if i == 3 {
        TabIndex::Help
    } else {
        TabIndex::Overview
    }
}

/// The tab after this one, wrapping from Help back to Overview.
pub open spec fn next_tab_of(t: TabIndex) -> TabIndex {
    match t {
        TabIndex::Overview => TabIndex::Processes,
        TabIndex::Processes => TabIndex::Network,
        TabIndex::Network => TabIndex::Help,
        TabIndex::Help => TabIndex::Overview,
    }
}

/// The tab before this one, wrapping from Overview back to Help.
pub open spec fn prev_tab_of(t: TabIndex) -> TabIndex {
    match t {
        TabIndex::Overview => TabIndex::Help,
        TabIndex::Processes => TabIndex::Overview,
        TabIndex::Network => TabIndex::Processes,
        TabIndex::Help => TabIndex::Network,
    }
}

impl TabIndex {
    /// The ordinal of this tab, for selecting it in a rendered tab bar.
    pub fn to_index(&self) -> (i: usize)
        ensures
            i == tab_ordinal(*self),
    {
        match self {
            TabIndex::Overview => 0,
            TabIndex::Processes => 1,
            TabIndex::Network => 2,
            TabIndex::Help => 3,
        }
    }
}

impl From<usize> for TabIndex {
    fn from(index: usize) -> (t: TabIndex) {
        match index {
            1 => TabIndex::Processes,
            2 => TabIndex::Network,
            3 => TabIndex::Help,
            _ => TabIndex::Overview,
        }
    }
}

impl vstd::std_specs::convert::FromSpecImpl<usize> for TabIndex {
    open spec fn obeys_from_spec() -> bool {
        true
    }

    open spec fn from_spec(v: usize) -> TabIndex {
        tab_from_index(v as int)
    }
}

/// The navigation state of the dashboard: the active tab and the scroll
/// position of the process list, plus the read-only settings it was
/// created with.
pub struct Dashboard {
    pub settings: Settings,
    pub current_tab: TabIndex,
    pub process_scroll_offset: usize,
}

/// The state after one action. Scrolling acts only in the Processes tab
/// and never underflows; every tab change but Help resets the scroll;
/// Quit and Refresh are signals to the event loop and leave the state
/// alone.
pub open spec fn apply_model(d: Dashboard, a: AppAction) -> Dashboard {
    match a {
        AppAction::Quit => d,
        AppAction::NextTab => Dashboard {
            current_tab: next_tab_of(d.current_tab),
            process_scroll_offset: 0,
            ..d
        },
        AppAction::PrevTab => Dashboard {
            current_tab: prev_tab_of(d.current_tab),
            process_scroll_offset: 0,
            ..d
        },
        AppAction::GoToTab(i) => Dashboard {
            current_tab: tab_from_index(i as int),
            process_scroll_offset: 0,
            ..d
        },
        AppAction::ScrollUp => if d.current_tab is Processes {
            Dashboard {
                process_scroll_offset: if d.process_scroll_offset > 0 {
                    (d.process_scroll_offset - 1) as usize
                } else {
                    0
                },
                ..d
            }
        } else {
            d
        },
        AppAction::ScrollDown => if d.current_tab is Processes {
            Dashboard { process_scroll_offset: (d.process_scroll_offset + 1) as usize, ..d }
        } else {
            d
        },
        AppAction::Refresh => d,
        AppAction::Help => Dashboard { current_tab: TabIndex::Help, ..d },
    }
}

/// The one machine limit on a transition: scrolling down in the Processes
/// tab needs room for the offset to grow.
pub open spec fn may_apply(d: Dashboard, a: AppAction) -> bool {
    a is ScrollDown && d.current_tab is Processes ==> d.process_scroll_offset < usize::MAX
}

/// The state and the quit signal after one raw event: the quit keys quit
/// and change nothing, a mapped key press applies its action, everything
/// else is dropped.
pub open spec fn handle_model(d: Dashboard, e: InputEvent) -> (Dashboard, bool) {
    if is_quit_event(e) {
        (d, true)
    } else {
        match e {
            InputEvent::Key(k) => match action_of(k) {
                Some(a) => (apply_model(d, a), false),
                None => (d, false),
            },
            InputEvent::Other => (d, false),
        }
    }
}

impl Dashboard {
    /// A fresh dashboard: the Overview tab, with the process list at the
    /// top.
    pub fn new(settings: Settings) -> (d: Dashboard)
        ensures
            d.settings == settings,
            d.current_tab == TabIndex::Overview,
            d.process_scroll_offset == 0,
    {
        Dashboard { settings, current_tab: TabIndex::Overview, process_scroll_offset: 0 }
    }

    /// Moves to the next tab in the cycle and resets the scroll position.
    pub fn next_tab(&mut self)
        ensures
            *final(self) == apply_model(*old(self), AppAction::NextTab),
    {
        let current = self.current_tab.to_index();
        let next = (current + 1) % 4;
        self.current_tab = TabIndex::from(next);
        self.process_scroll_offset = 0;
    }

    /// Moves to the previous tab in the cycle and resets the scroll
    /// position.
    pub fn prev_tab(&mut self)
        ensures
            *final(self) == apply_model(*old(self), AppAction::PrevTab),
    {
        let current = self.current_tab.to_index();
        let prev = if current == 0 {
            3
        } else {
            current - 1
        };
        self.current_tab = TabIndex::from(prev);
        self.process_scroll_offset = 0;
    }

    /// Jumps straight to the tab at `index` and resets the scroll
    /// position; an out-of-range index lands on Overview.
    pub fn go_to_tab(&mut self, index: usize)
        ensures
            *final(self) == apply_model(*old(self), AppAction::GoToTab(index)),
    {
        self.current_tab = TabIndex::from(index);
        self.process_scroll_offset = 0;
    }

    /// Scrolls the process list up one line, staying at the top; outside
    /// the Processes tab this does nothing.
    pub fn scroll_up(&mut self)
        ensures
            *final(self) == apply_model(*old(self), AppAction::ScrollUp),
    {
        if self.current_tab == TabIndex::Processes {
            self.process_scroll_offset = if self.process_scroll_offset > 0 {
                self.process_scroll_offset - 1
            } else {
                0
            };
        }
    }

    /// Scrolls the process list down one line; outside the Processes tab
    /// this does nothing. This layer puts no upper bound on the offset:
    /// the renderer clamps against the actual list length.
    pub fn scroll_down(&mut self)
        requires
            may_apply(*old(self), AppAction::ScrollDown),
        ensures
            *final(self) == apply_model(*old(self), AppAction::ScrollDown),
    {
        if self.current_tab == TabIndex::Processes {
            self.process_scroll_offset = self.process_scroll_offset + 1;
        }
    }

    /// Applies one semantic action and says whether it asks the event loop
    /// to stop.
    pub fn apply_action(&mut self, action: AppAction) -> (quit: bool)
        requires
            may_apply(*old(self), action),
        ensures
            *final(self) == apply_model(*old(self), action),
            quit == (action is Quit),
    {
        match action {
            AppAction::Quit => true,
            AppAction::NextTab => {
                self.next_tab();
                false
            },
            AppAction::PrevTab => {
                self.prev_tab();
                false
            },
            AppAction::GoToTab(i) => {
                self.go_to_tab(i);
                false
            },
            AppAction::ScrollUp => {
                self.scroll_up();
                false
            },
            AppAction::ScrollDown => {
                self.scroll_down();
                false
            },
            AppAction::Refresh => false,
            AppAction::Help => {
                self.current_tab = TabIndex::Help;
                false
            },
        }
    }

    /// Routes one raw event: quits on a quit key, otherwise maps the key
    /// press to its action and applies it. Returns whether to stop.
    pub fn handle_event(&mut self, event: InputEvent) -> (quit: bool)
        requires
            event matches InputEvent::Key(k) ==> (action_of(k) matches Some(a) ==> may_apply(
                *old(self),
                a,
            )),
        ensures
            (*final(self), quit) == handle_model(*old(self), event),
    {
        if should_quit(&event) {
            return true;
        }
        if let InputEvent::Key(key_event) = event {
            if let Some(action) = handle_key_event(key_event) {
                return self.apply_action(action);
            }
        }
        false
    }
}

/// Tab cycling is cyclic of order four: four NextTab steps return to the
/// starting tab, and NextTab followed by PrevTab returns to the starting
/// tab; both leave the scroll position reset to 0.
pub proof fn lemma_tab_cycle(d: Dashboard)
    ensures
        apply_model(
            apply_model(
                apply_model(apply_model(d, AppAction::NextTab), AppAction::NextTab),
                AppAction::NextTab,
            ),
            AppAction::NextTab,
        ).current_tab == d.current_tab,
        apply_model(
            apply_model(
                apply_model(apply_model(d, AppAction::NextTab), AppAction::NextTab),
                AppAction::NextTab,
            ),
            AppAction::NextTab,
        ).process_scroll_offset == 0,
        apply_model(apply_model(d, AppAction::NextTab), AppAction::PrevTab).current_tab
            == d.current_tab,
        apply_model(apply_model(d, AppAction::NextTab), AppAction::PrevTab).process_scroll_offset
            == 0,
{
}

/// Scrolling is a no-op outside the Processes tab: in any other tab both
/// scroll actions leave the whole state unchanged.
pub proof fn lemma_scroll_noop_outside_processes(d: Dashboard)
    requires
        !(d.current_tab is Processes),
    ensures
        apply_model(d, AppAction::ScrollUp) == d,
        apply_model(d, AppAction::ScrollDown) == d,
{
}

} // verus!
