//! The decision step of the cooperative event loop. Each loop iteration
//! resolves to exactly one of two events — a raw input event or a refresh
//! tick — and this module decides, as a pure step on the controller state,
//! whether to quit and whether to take a fresh metrics snapshot. The
//! waiting, the snapshot itself and the render call live outside this
//! crate.

use vstd::prelude::*;
use crate::dashboard::{handle_model, may_apply, Dashboard};
use crate::events::{action_of, filter_model, AppAction, EventHandler, InputEvent};

verus! {

/// What one loop iteration resolved to: a raw input event, or the refresh
/// timer firing.
#[derive(Debug, Clone, Copy, PartialEq, Eq, Structural)]
pub enum LoopEvent {
    Input(InputEvent),
    Tick,
}

/// What the loop is to do after one step: stop, and/or take a fresh
/// snapshot of the metrics before rendering.
#[derive(Debug, Clone, Copy, PartialEq, Eq, Structural)]
pub struct LoopStep {
    pub quit: bool,
    pub refresh: bool,
}

/// Whether a passed-through event asks for an immediate extra snapshot.
pub open spec fn wants_refresh(e: InputEvent) -> bool {
    e matches InputEvent::Key(k) && action_of(k) == Some(AppAction::Refresh)
}

/// The controller state, debounce guard and directive after one loop
/// event at `now`: a tick only asks for a snapshot; an input event runs
/// through the debounce filter and then through the controller, and asks
/// for a snapshot exactly when it maps to Refresh.
pub open spec fn loop_model(d: Dashboard, h: EventHandler, ev: LoopEvent, now: u64) -> (
    Dashboard,
    EventHandler,
    LoopStep,
) {
    match ev {
        LoopEvent::Tick => (d, h, LoopStep { quit: false, refresh: true }),
        LoopEvent::Input(e) => {
            let (h2, passed) = filter_model(h, e, now);
            match passed {
                Some(e2) => {
                    let (d2, quit) = handle_model(d, e2);
                    (d2, h2, LoopStep { quit, refresh: wants_refresh(e2) })
                },
                None => (d, h2, LoopStep { quit: false, refresh: false }),
            }
        },
    }
}

/// Handles exactly one loop event: a tick asks for a snapshot; an input
/// event is debounced and routed through the controller. Never both
/// input-handling and tick-handling in one step, and the state the caller
/// renders afterwards is exactly the state this step produced.
pub fn loop_step(
    dashboard: &mut Dashboard,
    events: &mut EventHandler,
    event: LoopEvent,
    now_ms: u64,
) -> (r: LoopStep)
    requires
        event matches LoopEvent::Input(e) ==> (e matches InputEvent::Key(k) ==> (action_of(k)
            matches Some(a) ==> may_apply(*old(dashboard), a))),
    ensures
        (*final(dashboard), *final(events), r) == loop_model(
            *old(dashboard),
            *old(events),
            event,
            now_ms,
        ),
{
    match event {
        LoopEvent::Tick => LoopStep { quit: false, refresh: true },
        LoopEvent::Input(e) => {
            match events.filter_event(e, now_ms) {
                Some(passed) => {
                    let refresh = match &passed {
                        InputEvent::Key(k) => match crate::events::handle_key_event(*k) {
                            Some(AppAction::Refresh) => true,
                            _ => false,
                        },
                        InputEvent::Other => false,
                    };
                    let quit = dashboard.handle_event(passed);
                    LoopStep { quit, refresh }
                },
                None => LoopStep { quit: false, refresh: false },
            }
        },
    }
}

} // verus!
