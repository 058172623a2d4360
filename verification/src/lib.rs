//! Core of a terminal system-monitor dashboard: a bounded metric-history
//! engine, the tab/scroll state machine of the dashboard, the key-to-action
//! mapping with its debounce policy, and the decision step of the event loop.
//! Metric collection, terminal handling and rendering live outside this crate
//! and exchange plain values with it.

pub mod dashboard;
pub mod event_loop;
pub mod events;
pub mod history;
pub mod monitor;
pub mod settings;

pub use dashboard::{Dashboard, TabIndex};
pub use event_loop::{LoopEvent, LoopStep};
pub use events::{AppAction, EventHandler, InputEvent, KeyCode, KeyEventData, KeyModifier};
pub use history::{MetricHistory, MetricSample};
pub use monitor::NetworkInfo;
pub use settings::{DashboardSettings, DisplaySettings, Settings, SystemSettings};
