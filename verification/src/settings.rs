//! Configuration consumed read-only at startup. Loading and saving the
//! settings file happens outside this crate; here the settings are plain
//! values with their documented defaults.

use vstd::prelude::*;

verus! {

#[derive(Debug, Clone)]
pub struct DashboardSettings {
    pub title: String,
    pub refresh_rate_ms: u64,
    pub max_history_entries: usize,
}

#[derive(Debug, Clone)]
pub struct SystemSettings {
    pub enable_process_monitoring: bool,
    pub max_processes_displayed: usize,
    pub cpu_history_length: usize,
    pub memory_history_length: usize,
}

#[derive(Debug, Clone)]
pub struct DisplaySettings {
    pub show_cpu_graph: bool,
    pub show_memory_graph: bool,
    pub show_process_list: bool,
    pub show_network_info: bool,
    pub show_disk_info: bool,
}

#[derive(Debug, Clone)]
pub struct Settings {
    pub dashboard: DashboardSettings,
    pub system: SystemSettings,
    pub display: DisplaySettings,
}

impl Default for Settings {
    /// The defaults used when no settings file exists yet.
    fn default() -> (s: Settings)
        ensures
            s.dashboard.title@ == "System Monitor Dashboard"@,
            s.dashboard.refresh_rate_ms == 1000,
            s.dashboard.max_history_entries == 100,
            s.system.enable_process_monitoring,
            s.system.max_processes_displayed == 20,
            s.system.cpu_history_length == 60,
            s.system.memory_history_length == 60,
            s.display.show_cpu_graph,
            s.display.show_memory_graph,
            s.display.show_process_list,
            s.display.show_network_info,
            s.display.show_disk_info,
    {
        Settings {
            dashboard: DashboardSettings {
                title: "System Monitor Dashboard".to_string(),
                refresh_rate_ms: 1000,
                max_history_entries: 100,
            },
            system: SystemSettings {
                enable_process_monitoring: true,
                max_processes_displayed: 20,
                cpu_history_length: 60,
                memory_history_length: 60,
            },
            display: DisplaySettings {
                show_cpu_graph: true,
                show_memory_graph: true,
                show_process_list: true,
                show_network_info: true,
                show_disk_info: true,
            },
        }
    }
}

} // verus!
