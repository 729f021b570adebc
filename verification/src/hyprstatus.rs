use vstd::prelude::*;

pub mod hyprclients;
pub mod hyprevents;

verus! {

use crate::hyprstatus::hyprclients::HyprMonitor;
use crate::hyprstatus::hyprclients::HyprWorkspace;
use crate::hyprstatus::hyprevents::ParsedEventType;

/// Events published by the compositor-status block.
#[derive(Clone)]
pub enum HyprOut {
    Parsed(ParsedEventType),
    AllWorkspaces(Vec<HyprWorkspace>, String, String, String),
}

/// Commands the compositor-status block accepts.
#[derive(Clone)]
pub enum HyprIn {
    NewClient,
}

/// What the compositor currently shows, as last reported.
#[derive(Default, Debug)]
pub struct HyprCurrentStatus {
    current_workspace_name: String,
    current_monitor: Option<HyprMonitor>,
    current_window_title: String,
    current_window_class: String,
}

impl HyprCurrentStatus {
    /// The monitor the compositor last reported as current.
    pub closed spec fn spec_current_monitor(&self) -> Option<HyprMonitor> {
        self.current_monitor
    }

    /// A copy of the monitor the compositor last reported as current.
    pub fn get_current_monitor(&self) -> (r: Option<HyprMonitor>)
        ensures
            match (r, self.spec_current_monitor()) {
                (Some(a), Some(b)) => a@ == b@,
                (None, None) => true,
                _ => false,
            },
    {
        match &self.current_monitor {
            Some(m) => Some(HyprMonitor { id: m.id, name: m.name.clone() }),
            None => None,
        }
    }
}

} // verus!
