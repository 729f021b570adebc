use vstd::prelude::*;

verus! {

use vstd::string::StringExecFns;
use crate::strutil::str_eq;

/// One client window, as the compositor reports it.
#[derive(Clone)]
pub struct HyprClient {
    pub class: String,
    pub title: String,
    pub address: String,
    pub mapped: bool,
    pub hidden: bool,
    pub pid: i64,
    pub xwayland: bool,
    pub workspace_id: i64,
}

/// Mathematical model of a [`HyprMonitor`].
pub struct HyprMonitorV {
    pub id: Option<i64>,
    pub name: Seq<char>,
}

/// One monitor, as the compositor reports it.
#[derive(Clone, Debug)]
pub struct HyprMonitor {
    pub id: Option<i64>,
    pub name: String,
}

impl View for HyprMonitor {
    type V = HyprMonitorV;

    open spec fn view(&self) -> HyprMonitorV {
        HyprMonitorV { id: self.id, name: self.name@ }
    }
}

/// One workspace, as the compositor reports it; two workspaces are the
/// same workspace exactly when their ids agree.
#[derive(Clone, Debug)]
pub struct HyprWorkspace {
    pub id: Option<i32>,
    pub name: String,
    pub monitor: HyprMonitor,
}

impl PartialEq for HyprWorkspace {
    fn eq(&self, other: &Self) -> (r: bool) {
        match (self.id, other.id) {
            (Some(a), Some(b)) => a == b,
            (None, None) => true,
            _ => false,
        }
    }
}

impl vstd::std_specs::cmp::PartialEqSpecImpl for HyprWorkspace {
    open spec fn obeys_eq_spec() -> bool {
        true
    }

    open spec fn eq_spec(&self, other: &Self) -> bool {
        self.id == other.id
    }
}

impl Eq for HyprWorkspace {}

impl HyprWorkspace {
    /// The name the bar shows: workspaces on any monitor but the
    /// built-in panel are starred.
    pub fn get_bar_name(&self) -> (r: String)
        ensures
            r@ == if self.monitor.name@ == "eDP-1"@ {
                self.name@
            } else {
                "* "@ + self.name@
            },
    {
        if str_eq(self.monitor.name.as_str(), "eDP-1") {
            self.name.clone()
        } else {
            let mut s = String::from_str("* ");
            s.append(self.name.as_str());
            s
        }
    }
}

} // verus!
