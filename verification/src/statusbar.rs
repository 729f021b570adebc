use vstd::prelude::*;

verus! {

/// Facts about the monitor a bar window sits on, shared with every
/// widget built into that window.
#[derive(Clone, Default)]
pub struct WidgetShareInfo {
    pub monitor_num: i32,
    pub plug_name: Option<String>,
}

} // verus!
