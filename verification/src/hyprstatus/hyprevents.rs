use vstd::prelude::*;

verus! {

/// One event line of the compositor's event socket, parsed.
#[derive(Clone, PartialEq, Eq, Hash)]
pub enum ParsedEventType {
    WorkspaceChanged(String),
    WorkspaceDeleted(String),
    WorkspaceAdded(String),
    WorkspaceMoved(String, String),
    ActiveWindowChangedV1(String, String),
    ActiveWindowChangedV2(String),
    ActiveMonitorChanged(String, String),
    FullscreenStateChanged,
    MonitorAdded,
    MonitorRemoved,
    WindowOpened,
    WindowClosed,
    WindowMoved,
    LayoutChanged,
    SubMapChanged,
    LayerOpened,
    LayerClosed,
    FloatStateChanged,
    UrgentStateChanged,
    Minimize,
    WindowTitleChanged(String),
    Screencast,
    Unknown,
}

use vstd::string::StrSliceExecFns;
use vstd::string::StringExecFns;
use crate::strutil::find_last;
use crate::strutil::find_last_spec;
use crate::strutil::find_sub;
use crate::strutil::find_sub_spec;

/// Parses one line of the compositor's event socket. Only workspace
/// changes, additions, deletions, moves and window-focus changes are
/// told apart; every other event line reads as unknown. Markers are
/// searched leftmost (`workspace>>` only at a word boundary) and the
/// two-field payloads split at the line's last comma, as the event
/// grammar writes them.
pub fn convert_line_to_event(line: &str) -> (r: ParsedEventType)
    ensures
        ({
            let l = line@;
            let lastc = find_last_spec(l, ',', l.len() as int);
            match find_sub_spec(l, "workspace>>"@, 0, true) {
                Some(p) => r matches ParsedEventType::WorkspaceChanged(w) && w@ == l.skip(p + 11),
                None => match find_sub_spec(l, "destroyworkspace>>"@, 0, false) {
                    Some(p) => r matches ParsedEventType::WorkspaceDeleted(w) && w@ == l.skip(
                        p + 18,
                    ),
                    None => match find_sub_spec(l, "createworkspace>>"@, 0, false) {
                        Some(p) => r matches ParsedEventType::WorkspaceAdded(w) && w@ == l.skip(
                            p + 17,
                        ),
                        None => ({
                            let mv = find_sub_spec(l, "moveworkspace>>"@, 0, false);
                            let foc = find_sub_spec(l, "focusedmon>>"@, 0, false);
                            let act = find_sub_spec(l, "activewindow>>"@, 0, false);
                            if mv matches Some(p) && (lastc matches Some(j) && j >= p + 15) {
                                (r matches ParsedEventType::WorkspaceMoved(w, m) && (lastc
                                    matches Some(j) && mv matches Some(p) && w@ == l.subrange(
                                    p + 15,
                                    j,
                                ) && m@ == l.skip(j + 1)))
                            } else if foc matches Some(p) && (lastc matches Some(j) && j >= p
                                + 12) {
                                r == ParsedEventType::Unknown
                            } else if act matches Some(p) && (lastc matches Some(j) && j >= p
                                + 14) {
                                (r matches ParsedEventType::ActiveWindowChangedV1(c, t) && (lastc
                                    matches Some(j) && act matches Some(p) && c@ == l.subrange(
                                    p + 14,
                                    j,
                                ) && t@ == l.skip(j + 1)))
                            } else {
                                r == ParsedEventType::Unknown
                            }
                        }),
                    },
                },
            }
        }),
{
    proof {
        reveal_strlit("workspace>>");
        reveal_strlit("destroyworkspace>>");
        reveal_strlit("createworkspace>>");
        reveal_strlit("moveworkspace>>");
        reveal_strlit("focusedmon>>");
        reveal_strlit("activewindow>>");
    }
    let n = line.unicode_len();
    if let Some(p) = find_sub(line, "workspace>>", true) {
        let w = line.substring_char(p + 11, n);
        proof {
            assert(w@ =~= line@.skip(p as int + 11));
        }
        return ParsedEventType::WorkspaceChanged(String::from_str(w));
    }
    if let Some(p) = find_sub(line, "destroyworkspace>>", false) {
        let w = line.substring_char(p + 18, n);
        proof {
            assert(w@ =~= line@.skip(p as int + 18));
        }
        return ParsedEventType::WorkspaceDeleted(String::from_str(w));
    }
    if let Some(p) = find_sub(line, "createworkspace>>", false) {
        let w = line.substring_char(p + 17, n);
        proof {
            assert(w@ =~= line@.skip(p as int + 17));
        }
        return ParsedEventType::WorkspaceAdded(String::from_str(w));
    }
    if let Some(p) = find_sub(line, "moveworkspace>>", false) {
        if let Some(j) = find_last(line, ',') {
            if j >= p + 15 {
                let w = line.substring_char(p + 15, j);
                let m = line.substring_char(j + 1, n);
                proof {
                    assert(m@ =~= line@.skip(j as int + 1));
                }
                return ParsedEventType::WorkspaceMoved(
                    String::from_str(w),
                    String::from_str(m),
                );
            }
        }
    }
    if let Some(p) = find_sub(line, "focusedmon>>", false) {
        if let Some(j) = find_last(line, ',') {
            if j >= p + 12 {
                return ParsedEventType::Unknown;
            }
        }
    }
    if let Some(p) = find_sub(line, "activewindow>>", false) {
        if let Some(j) = find_last(line, ',') {
            if j >= p + 14 {
                let c = line.substring_char(p + 14, j);
                let t = line.substring_char(j + 1, n);
                proof {
                    assert(t@ =~= line@.skip(j as int + 1));
                }
                return ParsedEventType::ActiveWindowChangedV1(
                    String::from_str(c),
                    String::from_str(t),
                );
            }
        }
    }
    ParsedEventType::Unknown
}

} // verus!
