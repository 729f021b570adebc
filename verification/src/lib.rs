//! The logic of a desktop status bar, with its behaviour stated in
//! contracts and machine-checked. The heart is the audio backend: a
//! client for the system sound daemon that keeps a registry of device
//! state, fans change notifications out to consumers, applies volume
//! commands optimistically, and reconnects under backoff when the
//! daemon goes away. Around it stand the bar's other pure pieces:
//! the ring buffer behind the charts, the battery, processor, memory
//! and network accounting parsers, the compositor event grammar, and
//! the small formatting helpers.

pub mod audio;
pub mod battery;
pub mod config;
pub mod constants;
pub mod cpu;
pub mod datahodler;
pub mod hyprstatus;
pub mod memory;
pub mod netspeed;
pub mod statusbar;
pub mod strutil;
pub mod time;
pub mod util;
pub mod utils;
pub mod widgets;
pub mod window;
