//! Verified core of the Blade control hub: key bindings, device-state
//! decisions and the small pieces of arithmetic the effects rely on.

pub mod text;
pub mod binding;
pub mod custom_bindings;
pub mod razer_key;
pub mod vkey;
pub mod input;
pub mod key_map;
pub mod builtin_meta;
pub mod error;
pub mod key_capture;
pub mod hidapi;
pub mod key_hook;
pub mod refresh_rate;
pub mod topology;
pub mod command_lab;
pub mod external_events;
pub mod brightness;
pub mod bloom;
pub mod color_math;
pub mod reload;
pub mod capture_stage;
pub mod persist;
pub mod window;
pub mod ui_state;
pub mod trackpad;
pub mod audio;
pub mod output_delay;
pub mod sample_ring;
pub mod ambient_capture;
