//! Detection of a terminal's background color and light/dark theme.
//!
//! The terminal is queried in band with an XTerm control sequence (wrapped
//! in a passthrough envelope under tmux or GNU screen), the reply is read
//! byte by byte under a deadline, and the colon-prefixed, slash-delimited
//! hex triplet in it is decoded into a 16-bit-per-channel color. When the
//! active probe is inapplicable or fails, a color-index environment
//! variable serves as a fallback.

mod decode;
mod fallback;
mod family;
mod luma;
mod native;
mod parse;
mod probe;
mod query;
mod scan;
mod term_io;
mod types;

pub use native::from_winapi;
pub use native::spec_console_color;
pub use probe::from_xterm;
pub use probe::latency;
pub use probe::prefer_primary;
pub use probe::rgb;
pub use probe::rgb_from_events;
pub use probe::spec_prefer;
pub use probe::spec_theme_outcome;
pub use probe::theme;
pub use probe::theme_from_rgb;
pub use probe::xterm_latency;

pub use query::query_bytes;
pub use query::spec_query_bytes;
pub use query::QueryPurpose;
pub use scan::lemma_color_scan_needs_terminator;
pub use scan::lemma_latency_scan_needs_terminator;
pub use scan::scan_color;
pub use scan::scan_color_from;
pub use scan::scan_color_response;
pub use scan::scan_latency;
pub use scan::scan_latency_response;
pub use scan::ReadEvent;

pub use fallback::fallback_color;
pub use fallback::fallback_ok;
pub use fallback::from_env_colorfgbg;
pub use fallback::spec_rxvt_color;
pub use fallback::valid_dec_component;
pub use family::color_source;
pub use family::spec_color_source;
pub use family::spec_terminal;
pub use family::terminal;
pub use family::ColorSource;
pub use luma::classify;
pub use luma::lemma_classify_monotonic;
pub use luma::spec_classify;
pub use luma::spec_luminance;

pub use decode::decode_hex_component;
pub use decode::decode_x11_color;
pub use decode::expanded_hex;
pub use decode::lemma_expand_is_shift;
pub use decode::lemma_expanded_hex_bound;
pub use decode::spec_decode_x11;
pub use decode::valid_hex_component;

pub use parse::dec_value;
pub use parse::hex_value;
pub use parse::is_dec_digit;
pub use parse::is_hex_digit;
pub use parse::pow16;
pub use parse::split_on;

pub use types::Env;
pub use types::Error;
pub use types::Rgb;
pub use types::Terminal;
pub use types::Theme;
