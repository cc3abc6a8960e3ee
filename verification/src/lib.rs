// foundations: ordering, time, text, hashing
pub mod order;
pub mod listable;
pub mod time_span;
pub mod text_util;
pub mod hashing;

// the library model: entries, sorted cursor lists, playlist
pub mod library_entry;
pub mod sorted_list;
pub mod playlist;
pub mod library;

// shared state and configuration
pub mod playback_clock;
pub mod ui_state;
pub mod style;
pub mod config;
pub mod environment;

// the engines: input, state, playback, scan, tickers
pub mod input;
pub mod app_state;
pub mod playback;
pub mod scanner;
pub mod updater;

// the render pipeline
pub mod render_data;
pub mod term_state;
pub mod widget_playback;
pub mod view_library;
