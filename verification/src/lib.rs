//! The logic of a webview runtime over the Chromium Embedded Framework: which windows and
//! webviews there are, what each message changes, and what the system is asked or told.
pub mod client;
pub mod color;
pub mod context;
pub mod creation;
pub mod error;
pub mod event_loop;
pub mod geometry;
pub mod invariants;
pub mod load_handler;
pub mod loading;
pub mod monitor;
pub mod nsapplication;
pub mod page_url;
pub mod placement;
pub mod places;
pub mod process;
pub mod script;
pub mod speaking;
pub mod start_up;
pub mod system_webview;
pub mod system_window;
pub mod tables;
pub mod webview;
pub mod webview_create;
pub mod webview_dispatcher;
pub mod webview_message;
pub mod window;
pub mod window_builder;
pub mod window_dispatcher;
pub mod window_event;
pub mod window_message;
pub mod window_wishes;
