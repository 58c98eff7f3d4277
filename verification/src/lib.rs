//! Core of a headless page driver: the session table, the per-page event
//! record, the wait primitives and the script protocol of an embedded,
//! callback-driven renderer, written so that every decision is a total
//! function on plain values.
//!
//! The renderer itself is pumped by the embedding program. This crate decides
//! what to do next: it never blocks on the renderer and never calls into it.

pub mod capture;
pub mod delegate;
pub mod engine;
pub mod event_loop;
pub mod files;
pub mod input;
pub mod interpret;
pub mod list;
pub mod literal;
pub mod navigation;
pub mod run_loop;
pub mod script;
pub mod status;
pub mod text;
pub mod types;
pub mod value;

pub use capture::{FullpageCapture, RawImage};
pub use delegate::PageDelegate;
pub use engine::{PageEngine, SessionKey};
pub use event_loop::{ScraperEventLoop, ScraperWaker};
pub use status::error_code;
pub use types::{ConsoleMessage, ElementRect, InputFile, NetworkRequest, PageError, PageOptions};
pub use value::{js_string_literal, jsvalue_to_json, JsNumber, JsValue};
