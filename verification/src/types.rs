//! Public value types shared by every layer.

use vstd::prelude::*;

verus! {

/// Nanoseconds in one second.
pub const NANOS_PER_SEC: u64 = 1_000_000_000;

/// Nanoseconds in one millisecond.
pub const NANOS_PER_MILLI: u64 = 1_000_000;

/// Options for configuring a page session.
#[derive(Debug, Clone)]
pub struct PageOptions {
    /// Viewport width in pixels (default: 1280).
    pub width: u32,
    /// Viewport height in pixels (default: 720).
    pub height: u32,
    /// Maximum time in seconds to wait for page load (default: 30).
    pub timeout: u64,
    /// Extra settle time after load, in nanoseconds (default: two seconds).
    /// Zero disables the settle wait.
    pub wait: u64,
    /// Capture the full scrollable page, not just the viewport (default: false).
    pub fullpage: bool,
    /// User-Agent override; `None` keeps the renderer's default.
    pub user_agent: Option<String>,
}

impl Default for PageOptions {
    fn default() -> (options: Self)
        ensures
            options.width == 1280,
            options.height == 720,
            options.timeout == 30,
            options.wait == 2 * NANOS_PER_SEC,
            !options.fullpage,
            options.user_agent is None,
    {
        PageOptions {
            width: 1280,
            height: 720,
            timeout: 30,
            wait: 2_000_000_000,
            fullpage: false,
            user_agent: None,
        }
    }
}

/// A console message captured from the page.
#[derive(Debug, Clone)]
pub struct ConsoleMessage {
    pub level: String,
    pub message: String,
}

/// A network request observed during page loading.
#[derive(Debug, Clone)]
pub struct NetworkRequest {
    pub method: String,
    pub url: String,
    pub is_main_frame: bool,
}

/// What a console message says: the characters of its two fields.
pub struct ConsoleMessageView {
    pub level: Seq<char>,
    pub message: Seq<char>,
}

impl View for ConsoleMessage {
    type V = ConsoleMessageView;

    open spec fn view(&self) -> ConsoleMessageView {
        ConsoleMessageView { level: self.level@, message: self.message@ }
    }
}

/// What a network request record says.
pub struct NetworkRequestView {
    pub method: Seq<char>,
    pub url: Seq<char>,
    pub is_main_frame: bool,
}

impl View for NetworkRequest {
    type V = NetworkRequestView;

    open spec fn view(&self) -> NetworkRequestView {
        NetworkRequestView {
            method: self.method@,
            url: self.url@,
            is_main_frame: self.is_main_frame,
        }
    }
}

/// The views of a run of console messages, in order.
pub open spec fn console_views(messages: Seq<ConsoleMessage>) -> Seq<ConsoleMessageView> {
    messages.map_values(|m: ConsoleMessage| m@)
}

/// The views of a run of network requests, in order.
pub open spec fn request_views(requests: Seq<NetworkRequest>) -> Seq<NetworkRequestView> {
    requests.map_values(|r: NetworkRequest| r@)
}

/// The characters of each string of a run, in order.
pub open spec fn string_views(strings: Seq<String>) -> Seq<Seq<char>> {
    strings.map_values(|s: String| s@)
}

/// Bounding rectangle of an element. Each field holds the IEEE-754 binary64
/// bit pattern of the coordinate the renderer reported.
#[derive(Debug, Clone, Copy, PartialEq, Eq)]
pub struct ElementRect {
    pub x: u64,
    pub y: u64,
    pub width: u64,
    pub height: u64,
}

/// A file handed to a file input: its name, MIME type and contents.
#[derive(Debug, Clone)]
pub struct InputFile {
    pub name: String,
    pub mime_type: String,
    pub data: Vec<u8>,
}

/// Errors that can occur during page operations.
#[derive(Debug)]
pub enum PageError {
    /// Failed to initialize the engine.
    InitFailed(String),
    /// Failed to load the page.
    LoadFailed(String),
    /// Operation timed out.
    Timeout,
    /// JavaScript evaluation failed.
    JsError(String),
    /// Screenshot capture failed.
    ScreenshotFailed(String),
    /// Internal channel was closed.
    ChannelClosed,
    /// No page is open.
    NoPage,
    /// CSS selector matched nothing.
    SelectorNotFound(String),
}

/// What an error says: its kind, and the characters of the text it carries.
pub enum PageErrorView {
    InitFailed(Seq<char>),
    LoadFailed(Seq<char>),
    Timeout,
    JsError(Seq<char>),
    ScreenshotFailed(Seq<char>),
    ChannelClosed,
    NoPage,
    SelectorNotFound(Seq<char>),
}

impl View for PageError {
    type V = PageErrorView;

    open spec fn view(&self) -> PageErrorView {
        match *self {
            PageError::InitFailed(msg) => PageErrorView::InitFailed(msg@),
            PageError::LoadFailed(msg) => PageErrorView::LoadFailed(msg@),
            PageError::Timeout => PageErrorView::Timeout,
            PageError::JsError(msg) => PageErrorView::JsError(msg@),
            PageError::ScreenshotFailed(msg) => PageErrorView::ScreenshotFailed(msg@),
            PageError::ChannelClosed => PageErrorView::ChannelClosed,
            PageError::NoPage => PageErrorView::NoPage,
            PageError::SelectorNotFound(sel) => PageErrorView::SelectorNotFound(sel@),
        }
    }
}

impl PageError {
    /// The human-readable text of an error.
    pub open spec fn message_text(self) -> Seq<char> {
        match self {
            PageError::InitFailed(msg) => "initialization failed: "@ + msg@,
            PageError::LoadFailed(msg) => "page load failed: "@ + msg@,
            PageError::Timeout => "timed out"@,
            PageError::JsError(msg) => "JavaScript error: "@ + msg@,
            PageError::ScreenshotFailed(msg) => "screenshot failed: "@ + msg@,
            PageError::ChannelClosed => "internal channel closed"@,
            PageError::NoPage => "no page open"@,
            PageError::SelectorNotFound(sel) => "selector not found: "@ + sel@,
        }
    }

    /// Renders the error as text.
    pub fn message(&self) -> (text: String)
        ensures
            text@ == self.message_text(),
    {
        match self {
            PageError::InitFailed(msg) => String::from_str("initialization failed: ").concat(
                msg.as_str(),
            ),
            PageError::LoadFailed(msg) => String::from_str("page load failed: ").concat(
                msg.as_str(),
            ),
            PageError::Timeout => String::from_str("timed out"),
            PageError::JsError(msg) => String::from_str("JavaScript error: ").concat(msg.as_str()),
            PageError::ScreenshotFailed(msg) => String::from_str("screenshot failed: ").concat(
                msg.as_str(),
            ),
            PageError::ChannelClosed => String::from_str("internal channel closed"),
            PageError::NoPage => String::from_str("no page open"),
            PageError::SelectorNotFound(sel) => String::from_str("selector not found: ").concat(
                sel.as_str(),
            ),
        }
    }
}

} // verus!
