//! The record of what the renderer reported of one page.
//!
//! The renderer reports through callbacks; the driver turns each callback
//! into one call here. Every method says what it does to the record as an
//! event applied to the record's view, so that what holds of every history of
//! a page can be stated over events.

use vstd::prelude::*;
use crate::text::{has_substring, is_blocked, str_contains};
use crate::types::{
    console_views, request_views, string_views, ConsoleMessage, ConsoleMessageView,
    NetworkRequest, NetworkRequestView,
};

verus! {

/// How far a load has come, as the renderer reports it.
#[derive(Debug, Clone, Copy, PartialEq, Eq, Structural)]
pub enum LoadStatus {
    Started,
    HeadParsed,
    Complete,
}

/// The level of a console message.
#[derive(Debug, Clone, Copy, PartialEq, Eq, Structural)]
pub enum ConsoleLevel {
    Log,
    Debug,
    Info,
    Warn,
    Error,
    Trace,
}

/// The kind of control the renderer asks the embedder to show.
#[derive(Debug, Clone, Copy, PartialEq, Eq, Structural)]
pub enum DialogKind {
    Alert,
    Confirm,
    Prompt,
    /// Anything that is not a simple dialog.
    Other,
}

/// How a requested control is answered.
#[derive(Debug, Clone, Copy, PartialEq, Eq, Structural)]
pub enum DialogResponse {
    /// Confirm the dialog.
    Confirm,
    /// Dismiss the dialog.
    Dismiss,
    /// Leave the control alone.
    Leave,
}

/// The name under which a console level is recorded.
pub open spec fn level_name(level: ConsoleLevel) -> Seq<char> {
    match level {
        ConsoleLevel::Log => "log"@,
        ConsoleLevel::Debug => "debug"@,
        ConsoleLevel::Info => "info"@,
        ConsoleLevel::Warn => "warn"@,
        ConsoleLevel::Error => "error"@,
        ConsoleLevel::Trace => "trace"@,
    }
}

/// No dialog is left open: alerts are confirmed, questions are dismissed.
pub fn dialog_response(kind: DialogKind) -> (response: DialogResponse)
    ensures
        response == match kind {
            DialogKind::Alert => DialogResponse::Confirm,
            DialogKind::Confirm => DialogResponse::Dismiss,
            DialogKind::Prompt => DialogResponse::Dismiss,
            DialogKind::Other => DialogResponse::Leave,
        },
{
    match kind {
        DialogKind::Alert => DialogResponse::Confirm,
        DialogKind::Confirm => DialogResponse::Dismiss,
        DialogKind::Prompt => DialogResponse::Dismiss,
        DialogKind::Other => DialogResponse::Leave,
    }
}

/// Whether a request for `url` is to be cancelled under `patterns`.
pub fn matches_blocked_pattern(url: &str, patterns: &Vec<String>) -> (blocked: bool)
    ensures
        blocked == is_blocked(url@, string_views(patterns@)),
{
    let mut i: usize = 0;
    while i < patterns.len()
        invariant
            i <= patterns.len(),
            forall|k: int| 0 <= k < i ==> !has_substring(url@, #[trigger] string_views(patterns@)[k]),
        decreases patterns.len() - i,
    {
        if str_contains(url, patterns[i].as_str()) {
            assert(string_views(patterns@)[i as int] == patterns@[i as int]@);
            return true;
        }
        assert(string_views(patterns@)[i as int] == patterns@[i as int]@);
        i += 1;
    }
    false
}

/// What the record of a page holds.
pub struct DelegateView {
    pub load_complete: bool,
    pub frame_count: u64,
    pub last_request_time: Option<u64>,
    pub console_messages: Seq<ConsoleMessageView>,
    pub network_requests: Seq<NetworkRequestView>,
    pub blocked_url_patterns: Seq<Seq<char>>,
    pub closed: bool,
    pub default_width: u32,
    pub default_height: u32,
}

/// What can happen to the record of a page.
pub enum DelegateEvent {
    /// A navigation was started on the page.
    NavigationBegun,
    /// The renderer reported the status of the load.
    LoadStatusChanged(LoadStatus),
    /// The renderer painted a frame.
    FrameReady,
    /// The page wrote to its console.
    ConsoleMessage(ConsoleMessageView),
    /// The page asked for a resource at time `now`.
    ResourceRequested { request: NetworkRequestView, now: u64 },
    /// The renderer closed the page.
    Closed,
    /// The console buffer was handed out.
    ConsoleDrained,
    /// The request buffer was handed out.
    RequestsDrained,
    /// The caller set the patterns of requests to cancel.
    PatternsSet(Seq<Seq<char>>),
}

impl DelegateView {
    /// The record of a page on which nothing happened yet.
    pub open spec fn fresh(width: u32, height: u32) -> DelegateView {
        DelegateView {
            load_complete: false,
            frame_count: 0,
            last_request_time: None,
            console_messages: Seq::empty(),
            network_requests: Seq::empty(),
            blocked_url_patterns: Seq::empty(),
            closed: false,
            default_width: width,
            default_height: height,
        }
    }

    /// The record after one event.
    pub open spec fn after(self, event: DelegateEvent) -> DelegateView {
        match event {
            DelegateEvent::NavigationBegun => DelegateView { load_complete: false, ..self },
            DelegateEvent::LoadStatusChanged(status) => DelegateView {
                load_complete: self.load_complete || status == LoadStatus::Complete,
                ..self
            },
            DelegateEvent::FrameReady => DelegateView {
                frame_count: (self.frame_count + 1) as u64,
                ..self
            },
            DelegateEvent::ConsoleMessage(message) => DelegateView {
                console_messages: self.console_messages.push(message),
                ..self
            },
            DelegateEvent::ResourceRequested { request, now } => DelegateView {
                network_requests: self.network_requests.push(request),
                last_request_time: Some(now),
                ..self
            },
            DelegateEvent::Closed => DelegateView { closed: true, ..self },
            DelegateEvent::ConsoleDrained => DelegateView {
                console_messages: Seq::empty(),
                ..self
            },
            DelegateEvent::RequestsDrained => DelegateView {
                network_requests: Seq::empty(),
                ..self
            },
            DelegateEvent::PatternsSet(patterns) => DelegateView {
                blocked_url_patterns: patterns,
                ..self
            },
        }
    }
}

/// The record of one page: load status, frames painted, last network
/// activity, buffered console and network events, and the patterns of
/// requests to cancel.
#[derive(Debug)]
pub struct PageDelegate {
    load_complete: bool,
    frame_count: u64,
    last_request_time: Option<u64>,
    console_messages: Vec<ConsoleMessage>,
    network_requests: Vec<NetworkRequest>,
    blocked_url_patterns: Vec<String>,
    closed: bool,
    default_width: u32,
    default_height: u32,
}

impl View for PageDelegate {
    type V = DelegateView;

    closed spec fn view(&self) -> DelegateView {
        DelegateView {
            load_complete: self.load_complete,
            frame_count: self.frame_count,
            last_request_time: self.last_request_time,
            console_messages: console_views(self.console_messages@),
            network_requests: request_views(self.network_requests@),
            blocked_url_patterns: string_views(self.blocked_url_patterns@),
            closed: self.closed,
            default_width: self.default_width,
            default_height: self.default_height,
        }
    }
}

impl PageDelegate {
    /// The record of a new page with the given viewport.
    pub fn new(width: u32, height: u32) -> (delegate: PageDelegate)
        ensures
            delegate@ == DelegateView::fresh(width, height),
    {
        let delegate = PageDelegate {
            load_complete: false,
            frame_count: 0,
            last_request_time: None,
            console_messages: Vec::new(),
            network_requests: Vec::new(),
            blocked_url_patterns: Vec::new(),
            closed: false,
            default_width: width,
            default_height: height,
        };
        assert(delegate@.console_messages =~= Seq::empty());
        assert(delegate@.network_requests =~= Seq::empty());
        assert(delegate@.blocked_url_patterns =~= Seq::empty());
        delegate
    }

    /// Whether the load that was last started has completed.
    pub fn load_complete(&self) -> (complete: bool)
        ensures
            complete == self@.load_complete,
    {
        self.load_complete
    }

    /// How many frames the renderer painted on this page.
    pub fn frame_count(&self) -> (count: u64)
        ensures
            count == self@.frame_count,
    {
        self.frame_count
    }

    /// When the page last asked for a resource, if it ever did.
    pub fn last_request_time(&self) -> (time: Option<u64>)
        ensures
            time == self@.last_request_time,
    {
        self.last_request_time
    }

    /// Whether the renderer closed the page.
    pub fn closed(&self) -> (closed: bool)
        ensures
            closed == self@.closed,
    {
        self.closed
    }

    /// The viewport width that a pop-up of this page gets.
    pub fn default_width(&self) -> (width: u32)
        ensures
            width == self@.default_width,
    {
        self.default_width
    }

    /// The viewport height that a pop-up of this page gets.
    pub fn default_height(&self) -> (height: u32)
        ensures
            height == self@.default_height,
    {
        self.default_height
    }

    /// A navigation starts: the load is no longer complete.
    pub fn begin_navigation(&mut self)
        ensures
            final(self)@ == old(self)@.after(DelegateEvent::NavigationBegun),
    {
        self.load_complete = false;
    }

    /// The renderer reports the status of the load.
    pub fn notify_load_status_changed(&mut self, status: LoadStatus)
        ensures
            final(self)@ == old(self)@.after(DelegateEvent::LoadStatusChanged(status)),
    {
        if status == LoadStatus::Complete {
            self.load_complete = true;
        }
    }

    /// The renderer painted a frame. The driver acknowledges the frame with
    /// the renderer before it calls this.
    pub fn notify_new_frame_ready(&mut self)
        requires
            old(self)@.frame_count < u64::MAX,
        ensures
            final(self)@ == old(self)@.after(DelegateEvent::FrameReady),
    {
        self.frame_count = self.frame_count + 1;
    }

    /// The page wrote `message` to its console at `level`.
    pub fn show_console_message(&mut self, level: ConsoleLevel, message: String)
        ensures
            final(self)@ == old(self)@.after(
                DelegateEvent::ConsoleMessage(
                    ConsoleMessageView { level: level_name(level), message: message@ },
                ),
            ),
    {
        let level_str = match level {
            ConsoleLevel::Log => "log",
            ConsoleLevel::Debug => "debug",
            ConsoleLevel::Info => "info",
            ConsoleLevel::Warn => "warn",
            ConsoleLevel::Error => "error",
            ConsoleLevel::Trace => "trace",
        };
        let record = ConsoleMessage { level: String::from_str(level_str), message };
        self.console_messages.push(record);
        assert(final(self)@.console_messages =~= old(self)@.console_messages.push(record@));
    }

    /// The page asks for a resource at time `now`. The request is recorded
    /// and the time kept. Returns whether the request is to be cancelled:
    /// whether its URL contains one of the blocked patterns.
    pub fn load_web_resource(
        &mut self,
        method: String,
        url: String,
        is_main_frame: bool,
        now: u64,
    ) -> (blocked: bool)
        ensures
            final(self)@ == old(self)@.after(
                DelegateEvent::ResourceRequested {
                    request: NetworkRequestView { method: method@, url: url@, is_main_frame },
                    now,
                },
            ),
            blocked == is_blocked(url@, old(self)@.blocked_url_patterns),
    {
        let blocked = matches_blocked_pattern(url.as_str(), &self.blocked_url_patterns);
        let record = NetworkRequest { method, url, is_main_frame };
        self.network_requests.push(record);
        self.last_request_time = Some(now);
        assert(final(self)@.network_requests =~= old(self)@.network_requests.push(record@));
        blocked
    }

    /// The renderer closed the page.
    pub fn notify_closed(&mut self)
        ensures
            final(self)@ == old(self)@.after(DelegateEvent::Closed),
    {
        self.closed = true;
    }

    /// Hands out the buffered console messages, oldest first, and empties
    /// the buffer.
    pub fn drain_console_messages(&mut self) -> (messages: Vec<ConsoleMessage>)
        ensures
            console_views(messages@) == old(self)@.console_messages,
            final(self)@ == old(self)@.after(DelegateEvent::ConsoleDrained),
    {
        let mut messages: Vec<ConsoleMessage> = Vec::new();
        std::mem::swap(&mut messages, &mut self.console_messages);
        assert(final(self)@.console_messages =~= Seq::empty());
        messages
    }

    /// Hands out the buffered network requests, oldest first, and empties
    /// the buffer.
    pub fn drain_network_requests(&mut self) -> (requests: Vec<NetworkRequest>)
        ensures
            request_views(requests@) == old(self)@.network_requests,
            final(self)@ == old(self)@.after(DelegateEvent::RequestsDrained),
    {
        let mut requests: Vec<NetworkRequest> = Vec::new();
        std::mem::swap(&mut requests, &mut self.network_requests);
        assert(final(self)@.network_requests =~= Seq::empty());
        requests
    }

    /// Replaces the patterns of requests to cancel.
    pub fn set_blocked_url_patterns(&mut self, patterns: Vec<String>)
        ensures
            final(self)@ == old(self)@.after(
                DelegateEvent::PatternsSet(string_views(patterns@)),
            ),
    {
        self.blocked_url_patterns = patterns;
    }

    /// Removes every pattern: no request is cancelled any more.
    pub fn clear_blocked_url_patterns(&mut self)
        ensures
            final(self)@ == old(self)@.after(DelegateEvent::PatternsSet(Seq::empty())),
    {
        self.blocked_url_patterns = Vec::new();
        assert(final(self)@.blocked_url_patterns =~= Seq::empty());
    }
}

/// The load flag of a page changes only in two ways: the start of a
/// navigation clears it, and a report that the load is complete sets it.
/// So between two navigations it goes from false to true at most once, and
/// a new navigation clears it before it can be set again.
pub proof fn lemma_load_complete_once_per_navigation(record: DelegateView, event: DelegateEvent)
    ensures
        record.after(DelegateEvent::NavigationBegun).load_complete == false,
        record.after(DelegateEvent::LoadStatusChanged(LoadStatus::Complete)).load_complete,
        !record.load_complete && record.after(event).load_complete ==> event
            == DelegateEvent::LoadStatusChanged(LoadStatus::Complete),
        record.load_complete && !record.after(event).load_complete ==> event
            == DelegateEvent::NavigationBegun,
{
}

/// The frame counter never goes down, and goes up by exactly one for each
/// frame painted and for nothing else.
pub proof fn lemma_frame_count_counts_frames(record: DelegateView, event: DelegateEvent)
    requires
        record.frame_count < u64::MAX,
    ensures
        record.after(event).frame_count >= record.frame_count,
        record.after(event).frame_count == record.frame_count + 1 <==> event
            == DelegateEvent::FrameReady,
        event != DelegateEvent::FrameReady ==> record.after(event).frame_count
            == record.frame_count,
{
}

/// A buffer only grows at its end until it is handed out, and a buffer
/// that was just handed out is empty: handing it out again, with nothing
/// recorded in between, hands out nothing.
pub proof fn lemma_drain_is_idempotent(record: DelegateView, event: DelegateEvent)
    ensures
        record.after(DelegateEvent::ConsoleDrained).console_messages.len() == 0,
        record.after(DelegateEvent::RequestsDrained).network_requests.len() == 0,
        record.after(DelegateEvent::ConsoleDrained).after(DelegateEvent::ConsoleDrained)
            == record.after(DelegateEvent::ConsoleDrained),
        record.after(DelegateEvent::RequestsDrained).after(DelegateEvent::RequestsDrained)
            == record.after(DelegateEvent::RequestsDrained),
        event != DelegateEvent::ConsoleDrained ==> record.console_messages.is_prefix_of(
            record.after(event).console_messages,
        ),
        event != DelegateEvent::RequestsDrained ==> record.network_requests.is_prefix_of(
            record.after(event).network_requests,
        ),
{
}

impl DelegateView {
    /// The record after a run of events, in order.
    pub open spec fn after_all(self, events: Seq<DelegateEvent>) -> DelegateView
        decreases events.len(),
    {
        if events.len() == 0 {
            self
        } else {
            self.after_all(events.drop_last()).after(events.last())
        }
    }
}

/// Whether a run of events holds the report that the load is complete.
pub open spec fn reports_completion(events: Seq<DelegateEvent>) -> bool {
    exists|k: int|
        0 <= k < events.len() && #[trigger] events[k] == DelegateEvent::LoadStatusChanged(
            LoadStatus::Complete,
        )
}

/// Whether a run of events holds the start of a navigation.
pub open spec fn begins_navigation(events: Seq<DelegateEvent>) -> bool {
    exists|k: int| 0 <= k < events.len() && #[trigger] events[k] == DelegateEvent::NavigationBegun
}

/// From the start of a navigation to the start of the next, the load flag
/// goes from false to true at most once and never back: over a run of
/// events without a new navigation, on a record whose flag is clear, the
/// flag is set at the end exactly if the run holds the report that the load
/// is complete, and once it is set after some of the events it is set after
/// any more of them.
pub proof fn lemma_load_flag_rises_once(
    record: DelegateView,
    events: Seq<DelegateEvent>,
    sooner: int,
    later: int,
)
    requires
        !record.load_complete,
        !begins_navigation(events),
        0 <= sooner <= later <= events.len(),
    ensures
        record.after_all(events).load_complete <==> reports_completion(events),
        record.after_all(events.take(sooner)).load_complete ==> record.after_all(
            events.take(later),
        ).load_complete,
{
    lemma_load_flag_follows_reports(record, events);
    lemma_load_flag_follows_reports(record, events.take(sooner));
    lemma_load_flag_follows_reports(record, events.take(later));
    if reports_completion(events.take(sooner)) {
        let k = choose|k: int|
            0 <= k < events.take(sooner).len() && #[trigger] events.take(sooner)[k]
                == DelegateEvent::LoadStatusChanged(LoadStatus::Complete);
        assert(events.take(later)[k] == events.take(sooner)[k]);
    }
}

proof fn lemma_load_flag_follows_reports(record: DelegateView, events: Seq<DelegateEvent>)
    requires
        !record.load_complete,
    ensures
        !begins_navigation(events) ==> (record.after_all(events).load_complete
            <==> reports_completion(events)),
    decreases events.len(),
{
    if events.len() > 0 {
        let shorter = events.drop_last();
        lemma_load_flag_follows_reports(record, shorter);
        if !begins_navigation(events) {
            if begins_navigation(shorter) {
                let k = choose|k: int|
                    0 <= k < shorter.len() && #[trigger] shorter[k]
                        == DelegateEvent::NavigationBegun;
                assert(events[k] == shorter[k]);
            }
            assert(events[events.len() - 1] == events.last());
            if reports_completion(shorter) {
                let k = choose|k: int|
                    0 <= k < shorter.len() && #[trigger] shorter[k]
                        == DelegateEvent::LoadStatusChanged(LoadStatus::Complete);
                assert(events[k] == shorter[k]);
            }
            if reports_completion(events) {
                let k = choose|k: int|
                    0 <= k < events.len() && #[trigger] events[k]
                        == DelegateEvent::LoadStatusChanged(LoadStatus::Complete);
                if k < shorter.len() {
                    assert(shorter[k] == events[k]);
                }
            }
        }
    }
}

} // verus!
