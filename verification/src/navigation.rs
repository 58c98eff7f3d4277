//! Navigation: what is accepted as an address, and how long a load is
//! waited for.

use vstd::prelude::*;
use crate::delegate::{
    begins_navigation, lemma_load_flag_rises_once, reports_completion, DelegateEvent,
};
use crate::engine::{open_begun, open_target, EngineView};
use crate::run_loop::{secs_to_nanos, IdleWait, SpinUntil, Step};
use crate::types::{PageError, PageErrorView};

verus! {

/// `url::Url`, opaque: a parsed absolute URL, handed on to the renderer as
/// it is.
#[verifier::external_type_specification]
#[verifier::external_body]
pub struct ExUrl(url::Url);

/// `url::ParseError`, opaque.
#[verifier::external_type_specification]
#[verifier::external_body]
pub struct ExUrlParseError(url::ParseError);

/// How the text of every error for a rejected address begins.
pub const INVALID_URL: &'static str = "invalid URL: ";

/// What `url::Url::parse` makes of `input`: the text of the URL that it
/// parses to, as `Url::as_str` gives it, or `None` where it rejects the
/// input.
pub uninterp spec fn parsed_url_text(input: Seq<char>) -> Option<Seq<char>>;

/// Whether `input` is accepted as an absolute URL.
pub open spec fn parses_as_url(input: Seq<char>) -> bool {
    parsed_url_text(input) is Some
}

/// An address that was accepted: the URL to hand to the renderer, and its
/// text. The view is the text.
#[derive(Debug)]
pub struct ParsedUrl {
    url: url::Url,
    text: String,
}

impl View for ParsedUrl {
    type V = Seq<char>;

    closed spec fn view(&self) -> Seq<char> {
        self.text@
    }
}

impl ParsedUrl {
    /// The URL that is held.
    pub closed spec fn held(&self) -> url::Url {
        self.url
    }

    /// The text of the URL.
    pub fn as_str(&self) -> (text: &str)
        ensures
            text@ == self@,
    {
        self.text.as_str()
    }

    /// The URL itself, for the renderer.
    pub fn into_url(self) -> (url: url::Url)
        ensures
            url == self.held(),
    {
        self.url
    }
}

/// `url::Url::parse`, and `Url::as_str` on the URL it returns: parses an
/// absolute URL, without a base, and keeps its serialization beside it.
/// Neither panics, and what they yield depends on the text alone.
#[verifier::external_body]
fn url_parse(input: &str) -> (parsed: Result<ParsedUrl, url::ParseError>)
    ensures
        match parsed {
            Ok(accepted) => parsed_url_text(input@) == Some(accepted@),
            Err(_) => parsed_url_text(input@) is None,
        },
{
    match url::Url::parse(input) {
        Ok(url) => {
            let text = String::from(url.as_str());
            Ok(ParsedUrl { url, text })
        },
        Err(error) => Err(error),
    }
}

/// The `Display` text of a `url::ParseError`. The error is opaque here, so
/// nothing is claimed of the text.
#[verifier::external_body]
fn parse_error_text(error: &url::ParseError) -> (text: String) {
    format!("{error}")
}

/// Whether `text` begins with `prefix`.
pub open spec fn begins_with(text: Seq<char>, prefix: Seq<char>) -> bool {
    prefix.len() <= text.len() && text.subrange(0, prefix.len() as int) == prefix
}

/// Parses the address that a page is to open. An absolute URL is accepted
/// and handed on with its text; any other text is a failed load, and the
/// error says why. No table is touched: a rejected address changes nothing.
pub fn parse_url(url: &str) -> (parsed: Result<ParsedUrl, PageError>)
    ensures
        match parsed_url_text(url@) {
            Some(text) => parsed is Ok && parsed->Ok_0@ == text,
            None => parsed is Err && parsed->Err_0 is LoadFailed && begins_with(
                parsed->Err_0->LoadFailed_0@,
                INVALID_URL@,
            ),
        },
{
    match url_parse(url) {
        Ok(accepted) => Ok(accepted),
        Err(error) => {
            let detail = parse_error_text(&error);
            let text = String::from_str(INVALID_URL).concat(detail.as_str());
            assert(text@.subrange(0, INVALID_URL@.len() as int) =~= INVALID_URL@);
            Err(PageError::LoadFailed(text))
        },
    }
}

/// Which step of making a page failed.
#[derive(Debug, Clone, Copy, PartialEq, Eq, Structural)]
pub enum InitStage {
    /// The surface could not be made.
    RenderingContext,
    /// The surface could not be made current.
    MakeCurrent,
}

/// How the text of the error for a failed stage begins.
pub open spec fn stage_label(stage: InitStage) -> Seq<char> {
    match stage {
        InitStage::RenderingContext => "rendering context: "@,
        InitStage::MakeCurrent => "make_current: "@,
    }
}

/// The error for a page whose surface the renderer could not provide;
/// `detail` is the renderer's account of it.
pub fn init_failed(stage: InitStage, detail: &str) -> (error: PageError)
    ensures
        error@ == PageErrorView::InitFailed(stage_label(stage) + detail@),
{
    let label = match stage {
        InitStage::RenderingContext => "rendering context: ",
        InitStage::MakeCurrent => "make_current: ",
    };
    PageError::InitFailed(String::from_str(label).concat(detail))
}

/// The result of a wait that either came to what it waited for or ran out
/// of time.
pub fn timeout_unless(reached: bool) -> (result: Result<(), PageError>)
    ensures
        reached ==> result is Ok,
        !reached ==> result == Err::<(), PageError>(PageError::Timeout),
{
    if reached {
        Ok(())
    } else {
        Err(PageError::Timeout)
    }
}

/// How a wait for a load stands.
#[derive(Debug, Clone, Copy)]
pub enum LoadPhase {
    /// The load is not complete yet.
    Loading(SpinUntil),
    /// The load is complete and the page is given time to settle.
    Settling(IdleWait),
    /// The wait is over; `true` if the load completed in time.
    Over(bool),
}

/// Waits for the load of a page and then, if a settle time is set, until
/// the page has painted no frame for that long.
///
/// The driver polls; for as long as the answer is `Step::Pump` it pumps and
/// polls again.
#[derive(Debug, Clone, Copy)]
pub struct LoadWait {
    pub phase: LoadPhase,
    /// Seconds allowed for the load, and again for settling.
    pub timeout_secs: u64,
    /// The quiet time that counts as settled, in nanoseconds; zero for none.
    pub settle_nanos: u64,
}

impl LoadWait {
    /// Begins the wait at `now`.
    pub fn start(now: u64, timeout_secs: u64, settle_nanos: u64) -> (wait: LoadWait)
        ensures
            wait == (LoadWait {
                phase: LoadPhase::Loading(
                    SpinUntil { deadline: crate::run_loop::Deadline {
                        at: (now + secs_to_nanos(timeout_secs)) as u128,
                    } },
                ),
                timeout_secs,
                settle_nanos,
            }),
    {
        LoadWait { phase: LoadPhase::Loading(SpinUntil::start(now, timeout_secs)), timeout_secs, settle_nanos }
    }

    /// The wait after a poll at `now`, with the load flag of the page at
    /// `load_complete` and its frame counter at `frame_count`.
    pub open spec fn polled(self, load_complete: bool, frame_count: u64, now: u64) -> LoadWait {
        match self.phase {
            LoadPhase::Loading(until) => match until.step(load_complete, now) {
                Step::Pump => self,
                Step::Finished(false) => LoadWait { phase: LoadPhase::Over(false), ..self },
                Step::Finished(true) => if self.settle_nanos > 0 {
                    LoadWait {
                        phase: LoadPhase::Settling(
                            IdleWait {
                                max_deadline: crate::run_loop::Deadline {
                                    at: (now + secs_to_nanos(self.timeout_secs)) as u128,
                                },
                                idle_deadline: crate::run_loop::Deadline {
                                    at: (now + self.settle_nanos) as u128,
                                },
                                last: frame_count,
                                idle_nanos: self.settle_nanos,
                            },
                        ),
                        ..self
                    }
                } else {
                    LoadWait { phase: LoadPhase::Over(true), ..self }
                },
            },
            LoadPhase::Settling(idle) => if idle.observed(frame_count, now).over(now) {
                LoadWait { phase: LoadPhase::Over(true), ..self }
            } else {
                LoadWait { phase: LoadPhase::Settling(idle.observed(frame_count, now)), ..self }
            },
            LoadPhase::Over(_) => self,
        }
    }

    /// What the driver does in a phase: it pumps until the wait is over.
    pub open spec fn step(self) -> Step {
        match self.phase {
            LoadPhase::Over(loaded) => Step::Finished(loaded),
            _ => Step::Pump,
        }
    }

    /// Takes one poll and decides the next step. A poll in the settling
    /// phase must follow a pump.
    pub fn poll(&mut self, load_complete: bool, frame_count: u64, now: u64) -> (step: Step)
        ensures
            *final(self) == old(self).polled(load_complete, frame_count, now),
            step == final(self).step(),
    {
        match self.phase {
            LoadPhase::Loading(until) => match until.poll(load_complete, now) {
                Step::Pump => Step::Pump,
                Step::Finished(false) => {
                    self.phase = LoadPhase::Over(false);
                    Step::Finished(false)
                },
                Step::Finished(true) => {
                    if self.settle_nanos > 0 {
                        self.phase = LoadPhase::Settling(
                            IdleWait::start(now, frame_count, self.settle_nanos, self.timeout_secs),
                        );
                        Step::Pump
                    } else {
                        self.phase = LoadPhase::Over(true);
                        Step::Finished(true)
                    }
                },
            },
            LoadPhase::Settling(idle) => {
                let mut idle = idle;
                if idle.observe(frame_count, now) {
                    self.phase = LoadPhase::Over(true);
                    Step::Finished(true)
                } else {
                    self.phase = LoadPhase::Settling(idle);
                    Step::Pump
                }
            },
            LoadPhase::Over(loaded) => Step::Finished(loaded),
        }
    }
}

/// A wait for a load fails only by running out of time before the load
/// completes, and then it does fail; once the load is complete it cannot
/// fail any more, and with no settle time it is over at that very poll.
pub proof fn lemma_load_wait_fails_only_on_timeout(
    wait: LoadWait,
    load_complete: bool,
    frame_count: u64,
    now: u64,
)
    ensures
        wait.phase is Loading && wait.polled(load_complete, frame_count, now).phase
            == LoadPhase::Over(false) ==> !load_complete && now
            >= wait.phase->Loading_0.deadline.at,
        wait.phase is Loading && !load_complete && now >= wait.phase->Loading_0.deadline.at
            ==> wait.polled(load_complete, frame_count, now).step() == Step::Finished(false),
        wait.phase is Loading && load_complete ==> wait.polled(
            load_complete,
            frame_count,
            now,
        ).phase != LoadPhase::Over(false),
        wait.phase is Loading && load_complete && wait.settle_nanos == 0 ==> wait.polled(
            load_complete,
            frame_count,
            now,
        ).phase == LoadPhase::Over(true),
        wait.phase is Settling ==> wait.polled(load_complete, frame_count, now).phase
            != LoadPhase::Over(false),
        wait.phase is Over ==> wait.polled(load_complete, frame_count, now) == wait,
{
}

/// `open` waits for its own load. Once it has begun on a page, the load
/// flag of that page is clear. Over whatever the renderer then reports of
/// the page, the flag is set exactly if the load is reported complete; if
/// so, the wait for the load does not fail, and if not, the flag is still
/// clear when the time is up and the wait ends in a timeout. That the page
/// had completed a load before makes no difference.
pub proof fn lemma_open_waits_for_its_own_load(
    table: EngineView,
    reports: Seq<DelegateEvent>,
    wait: LoadWait,
    frame_count: u64,
    now: u64,
)
    requires
        open_target(table) is Some,
        !begins_navigation(reports),
        wait.phase is Loading,
    ensures
        ({
            let page = open_target(table)->Some_0;
            let begun = open_begun(table).pages[page].delegate;
            let record = begun.after_all(reports);
            let polled = wait.polled(record.load_complete, frame_count, now);
            &&& !begun.load_complete
            &&& record.load_complete <==> reports_completion(reports)
            &&& reports_completion(reports) ==> polled.phase != LoadPhase::Over(false)
            &&& !reports_completion(reports) && now >= wait.phase->Loading_0.deadline.at
                ==> polled.step() == Step::Finished(false)
        }),
{
    let page = open_target(table)->Some_0;
    let begun = open_begun(table).pages[page].delegate;
    lemma_load_flag_rises_once(begun, reports, 0, 0);
}

} // verus!
