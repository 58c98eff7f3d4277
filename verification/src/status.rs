//! Integer status codes for callers that cannot carry a typed error.

use vstd::prelude::*;
use crate::types::PageError;

verus! {

pub const PAGE_OK: i32 = 0;
pub const PAGE_ERR_INIT: i32 = 1;
pub const PAGE_ERR_LOAD: i32 = 2;
pub const PAGE_ERR_TIMEOUT: i32 = 3;
pub const PAGE_ERR_JS: i32 = 4;
pub const PAGE_ERR_SCREENSHOT: i32 = 5;
pub const PAGE_ERR_CHANNEL: i32 = 6;
pub const PAGE_ERR_NULL_PTR: i32 = 7;
pub const PAGE_ERR_NO_PAGE: i32 = 8;
pub const PAGE_ERR_SELECTOR: i32 = 9;

/// The status of a move in the history that found no entry to move to. It
/// is no error: the page is as it was.
pub const PAGE_NO_HISTORY: i32 = 10;

/// The status code that stands for each error.
pub open spec fn code_of(e: PageError) -> i32 {
    match e {
        PageError::InitFailed(_) => PAGE_ERR_INIT,
        PageError::LoadFailed(_) => PAGE_ERR_LOAD,
        PageError::Timeout => PAGE_ERR_TIMEOUT,
        PageError::JsError(_) => PAGE_ERR_JS,
        PageError::ScreenshotFailed(_) => PAGE_ERR_SCREENSHOT,
        PageError::ChannelClosed => PAGE_ERR_CHANNEL,
        PageError::NoPage => PAGE_ERR_NO_PAGE,
        PageError::SelectorNotFound(_) => PAGE_ERR_SELECTOR,
    }
}

/// Maps an error to its status code.
pub fn error_code(e: &PageError) -> (code: i32)
    ensures
        code == code_of(*e),
{
    match e {
        PageError::InitFailed(_) => PAGE_ERR_INIT,
        PageError::LoadFailed(_) => PAGE_ERR_LOAD,
        PageError::Timeout => PAGE_ERR_TIMEOUT,
        PageError::JsError(_) => PAGE_ERR_JS,
        PageError::ScreenshotFailed(_) => PAGE_ERR_SCREENSHOT,
        PageError::ChannelClosed => PAGE_ERR_CHANNEL,
        PageError::NoPage => PAGE_ERR_NO_PAGE,
        PageError::SelectorNotFound(_) => PAGE_ERR_SELECTOR,
    }
}

/// Maps the outcome of an operation without payload to a status code.
pub fn status_of(outcome: &Result<(), PageError>) -> (code: i32)
    ensures
        code == match *outcome {
            Ok(_) => PAGE_OK,
            Err(e) => code_of(e),
        },
{
    match outcome {
        Ok(_) => PAGE_OK,
        Err(e) => error_code(e),
    }
}

/// The status of a move in the history: success where the page moved, a
/// status of its own where there was no entry to move to, and the code of
/// the error otherwise.
pub open spec fn history_code_of(outcome: Result<bool, PageError>) -> i32 {
    match outcome {
        Ok(true) => PAGE_OK,
        Ok(false) => PAGE_NO_HISTORY,
        Err(e) => code_of(e),
    }
}

/// Maps the outcome of a move in the history to a status code.
pub fn history_status(outcome: &Result<bool, PageError>) -> (code: i32)
    ensures
        code == history_code_of(*outcome),
{
    match outcome {
        Ok(true) => PAGE_OK,
        Ok(false) => PAGE_NO_HISTORY,
        Err(e) => error_code(e),
    }
}

/// The three outcomes of a move in the history have three different
/// statuses: a caller can tell a page without history from a page that
/// moved and from every error, the missing session among them.
pub proof fn lemma_no_history_is_no_error(error: PageError)
    ensures
        history_code_of(Ok(false)) != history_code_of(Ok(true)),
        history_code_of(Ok(false)) != history_code_of(Err(error)),
        history_code_of(Ok(true)) != history_code_of(Err(error)),
        history_code_of(Ok(false)) != PAGE_ERR_NO_PAGE,
        history_code_of(Ok(false)) != PAGE_ERR_NULL_PTR,
{
}

/// An error code is never the success code nor the code kept for a missing
/// argument, and two errors share a code only if they are of the same kind.
pub proof fn lemma_codes_distinguish_kinds(a: PageError, b: PageError)
    ensures
        code_of(a) != PAGE_OK,
        code_of(a) != PAGE_ERR_NULL_PTR,
        1 <= code_of(a) <= 9,
        code_of(a) == code_of(b) <==> same_kind(a, b),
{
}

/// Whether two errors are the same variant, whatever text they carry.
pub open spec fn same_kind(a: PageError, b: PageError) -> bool {
    match (a, b) {
        (PageError::InitFailed(_), PageError::InitFailed(_)) => true,
        (PageError::LoadFailed(_), PageError::LoadFailed(_)) => true,
        (PageError::Timeout, PageError::Timeout) => true,
        (PageError::JsError(_), PageError::JsError(_)) => true,
        (PageError::ScreenshotFailed(_), PageError::ScreenshotFailed(_)) => true,
        (PageError::ChannelClosed, PageError::ChannelClosed) => true,
        (PageError::NoPage, PageError::NoPage) => true,
        (PageError::SelectorNotFound(_), PageError::SelectorNotFound(_)) => true,
        _ => false,
    }
}

} // verus!
