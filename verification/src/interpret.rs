//! What the result of each script means.
//!
//! Every function here takes what an evaluation yielded and says what the
//! operation returns for it. Where the value is not of a shape the script
//! can yield, the error carries `rendering`: the value as the embedding
//! program prints it for a reader.

use vstd::prelude::*;
use crate::text::str_eq;
use crate::types::{ElementRect, PageError, PageErrorView};
use crate::value::{jsvalue_to_json, json_text, JsValue};

verus! {

pub const UNEXPECTED_HTML_DOCUMENT: &'static str = "unexpected JS result type: ";
pub const UNEXPECTED_CLICK_TARGET: &'static str = "unexpected getBoundingClientRect result: ";
pub const UNEXPECTED_SCROLL: &'static str = "unexpected scrollIntoView result: ";
pub const UNEXPECTED_SELECT: &'static str = "unexpected select result: ";
pub const UNEXPECTED_FILES: &'static str = "unexpected file input result: ";
pub const UNEXPECTED_COOKIES: &'static str = "unexpected cookie result: ";
pub const UNEXPECTED_RECT: &'static str = "unexpected rect result: ";
pub const UNEXPECTED_TEXT: &'static str = "unexpected text result: ";
pub const UNEXPECTED_ATTRIBUTE: &'static str = "unexpected attribute result: ";
pub const UNEXPECTED_HTML: &'static str = "unexpected html result: ";
pub const INVALID_COORDINATE: &'static str = "invalid coordinate";
pub const INVALID_RECT_VALUE: &'static str = "invalid rect value";

fn selector_not_found(selector: &str) -> (error: PageError)
    ensures
        error@ == PageErrorView::SelectorNotFound(selector@),
{
    PageError::SelectorNotFound(String::from_str(selector))
}

fn unexpected(what: &str, rendering: &str) -> (error: PageError)
    ensures
        error@ == PageErrorView::JsError(what@ + rendering@),
{
    PageError::JsError(String::from_str(what).concat(rendering))
}

fn js_error(text: &str) -> (error: PageError)
    ensures
        error@ == PageErrorView::JsError(text@),
{
    PageError::JsError(String::from_str(text))
}

/// What a script evaluation comes to once the wait for it has ended.
///
/// `completed` says whether the result arrived before the timeout;
/// `result` is what arrived: the value, or the renderer's account of why the
/// script failed. Without a result in time the evaluation timed out.
pub fn eval_outcome(completed: bool, result: Option<Result<JsValue, String>>) -> (outcome: Result<
    JsValue,
    PageError,
>)
    ensures
        match (completed, result) {
            (true, Some(Ok(value))) => outcome == Ok::<JsValue, PageError>(value),
            (true, Some(Err(text))) => outcome == Err::<JsValue, PageError>(
                PageError::JsError(text),
            ),
            _ => outcome == Err::<JsValue, PageError>(PageError::Timeout),
        },
{
    if !completed {
        return Err(PageError::Timeout);
    }
    match result {
        Some(Ok(value)) => Ok(value),
        Some(Err(text)) => Err(PageError::JsError(text)),
        None => Err(PageError::Timeout),
    }
}

/// The result of `evaluate`: the value as JSON-shaped text.
pub fn evaluate(value: &JsValue) -> (result: Result<String, PageError>)
    ensures
        result is Ok,
        result->Ok_0@ == json_text(*value),
{
    Ok(jsvalue_to_json(value))
}

/// The markup of the document: the string that the script yielded.
pub fn html(value: JsValue, rendering: &str) -> (result: Result<String, PageError>)
    ensures
        match value {
            JsValue::String(s) => result == Ok::<String, PageError>(s),
            _ => result is Err && result->Err_0@ == PageErrorView::JsError(
                UNEXPECTED_HTML_DOCUMENT@ + rendering@,
            ),
        },
{
    match value {
        JsValue::String(s) => Ok(s),
        _ => Err(unexpected(UNEXPECTED_HTML_DOCUMENT, rendering)),
    }
}

/// Whether an evaluation says that the selector is on the page: only the
/// value `true` does. A failed evaluation does not.
pub fn selector_found(outcome: &Result<JsValue, PageError>) -> (found: bool)
    ensures
        found == (*outcome matches Ok(JsValue::Boolean(b)) && b),
{
    match outcome {
        Ok(JsValue::Boolean(b)) => *b,
        _ => false,
    }
}

/// Whether an evaluation says that the condition holds: a value that
/// counts as true does. A failed evaluation does not.
pub fn condition_holds(outcome: &Result<JsValue, PageError>) -> (holds: bool)
    ensures
        holds == (*outcome matches Ok(value) && crate::value::truthy(value)),
{
    match outcome {
        Ok(value) => crate::value::is_truthy(value),
        Err(_) => false,
    }
}

/// The cookies of the document: the string that the script yielded.
pub fn get_cookies(value: JsValue, rendering: &str) -> (result: Result<String, PageError>)
    ensures
        match value {
            JsValue::String(s) => result == Ok::<String, PageError>(s),
            _ => result is Err && result->Err_0@ == PageErrorView::JsError(
                UNEXPECTED_COOKIES@ + rendering@,
            ),
        },
{
    match value {
        JsValue::String(s) => Ok(s),
        _ => Err(unexpected(UNEXPECTED_COOKIES, rendering)),
    }
}

/// Where to click for `selector`: the bit patterns of the two numbers that
/// the script yielded, the horizontal one first.
pub fn click_selector(value: &JsValue, rendering: &str, selector: &str) -> (result: Result<
    (u64, u64),
    PageError,
>)
    ensures
        match *value {
            JsValue::Array(coords) if coords@.len() == 2 => match (coords@[0], coords@[1]) {
                (JsValue::Number(x), JsValue::Number(y)) => result == Ok::<(u64, u64), PageError>(
                    (x.bits, y.bits),
                ),
                _ => result is Err && result->Err_0@ == PageErrorView::JsError(
                    INVALID_COORDINATE@,
                ),
            },
            JsValue::Null | JsValue::Undefined => result is Err && result->Err_0@
                == PageErrorView::SelectorNotFound(selector@),
            _ => result is Err && result->Err_0@ == PageErrorView::JsError(
                UNEXPECTED_CLICK_TARGET@ + rendering@,
            ),
        },
{
    match value {
        JsValue::Array(coords) => {
            if coords.len() == 2 {
                let x = match &coords[0] {
                    JsValue::Number(n) => n.bits,
                    _ => return Err(js_error(INVALID_COORDINATE)),
                };
                let y = match &coords[1] {
                    JsValue::Number(n) => n.bits,
                    _ => return Err(js_error(INVALID_COORDINATE)),
                };
                Ok((x, y))
            } else {
                Err(unexpected(UNEXPECTED_CLICK_TARGET, rendering))
            }
        },
        JsValue::Null => Err(selector_not_found(selector)),
        JsValue::Undefined => Err(selector_not_found(selector)),
        _ => Err(unexpected(UNEXPECTED_CLICK_TARGET, rendering)),
    }
}

/// Whether the element for `selector` was scrolled into view.
pub fn scroll_to_selector(value: &JsValue, rendering: &str, selector: &str) -> (result: Result<
    (),
    PageError,
>)
    ensures
        match *value {
            JsValue::Boolean(true) => result is Ok,
            JsValue::Null | JsValue::Undefined => result is Err && result->Err_0@
                == PageErrorView::SelectorNotFound(selector@),
            _ => result is Err && result->Err_0@ == PageErrorView::JsError(
                UNEXPECTED_SCROLL@ + rendering@,
            ),
        },
{
    match value {
        JsValue::Boolean(true) => Ok(()),
        JsValue::Null => Err(selector_not_found(selector)),
        JsValue::Undefined => Err(selector_not_found(selector)),
        _ => Err(unexpected(UNEXPECTED_SCROLL, rendering)),
    }
}

/// The text of the error for an element that is no `<select>`.
pub open spec fn not_a_select_text(selector: Seq<char>) -> Seq<char> {
    "element '"@ + selector + "' is not a <select>"@
}

/// The text of the error for a `<select>` without the wanted option.
pub open spec fn no_option_text(selector: Seq<char>, value: Seq<char>) -> Seq<char> {
    "no option with value '"@ + value + "' in '"@ + selector + "'"@
}

/// The text of the error for an element that is no file input.
pub open spec fn not_a_file_input_text(selector: Seq<char>) -> Seq<char> {
    "element '"@ + selector + "' is not an <input type=\"file\">"@
}

/// What a `select_option` script yielded, by the word it returned.
pub open spec fn select_option_result(
    value: JsValue,
    rendering: Seq<char>,
    selector: Seq<char>,
    option: Seq<char>,
) -> Option<PageErrorView> {
    match value {
        JsValue::String(s) => if s@ == "ok"@ {
            None
        } else if s@ == "not_found"@ {
            Some(PageErrorView::SelectorNotFound(selector))
        } else if s@ == "not_select"@ {
            Some(PageErrorView::JsError(not_a_select_text(selector)))
        } else if s@ == "no_option"@ {
            Some(PageErrorView::JsError(no_option_text(selector, option)))
        } else {
            Some(PageErrorView::JsError(UNEXPECTED_SELECT@ + rendering))
        },
        _ => Some(PageErrorView::JsError(UNEXPECTED_SELECT@ + rendering)),
    }
}

/// Whether the option `option` was selected in the element for `selector`.
pub fn select_option(value: &JsValue, rendering: &str, selector: &str, option: &str) -> (result:
    Result<(), PageError>)
    ensures
        match select_option_result(*value, rendering@, selector@, option@) {
            None => result is Ok,
            Some(error) => result is Err && result->Err_0@ == error,
        },
{
    match value {
        JsValue::String(s) => {
            if str_eq(s.as_str(), "ok") {
                Ok(())
            } else if str_eq(s.as_str(), "not_found") {
                Err(selector_not_found(selector))
            } else if str_eq(s.as_str(), "not_select") {
                Err(
                    PageError::JsError(
                        String::from_str("element '").concat(selector).concat(
                            "' is not a <select>",
                        ),
                    ),
                )
            } else if str_eq(s.as_str(), "no_option") {
                Err(
                    PageError::JsError(
                        String::from_str("no option with value '").concat(option).concat(
                            "' in '",
                        ).concat(selector).concat("'"),
                    ),
                )
            } else {
                Err(unexpected(UNEXPECTED_SELECT, rendering))
            }
        },
        _ => Err(unexpected(UNEXPECTED_SELECT, rendering)),
    }
}

/// What a `set_input_files` script yielded, by the word it returned.
pub open spec fn set_input_files_result(
    value: JsValue,
    rendering: Seq<char>,
    selector: Seq<char>,
) -> Option<PageErrorView> {
    match value {
        JsValue::String(s) => if s@ == "ok"@ {
            None
        } else if s@ == "not_found"@ {
            Some(PageErrorView::SelectorNotFound(selector))
        } else if s@ == "not_file"@ {
            Some(PageErrorView::JsError(not_a_file_input_text(selector)))
        } else {
            Some(PageErrorView::JsError(UNEXPECTED_FILES@ + rendering))
        },
        _ => Some(PageErrorView::JsError(UNEXPECTED_FILES@ + rendering)),
    }
}

/// Whether the files were put on the input for `selector`.
pub fn set_input_files(value: &JsValue, rendering: &str, selector: &str) -> (result: Result<
    (),
    PageError,
>)
    ensures
        match set_input_files_result(*value, rendering@, selector@) {
            None => result is Ok,
            Some(error) => result is Err && result->Err_0@ == error,
        },
{
    match value {
        JsValue::String(s) => {
            if str_eq(s.as_str(), "ok") {
                Ok(())
            } else if str_eq(s.as_str(), "not_found") {
                Err(selector_not_found(selector))
            } else if str_eq(s.as_str(), "not_file") {
                Err(
                    PageError::JsError(
                        String::from_str("element '").concat(selector).concat(
                            "' is not an <input type=\"file\">",
                        ),
                    ),
                )
            } else {
                Err(unexpected(UNEXPECTED_FILES, rendering))
            }
        },
        _ => Err(unexpected(UNEXPECTED_FILES, rendering)),
    }
}

/// Whether every one of the first `upto` items is a number.
pub open spec fn all_numbers(items: Seq<JsValue>, upto: int) -> bool {
    forall|i: int| 0 <= i < upto ==> (#[trigger] items[i]) is Number
}

/// The bounding rectangle of the element for `selector`: the bit patterns
/// of the four numbers that the script yielded.
pub fn element_rect(value: &JsValue, rendering: &str, selector: &str) -> (result: Result<
    ElementRect,
    PageError,
>)
    ensures
        match *value {
            JsValue::Array(items) if items@.len() == 4 => if all_numbers(items@, 4) {
                result == Ok::<ElementRect, PageError>(
                    ElementRect {
                        x: items@[0]->Number_0.bits,
                        y: items@[1]->Number_0.bits,
                        width: items@[2]->Number_0.bits,
                        height: items@[3]->Number_0.bits,
                    },
                )
            } else {
                result is Err && result->Err_0@ == PageErrorView::JsError(INVALID_RECT_VALUE@)
            },
            JsValue::Null | JsValue::Undefined => result is Err && result->Err_0@
                == PageErrorView::SelectorNotFound(selector@),
            _ => result is Err && result->Err_0@ == PageErrorView::JsError(
                UNEXPECTED_RECT@ + rendering@,
            ),
        },
{
    match value {
        JsValue::Array(items) => {
            if items.len() == 4 {
                let mut nums: [u64; 4] = [0, 0, 0, 0];
                let mut i: usize = 0;
                while i < 4
                    invariant
                        i <= 4,
                        items@.len() == 4,
                        *value == JsValue::Array(*items),
                        all_numbers(items@, i as int),
                        forall|k: int| 0 <= k < i ==> nums@[k] == (#[trigger] items@[k])->Number_0.bits,
                    decreases 4 - i,
                {
                    match &items[i] {
                        JsValue::Number(n) => {
                            nums[i] = n.bits;
                        },
                        _ => {
                            assert(!(items@[i as int] is Number));
                            return Err(js_error(INVALID_RECT_VALUE));
                        },
                    }
                    i += 1;
                }
                Ok(ElementRect { x: nums[0], y: nums[1], width: nums[2], height: nums[3] })
            } else {
                Err(unexpected(UNEXPECTED_RECT, rendering))
            }
        },
        JsValue::Null => Err(selector_not_found(selector)),
        JsValue::Undefined => Err(selector_not_found(selector)),
        _ => Err(unexpected(UNEXPECTED_RECT, rendering)),
    }
}

/// The text content of the element for `selector`.
pub fn element_text(value: JsValue, rendering: &str, selector: &str) -> (result: Result<
    String,
    PageError,
>)
    ensures
        match value {
            JsValue::String(s) => result == Ok::<String, PageError>(s),
            JsValue::Null | JsValue::Undefined => result is Err && result->Err_0@
                == PageErrorView::SelectorNotFound(selector@),
            _ => result is Err && result->Err_0@ == PageErrorView::JsError(
                UNEXPECTED_TEXT@ + rendering@,
            ),
        },
{
    match value {
        JsValue::String(s) => Ok(s),
        JsValue::Null => Err(selector_not_found(selector)),
        JsValue::Undefined => Err(selector_not_found(selector)),
        _ => Err(unexpected(UNEXPECTED_TEXT, rendering)),
    }
}

/// The value of an attribute of the element for `selector`: `None` where
/// the element is there and the attribute is not.
pub fn element_attribute(value: JsValue, rendering: &str, selector: &str) -> (result: Result<
    Option<String>,
    PageError,
>)
    ensures
        match value {
            JsValue::String(s) => result == Ok::<Option<String>, PageError>(Some(s)),
            JsValue::Null => result == Ok::<Option<String>, PageError>(None),
            JsValue::Undefined => result is Err && result->Err_0@
                == PageErrorView::SelectorNotFound(selector@),
            _ => result is Err && result->Err_0@ == PageErrorView::JsError(
                UNEXPECTED_ATTRIBUTE@ + rendering@,
            ),
        },
{
    match value {
        JsValue::String(s) => Ok(Some(s)),
        JsValue::Null => Ok(None),
        JsValue::Undefined => Err(selector_not_found(selector)),
        _ => Err(unexpected(UNEXPECTED_ATTRIBUTE, rendering)),
    }
}

/// The outer markup of the element for `selector`.
pub fn element_html(value: JsValue, rendering: &str, selector: &str) -> (result: Result<
    String,
    PageError,
>)
    ensures
        match value {
            JsValue::String(s) => result == Ok::<String, PageError>(s),
            JsValue::Null | JsValue::Undefined => result is Err && result->Err_0@
                == PageErrorView::SelectorNotFound(selector@),
            _ => result is Err && result->Err_0@ == PageErrorView::JsError(
                UNEXPECTED_HTML@ + rendering@,
            ),
        },
{
    match value {
        JsValue::String(s) => Ok(s),
        JsValue::Null => Err(selector_not_found(selector)),
        JsValue::Undefined => Err(selector_not_found(selector)),
        _ => Err(unexpected(UNEXPECTED_HTML, rendering)),
    }
}

} // verus!
