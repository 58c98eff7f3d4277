//! The scripts that the page operations evaluate.
//!
//! Whatever the caller supplies (a selector, a value, an attribute name, a
//! cookie, a file name) stands in a script only as a JSON string literal, so
//! it is read as text, never as code.

use vstd::prelude::*;
use crate::types::InputFile;
use crate::value::{js_string_literal, json_string};

verus! {

/// How every script that looks an element up begins: the selector follows, as a string literal.
pub const QUERY_HEAD: &'static str = "(function() { var el = document.querySelector(";

/// Yields the scrollable height of the document.
pub const DOCUMENT_HEIGHT_SCRIPT: &'static str = "Math.max(document.documentElement.scrollHeight, document.body.scrollHeight)";

/// Yields the markup of the whole document.
pub const DOCUMENT_HTML_SCRIPT: &'static str = "document.documentElement.outerHTML";

/// Yields the cookies of the document.
pub const COOKIES_SCRIPT: &'static str = "document.cookie";

/// Expires every cookie of the document.
pub const CLEAR_COOKIES_SCRIPT: &'static str = "(function() {\n            var cookies = document.cookie.split(';');\n            for (var i = 0; i < cookies.length; i++) {\n                var name = cookies[i].split('=')[0].trim();\n                if (name) {\n                    document.cookie = name + '=;expires=Thu, 01 Jan 1970 00:00:00 GMT;path=/';\n                }\n            }\n        })()";

pub const SELECTOR_PRESENT_HEAD: &'static str = "document.querySelector(";

pub const SELECTOR_PRESENT_TAIL: &'static str = ") !== null";

pub const CLICK_TARGET_TAIL: &'static str = "); if (!el) return null; var r = el.getBoundingClientRect(); return [r.left + r.width/2, r.top + r.height/2]; })()";

pub const SCROLL_TO_TAIL: &'static str = "); if (!el) return null; el.scrollIntoView({behavior: 'instant', block: 'center'}); return true; })()";

pub const SELECT_FIND: &'static str = "); if (!el) return 'not_found'; if (el.tagName !== 'SELECT') return 'not_select'; var opt = Array.from(el.options).find(function(o) { return o.value === ";

pub const SELECT_ASSIGN: &'static str = "; }); if (!opt) return 'no_option'; el.value = ";

pub const SELECT_TAIL: &'static str = "; el.dispatchEvent(new Event('input', {bubbles: true})); el.dispatchEvent(new Event('change', {bubbles: true})); return 'ok'; })()";

pub const FILES_HEAD: &'static str = "(function() { var input = document.querySelector(";

pub const FILES_LIST: &'static str = "); if (!input) return 'not_found'; if (input.type !== 'file') return 'not_file'; var dt = new DataTransfer(); var files = [";

pub const FILES_TAIL: &'static str = "]; for (var i = 0; i < files.length; i++) { var f = files[i]; var bytes = Uint8Array.from(atob(f.b64), function(c) { return c.charCodeAt(0); }); dt.items.add(new File([bytes], f.name, {type: f.mime})); } input.files = dt.files; input.dispatchEvent(new Event('change', {bubbles: true})); return 'ok'; })()";

pub const FILE_NAME: &'static str = "{name:";

pub const FILE_MIME: &'static str = ",mime:";

pub const FILE_DATA: &'static str = ",b64:'";

pub const FILE_END: &'static str = "'}";

pub const SET_COOKIE_HEAD: &'static str = "document.cookie = ";

pub const RECT_TAIL: &'static str = "); if (!el) return null; var r = el.getBoundingClientRect(); return [r.x, r.y, r.width, r.height]; })()";

pub const TEXT_TAIL: &'static str = "); if (!el) return null; return el.textContent; })()";

pub const ATTRIBUTE_FIND: &'static str = "); if (!el) return undefined; return el.getAttribute(";

pub const ATTRIBUTE_TAIL: &'static str = "); })()";

pub const HTML_TAIL: &'static str = "); if (!el) return null; return el.outerHTML; })()";

/// What `base64::Engine::encode` of the engine `STANDARD` returns for
/// `data`: its encoding in the alphabet of RFC 4648 with `+` and `/`, padded
/// with `=`.
pub uninterp spec fn base64_standard(data: Seq<u8>) -> Seq<char>;

/// `base64::Engine::encode` on `base64::engine::general_purpose::STANDARD`.
/// It panics only if the encoded length overflows `usize`, which a slice
/// that fits in memory cannot cause.
#[verifier::external_body]
fn base64_encode(data: &Vec<u8>) -> (text: String)
    ensures
        text@ == base64_standard(data@),
{
    base64::Engine::encode(&base64::engine::general_purpose::STANDARD, data)
}

/// Text of `selector_present`.
pub open spec fn selector_present_text(selector: Seq<char>) -> Seq<char> {
    SELECTOR_PRESENT_HEAD@ + json_string(selector) + SELECTOR_PRESENT_TAIL@
}

/// Yields whether some element matches `selector`.
pub fn selector_present(selector: &str) -> (script: String)
    ensures
        script@ == selector_present_text(selector@),
{
    let literal = js_string_literal(selector);
    String::from_str(SELECTOR_PRESENT_HEAD).concat(literal.as_str()).concat(SELECTOR_PRESENT_TAIL)
}

/// A script that looks up `selector` and goes on with `tail`.
pub open spec fn query_text(selector: Seq<char>, tail: Seq<char>) -> Seq<char> {
    QUERY_HEAD@ + json_string(selector) + tail
}

fn query(selector: &str, tail: &str) -> (script: String)
    ensures
        script@ == query_text(selector@, tail@),
{
    let literal = js_string_literal(selector);
    String::from_str(QUERY_HEAD).concat(literal.as_str()).concat(tail)
}

/// Yields the centre of the first element that matches `selector`, as an
/// array of two numbers, or `null` if there is none.
pub fn click_selector(selector: &str) -> (script: String)
    ensures
        script@ == query_text(selector@, CLICK_TARGET_TAIL@),
{
    query(selector, CLICK_TARGET_TAIL)
}

/// Scrolls the first element that matches `selector` into view and yields
/// `true`, or yields `null` if there is none.
pub fn scroll_to_selector(selector: &str) -> (script: String)
    ensures
        script@ == query_text(selector@, SCROLL_TO_TAIL@),
{
    query(selector, SCROLL_TO_TAIL)
}

/// Yields the bounding rectangle of the first element that matches
/// `selector`, as an array of four numbers, or `null`.
pub fn element_rect(selector: &str) -> (script: String)
    ensures
        script@ == query_text(selector@, RECT_TAIL@),
{
    query(selector, RECT_TAIL)
}

/// Yields the text content of the first element that matches `selector`,
/// or `null`.
pub fn element_text(selector: &str) -> (script: String)
    ensures
        script@ == query_text(selector@, TEXT_TAIL@),
{
    query(selector, TEXT_TAIL)
}

/// Yields the outer markup of the first element that matches `selector`,
/// or `null`.
pub fn element_html(selector: &str) -> (script: String)
    ensures
        script@ == query_text(selector@, HTML_TAIL@),
{
    query(selector, HTML_TAIL)
}

/// Text of `element_attribute`.
pub open spec fn element_attribute_text(selector: Seq<char>, attribute: Seq<char>) -> Seq<char> {
    QUERY_HEAD@ + json_string(selector) + ATTRIBUTE_FIND@ + json_string(attribute)
        + ATTRIBUTE_TAIL@
}

/// Yields the value of `attribute` on the first element that matches
/// `selector`: a string, `null` where the element lacks the attribute,
/// `undefined` where there is no element.
pub fn element_attribute(selector: &str, attribute: &str) -> (script: String)
    ensures
        script@ == element_attribute_text(selector@, attribute@),
{
    let esc_sel = js_string_literal(selector);
    let esc_attr = js_string_literal(attribute);
    String::from_str(QUERY_HEAD).concat(esc_sel.as_str()).concat(ATTRIBUTE_FIND).concat(
        esc_attr.as_str(),
    ).concat(ATTRIBUTE_TAIL)
}

/// Text of `select_option`.
pub open spec fn select_option_text(selector: Seq<char>, value: Seq<char>) -> Seq<char> {
    QUERY_HEAD@ + json_string(selector) + SELECT_FIND@ + json_string(value) + SELECT_ASSIGN@
        + json_string(value) + SELECT_TAIL@
}

/// Selects the option with value `value` in the `<select>` that matches
/// `selector`, and yields `'ok'`, `'not_found'`, `'not_select'` or
/// `'no_option'`.
pub fn select_option(selector: &str, value: &str) -> (script: String)
    ensures
        script@ == select_option_text(selector@, value@),
{
    let esc_sel = js_string_literal(selector);
    let esc_val = js_string_literal(value);
    String::from_str(QUERY_HEAD).concat(esc_sel.as_str()).concat(SELECT_FIND).concat(
        esc_val.as_str(),
    ).concat(SELECT_ASSIGN).concat(esc_val.as_str()).concat(SELECT_TAIL)
}

/// Text of `set_cookie`.
pub open spec fn set_cookie_text(cookie: Seq<char>) -> Seq<char> {
    SET_COOKIE_HEAD@ + json_string(cookie)
}

/// Sets a cookie on the document.
pub fn set_cookie(cookie: &str) -> (script: String)
    ensures
        script@ == set_cookie_text(cookie@),
{
    let literal = js_string_literal(cookie);
    String::from_str(SET_COOKIE_HEAD).concat(literal.as_str())
}

/// One file as an object literal: name and MIME type as string literals,
/// the contents in base64 between single quotes.
pub open spec fn file_entry_text(file: InputFile) -> Seq<char> {
    FILE_NAME@ + json_string(file.name@) + FILE_MIME@ + json_string(file.mime_type@) + FILE_DATA@
        + base64_standard(file.data@) + FILE_END@
}

/// The object literals of `files`, with a comma between two of them.
pub open spec fn joined_files(files: Seq<InputFile>) -> Seq<char>
    decreases files.len(),
{
    if files.len() == 0 {
        Seq::empty()
    } else if files.len() == 1 {
        file_entry_text(files[0])
    } else {
        joined_files(files.drop_last()) + ","@ + file_entry_text(files.last())
    }
}

/// Text of `set_input_files`.
pub open spec fn set_input_files_text(selector: Seq<char>, files: Seq<InputFile>) -> Seq<char> {
    FILES_HEAD@ + json_string(selector) + FILES_LIST@ + joined_files(files) + FILES_TAIL@
}

fn file_entry(file: &InputFile) -> (entry: String)
    ensures
        entry@ == file_entry_text(*file),
{
    let b64 = base64_encode(&file.data);
    let esc_name = js_string_literal(file.name.as_str());
    let esc_mime = js_string_literal(file.mime_type.as_str());
    String::from_str(FILE_NAME).concat(esc_name.as_str()).concat(FILE_MIME).concat(
        esc_mime.as_str(),
    ).concat(FILE_DATA).concat(b64.as_str()).concat(FILE_END)
}

/// Puts `files` on the file input that matches `selector` and yields
/// `'ok'`, `'not_found'` or `'not_file'`.
pub fn set_input_files(selector: &str, files: &Vec<InputFile>) -> (script: String)
    ensures
        script@ == set_input_files_text(selector@, files@),
{
    let esc_sel = js_string_literal(selector);
    let mut script = String::from_str(FILES_HEAD).concat(esc_sel.as_str()).concat(FILES_LIST);
    let mut i: usize = 0;
    while i < files.len()
        invariant
            i <= files.len(),
            script@ == FILES_HEAD@ + json_string(selector@) + FILES_LIST@ + joined_files(
                files@.take(i as int),
            ),
        decreases files.len() - i,
    {
        if i > 0 {
            script.append(",");
        }
        let entry = file_entry(&files[i]);
        script.append(entry.as_str());
        proof {
            let shorter = files@.take(i as int);
            let longer = files@.take(i as int + 1);
            assert(longer.drop_last() =~= shorter);
            assert(longer.last() == files@[i as int]);
            assert(script@ =~= FILES_HEAD@ + json_string(selector@) + FILES_LIST@ + joined_files(
                longer,
            ));
        }
        i += 1;
    }
    assert(files@.take(files.len() as int) =~= files@);
    script.append(FILES_TAIL);
    script
}

} // verus!
