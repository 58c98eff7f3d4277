//! Values that a script evaluation yields, and their JSON-shaped text.

use vstd::prelude::*;

verus! {

/// `serde_json::Error`, opaque.
#[verifier::external_type_specification]
#[verifier::external_body]
pub struct ExJsonError(serde_json::Error);

/// The hexadecimal digit, in lower case, of a number below sixteen.
pub open spec fn hex_digit(n: int) -> char {
    if n == 0 {
        '0'
    } else if n == 1 {
        '1'
    } else if n == 2 {
        '2'
    } else if n == 3 {
        '3'
    } else if n == 4 {
        '4'
    } else if n == 5 {
        '5'
    } else if n == 6 {
        '6'
    } else if n == 7 {
        '7'
    } else if n == 8 {
        '8'
    } else if n == 9 {
        '9'
    } else if n == 10 {
        'a'
    } else if n == 11 {
        'b'
    } else if n == 12 {
        'c'
    } else if n == 13 {
        'd'
    } else if n == 14 {
        'e'
    } else {
        'f'
    }
}

/// How one character stands inside a JSON string: the quote and the
/// backslash behind a backslash, the control characters below U+0020 by
/// their short escape where JSON has one and by `\u00xx` otherwise, and
/// every other character as it is.
pub open spec fn escaped_char(c: char) -> Seq<char> {
    let code = c as u32;
    if code == 0x22 {
        seq!['\\', '"']
    } else if code == 0x5C {
        seq!['\\', '\\']
    } else if code == 0x08 {
        seq!['\\', 'b']
    } else if code == 0x09 {
        seq!['\\', 't']
    } else if code == 0x0A {
        seq!['\\', 'n']
    } else if code == 0x0C {
        seq!['\\', 'f']
    } else if code == 0x0D {
        seq!['\\', 'r']
    } else if code < 0x20 {
        seq!['\\', 'u', '0', '0', hex_digit(code as int / 16), hex_digit(code as int % 16)]
    } else {
        seq![c]
    }
}

/// The characters of `s`, each as it stands inside a JSON string.
pub open spec fn escaped(s: Seq<char>) -> Seq<char>
    decreases s.len(),
{
    if s.len() == 0 {
        Seq::empty()
    } else {
        escaped(s.drop_last()) + escaped_char(s.last())
    }
}

/// `s` as a JSON string: escaped, between double quotes.
pub open spec fn json_string(s: Seq<char>) -> Seq<char> {
    seq!['"'] + escaped(s) + seq!['"']
}

/// `true` or `false`.
pub open spec fn json_bool(b: bool) -> Seq<char> {
    if b {
        "true"@
    } else {
        "false"@
    }
}

/// `serde_json::to_string` on a string slice. The serializer writes a double
/// quote, the text with the escapes of its table (`\"`, `\\`, `\b`, `\t`,
/// `\n`, `\f`, `\r`, and `\u00xx` in lower-case hexadecimal for the other
/// bytes below 0x20; no other byte is touched), and a double quote. It
/// writes into a vector in memory, which cannot fail, and a string slice is
/// no map and has no `Serialize` of its own to fail: the result is `Ok`.
#[verifier::external_body]
fn encode_str(s: &str) -> (encoded: Result<String, serde_json::Error>)
    ensures
        encoded is Ok,
        encoded->Ok_0@ == json_string(s@),
{
    serde_json::to_string(s)
}

/// `serde_json::to_string` on a boolean: the serializer writes `true` or
/// `false` into a vector in memory, so the result is `Ok`.
#[verifier::external_body]
fn encode_bool(b: bool) -> (encoded: Result<String, serde_json::Error>)
    ensures
        encoded is Ok,
        encoded->Ok_0@ == json_bool(b),
{
    serde_json::to_string(&b)
}

/// A properly escaped, double-quoted string literal for `s`, fit to stand in
/// a script.
pub fn js_string_literal(s: &str) -> (literal: String)
    ensures
        literal@ == json_string(s@),
{
    match encode_str(s) {
        Ok(text) => text,
        Err(_) => String::from_str("\"").concat(s).concat("\""),
    }
}

/// A number that a script yielded.
#[derive(Debug, Clone)]
pub struct JsNumber {
    /// The IEEE-754 binary64 bit pattern of the number.
    pub bits: u64,
    /// The number as JSON text, as the embedding program rendered it.
    pub text: String,
}

/// Mask of every bit of a binary64 pattern but the sign.
pub const MAGNITUDE_MASK: u64 = 0x7FFF_FFFF_FFFF_FFFF;

/// Two to the power 52: the weight of the hidden bit of a binary64 number.
pub const HIDDEN_BIT: u64 = 0x10_0000_0000_0000;

/// Whether the sign bit of a binary64 pattern is set.
pub open spec fn sign_of(bits: u64) -> bool {
    bits >= 0x8000_0000_0000_0000
}

/// The exponent field of a binary64 pattern: eleven bits, biased by 1023.
pub open spec fn exponent_of(bits: u64) -> int {
    (bits as int / HIDDEN_BIT as int) % 0x800
}

/// The fraction field of a binary64 pattern: its low 52 bits.
pub open spec fn fraction_of(bits: u64) -> int {
    bits as int % HIDDEN_BIT as int
}

/// Whether a binary64 pattern is a NaN.
pub open spec fn is_nan(bits: u64) -> bool {
    exponent_of(bits) == 0x7FF && fraction_of(bits) != 0
}

/// The number with pattern `bits`, cut to a whole number and kept within
/// 32 bits: zero for a NaN, for anything negative and for anything below
/// one; the largest value for anything at or above two to the power 32; and
/// otherwise the whole part, which for an exponent `e` is the 53 significant
/// bits divided by two to the power `52 - e`.
pub open spec fn saturating_u32(bits: u64) -> u32 {
    let e = exponent_of(bits) - 1023;
    if is_nan(bits) || sign_of(bits) || e < 0 {
        0
    } else if e >= 32 {
        u32::MAX
    } else {
        ((HIDDEN_BIT as int + fraction_of(bits)) / vstd::arithmetic::power2::pow2(
            (52 - e) as nat,
        ) as int) as u32
    }
}

impl JsNumber {
    /// Whether the number is a zero, of either sign.
    pub open spec fn is_zero_spec(&self) -> bool {
        self.bits & MAGNITUDE_MASK == 0
    }

    /// Whether the number is a zero, of either sign. A NaN is not.
    #[verifier::when_used_as_spec(is_zero_spec)]
    pub fn is_zero(&self) -> (zero: bool)
        ensures
            zero == self.is_zero_spec(),
    {
        self.bits & MAGNITUDE_MASK == 0
    }

    /// The number as a count of pixels: cut to a whole number and kept
    /// within 32 bits.
    pub fn to_u32(&self) -> (value: u32)
        ensures
            value == saturating_u32(self.bits),
    {
        let bits = self.bits;
        let negative = (bits >> 63) == 1;
        let exponent = (bits >> 52) & 0x7FF;
        let fraction = bits & 0xF_FFFF_FFFF_FFFF;
        proof {
            assert(((bits >> 63) == 1) == (bits >= 0x8000_0000_0000_0000)) by (bit_vector);
            assert((bits >> 52) & 0x7FF == (bits / 0x10_0000_0000_0000) % 0x800) by (bit_vector);
            assert(bits & 0xF_FFFF_FFFF_FFFF == bits % 0x10_0000_0000_0000) by (bit_vector);
            assert(exponent == exponent_of(bits));
            assert(fraction == fraction_of(bits));
        }
        if exponent == 0x7FF && fraction != 0 {
            return 0;
        }
        if negative || exponent < 1023 {
            return 0;
        }
        let e = exponent - 1023;
        if e >= 32 {
            return u32::MAX;
        }
        let significand = 0x10_0000_0000_0000 | fraction;
        let shift = 52 - e;
        let whole = significand >> shift;
        proof {
            assert(fraction < 0x10_0000_0000_0000 ==> (0x10_0000_0000_0000u64 | fraction)
                == 0x10_0000_0000_0000 + fraction) by (bit_vector);
            assert(21 <= shift <= 52 && significand < 0x20_0000_0000_0000 ==> (significand
                >> shift) < 0x1_0000_0000) by (bit_vector);
            vstd::bits::lemma_u64_shr_is_div(significand, shift);
        }
        whole as u32
    }
}

/// A value that a script evaluation yielded.
///
/// An object keeps its entries in the order in which the embedding program
/// walked them. The four kinds of handle carry the renderer's identifier of
/// a thing that cannot leave the renderer.
#[derive(Debug)]
pub enum JsValue {
    Undefined,
    Null,
    Boolean(bool),
    Number(JsNumber),
    String(String),
    Element(String),
    ShadowRoot(String),
    Frame(String),
    Window(String),
    Array(Vec<JsValue>),
    Object(Vec<(String, JsValue)>),
}

/// The placeholder that stands for a handle of kind `kind` with identifier
/// `id`, before it is quoted: `[kind:id]`.
pub open spec fn handle_placeholder(kind: Seq<char>, id: Seq<char>) -> Seq<char> {
    "["@ + kind + ":"@ + id + "]"@
}

/// The JSON-shaped text of a value. `undefined` stands for itself; a handle
/// is the JSON string of its placeholder.
pub open spec fn json_text(value: JsValue) -> Seq<char>
    decreases value,
{
    match value {
        JsValue::Undefined => "undefined"@,
        JsValue::Null => "null"@,
        JsValue::Boolean(b) => json_bool(b),
        JsValue::Number(n) => n.text@,
        JsValue::String(s) => json_string(s@),
        JsValue::Element(id) => json_string(handle_placeholder("Element"@, id@)),
        JsValue::ShadowRoot(id) => json_string(handle_placeholder("ShadowRoot"@, id@)),
        JsValue::Frame(id) => json_string(handle_placeholder("Frame"@, id@)),
        JsValue::Window(id) => json_string(handle_placeholder("Window"@, id@)),
        JsValue::Array(items) => "["@ + joined_items(items@) + "]"@,
        JsValue::Object(entries) => "{"@ + joined_entries(entries@) + "}"@,
    }
}

/// The texts of the items of an array, with a comma between two of them.
pub open spec fn joined_items(items: Seq<JsValue>) -> Seq<char>
    decreases items,
{
    if items.len() == 0 {
        Seq::empty()
    } else if items.len() == 1 {
        json_text(items[0])
    } else {
        joined_items(items.drop_last()) + ","@ + json_text(items.last())
    }
}

/// The text of one entry of an object: the key as a JSON string, a colon,
/// the value.
pub open spec fn entry_text(entry: (String, JsValue)) -> Seq<char>
    decreases entry,
{
    json_string(entry.0@) + ":"@ + json_text(entry.1)
}

/// The texts of the entries of an object, with a comma between two of them.
pub open spec fn joined_entries(entries: Seq<(String, JsValue)>) -> Seq<char>
    decreases entries,
{
    if entries.len() == 0 {
        Seq::empty()
    } else if entries.len() == 1 {
        entry_text(entries[0])
    } else {
        joined_entries(entries.drop_last()) + ","@ + entry_text(entries.last())
    }
}

/// The JSON string of the placeholder of a handle.
fn handle_json(kind: &str, id: &str) -> (text: String)
    ensures
        text@ == json_string(handle_placeholder(kind@, id@)),
{
    let placeholder = String::from_str("[").concat(kind).concat(":").concat(id).concat("]");
    js_string_literal(placeholder.as_str())
}

/// Serializes a value to its JSON-shaped text.
#[verifier::rlimit(50)]
pub fn jsvalue_to_json(value: &JsValue) -> (text: String)
    ensures
        text@ == json_text(*value),
    decreases value,
{
    match value {
        JsValue::Undefined => String::from_str("undefined"),
        JsValue::Null => String::from_str("null"),
        JsValue::Boolean(b) => match encode_bool(*b) {
            Ok(text) => text,
            Err(_) => String::from_str(
                if *b {
                    "true"
                } else {
                    "false"
                },
            ),
        },
        JsValue::Number(n) => n.text.clone(),
        JsValue::String(s) => js_string_literal(s.as_str()),
        JsValue::Element(id) => handle_json("Element", id.as_str()),
        JsValue::ShadowRoot(id) => handle_json("ShadowRoot", id.as_str()),
        JsValue::Frame(id) => handle_json("Frame", id.as_str()),
        JsValue::Window(id) => handle_json("Window", id.as_str()),
        JsValue::Array(items) => {
            let mut out = String::from_str("[");
            let mut i: usize = 0;
            while i < items.len()
                invariant
                    i <= items.len(),
                    out@ == "["@ + joined_items(items@.take(i as int)),
                    *value == JsValue::Array(*items),
                decreases items.len() - i,
            {
                if i > 0 {
                    out.append(",");
                }
                proof {
                    vstd::std_specs::vec::axiom_vec_index_decreases(*items, i as int);
                    assert(value->Array_0 == *items);
                }
                let part = jsvalue_to_json(&items[i]);
                out.append(part.as_str());
                proof {
                    let shorter = items@.take(i as int);
                    let longer = items@.take(i as int + 1);
                    assert(longer.drop_last() =~= shorter);
                    assert(longer.last() == items@[i as int]);
                }
                i += 1;
            }
            assert(items@.take(items.len() as int) =~= items@);
            out.append("]");
            out
        },
        JsValue::Object(entries) => {
            let mut out = String::from_str("{");
            let mut i: usize = 0;
            while i < entries.len()
                invariant
                    i <= entries.len(),
                    out@ == "{"@ + joined_entries(entries@.take(i as int)),
                    *value == JsValue::Object(*entries),
                decreases entries.len() - i,
            {
                if i > 0 {
                    out.append(",");
                }
                let key = js_string_literal(entries[i].0.as_str());
                out.append(key.as_str());
                out.append(":");
                proof {
                    vstd::std_specs::vec::axiom_vec_index_decreases(*entries, i as int);
                    assert(value->Object_0 == *entries);
                }
                let part = jsvalue_to_json(&entries[i].1);
                out.append(part.as_str());
                proof {
                    let shorter = entries@.take(i as int);
                    let longer = entries@.take(i as int + 1);
                    assert(longer.drop_last() =~= shorter);
                    assert(longer.last() == entries@[i as int]);
                    assert(entry_text(entries@[i as int]) == key@ + ":"@ + part@);
                    assert(out@ =~= "{"@ + joined_entries(longer));
                }
                i += 1;
            }
            assert(entries@.take(entries.len() as int) =~= entries@);
            out.append("}");
            out
        },
    }
}

/// Whether a value counts as true for a condition: `true`, a number that is
/// not zero, a string that is not empty, and every array and object.
/// `undefined`, `null`, `false`, zero, the empty string and handles do not.
pub open spec fn truthy(value: JsValue) -> bool {
    match value {
        JsValue::Boolean(b) => b,
        JsValue::Number(n) => !n.is_zero_spec(),
        JsValue::String(s) => s@.len() > 0,
        JsValue::Array(_) => true,
        JsValue::Object(_) => true,
        _ => false,
    }
}

/// Whether a value counts as true for a condition.
pub fn is_truthy(value: &JsValue) -> (truth: bool)
    ensures
        truth == truthy(*value),
{
    match value {
        JsValue::Boolean(b) => *b,
        JsValue::Number(n) => !n.is_zero(),
        JsValue::String(s) => s.as_str().unicode_len() > 0,
        JsValue::Array(_) => true,
        JsValue::Object(_) => true,
        _ => false,
    }
}

} // verus!
