//! JSON text: what `serde_json` writes for a string and reads as a number,
//! and the bodies of the requests that carry one.

use crate::text::{decimal, decimal_i64, decimal_u64, digit, digits};
use vstd::prelude::*;
use vstd::string::StringExecFns;

verus! {

/// The error that `serde_json` reports. Nothing is known of what it holds.
#[verifier::external_type_specification]
#[verifier::external_body]
pub struct ExJsonError(serde_json::Error);

/// Whether `serde_json` writes `c` inside a string literal as it is. It does
/// so for every character but the double quote, the backslash and the
/// control characters below U+0020, which it escapes.
pub open spec fn is_written_as_is(c: char) -> bool {
    c != '"' && c != '\\' && c as u32 >= 0x20
}

/// Whether `serde_json` has nothing to escape in `text`.
pub open spec fn needs_no_escape(text: Seq<char>) -> bool {
    forall|i: int| 0 <= i < text.len() ==> is_written_as_is(#[trigger] text[i])
}

/// The JSON string literal that `serde_json::to_string` writes for a `text`
/// in which it has something to escape.
pub uninterp spec fn json_escaped(text: Seq<char>) -> Seq<char>;

/// The JSON string literal that `serde_json::to_string` writes for `text`:
/// the text between double quotes, as it is where nothing in it is to be
/// escaped.
pub open spec fn json_string(text: Seq<char>) -> Seq<char> {
    if needs_no_escape(text) {
        "\""@ + text + "\""@
    } else {
        json_escaped(text)
    }
}

/// A whole number without sign, as JSON writes it: digits, of which the
/// first is `0` only where it is the only one.
pub open spec fn is_whole_number(text: Seq<char>) -> bool {
    &&& text.len() > 0
    &&& forall|i: int| 0 <= i < text.len() ==> '0' <= #[trigger] text[i] <= '9'
    &&& text.len() > 1 ==> text[0] != '0'
}

/// The number that a text of digits stands for in decimal.
pub open spec fn number_value(text: Seq<char>) -> nat
    decreases text.len(),
{
    if text.len() == 0 {
        0
    } else {
        number_value(text.drop_last()) * 10 + (text.last() as u8 - 48) as nat
    }
}

/// The characters that `serde_json` skips as whitespace.
pub open spec fn is_json_space(c: char) -> bool {
    c == ' ' || c == '\n' || c == '\t' || c == '\r'
}

/// What `serde_json::from_str` makes of a text as an optional unsigned
/// number, as far as a glance at the text tells.
pub enum Glance {
    /// The text is rejected.
    Rejected,
    /// The text is `null`.
    Null,
    /// The text is a whole number within the limit, and is read as it.
    Number(nat),
    /// A glance does not tell.
    Unknown,
}

/// What a glance at `text` tells of its reading as an optional unsigned
/// number of at most `limit`. The empty text is rejected, and so is a text
/// whose first character is neither whitespace nor a digit nor the `n` of
/// `null`. The text `null` is read as no number, and a whole number within
/// the limit as that number.
pub open spec fn glance(text: Seq<char>, limit: nat) -> Glance {
    if text.len() == 0 {
        Glance::Rejected
    } else if !is_json_space(text[0]) && text[0] != 'n' && !('0' <= text[0] <= '9') {
        Glance::Rejected
    } else if text == "null"@ {
        Glance::Null
    } else if is_whole_number(text) && number_value(text) <= limit {
        Glance::Number(number_value(text))
    } else {
        Glance::Unknown
    }
}

/// What `serde_json::from_str` reads as an optional `u32` from a `text` of
/// which a glance does not tell, in the form of `json_u32`.
pub uninterp spec fn json_u32_otherwise(text: Seq<char>) -> Option<Option<u32>>;

/// What `serde_json::from_str` reads as an optional `u64` from a `text` of
/// which a glance does not tell, in the form of `json_u64`.
pub uninterp spec fn json_u64_otherwise(text: Seq<char>) -> Option<Option<u64>>;

/// What `serde_json::from_str` reads from `text` as an optional `u32`: `None`
/// where it rejects the text, `Some(None)` for `null`, and `Some(Some(n))` for
/// the number `n`.
pub open spec fn json_u32(text: Seq<char>) -> Option<Option<u32>> {
    match glance(text, u32::MAX as nat) {
        Glance::Rejected => None,
        Glance::Null => Some(None),
        Glance::Number(n) => Some(Some(n as u32)),
        Glance::Unknown => json_u32_otherwise(text),
    }
}

/// What `serde_json::from_str` reads from `text` as an optional `u64`, in the
/// same form as `json_u32`.
pub open spec fn json_u64(text: Seq<char>) -> Option<Option<u64>> {
    match glance(text, u64::MAX as nat) {
        Glance::Rejected => None,
        Glance::Null => Some(None),
        Glance::Number(n) => Some(Some(n as u64)),
        Glance::Unknown => json_u64_otherwise(text),
    }
}

/// The decimal digits that this library writes for a number are a whole
/// number as JSON writes it, and stand for that number.
pub proof fn lemma_digits_are_whole_number(n: nat)
    ensures
        is_whole_number(digits(n)),
        number_value(digits(n)) == n,
        n > 0 ==> digits(n)[0] != '0',
    decreases n,
{
    if n < 10 {
        assert(digits(n) =~= seq![digit(n)]);
        assert(digits(n).drop_last() =~= Seq::<char>::empty());
        assert(number_value(digits(n)) == n) by {
            reveal_with_fuel(number_value, 2);
        }
    } else {
        lemma_digits_are_whole_number(n / 10);
        let head = digits(n / 10);
        let all = head.push(digit(n % 10));
        assert(digits(n) == all);
        assert(all.drop_last() =~= head);
        assert(all[0] == head[0]);
        assert forall|i: int| 0 <= i < all.len() implies '0' <= #[trigger] all[i] <= '9' by {
            if i < head.len() {
                assert(all[i] == head[i]);
            }
        }
    }
}

/// A number that this library writes into a request body reads back, by
/// `serde_json`, as the number that was written.
pub proof fn lemma_written_number_reads_back(n: u64)
    ensures
        json_u64(decimal(n as int)) == Some(Some(n)),
        n <= u32::MAX ==> json_u32(decimal(n as int)) == Some(Some(n as u32)),
{
    lemma_digits_are_whole_number(n as nat);
    reveal_strlit("null");
    let text = digits(n as nat);
    assert('0' <= text[0] <= '9');
    assert("null"@[0] == 'n');
}

/// Whether `r` is the reading `expected`: the value read, or a rejection.
pub open spec fn is_reading<T>(
    r: Result<Option<T>, serde_json::Error>,
    expected: Option<Option<T>>,
) -> bool {
    match r {
        Ok(value) => expected == Some(value),
        Err(_) => expected is None,
    }
}

/// Calls `serde_json::to_string` on a string slice. Writing a string into
/// memory has no way to fail, and the result depends on the text alone. A
/// text without double quote, backslash and control character is copied
/// between two double quotes.
#[verifier::external_body]
fn to_json_string(text: &str) -> (r: Result<String, serde_json::Error>)
    ensures
        r is Ok,
        r->Ok_0@ == if needs_no_escape(text@) {
            "\""@ + text@ + "\""@
        } else {
            json_escaped(text@)
        },
{
    serde_json::to_string(text)
}

/// Calls `serde_json::from_str` for an optional `u32`. The outcome depends on
/// the text alone. An empty text is rejected for want of a value, and so is
/// a text that begins with a character with which neither whitespace nor a
/// number without sign nor `null` begins. The text `null` is read as no
/// number. A text of digits without a leading zero is read as the number
/// that it stands for, where that fits `u32`.
#[verifier::external_body]
pub(crate) fn from_json_u32(text: &str) -> (r: Result<Option<u32>, serde_json::Error>)
    ensures
        is_reading(
            r,
            match glance(text@, u32::MAX as nat) {
                Glance::Rejected => None,
                Glance::Null => Some(None),
                Glance::Number(n) => Some(Some(n as u32)),
                Glance::Unknown => json_u32_otherwise(text@),
            },
        ),
{
    serde_json::from_str::<Option<u32>>(text)
}

/// Calls `serde_json::from_str` for an optional `u64`. The outcome depends on
/// the text alone, and what is said of `from_json_u32` holds of it with
/// `u64` in the place of `u32`.
#[verifier::external_body]
pub(crate) fn from_json_u64(text: &str) -> (r: Result<Option<u64>, serde_json::Error>)
    ensures
        is_reading(
            r,
            match glance(text@, u64::MAX as nat) {
                Glance::Rejected => None,
                Glance::Null => Some(None),
                Glance::Number(n) => Some(Some(n as u64)),
                Glance::Unknown => json_u64_otherwise(text@),
            },
        ),
{
    serde_json::from_str::<Option<u64>>(text)
}

/// The value that `serde_json` read, if it read one: none where it rejected
/// the text, and none where the text was `null`.
pub open spec fn value_read<T>(reading: Result<Option<T>, serde_json::Error>) -> Option<T> {
    match reading {
        Ok(Some(value)) => Some(value),
        _ => None,
    }
}

/// The number that `text` holds as JSON, if it holds one that fits `u32`.
pub open spec fn u32_in(text: Seq<char>) -> Option<u32> {
    match json_u32(text) {
        Some(Some(n)) => Some(n),
        _ => None,
    }
}

/// Writes `text` as a JSON string literal.
pub fn quote(text: &str) -> (r: String)
    ensures
        r@ == json_string(text@),
{
    to_json_string(text).unwrap()
}

/// One member of a JSON object: the key between double quotes, a colon, and
/// the value, which is a JSON text already.
pub open spec fn member(key: Seq<char>, value: Seq<char>) -> Seq<char> {
    "\""@ + key + "\":"@ + value
}

/// The JSON object with one member.
pub open spec fn object1(key: Seq<char>, value: Seq<char>) -> Seq<char> {
    "{"@ + member(key, value) + "}"@
}

/// The JSON object with two members, in this order.
pub open spec fn object2(
    key1: Seq<char>,
    value1: Seq<char>,
    key2: Seq<char>,
    value2: Seq<char>,
) -> Seq<char> {
    "{"@ + member(key1, value1) + ","@ + member(key2, value2) + "}"@
}

/// The JSON object with three members, in this order.
pub open spec fn object3(
    key1: Seq<char>,
    value1: Seq<char>,
    key2: Seq<char>,
    value2: Seq<char>,
    key3: Seq<char>,
    value3: Seq<char>,
) -> Seq<char> {
    "{"@ + member(key1, value1) + ","@ + member(key2, value2) + ","@ + member(key3, value3)
        + "}"@
}

/// Appends one member to `out`.
fn push_member(out: &mut String, key: &str, value: &str)
    ensures
        final(out)@ == old(out)@ + member(key@, value@),
{
    out.append("\"");
    out.append(key);
    out.append("\":");
    out.append(value);
    assert(out@ =~= old(out)@ + member(key@, value@));
}

/// Writes the JSON object with one member. The key is written as it is,
/// and the value is a JSON text already.
pub fn write_object1(key: &str, value: &str) -> (r: String)
    ensures
        r@ == object1(key@, value@),
{
    let mut out = String::from_str("{");
    push_member(&mut out, key, value);
    out.append("}");
    out
}

/// Writes the JSON object with two members. The keys are written as they
/// are, and the values are JSON texts already.
pub fn write_object2(key1: &str, value1: &str, key2: &str, value2: &str) -> (r: String)
    ensures
        r@ == object2(key1@, value1@, key2@, value2@),
{
    let mut out = String::from_str("{");
    push_member(&mut out, key1, value1);
    out.append(",");
    push_member(&mut out, key2, value2);
    out.append("}");
    out
}

/// Writes the JSON object with three members. The keys are written as they
/// are, and the values are JSON texts already.
pub fn write_object3(
    key1: &str,
    value1: &str,
    key2: &str,
    value2: &str,
    key3: &str,
    value3: &str,
) -> (r: String)
    ensures
        r@ == object3(key1@, value1@, key2@, value2@, key3@, value3@),
{
    let mut out = String::from_str("{");
    push_member(&mut out, key1, value1);
    out.append(",");
    push_member(&mut out, key2, value2);
    out.append(",");
    push_member(&mut out, key3, value3);
    out.append("}");
    out
}

/// The body `{"pass":..}`.
pub open spec fn pass_body(pass: Seq<char>) -> Seq<char> {
    object1("pass"@, json_string(pass))
}

/// The body `{"name":..}`.
pub open spec fn name_body(name: Seq<char>) -> Seq<char> {
    object1("name"@, json_string(name))
}

/// The body `{"name":..,"pass":..}`.
pub open spec fn name_pass_body(name: Seq<char>, pass: Seq<char>) -> Seq<char> {
    object2("name"@, json_string(name), "pass"@, json_string(pass))
}

/// The body `{"name":..,"amount":..}`.
pub open spec fn name_amount_body(name: Seq<char>, amount: int) -> Seq<char> {
    object2("name"@, json_string(name), "amount"@, decimal(amount))
}

/// The body `{"name":..,"pass":..,"amount":..}`.
pub open spec fn name_pass_amount_body(name: Seq<char>, pass: Seq<char>, amount: int) -> Seq<
    char,
> {
    object3("name"@, json_string(name), "pass"@, json_string(pass), "amount"@, decimal(amount))
}

/// The text of a time that may be absent: the number, or `null`.
pub open spec fn time_text(time: Option<i64>) -> Seq<char> {
    match time {
        Some(t) => decimal(t as int),
        None => "null"@,
    }
}

/// The body `{"amount":..,"time":..}`.
pub open spec fn amount_time_body(amount: int, time: Option<i64>) -> Seq<char> {
    object2("amount"@, decimal(amount), "time"@, time_text(time))
}

/// Writes the body `{"pass":..}`.
pub fn write_pass_body(pass: &str) -> (r: String)
    ensures
        r@ == pass_body(pass@),
{
    write_object1("pass", quote(pass).as_str())
}

/// Writes the body `{"name":..}`.
pub fn write_name_body(name: &str) -> (r: String)
    ensures
        r@ == name_body(name@),
{
    write_object1("name", quote(name).as_str())
}

/// Writes the body `{"name":..,"pass":..}`.
pub fn write_name_pass_body(name: &str, pass: &str) -> (r: String)
    ensures
        r@ == name_pass_body(name@, pass@),
{
    write_object2("name", quote(name).as_str(), "pass", quote(pass).as_str())
}

/// Writes the body `{"name":..,"amount":..}` for an amount without sign.
pub fn write_name_amount_body(name: &str, amount: u32) -> (r: String)
    ensures
        r@ == name_amount_body(name@, amount as int),
{
    write_object2("name", quote(name).as_str(), "amount", decimal_u64(amount as u64).as_str())
}

/// Writes the body `{"name":..,"amount":..}` for an amount with sign.
pub fn write_name_change_body(name: &str, amount: i64) -> (r: String)
    ensures
        r@ == name_amount_body(name@, amount as int),
{
    write_object2("name", quote(name).as_str(), "amount", decimal_i64(amount).as_str())
}

/// Writes the body `{"name":..,"pass":..,"amount":..}`.
pub fn write_name_pass_amount_body(name: &str, pass: &str, amount: u32) -> (r: String)
    ensures
        r@ == name_pass_amount_body(name@, pass@, amount as int),
{
    write_object3(
        "name",
        quote(name).as_str(),
        "pass",
        quote(pass).as_str(),
        "amount",
        decimal_u64(amount as u64).as_str(),
    )
}

/// Writes the body `{"amount":..,"time":..}`.
pub fn write_amount_time_body(amount: u32, time: Option<i64>) -> (r: String)
    ensures
        r@ == amount_time_body(amount as int, time),
{
    let time = match time {
        Some(t) => decimal_i64(t),
        None => String::from_str("null"),
    };
    write_object2("amount", decimal_u64(amount as u64).as_str(), "time", time.as_str())
}

} // verus!
