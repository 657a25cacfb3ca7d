//! The body of a reply that reports a failure: a JSON object whose one
//! member, `err`, holds the message.

use vstd::prelude::*;

verus! {

/// The text that `serde_json` writes, in compact form, for the JSON object
/// whose only member has the name `key` and the string `value`.
pub uninterp spec fn json_member_text(key: Seq<char>, value: Seq<char>) -> Seq<char>;

/// Whether JSON text can hold the string as it is: it has no quotation
/// mark, no backslash and no control character below U+0020.
pub open spec fn is_plain(s: Seq<char>) -> bool {
    forall|i: int|
        0 <= i < s.len() ==> {
            &&& #[trigger] s[i] != '"'
            &&& s[i] != '\\'
            &&& s[i] as u32 >= 0x20
        }
}

/// `{"key":"value"}`: the object with one string member, nothing escaped.
pub open spec fn plain_member_text(key: Seq<char>, value: Seq<char>) -> Seq<char> {
    seq!['{', '"'] + key + seq!['"', ':', '"'] + value + seq!['"', '}']
}

/// Name of the member that carries the message.
pub open spec fn err_key() -> Seq<char> {
    seq!['e', 'r', 'r']
}

/// The body that reports `message`.
pub open spec fn error_text(message: Seq<char>) -> Seq<char> {
    json_member_text(err_key(), message)
}

/// Puts `key` and `Value::String(value)` into an empty `serde_json::Map`
/// with `Map::insert`, and formats `Value::Object` of that map with
/// `to_string`, that is through the `Display` impl of `serde_json::Value`.
///
/// Trusted, not proved. The result is the text that `serde_json` writes,
/// which this crate only gives a name. One case is stated in full:
/// `Display` without the alternate flag writes the compact form, with no
/// white space, and the only characters that `serde_json` escapes in a
/// string are the quotation mark, the backslash and those below U+0020; so
/// where neither string holds one of these, the text is the two strings as
/// they are between the punctuation.
#[verifier::external_body]
fn json_member(key: &str, value: &str) -> (text: String)
    ensures
        text@ == json_member_text(key@, value@),
        is_plain(key@) && is_plain(value@) ==> text@ == plain_member_text(key@, value@),
{
    let mut members = serde_json::Map::new();
    members.insert(key.to_owned(), serde_json::Value::String(value.to_owned()));
    serde_json::Value::Object(members).to_string()
}

/// Wraps a message as the body of a failure reply.
///
/// The body is the JSON object `{"err": message}` in compact form. Where
/// the message needs no escape, that is the message between `{"err":"` and
/// `"}`.
pub fn construct_error(e_message: &str) -> (body: String)
    ensures
        body@ == error_text(e_message@),
        is_plain(e_message@) ==> body@ == plain_member_text(err_key(), e_message@),
{
    proof {
        reveal_strlit("err");
    }
    assert("err"@ =~= err_key());
    json_member("err", e_message)
}

} // verus!
