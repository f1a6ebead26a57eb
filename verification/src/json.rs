//! Members of a JSON object, read with `serde_json`.
//!
//! What `serde_json` makes of a document is not restated here. The function
//! below gives it a name, so that the rest of the library can say exactly
//! what it does with it.

use vstd::prelude::*;

verus! {

/// What a JSON object holds under one key, as far as the library reads it.
#[derive(Clone, Debug, PartialEq, Eq)]
pub enum Member {
    /// A string, with its escapes resolved.
    Text(String),
    /// A number, as `serde_json` prints it.
    Number(String),
    /// Null, a boolean, an array or an object.
    Other,
    /// No member of that key, or the document is no object.
    Missing,
}

/// A `Member` with its texts as sequences of characters.
pub enum MemberView {
    Text(Seq<char>),
    Number(Seq<char>),
    Other,
    Missing,
}

impl View for Member {
    type V = MemberView;

    open spec fn view(&self) -> MemberView {
        match *self {
            Member::Text(text) => MemberView::Text(text@),
            Member::Number(text) => MemberView::Number(text@),
            Member::Other => MemberView::Other,
            Member::Missing => MemberView::Missing,
        }
    }
}

/// The view of a member, or the characters of the message in its place.
pub open spec fn member_view(member: Result<Member, String>) -> Result<MemberView, Seq<char>> {
    match member {
        Ok(m) => Ok(m@),
        Err(error) => Err(error@),
    }
}

/// What the JSON document `doc` holds under `key`, or, where `doc` is no
/// JSON document, what `serde_json` says of it.
pub uninterp spec fn json_member(doc: Seq<u8>, key: Seq<char>) -> Result<MemberView, Seq<char>>;

/// Calls `serde_json::from_slice` for a `serde_json::Value` and looks `key`
/// up with `Value::get`. A string is handed on as it is, a number as
/// `Number::to_string` prints it, an error as its `to_string` prints it.
/// Trusted: the result is a function of the document and the key alone.
#[verifier::external_body]
pub(crate) fn member(doc: &[u8], key: &str) -> (r: Result<Member, String>)
    ensures
        member_view(r) == json_member(doc@, key@),
{
    let value = serde_json::from_slice::<serde_json::Value>(doc).map_err(|e| e.to_string())?;
    Ok(match value.get(key) {
        None => Member::Missing,
        Some(serde_json::Value::Null) => Member::Other,
        Some(serde_json::Value::Bool(_)) => Member::Other,
        Some(serde_json::Value::Number(number)) => Member::Number(number.to_string()),
        Some(serde_json::Value::String(text)) => Member::Text(text.clone()),
        Some(serde_json::Value::Array(_)) => Member::Other,
        Some(serde_json::Value::Object(_)) => Member::Other,
    })
}

} // verus!
