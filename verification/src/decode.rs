//! Reading JSON text: the members of an object, and the scalars in them.
//!
//! `serde_json` does the parsing. An object is taken apart one level at a
//! time: its members come out as texts, and each text is read as what the
//! field that bears its key is meant to hold.

use crate::text::text_eq;
use std::collections::BTreeMap;
use vstd::prelude::*;

verus! {

/// The members of the JSON object that a text holds, each as its key and
/// the text of its value; `None` where the text is no JSON object.
pub uninterp spec fn json_object_members(text: Seq<char>) -> Option<Seq<(Seq<char>, Seq<char>)>>;

/// The text that a JSON string stands for; `None` where the text is no JSON
/// string.
pub uninterp spec fn json_text_value(literal: Seq<char>) -> Option<Seq<char>>;

/// The integer that a JSON number stands for; `None` where the text is no
/// JSON number, or is one that no `i64` holds.
pub uninterp spec fn json_integer_value(literal: Seq<char>) -> Option<i64>;

/// Calls `serde_json::from_str` for a map from keys to raw values, and hands
/// each raw value out as the text it is, which is the value as it stands in
/// the input without the white space round it. The result is taken to be a
/// function of the text alone.
#[verifier::external_body]
fn parse_members(text: &str) -> (members: Option<Vec<(String, String)>>)
    ensures
        members.deep_view() == json_object_members(text@),
{
    serde_json::from_str::<BTreeMap<String, Box<serde_json::value::RawValue>>>(text).ok().map(
        |members|
            members.into_iter().map(
                |(key, value)| (key, Box::<str>::from(value).into_string()),
            ).collect(),
    )
}

/// Calls `serde_json::from_str` for a `String`. The result is taken to be a
/// function of the text alone.
#[verifier::external_body]
fn parse_text(literal: &str) -> (value: Option<String>)
    ensures
        value.deep_view() == json_text_value(literal@),
{
    serde_json::from_str::<String>(literal).ok()
}

/// Calls `serde_json::from_str` for an `i64`. The result is taken to be a
/// function of the text alone.
#[verifier::external_body]
fn parse_integer(literal: &str) -> (value: Option<i64>)
    ensures
        value == json_integer_value(literal@),
{
    serde_json::from_str::<i64>(literal).ok()
}

/// The text of the first member that bears a key.
pub open spec fn member_value(members: Seq<(Seq<char>, Seq<char>)>, key: Seq<char>) -> Option<
    Seq<char>,
>
    decreases members.len(),
{
    if members.len() == 0 {
        None
    } else if members[0].0 == key {
        Some(members[0].1)
    } else {
        member_value(members.drop_first(), key)
    }
}

/// Whether a member's text is JSON's `null`.
pub open spec fn is_null(literal: Seq<char>) -> bool {
    literal == "null"@
}

/// The complaint about a text that is no JSON object.
pub open spec fn not_an_object() -> Seq<char> {
    "expected a JSON object"@
}

/// The complaint about a member that has to be there and is not.
pub open spec fn missing_field(key: Seq<char>) -> Seq<char> {
    "missing field `"@ + key + "`"@
}

/// The complaint about a member that holds what its field cannot take.
pub open spec fn invalid_field(key: Seq<char>) -> Seq<char> {
    "invalid value of field `"@ + key + "`"@
}

/// A member's text read as a text.
pub open spec fn as_text(key: Seq<char>, literal: Seq<char>) -> Result<Seq<char>, Seq<char>> {
    match json_text_value(literal) {
        Some(text) => Ok(text),
        None => Err(invalid_field(key)),
    }
}

/// A member's text read as an integer.
pub open spec fn as_integer(key: Seq<char>, literal: Seq<char>) -> Result<i64, Seq<char>> {
    match json_integer_value(literal) {
        Some(n) => Ok(n),
        None => Err(invalid_field(key)),
    }
}

/// A member's text read as a truth value.
pub open spec fn as_flag(key: Seq<char>, literal: Seq<char>) -> Result<bool, Seq<char>> {
    if literal == "true"@ {
        Ok(true)
    } else if literal == "false"@ {
        Ok(false)
    } else {
        Err(invalid_field(key))
    }
}

/// A text that has to be there.
pub open spec fn required_text(members: Seq<(Seq<char>, Seq<char>)>, key: Seq<char>) -> Result<
    Seq<char>,
    Seq<char>,
> {
    match member_value(members, key) {
        Some(literal) => as_text(key, literal),
        None => Err(missing_field(key)),
    }
}

/// A text whose member has to be there and may hold `null`.
pub open spec fn nullable_text(members: Seq<(Seq<char>, Seq<char>)>, key: Seq<char>) -> Result<
    Option<Seq<char>>,
    Seq<char>,
> {
    match member_value(members, key) {
        Some(literal) => if is_null(literal) {
            Ok(None)
        } else {
            match as_text(key, literal) {
                Ok(text) => Ok(Some(text)),
                Err(complaint) => Err(complaint),
            }
        },
        None => Err(missing_field(key)),
    }
}

/// A text whose member may be missing or hold `null`.
pub open spec fn optional_text(members: Seq<(Seq<char>, Seq<char>)>, key: Seq<char>) -> Result<
    Option<Seq<char>>,
    Seq<char>,
> {
    match member_value(members, key) {
        Some(literal) => if is_null(literal) {
            Ok(None)
        } else {
            match as_text(key, literal) {
                Ok(text) => Ok(Some(text)),
                Err(complaint) => Err(complaint),
            }
        },
        None => Ok(None),
    }
}

/// An integer that has to be there.
pub open spec fn required_integer(members: Seq<(Seq<char>, Seq<char>)>, key: Seq<char>) -> Result<
    i64,
    Seq<char>,
> {
    match member_value(members, key) {
        Some(literal) => as_integer(key, literal),
        None => Err(missing_field(key)),
    }
}

/// An integer whose member may be missing or hold `null`.
pub open spec fn optional_integer(members: Seq<(Seq<char>, Seq<char>)>, key: Seq<char>) -> Result<
    Option<i64>,
    Seq<char>,
> {
    match member_value(members, key) {
        Some(literal) => if is_null(literal) {
            Ok(None)
        } else {
            match as_integer(key, literal) {
                Ok(n) => Ok(Some(n)),
                Err(complaint) => Err(complaint),
            }
        },
        None => Ok(None),
    }
}

/// A truth value that has to be there.
pub open spec fn required_flag(members: Seq<(Seq<char>, Seq<char>)>, key: Seq<char>) -> Result<
    bool,
    Seq<char>,
> {
    match member_value(members, key) {
        Some(literal) => as_flag(key, literal),
        None => Err(missing_field(key)),
    }
}

/// The text of a member that may be missing or hold `null`, whatever else
/// it holds.
pub open spec fn optional_raw(members: Seq<(Seq<char>, Seq<char>)>, key: Seq<char>) -> Option<
    Seq<char>,
> {
    match member_value(members, key) {
        Some(literal) => if is_null(literal) {
            None
        } else {
            Some(literal)
        },
        None => None,
    }
}

/// Whether what was read carries what a model of it says.
pub open spec fn reads<T>(read: Result<T, String>, model: Result<T, Seq<char>>) -> bool {
    match model {
        Ok(value) => read == Ok::<T, String>(value),
        Err(complaint) => read matches Err(c) && c@ == complaint,
    }
}

/// Whether a text that was read carries what a model of it says.
pub open spec fn reads_text(read: Result<String, String>, model: Result<Seq<char>, Seq<char>>) -> bool {
    match model {
        Ok(text) => read matches Ok(t) && t@ == text,
        Err(complaint) => read matches Err(c) && c@ == complaint,
    }
}

/// Whether an optional text that was read carries what a model of it says.
pub open spec fn reads_optional_text(
    read: Result<Option<String>, String>,
    model: Result<Option<Seq<char>>, Seq<char>>,
) -> bool {
    match model {
        Ok(text) => read matches Ok(t) && t.deep_view() == text,
        Err(complaint) => read matches Err(c) && c@ == complaint,
    }
}

/// A JSON object taken apart into its members.
pub struct JsonObject {
    members: Vec<(String, String)>,
}

impl View for JsonObject {
    type V = Seq<(Seq<char>, Seq<char>)>;

    closed spec fn view(&self) -> Seq<(Seq<char>, Seq<char>)> {
        self.members.deep_view()
    }
}

/// Writes the complaint about a member that is missing.
fn complain_missing(key: &str) -> (complaint: String)
    ensures
        complaint@ == missing_field(key@),
{
    let mut complaint = "missing field `".to_owned();
    complaint.append(key);
    complaint.append("`");
    complaint
}

/// Writes the complaint about a member of the wrong kind.
fn complain_invalid(key: &str) -> (complaint: String)
    ensures
        complaint@ == invalid_field(key@),
{
    let mut complaint = "invalid value of field `".to_owned();
    complaint.append(key);
    complaint.append("`");
    complaint
}

/// Reads a member's text as a text.
fn read_text(key: &str, literal: &str) -> (read: Result<String, String>)
    ensures
        reads_text(read, as_text(key@, literal@)),
{
    match parse_text(literal) {
        Some(text) => Ok(text),
        None => Err(complain_invalid(key)),
    }
}

/// Reads a member's text as an integer.
fn read_integer(key: &str, literal: &str) -> (read: Result<i64, String>)
    ensures
        reads(read, as_integer(key@, literal@)),
{
    match parse_integer(literal) {
        Some(n) => Ok(n),
        None => Err(complain_invalid(key)),
    }
}

impl JsonObject {
    /// Takes the object apart that a text holds.
    pub fn parse(text: &str) -> (object: Option<JsonObject>)
        ensures
            match json_object_members(text@) {
                Some(members) => object matches Some(o) && o@ == members,
                None => object is None,
            },
    {
        match parse_members(text) {
            Some(members) => Some(JsonObject { members }),
            None => None,
        }
    }

    /// Makes an object of members that are already apart.
    pub fn from_members(members: Vec<(String, String)>) -> (object: JsonObject)
        ensures
            object@ == members.deep_view(),
    {
        JsonObject { members }
    }

    /// The text of the first member that bears a key.
    pub fn member(&self, key: &str) -> (literal: Option<&str>)
        ensures
            match member_value(self@, key@) {
                Some(text) => literal matches Some(l) && l@ == text,
                None => literal is None,
            },
    {
        let ghost all = self.members.deep_view();
        let mut i: usize = 0;
        proof {
            assert(all.skip(0) =~= all);
        }
        while i < self.members.len()
            invariant
                i <= self.members@.len(),
                all == self.members.deep_view(),
                member_value(all, key@) == member_value(all.skip(i as int), key@),
            decreases self.members@.len() - i,
        {
            proof {
                assert(all.skip(i as int).drop_first() =~= all.skip(i + 1));
            }
            if text_eq(self.members[i].0.as_str(), key) {
                return Some(self.members[i].1.as_str());
            }
            i = i + 1;
        }
        None
    }

    /// Reads a text that has to be there.
    pub fn required_text(&self, key: &str) -> (read: Result<String, String>)
        ensures
            reads_text(read, required_text(self@, key@)),
    {
        match self.member(key) {
            Some(literal) => read_text(key, literal),
            None => Err(complain_missing(key)),
        }
    }

    /// Reads a text whose member has to be there and may hold `null`.
    pub fn nullable_text(&self, key: &str) -> (read: Result<Option<String>, String>)
        ensures
            reads_optional_text(read, nullable_text(self@, key@)),
    {
        match self.member(key) {
            Some(literal) => {
                if text_eq(literal, "null") {
                    Ok(None)
                } else {
                    match read_text(key, literal) {
                        Ok(text) => Ok(Some(text)),
                        Err(complaint) => Err(complaint),
                    }
                }
            },
            None => Err(complain_missing(key)),
        }
    }

    /// Reads a text whose member may be missing or hold `null`.
    pub fn optional_text(&self, key: &str) -> (read: Result<Option<String>, String>)
        ensures
            reads_optional_text(read, optional_text(self@, key@)),
    {
        match self.member(key) {
            Some(literal) => {
                if text_eq(literal, "null") {
                    Ok(None)
                } else {
                    match read_text(key, literal) {
                        Ok(text) => Ok(Some(text)),
                        Err(complaint) => Err(complaint),
                    }
                }
            },
            None => Ok(None),
        }
    }

    /// Reads an integer that has to be there.
    pub fn required_integer(&self, key: &str) -> (read: Result<i64, String>)
        ensures
            reads(read, required_integer(self@, key@)),
    {
        match self.member(key) {
            Some(literal) => read_integer(key, literal),
            None => Err(complain_missing(key)),
        }
    }

    /// Reads an integer whose member may be missing or hold `null`.
    pub fn optional_integer(&self, key: &str) -> (read: Result<Option<i64>, String>)
        ensures
            reads(read, optional_integer(self@, key@)),
    {
        match self.member(key) {
            Some(literal) => {
                if text_eq(literal, "null") {
                    Ok(None)
                } else {
                    match read_integer(key, literal) {
                        Ok(n) => Ok(Some(n)),
                        Err(complaint) => Err(complaint),
                    }
                }
            },
            None => Ok(None),
        }
    }

    /// Reads a truth value that has to be there.
    pub fn required_flag(&self, key: &str) -> (read: Result<bool, String>)
        ensures
            reads(read, required_flag(self@, key@)),
    {
        match self.member(key) {
            Some(literal) => {
                if text_eq(literal, "true") {
                    Ok(true)
                } else if text_eq(literal, "false") {
                    Ok(false)
                } else {
                    Err(complain_invalid(key))
                }
            },
            None => Err(complain_missing(key)),
        }
    }

    /// Hands out the text of a member that may be missing or hold `null`.
    pub fn optional_raw(&self, key: &str) -> (literal: Option<String>)
        ensures
            literal.deep_view() == optional_raw(self@, key@),
    {
        match self.member(key) {
            Some(literal) => {
                if text_eq(literal, "null") {
                    None
                } else {
                    Some(literal.to_owned())
                }
            },
            None => None,
        }
    }
}

} // verus!
