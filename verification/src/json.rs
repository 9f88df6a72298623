//! Writing JSON text: scalars, and the comma-separated lists that objects
//! and arrays are made of.
//!
//! Strings are quoted and escaped by `serde_json`; everything else is
//! written here. Members keep the order in which they are added, and a
//! member without a value is left out, never written as `null`.

use crate::error::ArgumentFault;
use vstd::prelude::*;

verus! {

/// What `serde_json` writes for a text: the text between double quotes,
/// escaped as JSON requires; `None` where it reports a failure.
pub uninterp spec fn json_string_literal(text: Seq<char>) -> Option<Seq<char>>;

/// Calls `serde_json::to_string` on a text, and drops the error's content
/// where it fails. The result is taken to be a function of the text alone.
#[verifier::external_body]
fn quote_text(text: &str) -> (literal: Option<String>)
    ensures
        literal.deep_view() == json_string_literal(text@),
{
    serde_json::to_string(text).ok()
}

/// A JSON value in its written form, or the reason why it cannot be written.
pub type Rendered = Result<Seq<char>, ArgumentFault>;

/// The ten decimal digits, in order of value.
pub const DECIMAL_DIGITS: &'static str = "0123456789";

/// The decimal digits of a natural number, without leading zeros.
pub open spec fn decimal_digits(n: nat) -> Seq<char>
    decreases n,
{
    if n < 10 {
        seq![DECIMAL_DIGITS@[n as int]]
    } else {
        decimal_digits(n / 10).push(DECIMAL_DIGITS@[(n % 10) as int])
    }
}

/// The decimal text of an integer: its digits, behind a minus sign where it
/// is negative.
pub open spec fn decimal_text(n: int) -> Seq<char> {
    if n < 0 {
        "-"@ + decimal_digits((-n) as nat)
    } else {
        decimal_digits(n as nat)
    }
}

/// The written form of a truth value.
pub open spec fn flag_text(flag: bool) -> Seq<char> {
    if flag {
        "true"@
    } else {
        "false"@
    }
}

/// Whether a byte is an ASCII decimal digit.
pub open spec fn is_digit(byte: u8) -> bool {
    0x30 <= byte <= 0x39
}

/// Where the run of digits that starts at `from` ends.
pub open spec fn digits_end(bytes: Seq<u8>, from: int) -> int
    decreases bytes.len() - from,
{
    if 0 <= from < bytes.len() && is_digit(bytes[from]) {
        digits_end(bytes, from + 1)
    } else {
        from
    }
}

/// Where the number's digits start: behind a leading minus sign, if any.
pub open spec fn after_sign(bytes: Seq<u8>) -> int {
    if bytes.len() > 0 && bytes[0] == 0x2d {
        1
    } else {
        0
    }
}

/// Where the integer part that starts at `at` ends: a lone zero, or a run
/// of digits that does not start with zero. `None` where no digit stands.
pub open spec fn after_integer(bytes: Seq<u8>, at: int) -> Option<int> {
    if 0 <= at < bytes.len() && bytes[at] == 0x30 {
        Some(at + 1)
    } else if 0 <= at < bytes.len() && is_digit(bytes[at]) {
        Some(digits_end(bytes, at))
    } else {
        None
    }
}

/// Where the fraction that may start at `at` ends: a point and at least one
/// digit. `None` where a point stands without a digit behind it.
pub open spec fn after_fraction(bytes: Seq<u8>, at: int) -> Option<int> {
    if 0 <= at < bytes.len() && bytes[at] == 0x2e {
        if at + 1 < bytes.len() && is_digit(bytes[at + 1]) {
            Some(digits_end(bytes, at + 1))
        } else {
            None
        }
    } else {
        Some(at)
    }
}

/// Where the exponent that may start at `at` ends: `e` or `E`, an optional
/// sign, and at least one digit. `None` where the digits are missing.
pub open spec fn after_exponent(bytes: Seq<u8>, at: int) -> Option<int> {
    if 0 <= at < bytes.len() && (bytes[at] == 0x65 || bytes[at] == 0x45) {
        let digits = if at + 1 < bytes.len() && (bytes[at + 1] == 0x2b || bytes[at + 1] == 0x2d) {
            at + 2
        } else {
            at + 1
        };
        if digits < bytes.len() && is_digit(bytes[digits]) {
            Some(digits_end(bytes, digits))
        } else {
            None
        }
    } else {
        Some(at)
    }
}

/// Whether the bytes are a JSON number and nothing else: an optional minus
/// sign, an integer part, an optional fraction, an optional exponent.
pub open spec fn is_json_number(bytes: Seq<u8>) -> bool {
    match after_integer(bytes, after_sign(bytes)) {
        Some(integer_end) => match after_fraction(bytes, integer_end) {
            Some(fraction_end) => match after_exponent(bytes, fraction_end) {
                Some(end) => end == bytes.len(),
                None => false,
            },
            None => false,
        },
        None => false,
    }
}

/// A text as a JSON string.
pub open spec fn text_value(text: Seq<char>) -> Rendered {
    match json_string_literal(text) {
        Some(literal) => Ok(literal),
        None => Err(ArgumentFault::UnencodableText),
    }
}

/// An integer as a JSON number.
pub open spec fn integer_value(n: int) -> Rendered {
    Ok(decimal_text(n))
}

/// A truth value as a JSON literal.
pub open spec fn flag_value(flag: bool) -> Rendered {
    Ok(flag_text(flag))
}

/// A decimal text as a JSON number: the text itself, if it is one.
pub open spec fn number_value(text: Seq<char>) -> Rendered {
    if is_json_number(vstd::utf8::encode_utf8(text)) {
        Ok(text)
    } else {
        Err(ArgumentFault::MalformedNumber)
    }
}

/// A member of an object as it is written: the key between quotes, a colon,
/// the value.
pub open spec fn member_text(key: Seq<char>, value: Seq<char>) -> Seq<char> {
    "\""@ + key + "\":"@ + value
}

/// The parts of a list, separated by commas.
pub open spec fn joined(parts: Seq<Seq<char>>) -> Seq<char>
    decreases parts.len(),
{
    if parts.len() == 0 {
        Seq::empty()
    } else if parts.len() == 1 {
        parts[0]
    } else {
        joined(parts.drop_last()) + ","@ + parts.last()
    }
}

/// Appends the digit of `value` to `text`.
fn push_decimal_digit(text: &mut String, value: u64)
    requires
        value < 10,
    ensures
        final(text)@ == old(text)@.push(DECIMAL_DIGITS@[value as int]),
{
    proof {
        reveal_strlit("0123456789");
    }
    let start: usize = value as usize;
    let digit = DECIMAL_DIGITS.substring_ascii(start, start + 1);
    text.append(digit);
}

/// Appends the decimal digits of `n` to `text`.
fn push_decimal_digits(text: &mut String, n: u64)
    ensures
        final(text)@ == old(text)@ + decimal_digits(n as nat),
    decreases n,
{
    if n >= 10 {
        push_decimal_digits(text, n / 10);
    }
    push_decimal_digit(text, n % 10);
}

/// Writes an integer in decimal.
pub fn decimal_string(n: i64) -> (text: String)
    ensures
        text@ == decimal_text(n as int),
{
    let mut text = String::new();
    if n < 0 {
        text.append("-");
        let magnitude: u64 = ((-(n + 1)) as u64) + 1;
        push_decimal_digits(&mut text, magnitude);
    } else {
        push_decimal_digits(&mut text, n as u64);
    }
    text
}

/// Finds where the run of digits that starts at `from` ends.
fn skip_digits(bytes: &[u8], from: usize) -> (end: usize)
    requires
        from <= bytes@.len(),
    ensures
        end == digits_end(bytes@, from as int),
        from <= end <= bytes@.len(),
{
    let mut end = from;
    while end < bytes.len() && 0x30 <= bytes[end] && bytes[end] <= 0x39
        invariant
            from <= end <= bytes@.len(),
            digits_end(bytes@, from as int) == digits_end(bytes@, end as int),
        decreases bytes@.len() - end,
    {
        end = end + 1;
    }
    end
}

/// Whether a text is a JSON number and nothing else.
pub fn is_number_literal(text: &str) -> (valid: bool)
    ensures
        valid == is_json_number(vstd::utf8::encode_utf8(text@)),
{
    let bytes = text.as_bytes();
    let len = bytes.len();
    let mut at: usize = 0;
    if len > 0 && bytes[0] == 0x2d {
        at = 1;
    }
    if at >= len {
        return false;
    }
    if bytes[at] == 0x30 {
        at = at + 1;
    } else if 0x30 <= bytes[at] && bytes[at] <= 0x39 {
        at = skip_digits(bytes, at);
    } else {
        return false;
    }
    if at < len && bytes[at] == 0x2e {
        if at + 1 < len && 0x30 <= bytes[at + 1] && bytes[at + 1] <= 0x39 {
            at = skip_digits(bytes, at + 1);
        } else {
            return false;
        }
    }
    if at < len && (bytes[at] == 0x65 || bytes[at] == 0x45) {
        let mut digits = at + 1;
        if digits < len && (bytes[digits] == 0x2b || bytes[digits] == 0x2d) {
            digits = digits + 1;
        }
        if digits < len && 0x30 <= bytes[digits] && bytes[digits] <= 0x39 {
            at = skip_digits(bytes, digits);
        } else {
            return false;
        }
    }
    at == len
}

/// The mathematical content of a [`JsonDraft`]: the parts written so far,
/// and the first fault met, after which nothing more is written.
pub struct DraftModel {
    pub parts: Seq<Seq<char>>,
    pub fault: Option<ArgumentFault>,
}

impl DraftModel {
    /// The draft without parts.
    pub open spec fn empty() -> DraftModel {
        DraftModel { parts: Seq::empty(), fault: None }
    }

    /// The draft with one more part. A part that is absent changes
    /// nothing; one that cannot be written becomes the draft's fault; and a
    /// draft that has a fault stays as it is.
    pub open spec fn part(self, piece: Option<Rendered>) -> DraftModel {
        if self.fault is Some {
            self
        } else {
            match piece {
                None => self,
                Some(Ok(text)) => DraftModel { parts: self.parts.push(text), fault: None },
                Some(Err(fault)) => DraftModel { parts: self.parts, fault: Some(fault) },
            }
        }
    }

    /// The draft with one more member, given the member's value.
    pub open spec fn member(self, key: Seq<char>, value: Option<Rendered>) -> DraftModel {
        self.part(
            match value {
                None => None,
                Some(Ok(text)) => Some(Ok(member_text(key, text))),
                Some(Err(fault)) => Some(Err(fault)),
            },
        )
    }

    /// The draft with one more member that holds a text.
    pub open spec fn text(self, key: Seq<char>, value: Option<Seq<char>>) -> DraftModel {
        self.member(
            key,
            match value {
                Some(text) => Some(text_value(text)),
                None => None,
            },
        )
    }

    /// The draft with one more member that holds an integer.
    pub open spec fn integer(self, key: Seq<char>, value: Option<i64>) -> DraftModel {
        self.member(
            key,
            match value {
                Some(n) => Some(integer_value(n as int)),
                None => None,
            },
        )
    }

    /// The draft with one more member that holds a truth value.
    pub open spec fn flag(self, key: Seq<char>, value: Option<bool>) -> DraftModel {
        self.member(
            key,
            match value {
                Some(flag) => Some(flag_value(flag)),
                None => None,
            },
        )
    }

    /// The draft with one more member that holds a number given as text.
    pub open spec fn number(self, key: Seq<char>, value: Option<Seq<char>>) -> DraftModel {
        self.member(
            key,
            match value {
                Some(text) => Some(number_value(text)),
                None => None,
            },
        )
    }

    /// The draft as an object.
    pub open spec fn object(self) -> Rendered {
        match self.fault {
            Some(fault) => Err(fault),
            None => Ok("{"@ + joined(self.parts) + "}"@),
        }
    }

    /// The draft as an array.
    pub open spec fn array(self) -> Rendered {
        match self.fault {
            Some(fault) => Err(fault),
            None => Ok("["@ + joined(self.parts) + "]"@),
        }
    }
}

/// Whether a written value carries what a model of it says.
pub open spec fn renders(written: Result<String, ArgumentFault>, model: Rendered) -> bool {
    match model {
        Ok(text) => written matches Ok(w) && w@ == text,
        Err(fault) => written == Err::<String, ArgumentFault>(fault),
    }
}

/// The model of an optional written value.
pub open spec fn rendered_view(written: Option<Result<String, ArgumentFault>>) -> Option<Rendered> {
    match written {
        None => None,
        Some(Ok(text)) => Some(Ok(text@)),
        Some(Err(fault)) => Some(Err(fault)),
    }
}

/// A comma-separated list in the writing: the members of an object, or the
/// items of an array. It remembers the first fault and then writes no more.
pub struct JsonDraft {
    text: String,
    started: bool,
    fault: Option<ArgumentFault>,
    parts: Ghost<Seq<Seq<char>>>,
}

impl View for JsonDraft {
    type V = DraftModel;

    closed spec fn view(&self) -> DraftModel {
        DraftModel { parts: self.parts@, fault: self.fault }
    }
}

impl JsonDraft {
    #[verifier::type_invariant]
    spec fn well_formed(self) -> bool {
        &&& self.text@ == joined(self.parts@)
        &&& self.started == (self.parts@.len() > 0)
    }

    /// Starts a list.
    pub fn new() -> (draft: JsonDraft)
        ensures
            draft@ == DraftModel::empty(),
    {
        JsonDraft { text: String::new(), started: false, fault: None, parts: Ghost(Seq::empty()) }
    }

    /// Adds a part that is already written, or records why it could not be.
    pub fn part(self, piece: Option<Result<String, ArgumentFault>>) -> (draft: JsonDraft)
        ensures
            draft@ == self@.part(rendered_view(piece)),
    {
        proof {
            use_type_invariant(&self);
        }
        if self.fault.is_some() {
            return self;
        }
        match piece {
            None => self,
            Some(Err(fault)) => JsonDraft {
                text: self.text,
                started: self.started,
                fault: Some(fault),
                parts: self.parts,
            },
            Some(Ok(piece_text)) => {
                let ghost parts = self.parts@.push(piece_text@);
                let mut text = self.text;
                if self.started {
                    text.append(",");
                }
                text.append(piece_text.as_str());
                proof {
                    assert(parts.drop_last() =~= self.parts@);
                }
                JsonDraft { text, started: true, fault: None, parts: Ghost(parts) }
            },
        }
    }

    /// Adds a member whose value is already written: `"key":value`. The
    /// key goes between the quotes as it is, so it has to be one that needs
    /// no escaping.
    pub fn member(self, key: &str, value: &str) -> (draft: JsonDraft)
        ensures
            draft@ == self@.member(key@, Some(Ok(value@))),
    {
        let mut piece = String::new();
        piece.append("\"");
        piece.append(key);
        piece.append("\":");
        piece.append(value);
        self.part(Some(Ok(piece)))
    }

    /// Adds a member whose value is already written or could not be, if
    /// there is one.
    pub fn optional_member(self, key: &str, value: Option<Result<String, ArgumentFault>>) -> (draft:
        JsonDraft)
        ensures
            draft@ == self@.member(key@, rendered_view(value)),
    {
        match value {
            None => self.part(None),
            Some(Err(fault)) => self.part(Some(Err(fault))),
            Some(Ok(text)) => self.member(key, text.as_str()),
        }
    }

    /// Adds a member that holds a text.
    pub fn text(self, key: &str, value: &str) -> (draft: JsonDraft)
        ensures
            draft@ == self@.text(key@, Some(value@)),
    {
        proof {
            use_type_invariant(&self);
        }
        if self.fault.is_some() {
            return self;
        }
        match quote_text(value) {
            Some(literal) => self.member(key, literal.as_str()),
            None => self.part(Some(Err(ArgumentFault::UnencodableText))),
        }
    }

    /// Adds a member that holds a text, if there is one.
    pub fn optional_text(self, key: &str, value: &Option<String>) -> (draft: JsonDraft)
        ensures
            draft@ == self@.text(key@, value.deep_view()),
    {
        match value {
            Some(text) => self.text(key, text.as_str()),
            None => self.part(None),
        }
    }

    /// Adds a member that holds an integer, if there is one.
    pub fn optional_integer(self, key: &str, value: Option<i64>) -> (draft: JsonDraft)
        ensures
            draft@ == self@.integer(key@, value),
    {
        match value {
            Some(n) => {
                let text = decimal_string(n);
                self.member(key, text.as_str())
            },
            None => self.part(None),
        }
    }

    /// Adds a member that holds a truth value, if there is one.
    pub fn optional_flag(self, key: &str, value: Option<bool>) -> (draft: JsonDraft)
        ensures
            draft@ == self@.flag(key@, value),
    {
        match value {
            Some(flag) => self.member(
                key,
                if flag {
                    "true"
                } else {
                    "false"
                },
            ),
            None => self.part(None),
        }
    }

    /// Adds a member that holds a number given as decimal text, if there is
    /// one. A text that is no JSON number is a fault.
    pub fn optional_number(self, key: &str, value: &Option<String>) -> (draft: JsonDraft)
        ensures
            draft@ == self@.number(key@, value.deep_view()),
    {
        match value {
            Some(text) => {
                if is_number_literal(text.as_str()) {
                    self.member(key, text.as_str())
                } else {
                    self.part(Some(Err(ArgumentFault::MalformedNumber)))
                }
            },
            None => self.part(None),
        }
    }

    /// Closes the list as an object.
    pub fn into_object(self) -> (written: Result<String, ArgumentFault>)
        ensures
            renders(written, self@.object()),
    {
        proof {
            use_type_invariant(&self);
        }
        match self.fault {
            Some(fault) => Err(fault),
            None => {
                let mut text = String::new();
                text.append("{");
                text.append(self.text.as_str());
                text.append("}");
                Ok(text)
            },
        }
    }

    /// Closes the list as an array.
    pub fn into_array(self) -> (written: Result<String, ArgumentFault>)
        ensures
            renders(written, self@.array()),
    {
        proof {
            use_type_invariant(&self);
        }
        match self.fault {
            Some(fault) => Err(fault),
            None => {
                let mut text = String::new();
                text.append("[");
                text.append(self.text.as_str());
                text.append("]");
                Ok(text)
            },
        }
    }
}

} // verus!
