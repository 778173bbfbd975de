//! Validation of command inputs: sizes, storage keys and values, and the
//! patterns that mark an input as suspicious.
use vstd::prelude::*;

use crate::text::{
    alnum_char, contains_text, decimal, decimal_text, has_infix, holds_any, is_alnum, lower_of,
    to_lower, utf8_len,
};

verus! {

/// Why an input was rejected.
#[derive(Debug)]
pub enum ValidationError {
    InputTooLarge { field: String, max_size: usize },
    /// `min` and `max` are the accepted bounds, in whole points.
    InvalidRange { field: String, min: u64, max: u64 },
    RateLimitExceeded { command: String },
    InvalidCharacters { field: String },
    EmptyField { field: String },
    SuspiciousPattern { field: String },
}

/// Mathematical form of a `ValidationError`.
pub enum ValidationFault {
    InputTooLarge(Seq<char>, nat),
    InvalidRange(Seq<char>, nat, nat),
    RateLimitExceeded(Seq<char>),
    InvalidCharacters(Seq<char>),
    EmptyField(Seq<char>),
    SuspiciousPattern(Seq<char>),
}

impl View for ValidationError {
    type V = ValidationFault;

    open spec fn view(&self) -> ValidationFault {
        match self {
            ValidationError::InputTooLarge { field, max_size } => ValidationFault::InputTooLarge(
                field@,
                *max_size as nat,
            ),
            ValidationError::InvalidRange { field, min, max } => ValidationFault::InvalidRange(
                field@,
                *min as nat,
                *max as nat,
            ),
            ValidationError::RateLimitExceeded { command } => ValidationFault::RateLimitExceeded(
                command@,
            ),
            ValidationError::InvalidCharacters { field } => ValidationFault::InvalidCharacters(
                field@,
            ),
            ValidationError::EmptyField { field } => ValidationFault::EmptyField(field@),
            ValidationError::SuspiciousPattern { field } => ValidationFault::SuspiciousPattern(
                field@,
            ),
        }
    }
}

/// The fault of a failed check, `None` when it passed.
pub open spec fn fault_of(r: Result<(), ValidationError>) -> Option<ValidationFault> {
    match r {
        Ok(_) => None,
        Err(e) => Some(e@),
    }
}

/// Text shown to the user for a fault.
pub open spec fn message_spec(f: ValidationFault) -> Seq<char> {
    match f {
        ValidationFault::InputTooLarge(field, max) => "Input too large: "@ + field + " exceeds "@
            + decimal(max) + " characters"@,
        ValidationFault::InvalidRange(field, min, max) => "Invalid range: "@ + field
            + " must be between "@ + decimal(min) + " and "@ + decimal(max),
        ValidationFault::RateLimitExceeded(command) => "Rate limit exceeded for command: "@
            + command,
        ValidationFault::InvalidCharacters(field) => "Invalid characters in "@ + field
            + ": only alphanumeric and basic punctuation allowed"@,
        ValidationFault::EmptyField(field) => "Empty required field: "@ + field,
        ValidationFault::SuspiciousPattern(field) => "Suspicious pattern detected in "@ + field,
    }
}

impl ValidationError {
    /// Text shown to the user.
    pub fn message(&self) -> (r: String)
        ensures
            r@ == message_spec(self@),
    {
        match self {
            ValidationError::InputTooLarge { field, max_size } => {
                let mut s = String::from_str("Input too large: ");
                s.append(field.as_str());
                s.append(" exceeds ");
                let n = decimal_text(*max_size as u64);
                s.append(n.as_str());
                s.append(" characters");
                s
            },
            ValidationError::InvalidRange { field, min, max } => {
                let mut s = String::from_str("Invalid range: ");
                s.append(field.as_str());
                s.append(" must be between ");
                let a = decimal_text(*min);
                s.append(a.as_str());
                s.append(" and ");
                let b = decimal_text(*max);
                s.append(b.as_str());
                s
            },
            ValidationError::RateLimitExceeded { command } => {
                let mut s = String::from_str("Rate limit exceeded for command: ");
                s.append(command.as_str());
                s
            },
            ValidationError::InvalidCharacters { field } => {
                let mut s = String::from_str("Invalid characters in ");
                s.append(field.as_str());
                s.append(": only alphanumeric and basic punctuation allowed");
                s
            },
            ValidationError::EmptyField { field } => {
                let mut s = String::from_str("Empty required field: ");
                s.append(field.as_str());
                s
            },
            ValidationError::SuspiciousPattern { field } => {
                let mut s = String::from_str("Suspicious pattern detected in ");
                s.append(field.as_str());
                s
            },
        }
    }
}

/// Inputs that can check themselves before a command runs.
pub trait ValidatedInput {
    /// What is wrong with the input, `None` when it is acceptable.
    spec fn fault(&self) -> Option<ValidationFault>;

    fn validate(&self) -> (r: Result<(), ValidationError>)
        ensures
            fault_of(r) == self.fault(),
    ;
}

/// Smallest and largest window width, in hundredths of a point.
pub const MIN_WIDTH: i64 = 6400;
pub const MAX_WIDTH: i64 = 409600;

/// Smallest and largest window height, in hundredths of a point.
pub const MIN_HEIGHT: i64 = 3200;
pub const MAX_HEIGHT: i64 = 216000;

/// Requested window size, in hundredths of a point (`6390` is 63.9 points).
#[derive(Clone, Copy, Debug, PartialEq, Eq, Structural)]
pub struct WindowSize {
    pub width: i64,
    pub height: i64,
}

pub open spec fn window_size_fault(w: int, h: int) -> Option<ValidationFault> {
    if !(MIN_WIDTH <= w <= MAX_WIDTH) {
        Some(ValidationFault::InvalidRange("width"@, 64, 4096))
    } else if !(MIN_HEIGHT <= h <= MAX_HEIGHT) {
        Some(ValidationFault::InvalidRange("height"@, 32, 2160))
    } else {
        None
    }
}

impl WindowSize {
    /// Accepts widths from 64 to 4096 points and heights from 32 to 2160
    /// points, bounds included; the width is checked first.
    pub fn validate(&self) -> (r: Result<(), ValidationError>)
        ensures
            fault_of(r) == window_size_fault(self.width as int, self.height as int),
            r is Ok <==> (MIN_WIDTH <= self.width <= MAX_WIDTH && MIN_HEIGHT <= self.height
                <= MAX_HEIGHT),
    {
        self.validate_width()?;
        self.validate_height()?;
        Ok(())
    }

    fn validate_width(&self) -> (r: Result<(), ValidationError>)
        ensures
            r is Ok <==> MIN_WIDTH <= self.width <= MAX_WIDTH,
            r is Err ==> r->Err_0@ == ValidationFault::InvalidRange("width"@, 64, 4096),
    {
        if !(MIN_WIDTH <= self.width && self.width <= MAX_WIDTH) {
            return Err(
                ValidationError::InvalidRange {
                    field: String::from_str("width"),
                    min: 64,
                    max: 4096,
                },
            );
        }
        Ok(())
    }

    fn validate_height(&self) -> (r: Result<(), ValidationError>)
        ensures
            r is Ok <==> MIN_HEIGHT <= self.height <= MAX_HEIGHT,
            r is Err ==> r->Err_0@ == ValidationFault::InvalidRange("height"@, 32, 2160),
    {
        if !(MIN_HEIGHT <= self.height && self.height <= MAX_HEIGHT) {
            return Err(
                ValidationError::InvalidRange {
                    field: String::from_str("height"),
                    min: 32,
                    max: 2160,
                },
            );
        }
        Ok(())
    }
}

impl ValidatedInput for WindowSize {
    open spec fn fault(&self) -> Option<ValidationFault> {
        window_size_fault(self.width as int, self.height as int)
    }

    fn validate(&self) -> (r: Result<(), ValidationError>) {
        WindowSize::validate(self)
    }
}

/// Largest storage key, in bytes.
pub const MAX_KEY_LEN: usize = 64;

/// Largest stored value, in bytes.
pub const MAX_VALUE_LEN: usize = 1024;

/// Characters allowed in a storage key: letters, digits, `_`, `.` and `-`.
pub open spec fn key_char_ok(c: char) -> bool {
    alnum_char(c) || c == '_' || c == '.' || c == '-'
}

/// What is wrong with a storage key: empty, longer than 64 bytes, or holding
/// a character other than a letter, a digit, `_`, `.` or `-`, checked in
/// that order.
pub open spec fn key_fault(key: Seq<char>) -> Option<ValidationFault> {
    if key.len() == 0 {
        Some(ValidationFault::EmptyField("key"@))
    } else if utf8_len(key) > MAX_KEY_LEN {
        Some(ValidationFault::InputTooLarge("key"@, MAX_KEY_LEN as nat))
    } else if !(forall|i: int| 0 <= i < key.len() ==> key_char_ok(#[trigger] key[i])) {
        Some(ValidationFault::InvalidCharacters("key"@))
    } else {
        None
    }
}

fn validate_key_text(key: &str) -> (r: Result<(), ValidationError>)
    ensures
        fault_of(r) == key_fault(key@),
{
    let n = key.unicode_len();
    if n == 0 {
        return Err(ValidationError::EmptyField { field: String::from_str("key") });
    }
    if key.len() > MAX_KEY_LEN {
        return Err(
            ValidationError::InputTooLarge { field: String::from_str("key"), max_size: MAX_KEY_LEN },
        );
    }
    let mut i: usize = 0;
    while i < n
        invariant
            n == key@.len(),
            n > 0,
            utf8_len(key@) <= MAX_KEY_LEN,
            i <= n,
            forall|j: int| 0 <= j < i ==> key_char_ok(#[trigger] key@[j]),
        decreases n - i,
    {
        let c = key.get_char(i);
        if !(is_alnum(c) || c == '_' || c == '.' || c == '-') {
            assert(!key_char_ok(key@[i as int]));
            return Err(ValidationError::InvalidCharacters { field: String::from_str("key") });
        }
        i = i + 1;
    }
    Ok(())
}

/// Patterns that mark a value as an injection attempt, matched against the
/// value in lower case: path traversal, script and command injection, SQL
/// statements and unexpected protocol handlers.
pub open spec fn suspicious_patterns_spec() -> Seq<Seq<char>> {
    seq![
        "../"@,
        "..\\"@,
        "..:"@,
        "<script"@,
        "</script"@,
        "javascript:"@,
        "|"@,
        "&"@,
        ";"@,
        "`"@,
        "$("@,
        "drop "@,
        "select "@,
        "insert "@,
        "update "@,
        "delete "@,
        "file://"@,
        "data://"@,
    ]
}

fn suspicious_patterns() -> (r: Vec<&'static str>)
    ensures
        r@.len() == suspicious_patterns_spec().len(),
        forall|i: int| 0 <= i < r@.len() ==> (#[trigger] r@[i])@ == suspicious_patterns_spec()[i],
{
    let r = vec![
        "../",
        "..\\",
        "..:",
        "<script",
        "</script",
        "javascript:",
        "|",
        "&",
        ";",
        "`",
        "$(",
        "drop ",
        "select ",
        "insert ",
        "update ",
        "delete ",
        "file://",
        "data://",
    ];
    r
}

/// Whether text already in lower case holds a suspicious pattern.
pub fn matches_suspicious_lowered(lowered: &str) -> (r: bool)
    ensures
        r == holds_any(lowered@, suspicious_patterns_spec()),
{
    let pats = suspicious_patterns();
    let mut i: usize = 0;
    while i < pats.len()
        invariant
            i <= pats@.len(),
            pats@.len() == suspicious_patterns_spec().len(),
            forall|j: int| 0 <= j < pats@.len() ==> (#[trigger] pats@[j])@ == suspicious_patterns_spec()[j],
            forall|j: int| 0 <= j < i ==> !has_infix(lowered@, #[trigger] suspicious_patterns_spec()[j]),
        decreases pats@.len() - i,
    {
        if contains_text(lowered, pats[i]) {
            assert(has_infix(lowered@, suspicious_patterns_spec()[i as int]));
            return true;
        }
        i = i + 1;
    }
    false
}

/// The input, in lower case, holds one of the suspicious patterns.
pub open spec fn is_suspicious(s: Seq<char>) -> bool {
    holds_any(lower_of(s), suspicious_patterns_spec())
}

/// Whether an input holds a suspicious pattern, ignoring case.
pub fn contains_suspicious_patterns(input: &str) -> (r: bool)
    ensures
        r == is_suspicious(input@),
{
    let lowered = to_lower(input);
    matches_suspicious_lowered(lowered.as_str())
}

/// What is wrong with a value to store: longer than 1024 bytes, or
/// suspicious, checked in that order.
pub open spec fn value_fault(value: Seq<char>) -> Option<ValidationFault> {
    if utf8_len(value) > MAX_VALUE_LEN {
        Some(ValidationFault::InputTooLarge("value"@, MAX_VALUE_LEN as nat))
    } else if is_suspicious(value) {
        Some(ValidationFault::SuspiciousPattern("value"@))
    } else {
        None
    }
}

/// A key and value to put in the credential store.
#[derive(Debug)]
pub struct SecureKeyValue {
    pub key: String,
    pub value: String,
}

pub open spec fn key_value_fault(key: Seq<char>, value: Seq<char>) -> Option<ValidationFault> {
    if key_fault(key) is Some {
        key_fault(key)
    } else {
        value_fault(value)
    }
}

impl SecureKeyValue {
    /// Checks the key, then the value.
    pub fn validate(&self) -> (r: Result<(), ValidationError>)
        ensures
            fault_of(r) == key_value_fault(self.key@, self.value@),
    {
        self.validate_key()?;
        self.validate_value()?;
        Ok(())
    }

    fn validate_key(&self) -> (r: Result<(), ValidationError>)
        ensures
            fault_of(r) == key_fault(self.key@),
    {
        validate_key_text(self.key.as_str())
    }

    fn validate_value(&self) -> (r: Result<(), ValidationError>)
        ensures
            fault_of(r) == value_fault(self.value@),
    {
        if self.value.as_str().len() > MAX_VALUE_LEN {
            return Err(
                ValidationError::InputTooLarge {
                    field: String::from_str("value"),
                    max_size: MAX_VALUE_LEN,
                },
            );
        }
        if contains_suspicious_patterns(self.value.as_str()) {
            return Err(ValidationError::SuspiciousPattern { field: String::from_str("value") });
        }
        Ok(())
    }
}

impl ValidatedInput for SecureKeyValue {
    open spec fn fault(&self) -> Option<ValidationFault> {
        key_value_fault(self.key@, self.value@)
    }

    fn validate(&self) -> (r: Result<(), ValidationError>) {
        SecureKeyValue::validate(self)
    }
}

/// A key to load from or delete in the credential store.
#[derive(Debug)]
pub struct SecureKey {
    pub key: String,
}

impl SecureKey {
    pub fn validate(&self) -> (r: Result<(), ValidationError>)
        ensures
            fault_of(r) == key_fault(self.key@),
    {
        validate_key_text(self.key.as_str())
    }
}

impl ValidatedInput for SecureKey {
    open spec fn fault(&self) -> Option<ValidationFault> {
        key_fault(self.key@)
    }

    fn validate(&self) -> (r: Result<(), ValidationError>) {
        SecureKey::validate(self)
    }
}

} // verus!
