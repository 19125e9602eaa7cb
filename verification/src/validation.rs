//! Field-level validation: the error records that accumulate over one
//! operation, and the text rules applied to file fields.
//!
//! Several errors may accumulate for a single operation — a conflicting
//! username and a conflicting email address are both reported together —
//! so the container keeps every error added, in order.

use vstd::prelude::*;

verus! {

/// The mathematical view of a single validation error.
#[verifier::ext_equal]
pub ghost struct ValidationErrorView {
    pub field: Seq<char>,
    pub code: Seq<char>,
    pub value: Seq<char>,
}

/// One field-level validation error: which field, a short code naming the
/// rule that failed (for example `unique`), and the offending value.
#[derive(Clone, Debug)]
pub struct ValidationError {
    /// The field the error concerns (filled in when the error is added to
    /// a container).
    pub field: String,
    /// A short text code identifying the category of error.
    pub code: String,
    /// The value that is invalid.
    pub value: String,
}

impl View for ValidationError {
    type V = ValidationErrorView;

    open spec fn view(&self) -> ValidationErrorView {
        ValidationErrorView { field: self.field@, code: self.code@, value: self.value@ }
    }
}

impl DeepView for ValidationError {
    type V = ValidationErrorView;

    open spec fn deep_view(&self) -> ValidationErrorView {
        self@
    }
}

/// Create a validation error carrying a rule code and the invalid value;
/// the field name is filled in when the error is added to a container.
pub fn create_value_validation_error(code: &str, value: &String) -> (r: ValidationError)
    ensures
        r@.field == Seq::<char>::empty(),
        r@.code == code@,
        r@.value == value@,
{
    let r = ValidationError {
        field: String::new(),
        code: String::from_str(code),
        value: value.clone(),
    };
    r
}

/// The validation errors accumulated over one operation, in the order they
/// were detected.
#[derive(Clone, Debug)]
pub struct ValidationErrors {
    /// The errors, in detection order.
    pub errors: Vec<ValidationError>,
}

impl View for ValidationErrors {
    type V = Seq<ValidationErrorView>;

    open spec fn view(&self) -> Seq<ValidationErrorView> {
        self.errors.deep_view()
    }
}

impl ValidationErrors {
    /// An empty set of validation errors.
    pub fn new() -> (r: ValidationErrors)
        ensures
            r@ == Seq::<ValidationErrorView>::empty(),
    {
        let r = ValidationErrors { errors: Vec::new() };
        proof {
            assert(r@ =~= Seq::<ValidationErrorView>::empty());
        }
        r
    }

    /// Record an error against the named field.
    pub fn add(&mut self, field: &str, error: ValidationError)
        ensures
            final(self)@ == old(self)@.push(
                ValidationErrorView { field: field@, code: error@.code, value: error@.value },
            ),
    {
        let mut tagged = error;
        tagged.field = String::from_str(field);
        let ghost prev = self@;
        let ghost entry = tagged@;
        self.errors.push(tagged);
        proof {
            assert forall|k: int| 0 <= k < prev.len() + 1 implies #[trigger] self@[k] == prev.push(
                entry,
            )[k] by {
                assert(self@[k] == self.errors@[k].deep_view());
            }
            assert(self@ =~= prev.push(entry));
        }
    }

    /// Whether no error has been recorded.
    pub fn is_empty(&self) -> (r: bool)
        ensures
            r == (self@.len() == 0),
    {
        self.errors.is_empty()
    }
}

/// Whether a character is a Unicode control character.
pub open spec fn is_control_char(c: char) -> bool {
    (c as u32) < 32 || (127 <= c as u32 && c as u32 <= 159)
}

/// The length rule for file text fields: between 1 and 256 characters.
pub open spec fn valid_text_length(s: Seq<char>) -> bool {
    1 <= s.len() <= 256
}

/// The control-character rule for file text fields: none anywhere.
pub open spec fn no_control_chars(s: Seq<char>) -> bool {
    forall|i: int| 0 <= i < s.len() ==> !is_control_char(#[trigger] s[i])
}

/// Check the length rule on a string.
pub fn has_valid_text_length(s: &String) -> (r: bool)
    ensures
        r == valid_text_length(s@),
{
    let n = s.as_str().unicode_len();
    1 <= n && n <= 256
}

/// Check the control-character rule on a string.
pub fn has_no_control_chars(s: &String) -> (r: bool)
    ensures
        r == no_control_chars(s@),
{
    let text = s.as_str();
    let n = text.unicode_len();
    let mut i: usize = 0;
    while i < n
        invariant
            i <= n,
            n == s@.len(),
            text@ == s@,
            forall|j: int| 0 <= j < i ==> !is_control_char(#[trigger] s@[j]),
        decreases n - i,
    {
        let c = text.get_char(i);
        let code = c as u32;
        if code < 32 || (127 <= code && code <= 159) {
            return false;
        }
        i = i + 1;
    }
    true
}

} // verus!
