use vstd::prelude::*;

use crate::domain::text::{chars_of, is_blank_chars, lemma_trim_is_empty_iff_blank, trim};
use crate::domain::validation_error::ValidationError;

verus! {

/// The longest name accepted, in characters.
pub const MAX_NAME_LEN: usize = 256;

/// Whether `c` may not occur in a subscriber name.
pub open spec fn is_forbidden_in_name(c: char) -> bool {
    ||| c == '/'
    ||| c == '('
    ||| c == ')'
    ||| c == '"'
    ||| c == '<'
    ||| c == '>'
    ||| c == '\\'
    ||| c == '{'
    ||| c == '}'
    ||| c == ','
}

/// Whether some character of `s` is forbidden in a name.
pub open spec fn has_forbidden_char(s: Seq<char>) -> bool {
    exists|i: int| 0 <= i < s.len() && is_forbidden_in_name(#[trigger] s[i])
}

/// Whether `s` is an acceptable subscriber name: something is left after
/// trimming, it is at most [`MAX_NAME_LEN`] characters long, untrimmed, and
/// no character of it is forbidden.
pub open spec fn is_valid_name(s: Seq<char>) -> bool {
    &&& trim(s).len() > 0
    &&& s.len() <= MAX_NAME_LEN
    &&& !has_forbidden_char(s)
}

/// Decides [`is_forbidden_in_name`].
pub fn char_is_forbidden_in_name(c: char) -> (b: bool)
    ensures
        b == is_forbidden_in_name(c),
{
    c == '/' || c == '(' || c == ')' || c == '"' || c == '<' || c == '>' || c == '\\' || c == '{'
        || c == '}' || c == ','
}

/// Decides [`has_forbidden_char`].
pub fn has_forbidden_chars(chars: &Vec<char>) -> (b: bool)
    ensures
        b == has_forbidden_char(chars@),
{
    let mut i: usize = 0;
    while i < chars.len()
        invariant
            i <= chars.len(),
            forall|j: int| 0 <= j < i ==> !is_forbidden_in_name(#[trigger] chars@[j]),
        decreases chars.len() - i,
    {
        if char_is_forbidden_in_name(chars[i]) {
            return true;
        }
        i += 1;
    }
    false
}

/// A subscriber's name: a string that satisfies [`is_valid_name`].
#[derive(Debug)]
pub struct SubscriberName(String);

impl View for SubscriberName {
    type V = Seq<char>;

    /// The characters of the name.
    closed spec fn view(&self) -> Seq<char> {
        self.0@
    }
}

impl SubscriberName {
    #[verifier::type_invariant]
    spec fn well_formed(self) -> bool {
        is_valid_name(self.0@)
    }

    /// The name that holds exactly `raw`.
    pub closed spec fn spec_wrap(raw: String) -> Self {
        SubscriberName(raw)
    }

    /// What [`SubscriberName::parse`] returns for `raw`.
    pub open spec fn spec_parse(raw: String) -> Result<Self, ValidationError> {
        if is_valid_name(raw@) {
            Ok(Self::spec_wrap(raw))
        } else {
            Err(ValidationError::InvalidName)
        }
    }

    /// A wrapped string is viewed as the characters of that string.
    pub proof fn lemma_view_of_wrap(raw: String)
        ensures
            Self::spec_wrap(raw)@ == raw@,
    {
    }

    /// Accepts `s` unchanged if it is a valid name, and refuses it otherwise.
    pub fn parse(s: String) -> (result: Result<Self, ValidationError>)
        ensures
            result == Self::spec_parse(s),
            result is Ok <==> is_valid_name(s@),
            result matches Ok(name) ==> name@ == s@,
    {
        let chars = chars_of(s.as_str());
        proof {
            lemma_trim_is_empty_iff_blank(s@);
        }
        if is_blank_chars(&chars) || chars.len() > MAX_NAME_LEN || has_forbidden_chars(&chars) {
            Err(ValidationError::InvalidName)
        } else {
            Ok(SubscriberName(s))
        }
    }

    /// The validated text.
    pub fn as_str(&self) -> (s: &str)
        ensures
            s@ == self@,
            is_valid_name(s@),
    {
        proof {
            use_type_invariant(self);
        }
        self.0.as_str()
    }
}

impl AsRef<str> for SubscriberName {
    /// The validated text.
    fn as_ref(&self) -> (s: &str)
        ensures
            s@ == self@,
            is_valid_name(s@),
    {
        self.as_str()
    }
}

/// A name of which trimming leaves nothing is refused.
pub proof fn law_blank_name_is_refused(raw: String)
    requires
        trim(raw@).len() == 0,
    ensures
        SubscriberName::spec_parse(raw) == Err::<SubscriberName, ValidationError>(
            ValidationError::InvalidName,
        ),
{
}

/// A name of more than 256 characters is refused.
pub proof fn law_long_name_is_refused(raw: String)
    requires
        raw@.len() > 256,
    ensures
        SubscriberName::spec_parse(raw) == Err::<SubscriberName, ValidationError>(
            ValidationError::InvalidName,
        ),
{
}

/// A name that holds one of the characters `/ ( ) " < > \ { } ,` anywhere
/// is refused.
pub proof fn law_name_with_forbidden_char_is_refused(raw: String, i: int)
    requires
        0 <= i < raw@.len(),
        raw@[i] == '/' || raw@[i] == '(' || raw@[i] == ')' || raw@[i] == '"' || raw@[i] == '<'
            || raw@[i] == '>' || raw@[i] == '\\' || raw@[i] == '{' || raw@[i] == '}' || raw@[i]
            == ',',
    ensures
        SubscriberName::spec_parse(raw) == Err::<SubscriberName, ValidationError>(
            ValidationError::InvalidName,
        ),
{
    assert(is_forbidden_in_name(raw@[i]));
}

/// A name without forbidden characters, of at most 256 characters, of which
/// trimming leaves something, is accepted and kept exactly as it was given.
pub proof fn law_clean_name_is_accepted(raw: String)
    requires
        !has_forbidden_char(raw@),
        raw@.len() <= 256,
        trim(raw@).len() > 0,
    ensures
        SubscriberName::spec_parse(raw) matches Ok(name) && name@ == raw@,
{
    SubscriberName::lemma_view_of_wrap(raw);
}

} // verus!
