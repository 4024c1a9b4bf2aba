use vstd::prelude::*;

use crate::domain::text::{char_is_control, char_is_whitespace, chars_of, is_control, is_whitespace};
use crate::domain::validation_error::ValidationError;

verus! {

/// Whether `s` is free of whitespace and of control characters.
pub open spec fn is_plain(s: Seq<char>) -> bool {
    forall|i: int| 0 <= i < s.len() ==> !is_whitespace(#[trigger] s[i]) && !is_control(s[i])
}

/// Whether `d` is an acceptable domain: it holds a dot, and every dot of it
/// stands between two characters of `d` that are not dots, so that no label
/// is empty.
pub open spec fn is_valid_domain(d: Seq<char>) -> bool {
    &&& d.contains('.')
    &&& forall|k: int|
        0 <= k < d.len() && #[trigger] d[k] == '.' ==> {
            &&& 0 < k < d.len() - 1
            &&& d[k - 1] != '.'
            &&& d[k + 1] != '.'
        }
}

/// Whether the `@` at index `at` is the only one in `s` and parts it into a
/// non-empty local part and an acceptable domain.
pub open spec fn splits_at(s: Seq<char>, at: int) -> bool {
    &&& 0 < at < s.len()
    &&& s[at] == '@'
    &&& forall|i: int| 0 <= i < s.len() && i != at ==> #[trigger] s[i] != '@'
    &&& is_valid_domain(s.subrange(at + 1, s.len() as int))
}

/// Whether `s` is an acceptable email address: a non-empty local part, one
/// `@`, and a domain with a dot and no empty label, the whole free of
/// whitespace and control characters.
pub open spec fn is_valid_email(s: Seq<char>) -> bool {
    &&& is_plain(s)
    &&& exists|at: int| splits_at(s, at)
}

/// Decides [`is_plain`].
pub fn is_plain_chars(chars: &Vec<char>) -> (b: bool)
    ensures
        b == is_plain(chars@),
{
    let mut i: usize = 0;
    while i < chars.len()
        invariant
            i <= chars.len(),
            forall|j: int| 0 <= j < i ==> !is_whitespace(#[trigger] chars@[j]) && !is_control(chars@[j]),
        decreases chars.len() - i,
    {
        let c = chars[i];
        if char_is_whitespace(c) || char_is_control(c) {
            return false;
        }
        i += 1;
    }
    true
}

/// The index of the first `c` in `chars` at or after `from`, if there is one.
pub fn find_char(chars: &Vec<char>, c: char, from: usize) -> (found: Option<usize>)
    requires
        from <= chars.len(),
    ensures
        match found {
            Some(i) => {
                &&& from <= i < chars.len()
                &&& chars@[i as int] == c
                &&& forall|j: int| from <= j < i ==> chars@[j] != c
            },
            None => forall|j: int| from <= j < chars.len() ==> chars@[j] != c,
        },
{
    let mut i: usize = from;
    while i < chars.len()
        invariant
            from <= i <= chars.len(),
            forall|j: int| from <= j < i ==> chars@[j] != c,
        decreases chars.len() - i,
    {
        if chars[i] == c {
            return Some(i);
        }
        i += 1;
    }
    None
}

/// Decides [`is_valid_domain`] of the part of `chars` that starts at `start`.
pub fn is_valid_domain_from(chars: &Vec<char>, start: usize) -> (b: bool)
    requires
        start <= chars.len(),
    ensures
        b == is_valid_domain(chars@.subrange(start as int, chars.len() as int)),
{
    let ghost d = chars@.subrange(start as int, chars.len() as int);
    let n = chars.len();
    let mut seen_dot = false;
    let mut k: usize = start;
    while k < n
        invariant
            start <= k <= n,
            n == chars.len(),
            d == chars@.subrange(start as int, n as int),
            seen_dot <==> exists|j: int| 0 <= j < k - start && d[j] == '.',
            forall|j: int|
                0 <= j < k - start && #[trigger] d[j] == '.' ==> {
                    &&& 0 < j < d.len() - 1
                    &&& d[j - 1] != '.'
                    &&& d[j + 1] != '.'
                },
        decreases n - k,
    {
        if chars[k] == '.' {
            assert(d[k - start] == '.');
            if k == start || k + 1 == n {
                return false;
            }
            if chars[k - 1] == '.' || chars[k + 1] == '.' {
                assert(d[k - start - 1] == chars@[k - 1]);
                assert(d[k - start + 1] == chars@[k + 1]);
                return false;
            }
            assert(d[k - start - 1] == chars@[k - 1]);
            assert(d[k - start + 1] == chars@[k + 1]);
            seen_dot = true;
        } else {
            assert(d[k - start] != '.');
        }
        k += 1;
    }
    proof {
        if seen_dot {
            let j = choose|j: int| 0 <= j < k - start && d[j] == '.';
            assert(d.contains('.'));
        } else {
            if d.contains('.') {
                let j = choose|j: int| 0 <= j < d.len() && d[j] == '.';
                assert(false);
            }
        }
    }
    seen_dot
}

/// A subscriber's email address: a string that satisfies [`is_valid_email`].
#[derive(Debug)]
pub struct SubscriberEmail(String);

impl View for SubscriberEmail {
    type V = Seq<char>;

    /// The characters of the address.
    closed spec fn view(&self) -> Seq<char> {
        self.0@
    }
}

impl SubscriberEmail {
    #[verifier::type_invariant]
    spec fn well_formed(self) -> bool {
        is_valid_email(self.0@)
    }

    /// The address that holds exactly `raw`.
    pub closed spec fn spec_wrap(raw: String) -> Self {
        SubscriberEmail(raw)
    }

    /// What [`SubscriberEmail::parse`] returns for `raw`.
    pub open spec fn spec_parse(raw: String) -> Result<Self, ValidationError> {
        if is_valid_email(raw@) {
            Ok(Self::spec_wrap(raw))
        } else {
            Err(ValidationError::InvalidEmail)
        }
    }

    /// A wrapped string is viewed as the characters of that string.
    pub proof fn lemma_view_of_wrap(raw: String)
        ensures
            Self::spec_wrap(raw)@ == raw@,
    {
    }

    /// Accepts `s` unchanged if it is a valid address, and refuses it
    /// otherwise.
    pub fn parse(s: String) -> (result: Result<Self, ValidationError>)
        ensures
            result == Self::spec_parse(s),
            result is Ok <==> is_valid_email(s@),
            result matches Ok(email) ==> email@ == s@,
    {
        let chars = chars_of(s.as_str());
        if !is_plain_chars(&chars) {
            return Err(ValidationError::InvalidEmail);
        }
        let at = match find_char(&chars, '@', 0) {
            Some(at) => at,
            None => {
                return Err(ValidationError::InvalidEmail);
            },
        };
        if at == 0 {
            assert(!is_valid_email(s@)) by {
                assert(forall|other: int| splits_at(s@, other) ==> other == at);
            }
            return Err(ValidationError::InvalidEmail);
        }
        if find_char(&chars, '@', at + 1).is_some() {
            return Err(ValidationError::InvalidEmail);
        }
        if !is_valid_domain_from(&chars, at + 1) {
            assert(!is_valid_email(s@)) by {
                assert(forall|other: int| splits_at(s@, other) ==> other == at);
            }
            return Err(ValidationError::InvalidEmail);
        }
        assert(splits_at(s@, at as int));
        Ok(SubscriberEmail(s))
    }

    /// The validated text.
    pub fn as_str(&self) -> (s: &str)
        ensures
            s@ == self@,
            is_valid_email(s@),
    {
        proof {
            use_type_invariant(self);
        }
        self.0.as_str()
    }
}

impl AsRef<str> for SubscriberEmail {
    /// The validated text.
    fn as_ref(&self) -> (s: &str)
        ensures
            s@ == self@,
            is_valid_email(s@),
    {
        self.as_str()
    }
}

/// An address is refused if it holds no `@`, if nothing stands before its
/// `@` or nothing after it, or if what follows an `@` of it holds no dot.
pub proof fn law_malformed_email_is_refused(raw: String)
    requires
        ({
            ||| !raw@.contains('@')
            ||| raw@.len() > 0 && raw@.first() == '@'
            ||| raw@.len() > 0 && raw@.last() == '@'
            ||| exists|at: int|
                0 <= at < raw@.len() && raw@[at] == '@' && !(#[trigger] raw@.subrange(
                    at + 1,
                    raw@.len() as int,
                )).contains('.')
        }),
    ensures
        SubscriberEmail::spec_parse(raw) == Err::<SubscriberEmail, ValidationError>(
            ValidationError::InvalidEmail,
        ),
{
    let s = raw@;
    if is_valid_email(s) {
        let split = choose|split: int| splits_at(s, split);
        assert(s.contains('@'));
        assert(s.first() != '@');
        if s.last() == '@' {
            assert(split == s.len() - 1);
            assert(s.subrange(split + 1, s.len() as int).len() == 0);
        }
        if exists|at: int|
            0 <= at < s.len() && s[at] == '@' && !(#[trigger] s.subrange(
                at + 1,
                s.len() as int,
            )).contains('.') {
            let at = choose|at: int|
                0 <= at < s.len() && s[at] == '@' && !(#[trigger] s.subrange(
                    at + 1,
                    s.len() as int,
                )).contains('.');
            assert(at == split);
        }
        assert(false);
    }
}

/// A valid address is accepted and kept exactly as it was given.
pub proof fn law_valid_email_is_kept(raw: String)
    requires
        is_valid_email(raw@),
    ensures
        SubscriberEmail::spec_parse(raw) matches Ok(email) && email@ == raw@,
{
    SubscriberEmail::lemma_view_of_wrap(raw);
}

} // verus!
