//! Newtype wrappers around `String` that keep identifiers and e-mail addresses
//! apart at the type level.

use vstd::prelude::*;

verus! {

/// A user identifier; any text is accepted.
pub struct UserId(String);

impl View for UserId {
    type V = Seq<char>;

    closed spec fn view(&self) -> Seq<char> {
        self.0@
    }
}

impl UserId {
    /// Wraps the given text unchanged.
    pub fn new(id: String) -> (r: Self)
        ensures
            r@ == id@,
    {
        UserId(id)
    }

    /// The wrapped text.
    pub fn as_str(&self) -> (r: &str)
        ensures
            r@ == self@,
    {
        self.0.as_str()
    }
}

/// An e-mail address: text that holds at least one `@`.
pub struct EmailAddress(String);

impl View for EmailAddress {
    type V = Seq<char>;

    closed spec fn view(&self) -> Seq<char> {
        self.0@
    }
}

impl EmailAddress {
    /// Every address holds an `@`.
    #[verifier::type_invariant]
    spec fn holds_at_sign(&self) -> bool {
        self.0@.contains('@')
    }

    /// Accepts the text exactly when it holds an `@` somewhere.
    pub fn new(email: String) -> (r: Option<Self>)
        ensures
            r is Some <==> email@.contains('@'),
            r matches Some(e) ==> e@ == email@,
    {
        if has_at_sign(email.as_str()) {
            Some(EmailAddress(email))
        } else {
            None
        }
    }

    /// The wrapped text, which holds an `@`.
    pub fn as_str(&self) -> (r: &str)
        ensures
            r@ == self@,
            r@.contains('@'),
    {
        proof {
            use_type_invariant(self);
        }
        self.0.as_str()
    }
}

/// Whether the text holds the character `@`.
fn has_at_sign(s: &str) -> (r: bool)
    ensures
        r == s@.contains('@'),
{
    let n = s.unicode_len();
    let mut i: usize = 0;
    while i < n
        invariant
            n == s@.len(),
            i <= n,
            forall|j: int| 0 <= j < i ==> s@[j] != '@',
        decreases n - i,
    {
        if s.get_char(i) == '@' {
            return true;
        }
        i = i + 1;
    }
    false
}

} // verus!
