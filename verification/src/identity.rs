use vstd::prelude::*;
use crate::error::StoreError;

verus! {

/// A lower-case letter or a digit: what the words of an account name are
/// made of.
pub open spec fn is_word_char(c: char) -> bool {
    ('a' <= c && c <= 'z') || ('0' <= c && c <= '9')
}

/// One of the three signs that part the words of an account name.
pub open spec fn is_separator(c: char) -> bool {
    c == '-' || c == '_' || c == '.'
}

/// Whether `s` names an account of the network: 2 to 64 characters, each a
/// lower-case letter, a digit or a separator, with no separator first, last
/// or next to another.
pub open spec fn is_account_id(s: Seq<char>) -> bool {
    &&& 2 <= s.len() <= 64
    &&& forall|i: int| 0 <= i < s.len() ==> is_word_char(#[trigger] s[i]) || is_separator(s[i])
    &&& !is_separator(s[0])
    &&& !is_separator(s[s.len() - 1])
    &&& forall|i: int|
        0 <= i < s.len() - 1 ==> !(is_separator(#[trigger] s[i]) && is_separator(s[i + 1]))
}

/// Calls `near_workspaces::types::AccountId::validate` on `text` and says
/// whether it answered `Ok`. Believed, not proved: that it accepts exactly
/// the texts of 2 to 64 bytes made of lower-case ASCII letters, digits and
/// the separators `-`, `_` and `.`, in which no separator stands first,
/// last or next to another. Such a text has one byte to the character, so
/// the bound on bytes is the bound on characters.
#[verifier::external_body]
fn account_name_accepted(text: &str) -> (ok: bool)
    ensures
        ok == is_account_id(text@),
{
    near_workspaces::types::AccountId::validate(text).is_ok()
}

/// An identity reference: the name of an account, well-formed by the
/// network's rules. Who the account belongs to, and whether it exists, is
/// the host's business.
#[derive(Debug)]
pub struct Identity {
    name: String,
}

impl View for Identity {
    type V = Seq<char>;

    closed spec fn view(&self) -> Seq<char> {
        self.name@
    }
}

impl Clone for Identity {
    fn clone(&self) -> (out: Self)
        ensures
            out@ == self@,
    {
        proof {
            use_type_invariant(self);
        }
        Identity { name: self.name.clone() }
    }
}

impl PartialEq for Identity {
    fn eq(&self, other: &Self) -> (same: bool) {
        self.name == other.name
    }
}

impl vstd::std_specs::cmp::PartialEqSpecImpl for Identity {
    open spec fn obeys_eq_spec() -> bool {
        true
    }

    open spec fn eq_spec(&self, other: &Self) -> bool {
        self@ == other@
    }
}

impl Identity {
    #[verifier::type_invariant]
    closed spec fn well_formed(&self) -> bool {
        is_account_id(self.name@)
    }

    /// Reads an identity from its text. A text that is no well-formed
    /// account name is rejected with `MalformedInput`.
    pub fn parse(text: &str) -> (out: Result<Identity, StoreError>)
        ensures
            match out {
                Ok(id) => id@ == text@ && is_account_id(text@),
                Err(e) => e == StoreError::MalformedInput && !is_account_id(text@),
            },
    {
        if account_name_accepted(text) {
            Ok(Identity { name: text.to_owned() })
        } else {
            Err(StoreError::MalformedInput)
        }
    }

    /// The account's name, which is always well-formed.
    pub fn as_str(&self) -> (out: &str)
        ensures
            out@ == self@,
            is_account_id(self@),
    {
        proof {
            use_type_invariant(self);
        }
        self.name.as_str()
    }
}

} // verus!
