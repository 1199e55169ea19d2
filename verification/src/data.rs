//! Credentials as the user types them: a name and a password.

use crate::text::chars_of;
use vstd::prelude::*;

verus! {

/// A name and a password. The same shape serves for the network (the name of
/// the network and its passphrase) and for the account that is created.
#[derive(Clone, Debug, PartialEq, Eq)]
pub struct Data {
    pub name: String,
    pub password: String,
}

/// A name and a password as mathematical values.
#[verifier::ext_equal]
pub struct DataView {
    pub name: Seq<char>,
    pub password: Seq<char>,
}

impl View for Data {
    type V = DataView;

    open spec fn view(&self) -> DataView {
        DataView { name: self.name@, password: self.password@ }
    }
}

/// A character that may open an account name: a small letter or an underscore.
pub open spec fn name_start(c: char) -> bool {
    ('a' <= c && c <= 'z') || c == '_'
}

/// A character that may stand inside an account name: a small letter, a
/// digit, an underscore or a hyphen.
pub open spec fn name_char(c: char) -> bool {
    name_start(c) || ('0' <= c && c <= '9') || c == '-'
}

/// The text can name an account on the installed system: it is not empty, it
/// opens with a small letter or an underscore, and goes on with small letters,
/// digits, underscores and hyphens.
pub open spec fn valid_username(name: Seq<char>) -> bool {
    &&& name.len() > 0
    &&& name_start(name[0])
    &&& forall|i: int| 0 <= i < name.len() ==> name_char(#[trigger] name[i])
}

/// The pair can be used for the account: a valid account name and a password
/// that is not empty.
pub open spec fn valid_user(name: Seq<char>, password: Seq<char>) -> bool {
    valid_username(name) && password.len() > 0
}

impl Data {
    /// An empty name and an empty password.
    pub fn new() -> (data: Self)
        ensures
            data@ == (DataView { name: Seq::empty(), password: Seq::empty() }),
    {
        Self { name: String::new(), password: String::new() }
    }

    /// Whether the pair can be used for the account that is created.
    pub fn is_user(&self) -> (ok: bool)
        ensures
            ok == valid_user(self.name@, self.password@),
    {
        let name = chars_of(self.name.as_str());
        let password = chars_of(self.password.as_str());
        if name.len() == 0 || password.len() == 0 {
            return false;
        }
        let first = name[0];
        if !(('a' <= first && first <= 'z') || first == '_') {
            return false;
        }
        let mut i: usize = 0;
        while i < name.len()
            invariant
                i <= name.len(),
                name@ == self.name@,
                password@ == self.password@,
                name.len() > 0,
                password.len() > 0,
                name_start(name@[0]),
                forall|k: int| 0 <= k < i ==> name_char(#[trigger] name@[k]),
            decreases name.len() - i,
        {
            let c = name[i];
            if !(('a' <= c && c <= 'z') || c == '_' || ('0' <= c && c <= '9') || c == '-') {
                return false;
            }
            i += 1;
        }
        true
    }
}

} // verus!
