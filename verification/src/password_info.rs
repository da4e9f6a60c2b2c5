//! One password-bearing record of the catalog.

use vstd::prelude::*;

verus! {

/// One entry of the catalog. Its identifier is the entry's path relative to
/// the store root with the encryption suffix stripped; it is both the display
/// identity and the lookup key for file operations. Entries are immutable
/// values; the catalog as a whole is rebuilt on each scan.
#[derive(Debug, Clone)]
pub struct PasswordInfo {
    pub pass_id: String,
}

impl View for PasswordInfo {
    type V = Seq<char>;

    open spec fn view(&self) -> Seq<char> {
        self.pass_id@
    }
}

impl PasswordInfo {
    pub fn new(pass_id: String) -> (r: Self)
        ensures
            r@ == pass_id@,
    {
        PasswordInfo { pass_id }
    }

    /// A copy whose identifier reads the same.
    pub fn duplicate(&self) -> (r: Self)
        ensures
            r@ == self@,
    {
        PasswordInfo { pass_id: self.pass_id.clone() }
    }
}

impl PartialEq for PasswordInfo {
    fn eq(&self, other: &Self) -> (r: bool) {
        self.pass_id == other.pass_id
    }
}

impl vstd::std_specs::cmp::PartialEqSpecImpl for PasswordInfo {
    open spec fn obeys_eq_spec() -> bool {
        true
    }

    open spec fn eq_spec(&self, other: &Self) -> bool {
        self@ == other@
    }
}

} // verus!
