//! The password list's logic: the search text, and which entries it lets
//! through.

use vstd::prelude::*;
use crate::password_info::PasswordInfo;
use crate::text::{contains_seq, str_contains};

verus! {

/// What lower-casing a string yields. The result depends on the characters
/// alone.
pub uninterp spec fn lower_of(s: Seq<char>) -> Seq<char>;

/// Relies on str::to_lowercase: the lowercase mapping of the string,
/// depending on its characters alone; an empty string stays empty.
#[verifier::external_body]
fn lowercase(s: &str) -> (r: String)
    ensures
        r@ == lower_of(s@),
        s@.len() == 0 ==> r@.len() == 0,
{
    s.to_lowercase()
}

/// An entry matches the search text when the search is empty, or its
/// lower-cased identifier contains the lower-cased search text.
pub open spec fn spec_matches_search(id: Seq<char>, search: Seq<char>) -> bool {
    search.len() == 0 || contains_seq(lower_of(id), lower_of(search))
}

/// Decides `spec_matches_search` for one entry identifier.
pub fn matches_search(pass_id: &str, search: &str) -> (r: bool)
    ensures
        r == spec_matches_search(pass_id@, search@),
{
    if search.unicode_len() == 0 {
        return true;
    }
    let li = lowercase(pass_id);
    let ls = lowercase(search);
    str_contains(li.as_str(), ls.as_str())
}

/// A change to the list: new search text, or a chosen entry.
#[derive(Debug, Clone)]
pub enum Message {
    SearchChanged(String),
    SelectEntry(PasswordInfo),
}

/// What the list asks its surroundings to do.
#[derive(Debug, Clone)]
pub enum Action {
    UpdateSearch,
    SelectEntry(PasswordInfo),
}

/// The list's state: the catalog it shows and the current search text.
#[derive(Debug)]
pub struct PasswordList {
    pub search: String,
    pub passwords: Vec<PasswordInfo>,
}

impl PasswordList {
    /// A fresh list over the given catalog, with no search text.
    pub fn new(passwords: Vec<PasswordInfo>) -> (r: Self)
        ensures
            r.search@.len() == 0,
            r.passwords@ == passwords@,
    {
        PasswordList { search: String::new(), passwords }
    }

    /// Stores new search text, or passes a chosen entry on.
    pub fn update(&mut self, message: Message) -> (a: Action)
        ensures
            final(self).passwords@ == old(self).passwords@,
            match message {
                Message::SearchChanged(s) => {
                    &&& final(self).search@ == s@
                    &&& a matches Action::UpdateSearch
                },
                Message::SelectEntry(e) => {
                    &&& final(self).search@ == old(self).search@
                    &&& (a matches Action::SelectEntry(x) && x@ == e@)
                },
            },
    {
        match message {
            Message::SearchChanged(search) => {
                self.search = search;
                Action::UpdateSearch
            },
            Message::SelectEntry(entry) => Action::SelectEntry(entry),
        }
    }

    /// The entries the list shows: exactly those whose identifier matches
    /// the search text, in catalog order.
    pub fn visible(&self) -> (r: Vec<PasswordInfo>)
        ensures
            r@.map_values(|p: PasswordInfo| p@) == self.passwords@.map_values(
                |p: PasswordInfo| p@,
            ).filter(|id: Seq<char>| spec_matches_search(id, self.search@)),
    {
        let ghost pred = |id: Seq<char>| spec_matches_search(id, self.search@);
        let ghost idsv = self.passwords@.map_values(|p: PasswordInfo| p@);
        let n = self.passwords.len();
        let mut r: Vec<PasswordInfo> = Vec::new();
        let mut i: usize = 0;
        proof {
            assert(idsv.take(0) =~= Seq::<Seq<char>>::empty());
            assert(r@.map_values(|p: PasswordInfo| p@) =~= Seq::<Seq<char>>::empty());
            assert(Seq::<Seq<char>>::empty().filter(pred) =~= Seq::<Seq<char>>::empty());
        }
        while i < n
            invariant
                i <= n,
                n == self.passwords@.len(),
                idsv == self.passwords@.map_values(|p: PasswordInfo| p@),
                pred == (|id: Seq<char>| spec_matches_search(id, self.search@)),
                r@.map_values(|p: PasswordInfo| p@) == idsv.take(i as int).filter(pred),
            decreases n - i,
        {
            let ghost rmap = r@.map_values(|p: PasswordInfo| p@);
            let entry = &self.passwords[i];
            if matches_search(entry.pass_id.as_str(), self.search.as_str()) {
                r.push(entry.duplicate());
                proof {
                    assert(r@.map_values(|p: PasswordInfo| p@) =~= rmap.push(idsv[i as int]));
                }
            }
            proof {
                assert(idsv.take(i + 1).drop_last() =~= idsv.take(i as int));
                assert(idsv.take(i + 1).last() == idsv[i as int]);
                reveal(Seq::filter);
            }
            i = i + 1;
        }
        proof {
            assert(idsv.take(n as int) =~= idsv);
        }
        r
    }
}

} // verus!

verus! {

/// The label a list card shows: the identifier as it is when it is short,
/// and its first forty characters followed by an ellipsis when it is not.
pub open spec fn spec_card_title(id: Seq<char>) -> Seq<char> {
    if id.len() < 40 {
        id
    } else {
        id.subrange(0, 40) + "..."@
    }
}

/// Builds the card label for one entry identifier.
pub fn card_title(pass_id: &str) -> (r: String)
    ensures
        r@ == spec_card_title(pass_id@),
{
    let n = pass_id.unicode_len();
    if n < 40 {
        pass_id.to_owned()
    } else {
        let mut s = pass_id.substring_char(0, 40).to_owned();
        s.append("...");
        s
    }
}

} // verus!
