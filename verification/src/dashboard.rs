//! The dashboard's routing: one screen composed of the password list and the
//! password details, passing each message to the part it belongs to and a
//! chosen entry from the list into the details.

use vstd::prelude::*;
use crate::details::{self, PasswordDetails};
use crate::password_info::PasswordInfo;
use crate::password_list::{self, PasswordList};

verus! {

/// A message to the dashboard: one for the list, or one for the details.
#[derive(Debug, Clone)]
pub enum Message {
    PasswordList(password_list::Message),
    PasswordDetails(details::Message),
}

/// The dashboard: the entry list beside the details of the chosen entry.
pub struct Dashboard {
    pub password_list: PasswordList,
    pub password_details: PasswordDetails,
}

impl Dashboard {
    /// A fresh dashboard over a scanned catalog: full list, empty details.
    pub fn new(passwords: Vec<PasswordInfo>) -> (r: Self)
        ensures
            r.password_list.passwords@ == passwords@,
            r.password_list.search@.len() == 0,
            details::entry_view(&r.password_details.entry) is None,
    {
        Dashboard {
            password_list: PasswordList::new(passwords),
            password_details: PasswordDetails::new(),
        }
    }

    pub fn title(&self) -> (r: String)
        ensures
            r@ == "Partout"@,
    {
        String::from_str("Partout")
    }

    /// Routes a message to the part it belongs to; an entry chosen in the
    /// list becomes a selection in the details. The returned action is the
    /// side-effecting work the details ask for, `Idle` where nothing is.
    pub fn update(&mut self, message: Message, store_dir: &str) -> (a: details::Action)
        ensures
            final(self).password_list.passwords@ == old(self).password_list.passwords@,
            match message {
                Message::PasswordList(password_list::Message::SearchChanged(s)) => {
                    &&& final(self).password_list.search@ == s@
                    &&& a@ is Idle
                },
                Message::PasswordList(password_list::Message::SelectEntry(e)) => {
                    &&& final(self).password_list.search@ == old(self).password_list.search@
                    &&& details::spec_update(
                        old(self).password_details,
                        final(self).password_details,
                        details::Message::SelectEntry(e),
                        store_dir@,
                        a@,
                    )
                },
                Message::PasswordDetails(m) => {
                    &&& final(self).password_list.search@ == old(self).password_list.search@
                    &&& details::spec_update(
                        old(self).password_details,
                        final(self).password_details,
                        m,
                        store_dir@,
                        a@,
                    )
                },
            },
    {
        match message {
            Message::PasswordList(message) => {
                let action = self.password_list.update(message);
                match action {
                    password_list::Action::SelectEntry(entry) => self.password_details.update(
                        details::Message::SelectEntry(entry),
                        store_dir,
                    ),
                    password_list::Action::UpdateSearch => details::Action::Idle,
                }
            },
            Message::PasswordDetails(message) => self.password_details.update(message, store_dir),
        }
    }
}

} // verus!
