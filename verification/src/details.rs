//! The password-details state machine: what one selected entry shows, and
//! which side-effecting action each incoming message asks the surrounding
//! binary to perform.
//!
//! The machine never runs a subprocess or touches the clipboard itself: its
//! `update` returns an [`Action`] naming the work, the binary performs it
//! and feeds the outcome back as the next message. Decrypted text is parsed
//! here, by line position.

use vstd::prelude::*;
use crate::catalog::{entry_file_path, spec_entry_file_path};
use crate::password_info::PasswordInfo;
use crate::text::{has_prefix, opt_view, spec_lines, split_lines, str_eq, str_has_prefix};

verus! {

/// What one line-positional parse of a decrypted payload yields: line one is
/// the password, line two (if present) the login, and any later line opening
/// with the one-time-password URI scheme marker asks for code derivation.
pub struct ParsedEntry {
    pub password: Option<String>,
    pub login: Option<String>,
    pub has_otp: bool,
    pub line_count: usize,
}

/// Whether some line after the password and login positions starts with the
/// one-time-password URI scheme marker.
pub open spec fn spec_has_otp(lines: Seq<Seq<char>>) -> bool {
    exists|i: int| 2 <= i < lines.len() && has_prefix(#[trigger] lines[i], "otpauth://"@)
}

/// Parses a decrypted payload by line position.
pub fn parse_entry(contents: &str) -> (r: ParsedEntry)
    ensures
        ({
            let lines = spec_lines(contents@);
            &&& r.line_count == lines.len()
            &&& (match r.password {
                Option::Some(p) => lines.len() >= 1 && p@ == lines[0],
                Option::None => lines.len() == 0,
            })
            &&& (match r.login {
                Option::Some(l) => lines.len() >= 2 && l@ == lines[1],
                Option::None => lines.len() <= 1,
            })
            &&& r.has_otp == spec_has_otp(lines)
        }),
{
    let ghost linesv = spec_lines(contents@);
    let lines = split_lines(contents);
    let line_count = lines.len();
    let password = if lines.len() >= 1 {
        proof {
            assert(lines@[0]@ == linesv[0]);
        }
        Option::Some(lines[0].clone())
    } else {
        Option::None
    };
    let login = if lines.len() >= 2 {
        proof {
            assert(lines@[1]@ == linesv[1]);
        }
        Option::Some(lines[1].clone())
    } else {
        Option::None
    };
    let mut has_otp = false;
    let mut i: usize = 2;
    let n = lines.len();
    if n > 2 {
        while i < n
            invariant_except_break
                2 <= i <= n,
                n == lines@.len(),
                lines@.map_values(|l: String| l@) == linesv,
                forall|j: int| 2 <= j < i ==> !has_prefix(#[trigger] linesv[j], "otpauth://"@),
                !has_otp,
            ensures
                has_otp == spec_has_otp(linesv),
            decreases n - i,
        {
            proof {
                assert(lines@[i as int]@ == linesv[i as int]);
            }
            if str_has_prefix(lines[i].as_str(), "otpauth://") {
                has_otp = true;
                proof {
                    assert(spec_has_otp(linesv));
                }
                break;
            }
            i = i + 1;
        }
    } else {
        proof {
            assert(!spec_has_otp(linesv));
        }
    }
    ParsedEntry { password, login, has_otp, line_count }
}

/// A message to the details screen: a user choice, or the outcome of an
/// action the binary performed.
#[derive(Debug, Clone)]
pub enum Message {
    SelectEntry(PasswordInfo),
    ShowSecrets,
    HideSecrets,
    CopyId(PasswordInfo),
    ShowFile,
    CopyPassword(PasswordInfo),
    CopyLogin(PasswordInfo),
    FetchOtp(PasswordInfo),
    CopyOtp(PasswordInfo),
    EntryFetched(String, String),
    OtpFetched(String, String),
    IdCopied(bool),
    PasswordCopied(bool),
    LoginCopied(bool),
    OtpCopied(bool),
}

/// The side-effecting work that `update` asks the surrounding binary to
/// perform: decrypt a file, derive a one-time code from a file, or copy
/// something to the clipboard. `Idle` asks for nothing.
#[derive(Debug, Clone)]
pub enum Action {
    Idle,
    FetchEntryFile { pass_id: String, file_path: String },
    GenerateOtp { pass_id: String, file_path: String },
    CopyEntryId { pass_id: String },
    CopyPasswordFile { file_path: String },
    CopyLoginFile { file_path: String },
    CopyOtpFile { file_path: String },
}

/// The details screen's state: the selected entry, what was decrypted and
/// parsed from it, and what is currently shown or masked.
pub struct PasswordDetails {
    pub entry: Option<PasswordInfo>,
    pub show_secrets: bool,
    pub file_contents: Option<String>,
    pub line_count: Option<usize>,
    pub password: Option<String>,
    pub login: Option<String>,
    pub otp: Option<String>,
    pub show_file: bool,
    pub status: Option<String>,
}

/// The view of the selected entry's identifier.
pub open spec fn entry_view(o: &Option<PasswordInfo>) -> Option<Seq<char>> {
    match o {
        Option::Some(p) => Option::Some(p@),
        Option::None => Option::None,
    }
}

impl PasswordDetails {
    /// A fresh screen: nothing selected, everything masked.
    pub fn new() -> (r: Self)
        ensures
            entry_view(&r.entry) is None,
            !r.show_secrets,
            opt_view(&r.file_contents) is None,
            r.line_count is None,
            opt_view(&r.password) is None,
            opt_view(&r.login) is None,
            opt_view(&r.otp) is None,
            !r.show_file,
            opt_view(&r.status) is None,
    {
        PasswordDetails {
            entry: Option::None,
            show_secrets: false,
            file_contents: Option::None,
            line_count: Option::None,
            password: Option::None,
            login: Option::None,
            otp: Option::None,
            show_file: false,
            status: Option::None,
        }
    }

    /// Selects an entry: everything parsed from the previous entry is
    /// dropped, and nothing is shown until the new entry is fetched.
    pub fn select(&mut self, entry: PasswordInfo)
        ensures
            entry_view(&final(self).entry) == Option::Some(entry@),
            opt_view(&final(self).file_contents) is None,
            final(self).line_count is None,
            opt_view(&final(self).password) is None,
            opt_view(&final(self).login) is None,
            opt_view(&final(self).otp) is None,
            opt_view(&final(self).status) is None,
            final(self).show_secrets == old(self).show_secrets,
            final(self).show_file == old(self).show_file,
    {
        self.entry = Option::Some(entry);
        self.file_contents = Option::None;
        self.line_count = Option::None;
        self.password = Option::None;
        self.login = Option::None;
        self.otp = Option::None;
        self.status = Option::None;
    }

    /// Unmasks the secret fields.
    pub fn show_secrets(&mut self)
        ensures
            *final(self) == (PasswordDetails { show_secrets: true, ..*old(self) }),
    {
        self.show_secrets = true;
    }

    /// Masks the secret fields again.
    pub fn hide_secrets(&mut self)
        ensures
            *final(self) == (PasswordDetails { show_secrets: false, ..*old(self) }),
    {
        self.show_secrets = false;
    }
}

} // verus!

verus! {

/// The view of an action, over character sequences.
pub enum ActionView {
    Idle,
    FetchEntryFile { pass_id: Seq<char>, file_path: Seq<char> },
    GenerateOtp { pass_id: Seq<char>, file_path: Seq<char> },
    CopyEntryId { pass_id: Seq<char> },
    CopyPasswordFile { file_path: Seq<char> },
    CopyLoginFile { file_path: Seq<char> },
    CopyOtpFile { file_path: Seq<char> },
}

impl View for Action {
    type V = ActionView;

    open spec fn view(&self) -> ActionView {
        match self {
            Action::Idle => ActionView::Idle,
            Action::FetchEntryFile { pass_id, file_path } => ActionView::FetchEntryFile {
                pass_id: pass_id@,
                file_path: file_path@,
            },
            Action::GenerateOtp { pass_id, file_path } => ActionView::GenerateOtp {
                pass_id: pass_id@,
                file_path: file_path@,
            },
            Action::CopyEntryId { pass_id } => ActionView::CopyEntryId { pass_id: pass_id@ },
            Action::CopyPasswordFile { file_path } => ActionView::CopyPasswordFile {
                file_path: file_path@,
            },
            Action::CopyLoginFile { file_path } => ActionView::CopyLoginFile {
                file_path: file_path@,
            },
            Action::CopyOtpFile { file_path } => ActionView::CopyOtpFile { file_path: file_path@ },
        }
    }
}

/// The selected entry and everything parsed from it read the same in `pre`
/// and `post`.
pub open spec fn same_core(pre: PasswordDetails, post: PasswordDetails) -> bool {
    &&& entry_view(&post.entry) == entry_view(&pre.entry)
    &&& opt_view(&post.file_contents) == opt_view(&pre.file_contents)
    &&& post.line_count == pre.line_count
    &&& opt_view(&post.password) == opt_view(&pre.password)
    &&& opt_view(&post.login) == opt_view(&pre.login)
}

/// What `update_fields` does with a decrypted payload: nothing without a
/// selected entry; only an error status if the payload answers a different
/// entry; otherwise the parsed fields, and a request to derive a one-time
/// code when some line asks for one.
pub open spec fn spec_fields_updated(
    pre: PasswordDetails,
    post: PasswordDetails,
    id: Seq<char>,
    contents: Seq<char>,
    store_dir: Seq<char>,
    a: ActionView,
) -> bool {
    match entry_view(&pre.entry) {
        Option::None => {
            &&& same_core(pre, post)
            &&& post.show_secrets == pre.show_secrets
            &&& post.show_file == pre.show_file
            &&& opt_view(&post.otp) == opt_view(&pre.otp)
            &&& opt_view(&post.status) == opt_view(&pre.status)
            &&& a == ActionView::Idle
        },
        Option::Some(pid) => if id != pid {
            &&& same_core(pre, post)
            &&& post.show_secrets == pre.show_secrets
            &&& post.show_file == pre.show_file
            &&& opt_view(&post.otp) == opt_view(&pre.otp)
            &&& opt_view(&post.status) == Option::Some("Something went wrong"@)
            &&& a == ActionView::Idle
        } else {
            let lines = spec_lines(contents);
            &&& entry_view(&post.entry) == entry_view(&pre.entry)
            &&& post.show_secrets == pre.show_secrets
            &&& post.show_file == pre.show_file
            &&& opt_view(&post.status) is None
            &&& opt_view(&post.file_contents) == Option::Some(contents)
            &&& (post.line_count matches Option::Some(n) && n == lines.len())
            &&& (match opt_view(&post.password) {
                Option::Some(p) => lines.len() >= 1 && p == lines[0],
                Option::None => lines.len() == 0,
            })
            &&& (match opt_view(&post.login) {
                Option::Some(l) => lines.len() >= 2 && l == lines[1],
                Option::None => lines.len() <= 1,
            })
            &&& if spec_has_otp(lines) {
                &&& opt_view(&post.otp) == Option::Some("******"@)
                &&& a == (ActionView::GenerateOtp {
                    pass_id: pid,
                    file_path: spec_entry_file_path(store_dir, pid),
                })
            } else {
                &&& opt_view(&post.otp) == opt_view(&pre.otp)
                &&& a == ActionView::Idle
            }
        },
    }
}

impl PasswordDetails {
    /// Takes a decrypted payload for entry `id`, parses it by line position,
    /// and fills the screen's fields, as `spec_fields_updated` lays out.
    pub fn update_fields(&mut self, id: String, file_contents: String, store_dir: &str) -> (a:
        Action)
        ensures
            spec_fields_updated(
                *old(self),
                *final(self),
                id@,
                file_contents@,
                store_dir@,
                a@,
            ),
    {
        let pid = match &self.entry {
            Option::None => {
                return Action::Idle;
            },
            Option::Some(e) => e.pass_id.clone(),
        };
        if !str_eq(id.as_str(), pid.as_str()) {
            self.status = Option::Some(String::from_str("Something went wrong"));
            return Action::Idle;
        }
        self.status = Option::None;
        let parsed = parse_entry(file_contents.as_str());
        self.file_contents = Option::Some(file_contents);
        self.line_count = Option::Some(parsed.line_count);
        self.password = parsed.password;
        self.login = parsed.login;
        if parsed.has_otp {
            self.otp = Option::Some(String::from_str("******"));
            let file_path = entry_file_path(store_dir, pid.as_str());
            Action::GenerateOtp { pass_id: pid, file_path }
        } else {
            Action::Idle
        }
    }
}

} // verus!

verus! {

/// Only the displayed status may differ between `pre` and `post`.
pub open spec fn only_status_changed(pre: PasswordDetails, post: PasswordDetails) -> bool {
    &&& same_core(pre, post)
    &&& post.show_secrets == pre.show_secrets
    &&& post.show_file == pre.show_file
    &&& opt_view(&post.otp) == opt_view(&pre.otp)
}

/// The status a copy outcome sets: a confirmation, or a generic complaint.
pub open spec fn copied_status(done: Seq<char>, success: bool) -> Seq<char> {
    if success {
        done
    } else {
        "Something went wrong"@
    }
}

/// How one message moves the screen from `pre` to `post`, and which action
/// comes back, with the store root `store_dir`.
pub open spec fn spec_update(
    pre: PasswordDetails,
    post: PasswordDetails,
    message: Message,
    store_dir: Seq<char>,
    a: ActionView,
) -> bool {
    match message {
        Message::SelectEntry(entry) => {
            &&& entry_view(&post.entry) == Option::Some(entry@)
            &&& post.show_secrets == false
            &&& opt_view(&post.file_contents) is None
            &&& post.line_count is None
            &&& opt_view(&post.password) is None
            &&& opt_view(&post.login) is None
            &&& opt_view(&post.otp) is None
            &&& post.show_file == pre.show_file
            &&& opt_view(&post.status) == Option::Some(
                "Fetching password entry..."@,
            )
            &&& a == (ActionView::FetchEntryFile {
                pass_id: entry@,
                file_path: spec_entry_file_path(store_dir, entry@),
            })
        },
        Message::EntryFetched(id, result) => spec_fields_updated(
            pre,
            post,
            id@,
            result@,
            store_dir,
            a,
        ),
        Message::ShowSecrets => {
            &&& post == (PasswordDetails {
                show_secrets: true,
                ..pre
            })
            &&& a == match entry_view(&pre.entry) {
                Option::Some(pid) => ActionView::GenerateOtp {
                    pass_id: pid,
                    file_path: spec_entry_file_path(store_dir, pid),
                },
                Option::None => ActionView::Idle,
            }
        },
        Message::HideSecrets => {
            &&& post == (PasswordDetails {
                show_secrets: false,
                ..pre
            })
            &&& a == ActionView::Idle
        },
        Message::CopyId(entry) => {
            &&& only_status_changed(pre, post)
            &&& opt_view(&post.status) == Option::Some(
                "Copying password ID to clipboard..."@,
            )
            &&& a == (ActionView::CopyEntryId { pass_id: entry@ })
        },
        Message::IdCopied(success) => {
            &&& only_status_changed(pre, post)
            &&& opt_view(&post.status) == Option::Some(
                copied_status("Password ID copied to clipboard"@, success),
            )
            &&& a == ActionView::Idle
        },
        Message::ShowFile => {
            &&& same_core(pre, post)
            &&& opt_view(&post.otp) == opt_view(&pre.otp)
            &&& opt_view(&post.status) == opt_view(&pre.status)
            &&& post.show_file == !pre.show_file
            &&& post.show_secrets == (pre.show_secrets || !pre.show_file)
            &&& a == ActionView::Idle
        },
        Message::CopyPassword(entry) => {
            &&& only_status_changed(pre, post)
            &&& opt_view(&post.status) == Option::Some(
                "Copying password to clipboard..."@,
            )
            &&& a == (ActionView::CopyPasswordFile {
                file_path: spec_entry_file_path(store_dir, entry@),
            })
        },
        Message::PasswordCopied(success) => {
            &&& only_status_changed(pre, post)
            &&& opt_view(&post.status) == Option::Some(
                copied_status("Password copied to clipboard"@, success),
            )
            &&& a == ActionView::Idle
        },
        Message::CopyLogin(entry) => {
            &&& only_status_changed(pre, post)
            &&& opt_view(&post.status) == Option::Some(
                "Copying login to clipboard..."@,
            )
            &&& a == (ActionView::CopyLoginFile {
                file_path: spec_entry_file_path(store_dir, entry@),
            })
        },
        Message::LoginCopied(success) => {
            &&& only_status_changed(pre, post)
            &&& opt_view(&post.status) == Option::Some(
                copied_status("Login copied to clipboard"@, success),
            )
            &&& a == ActionView::Idle
        },
        Message::CopyOtp(entry) => {
            &&& only_status_changed(pre, post)
            &&& opt_view(&post.status) == Option::Some(
                "Copying one-time password to clipboard..."@,
            )
            &&& a == (ActionView::CopyOtpFile {
                file_path: spec_entry_file_path(store_dir, entry@),
            })
        },
        Message::OtpCopied(success) => {
            &&& only_status_changed(pre, post)
            &&& opt_view(&post.status) == Option::Some(
                copied_status("One-time password (OTP) copied to clipboard"@, success),
            )
            &&& a == ActionView::Idle
        },
        Message::FetchOtp(entry) => {
            &&& only_status_changed(pre, post)
            &&& opt_view(&post.status) == Option::Some(
                "Fetching one-time password..."@,
            )
            &&& a == (ActionView::GenerateOtp {
                pass_id: entry@,
                file_path: spec_entry_file_path(store_dir, entry@),
            })
        },
        Message::OtpFetched(id, otp) => {
            &&& same_core(pre, post)
            &&& post.show_secrets == pre.show_secrets
            &&& post.show_file == pre.show_file
            &&& a == ActionView::Idle
            &&& match entry_view(&pre.entry) {
                Option::Some(pid) => {
                    &&& opt_view(&post.otp) == (if pid == id@ {
                        Option::Some(otp@)
                    } else {
                        opt_view(&pre.otp)
                    })
                    &&& opt_view(&post.status) is None
                },
                Option::None => {
                    &&& opt_view(&post.otp) == opt_view(&pre.otp)
                    &&& opt_view(&post.status) == Option::Some(
                        "Something went wrong"@,
                    )
                },
            }
        },
    }
}

impl PasswordDetails {
    /// Takes one message, moves the screen to its next state, and names the
    /// side-effecting work the caller must perform, if any. `store_dir` is
    /// the catalog root, used to resolve entry file paths.
    pub fn update(&mut self, message: Message, store_dir: &str) -> (a: Action)
        ensures
            spec_update(*old(self), *final(self), message, store_dir@, a@),
    {
        match message {
            Message::SelectEntry(entry) => {
                self.show_secrets = false;
                let pass_id = entry.pass_id.clone();
                self.select(entry);
                self.status = Option::Some(String::from_str("Fetching password entry..."));
                let file_path = entry_file_path(store_dir, pass_id.as_str());
                Action::FetchEntryFile { pass_id, file_path }
            },
            Message::EntryFetched(id, result) => self.update_fields(id, result, store_dir),
            Message::ShowSecrets => {
                self.show_secrets();
                match &self.entry {
                    Option::Some(entry) => {
                        let pass_id = entry.pass_id.clone();
                        let file_path = entry_file_path(store_dir, pass_id.as_str());
                        Action::GenerateOtp { pass_id, file_path }
                    },
                    Option::None => Action::Idle,
                }
            },
            Message::HideSecrets => {
                self.hide_secrets();
                Action::Idle
            },
            Message::CopyId(entry) => {
                self.status = Option::Some(
                    String::from_str("Copying password ID to clipboard..."),
                );
                Action::CopyEntryId { pass_id: entry.pass_id }
            },
            Message::IdCopied(success) => {
                if success {
                    self.status = Option::Some(
                        String::from_str("Password ID copied to clipboard"),
                    );
                } else {
                    self.status = Option::Some(String::from_str("Something went wrong"));
                }
                Action::Idle
            },
            Message::ShowFile => {
                if self.show_file {
                    self.show_file = false;
                } else {
                    self.show_file = true;
                    self.show_secrets = true;
                }
                Action::Idle
            },
            Message::CopyPassword(entry) => {
                self.status = Option::Some(String::from_str("Copying password to clipboard..."));
                let file_path = entry_file_path(store_dir, entry.pass_id.as_str());
                Action::CopyPasswordFile { file_path }
            },
            Message::PasswordCopied(success) => {
                if success {
                    self.status = Option::Some(String::from_str("Password copied to clipboard"));
                } else {
                    self.status = Option::Some(String::from_str("Something went wrong"));
                }
                Action::Idle
            },
            Message::CopyLogin(entry) => {
                self.status = Option::Some(String::from_str("Copying login to clipboard..."));
                let file_path = entry_file_path(store_dir, entry.pass_id.as_str());
                Action::CopyLoginFile { file_path }
            },
            Message::LoginCopied(success) => {
                if success {
                    self.status = Option::Some(String::from_str("Login copied to clipboard"));
                } else {
                    self.status = Option::Some(String::from_str("Something went wrong"));
                }
                Action::Idle
            },
            Message::CopyOtp(entry) => {
                self.status = Option::Some(
                    String::from_str("Copying one-time password to clipboard..."),
                );
                let file_path = entry_file_path(store_dir, entry.pass_id.as_str());
                Action::CopyOtpFile { file_path }
            },
            Message::OtpCopied(success) => {
                if success {
                    self.status = Option::Some(
                        String::from_str("One-time password (OTP) copied to clipboard"),
                    );
                } else {
                    self.status = Option::Some(String::from_str("Something went wrong"));
                }
                Action::Idle
            },
            Message::FetchOtp(entry) => {
                self.status = Option::Some(String::from_str("Fetching one-time password..."));
                let file_path = entry_file_path(store_dir, entry.pass_id.as_str());
                Action::GenerateOtp { pass_id: entry.pass_id, file_path }
            },
            Message::OtpFetched(id, otp) => {
                match &self.entry {
                    Option::Some(entry) => {
                        if str_eq(entry.pass_id.as_str(), id.as_str()) {
                            self.otp = Option::Some(otp);
                        }
                        self.status = Option::None;
                    },
                    Option::None => {
                        self.status = Option::Some(String::from_str("Something went wrong"));
                    },
                }
                Action::Idle
            },
        }
    }
}

} // verus!

verus! {

impl PasswordDetails {
    /// What the password field shows: the password itself only while
    /// secrets are unmasked and one is known; a fixed mask otherwise.
    pub fn password_display(&self) -> (r: String)
        ensures
            r@ == (if self.show_secrets && opt_view(&self.password) is Some {
                opt_view(&self.password)->0
            } else {
                "********"@
            }),
    {
        if self.show_secrets {
            match &self.password {
                Option::Some(p) => p.clone(),
                Option::None => String::from_str("********"),
            }
        } else {
            String::from_str("********")
        }
    }

    /// What the login field shows while a login is known: the login itself
    /// only while secrets are unmasked; a fixed mask otherwise.
    pub fn login_display(&self) -> (r: String)
        ensures
            r@ == (if self.show_secrets && opt_view(&self.login) is Some {
                opt_view(&self.login)->0
            } else {
                "####"@
            }),
    {
        if self.show_secrets {
            match &self.login {
                Option::Some(l) => l.clone(),
                Option::None => String::from_str("####"),
            }
        } else {
            String::from_str("####")
        }
    }

    /// What the one-time-password field shows while a code is known: the
    /// code itself only while secrets are unmasked; a fixed mask otherwise.
    pub fn otp_display(&self) -> (r: String)
        ensures
            r@ == (if self.show_secrets && opt_view(&self.otp) is Some {
                opt_view(&self.otp)->0
            } else {
                "******"@
            }),
    {
        if self.show_secrets {
            match &self.otp {
                Option::Some(o) => o.clone(),
                Option::None => String::from_str("******"),
            }
        } else {
            String::from_str("******")
        }
    }
}

} // verus!
