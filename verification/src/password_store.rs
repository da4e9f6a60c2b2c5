//! The operation store: the orchestrator that holds the catalog, derives
//! operation identities, consults the registry, and hands each granted
//! request to the surrounding binary as a subprocess description.
//!
//! The catalog is the single source of truth for entry identifiers: a
//! request for an unknown identifier fails without reserving anything and
//! without side effects. A granted request reserves its identity and emits
//! the starting status; the binary runs the external tool, concludes through
//! the executor, and then calls `complete` exactly once, which returns the
//! identity to idle — a failed run is retryable by a fresh request.

use vstd::prelude::*;
use crate::catalog::{spec_resolve_root, resolve_store_root};
use crate::errors::{ErrorView, PasswordError};
use crate::events::{EventSink, EventView};
use crate::executor::{
    begin_operation, captures_output, command_args, spec_captures_output, spec_command_args,
    spec_starting_status,
};
use crate::password_info::PasswordInfo;
use crate::registry::{after_begin, after_complete, begin_granted, OpId, OpKind, Registry};
use crate::text::{opt_view, str_eq};

verus! {

/// Relies on dirs::home_dir: the user's home directory, where the platform
/// reports one whose path is valid Unicode; what it is depends on the
/// environment, so nothing more is promised.
#[verifier::external_body]
pub fn home_dir() -> Option<String> {
    dirs::home_dir().and_then(|p| p.to_str().map(|s| s.to_string()))
}

/// Resolves the store root against whatever home directory the platform
/// reports: some home-resolution of the override on success, and
/// `StoreUnresolvable` where no home directory is known.
pub fn get_store_dir(override_dir: Option<String>) -> (r: Result<String, PasswordError>)
    ensures
        match r {
            Ok(root) => exists|h: Seq<char>|
                #[trigger] spec_resolve_root(opt_view(&override_dir), Option::Some(h))
                    == Option::Some(root@),
            Err(e) => e@ == ErrorView::StoreUnresolvable,
        },
{
    let home = home_dir();
    let ghost homev = opt_view(&home);
    let r = resolve_store_root(override_dir, home);
    proof {
        if homev is Some {
            let h = homev->0;
            assert(spec_resolve_root(opt_view(&override_dir), Option::Some(h)) is Some);
        }
    }
    r
}

/// What a request came to: a reserved operation that must now be run, a
/// suppressed duplicate, or an unknown entry identifier.
#[derive(Debug)]
pub enum RequestOutcome {
    /// The identity was reserved; run the external tool with these
    /// arguments, capturing its output or suppressing its streams.
    Started { args: Vec<String>, capture: bool },
    /// The same operation is already in flight; let it continue undisturbed.
    Duplicate,
    /// The identifier names no catalog entry; nothing was reserved.
    UnknownEntry,
}

/// The operation store: the catalog and the registry of in-flight work.
pub struct PasswordStore {
    pub passwords: Vec<PasswordInfo>,
    pub registry: Registry,
}

/// How one request changes the store and the sink, for operation `kind` on
/// `pass_id`: an unknown identifier changes nothing; a duplicate changes
/// nothing; a granted request reserves the identity, emits the starting
/// status, and hands back the tool's argument vector.
pub open spec fn request_behavior(
    pre: PasswordStore,
    post: PasswordStore,
    pre_sink: Seq<EventView>,
    post_sink: Seq<EventView>,
    kind: OpKind,
    pass_id: Seq<char>,
    r: RequestOutcome,
) -> bool {
    &&& post.wf()
    &&& post.passwords@ == pre.passwords@
    &&& if !pre.catalog_contains(pass_id) {
        &&& r is UnknownEntry
        &&& post.running() == pre.running()
        &&& post_sink == pre_sink
    } else if begin_granted(pre.running(), (kind, pass_id)) {
        &&& (r matches RequestOutcome::Started { args, capture } && {
            &&& args@.map_values(|s: String| s@) == spec_command_args(kind, pass_id)
            &&& capture == spec_captures_output(kind)
        })
        &&& post.running() == after_begin(pre.running(), (kind, pass_id))
        &&& post_sink == pre_sink.push(EventView::Status(spec_starting_status(kind)))
    } else {
        &&& r is Duplicate
        &&& post.running() == pre.running()
        &&& post_sink == pre_sink
    }
}

impl PasswordStore {
    /// Well-formedness: the registry records each identity at most once.
    pub closed spec fn wf(&self) -> bool {
        self.registry.distinct()
    }

    /// The identities with an operation in flight.
    pub closed spec fn running(&self) -> Set<(OpKind, Seq<char>)> {
        self.registry@
    }

    /// Whether the catalog holds an entry with this identifier.
    pub open spec fn catalog_contains(&self, pass_id: Seq<char>) -> bool {
        exists|i: int|
            0 <= i < self.passwords@.len() && #[trigger] self.passwords@[i]@ == pass_id
    }

    /// A store over a scanned catalog, with nothing in flight.
    pub fn new(passwords: Vec<PasswordInfo>) -> (r: Self)
        ensures
            r.wf(),
            r.passwords@ == passwords@,
            r.running() == Set::<(OpKind, Seq<char>)>::empty(),
    {
        PasswordStore { passwords, registry: Registry::new() }
    }

    fn knows_entry(&self, pass_id: &str) -> (r: bool)
        ensures
            r == self.catalog_contains(pass_id@),
    {
        let n = self.passwords.len();
        let mut i: usize = 0;
        while i < n
            invariant
                i <= n,
                n == self.passwords@.len(),
                forall|j: int| 0 <= j < i ==> #[trigger] self.passwords@[j]@ != pass_id@,
            decreases n - i,
        {
            if str_eq(self.passwords[i].pass_id.as_str(), pass_id) {
                proof {
                    assert(self.passwords@[i as int]@ == pass_id@);
                }
                return true;
            }
            i = i + 1;
        }
        false
    }

    /// One user request: checks the catalog, derives the operation identity,
    /// and reserves it if nothing with that identity is running. Only a
    /// granted request has any effect; the caller must then run the tool and
    /// call `complete` exactly once when it has concluded.
    pub fn request(&mut self, kind: OpKind, pass_id: String, sink: &mut EventSink) -> (r:
        RequestOutcome)
        requires
            old(self).wf(),
        ensures
            request_behavior(*old(self), *final(self), old(sink)@, final(sink)@, kind, pass_id@, r),
    {
        if !self.knows_entry(pass_id.as_str()) {
            return RequestOutcome::UnknownEntry;
        }
        let args = command_args(kind, pass_id.as_str());
        let capture = captures_output(kind);
        if self.registry.try_begin(OpId::new(kind, pass_id)) {
            begin_operation(kind, sink);
            RequestOutcome::Started { args, capture }
        } else {
            RequestOutcome::Duplicate
        }
    }

    /// Reaps a terminated operation: the identity becomes available again,
    /// whether the run succeeded or failed.
    pub fn complete(&mut self, kind: OpKind, pass_id: String)
        requires
            old(self).wf(),
        ensures
            final(self).wf(),
            final(self).passwords@ == old(self).passwords@,
            final(self).running() == after_complete(old(self).running(), (kind, pass_id@)),
    {
        let id = OpId::new(kind, pass_id);
        self.registry.complete(&id);
    }

    /// Requests a copy of the entry's password to the clipboard.
    pub fn copy_password(&mut self, pass_id: String, sink: &mut EventSink) -> (r: RequestOutcome)
        requires
            old(self).wf(),
        ensures
            request_behavior(
                *old(self),
                *final(self),
                old(sink)@,
                final(sink)@,
                OpKind::CopyPassword,
                pass_id@,
                r,
            ),
    {
        self.request(OpKind::CopyPassword, pass_id, sink)
    }

    /// Requests a copy of the entry's login line to the clipboard.
    pub fn copy_login(&mut self, pass_id: String, sink: &mut EventSink) -> (r: RequestOutcome)
        requires
            old(self).wf(),
        ensures
            request_behavior(
                *old(self),
                *final(self),
                old(sink)@,
                final(sink)@,
                OpKind::CopyLogin,
                pass_id@,
                r,
            ),
    {
        self.request(OpKind::CopyLogin, pass_id, sink)
    }

    /// Requests a copy of a derived one-time code to the clipboard.
    pub fn copy_otp(&mut self, pass_id: String, sink: &mut EventSink) -> (r: RequestOutcome)
        requires
            old(self).wf(),
        ensures
            request_behavior(
                *old(self),
                *final(self),
                old(sink)@,
                final(sink)@,
                OpKind::CopyOtp,
                pass_id@,
                r,
            ),
    {
        self.request(OpKind::CopyOtp, pass_id, sink)
    }

    /// Requests a derived one-time code for display.
    pub fn fetch_otp(&mut self, pass_id: String, sink: &mut EventSink) -> (r: RequestOutcome)
        requires
            old(self).wf(),
        ensures
            request_behavior(
                *old(self),
                *final(self),
                old(sink)@,
                final(sink)@,
                OpKind::FetchOtp,
                pass_id@,
                r,
            ),
    {
        self.request(OpKind::FetchOtp, pass_id, sink)
    }

    /// Requests the entry's full decrypted contents for display.
    pub fn fetch_entry(&mut self, pass_id: String, sink: &mut EventSink) -> (r: RequestOutcome)
        requires
            old(self).wf(),
        ensures
            request_behavior(
                *old(self),
                *final(self),
                old(sink)@,
                final(sink)@,
                OpKind::FetchEntry,
                pass_id@,
                r,
            ),
    {
        self.request(OpKind::FetchEntry, pass_id, sink)
    }
}

} // verus!
