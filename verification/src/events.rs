//! The event vocabulary of the store, and the ordered buffer that an
//! operation's events are emitted into.
//!
//! Events belonging to one operation are observed in emission order; the
//! surrounding binary forwards a drained buffer onto its notification
//! channel unchanged, so the order proved here is the order seen.

use vstd::prelude::*;
use crate::text::str_eq;

verus! {

/// One message from a background operation to the interactive layer: a
/// transient status text, a request to clear the status, or a terminal
/// result payload.
#[derive(Debug, Clone)]
pub enum ChannelEvent {
    /// Human-readable progress text or an error surfaced for display.
    Status(String),
    /// Clears the displayed status after a successful fetch.
    ResetStatus,
    /// The decrypted contents of one entry, keyed by its identifier.
    PasswordInfo { pass_id: String, file_contents: String },
    /// A derived one-time code, keyed by the entry it was derived for.
    OneTimePassword { pass_id: String, one_time_password: String },
}

/// The view of an event: the same shape over character sequences.
pub enum EventView {
    Status(Seq<char>),
    ResetStatus,
    PasswordInfo { pass_id: Seq<char>, file_contents: Seq<char> },
    OneTimePassword { pass_id: Seq<char>, one_time_password: Seq<char> },
}

impl View for ChannelEvent {
    type V = EventView;

    open spec fn view(&self) -> EventView {
        match self {
            ChannelEvent::Status(s) => EventView::Status(s@),
            ChannelEvent::ResetStatus => EventView::ResetStatus,
            ChannelEvent::PasswordInfo { pass_id, file_contents } => EventView::PasswordInfo {
                pass_id: pass_id@,
                file_contents: file_contents@,
            },
            ChannelEvent::OneTimePassword { pass_id, one_time_password } =>
                EventView::OneTimePassword {
                    pass_id: pass_id@,
                    one_time_password: one_time_password@,
                },
        }
    }
}

impl PartialEq for ChannelEvent {
    fn eq(&self, other: &Self) -> (r: bool) {
        match (self, other) {
            (ChannelEvent::Status(a), ChannelEvent::Status(b)) => str_eq(a.as_str(), b.as_str()),
            (ChannelEvent::ResetStatus, ChannelEvent::ResetStatus) => true,
            (
                ChannelEvent::PasswordInfo { pass_id: ai, file_contents: ac },
                ChannelEvent::PasswordInfo { pass_id: bi, file_contents: bc },
            ) => str_eq(ai.as_str(), bi.as_str()) && str_eq(ac.as_str(), bc.as_str()),
            (
                ChannelEvent::OneTimePassword { pass_id: ai, one_time_password: ac },
                ChannelEvent::OneTimePassword { pass_id: bi, one_time_password: bc },
            ) => str_eq(ai.as_str(), bi.as_str()) && str_eq(ac.as_str(), bc.as_str()),
            _ => false,
        }
    }
}

impl vstd::std_specs::cmp::PartialEqSpecImpl for ChannelEvent {
    open spec fn obeys_eq_spec() -> bool {
        true
    }

    open spec fn eq_spec(&self, other: &Self) -> bool {
        self@ == other@
    }
}

/// An ordered buffer of events, filled by one operation and drained by the
/// caller. Emission order is preserved.
pub struct EventSink {
    events: Vec<ChannelEvent>,
}

impl View for EventSink {
    type V = Seq<EventView>;

    closed spec fn view(&self) -> Seq<EventView> {
        self.events@.map_values(|e: ChannelEvent| e@)
    }
}

impl EventSink {
    /// An empty buffer.
    pub fn new() -> (r: Self)
        ensures
            r@ == Seq::<EventView>::empty(),
    {
        let r = EventSink { events: Vec::new() };
        proof {
            assert(r@ =~= Seq::<EventView>::empty());
        }
        r
    }

    /// Appends one event; everything already emitted stays in place.
    pub fn emit(&mut self, e: ChannelEvent)
        ensures
            final(self)@ == old(self)@.push(e@),
    {
        let ghost evold = self.events@;
        self.events.push(e);
        proof {
            assert(self@ =~= evold.map_values(|ev: ChannelEvent| ev@).push(e@));
        }
    }

    /// Hands the buffered events out in emission order, leaving the buffer
    /// empty.
    pub fn drain(&mut self) -> (r: Vec<ChannelEvent>)
        ensures
            r@.map_values(|e: ChannelEvent| e@) == old(self)@,
            final(self)@ == Seq::<EventView>::empty(),
    {
        let mut out: Vec<ChannelEvent> = Vec::new();
        core::mem::swap(&mut out, &mut self.events);
        proof {
            assert(self@ =~= Seq::<EventView>::empty());
        }
        out
    }

    /// How many events stand in the buffer.
    pub fn len(&self) -> (r: usize)
        ensures
            r == self@.len(),
    {
        self.events.len()
    }
}

} // verus!
