//! The decisions a unicast transport takes around its links: which link a
//! message is scheduled on, what a failed push leads to, which receive channel
//! a frame or fragment belongs to, and how fragmentation markers steer the
//! reassembly buffer. The transport itself (pipelines, locks, buffers) acts on
//! these decisions.
use vstd::prelude::*;

use crate::link_control::LinkOverrides;
use crate::link_selection::{select_with_overrides, spec_select_with_overrides, LinkCandidate};
use crate::protocol_core::{Priority, Reliability, ZenohIdProto};

verus! {

/// The reliability a link offers: the configured one if any, else the one
/// of the underlying link.
pub fn link_reliability(configured: Option<Reliability>, link_is_reliable: bool) -> (r: Reliability)
    ensures
        r == match configured {
            Some(c) => c,
            None => if link_is_reliable { Reliability::Reliable } else { Reliability::BestEffort },
        },
{
    match configured {
        Some(c) => c,
        None => Reliability::from_is_reliable(link_is_reliable),
    }
}

/// The link a message is scheduled on: the link chosen under the overrides
/// for a message of the message's reliability and priority, or none (the
/// message is then dropped).
pub fn scheduled_link(
    links: &[LinkCandidate],
    message_is_reliable: bool,
    priority: Priority,
    peer_zid: &ZenohIdProto,
    overrides: &LinkOverrides,
) -> (r: Option<usize>)
    ensures
        ({
            let rel = if message_is_reliable { Reliability::Reliable } else { Reliability::BestEffort };
            let forced = if overrides.forced().contains_key(peer_zid.id) {
                Some(overrides.forced()[peer_zid.id])
            } else {
                None
            };
            let chosen = spec_select_with_overrides(links@, rel, priority, forced, overrides.disabled());
            &&& r matches Some(i) ==> chosen == Some(i as int)
            &&& r is None ==> chosen is None
        }),
{
    select_with_overrides(links, Reliability::from_is_reliable(message_is_reliable), priority, peer_zid, overrides)
}

/// What follows a push of a message into a link's pipeline.
#[derive(Debug, Clone, Copy, PartialEq, Eq, Structural)]
pub enum PushOutcome {
    /// The message was queued.
    Sent,
    /// The pipeline refused a message that may be dropped.
    Dropped,
    /// The pipeline refused a message that may not be dropped: the transport
    /// is closed as unresponsive.
    CloseTransport,
}

/// What follows a push: a refused message that may not be dropped closes the
/// transport.
pub fn push_outcome(pushed: bool, droppable: bool) -> (r: PushOutcome)
    ensures
        pushed ==> r == PushOutcome::Sent,
        !pushed && droppable ==> r == PushOutcome::Dropped,
        !pushed && !droppable ==> r == PushOutcome::CloseTransport,
{
    if pushed {
        PushOutcome::Sent
    } else if droppable {
        PushOutcome::Dropped
    } else {
        PushOutcome::CloseTransport
    }
}

/// The receive channel of a frame or fragment of priority `priority`: with
/// QoS, the channel of that priority; without, channel 0, which only carries
/// the default priority (`Data`); any other priority is an error.
pub fn rx_channel(is_qos: bool, priority: Priority) -> (r: Option<usize>)
    ensures
        is_qos ==> r == Some(priority.level() as usize),
        !is_qos && priority == Priority::Data ==> r == Some(0usize),
        !is_qos && priority != Priority::Data ==> r is None,
{
    if is_qos {
        Some(priority.as_u8() as usize)
    } else if priority == Priority::Data {
        Some(0)
    } else {
        None
    }
}

/// What to do with the reassembly buffer for a received fragment.
#[derive(Debug, Clone, Copy, PartialEq, Eq, Structural)]
pub struct FragmentPlan {
    /// Empty the buffer first.
    pub clear: bool,
    /// Append the fragment (otherwise it is dropped).
    pub accept: bool,
    /// Start the buffer at the fragment's sequence number (the buffer is
    /// empty when the fragment is appended).
    pub sync: bool,
}

/// How a fragment is taken in. With fragmentation markers, a fragment that
/// starts a message empties the buffer; one that does not, arriving on an
/// empty buffer, is dropped; one marked as dropped empties the buffer and is
/// dropped. An accepted fragment arriving on an empty buffer starts it at its
/// sequence number.
pub open spec fn spec_fragment_plan(has_markers: bool, first: bool, drop: bool, buffer_empty: bool) -> FragmentPlan {
    if has_markers {
        if !first && buffer_empty {
            FragmentPlan { clear: false, accept: false, sync: false }
        } else if drop {
            FragmentPlan { clear: true, accept: false, sync: false }
        } else {
            FragmentPlan { clear: first, accept: true, sync: first || buffer_empty }
        }
    } else {
        FragmentPlan { clear: false, accept: true, sync: buffer_empty }
    }
}

/// Decide how a fragment is taken in; see [`spec_fragment_plan`].
pub fn plan_fragment(has_markers: bool, first: bool, drop: bool, buffer_empty: bool) -> (r: FragmentPlan)
    ensures
        r == spec_fragment_plan(has_markers, first, drop, buffer_empty),
{
    let mut clear = false;
    let mut empty = buffer_empty;
    if has_markers {
        if first {
            clear = true;
            empty = true;
        } else if buffer_empty {
            return FragmentPlan { clear: false, accept: false, sync: false };
        }
        if drop {
            return FragmentPlan { clear: true, accept: false, sync: false };
        }
    }
    FragmentPlan { clear, accept: true, sync: empty }
}

/// Without fragmentation markers every fragment is appended.
pub proof fn lemma_no_markers_accepts(first: bool, drop: bool, buffer_empty: bool)
    ensures
        spec_fragment_plan(false, first, drop, buffer_empty).accept,
        !spec_fragment_plan(false, first, drop, buffer_empty).clear,
{
}

/// A fragment appended to an empty buffer always starts it at its sequence
/// number.
pub proof fn lemma_accepted_on_empty_buffer_syncs(has_markers: bool, first: bool, drop: bool)
    ensures
        spec_fragment_plan(has_markers, first, drop, true).accept ==> spec_fragment_plan(
            has_markers,
            first,
            drop,
            true,
        ).sync,
{
}

} // verus!
