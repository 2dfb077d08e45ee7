//! The session configurator: builds an immutable session description and
//! produces a running session handle.
//!
//! A "session" is either a local self-test run (every player slot driven by
//! this process, used to validate rollback determinism without real peers) or
//! a networked run synchronized against remote peers. The networked variant
//! has no protocol yet: requesting it fails loudly instead of silently
//! degrading to local play.

use vstd::prelude::*;

use crate::frame::FrameIdx;
use crate::frame::wrap_inc;

verus! {

/// Wires the frame tracker into the rollback substrate: it contributes the
/// initial frame state to the substrate's registered state set and the
/// end-of-tick hook that is the counter's only mutation point.
pub struct SessionPlugin;

impl SessionPlugin {
    /// The frame state the plugin registers with the rollback substrate on
    /// startup: a counter at zero, included in the snapshot/restore set.
    pub fn initial_frame(&self) -> (f: FrameIdx)
        ensures
            f.0 == 0,
    {
        FrameIdx::default()
    }

    /// The hook the plugin schedules at the last stage of every
    /// deterministic tick, after all gameplay logic for the tick has run:
    /// advance the frame index by one, wrapping on overflow.
    pub fn end_of_tick(&self, frame_idx: &mut FrameIdx)
        ensures
            final(frame_idx).0 == wrap_inc(old(frame_idx).0),
    {
        frame_idx.advance();
    }
}

/// Number of player slots in every session roster.
pub const MAX_PLAYERS: usize = 2;

/// Rollback tolerance ("check distance") used for self-test sessions: how
/// many frames of divergence between predicted and confirmed state the
/// substrate permits before forcing a resync check.
pub const SELF_TEST_ROLLBACK_TOLERANCE: u32 = 7;

/// Who drives a player slot: this process, or a remote peer (by identifier).
#[derive(Clone, Copy, Debug, PartialEq, Eq, Structural)]
pub enum SlotOrigin {
    Local,
    Remote(u32),
}

/// How the deterministic simulation is distributed across participants.
#[derive(Clone, Copy, Debug, PartialEq, Eq, Structural)]
pub enum SessionTopology {
    LocalSelfTest,
    Networked,
}

/// Every slot of the roster is driven by this process.
pub open spec fn all_local(slots: Seq<SlotOrigin>) -> bool {
    forall|i: int| 0 <= i < slots.len() ==> slots[i] == SlotOrigin::Local
}

/// Immutable description of a session: player roster, rollback tolerance and
/// topology. Constructed once per session-start request, consumed to produce
/// a running [`SessionHandle`], never mutated afterwards.
#[derive(Clone, Debug, PartialEq, Eq)]
pub struct SessionDescriptor {
    pub topology: SessionTopology,
    pub player_slots: Vec<SlotOrigin>,
    pub rollback_tolerance: u32,
}

impl SessionDescriptor {
    /// Roster invariant: the slot count is fixed at [`MAX_PLAYERS`]. Slot
    /// indices are the stable addressing key for all per-player rollback
    /// state, so the roster never grows or shrinks.
    pub open spec fn wf(self) -> bool {
        self.player_slots@.len() == MAX_PLAYERS
    }

    /// The exact shape of a local self-test description: local-only
    /// topology, a full roster of locally driven slots, and the fixed
    /// self-test rollback tolerance.
    pub open spec fn is_local_self_test(self) -> bool {
        &&& self.wf()
        &&& self.topology == SessionTopology::LocalSelfTest
        &&& all_local(self.player_slots@)
        &&& self.rollback_tolerance == SELF_TEST_ROLLBACK_TOLERANCE
    }

    /// Build the description for a local self-test session: [`MAX_PLAYERS`]
    /// slots, all driven by this process, with the fixed self-test rollback
    /// tolerance.
    pub fn local_self_test() -> (d: SessionDescriptor)
        ensures
            d.is_local_self_test(),
    {
        let mut player_slots: Vec<SlotOrigin> = Vec::new();
        for i in 0..MAX_PLAYERS
            invariant
                player_slots@.len() == i,
                all_local(player_slots@),
        {
            player_slots.push(SlotOrigin::Local);
        }
        SessionDescriptor {
            topology: SessionTopology::LocalSelfTest,
            player_slots,
            rollback_tolerance: SELF_TEST_ROLLBACK_TOLERANCE,
        }
    }
}

/// The live, running session object: what the simulation loop and the
/// transport layer interact with each tick. Tagged with its topology so
/// downstream systems can branch without re-deriving it.
#[derive(Clone, Debug, PartialEq, Eq)]
pub struct SessionHandle {
    pub descriptor: SessionDescriptor,
}

impl SessionHandle {
    /// The topology tag of the running session.
    pub fn topology(&self) -> (t: SessionTopology)
        ensures
            t == self.descriptor.topology,
    {
        self.descriptor.topology
    }
}

/// Why a session-start request failed. Session start is not a
/// partial-success operation: after a failure, no new session is active.
#[derive(Clone, Copy, Debug, PartialEq, Eq, Structural)]
pub enum SessionStartError {
    /// Networked play was requested, but no networked-session protocol
    /// exists yet; the request halts with this explicit signal rather than
    /// silently degrading to local play.
    NetworkedUnimplemented,
}

/// Match metadata handed in by the matchmaking/transport collaborator. Its
/// presence means networked play was requested; it carries the peer-to-slot
/// mapping the networked branch would resolve the roster from.
#[derive(Clone, Debug, PartialEq, Eq)]
pub struct MatchInfo {
    pub slot_origins: Vec<SlotOrigin>,
}

/// Process-wide singleton session state: the optional match metadata, the
/// active session handle (at most one session at a time) and the frame
/// tracker registered with the rollback substrate.
#[derive(Clone, Debug)]
pub struct SessionManager {
    pub match_info: Option<MatchInfo>,
    pub active: Option<SessionHandle>,
    pub frame_idx: FrameIdx,
}

impl SessionManager {
    /// A manager with no active session and a fresh frame tracker, holding
    /// whatever match metadata the matchmaking collaborator supplied.
    pub fn new(match_info: Option<MatchInfo>) -> (m: SessionManager)
        ensures
            m.match_info == match_info,
            m.active is None,
            m.frame_idx.0 == 0,
    {
        SessionManager { match_info, active: None, frame_idx: FrameIdx(0) }
    }

    /// Set up the game session.
    ///
    /// With no match metadata present, this builds and installs a local
    /// self-test session, replacing any previously active session together
    /// with its rollback-registered state: the frame index resets to 0, and
    /// nothing of the prior session remains observable.
    ///
    /// With match metadata present, networked play was requested; that path
    /// is unimplemented and fails loudly, leaving the manager untouched.
    pub fn start_session(&mut self) -> (r: Result<(), SessionStartError>)
        ensures
            old(self).match_info is Some ==> {
                &&& r == Err::<(), SessionStartError>(SessionStartError::NetworkedUnimplemented)
                &&& *final(self) == *old(self)
            },
            old(self).match_info is None ==> {
                &&& r == Ok::<(), SessionStartError>(())
                &&& final(self).active matches Some(h) && h.descriptor.is_local_self_test()
                &&& final(self).frame_idx.0 == 0
                &&& final(self).match_info == old(self).match_info
            },
    {
        if self.match_info.is_some() {
            Err(SessionStartError::NetworkedUnimplemented)
        } else {
            let descriptor = SessionDescriptor::local_self_test();
            self.active = Some(SessionHandle { descriptor });
            self.frame_idx = FrameIdx(0);
            Ok(())
        }
    }
}

} // verus!
