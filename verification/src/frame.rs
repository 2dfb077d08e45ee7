//! The frame tracker: a rollback-aware counter of deterministic simulation
//! ticks.
//!
//! The frame index counts how many simulation ticks have executed since
//! session start. It is diagnostic-only state, so it wraps on overflow rather
//! than faulting, but it must be part of the rollback substrate's registered
//! state set: when the substrate rewinds to a past tick and replays forward,
//! the frame index must be re-derivable exactly, or the counter would drift
//! from the simulation state it annotates.

use vstd::prelude::*;

verus! {

/// The current game-logic frame, as distinct from a render frame, in the
/// presence of rollback.
///
/// Primarily used for diagnostics.
#[derive(Clone, Copy, Debug, PartialEq, Eq, Structural)]
pub struct FrameIdx(pub u32);

/// One step of the frame counter: increment, wrapping to 0 past `u32::MAX`.
pub open spec fn wrap_inc(v: u32) -> u32 {
    if v == u32::MAX {
        0u32
    } else {
        (v + 1) as u32
    }
}

/// The frame index reached from `start` after `n` ticks without rollback.
pub open spec fn frame_after(start: u32, n: nat) -> u32
    decreases n,
{
    if n == 0 {
        start
    } else {
        wrap_inc(frame_after(start, (n - 1) as nat))
    }
}

/// Ticks compose: running `a` ticks and then `b` ticks reaches the same
/// frame index as running `a + b` ticks in one stretch.
pub proof fn lemma_frame_after_add(start: u32, a: nat, b: nat)
    ensures
        frame_after(frame_after(start, a), b) == frame_after(start, a + b),
    decreases b,
{
    if b > 0 {
        lemma_frame_after_add(start, a, (b - 1) as nat);
    }
}

/// Frames count ticks: after `n` ticks without rollback, the frame index is
/// the initial value plus `n`, modulo the counter width.
pub proof fn lemma_frame_counts_ticks(start: u32, n: nat)
    ensures
        frame_after(start, n) == ((start + n) % 0x1_0000_0000) as u32,
    decreases n,
{
    let m: int = 0x1_0000_0000;
    if n == 0 {
        vstd::arithmetic::div_mod::lemma_small_mod(start as nat, m as nat);
    } else {
        lemma_frame_counts_ticks(start, (n - 1) as nat);
        let x: int = start + n - 1;
        let q: int = x / m;
        vstd::arithmetic::div_mod::lemma_fundamental_div_mod(x, m);
        if frame_after(start, (n - 1) as nat) == u32::MAX {
            assert(x + 1 == (q + 1) * m) by (nonlinear_arith)
                requires x == q * m + (m - 1),
            ;
            vstd::arithmetic::div_mod::lemma_mod_multiples_basic(q + 1, m);
        } else {
            vstd::arithmetic::div_mod::lemma_fundamental_div_mod_converse_mod(
                x + 1,
                m,
                q,
                x % m + 1,
            );
        }
    }
}

/// Rollback replay determinism: if the substrate rewinds to tick `k` and
/// replays forward to tick `n`, the frame index observed at tick `n` equals
/// the frame index of the original, non-rewound run at tick `n`, for any
/// `k <= n`. The snapshot taken at tick `k` holds `frame_after(start, k)`,
/// and the replay advances it `n - k` more ticks.
pub proof fn lemma_replay_reproduces_frame(start: u32, k: nat, n: nat)
    requires
        k <= n,
    ensures
        frame_after(frame_after(start, k), (n - k) as nat) == frame_after(start, n),
{
    lemma_frame_after_add(start, k, (n - k) as nat);
}

impl Default for FrameIdx {
    /// A fresh frame tracker: no ticks have executed yet.
    fn default() -> (f: FrameIdx)
        ensures
            f.0 == 0,
    {
        FrameIdx(0)
    }
}

impl FrameIdx {
    /// Advance the counter by one tick, wrapping on overflow.
    ///
    /// This is the single mutation point of the frame index: it runs at the
    /// very end of each deterministic tick, inside the portion of the tick
    /// that the rollback substrate checkpoints. Overflow is not a fault.
    pub fn advance(&mut self)
        ensures
            final(self).0 == wrap_inc(old(self).0),
    {
        if self.0 == u32::MAX {
            self.0 = 0;
        } else {
            self.0 = self.0 + 1;
        }
    }

    /// Run `n` consecutive ticks with no rollback in between.
    pub fn run_ticks(&mut self, n: u32)
        ensures
            final(self).0 == frame_after(old(self).0, n as nat),
    {
        let start: u32 = self.0;
        for i in 0..n
            invariant
                self.0 == frame_after(start, i as nat),
        {
            self.advance();
        }
    }

    /// The value the rollback substrate records when it checkpoints this
    /// state: the frame index is nothing beyond its counter value.
    pub fn snapshot(&self) -> (s: u32)
        ensures
            s == self.0,
    {
        self.0
    }

    /// Restore the counter from a snapshot, as the rollback substrate does
    /// when it rewinds the simulation to a past tick.
    pub fn restore(&mut self, s: u32)
        ensures
            final(self).0 == s,
    {
        self.0 = s;
    }
}

} // verus!
