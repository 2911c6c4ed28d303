//! Fixed-timestep simulation bookkeeping: a frame timer with a spike
//! clamp, an accumulator, a step cap per frame, and a backlog drop so a
//! saturated simulation never chases an unbounded debt.

use vstd::prelude::*;

use crate::host::HostInterface;
use crate::input_types::FrameInputState;
use crate::plugin_api::Module;
use crate::plugin_manager::{PluginManager, PluginRuntimeState};
use vstd::arithmetic::div_mod::lemma_fundamental_div_mod_converse;

verus! {

/// Ceiling on one frame's delta, so dragging the window or sitting in a
/// debugger does not inject a giant catch-up step.
pub const MAX_FRAME_DT_MS: u64 = 250;

/// This frame's simulation debt: the banked time plus the new delta,
/// saturating at the numeric ceiling.
pub open spec fn saturated_debt(banked_ms: u64, frame_dt_ms: u64) -> u64 {
    if banked_ms + frame_dt_ms > u64::MAX {
        u64::MAX
    } else {
        (banked_ms + frame_dt_ms) as u64
    }
}

/// Fixed-timestep simulation driver.
pub struct EngineLoop {
    last_frame_time_ms: u64,
    sim_accumulator_ms: u64,
    sim_dt_ms: u32,
    max_steps_per_frame: u32,
}

impl EngineLoop {
    /// The frame timestamp the next delta is measured from.
    pub closed spec fn spec_last_frame_time(&self) -> u64 {
        self.last_frame_time_ms
    }

    /// Unsimulated time carried between frames.
    pub closed spec fn spec_accumulator(&self) -> u64 {
        self.sim_accumulator_ms
    }

    /// The fixed step handed to the module each simulation tick.
    pub closed spec fn spec_sim_dt(&self) -> u32 {
        self.sim_dt_ms
    }

    /// The per-frame cap on catch-up steps.
    pub closed spec fn spec_max_steps(&self) -> u32 {
        self.max_steps_per_frame
    }

    /// A loop that steps by `sim_dt_ms`, at most five catch-up steps per
    /// frame, starting its clock at `now_ms`.
    pub fn new(sim_dt_ms: u32, now_ms: u64) -> (r: Self)
        ensures
            r.spec_last_frame_time() == now_ms,
            r.spec_accumulator() == 0,
            r.spec_sim_dt() == sim_dt_ms,
            r.spec_max_steps() == 5,
    {
        EngineLoop {
            last_frame_time_ms: now_ms,
            sim_accumulator_ms: 0,
            sim_dt_ms,
            max_steps_per_frame: 5,
        }
    }

    /// Advances the frame timer to `now_ms` and returns the frame delta,
    /// clamped to `MAX_FRAME_DT_MS`. A clock that did not advance (or
    /// went backwards) yields a zero delta.
    pub fn tick_timer(&mut self, now_ms: u64) -> (frame_dt_ms: u64)
        ensures
            final(self).spec_last_frame_time() == now_ms,
            final(self).spec_accumulator() == old(self).spec_accumulator(),
            final(self).spec_sim_dt() == old(self).spec_sim_dt(),
            final(self).spec_max_steps() == old(self).spec_max_steps(),
            frame_dt_ms == if now_ms < old(self).spec_last_frame_time() {
                0u64
            } else if now_ms - old(self).spec_last_frame_time() > MAX_FRAME_DT_MS {
                MAX_FRAME_DT_MS
            } else {
                (now_ms - old(self).spec_last_frame_time()) as u64
            },
    {
        let raw = if now_ms >= self.last_frame_time_ms {
            now_ms - self.last_frame_time_ms
        } else {
            0
        };
        self.last_frame_time_ms = now_ms;
        if raw > MAX_FRAME_DT_MS {
            MAX_FRAME_DT_MS
        } else {
            raw
        }
    }

    /// Runs fixed simulation steps until the accumulator is caught up or
    /// the per-frame cap is hit; a backlog still at least one step deep
    /// at the cap is dropped, so a saturated simulation starts the next
    /// frame fresh instead of chasing an ever-growing debt. (An
    /// accumulator near the numeric ceiling saturates; the cap and the
    /// backlog drop dispose of the excess the same way.) The accumulator
    /// afterwards is exactly the frame's debt reduced by the steps run:
    /// its remainder modulo one step, or zero when the debt reached the
    /// drop threshold (which a zero step size always does). The
    /// manager's reload bookkeeping is untouched, and a paused manager
    /// stays paused: ticking never clears a fault.
    pub fn update_simulation<M: Module>(
        &mut self,
        frame_dt_ms: u64,
        manager: &mut PluginManager<M>,
        host: &mut HostInterface,
        input: &FrameInputState,
    )
        ensures
            final(self).spec_last_frame_time() == old(self).spec_last_frame_time(),
            final(self).spec_sim_dt() == old(self).spec_sim_dt(),
            final(self).spec_max_steps() == old(self).spec_max_steps(),
            final(self).spec_accumulator() < final(self).spec_sim_dt() || final(self).spec_accumulator() == 0,
            final(self).spec_accumulator() == ({
                let debt = saturated_debt(old(self).spec_accumulator(), frame_dt_ms) as int;
                let step = old(self).spec_sim_dt() as int;
                let cap = old(self).spec_max_steps() as int;
                if debt >= (cap + 1) * step {
                    0int
                } else {
                    debt % step
                }
            }),
            final(manager).module_attached() == old(manager).module_attached(),
            final(manager).spec_last_reload() == old(manager).spec_last_reload(),
            final(manager).spec_debounce() == old(manager).spec_debounce(),
            final(manager).spec_expected_hash() == old(manager).spec_expected_hash(),
            old(manager).handshake_valid() ==> final(manager).handshake_valid(),
            final(manager).runtime_state is Running ==> old(manager).runtime_state is Running,
            old(manager).runtime_state matches PluginRuntimeState::PausedError(_) ==> *final(manager) == *old(manager) && *final(host) == *old(host),
    {
        self.sim_accumulator_ms = self.sim_accumulator_ms.saturating_add(frame_dt_ms);
        let ghost debt = saturated_debt(old(self).sim_accumulator_ms, frame_dt_ms) as int;
        let mut steps: u32 = 0;
        proof {
            assert(self.sim_accumulator_ms as int == debt - (steps as int) * (
            self.sim_dt_ms as int)) by (nonlinear_arith)
                requires
                    steps == 0,
                    self.sim_accumulator_ms as int == debt,
            ;
        }
        while self.sim_accumulator_ms >= self.sim_dt_ms as u64 && steps
            < self.max_steps_per_frame
            invariant
                steps <= self.max_steps_per_frame,
                self.sim_accumulator_ms as int == debt - (steps as int) * (self.sim_dt_ms as int),
                self.last_frame_time_ms == old(self).last_frame_time_ms,
                self.sim_dt_ms == old(self).sim_dt_ms,
                self.max_steps_per_frame == old(self).max_steps_per_frame,
                manager.module_attached() == old(manager).module_attached(),
                manager.spec_last_reload() == old(manager).spec_last_reload(),
                manager.spec_debounce() == old(manager).spec_debounce(),
                manager.spec_expected_hash() == old(manager).spec_expected_hash(),
                old(manager).handshake_valid() ==> manager.handshake_valid(),
                manager.runtime_state is Running ==> old(manager).runtime_state is Running,
                old(manager).runtime_state matches PluginRuntimeState::PausedError(_) ==> *manager
                    == *old(manager) && *host == *old(host),
            decreases self.max_steps_per_frame - steps,
        {
            manager.update(host, input, self.sim_dt_ms);
            self.sim_accumulator_ms = self.sim_accumulator_ms - self.sim_dt_ms as u64;
            proof {
                assert(self.sim_accumulator_ms as int == debt - ((steps + 1) as int) * (
                self.sim_dt_ms as int)) by (nonlinear_arith)
                    requires
                        self.sim_accumulator_ms as int == debt - (steps as int) * (
                        self.sim_dt_ms as int) - (self.sim_dt_ms as int),
                ;
            }
            steps += 1;
        }
        proof {
            let acc = self.sim_accumulator_ms as int;
            let step = self.sim_dt_ms as int;
            let cap = self.max_steps_per_frame as int;
            let s = steps as int;
            if acc >= step {
                // Only the cap can have stopped the loop: the remaining
                // debt is at least one step past cap steps.
                assert(debt >= (cap + 1) * step) by (nonlinear_arith)
                    requires
                        acc == debt - s * step,
                        s == cap,
                        acc >= step,
                ;
            } else {
                assert(debt < (cap + 1) * step) by (nonlinear_arith)
                    requires
                        acc == debt - s * step,
                        s <= cap,
                        0 <= acc < step,
                ;
                lemma_fundamental_div_mod_converse(debt, step, s, acc);
            }
        }
        // Prevent unbounded backlog when constantly saturated.
        if steps == self.max_steps_per_frame && self.sim_accumulator_ms >= self.sim_dt_ms as u64 {
            self.sim_accumulator_ms = 0;
        }
    }
}

} // verus!
