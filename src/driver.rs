//! The frame driver: once per idle notification it reads the clock, runs the
//! updates that are due, keeps the vertex buffer current, and says how the
//! frame starts.
use crate::clock::{leftover_after, updates_due, GameLoop};
use crate::graphics::{FramePlan, Renderer};
use crate::scene::{advance_coord, world_vertices, Entity, NANOS_PER_STEP};
use vstd::prelude::*;

verus! {

/// Saturating motion composes: moving by `a` and then by `b` is moving by `a + b`.
proof fn lemma_advance_compose(x: i32, a: nat, b: nat)
    ensures
        advance_coord(advance_coord(x, a), b) == advance_coord(x, a + b),
{
}

/// The fixed-point steps one update of `delta` nanoseconds moves by.
pub open spec fn step_size(delta: u64) -> nat {
    delta as nat / NANOS_PER_STEP as nat
}

/// The entities after `n` updates of `delta` nanoseconds each, starting from `before`.
pub open spec fn after_updates(before: Seq<Entity>, after: Seq<Entity>, delta: u64, n: nat) -> bool {
    &&& after.len() == before.len()
    &&& before.len() > 0 ==> {
        &&& after[0].vertices@ == before[0].vertices@
        &&& after[0].position.y == before[0].position.y
        &&& after[0].position.x == advance_coord(
            before[0].position.x,
            n * step_size(delta),
        )
    }
    &&& forall|k: int| 1 <= k < before.len() ==> after[k] == before[k]
}

/// The clock and the renderer, owned together.
pub struct FrameDriver {
    pub clock: GameLoop,
    pub renderer: Renderer,
}

impl FrameDriver {
    pub open spec fn wf(&self) -> bool {
        self.clock.wf() && self.renderer.wf()
    }

    /// A driver running `updates_per_second` updates per second of real time.
    pub fn new(updates_per_second: u64) -> (r: Self)
        requires
            0 < updates_per_second <= 1_000_000_000,
        ensures
            r.wf(),
            r.clock.leftover() == 0,
            r.clock.period() == 1_000_000_000nat / updates_per_second as nat,
            r.renderer.stored() is None,
            r.renderer.scene.is_initial(),
    {
        FrameDriver { clock: GameLoop::new(updates_per_second), renderer: Renderer::new() }
    }

    /// Runs `update_count` scene updates of `delta` nanoseconds each. When the
    /// context is ready, the vertex buffer is rebuilt after each update.
    pub fn run_updates(&mut self, delta: u64, update_count: u64)
        requires
            old(self).wf(),
        ensures
            final(self).wf(),
            final(self).clock == old(self).clock,
            final(self).renderer.state == old(self).renderer.state,
            after_updates(
                old(self).renderer.scene.entities(),
                final(self).renderer.scene.entities(),
                delta,
                update_count as nat,
            ),
            if final(self).renderer.stored() is Some && update_count > 0 {
                final(self).renderer.scene.buffer() == Some(
                    world_vertices(final(self).renderer.scene.entities()),
                )
            } else {
                final(self).renderer.scene.buffer() == old(self).renderer.scene.buffer()
            },
    {
        let ghost start = self.renderer.scene.entities();
        let mut i: u64 = 0;
        while i < update_count
            invariant
                i <= update_count,
                self.wf(),
                self.clock == old(self).clock,
                self.renderer.state == old(self).renderer.state,
                after_updates(start, self.renderer.scene.entities(), delta, i as nat),
                if self.renderer.stored() is Some && i > 0 {
                    self.renderer.scene.buffer() == Some(
                        world_vertices(self.renderer.scene.entities()),
                    )
                } else {
                    self.renderer.scene.buffer() == old(self).renderer.scene.buffer()
                },
            decreases update_count - i,
        {
            let ghost mid = self.renderer.scene.entities();
            self.renderer.scene.update(delta);
            proof {
                if start.len() > 0 {
                    lemma_advance_compose(start[0].position.x, i as nat * step_size(delta), step_size(delta));
                    assert(i as nat * step_size(delta) + step_size(delta) == (i as nat + 1) * step_size(delta)) by (nonlinear_arith);
                }
            }
            if self.renderer.is_ready() {
                self.renderer.scene.initialize_buffer();
            }
            proof {
                let now = self.renderer.scene.entities();
                if start.len() > 0 {
                    assert(now[0].position.x == advance_coord(start[0].position.x, (i as nat + 1) * step_size(delta)));
                }
                assert forall|k: int| 1 <= k < start.len() implies now[k] == start[k] by {
                    assert(mid[k] == start[k]);
                }
            }
            i = i + 1;
        }
    }

    /// One idle notification: reads the clock, runs the updates that are due,
    /// and decides how the frame starts. Returns the elapsed nanoseconds, the
    /// number of updates run, and the frame plan.
    pub fn idle(&mut self) -> (r: (u64, u64, FramePlan))
        requires
            old(self).wf(),
        ensures
            final(self).wf(),
            final(self).clock.period() == old(self).clock.period(),
            r.1 as nat == updates_due(old(self).clock.leftover(), old(self).clock.period(), r.0 as nat),
            final(self).clock.leftover() == leftover_after(
                old(self).clock.leftover(),
                old(self).clock.period(),
                r.0 as nat,
            ),
            final(self).renderer.state == old(self).renderer.state,
            after_updates(
                old(self).renderer.scene.entities(),
                final(self).renderer.scene.entities(),
                r.0,
                r.1 as nat,
            ),
            if final(self).renderer.stored() is Some && r.1 > 0 {
                final(self).renderer.scene.buffer() == Some(
                    world_vertices(final(self).renderer.scene.entities()),
                )
            } else {
                final(self).renderer.scene.buffer() == old(self).renderer.scene.buffer()
            },
            r.2 == FramePlan::NotReady <==> final(self).renderer.stored() is None,
            r.2 == FramePlan::NoGeometry <==> (final(self).renderer.stored() is Some
                && final(self).renderer.scene.buffer() is None),
            r.2 == FramePlan::AcquireTexture <==> (final(self).renderer.stored() is Some
                && final(self).renderer.scene.buffer() is Some),
    {
        let (delta, update_count) = self.clock.tick();
        self.run_updates(delta, update_count);
        let plan = self.renderer.render();
        (delta, update_count, plan)
    }
}

} // verus!
