//! Spawner control: when a spawner emits, how many particles it emits, when
//! a one-shot or burst spawner stops, and when a finished spawner goes away.
//!
//! The spawn timer and the particles themselves live with the host; each
//! frame it asks `has_room`, ticks the timer when there is room, then calls
//! `emit` with whether the timer finished, and spawns as many particles as
//! `emit` returns.
use vstd::prelude::*;

verus! {

/// What happens to a one-shot spawner after its single emission.
#[derive(Debug, Clone, Copy, PartialEq, Eq, Structural)]
pub enum OneShot {
    /// The spawner stays, inactive.
    Deactivate,
    /// The spawner is removed once its last particle has died.
    Despawn,
}

impl Default for OneShot {
    fn default() -> (r: OneShot)
        ensures
            r == OneShot::Deactivate,
    {
        OneShot::Deactivate
    }
}

/// The counters and switch of a spawner.
#[derive(Debug, Clone, Copy, PartialEq, Eq, Structural)]
pub struct ParticleSpawnerState {
    /// No particle is spawned while the spawner holds this many or more.
    pub max_particles: u32,
    /// An inactive spawner spawns nothing.
    pub active: bool,
}

impl Default for ParticleSpawnerState {
    fn default() -> (r: ParticleSpawnerState)
        ensures
            r.max_particles == u32::MAX,
            r.active,
    {
        ParticleSpawnerState { max_particles: u32::MAX, active: true }
    }
}

/// Whether a spawner with the given limit has room beside `particle_count`
/// live particles.
pub open spec fn has_room_for(max_particles: u32, particle_count: usize) -> bool {
    particle_count < max_particles
}

/// Whether the spawner emits this frame.
pub open spec fn fires(active: bool, timer_finished: bool) -> bool {
    active && timer_finished
}

/// The spawner state after a frame's emission decision.
pub open spec fn after_emit(
    s: ParticleSpawnerState,
    timer_finished: bool,
    one_shot: bool,
) -> ParticleSpawnerState {
    ParticleSpawnerState {
        active: s.active && !(timer_finished && one_shot),
        ..s
    }
}

impl ParticleSpawnerState {
    /// Whether the spawner may spawn and tick its timer this frame.
    pub fn has_room(&self, particle_count: usize) -> (r: bool)
        ensures
            r == has_room_for(self.max_particles, particle_count),
    {
        particle_count < self.max_particles as usize
    }

    /// Decides this frame's emission once the spawn timer has ticked: an
    /// active spawner whose timer finished emits `spawn_amount` particles,
    /// and a one-shot spawner then turns inactive. Returns the number of
    /// particles to spawn.
    pub fn emit(&mut self, timer_finished: bool, spawn_amount: u32, one_shot: bool) -> (n: u32)
        ensures
            n == (if fires(old(self).active, timer_finished) {
                spawn_amount
            } else {
                0
            }),
            *final(self) == after_emit(*old(self), timer_finished, one_shot),
    {
        if timer_finished && self.active {
            if one_shot {
                self.active = false;
            }
            spawn_amount
        } else {
            0
        }
    }

    /// Whether a one-shot spawner is done and can be removed: it was told to
    /// despawn, it is inactive and its last particle has died.
    pub fn is_finished(&self, one_shot: OneShot, particle_count: usize) -> (r: bool)
        ensures
            r == (one_shot == OneShot::Despawn && !self.active && particle_count == 0),
    {
        match one_shot {
            OneShot::Despawn => !self.active && particle_count == 0,
            OneShot::Deactivate => false,
        }
    }
}

/// A one-shot spawner emits at most once: after an emission it spawns
/// nothing more, whatever its timer does.
pub proof fn lemma_one_shot_emits_once(
    s: ParticleSpawnerState,
    finished: bool,
    next_finished: bool,
)
    requires
        fires(s.active, finished),
    ensures
        !fires(after_emit(s, finished, true).active, next_finished),
        !after_emit(s, finished, true).active,
{
}

/// The control state of a spawner that may stop after a burst.
#[derive(Debug, Clone, Copy, PartialEq, Eq, Structural)]
pub struct ParticleController {
    /// No particle is spawned while the spawner holds this many or more.
    pub max_particles: u32,
    /// An inactive spawner spawns nothing.
    pub active: bool,
    /// How many particles the burst may still emit, if the spawner bursts.
    pub burst: Option<u32>,
}

impl Default for ParticleController {
    fn default() -> (r: ParticleController)
        ensures
            r.max_particles == u32::MAX,
            r.active,
            r.burst is None,
    {
        ParticleController { burst: None, max_particles: u32::MAX, active: true }
    }
}

/// The burst budget after an emission of `amount` particles: charged with
/// the emission where it covers it, unchanged where it does not.
pub open spec fn burst_after(burst: Option<u32>, amount: u32) -> Option<u32> {
    match burst {
        Some(c) => if amount <= c {
            Some((c - amount) as u32)
        } else {
            Some(c)
        },
        None => None,
    }
}

/// Whether an emission of `amount` particles exhausts the burst budget.
pub open spec fn burst_exhausted(burst: Option<u32>, amount: u32) -> bool {
    match burst {
        Some(c) => c < amount,
        None => false,
    }
}

/// A burst budget never grows, and a spawner that cannot cover an
/// emission from its budget keeps that budget.
pub proof fn lemma_burst_budget_shrinks(c: u32, amount: u32)
    ensures
        burst_after(Some(c), amount) matches Some(rest) && rest <= c,
        burst_exhausted(Some(c), amount) ==> burst_after(Some(c), amount) == Some(c),
        !burst_exhausted(Some(c), amount) ==> burst_after(Some(c), amount) == Some((c - amount) as u32),
{
}

impl ParticleController {
    /// Whether the spawner may spawn and tick its timer this frame.
    pub fn has_room(&self, particle_count: usize) -> (r: bool)
        ensures
            r == has_room_for(self.max_particles, particle_count),
    {
        particle_count < self.max_particles as usize
    }

    /// Decides this frame's emission once the spawn timer has ticked. An
    /// active spawner whose timer finished emits `spawn_amount` particles;
    /// then a one-shot spawner turns inactive, and a burst budget is charged
    /// with the emission, or, when it cannot cover it, turns the spawner
    /// inactive and stays as it was.
    pub fn emit(&mut self, timer_finished: bool, spawn_amount: u32, one_shot: bool) -> (n: u32)
        ensures
            n == (if fires(old(self).active, timer_finished) {
                spawn_amount
            } else {
                0
            }),
            fires(old(self).active, timer_finished) ==> {
                &&& final(self).burst == burst_after(old(self).burst, spawn_amount)
                &&& final(self).active == !(one_shot || burst_exhausted(
                    old(self).burst,
                    spawn_amount,
                ))
            },
            !fires(old(self).active, timer_finished) ==> *final(self) == *old(self),
            final(self).max_particles == old(self).max_particles,
    {
        if timer_finished && self.active {
            if one_shot {
                self.active = false;
            }
            let finished_burst = match self.burst {
                Some(counter) => {
                    if spawn_amount <= counter {
                        self.burst = Some(counter - spawn_amount);
                        false
                    } else {
                        true
                    }
                },
                None => false,
            };
            if finished_burst {
                self.active = false;
            }
            spawn_amount
        } else {
            0
        }
    }

    /// Whether a one-shot spawner is done and can be removed: it is inactive
    /// and its last particle has died.
    pub fn is_finished(&self, particle_count: usize) -> (r: bool)
        ensures
            r == (!self.active && particle_count == 0),
    {
        !self.active && particle_count == 0
    }
}

} // verus!
