use enoki2d::spawner::{OneShot, ParticleController, ParticleSpawnerState};

#[test]
fn spawner_default_is_active_and_unbounded() {
    let s = ParticleSpawnerState::default();
    assert_eq!(s.max_particles, u32::MAX);
    assert!(s.active);
    assert_eq!(OneShot::default(), OneShot::Deactivate);
}

#[test]
fn spawner_room_compares_full_count() {
    let s = ParticleSpawnerState { max_particles: 10, active: true };
    assert!(s.has_room(9));
    assert!(!s.has_room(10));
    assert!(!s.has_room(11));
    let empty = ParticleSpawnerState { max_particles: 0, active: true };
    assert!(!empty.has_room(0));
    if usize::BITS > 32 {
        let beyond = (1usize << 32) + 3;
        assert!(!s.has_room(beyond));
        assert!(!ParticleSpawnerState::default().has_room(beyond));
    }
}

#[test]
fn spawner_emits_when_timer_finishes() {
    let mut s = ParticleSpawnerState::default();
    assert_eq!(s.emit(false, 7, false), 0);
    assert!(s.active);
    assert_eq!(s.emit(true, 7, false), 7);
    assert!(s.active);
    assert_eq!(s.emit(true, 7, false), 7);
}

#[test]
fn one_shot_spawner_emits_once() {
    let mut s = ParticleSpawnerState::default();
    assert_eq!(s.emit(true, 5, true), 5);
    assert!(!s.active);
    assert_eq!(s.emit(true, 5, true), 0);
    assert_eq!(s.emit(true, 5, false), 0);
}

#[test]
fn inactive_spawner_emits_nothing() {
    let mut s = ParticleSpawnerState { max_particles: 100, active: false };
    assert_eq!(s.emit(true, 3, false), 0);
    assert_eq!(s, ParticleSpawnerState { max_particles: 100, active: false });
}

#[test]
fn finished_spawner_needs_despawn_inactive_and_empty() {
    let inactive = ParticleSpawnerState { max_particles: 1, active: false };
    let active = ParticleSpawnerState { max_particles: 1, active: true };
    assert!(inactive.is_finished(OneShot::Despawn, 0));
    assert!(!inactive.is_finished(OneShot::Despawn, 1));
    assert!(!inactive.is_finished(OneShot::Deactivate, 0));
    assert!(!active.is_finished(OneShot::Despawn, 0));
}

#[test]
fn controller_default() {
    let c = ParticleController::default();
    assert_eq!(c.max_particles, u32::MAX);
    assert!(c.active);
    assert_eq!(c.burst, None);
}

#[test]
fn controller_burst_counts_down_then_stops() {
    let mut c = ParticleController { max_particles: u32::MAX, active: true, burst: Some(10) };
    assert_eq!(c.emit(true, 4, false), 4);
    assert_eq!(c.burst, Some(6));
    assert!(c.active);
    assert_eq!(c.emit(true, 4, false), 4);
    assert_eq!(c.burst, Some(2));
    assert!(c.active);
    // the budget of two cannot cover four: this emission still happens, then the spawner stops
    assert_eq!(c.emit(true, 4, false), 4);
    assert_eq!(c.burst, Some(2));
    assert!(!c.active);
    assert_eq!(c.emit(true, 4, false), 0);
}

#[test]
fn controller_exact_burst_stays_active_until_next_emission() {
    let mut c = ParticleController { max_particles: 50, active: true, burst: Some(4) };
    assert_eq!(c.emit(true, 4, false), 4);
    assert_eq!(c.burst, Some(0));
    assert!(c.active);
    assert_eq!(c.emit(false, 4, false), 0);
    assert!(c.active);
    assert_eq!(c.emit(true, 4, false), 4);
    assert!(!c.active);
}

#[test]
fn controller_one_shot_and_finish() {
    let mut c = ParticleController::default();
    assert_eq!(c.emit(true, 2, true), 2);
    assert!(!c.active);
    assert!(!c.is_finished(3));
    assert!(c.is_finished(0));
    assert!(!c.has_room(u32::MAX as usize));
    assert!(c.has_room(5));
}
