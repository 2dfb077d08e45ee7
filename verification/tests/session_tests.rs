use rollback_session::frame::FrameIdx;
use rollback_session::session::MatchInfo;
use rollback_session::session::SessionDescriptor;
use rollback_session::session::SessionManager;
use rollback_session::session::SessionPlugin;
use rollback_session::session::SessionStartError;
use rollback_session::session::SessionTopology;
use rollback_session::session::SlotOrigin;
use rollback_session::session::MAX_PLAYERS;
use rollback_session::session::SELF_TEST_ROLLBACK_TOLERANCE;

#[test]
fn frame_default_is_zero() {
    let f = FrameIdx::default();
    assert_eq!(f.0, 0);
}

#[test]
fn advance_increments_by_one() {
    let mut f = FrameIdx(0);
    f.advance();
    assert_eq!(f.0, 1);
    f.advance();
    assert_eq!(f.0, 2);
}

#[test]
fn advance_wraps_at_counter_max() {
    let mut f = FrameIdx(u32::MAX - 1);
    f.advance();
    assert_eq!(f.0, u32::MAX);
    f.advance();
    assert_eq!(f.0, 0);
}

#[test]
fn run_ticks_counts_ticks() {
    let mut f = FrameIdx(0);
    f.run_ticks(5);
    assert_eq!(f.0, 5);
}

#[test]
fn run_ticks_wraps_modulo_counter_width() {
    let mut f = FrameIdx(u32::MAX - 2);
    f.run_ticks(5);
    assert_eq!(f.0, 2);
}

#[test]
fn replay_reproduces_original_frames() {
    let mut f = FrameIdx(0);
    f.run_ticks(3);
    let snap = f.snapshot();
    assert_eq!(snap, 3);
    f.run_ticks(4);
    let original_at_seven = f.0;
    assert_eq!(original_at_seven, 7);
    f.restore(snap);
    assert_eq!(f.0, 3);
    f.run_ticks(4);
    assert_eq!(f.0, original_at_seven);
}

#[test]
fn local_self_test_descriptor_shape() {
    let d = SessionDescriptor::local_self_test();
    assert_eq!(d.topology, SessionTopology::LocalSelfTest);
    assert_eq!(d.player_slots.len(), MAX_PLAYERS);
    for slot in &d.player_slots {
        assert_eq!(*slot, SlotOrigin::Local);
    }
    assert_eq!(d.rollback_tolerance, SELF_TEST_ROLLBACK_TOLERANCE);
    assert_eq!(d.rollback_tolerance, 7);
}

#[test]
fn start_session_without_metadata_installs_local_self_test() {
    let mut m = SessionManager::new(None);
    let r = m.start_session();
    assert!(r.is_ok());
    let handle = m.active.as_ref().expect("a session must be active");
    assert_eq!(handle.topology(), SessionTopology::LocalSelfTest);
    assert_eq!(handle.descriptor.player_slots.len(), 2);
    assert_eq!(
        handle.descriptor.player_slots,
        vec![SlotOrigin::Local, SlotOrigin::Local]
    );
    assert_eq!(handle.descriptor.rollback_tolerance, 7);
    assert_eq!(m.frame_idx.0, 0);
}

#[test]
fn hundred_ticks_after_local_start() {
    let mut m = SessionManager::new(None);
    let r = m.start_session();
    assert!(r.is_ok());
    assert_eq!(m.active.as_ref().unwrap().descriptor.player_slots.len(), 2);
    m.frame_idx.run_ticks(100);
    assert_eq!(m.frame_idx.0, 100);
}

#[test]
fn start_session_with_metadata_fails_loudly() {
    let info = MatchInfo {
        slot_origins: vec![SlotOrigin::Local, SlotOrigin::Remote(1)],
    };
    let mut m = SessionManager::new(Some(info));
    m.frame_idx = FrameIdx(9);
    let r = m.start_session();
    assert_eq!(r, Err(SessionStartError::NetworkedUnimplemented));
    assert!(m.active.is_none());
    assert_eq!(m.frame_idx.0, 9);
}

#[test]
fn second_session_replaces_frame_and_handle() {
    let mut m = SessionManager::new(None);
    assert!(m.start_session().is_ok());
    m.frame_idx.run_ticks(42);
    assert_eq!(m.frame_idx.0, 42);
    assert!(m.start_session().is_ok());
    assert_eq!(m.frame_idx.0, 0);
    let handle = m.active.as_ref().expect("a session must be active");
    assert_eq!(handle.topology(), SessionTopology::LocalSelfTest);
    assert_eq!(handle.descriptor.player_slots.len(), MAX_PLAYERS);
}

#[test]
fn plugin_registers_zeroed_frame_and_tick_hook() {
    let plugin = SessionPlugin;
    let mut f = plugin.initial_frame();
    assert_eq!(f.0, 0);
    plugin.end_of_tick(&mut f);
    assert_eq!(f.0, 1);
    f = FrameIdx(u32::MAX);
    plugin.end_of_tick(&mut f);
    assert_eq!(f.0, 0);
}
