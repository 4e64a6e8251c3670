use theo::{first_error, Backend, ContextScope, ContextSlot, Error, Session, SessionLock};

fn open(lock: &mut SessionLock, b: Backend) -> Session {
    Session::open(lock, b, b, 100, 100, true).unwrap()
}

#[test]
fn second_checked_session_is_refused() {
    let mut lock = SessionLock::new();
    let first = open(&mut lock, Backend::SwRast);
    assert!(lock.is_held());
    let second = Session::open(&mut lock, Backend::SwRast, Backend::SwRast, 100, 100, true);
    assert_eq!(second.err(), Some(Error::Concurrency));
    assert!(lock.is_held());
    first.close(&mut lock);
    assert!(!lock.is_held());
    let third = Session::open(&mut lock, Backend::SwRast, Backend::SwRast, 100, 100, true);
    assert!(third.is_ok());
}

#[test]
fn unchecked_session_ignores_the_lock() {
    let mut lock = SessionLock::new();
    let _first = open(&mut lock, Backend::DesktopGl);
    let s = Session::open(&mut lock, Backend::DesktopGl, Backend::DesktopGl, 10, 10, false).unwrap();
    assert!(lock.is_held());
    s.close(&mut lock);
    assert!(lock.is_held());
}

#[test]
fn open_rejects_zero_size_and_mismatched_surface() {
    let mut lock = SessionLock::new();
    let r = Session::open(&mut lock, Backend::SwRast, Backend::SwRast, 0, 10, true);
    assert_eq!(r.err(), Some(Error::InvalidInput));
    let r = Session::open(&mut lock, Backend::SwRast, Backend::SwRast, 10, 0, true);
    assert_eq!(r.err(), Some(Error::InvalidInput));
    let r = Session::open(&mut lock, Backend::DesktopGl, Backend::SwRast, 10, 10, true);
    assert_eq!(r.err(), Some(Error::InvalidInput));
    assert!(!lock.is_held());
}

#[test]
fn saves_then_restores_return_to_base() {
    let mut lock = SessionLock::new();
    let mut s = open(&mut lock, Backend::SwRast);
    for _ in 0..5 {
        s.save();
    }
    assert_eq!(s.depth(), 5);
    for _ in 0..5 {
        s.restore(true).unwrap();
    }
    assert_eq!(s.depth(), 0);
    assert_eq!(s.status(), Ok(()));
}

#[test]
fn restore_at_base_frame_is_unbalanced() {
    let mut lock = SessionLock::new();
    let mut s = open(&mut lock, Backend::SwRast);
    assert_eq!(s.restore(true), Err(Error::StackUnbalance));
    assert_eq!(s.depth(), 0);
    s.save();
    s.restore(true).unwrap();
    assert_eq!(s.restore(true), Err(Error::StackUnbalance));
    assert_eq!(s.depth(), 0);
}

#[test]
fn foreign_resource_is_not_accepted() {
    let mut lock = SessionLock::new();
    let gl = Session::open(&mut lock, Backend::DesktopGl, Backend::DesktopGl, 4, 4, false).unwrap();
    let sw = Session::open(&mut lock, Backend::SwRast, Backend::SwRast, 4, 4, false).unwrap();
    assert!(!sw.accepts(gl.backend()));
    assert!(!gl.accepts(sw.backend()));
    assert!(sw.accepts(Backend::SwRast));
}

#[test]
fn draw_without_current_context_is_skipped_and_reported() {
    let mut lock = SessionLock::new();
    let mut s = open(&mut lock, Backend::DesktopGl);
    assert!(s.begin_draw(true));
    assert!(!s.begin_draw(false));
    s.save();
    assert_eq!(s.depth(), 1);
    assert_eq!(s.restore(false), Err(Error::ContextNotCurrent));
    assert_eq!(s.depth(), 1);
    assert_eq!(s.status(), Err(Error::ContextNotCurrent));
    assert_eq!(s.status(), Ok(()));
}

#[test]
fn unbound_backend_never_checks_currency() {
    let mut lock = SessionLock::new();
    let mut s = open(&mut lock, Backend::SwRast);
    assert!(s.begin_draw(false));
    assert_eq!(s.check(false), Ok(()));
}

#[test]
fn first_recorded_error_wins() {
    let mut lock = SessionLock::new();
    let mut s = open(&mut lock, Backend::SwRast);
    s.record(Error::NotSupported);
    s.record(Error::ContextNotCurrent);
    assert_eq!(s.status(), Err(Error::NotSupported));
    assert_eq!(s.status(), Ok(()));
}

#[test]
fn finished_software_session_refuses_operations() {
    let mut lock = SessionLock::new();
    let mut s = open(&mut lock, Backend::SwRast);
    assert_eq!(s.finish(true), Ok(()));
    assert!(s.is_finished());
    assert!(!s.renderer_live());
    assert!(!s.begin_draw(true));
    assert_eq!(s.finish(true), Err(Error::Finished));
    assert_eq!(s.status(), Err(Error::Finished));
    s.save();
    assert_eq!(s.depth(), 1);
}

#[test]
fn finished_gl_session_goes_on() {
    let mut lock = SessionLock::new();
    let mut s = open(&mut lock, Backend::DesktopGl);
    s.save();
    assert_eq!(s.finish(true), Ok(()));
    assert!(s.renderer_live());
    assert_eq!(s.check(true), Ok(()));
    assert!(s.begin_draw(true));
    assert_eq!(s.restore(true), Ok(()));
    assert_eq!(s.depth(), 0);
    assert_eq!(s.finish(true), Ok(()));
    assert_eq!(s.status(), Ok(()));
}

#[test]
fn first_error_prefers_the_first_source() {
    assert_eq!(first_error::<u8>(Err(1), Err(2)), Err(1));
    assert_eq!(first_error::<u8>(Ok(()), Err(2)), Err(2));
    assert_eq!(first_error::<u8>(Ok(()), Ok(())), Ok(()));
}

#[test]
fn context_hand_over_round_trip() {
    let mut slot = ContextSlot::new(7u32);
    assert!(slot.is_idle());
    let ctx = slot.lend().unwrap();
    assert!(slot.lend().is_none());
    let mut scope = ContextScope::enter(ctx + 100);
    assert_eq!(*scope.context(), 107);
    let out = scope.leave().unwrap();
    assert!(!scope.is_live());
    assert!(scope.leave().is_none());
    assert_eq!(slot.give_back(out - 100), Ok(()));
    assert_eq!(slot.give_back(9), Err(9));
    assert_eq!(slot.lend(), Some(7));
}

#[test]
fn error_messages() {
    assert_eq!(Error::Concurrency.message(), "Only one context can be active per thread.");
    assert_eq!(Error::ContextNotCurrent.message(), "Context is not current");
}
