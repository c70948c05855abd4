//! Critical sections and their nesting.

use morpheus::critical::{critical_section, in_critical_section, CriticalGuard};
use morpheus::scb::ScbHandle;
use morpheus::worker::{set_current_scb, try_current_scb, WorkerContext};

#[test]
fn test_critical_section_nesting() {
    let mut ctx = WorkerContext::new();
    assert!(!in_critical_section(&ctx));

    {
        let g1 = critical_section(&mut ctx);
        assert!(in_critical_section(&ctx));

        {
            let g2 = critical_section(&mut ctx);
            assert!(in_critical_section(&ctx));
            g2.release(&mut ctx);
        }

        assert!(in_critical_section(&ctx));
        g1.release(&mut ctx);
    }

    assert!(!in_critical_section(&ctx));
}

trait AmbiguousIfSend<A> {
    fn witness() -> bool {
        true
    }
}

impl<T: ?Sized> AmbiguousIfSend<()> for T {}

impl<T: ?Sized + Send> AmbiguousIfSend<u8> for T {}

trait AmbiguousIfSync<A> {
    fn witness() -> bool {
        true
    }
}

impl<T: ?Sized> AmbiguousIfSync<()> for T {}

impl<T: ?Sized + Sync> AmbiguousIfSync<u8> for T {}

#[test]
fn test_critical_guard_not_send_or_sync() {
    // Each line compiles only while exactly one of the two impls applies,
    // that is while the guard is neither `Send` nor `Sync`.
    assert!(<CriticalGuard as AmbiguousIfSend<_>>::witness());
    assert!(<CriticalGuard as AmbiguousIfSync<_>>::witness());
}

fn flag(ctx: &WorkerContext) -> u32 {
    try_current_scb(ctx).unwrap().scb().is_in_critical_section
}

#[test]
fn flag_goes_up_once_and_down_once() {
    let mut ctx = WorkerContext::new();
    set_current_scb(&mut ctx, ScbHandle::new(3, true).unwrap(), 3);
    let mut trace = vec![flag(&ctx)];
    let mut guards = Vec::new();
    for _ in 0..5 {
        guards.push(critical_section(&mut ctx));
        trace.push(flag(&ctx));
    }
    while let Some(guard) = guards.pop() {
        guard.release(&mut ctx);
        trace.push(flag(&ctx));
    }
    assert_eq!(trace, vec![0, 1, 1, 1, 1, 1, 1, 1, 1, 1, 0]);
    let ups = trace.windows(2).filter(|w| w[0] == 0 && w[1] == 1).count();
    let downs = trace.windows(2).filter(|w| w[0] == 1 && w[1] == 0).count();
    assert_eq!(ups, 1);
    assert_eq!(downs, 1);
    assert_eq!(ctx.critical_depth(), 0);
}

#[test]
fn flag_stays_up_through_inner_sections() {
    let mut ctx = WorkerContext::new();
    set_current_scb(&mut ctx, ScbHandle::new(0, true).unwrap(), 0);
    let outer = critical_section(&mut ctx);
    assert_eq!(outer.depth(), 1);
    assert_eq!(flag(&ctx), 1);
    for _ in 0..3 {
        let inner = critical_section(&mut ctx);
        assert_eq!(inner.depth(), 2);
        assert_eq!(flag(&ctx), 1);
        inner.release(&mut ctx);
        assert_eq!(flag(&ctx), 1);
        assert!(in_critical_section(&ctx));
    }
    outer.release(&mut ctx);
    assert_eq!(flag(&ctx), 0);
    assert!(!in_critical_section(&ctx));
}

#[test]
fn binding_inside_a_section_sets_the_flag() {
    let mut ctx = WorkerContext::new();
    let guard = critical_section(&mut ctx);
    set_current_scb(&mut ctx, ScbHandle::new(9, false).unwrap(), 9);
    assert_eq!(flag(&ctx), 1);
    guard.release(&mut ctx);
    assert_eq!(flag(&ctx), 0);
}
