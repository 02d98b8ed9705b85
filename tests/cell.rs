use cmim::{Active, Context, Exception, Move, State};

const TIMER1: u8 = 9;

fn timer1() -> Active {
    Active::Interrupt { irqn: TIMER1 }
}

#[test]
fn new_uninitialized_starts_uninit() {
    let m: Move<u32> = Move::new_uninitialized(Context::Interrupt(TIMER1));
    assert_eq!(m.state(), State::Uninit);
    assert!(matches!(m.context(), Context::Interrupt(TIMER1)));
}

#[test]
fn new_starts_idle_and_can_be_locked() {
    let mut m = Move::new(7u32, Context::Exception(Exception::SysTick));
    assert_eq!(m.state(), State::InitAndIdle);
    let r = m.try_lock(Active::Exception(Exception::SysTick), |v| *v * 2);
    assert_eq!(r, Ok(14));
}

#[test]
fn sequential_moves_return_previous_value() {
    let mut m = Move::new_uninitialized(Context::Interrupt(TIMER1));
    assert_eq!(m.try_move(Active::ThreadMode, 1u32), Ok(None));
    assert_eq!(m.try_move(Active::ThreadMode, 2u32), Ok(Some(1)));
    assert_eq!(m.try_move(Active::ThreadMode, 3u32), Ok(Some(2)));
    assert_eq!(m.state(), State::InitAndIdle);
}

#[test]
fn move_and_free_refused_in_any_handler() {
    let handlers = [
        timer1(),
        Active::Interrupt { irqn: 0 },
        Active::Exception(Exception::SysTick),
        Active::Exception(Exception::HardFault),
    ];
    for live in handlers {
        let mut empty: Move<u32> = Move::new_uninitialized(Context::Interrupt(TIMER1));
        assert_eq!(empty.try_move(live, 5), Err(5));
        assert_eq!(empty.state(), State::Uninit);
        assert_eq!(empty.try_free(live), Err(()));
        assert_eq!(empty.state(), State::Uninit);

        let mut full = Move::new(4u32, Context::Interrupt(TIMER1));
        assert_eq!(full.try_move(live, 5), Err(5));
        assert_eq!(full.try_free(live), Err(()));
        assert_eq!(full.state(), State::InitAndIdle);
        assert_eq!(full.try_free(Active::ThreadMode), Ok(Some(4)));
    }
}

#[test]
fn lock_from_bound_interrupt_runs_callback() {
    let mut m = Move::new_uninitialized(Context::Interrupt(TIMER1));
    assert_eq!(m.try_move(Active::ThreadMode, false), Ok(None));
    let r = m.try_lock(timer1(), |toggle| {
        *toggle = !*toggle;
        42u8
    });
    assert_eq!(r, Ok(42));
    assert_eq!(m.state(), State::InitAndIdle);
    assert_eq!(m.try_free(Active::ThreadMode), Ok(Some(true)));
}

#[test]
fn lock_from_bound_exception() {
    let mut m = Move::new(10u32, Context::Exception(Exception::PendSV));
    let r = m.try_lock(Active::Exception(Exception::PendSV), |v| *v += 1);
    assert_eq!(r, Ok(()));
    assert_eq!(m.try_free(Active::ThreadMode), Ok(Some(11)));
}

#[test]
fn lock_refused_from_other_contexts() {
    let others = [
        Active::ThreadMode,
        Active::Interrupt { irqn: TIMER1 + 1 },
        Active::Exception(Exception::SysTick),
    ];
    for live in others {
        let mut m = Move::new(3u32, Context::Interrupt(TIMER1));
        let mut called = false;
        let r = m.try_lock(live, |_| called = true);
        assert_eq!(r, Err(()));
        assert!(!called);
        assert_eq!(m.state(), State::InitAndIdle);
        assert_eq!(m.try_free(Active::ThreadMode), Ok(Some(3)));
    }
}

#[test]
fn lock_refused_when_uninit() {
    let mut m: Move<u32> = Move::new_uninitialized(Context::Interrupt(TIMER1));
    assert_eq!(m.try_lock(timer1(), |v| *v), Err(()));
    assert_eq!(m.state(), State::Uninit);
}

#[test]
fn reentrant_lock_is_refused() {
    let mut m = Move::new(5u32, Context::Interrupt(TIMER1));
    let held = m.lock(timer1());
    assert_eq!(held, Ok(5));
    assert_eq!(m.state(), State::Locked);
    assert_eq!(m.try_lock(timer1(), |v| *v), Err(()));
    assert_eq!(m.lock(timer1()), Err(()));
    assert_eq!(m.unlock(6), Ok(()));
    assert_eq!(m.state(), State::InitAndIdle);
    assert_eq!(m.try_free(Active::ThreadMode), Ok(Some(6)));
}

#[test]
fn unlock_refused_unless_locked() {
    let mut m = Move::new(5u32, Context::Interrupt(TIMER1));
    assert_eq!(m.unlock(9), Err(9));
    assert_eq!(m.try_free(Active::ThreadMode), Ok(Some(5)));
    assert_eq!(m.unlock(9), Err(9));
    assert_eq!(m.state(), State::Uninit);
}

#[test]
fn free_in_each_state() {
    let mut m: Move<u32> = Move::new_uninitialized(Context::Interrupt(TIMER1));
    assert_eq!(m.try_free(Active::ThreadMode), Ok(None));
    assert_eq!(m.state(), State::Uninit);

    assert_eq!(m.try_move(Active::ThreadMode, 8), Ok(None));
    assert_eq!(m.try_free(Active::ThreadMode), Ok(Some(8)));
    assert_eq!(m.state(), State::Uninit);

    assert_eq!(m.try_move(Active::ThreadMode, 9), Ok(None));
    assert_eq!(m.lock(timer1()), Ok(9));
    assert_eq!(m.try_free(Active::ThreadMode), Err(()));
    assert_eq!(m.try_move(Active::ThreadMode, 10), Err(10));
    assert_eq!(m.state(), State::Locked);
}

#[test]
fn move_then_free_round_trip() {
    let mut m = Move::new(String::from("old"), Context::Exception(Exception::SysTick));
    let x = String::from("payload");
    assert_eq!(m.try_move(Active::ThreadMode, x.clone()), Ok(Some(String::from("old"))));
    assert_eq!(m.try_free(Active::ThreadMode), Ok(Some(x)));
    assert_eq!(m.state(), State::Uninit);
}

#[test]
fn kinds_never_cross() {
    // SysTick is vector 15, exception number -1; an interrupt numbered like it
    // must still not match.
    for n in [1u8, 15, 0, 255] {
        assert!(Context::Exception(Exception::SysTick) != Active::Interrupt { irqn: n });
        assert!(Context::Interrupt(n) != Active::Exception(Exception::SysTick));
    }
    assert!(Context::Exception(Exception::SysTick) == Active::Exception(Exception::SysTick));
    assert!(Context::Exception(Exception::SysTick) != Active::Exception(Exception::PendSV));
    assert!(Context::Interrupt(15) == Active::Interrupt { irqn: 15 });
    assert!(Context::Interrupt(15) != Active::ThreadMode);
}

#[test]
fn exception_bound_instance_refuses_same_numbered_interrupt() {
    let mut m = Move::new(1u32, Context::Exception(Exception::SysTick));
    assert_eq!(m.try_lock(Active::Interrupt { irqn: 15 }, |v| *v), Err(()));
    let mut n = Move::new(1u32, Context::Interrupt(15));
    assert_eq!(n.try_lock(Active::Exception(Exception::SysTick), |v| *v), Err(()));
}

#[test]
fn thread_mode_check() {
    assert!(Active::ThreadMode.is_thread_mode());
    assert!(!timer1().is_thread_mode());
    assert!(!Active::Exception(Exception::NonMaskableInt).is_thread_mode());
}
