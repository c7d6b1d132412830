//! The switch protocol: construction decisions, phase classification, and
//! the precedence between the exit phase and the logic's result.

use namespaces::Error;
use namespaces::Kind;
use namespaces::Namespace;
use namespaces::Switcher;

#[test]
fn handle_decision() {
    let here = Namespace::mnt(100);
    let there = Namespace::mnt(200);
    assert!(!Switcher::needs_handles(&here, &here));
    assert!(Switcher::needs_handles(&here, &there));
}

#[test]
fn no_switch_holds_no_handles() {
    let target = Namespace::mnt(100);
    let sw = Switcher::no_switch(target);
    assert!(!sw.has_handles());
    assert_eq!(sw.namespace, target);
}

#[test]
fn with_handles_holds_both() {
    let target = Namespace::net(200);
    let sw = Switcher::with_handles(target, 3, 4);
    assert!(sw.has_handles());
    assert_eq!(sw.namespace, target);
    assert_eq!(sw.src, Some(3));
    assert_eq!(sw.dst, Some(4));
}

/// Drive the protocol as a caller would: enter, then the logic only if the
/// enter phase succeeded, then exit, with the exit outcome superseding the
/// logic's result. The syscall outcomes are injected; `ran` counts how
/// often the logic was invoked.
fn drive(
    sw: &Switcher,
    enter_sys: Option<Result<(), i32>>,
    logic: Result<u64, Error>,
    exit_sys: Option<Result<(), i32>>,
    ran: &mut u32,
) -> Result<u64, Error> {
    if let Err(e) = sw.enter_outcome(enter_sys) {
        return Err(e);
    }
    *ran += 1;
    let exit = sw.exit_outcome(exit_sys);
    Switcher::conclude(logic, exit)
}

#[test]
fn no_op_switch_returns_logic_unmodified() {
    let sw = Switcher::no_switch(Namespace::mnt(100));
    let mut ran = 0;
    let r = drive(&sw, None, Ok(77), None, &mut ran);
    assert_eq!(ran, 1);
    assert!(matches!(r, Ok(77)));

    let mut ran = 0;
    let r = drive(
        &sw,
        None,
        Err(Error::other("logic failed".to_string())),
        None,
        &mut ran,
    );
    assert_eq!(ran, 1);
    assert!(matches!(r, Err(Error::Other(msg)) if msg == "logic failed"));
}

#[test]
fn enter_failure_short_circuits() {
    let target = Namespace::pid(300);
    let sw = Switcher::with_handles(target, 3, 4);
    let mut ran = 0;
    let r = drive(&sw, Some(Err(13)), Ok(77), Some(Ok(())), &mut ran);
    // the logic never ran
    assert_eq!(ran, 0);
    // and the error is Enter, carrying the target identity
    assert!(matches!(r, Err(Error::Enter(ns, 13)) if ns == target));
}

#[test]
fn exit_failure_supersedes_logic_success() {
    let target = Namespace::user(400);
    let sw = Switcher::with_handles(target, 3, 4);
    let mut ran = 0;
    let r = drive(&sw, Some(Ok(())), Ok(99), Some(Err(5)), &mut ran);
    assert_eq!(ran, 1);
    // the successful logic value is discarded: the result is an error
    assert!(r.is_err());
    assert!(matches!(r, Err(Error::Exit(ns, 5)) if ns == target));
}

#[test]
fn clean_run_returns_logic() {
    let target = Namespace::ipc(500);
    let sw = Switcher::with_handles(target, 3, 4);
    let mut ran = 0;
    let r = drive(&sw, Some(Ok(())), Ok(99), Some(Ok(())), &mut ran);
    assert_eq!(ran, 1);
    assert!(matches!(r, Ok(99)));
}

#[test]
fn phase_classification() {
    let target = Namespace::uts(600);
    let sw = Switcher::with_handles(target, 3, 4);
    assert!(sw.enter_outcome(Some(Ok(()))).is_ok());
    assert!(sw.exit_outcome(Some(Ok(()))).is_ok());
    assert!(matches!(
        sw.enter_outcome(Some(Err(1))),
        Err(Error::Enter(ns, 1)) if ns == target
    ));
    assert!(matches!(
        sw.exit_outcome(Some(Err(2))),
        Err(Error::Exit(ns, 2)) if ns == target
    ));
    let sw = Switcher::no_switch(target);
    assert!(sw.enter_outcome(None).is_ok());
    assert!(sw.exit_outcome(None).is_ok());
}

#[test]
fn other_wraps_a_message() {
    let e = Error::other("boom".to_string());
    assert!(matches!(e, Error::Other(msg) if msg == "boom"));
}

#[test]
fn conclude_precedence() {
    let target = Namespace::time(700);
    let exit_err = Error::Exit(target, 9);
    let r: Result<u64, Error> = Switcher::conclude(Ok(1), Err(exit_err));
    assert!(matches!(r, Err(Error::Exit(ns, 9)) if ns == target));
    let r: Result<u64, Error> = Switcher::conclude(Ok(1), Ok(()));
    assert!(matches!(r, Ok(1)));
    let r: Result<u64, Error> =
        Switcher::conclude(Err(Error::other("x".to_string())), Ok(()));
    assert!(matches!(r, Err(Error::Other(msg)) if msg == "x"));
}
