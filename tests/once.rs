use linux_once::{Action, Once, Owner, COMPLETE, POISONED, RUNNING_HAS_WAITERS, RUNNING_NO_WAITERS};

// Drives one caller until it owns the initializer or must stop.
// Never sleeps on a word that only this thread could change.
fn advance<'a>(once: &'a Once, mut action: Action) -> (Action, Option<Owner<'a>>) {
    loop {
        action = match action {
            Action::TryAcquire => match once.try_acquire() {
                (next, Ok(owner)) => return (next, Some(owner)),
                (next, Err(_)) => next,
            },
            Action::RegisterWaiter => once.register_waiter(),
            other => return (other, None),
        };
    }
}

#[test]
fn basic() {
    let mut ran = false;
    let once = Once::new();
    if let (Action::RunInitializer, Some(owner)) = advance(&once, once.start()) {
        ran = true;
        owner.finish(true);
    }
    assert!(ran);
    ran = false;
    if let (Action::RunInitializer, Some(owner)) = advance(&once, once.start()) {
        ran = true;
        owner.finish(true);
    }
    assert!(!ran);
}

#[test]
fn fresh_instance_is_not_completed() {
    let once = Once::new();
    assert!(!once.is_completed());
    assert_eq!(once.start(), Action::TryAcquire);
}

#[test]
fn owner_completes_without_waiters() {
    let once = Once::new();
    let (action, owner) = advance(&once, once.start());
    assert_eq!(action, Action::RunInitializer);
    assert!(!once.is_completed());
    assert_eq!(owner.unwrap().finish(true), (RUNNING_NO_WAITERS, false));
    assert!(once.is_completed());
    assert_eq!(once.start(), Action::Return);
}

#[test]
fn failed_acquire_reports_the_word_found() {
    let once = Once::new();
    let (_, owner) = advance(&once, once.start());
    assert!(owner.is_some());
    match once.try_acquire() {
        (action, Err(w)) => {
            assert_eq!(w, RUNNING_NO_WAITERS);
            assert_eq!(action, Action::RegisterWaiter);
        }
        (_, Ok(_)) => panic!("a second owner"),
    }
    owner.unwrap().finish(true);
    match once.try_acquire() {
        (action, Err(w)) => {
            assert_eq!(w, COMPLETE);
            assert_eq!(action, Action::Return);
        }
        (_, Ok(_)) => panic!("a second owner"),
    }
}

#[test]
fn five_racing_callers_run_one_initializer() {
    let once = Once::new();
    let mut counter = 0;
    let starts: Vec<Action> = (0..5).map(|_| once.start()).collect();
    assert!(starts.iter().all(|a| *a == Action::TryAcquire));
    let mut owners = Vec::new();
    let mut actions = Vec::new();
    for a in starts {
        let (next, owner) = advance(&once, a);
        actions.push(next);
        if let Some(o) = owner {
            owners.push(o);
        }
    }
    assert_eq!(owners.len(), 1);
    assert_eq!(actions[0], Action::RunInitializer);
    assert!(actions[1..].iter().all(|a| *a == Action::Wait));
    counter += 1;
    assert_eq!(owners.pop().unwrap().finish(true), (RUNNING_HAS_WAITERS, true));
    for a in actions[1..].iter_mut() {
        *a = once.wait();
    }
    assert!(actions[1..].iter().all(|a| *a == Action::Return));
    assert_eq!(counter, 1);
    assert!(once.is_completed());
}

#[test]
fn two_callers_one_initializer() {
    let once = Once::new();
    let mut counter = 0;
    let main_action = once.start();
    let other_action = once.start();
    let (main_action, main_owner) = advance(&once, main_action);
    let (other_action, other_owner) = advance(&once, other_action);
    assert_eq!(main_action, Action::RunInitializer);
    assert_eq!(other_action, Action::Wait);
    assert!(other_owner.is_none());
    counter += 1;
    main_owner.unwrap().finish(true);
    assert_eq!(once.wait(), Action::Return);
    assert_eq!(counter, 1);
}

#[test]
fn failed_initializer_poisons() {
    let once = Once::new();
    let (action, owner) = advance(&once, once.start());
    assert_eq!(action, Action::RunInitializer);
    assert_eq!(owner.unwrap().finish(false), (RUNNING_NO_WAITERS, false));
    assert!(!once.is_completed());
    assert_eq!(once.start(), Action::Fail);
    let (action, found) = once.try_acquire();
    assert_eq!(action, Action::Fail);
    assert!(matches!(found, Err(POISONED)));
    assert_eq!(once.register_waiter(), Action::Fail);
    assert_eq!(once.wait(), Action::Fail);
    assert!(!once.is_completed());
}

#[test]
fn waiter_sees_poison() {
    let once = Once::new();
    let (_, owner) = advance(&once, once.start());
    assert_eq!(advance(&once, once.start()).0, Action::Wait);
    assert_eq!(owner.unwrap().finish(false), (RUNNING_HAS_WAITERS, true));
    assert_eq!(once.wait(), Action::Fail);
}

#[test]
fn late_caller_after_owner_started_waits() {
    let once = Once::new();
    let (_, owner) = advance(&once, once.start());
    assert_eq!(once.start(), Action::RegisterWaiter);
    assert_eq!(once.register_waiter(), Action::Wait);
    assert_eq!(once.start(), Action::Wait);
    assert_eq!(once.register_waiter(), Action::Wait);
    assert!(owner.unwrap().finish(true).1);
    assert_eq!(once.start(), Action::Return);
    assert_eq!(once.try_acquire().0, Action::Return);
}
