use server_supervisor::stop::{
    stop_child, ChildSeen, StopAction, StopFlow, STOP_PATIENCE_MILLIS, STOP_PAUSE_MILLIS,
};

#[test]
fn the_patience_and_the_pause() {
    assert_eq!(STOP_PATIENCE_MILLIS, 5000);
    assert_eq!(STOP_PAUSE_MILLIS, 100);
}

#[test]
fn a_child_that_exits_at_once_is_not_killed() {
    let flow = StopFlow::begin();
    assert_eq!(flow.action(), Some(StopAction::Terminate));
    let flow = flow.advance(ChildSeen::Running);
    assert_eq!(flow, StopFlow::Checking { waited: 0 });
    assert_eq!(flow.action(), Some(StopAction::Check));
    let flow = flow.advance(ChildSeen::Gone);
    assert_eq!(flow, StopFlow::Ended { forced: false });
    assert_eq!(flow.action(), None);
    assert_eq!(flow.forced(), Some(false));
}

#[test]
fn a_child_that_is_still_there_is_looked_at_again_after_a_pause() {
    let flow = StopFlow::Checking { waited: 0 }.advance(ChildSeen::Running);
    assert_eq!(flow, StopFlow::Pausing { waited: 0 });
    assert_eq!(flow.action(), Some(StopAction::Pause { millis: 100 }));
    let flow = flow.advance(ChildSeen::Running);
    assert_eq!(flow, StopFlow::Checking { waited: 100 });
    assert_eq!(flow.forced(), None);
}

#[test]
fn the_last_pause_is_cut_to_the_patience() {
    let flow = StopFlow::Pausing { waited: 4950 };
    assert_eq!(flow.action(), Some(StopAction::Pause { millis: 50 }));
    assert_eq!(flow.advance(ChildSeen::Running), StopFlow::Checking { waited: 5000 });
}

#[test]
fn a_child_that_outlasts_the_patience_is_killed() {
    let flow = StopFlow::Checking { waited: 5000 }.advance(ChildSeen::Running);
    assert_eq!(flow, StopFlow::Killing);
    assert_eq!(flow.action(), Some(StopAction::Kill));
    let flow = flow.advance(ChildSeen::Running);
    assert_eq!(flow, StopFlow::Ended { forced: true });
    assert_eq!(flow.forced(), Some(true));
}

#[test]
fn a_child_that_is_gone_at_the_last_look_is_not_killed() {
    let flow = StopFlow::Checking { waited: 5000 }.advance(ChildSeen::Gone);
    assert_eq!(flow, StopFlow::Ended { forced: false });
}

#[test]
fn an_ending_that_is_over_stays_over() {
    let flow = StopFlow::Ended { forced: false };
    assert_eq!(flow.advance(ChildSeen::Running), flow);
    assert_eq!(flow.action(), None);
}

#[test]
fn the_ending_takes_a_bounded_number_of_steps() {
    let mut flow = StopFlow::begin();
    let mut steps = 0;
    let mut paused = 0;
    while let Some(action) = flow.action() {
        if let StopAction::Pause { millis } = action {
            paused += millis;
        }
        flow = flow.advance(ChildSeen::Running);
        steps += 1;
    }
    assert_eq!(flow, StopFlow::Ended { forced: true });
    assert_eq!(paused, 5000);
    assert_eq!(steps, 103);
}

#[test]
fn a_child_is_killed_exactly_if_it_outlasts_the_patience() {
    assert!(!stop_child(Some(0)));
    assert!(!stop_child(Some(1)));
    assert!(!stop_child(Some(4999)));
    assert!(!stop_child(Some(5000)));
    assert!(stop_child(Some(5001)));
    assert!(stop_child(Some(u64::MAX)));
    assert!(stop_child(None));
}
