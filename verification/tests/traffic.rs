use lightctl::traffic::{Action, Lamp, TrafficController, TrafficState, HOLD_MS};

fn switch(lamp: Lamp, on: bool) -> Action {
    Action::Switch { lamp, on }
}

#[test]
fn boot_runs_the_smoke_test_and_settles_into_wait() {
    let (c, boot) = TrafficController::new();
    assert_eq!(c.state, TrafficState::Wait);
    assert!(c.red);
    assert!(!c.yellow);
    assert!(!c.green);
    assert_eq!(
        boot,
        vec![
            switch(Lamp::Red, true),
            switch(Lamp::Yellow, true),
            switch(Lamp::Green, true),
            switch(Lamp::Red, false),
            switch(Lamp::Yellow, false),
            switch(Lamp::Green, false),
            switch(Lamp::Red, true),
        ]
    );
}

#[test]
fn to_go_passes_through_red_and_amber_before_green() {
    let (mut c, _) = TrafficController::new();
    let actions = c.to_go(2);
    assert_eq!(c.state, TrafficState::Go);
    assert!(c.green);
    assert!(!c.red);
    assert!(!c.yellow);
    assert_eq!(
        actions,
        vec![
            switch(Lamp::Red, true),
            switch(Lamp::Yellow, true),
            Action::Pause { ms: 2000 },
            switch(Lamp::Red, false),
            switch(Lamp::Yellow, false),
            switch(Lamp::Green, true),
        ]
    );
}

#[test]
fn to_wait_passes_through_amber_alone_before_red() {
    let (mut c, _) = TrafficController::new();
    c.to_go(1);
    let actions = c.to_wait(3);
    assert_eq!(c.state, TrafficState::Wait);
    assert!(c.red);
    assert!(!c.yellow);
    assert!(!c.green);
    assert_eq!(
        actions,
        vec![
            switch(Lamp::Green, false),
            switch(Lamp::Yellow, true),
            Action::Pause { ms: 3000 },
            switch(Lamp::Yellow, false),
            switch(Lamp::Red, true),
        ]
    );
}

#[test]
fn change_state_toggles_between_the_two_steady_states() {
    let (mut c, _) = TrafficController::new();
    c.change_state(2);
    assert_eq!(c.state, TrafficState::Go);
    assert!(c.green && !c.red && !c.yellow);
    c.change_state(2);
    assert_eq!(c.state, TrafficState::Wait);
    assert!(c.red && !c.green && !c.yellow);
}

#[test]
fn pedestrian_request_forces_wait_from_go() {
    let (mut c, _) = TrafficController::new();
    c.to_go(2);
    let actions = c.service(true, 2);
    assert_eq!(c.state, TrafficState::Wait);
    assert!(c.red && !c.green && !c.yellow);
    assert_eq!(actions.last(), Some(&Action::Pause { ms: HOLD_MS }));
    assert_eq!(actions.len(), 6);
}

#[test]
fn pedestrian_request_reruns_the_wait_transition_from_wait() {
    let (mut c, _) = TrafficController::new();
    assert_eq!(c.state, TrafficState::Wait);
    let actions = c.service(true, 2);
    // The full transition runs again, and the picture it ends in is the
    // same WAIT baseline.
    assert_eq!(c.state, TrafficState::Wait);
    assert!(c.red && !c.green && !c.yellow);
    assert_eq!(
        actions,
        vec![
            switch(Lamp::Green, false),
            switch(Lamp::Yellow, true),
            Action::Pause { ms: 2000 },
            switch(Lamp::Yellow, false),
            switch(Lamp::Red, true),
            Action::Pause { ms: HOLD_MS },
        ]
    );
}

#[test]
fn idle_service_holds_then_toggles() {
    let (mut c, _) = TrafficController::new();
    let actions = c.service(false, 2);
    assert_eq!(c.state, TrafficState::Go);
    assert!(c.green && !c.red && !c.yellow);
    assert_eq!(actions.first(), Some(&Action::Pause { ms: HOLD_MS }));
    assert_eq!(actions.len(), 7);
    let actions = c.service(false, 2);
    assert_eq!(c.state, TrafficState::Wait);
    assert!(c.red && !c.green && !c.yellow);
    assert_eq!(actions.first(), Some(&Action::Pause { ms: HOLD_MS }));
    assert_eq!(actions.len(), 6);
}

#[test]
fn go_and_back_end_to_end() {
    let (mut c, _) = TrafficController::new();
    let going = c.to_go(2);
    assert_eq!(c.state, TrafficState::Go);
    assert!(c.green && !c.red && !c.yellow);
    // The transition blocks for at least its two stated seconds.
    let paused: u64 = going
        .iter()
        .map(|a| match a {
            Action::Pause { ms } => *ms as u64,
            _ => 0,
        })
        .sum();
    assert!(paused >= 2000);
    let waiting = c.to_wait(2);
    assert_eq!(c.state, TrafficState::Wait);
    assert!(c.red && !c.green && !c.yellow);
    assert!(waiting.contains(&Action::Pause { ms: 2000 }));
}
