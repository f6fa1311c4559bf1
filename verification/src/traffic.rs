//! The pedestrian-actuated traffic light: two steady states, WAIT and GO,
//! joined by fixed-duration amber phases. A transition is rendered as the
//! exact list of pin actions and pauses it performs, in order, so the
//! amber phase is visible between the two steady states.

use vstd::prelude::*;

verus! {

/// Milliseconds the control loop holds after each iteration.
pub const HOLD_MS: u16 = 10000;

/// Largest transition duration, in seconds, whose millisecond count still
/// fits the 16-bit delay primitive.
pub const MAX_TRANSITION_S: u16 = 65;

/// The three lamps of the signal head.
#[derive(Clone, Copy, Debug, PartialEq, Eq, Structural)]
pub enum Lamp {
    Red,
    Yellow,
    Green,
}

/// One thing the controller asks the hardware to do: drive a lamp to a
/// level, or block for a number of milliseconds.
#[derive(Clone, Copy, Debug, PartialEq, Eq, Structural)]
pub enum Action {
    Switch { lamp: Lamp, on: bool },
    Pause { ms: u16 },
}

/// The two steady states.
#[derive(Clone, Copy, Debug, PartialEq, Eq, Structural)]
pub enum TrafficState {
    Wait,
    Go,
}

/// The controller: its steady state and the level each lamp was last
/// driven to.
#[derive(Clone, Copy, Debug, PartialEq, Eq, Structural)]
pub struct TrafficController {
    pub state: TrafficState,
    pub red: bool,
    pub yellow: bool,
    pub green: bool,
}

/// The steady WAIT picture: red alone lit, state WAIT.
pub open spec fn shows_wait(c: TrafficController) -> bool {
    &&& c.state == TrafficState::Wait
    &&& c.red
    &&& !c.yellow
    &&& !c.green
}

/// The steady GO picture: green alone lit, state GO.
pub open spec fn shows_go(c: TrafficController) -> bool {
    &&& c.state == TrafficState::Go
    &&& c.green
    &&& !c.red
    &&& !c.yellow
}

/// The action list of a WAIT-to-GO transition: red and amber together,
/// the timed pause, then green alone.
pub open spec fn go_actions(transition_time_in_s: u16) -> Seq<Action> {
    seq![
        Action::Switch { lamp: Lamp::Red, on: true },
        Action::Switch { lamp: Lamp::Yellow, on: true },
        Action::Pause { ms: (transition_time_in_s * 1000) as u16 },
        Action::Switch { lamp: Lamp::Red, on: false },
        Action::Switch { lamp: Lamp::Yellow, on: false },
        Action::Switch { lamp: Lamp::Green, on: true },
    ]
}

/// The action list of a GO-to-WAIT transition: green out and amber alone,
/// the timed pause, then red alone.
pub open spec fn wait_actions(transition_time_in_s: u16) -> Seq<Action> {
    seq![
        Action::Switch { lamp: Lamp::Green, on: false },
        Action::Switch { lamp: Lamp::Yellow, on: true },
        Action::Pause { ms: (transition_time_in_s * 1000) as u16 },
        Action::Switch { lamp: Lamp::Yellow, on: false },
        Action::Switch { lamp: Lamp::Red, on: true },
    ]
}

/// The action list of the boot self-test and baseline: every lamp high,
/// every lamp low, then red for the WAIT baseline.
pub open spec fn startup_actions() -> Seq<Action> {
    seq![
        Action::Switch { lamp: Lamp::Red, on: true },
        Action::Switch { lamp: Lamp::Yellow, on: true },
        Action::Switch { lamp: Lamp::Green, on: true },
        Action::Switch { lamp: Lamp::Red, on: false },
        Action::Switch { lamp: Lamp::Yellow, on: false },
        Action::Switch { lamp: Lamp::Green, on: false },
        Action::Switch { lamp: Lamp::Red, on: true },
    ]
}

impl TrafficController {
    /// Boots the controller: drives every lamp high and then low as a
    /// visual smoke test, and settles into the WAIT baseline with red lit.
    /// Returns the controller together with the actions the boot performed.
    pub fn new() -> (r: (TrafficController, Vec<Action>))
        ensures
            shows_wait(r.0),
            r.1@ == startup_actions(),
    {
        let mut c = TrafficController {
            state: TrafficState::Wait,
            red: false,
            yellow: false,
            green: false,
        };
        let mut actions = c.all_high();
        let mut low = c.all_low();
        actions.append(&mut low);
        c.red = true;
        actions.push(Action::Switch { lamp: Lamp::Red, on: true });
        proof {
            assert(actions@ =~= startup_actions());
        }
        (c, actions)
    }

    /// Drives all three lamps high, in red, yellow, green order.
    pub fn all_high(&mut self) -> (actions: Vec<Action>)
        ensures
            *final(self) == (TrafficController {
                red: true,
                yellow: true,
                green: true,
                ..*old(self)
            }),
            actions@ == seq![
                Action::Switch { lamp: Lamp::Red, on: true },
                Action::Switch { lamp: Lamp::Yellow, on: true },
                Action::Switch { lamp: Lamp::Green, on: true },
            ],
    {
        self.red = true;
        self.yellow = true;
        self.green = true;
        let mut actions: Vec<Action> = Vec::new();
        actions.push(Action::Switch { lamp: Lamp::Red, on: true });
        actions.push(Action::Switch { lamp: Lamp::Yellow, on: true });
        actions.push(Action::Switch { lamp: Lamp::Green, on: true });
        proof {
            assert(actions@ =~= seq![
                Action::Switch { lamp: Lamp::Red, on: true },
                Action::Switch { lamp: Lamp::Yellow, on: true },
                Action::Switch { lamp: Lamp::Green, on: true },
            ]);
        }
        actions
    }

    /// Drives all three lamps low, in red, yellow, green order.
    pub fn all_low(&mut self) -> (actions: Vec<Action>)
        ensures
            *final(self) == (TrafficController {
                red: false,
                yellow: false,
                green: false,
                ..*old(self)
            }),
            actions@ == seq![
                Action::Switch { lamp: Lamp::Red, on: false },
                Action::Switch { lamp: Lamp::Yellow, on: false },
                Action::Switch { lamp: Lamp::Green, on: false },
            ],
    {
        self.red = false;
        self.yellow = false;
        self.green = false;
        let mut actions: Vec<Action> = Vec::new();
        actions.push(Action::Switch { lamp: Lamp::Red, on: false });
        actions.push(Action::Switch { lamp: Lamp::Yellow, on: false });
        actions.push(Action::Switch { lamp: Lamp::Green, on: false });
        proof {
            assert(actions@ =~= seq![
                Action::Switch { lamp: Lamp::Red, on: false },
                Action::Switch { lamp: Lamp::Yellow, on: false },
                Action::Switch { lamp: Lamp::Green, on: false },
            ]);
        }
        actions
    }

    /// The WAIT-to-GO transition: red and amber together, the timed pause,
    /// then green alone; the state becomes GO. Works from either state;
    /// `change_state` is what guards it.
    pub fn to_go(&mut self, transition_time_in_s: u16) -> (actions: Vec<Action>)
        requires
            transition_time_in_s <= MAX_TRANSITION_S,
        ensures
            shows_go(*final(self)),
            actions@ == go_actions(transition_time_in_s),
    {
        let pause: u16 = transition_time_in_s * 1000;
        let mut actions: Vec<Action> = Vec::new();

        self.red = true;
        actions.push(Action::Switch { lamp: Lamp::Red, on: true });
        self.yellow = true;
        actions.push(Action::Switch { lamp: Lamp::Yellow, on: true });

        actions.push(Action::Pause { ms: pause });

        self.red = false;
        actions.push(Action::Switch { lamp: Lamp::Red, on: false });
        self.yellow = false;
        actions.push(Action::Switch { lamp: Lamp::Yellow, on: false });
        self.green = true;
        actions.push(Action::Switch { lamp: Lamp::Green, on: true });

        self.state = TrafficState::Go;
        proof {
            assert(actions@ =~= go_actions(transition_time_in_s));
        }
        actions
    }

    /// The GO-to-WAIT transition: green out and amber alone, the timed
    /// pause, then red alone; the state becomes WAIT. Works from either
    /// state, so a rerun from WAIT ends in the same picture.
    pub fn to_wait(&mut self, transition_time_in_s: u16) -> (actions: Vec<Action>)
        requires
            transition_time_in_s <= MAX_TRANSITION_S,
        ensures
            shows_wait(*final(self)),
            actions@ == wait_actions(transition_time_in_s),
    {
        let pause: u16 = transition_time_in_s * 1000;
        let mut actions: Vec<Action> = Vec::new();

        self.green = false;
        actions.push(Action::Switch { lamp: Lamp::Green, on: false });
        self.yellow = true;
        actions.push(Action::Switch { lamp: Lamp::Yellow, on: true });

        actions.push(Action::Pause { ms: pause });

        self.yellow = false;
        actions.push(Action::Switch { lamp: Lamp::Yellow, on: false });
        self.red = true;
        actions.push(Action::Switch { lamp: Lamp::Red, on: true });

        self.state = TrafficState::Wait;
        proof {
            assert(actions@ =~= wait_actions(transition_time_in_s));
        }
        actions
    }

    /// Toggles the steady state: from WAIT it runs the GO transition, from
    /// GO the WAIT transition.
    pub fn change_state(&mut self, transition_time_in_s: u16) -> (actions: Vec<Action>)
        requires
            transition_time_in_s <= MAX_TRANSITION_S,
        ensures
            old(self).state == TrafficState::Wait ==> shows_go(*final(self)) && actions@
                == go_actions(transition_time_in_s),
            old(self).state == TrafficState::Go ==> shows_wait(*final(self)) && actions@
                == wait_actions(transition_time_in_s),
    {
        if self.state == TrafficState::Wait {
            self.to_go(transition_time_in_s)
        } else {
            self.to_wait(transition_time_in_s)
        }
    }

    /// One iteration of the control loop. A pedestrian request forces the
    /// WAIT transition — whatever the current state, including WAIT itself —
    /// and then holds; without one the controller holds and then toggles.
    pub fn service(&mut self, pedestrian_request: bool, transition_time_in_s: u16) -> (actions:
        Vec<Action>)
        requires
            transition_time_in_s <= MAX_TRANSITION_S,
        ensures
            pedestrian_request ==> shows_wait(*final(self)) && actions@ == wait_actions(
                transition_time_in_s,
            ) + seq![Action::Pause { ms: HOLD_MS }],
            !pedestrian_request && old(self).state == TrafficState::Wait ==> shows_go(
                *final(self),
            ) && actions@ == seq![Action::Pause { ms: HOLD_MS }] + go_actions(transition_time_in_s),
            !pedestrian_request && old(self).state == TrafficState::Go ==> shows_wait(
                *final(self),
            ) && actions@ == seq![Action::Pause { ms: HOLD_MS }] + wait_actions(
                transition_time_in_s,
            ),
    {
        if pedestrian_request {
            let mut actions = self.to_wait(transition_time_in_s);
            actions.push(Action::Pause { ms: HOLD_MS });
            proof {
                assert(actions@ =~= wait_actions(transition_time_in_s) + seq![
                    Action::Pause { ms: HOLD_MS },
                ]);
            }
            actions
        } else {
            let mut actions: Vec<Action> = Vec::new();
            actions.push(Action::Pause { ms: HOLD_MS });
            let mut rest = self.change_state(transition_time_in_s);
            actions.append(&mut rest);
            proof {
                if old(self).state == TrafficState::Wait {
                    assert(actions@ =~= seq![Action::Pause { ms: HOLD_MS }] + go_actions(
                        transition_time_in_s,
                    ));
                } else {
                    assert(actions@ =~= seq![Action::Pause { ms: HOLD_MS }] + wait_actions(
                        transition_time_in_s,
                    ));
                }
            }
            actions
        }
    }
}

} // verus!
