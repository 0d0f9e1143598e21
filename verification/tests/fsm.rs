use snake_net::fsm::{FsmEvent, FsmState, StateMachine};

#[derive(Debug)]
enum Key {
    Press,
    Hold,
}

impl FsmEvent for Key {}

#[derive(Debug, Clone, Copy, PartialEq)]
enum Lamp {
    Off,
    On,
}

impl FsmState<Key> for Lamp {
    fn handle_event(&self, event: &Key) -> Option<Lamp> {
        match (self, event) {
            (Lamp::Off, Key::Press) => Some(Lamp::On),
            (Lamp::On, Key::Press) => Some(Lamp::Off),
            (_, Key::Hold) => None,
        }
    }
}

#[test]
fn machine_starts_in_its_initial_state() {
    let machine: StateMachine<Key, Lamp> = StateMachine::new(Lamp::Off);
    assert_eq!(*machine.state(), Lamp::Off);
}

#[test]
fn machine_follows_what_its_state_decides() {
    let mut machine = StateMachine::new(Lamp::Off);
    machine.handle_event(&Key::Hold);
    assert_eq!(*machine.state(), Lamp::Off);
    machine.handle_event(&Key::Press);
    assert_eq!(*machine.state(), Lamp::On);
    machine.handle_event(&Key::Hold);
    assert_eq!(*machine.state(), Lamp::On);
    machine.handle_event(&Key::Press);
    assert_eq!(*machine.state(), Lamp::Off);
}
