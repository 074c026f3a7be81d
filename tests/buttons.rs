use bambino_fw::buttons::{ButtonEvent, ButtonKind, ButtonState, ButtonStateTransitionEvent, Buttons};
use bambino_fw::time::Instant;

fn feed(buttons: &mut Buttons, kind: ButtonKind, times: &[u64]) -> Vec<ButtonStateTransitionEvent> {
    let mut out = Vec::new();
    for &t in times {
        if let Some(e) = buttons.on_edge(kind, Instant::from_millis(t)) {
            out.push(e);
        }
    }
    out
}

#[test]
fn one_cup_bounce_scenario_yields_press_then_release() {
    let mut buttons = Buttons::new(Instant::from_millis(0));
    let events = feed(&mut buttons, ButtonKind::OneCup, &[0, 10, 80, 140]);
    assert_eq!(events.len(), 2);
    assert_eq!(events[0].new_state().state(), ButtonState::Pressed);
    assert_eq!(events[0].new_state().timestamp(), Instant::from_millis(80));
    assert_eq!(events[0].old_state().state(), ButtonState::Released);
    assert_eq!(events[0].old_state().timestamp(), Instant::from_millis(0));
    assert_eq!(events[1].new_state().state(), ButtonState::Released);
    assert_eq!(events[1].new_state().timestamp(), Instant::from_millis(140));
    assert_eq!(events[1].old_state().timestamp(), Instant::from_millis(80));
    assert_eq!(events[1].new_state().source(), ButtonKind::OneCup);
}

#[test]
fn bounce_within_one_interval_yields_at_most_one() {
    let mut buttons = Buttons::new(Instant::from_millis(0));
    let events = feed(&mut buttons, ButtonKind::TwoCup, &[100, 110, 120, 130, 149]);
    assert_eq!(events.len(), 1);
    assert_eq!(events[0].new_state().state(), ButtonState::Pressed);
    assert_eq!(events[0].new_state().timestamp(), Instant::from_millis(100));
}

#[test]
fn bounce_right_after_start_yields_nothing() {
    let mut buttons = Buttons::new(Instant::from_millis(1000));
    let events = feed(&mut buttons, ButtonKind::Steam, &[1001, 1020, 1049]);
    assert!(events.is_empty());
    assert_eq!(buttons.awaited_state(ButtonKind::Steam), ButtonState::Pressed);
}

#[test]
fn spaced_edges_are_all_accepted_and_alternate() {
    let mut buttons = Buttons::new(Instant::from_millis(0));
    let times = [50, 100, 175, 225, 1000];
    let events = feed(&mut buttons, ButtonKind::HotWater, &times);
    assert_eq!(events.len(), times.len());
    for (i, e) in events.iter().enumerate() {
        let expected = if i % 2 == 0 { ButtonState::Pressed } else { ButtonState::Released };
        assert_eq!(e.new_state().state(), expected);
        assert_eq!(e.new_state().timestamp(), Instant::from_millis(times[i]));
        assert_eq!(e.new_state().source(), ButtonKind::HotWater);
    }
}

#[test]
fn lines_are_debounced_independently() {
    let mut buttons = Buttons::new(Instant::from_millis(0));
    assert!(buttons.on_edge(ButtonKind::OneCup, Instant::from_millis(60)).is_some());
    assert!(buttons.on_edge(ButtonKind::TwoCup, Instant::from_millis(70)).is_some());
    assert!(buttons.on_edge(ButtonKind::OneCup, Instant::from_millis(80)).is_none());
    assert_eq!(buttons.awaited_state(ButtonKind::OneCup), ButtonState::Released);
    assert_eq!(buttons.awaited_state(ButtonKind::TwoCup), ButtonState::Released);
    assert_eq!(buttons.awaited_state(ButtonKind::HotWater), ButtonState::Pressed);
    assert_eq!(buttons.kind_to_last_event(ButtonKind::OneCup).timestamp(), Instant::from_millis(60));
}

#[test]
fn edge_before_last_event_is_discarded() {
    let mut buttons = Buttons::new(Instant::from_millis(500));
    assert!(buttons.on_edge(ButtonKind::OneCup, Instant::from_millis(100)).is_none());
}

#[test]
fn event_accessors_and_elapsed() {
    let e = ButtonEvent::new(ButtonKind::Steam, ButtonState::Pressed, Instant::from_millis(30));
    assert_eq!(e.source(), ButtonKind::Steam);
    assert_eq!(e.state(), ButtonState::Pressed);
    assert_eq!(e.timestamp().as_millis(), 30);
    assert_eq!(e.elapsed(Instant::from_millis(100)), 70);
    assert_eq!(e.elapsed(Instant::from_millis(10)), 0);
    assert_eq!(ButtonState::Pressed.not(), ButtonState::Released);
    assert_eq!(ButtonState::Released.not(), ButtonState::Pressed);
}
