use raycaster::game::{InputEvent, Key};
use raycaster::player::{Direction, Motion, Player};

fn down(key: Key) -> InputEvent {
    InputEvent::KeyDown(key)
}

fn up(key: Key) -> InputEvent {
    InputEvent::KeyUp(key)
}

fn after(events: &[InputEvent]) -> Player {
    let mut player = Player::new();
    for event in events {
        player.handle_event(*event);
    }
    player
}

fn still() -> Motion {
    Motion { turn_degrees: 0, step: None }
}

#[test]
fn a_new_player_stands_still() {
    assert_eq!(Player::new().motion(), still());
}

#[test]
fn bound_keys_are_taken_and_other_events_are_handed_back() {
    let mut player = Player::new();
    for key in [Key::W, Key::S, Key::Q, Key::E, Key::A, Key::D] {
        assert_eq!(player.handle_event(down(key)), None);
        assert_eq!(player.handle_event(up(key)), None);
    }
    for event in [
        down(Key::Escape),
        up(Key::Escape),
        down(Key::Other),
        up(Key::Other),
        InputEvent::Quit,
        InputEvent::Other,
    ] {
        assert_eq!(player.handle_event(event), Some(event));
    }
    assert_eq!(player.motion(), still());
}

#[test]
fn each_movement_key_steps_its_way() {
    for (key, direction) in [
        (Key::W, Direction::Forward),
        (Key::S, Direction::Backward),
        (Key::Q, Direction::Left),
        (Key::E, Direction::Right),
    ] {
        let player = after(&[down(key)]);
        assert_eq!(player.motion(), Motion { turn_degrees: 0, step: Some(direction) });
    }
}

#[test]
fn the_turning_keys_turn_by_two_degrees() {
    assert_eq!(after(&[down(Key::A)]).motion(), Motion { turn_degrees: 2, step: None });
    assert_eq!(after(&[down(Key::D)]).motion(), Motion { turn_degrees: -2, step: None });
}

#[test]
fn turning_and_stepping_go_together() {
    let player = after(&[down(Key::W), down(Key::D)]);
    assert_eq!(player.motion(), Motion { turn_degrees: -2, step: Some(Direction::Forward) });
    let player = after(&[down(Key::A), down(Key::Q)]);
    assert_eq!(player.motion(), Motion { turn_degrees: 2, step: Some(Direction::Left) });
}

#[test]
fn the_latest_key_wins() {
    let player = after(&[down(Key::W), down(Key::S)]);
    assert_eq!(player.motion().step, Some(Direction::Backward));
    let player = after(&[down(Key::A), down(Key::D)]);
    assert_eq!(player.motion().turn_degrees, -2);
}

#[test]
fn an_older_key_takes_over_when_the_latest_comes_up() {
    let player = after(&[down(Key::W), down(Key::S), up(Key::S)]);
    assert_eq!(player.motion().step, Some(Direction::Forward));
    let player = after(&[down(Key::W), down(Key::S), down(Key::Q), up(Key::Q)]);
    assert_eq!(player.motion().step, Some(Direction::Backward));
    let player = after(&[down(Key::A), down(Key::D), up(Key::D)]);
    assert_eq!(player.motion().turn_degrees, 2);
}

#[test]
fn a_key_that_comes_up_is_gone_wherever_it_stood() {
    let player = after(&[down(Key::W), down(Key::S), up(Key::W)]);
    assert_eq!(player.motion().step, Some(Direction::Backward));
    let player = after(&[down(Key::W), down(Key::S), up(Key::W), up(Key::S)]);
    assert_eq!(player.motion(), still());
}

#[test]
fn a_key_that_goes_down_again_becomes_the_latest_and_stands_once() {
    let player = after(&[down(Key::W), down(Key::S), down(Key::W)]);
    assert_eq!(player.motion().step, Some(Direction::Forward));
    // Were W held twice, S would not take over before both were gone.
    let player = after(&[down(Key::W), down(Key::S), down(Key::W), up(Key::W)]);
    assert_eq!(player.motion().step, Some(Direction::Backward));
}

#[test]
fn a_repeated_key_changes_nothing() {
    let player = after(&[down(Key::W), down(Key::W), down(Key::W), up(Key::W)]);
    assert_eq!(player.motion(), still());
}

#[test]
fn a_key_that_comes_up_unheld_changes_nothing() {
    let player = after(&[down(Key::W), up(Key::S), up(Key::A)]);
    assert_eq!(player.motion(), Motion { turn_degrees: 0, step: Some(Direction::Forward) });
}

#[test]
fn moving_left_and_turning_left_are_held_apart() {
    let player = after(&[down(Key::Q), down(Key::A), up(Key::Q)]);
    assert_eq!(player.motion(), Motion { turn_degrees: 2, step: None });
    let player = after(&[down(Key::E), down(Key::D), up(Key::D)]);
    assert_eq!(player.motion(), Motion { turn_degrees: 0, step: Some(Direction::Right) });
}
