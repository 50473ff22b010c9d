//! The player's controls: which movement keys and which turning keys are
//! held, in the order in which they went down.

use crate::game::{InputEvent, Key};
use vstd::prelude::*;

verus! {

/// A direction of movement or of turning, as seen by the player.
#[derive(Clone, Copy, Debug, PartialEq, Eq, Structural)]
pub enum Direction {
    Forward,
    Backward,
    Left,
    Right,
}

/// Which of the two lists of held directions a key belongs to.
#[derive(Clone, Copy, Debug, PartialEq, Eq, Structural)]
pub enum Control {
    /// The key moves the player.
    Move,
    /// The key turns the player.
    Turn,
}

/// What the player does in one step of the game.
#[derive(Clone, Copy, Debug, PartialEq, Eq, Structural)]
pub struct Motion {
    /// The angle to turn by, in degrees, counter-clockwise; 0 for no turn.
    pub turn_degrees: i32,
    /// The direction to take a step in, after the turn; none for no step.
    pub step: Option<Direction>,
}

/// `held` without every occurrence of `dir`.
pub open spec fn without(held: Seq<Direction>, dir: Direction) -> Seq<Direction> {
    held.filter(|d: Direction| d != dir)
}

/// `held` after the key of `dir` went down: unchanged where `dir` is already
/// the latest, else with `dir` as the latest and nowhere else.
pub open spec fn pressed(held: Seq<Direction>, dir: Direction) -> Seq<Direction> {
    if held.len() > 0 && held.last() == dir {
        held
    } else {
        without(held, dir).push(dir)
    }
}

/// What a key does: the list it belongs to and the direction it stands for.
pub open spec fn binding(key: Key) -> Option<(Control, Direction)> {
    match key {
        Key::W => Some((Control::Move, Direction::Forward)),
        Key::S => Some((Control::Move, Direction::Backward)),
        Key::Q => Some((Control::Move, Direction::Left)),
        Key::E => Some((Control::Move, Direction::Right)),
        Key::A => Some((Control::Turn, Direction::Left)),
        Key::D => Some((Control::Turn, Direction::Right)),
        _ => None,
    }
}

/// Whether the player takes the event for itself: a bound key went down or
/// came up.
pub open spec fn handles(event: InputEvent) -> bool {
    match event {
        InputEvent::KeyDown(key) => binding(key) is Some,
        InputEvent::KeyUp(key) => binding(key) is Some,
        _ => false,
    }
}

/// The angle that the latest held turning direction turns by.
pub open spec fn turn_of(turning: Seq<Direction>) -> int {
    if turning.len() == 0 {
        0
    } else if turning.last() == Direction::Left {
        2
    } else if turning.last() == Direction::Right {
        -2
    } else {
        0
    }
}

/// What a player is, to its callers.
pub struct PlayerView {
    /// The held movement directions, latest last.
    pub moving: Seq<Direction>,
    /// The held turning directions, latest last.
    pub turning: Seq<Direction>,
}

impl PlayerView {
    /// The list that `control` names.
    pub open spec fn held(self, control: Control) -> Seq<Direction> {
        match control {
            Control::Move => self.moving,
            Control::Turn => self.turning,
        }
    }

    /// The player with `held` in place of the list that `control` names.
    pub open spec fn with_held(self, control: Control, held: Seq<Direction>) -> PlayerView {
        match control {
            Control::Move => PlayerView { moving: held, ..self },
            Control::Turn => PlayerView { turning: held, ..self },
        }
    }

    /// The player after an event.
    pub open spec fn after(self, event: InputEvent) -> PlayerView {
        match event {
            InputEvent::KeyDown(key) => match binding(key) {
                Some((control, dir)) => self.with_held(control, pressed(self.held(control), dir)),
                None => self,
            },
            InputEvent::KeyUp(key) => match binding(key) {
                Some((control, dir)) => self.with_held(control, without(self.held(control), dir)),
                None => self,
            },
            _ => self,
        }
    }

    /// What the player does in one step: it turns as the latest held turning
    /// direction says, and steps as the latest held movement direction says.
    pub open spec fn motion(self) -> Motion {
        Motion {
            turn_degrees: turn_of(self.turning) as i32,
            step: if self.moving.len() == 0 {
                None
            } else {
                Some(self.moving.last())
            },
        }
    }
}

/// Whether no direction stands twice in `held`.
pub open spec fn no_repeats(held: Seq<Direction>) -> bool {
    forall|i: int, j: int| 0 <= i < j < held.len() ==> held[i] != held[j]
}

/// `without` keeps the order of what it keeps: every direction that it
/// keeps stood in `held`, is not `dir`, and two that it keeps stood in
/// `held` in the same order.
proof fn lemma_without_keeps_order(held: Seq<Direction>, dir: Direction)
    ensures
        forall|i: int| 0 <= i < without(held, dir).len() ==> #[trigger] without(held, dir)[i] != dir,
        no_repeats(held) ==> no_repeats(without(held, dir)),
        forall|i: int|
            0 <= i < without(held, dir).len() ==> held.contains(#[trigger] without(held, dir)[i]),
    decreases held.len(),
{
    reveal(Seq::filter);
    if held.len() > 0 {
        let front = held.drop_last();
        lemma_without_keeps_order(front, dir);
        let kept = without(front, dir);
        assert forall|i: int| 0 <= i < kept.len() implies held.contains(#[trigger] kept[i]) by {
            let k = choose|k: int| 0 <= k < front.len() && front[k] == kept[i];
            assert(held[k] == kept[i]);
        }
        if held.last() != dir {
            assert(without(held, dir) == kept.push(held.last()));
            assert(held[held.len() - 1] == held.last());
            if no_repeats(held) {
                assert(no_repeats(front));
                assert forall|i: int| 0 <= i < kept.len() implies kept[i] != held.last() by {
                    let k = choose|k: int| 0 <= k < front.len() && front[k] == kept[i];
                    assert(held[k] != held[held.len() - 1]);
                }
            }
        } else {
            assert(without(held, dir) == kept);
        }
    }
}

/// No direction is ever held twice: where neither list of a player holds a
/// direction twice, neither does after any event.
pub proof fn lemma_no_direction_is_held_twice(player: PlayerView, event: InputEvent)
    requires
        no_repeats(player.moving),
        no_repeats(player.turning),
    ensures
        no_repeats(player.after(event).moving),
        no_repeats(player.after(event).turning),
{
    match event {
        InputEvent::KeyDown(key) => match binding(key) {
            Some((control, dir)) => {
                lemma_pressed_has_no_repeats(player.held(control), dir);
            },
            None => {},
        },
        InputEvent::KeyUp(key) => match binding(key) {
            Some((control, dir)) => {
                lemma_without_keeps_order(player.held(control), dir);
            },
            None => {},
        },
        _ => {},
    }
}

/// A list without repeats has none after a key went down.
proof fn lemma_pressed_has_no_repeats(held: Seq<Direction>, dir: Direction)
    requires
        no_repeats(held),
    ensures
        no_repeats(pressed(held, dir)),
{
    lemma_without_keeps_order(held, dir);
    let kept = without(held, dir);
    let longer = kept.push(dir);
    assert forall|i: int, j: int| 0 <= i < j < longer.len() implies longer[i] != longer[j] by {
        if j < kept.len() {
            assert(kept[i] != kept[j]);
        } else {
            assert(kept[i] != dir);
        }
    }
}

/// A key that went down is the latest of its list, and a key that came up
/// is gone from it.
pub proof fn lemma_pressed_is_latest_and_released_is_gone(held: Seq<Direction>, dir: Direction)
    ensures
        pressed(held, dir).len() > 0,
        pressed(held, dir).last() == dir,
        !without(held, dir).contains(dir),
{
    lemma_without_keeps_order(held, dir);
    if without(held, dir).contains(dir) {
        let i = choose|i: int| 0 <= i < without(held, dir).len() && without(held, dir)[i] == dir;
        assert(without(held, dir)[i] != dir);
    }
}

/// The player's controls.
pub struct Player {
    move_dir_buf: Vec<Direction>,
    rotate_dir_buf: Vec<Direction>,
}

impl View for Player {
    type V = PlayerView;

    closed spec fn view(&self) -> PlayerView {
        PlayerView { moving: self.move_dir_buf@, turning: self.rotate_dir_buf@ }
    }
}

/// Removes every occurrence of `dir` from `buf`, keeping the rest in order.
fn remove_from(buf: &mut Vec<Direction>, dir: Direction)
    ensures
        final(buf)@ == without(old(buf)@, dir),
{
    let mut kept: Vec<Direction> = Vec::new();
    let mut i: usize = 0;
    while i < buf.len()
        invariant
            i <= buf.len(),
            buf@ == old(buf)@,
            kept@ == without(buf@.take(i as int), dir),
        decreases buf.len() - i,
    {
        let d: Direction = buf[i];
        proof {
            let next = buf@.take(i + 1);
            assert(next.drop_last() =~= buf@.take(i as int));
            assert(next.last() == d);
            reveal(Seq::filter);
            assert(without(next, dir) == if d != dir {
                without(next.drop_last(), dir).push(d)
            } else {
                without(next.drop_last(), dir)
            });
        }
        if d != dir {
            kept.push(d);
        }
        i = i + 1;
    }
    assert(buf@.take(i as int) =~= buf@);
    *buf = kept;
}

/// Makes `dir` the latest direction of `buf`, unless it already is.
fn add_to(buf: &mut Vec<Direction>, dir: Direction)
    ensures
        final(buf)@ == pressed(old(buf)@, dir),
{
    let len: usize = buf.len();
    if len > 0 && buf[len - 1] == dir {
        return;
    }
    remove_from(buf, dir);
    buf.push(dir);
}

impl Player {
    /// A player that holds no key.
    pub fn new() -> (player: Player)
        ensures
            player@ == (PlayerView { moving: Seq::empty(), turning: Seq::empty() }),
    {
        Player { move_dir_buf: Vec::new(), rotate_dir_buf: Vec::new() }
    }

    /// Notes that the key of `dir` went down.
    fn add_dir(&mut self, control: Control, dir: Direction)
        ensures
            final(self)@ == old(self)@.with_held(control, pressed(old(self)@.held(control), dir)),
    {
        match control {
            Control::Move => add_to(&mut self.move_dir_buf, dir),
            Control::Turn => add_to(&mut self.rotate_dir_buf, dir),
        }
    }

    /// Notes that the key of `dir` came up.
    fn remove_dir(&mut self, control: Control, dir: Direction)
        ensures
            final(self)@ == old(self)@.with_held(control, without(old(self)@.held(control), dir)),
    {
        match control {
            Control::Move => remove_from(&mut self.move_dir_buf, dir),
            Control::Turn => remove_from(&mut self.rotate_dir_buf, dir),
        }
    }

    /// Takes an event. Where a bound key went down or came up, the player
    /// notes it and hands nothing back; every other event is handed back
    /// and changes nothing.
    pub fn handle_event(&mut self, event: InputEvent) -> (unhandled: Option<InputEvent>)
        ensures
            final(self)@ == old(self)@.after(event),
            unhandled == if handles(event) {
                None
            } else {
                Some(event)
            },
    {
        match event {
            InputEvent::KeyDown(key) => match bound(key) {
                Some((control, dir)) => {
                    self.add_dir(control, dir);
                    None
                },
                None => Some(event),
            },
            InputEvent::KeyUp(key) => match bound(key) {
                Some((control, dir)) => {
                    self.remove_dir(control, dir);
                    None
                },
                None => Some(event),
            },
            _ => Some(event),
        }
    }

    /// What the player does in the next step of the game.
    pub fn motion(&self) -> (motion: Motion)
        ensures
            motion == self@.motion(),
    {
        let turns: usize = self.rotate_dir_buf.len();
        let turn_degrees: i32 = if turns == 0 {
            0
        } else {
            match self.rotate_dir_buf[turns - 1] {
                Direction::Left => 2,
                Direction::Right => -2,
                _ => 0,
            }
        };
        let moves: usize = self.move_dir_buf.len();
        let step: Option<Direction> = if moves == 0 {
            None
        } else {
            Some(self.move_dir_buf[moves - 1])
        };
        Motion { turn_degrees, step }
    }
}

/// Looks up what a key does.
fn bound(key: Key) -> (found: Option<(Control, Direction)>)
    ensures
        found == binding(key),
{
    match key {
        Key::W => Some((Control::Move, Direction::Forward)),
        Key::S => Some((Control::Move, Direction::Backward)),
        Key::Q => Some((Control::Move, Direction::Left)),
        Key::E => Some((Control::Move, Direction::Right)),
        Key::A => Some((Control::Turn, Direction::Left)),
        Key::D => Some((Control::Turn, Direction::Right)),
        _ => None,
    }
}

} // verus!
