//! Player controls: which keys each player uses, and what the keys held
//! down mean for the tank (moving, direction, shooting, recalling).

use vstd::prelude::*;
use crate::types::TankType;

verus! {

/// A key of the keyboard that a player uses.
#[derive(Clone, Copy, Debug, PartialEq, Eq, Structural)]
pub enum Key {
    W,
    S,
    A,
    D,
    J,
    K,
    I,
    L,
    ArrowUp,
    ArrowDown,
    ArrowLeft,
    ArrowRight,
    Numpad1,
    Numpad2,
    Numpad3,
    Numpad4,
}

/// The keys of one player.
#[derive(Clone, Copy, Debug, PartialEq, Eq, Structural)]
pub struct PlayerKeyBindings {
    pub up: Key,
    pub down: Key,
    pub left: Key,
    pub right: Key,
    pub shoot: Key,
    pub dash: Key,
    pub recall: Key,
    pub laser: Key,
}

/// The four directions a tank moves and faces in.
#[derive(Clone, Copy, Debug, PartialEq, Eq, Structural)]
pub enum Direction {
    Up,
    Down,
    Left,
    Right,
}

/// The first player's keys: WASD to move, J to shoot, K to dash, I to
/// recall, L for the laser.
pub open spec fn spec_player1() -> PlayerKeyBindings {
    PlayerKeyBindings {
        up: Key::W,
        down: Key::S,
        left: Key::A,
        right: Key::D,
        shoot: Key::J,
        dash: Key::K,
        recall: Key::I,
        laser: Key::L,
    }
}

/// The second player's keys: arrows to move, numpad 1 to shoot, 2 to dash,
/// 4 to recall, 3 for the laser.
pub open spec fn spec_player2() -> PlayerKeyBindings {
    PlayerKeyBindings {
        up: Key::ArrowUp,
        down: Key::ArrowDown,
        left: Key::ArrowLeft,
        right: Key::ArrowRight,
        shoot: Key::Numpad1,
        dash: Key::Numpad2,
        recall: Key::Numpad4,
        laser: Key::Numpad3,
    }
}

/// The direction given by the movement keys held: exactly one of them, or
/// none at all.
pub open spec fn direction_from(up: bool, down: bool, left: bool, right: bool) -> Option<Direction> {
    if up && !down && !left && !right {
        Some(Direction::Up)
    } else if !up && down && !left && !right {
        Some(Direction::Down)
    } else if !up && !down && left && !right {
        Some(Direction::Left)
    } else if !up && !down && !left && right {
        Some(Direction::Right)
    } else {
        None
    }
}

/// Whether a key is among the keys held down.
pub fn is_pressed(pressed: &Vec<Key>, key: Key) -> (r: bool)
    ensures
        r == pressed@.contains(key),
{
    let mut i: usize = 0;
    while i < pressed.len()
        invariant
            i <= pressed@.len(),
            forall|j: int| 0 <= j < i ==> pressed@[j] != key,
        decreases pressed@.len() - i,
    {
        if pressed[i] == key {
            assert(pressed@[i as int] == key);
            return true;
        }
        i += 1;
    }
    false
}

impl PlayerKeyBindings {
    /// The first player's keys.
    pub fn player1() -> (b: Self)
        ensures
            b == spec_player1(),
    {
        PlayerKeyBindings {
            up: Key::W,
            down: Key::S,
            left: Key::A,
            right: Key::D,
            shoot: Key::J,
            dash: Key::K,
            recall: Key::I,
            laser: Key::L,
        }
    }

    /// The second player's keys.
    pub fn player2() -> (b: Self)
        ensures
            b == spec_player2(),
    {
        PlayerKeyBindings {
            up: Key::ArrowUp,
            down: Key::ArrowDown,
            left: Key::ArrowLeft,
            right: Key::ArrowRight,
            shoot: Key::Numpad1,
            dash: Key::Numpad2,
            recall: Key::Numpad4,
            laser: Key::Numpad3,
        }
    }

    /// Whether any of the four movement keys is held.
    pub fn is_moving(&self, pressed: &Vec<Key>) -> (r: bool)
        ensures
            r == (pressed@.contains(self.up) || pressed@.contains(self.down)
                || pressed@.contains(self.left) || pressed@.contains(self.right)),
    {
        is_pressed(pressed, self.up) || is_pressed(pressed, self.down) || is_pressed(pressed, self.left)
            || is_pressed(pressed, self.right)
    }

    /// The direction to move in: that of the one movement key held; none
    /// when no key or more than one is held.
    pub fn get_direction(&self, pressed: &Vec<Key>) -> (d: Option<Direction>)
        ensures
            d == direction_from(
                pressed@.contains(self.up),
                pressed@.contains(self.down),
                pressed@.contains(self.left),
                pressed@.contains(self.right),
            ),
    {
        let up = is_pressed(pressed, self.up);
        let down = is_pressed(pressed, self.down);
        let left = is_pressed(pressed, self.left);
        let right = is_pressed(pressed, self.right);
        if up && !down && !left && !right {
            Some(Direction::Up)
        } else if !up && down && !left && !right {
            Some(Direction::Down)
        } else if !up && !down && left && !right {
            Some(Direction::Left)
        } else if !up && !down && !left && right {
            Some(Direction::Right)
        } else {
            None
        }
    }

    /// Whether the shoot key is held.
    pub fn is_shooting(&self, pressed: &Vec<Key>) -> (r: bool)
        ensures
            r == pressed@.contains(self.shoot),
    {
        is_pressed(pressed, self.shoot)
    }

    /// Whether the recall key is held.
    pub fn is_recalling(&self, pressed: &Vec<Key>) -> (r: bool)
        ensures
            r == pressed@.contains(self.recall),
    {
        is_pressed(pressed, self.recall)
    }
}

impl TankType {
    /// The keys of a player's tank; enemy tanks have none.
    pub fn get_key_bindings(self) -> (b: PlayerKeyBindings)
        requires
            self != TankType::Enemy,
        ensures
            self == TankType::Player1 ==> b == spec_player1(),
            self == TankType::Player2 ==> b == spec_player2(),
    {
        match self {
            TankType::Player1 => PlayerKeyBindings::player1(),
            _ => PlayerKeyBindings::player2(),
        }
    }
}

/// The keys of a player's tank, if it is a player's.
pub open spec fn bindings_of(tank_type: TankType) -> Option<PlayerKeyBindings> {
    match tank_type {
        TankType::Player1 => Some(spec_player1()),
        TankType::Player2 => Some(spec_player2()),
        TankType::Enemy => None,
    }
}

/// Whether a player's recall key is held; never for an enemy tank.
pub fn is_recall_key_pressed(pressed: &Vec<Key>, tank_type: TankType) -> (r: bool)
    ensures
        r == match bindings_of(tank_type) {
            Some(b) => pressed@.contains(b.recall),
            None => false,
        },
{
    match tank_type {
        TankType::Player1 => PlayerKeyBindings::player1().is_recalling(pressed),
        TankType::Player2 => PlayerKeyBindings::player2().is_recalling(pressed),
        TankType::Enemy => false,
    }
}

/// Whether a player moves or shoots, which interrupts a recall in progress.
pub fn is_movement_interrupted(pressed: &Vec<Key>, tank_type: TankType) -> (r: bool)
    requires
        tank_type != TankType::Enemy,
    ensures
        r == ({
            let b = bindings_of(tank_type).unwrap();
            pressed@.contains(b.up) || pressed@.contains(b.down) || pressed@.contains(b.left)
                || pressed@.contains(b.right) || pressed@.contains(b.shoot)
        }),
{
    let key_bindings = tank_type.get_key_bindings();
    key_bindings.is_moving(pressed) || key_bindings.is_shooting(pressed)
}

/// Where a recalling player's tank returns to: its own start position.
#[derive(Clone, Copy, Debug, PartialEq, Eq, Structural)]
pub enum StartPosition {
    Player1Start,
    Player2Start,
}

/// A player starts a recall when the recall key is held and no recall is
/// running; the first player returns to the first start position, anyone
/// else to the second. Returns the position returned to, if a recall starts.
pub fn recall_start(tank_type: TankType, recall_pressed: bool, is_recalling: bool) -> (r: Option<StartPosition>)
    ensures
        r == if recall_pressed && !is_recalling {
            Some(if tank_type == TankType::Player1 {
                StartPosition::Player1Start
            } else {
                StartPosition::Player2Start
            })
        } else {
            None
        },
{
    if recall_pressed && !is_recalling {
        if tank_type == TankType::Player1 {
            Some(StartPosition::Player1Start)
        } else {
            Some(StartPosition::Player2Start)
        }
    } else {
        None
    }
}

/// What a running recall does in a frame.
#[derive(Clone, Copy, Debug, PartialEq, Eq, Structural)]
pub enum RecallAction {
    /// The key was let go, or the player moved or shot: the recall stops.
    Cancel,
    /// The recall goes on.
    Continue,
    /// The recall's time is up: the tank is put back at its start position.
    Complete,
}

/// A running recall stops when the recall key is let go or the player
/// moves or shoots; otherwise it completes when its timer runs out.
pub fn recall_step(recall_held: bool, interrupted: bool, timer_just_finished: bool) -> (a: RecallAction)
    ensures
        a == if !recall_held || interrupted {
            RecallAction::Cancel
        } else if timer_just_finished {
            RecallAction::Complete
        } else {
            RecallAction::Continue
        },
{
    if !recall_held || interrupted {
        RecallAction::Cancel
    } else if timer_just_finished {
        RecallAction::Complete
    } else {
        RecallAction::Continue
    }
}

/// The directions in the order the game lists them: up, down, left, right.
pub open spec fn all_directions() -> Seq<Direction> {
    seq![Direction::Up, Direction::Down, Direction::Left, Direction::Right]
}

/// The three directions other than a blocked one, in the listed order.
pub open spec fn directions_except(blocked: Direction) -> Seq<Direction> {
    match blocked {
        Direction::Up => seq![Direction::Down, Direction::Left, Direction::Right],
        Direction::Down => seq![Direction::Up, Direction::Left, Direction::Right],
        Direction::Left => seq![Direction::Up, Direction::Down, Direction::Right],
        Direction::Right => seq![Direction::Up, Direction::Down, Direction::Left],
    }
}

/// The three directions other than a blocked one, in the listed order.
pub fn available_directions(blocked: Direction) -> (v: Vec<Direction>)
    ensures
        v@ == directions_except(blocked),
        v@.len() == 3,
        !v@.contains(blocked),
{
    let v = match blocked {
        Direction::Up => vec![Direction::Down, Direction::Left, Direction::Right],
        Direction::Down => vec![Direction::Up, Direction::Left, Direction::Right],
        Direction::Left => vec![Direction::Up, Direction::Down, Direction::Right],
        Direction::Right => vec![Direction::Up, Direction::Down, Direction::Left],
    };
    assert(v@ =~= directions_except(blocked));
    assert(!v@.contains(blocked)) by {
        if v@.contains(blocked) {
            let k = choose|k: int| 0 <= k < v@.len() && v@[k] == blocked;
            assert(v@[k] != blocked);
        }
    }
    v
}


/// Whether a player's four movement keys are four different keys.
pub open spec fn movement_keys_distinct(b: PlayerKeyBindings) -> bool {
    &&& b.up != b.down
    &&& b.up != b.left
    &&& b.up != b.right
    &&& b.down != b.left
    &&& b.down != b.right
    &&& b.left != b.right
}

/// Holding a single movement key moves the tank that way: the up key alone
/// gives up, the down key alone down, the left key alone left, the right key
/// alone right; two or more movement keys, or none, give no direction.
/// Keys that are not movement keys make no difference.
pub proof fn lemma_single_key_moves_its_way(b: PlayerKeyBindings, pressed: Seq<Key>)
    requires
        movement_keys_distinct(b),
    ensures
        ({
            let u = pressed.contains(b.up);
            let d = pressed.contains(b.down);
            let l = pressed.contains(b.left);
            let r = pressed.contains(b.right);
            let dir = direction_from(u, d, l, r);
            &&& (dir == Some(Direction::Up) <==> (u && !d && !l && !r))
            &&& (dir == Some(Direction::Down) <==> (!u && d && !l && !r))
            &&& (dir == Some(Direction::Left) <==> (!u && !d && l && !r))
            &&& (dir == Some(Direction::Right) <==> (!u && !d && !l && r))
        }),
        direction_from(
            seq![b.up].contains(b.up),
            seq![b.up].contains(b.down),
            seq![b.up].contains(b.left),
            seq![b.up].contains(b.right),
        ) == Some(Direction::Up),
        direction_from(
            seq![b.down].contains(b.up),
            seq![b.down].contains(b.down),
            seq![b.down].contains(b.left),
            seq![b.down].contains(b.right),
        ) == Some(Direction::Down),
        direction_from(
            seq![b.left].contains(b.up),
            seq![b.left].contains(b.down),
            seq![b.left].contains(b.left),
            seq![b.left].contains(b.right),
        ) == Some(Direction::Left),
        direction_from(
            seq![b.right].contains(b.up),
            seq![b.right].contains(b.down),
            seq![b.right].contains(b.left),
            seq![b.right].contains(b.right),
        ) == Some(Direction::Right),
{
    assert(seq![b.up][0] == b.up);
    assert(seq![b.down][0] == b.down);
    assert(seq![b.left][0] == b.left);
    assert(seq![b.right][0] == b.right);
    assert(!seq![b.up].contains(b.down) && !seq![b.up].contains(b.left) && !seq![b.up].contains(b.right)) by {
        if seq![b.up].contains(b.down) { let k = choose|k: int| 0 <= k < 1 && seq![b.up][k] == b.down; }
        if seq![b.up].contains(b.left) { let k = choose|k: int| 0 <= k < 1 && seq![b.up][k] == b.left; }
        if seq![b.up].contains(b.right) { let k = choose|k: int| 0 <= k < 1 && seq![b.up][k] == b.right; }
    }
    assert(!seq![b.down].contains(b.up) && !seq![b.down].contains(b.left) && !seq![b.down].contains(b.right)) by {
        if seq![b.down].contains(b.up) { let k = choose|k: int| 0 <= k < 1 && seq![b.down][k] == b.up; }
        if seq![b.down].contains(b.left) { let k = choose|k: int| 0 <= k < 1 && seq![b.down][k] == b.left; }
        if seq![b.down].contains(b.right) { let k = choose|k: int| 0 <= k < 1 && seq![b.down][k] == b.right; }
    }
    assert(!seq![b.left].contains(b.up) && !seq![b.left].contains(b.down) && !seq![b.left].contains(b.right)) by {
        if seq![b.left].contains(b.up) { let k = choose|k: int| 0 <= k < 1 && seq![b.left][k] == b.up; }
        if seq![b.left].contains(b.down) { let k = choose|k: int| 0 <= k < 1 && seq![b.left][k] == b.down; }
        if seq![b.left].contains(b.right) { let k = choose|k: int| 0 <= k < 1 && seq![b.left][k] == b.right; }
    }
    assert(!seq![b.right].contains(b.up) && !seq![b.right].contains(b.down) && !seq![b.right].contains(b.left)) by {
        if seq![b.right].contains(b.up) { let k = choose|k: int| 0 <= k < 1 && seq![b.right][k] == b.up; }
        if seq![b.right].contains(b.down) { let k = choose|k: int| 0 <= k < 1 && seq![b.right][k] == b.down; }
        if seq![b.right].contains(b.left) { let k = choose|k: int| 0 <= k < 1 && seq![b.right][k] == b.left; }
    }
}

/// Both players' movement keys are four different keys.
pub proof fn lemma_bindings_distinct()
    ensures
        movement_keys_distinct(spec_player1()),
        movement_keys_distinct(spec_player2()),
{
}

} // verus!
