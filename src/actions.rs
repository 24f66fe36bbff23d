use vstd::prelude::*;

use crate::baddies::Baddie;
use crate::game::PlayerId;
use crate::player::PlayerBody;

verus! {

/// Something that the game will carry out at its next step.
#[derive(Clone, Copy, Debug)]
pub enum Action {
    Game(GameAction),
    Player(PlayerAction, PlayerId),
}

/// What a single player is asked to do.
#[derive(Clone, Copy, Debug)]
pub enum PlayerAction {
    /// Steer towards a direction, or stop steering.
    Move(Option<MoveDirection>),
    Jump,
    /// Start or stop diving.
    Dump(bool),
    /// Raise or lower the shield.
    Shield(bool),
    /// The player touched something.
    Collides(Entity),
}

/// What a player can collide with.
#[derive(Clone, Copy, Debug)]
pub enum Entity {
    Baddie(Baddie),
    Player(PlayerBody),
}

#[derive(Clone, Copy, Debug, PartialEq, Eq, Hash, Structural)]
pub enum MoveDirection {
    Left,
    Right,
}

/// An action on the game as a whole.
#[derive(Clone, Copy, Debug, PartialEq, Eq, Structural)]
pub enum GameAction {
    Pause,
    Quit,
    Spawn(PlayerId),
}

impl From<Baddie> for Entity {
    fn from(baddie: Baddie) -> (r: Entity)
        ensures
            r == Entity::Baddie(baddie),
    {
        Entity::Baddie(baddie)
    }
}

impl vstd::std_specs::convert::FromSpecImpl<Baddie> for Entity {
    open spec fn obeys_from_spec() -> bool {
        true
    }

    open spec fn from_spec(baddie: Baddie) -> Entity {
        Entity::Baddie(baddie)
    }
}

impl From<PlayerBody> for Entity {
    fn from(body: PlayerBody) -> (r: Entity)
        ensures
            r == Entity::Player(body),
    {
        Entity::Player(body)
    }
}

impl vstd::std_specs::convert::FromSpecImpl<PlayerBody> for Entity {
    open spec fn obeys_from_spec() -> bool {
        true
    }

    open spec fn from_spec(body: PlayerBody) -> Entity {
        Entity::Player(body)
    }
}

impl From<(PlayerAction, PlayerId)> for Action {
    fn from(pair: (PlayerAction, PlayerId)) -> (r: Action)
        ensures
            r == Action::Player(pair.0, pair.1),
    {
        Action::Player(pair.0, pair.1)
    }
}

impl vstd::std_specs::convert::FromSpecImpl<(PlayerAction, PlayerId)> for Action {
    open spec fn obeys_from_spec() -> bool {
        true
    }

    open spec fn from_spec(pair: (PlayerAction, PlayerId)) -> Action {
        Action::Player(pair.0, pair.1)
    }
}

impl From<MoveDirection> for PlayerAction {
    fn from(dir: MoveDirection) -> (r: PlayerAction)
        ensures
            r == PlayerAction::Move(Some(dir)),
    {
        PlayerAction::Move(Some(dir))
    }
}

impl vstd::std_specs::convert::FromSpecImpl<MoveDirection> for PlayerAction {
    open spec fn obeys_from_spec() -> bool {
        true
    }

    open spec fn from_spec(dir: MoveDirection) -> PlayerAction {
        PlayerAction::Move(Some(dir))
    }
}

impl From<GameAction> for Action {
    fn from(action: GameAction) -> (r: Action)
        ensures
            r == Action::Game(action),
    {
        Action::Game(action)
    }
}

impl vstd::std_specs::convert::FromSpecImpl<GameAction> for Action {
    open spec fn obeys_from_spec() -> bool {
        true
    }

    open spec fn from_spec(action: GameAction) -> Action {
        Action::Game(action)
    }
}

} // verus!
