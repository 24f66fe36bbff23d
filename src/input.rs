//! The keyboard and controller bindings: what each key or button means
//! for the game, given which players are present.
use vstd::prelude::*;

use crate::actions::{Action, GameAction, MoveDirection, PlayerAction};
use crate::game::PlayerId;

verus! {

/// A key of the keyboard, as far as the game cares.
#[derive(Clone, Copy, Debug, PartialEq, Eq, Structural)]
pub enum Key {
    Escape,
    Space,
    Return,
    Left,
    Right,
    Up,
    Down,
    RCtrl,
    Q,
    D,
    S,
    Z,
    LShift,
    LCtrl,
    Other,
}

/// A button of a game controller, as far as the game cares.
#[derive(Clone, Copy, Debug, PartialEq, Eq, Structural)]
pub enum Button {
    DPadLeft,
    DPadRight,
    DPadDown,
    A,
    B,
    Start,
    Back,
    Other,
}

/// What an input event amounts to.
#[derive(Clone, Copy, Debug)]
pub enum Input {
    Nothing,
    /// Queue an action.
    Act(Action),
    /// A direction key of a player went down.
    Press(MoveDirection, PlayerId),
    /// A direction key of a player went up.
    Release(MoveDirection, PlayerId),
}

/// Queue `a` for player `id`.
pub open spec fn player_act(a: PlayerAction, id: PlayerId) -> Input {
    Input::Act(Action::Player(a, id))
}

/// What a key going down means, given the presence of the arrows player
/// and of the ZQSD player.
pub open spec fn key_down_input(key: Key, arrows: Option<bool>, zqsd: Option<bool>) -> Input {
    match key {
        Key::Escape => Input::Act(Action::Game(GameAction::Quit)),
        Key::Space => Input::Act(Action::Game(GameAction::Pause)),
        Key::Return => Input::Act(Action::Game(GameAction::Spawn(PlayerId::Arrows))),
        Key::LCtrl => Input::Act(Action::Game(GameAction::Spawn(PlayerId::ZQSD))),
        Key::Left => if arrows.is_some() {
            Input::Press(MoveDirection::Left, PlayerId::Arrows)
        } else {
            Input::Nothing
        },
        Key::Right => if arrows.is_some() {
            Input::Press(MoveDirection::Right, PlayerId::Arrows)
        } else {
            Input::Nothing
        },
        Key::Down => if arrows == Some(false) {
            player_act(PlayerAction::Dump(true), PlayerId::Arrows)
        } else {
            Input::Nothing
        },
        Key::Up => if arrows == Some(true) {
            player_act(PlayerAction::Jump, PlayerId::Arrows)
        } else {
            Input::Nothing
        },
        Key::RCtrl => if arrows.is_some() {
            player_act(PlayerAction::Shield(true), PlayerId::Arrows)
        } else {
            Input::Nothing
        },
        Key::Q => if zqsd.is_some() {
            Input::Press(MoveDirection::Left, PlayerId::ZQSD)
        } else {
            Input::Nothing
        },
        Key::D => if zqsd.is_some() {
            Input::Press(MoveDirection::Right, PlayerId::ZQSD)
        } else {
            Input::Nothing
        },
        Key::S => if zqsd == Some(false) {
            player_act(PlayerAction::Dump(true), PlayerId::ZQSD)
        } else {
            Input::Nothing
        },
        Key::Z => if zqsd == Some(true) {
            player_act(PlayerAction::Jump, PlayerId::ZQSD)
        } else {
            Input::Nothing
        },
        Key::LShift => if zqsd.is_some() {
            player_act(PlayerAction::Shield(true), PlayerId::ZQSD)
        } else {
            Input::Nothing
        },
        Key::Other => Input::Nothing,
    }
}

/// What a key going up means, given whether the arrows player and the
/// ZQSD player play.
pub open spec fn key_up_input(key: Key, arrows: bool, zqsd: bool) -> Input {
    match key {
        Key::Left => if arrows {
            Input::Release(MoveDirection::Left, PlayerId::Arrows)
        } else {
            Input::Nothing
        },
        Key::Right => if arrows {
            Input::Release(MoveDirection::Right, PlayerId::Arrows)
        } else {
            Input::Nothing
        },
        Key::Down => if arrows {
            player_act(PlayerAction::Dump(false), PlayerId::Arrows)
        } else {
            Input::Nothing
        },
        Key::RCtrl => if arrows {
            player_act(PlayerAction::Shield(false), PlayerId::Arrows)
        } else {
            Input::Nothing
        },
        Key::Q => if zqsd {
            Input::Release(MoveDirection::Left, PlayerId::ZQSD)
        } else {
            Input::Nothing
        },
        Key::D => if zqsd {
            Input::Release(MoveDirection::Right, PlayerId::ZQSD)
        } else {
            Input::Nothing
        },
        Key::S => if zqsd {
            player_act(PlayerAction::Dump(false), PlayerId::ZQSD)
        } else {
            Input::Nothing
        },
        Key::LShift => if zqsd {
            player_act(PlayerAction::Shield(false), PlayerId::ZQSD)
        } else {
            Input::Nothing
        },
        _ => Input::Nothing,
    }
}

/// What a controller button going down means, given the presence of the
/// controller's player.
pub open spec fn button_down_input(btn: Button, id: PlayerId, present: Option<bool>) -> Input {
    match btn {
        Button::DPadLeft => if present.is_some() {
            Input::Press(MoveDirection::Left, id)
        } else {
            Input::Nothing
        },
        Button::DPadRight => if present.is_some() {
            Input::Press(MoveDirection::Right, id)
        } else {
            Input::Nothing
        },
        Button::DPadDown => if present == Some(false) {
            player_act(PlayerAction::Dump(true), id)
        } else {
            Input::Nothing
        },
        Button::B => if present == Some(true) {
            player_act(PlayerAction::Jump, id)
        } else {
            Input::Nothing
        },
        Button::A => if present.is_some() {
            player_act(PlayerAction::Shield(true), id)
        } else {
            Input::Nothing
        },
        Button::Start => Input::Act(Action::Game(GameAction::Pause)),
        Button::Back => Input::Act(Action::Game(GameAction::Spawn(id))),
        Button::Other => Input::Nothing,
    }
}

/// What a controller button going up means, given whether the
/// controller's player plays.
pub open spec fn button_up_input(btn: Button, id: PlayerId, present: bool) -> Input {
    if !present {
        Input::Nothing
    } else {
        match btn {
            Button::DPadLeft => Input::Release(MoveDirection::Left, id),
            Button::DPadRight => Input::Release(MoveDirection::Right, id),
            Button::DPadDown => player_act(PlayerAction::Dump(false), id),
            Button::A => player_act(PlayerAction::Shield(false), id),
            _ => Input::Nothing,
        }
    }
}

fn act(a: PlayerAction, id: PlayerId) -> (r: Input)
    ensures
        r == player_act(a, id),
{
    Input::Act(Action::Player(a, id))
}

/// Computes `key_down_input`.
pub(crate) fn decide_key_down(key: Key, arrows: Option<bool>, zqsd: Option<bool>) -> (r: Input)
    ensures
        r == key_down_input(key, arrows, zqsd),
{
    let with_arrows = arrows.is_some();
    let with_zqsd = zqsd.is_some();
    let arrows_grounded = matches!(arrows, Some(true));
    let zqsd_grounded = matches!(zqsd, Some(true));
    match key {
        Key::Escape => Input::Act(Action::Game(GameAction::Quit)),
        Key::Space => Input::Act(Action::Game(GameAction::Pause)),
        Key::Return => Input::Act(Action::Game(GameAction::Spawn(PlayerId::Arrows))),
        Key::LCtrl => Input::Act(Action::Game(GameAction::Spawn(PlayerId::ZQSD))),
        Key::Left if with_arrows => Input::Press(MoveDirection::Left, PlayerId::Arrows),
        Key::Right if with_arrows => Input::Press(MoveDirection::Right, PlayerId::Arrows),
        Key::Down if with_arrows && !arrows_grounded => act(PlayerAction::Dump(true), PlayerId::Arrows),
        Key::Up if with_arrows && arrows_grounded => act(PlayerAction::Jump, PlayerId::Arrows),
        Key::RCtrl if with_arrows => act(PlayerAction::Shield(true), PlayerId::Arrows),
        Key::Q if with_zqsd => Input::Press(MoveDirection::Left, PlayerId::ZQSD),
        Key::D if with_zqsd => Input::Press(MoveDirection::Right, PlayerId::ZQSD),
        Key::S if with_zqsd && !zqsd_grounded => act(PlayerAction::Dump(true), PlayerId::ZQSD),
        Key::Z if with_zqsd && zqsd_grounded => act(PlayerAction::Jump, PlayerId::ZQSD),
        Key::LShift if with_zqsd => act(PlayerAction::Shield(true), PlayerId::ZQSD),
        _ => Input::Nothing,
    }
}

/// Computes `key_up_input`.
pub(crate) fn decide_key_up(key: Key, with_arrows: bool, with_zqsd: bool) -> (r: Input)
    ensures
        r == key_up_input(key, with_arrows, with_zqsd),
{
    match key {
        Key::Left if with_arrows => Input::Release(MoveDirection::Left, PlayerId::Arrows),
        Key::Right if with_arrows => Input::Release(MoveDirection::Right, PlayerId::Arrows),
        Key::Down if with_arrows => act(PlayerAction::Dump(false), PlayerId::Arrows),
        Key::RCtrl if with_arrows => act(PlayerAction::Shield(false), PlayerId::Arrows),
        Key::Q if with_zqsd => Input::Release(MoveDirection::Left, PlayerId::ZQSD),
        Key::D if with_zqsd => Input::Release(MoveDirection::Right, PlayerId::ZQSD),
        Key::S if with_zqsd => act(PlayerAction::Dump(false), PlayerId::ZQSD),
        Key::LShift if with_zqsd => act(PlayerAction::Shield(false), PlayerId::ZQSD),
        _ => Input::Nothing,
    }
}

/// Computes `button_down_input`.
pub(crate) fn decide_button_down(btn: Button, id: PlayerId, present: Option<bool>) -> (r: Input)
    ensures
        r == button_down_input(btn, id, present),
{
    let with_player = present.is_some();
    let grounded = matches!(present, Some(true));
    match btn {
        Button::DPadLeft if with_player => Input::Press(MoveDirection::Left, id),
        Button::DPadRight if with_player => Input::Press(MoveDirection::Right, id),
        Button::DPadDown if with_player && !grounded => act(PlayerAction::Dump(true), id),
        Button::B if with_player && grounded => act(PlayerAction::Jump, id),
        Button::A if with_player => act(PlayerAction::Shield(true), id),
        Button::Start => Input::Act(Action::Game(GameAction::Pause)),
        Button::Back => Input::Act(Action::Game(GameAction::Spawn(id))),
        _ => Input::Nothing,
    }
}

/// Computes `button_up_input`.
pub(crate) fn decide_button_up(btn: Button, id: PlayerId, with_player: bool) -> (r: Input)
    ensures
        r == button_up_input(btn, id, with_player),
{
    if !with_player {
        return Input::Nothing;
    }
    match btn {
        Button::DPadLeft => Input::Release(MoveDirection::Left, id),
        Button::DPadRight => Input::Release(MoveDirection::Right, id),
        Button::DPadDown => act(PlayerAction::Dump(false), id),
        Button::A => act(PlayerAction::Shield(false), id),
        _ => Input::Nothing,
    }
}

} // verus!
