use ggez_dodger::actions::{Action, GameAction, MoveDirection, PlayerAction};
use ggez_dodger::baddies::{Baddie, BaddieColor, BaddieFace};
use ggez_dodger::constants::{HEIGHT, MAX_Y, WIDTH};
use ggez_dodger::game::{ControllerId, MainState, PlayerId};
use ggez_dodger::input::{Button, Input, Key};
use ggez_dodger::geometry::{Rect, Vec2};

fn is_move(a: &Action, dir: Option<MoveDirection>, who: PlayerId) -> bool {
    matches!(a, Action::Player(PlayerAction::Move(d), id) if *d == dir && *id == who)
}

fn with_arrows_player() -> MainState {
    let mut s = MainState::new();
    s.key_down_event(Key::Return, false);
    assert!(!s.update());
    s
}

#[test]
fn controller_id_converts() {
    let id: ControllerId = 7;
    assert_eq!(PlayerId::from(id), PlayerId::Controller(7));
    let a: Action = GameAction::Pause.into();
    assert!(matches!(a, Action::Game(GameAction::Pause)));
    let b: Action = (PlayerAction::Jump, PlayerId::ZQSD).into();
    assert!(matches!(b, Action::Player(PlayerAction::Jump, PlayerId::ZQSD)));
}

#[test]
fn new_game_is_empty() {
    let s = MainState::new();
    assert!(s.players().is_empty());
    assert!(s.baddies().is_empty());
    assert!(s.actions().is_empty());
    assert!(!s.paused());
    assert_eq!(s.timer(), 0);
}

#[test]
fn waiting_game_does_not_advance() {
    let mut s = MainState::new();
    assert!(!s.update());
    assert_eq!(s.timer(), 0);
    assert!(s.baddies().is_empty());
}

#[test]
fn spawn_adds_player_once() {
    let mut s = with_arrows_player();
    assert_eq!(s.players().len(), 1);
    let (id, p) = s.players()[0];
    assert_eq!(id, PlayerId::Arrows);
    assert_eq!(p.index, 0);
    assert_eq!(p.body.position, Vec2::new(WIDTH / 2, MAX_Y));
    assert_eq!(s.timer(), 1);
    assert_eq!(s.baddies().len(), 1);
    s.key_down_event(Key::Return, false);
    s.key_down_event(Key::LCtrl, false);
    s.update();
    assert_eq!(s.players().len(), 2);
    assert_eq!(s.players()[1].0, PlayerId::ZQSD);
    assert_eq!(s.players()[1].1.index, 1);
}

#[test]
fn keys_without_player_do_nothing() {
    let mut s = MainState::new();
    s.key_down_event(Key::Left, false);
    s.key_down_event(Key::Up, false);
    s.key_down_event(Key::Q, false);
    s.key_up_event(Key::Down);
    s.controller_button_down_event(Button::A, 3);
    assert!(s.actions().is_empty());
}

#[test]
fn opposite_keys_cancel() {
    let mut s = with_arrows_player();
    s.key_down_event(Key::Left, false);
    assert_eq!(s.actions().len(), 1);
    assert!(is_move(&s.actions()[0], Some(MoveDirection::Left), PlayerId::Arrows));
    s.key_down_event(Key::Right, false);
    assert!(is_move(&s.actions()[1], None, PlayerId::Arrows));
    s.key_up_event(Key::Left);
    assert!(is_move(&s.actions()[2], Some(MoveDirection::Right), PlayerId::Arrows));
    s.key_up_event(Key::Right);
    assert!(is_move(&s.actions()[3], None, PlayerId::Arrows));
    assert_eq!(s.actions().len(), 4);
}

#[test]
fn repeated_key_is_ignored() {
    let mut s = with_arrows_player();
    s.key_down_event(Key::Left, true);
    s.key_down_event(Key::Escape, true);
    assert!(s.actions().is_empty());
}

#[test]
fn jump_only_from_ground_and_dive_only_in_air() {
    let mut s = with_arrows_player();
    s.key_down_event(Key::Down, false);
    assert!(s.actions().is_empty());
    s.key_down_event(Key::Up, false);
    assert!(matches!(s.actions()[0], Action::Player(PlayerAction::Jump, PlayerId::Arrows)));
    s.update();
    let p = s.players()[0].1;
    assert_eq!(p.body.position.y, MAX_Y - 2_500);
    s.key_down_event(Key::Up, false);
    assert!(s.actions().is_empty());
    s.key_down_event(Key::Down, false);
    assert!(matches!(s.actions()[0], Action::Player(PlayerAction::Dump(true), PlayerId::Arrows)));
}

#[test]
fn key_up_releases_dive_and_shield() {
    let mut s = with_arrows_player();
    s.key_up_event(Key::Down);
    s.key_up_event(Key::RCtrl);
    assert!(matches!(s.actions()[0], Action::Player(PlayerAction::Dump(false), PlayerId::Arrows)));
    assert!(matches!(s.actions()[1], Action::Player(PlayerAction::Shield(false), PlayerId::Arrows)));
}

#[test]
fn escape_quits() {
    let mut s = MainState::new();
    s.key_down_event(Key::Escape, false);
    assert!(s.update());
    assert!(s.actions().is_empty());
}

#[test]
fn pause_freezes_players() {
    let mut s = with_arrows_player();
    s.key_down_event(Key::Space, false);
    s.update();
    assert!(s.paused());
    let timer = s.timer();
    s.key_down_event(Key::RCtrl, false);
    s.update();
    assert!(!s.players()[0].1.body.shielded);
    assert_eq!(s.timer(), timer);
    s.key_down_event(Key::Space, false);
    s.key_down_event(Key::RCtrl, false);
    s.update();
    assert!(!s.paused());
    assert!(s.players()[0].1.body.shielded);
}

#[test]
fn controller_player() {
    let mut s = MainState::new();
    s.controller_button_down_event(Button::Back, 4);
    s.update();
    assert_eq!(s.players()[0].0, PlayerId::Controller(4));
    s.controller_button_down_event(Button::DPadRight, 4);
    assert!(is_move(&s.actions()[0], Some(MoveDirection::Right), PlayerId::Controller(4)));
    s.controller_button_up_event(Button::DPadRight, 4);
    assert!(is_move(&s.actions()[1], None, PlayerId::Controller(4)));
    s.controller_button_down_event(Button::B, 4);
    assert!(matches!(s.actions()[2], Action::Player(PlayerAction::Jump, PlayerId::Controller(4))));
    s.controller_button_down_event(Button::Start, 9);
    assert!(matches!(s.actions()[3], Action::Game(GameAction::Pause)));
}

#[test]
fn handle_input_queues_action() {
    let mut s = MainState::new();
    s.handle_input(Input::Act(Action::Game(GameAction::Pause)));
    s.handle_input(Input::Nothing);
    assert_eq!(s.actions().len(), 1);
}

fn sample_baddie(x: i32, y: i32) -> Baddie {
    Baddie {
        body: Rect::new(x, y, 2_000, 2_000),
        color: BaddieColor::Green,
        face: BaddieFace::Happy,
        speed: Vec2::new(0, 200),
    }
}

#[test]
fn advance_catches_first_touched_baddie() {
    let mut s = with_arrows_player();
    let start = s.baddies().len();
    s.advance(Some(sample_baddie(40_500, 45_000)));
    assert_eq!(s.baddies().len(), start);
    assert_eq!(s.actions().len(), 1);
    assert!(matches!(s.actions()[0], Action::Player(PlayerAction::Collides(_), PlayerId::Arrows)));
    s.update();
    assert_eq!(s.players()[0].1.captured, Some((BaddieColor::Green, BaddieFace::Happy)));
}

#[test]
fn advance_drops_baddies_below_window() {
    let mut s = with_arrows_player();
    let start = s.baddies().len();
    s.advance(Some(sample_baddie(0, HEIGHT)));
    assert_eq!(s.baddies().len(), start);
    assert!(s.baddies().iter().all(|b| b.body.y < 0));
}

#[test]
fn advance_moves_baddies_and_counts_frames() {
    let mut s = with_arrows_player();
    let before: Vec<Rect> = s.baddies().iter().map(|b| b.body).collect();
    let timer = s.timer();
    s.advance(None);
    assert_eq!(s.timer(), timer + 1);
    for (b, r) in s.baddies().iter().zip(before.iter()) {
        assert_eq!(b.body.y, r.y + b.speed.y);
        assert_eq!(b.body.x, r.x);
    }
}

#[test]
fn overlapping_players_bump() {
    let mut s = with_arrows_player();
    s.key_down_event(Key::LCtrl, false);
    s.update();
    assert_eq!(s.players().len(), 2);
    assert_eq!(s.actions().len(), 2);
    assert!(matches!(s.actions()[0], Action::Player(PlayerAction::Collides(_), PlayerId::Arrows)));
    assert!(matches!(s.actions()[1], Action::Player(PlayerAction::Collides(_), PlayerId::ZQSD)));
}

#[test]
fn a_baddie_every_ten_frames() {
    let mut s = with_arrows_player();
    for _ in 0..9 {
        s.update();
    }
    assert_eq!(s.timer(), 10);
    let n = s.baddies().len();
    assert_eq!(n, 1);
    s.update();
    assert_eq!(s.baddies().len(), 2);
}
