use ggez_dodger::actions::{Entity, MoveDirection, PlayerAction};
use ggez_dodger::baddies::{Baddie, BaddieColor, BaddieFace};
use ggez_dodger::constants::{
    BADDIE_MAX_SIZE, BADDIE_MAX_SPEED, BADDIE_MIN_SIZE, BADDIE_MIN_SPEED, MAX_Y, RADIUS,
    START_PLAYER_LIFE, WIDTH,
};
use ggez_dodger::geometry::{div_toward_zero, isqrt, Rect, Vec2};
use ggez_dodger::player::Player;

fn baddie(x: i32, y: i32, size: i32, color: BaddieColor, face: BaddieFace) -> Baddie {
    Baddie { body: Rect::new(x, y, size, size), color, face, speed: Vec2::new(0, 200) }
}

fn grounded_player() -> Player {
    Player::new(0, Vec2::new(40_000, MAX_Y))
}

#[test]
fn isqrt_rounds_down() {
    assert_eq!(isqrt(0), 0);
    assert_eq!(isqrt(1), 1);
    assert_eq!(isqrt(24), 4);
    assert_eq!(isqrt(25), 5);
    assert_eq!(isqrt(26), 5);
    assert_eq!(isqrt(25_000_000), 5_000);
    assert_eq!(isqrt(0xFFFF_FFFF_FFFF_FFFF_FFFF), 0xFF_FFFF_FFFF);
}

#[test]
fn division_rounds_toward_zero() {
    assert_eq!(div_toward_zero(7, 2), 3);
    assert_eq!(div_toward_zero(-7, 2), -3);
    assert_eq!(div_toward_zero(-5_000_000, 12_000), -416);
}

#[test]
fn max_y_rests_on_ground() {
    assert_eq!(MAX_Y, 46_800);
}

#[test]
fn new_player_is_fresh() {
    let p = Player::new(3, Vec2::new(40_000, MAX_Y));
    assert_eq!(p.index, 3);
    assert_eq!(p.score, 0);
    assert_eq!(p.life, START_PLAYER_LIFE);
    assert!(p.captured.is_none());
    assert!(p.on_the_ground());
    assert_eq!(p.body().speed, Vec2::new(0, 0));
    assert_eq!(p.body().radius(), 3_000);
}

#[test]
fn shield_widens_radius() {
    let mut p = grounded_player();
    p.process_action(PlayerAction::Shield(true));
    assert!(p.body.shielded);
    assert_eq!(p.body().radius(), 3_500);
    p.process_action(PlayerAction::Shield(false));
    assert_eq!(p.body().radius(), 3_000);
}

#[test]
fn steering_accelerates_by_damping() {
    let mut p = grounded_player();
    p.process_action(PlayerAction::from(MoveDirection::Right));
    p.update();
    assert_eq!(p.body.speed, Vec2::new(200, 0));
    assert_eq!(p.body.position, Vec2::new(40_200, MAX_Y));
    for _ in 0..10 {
        p.update();
    }
    assert_eq!(p.body.speed.x, 1_000);
    p.process_action(PlayerAction::Move(None));
    p.update();
    assert_eq!(p.body.speed.x, 800);
}

#[test]
fn player_stays_inside_field() {
    let mut p = Player::new(0, Vec2::new(RADIUS + 100, MAX_Y));
    p.process_action(PlayerAction::Move(Some(MoveDirection::Left)));
    for _ in 0..20 {
        p.update();
    }
    assert_eq!(p.body.position.x, RADIUS);
    let mut q = Player::new(0, Vec2::new(WIDTH - RADIUS - 100, MAX_Y));
    q.process_action(PlayerAction::Move(Some(MoveDirection::Right)));
    for _ in 0..20 {
        q.update();
    }
    assert_eq!(q.body.position.x, WIDTH - RADIUS);
}

#[test]
fn jump_then_fall() {
    let mut p = grounded_player();
    p.process_action(PlayerAction::Jump);
    assert_eq!(p.body.speed.y, -2_500);
    p.update();
    assert_eq!(p.body.position.y, MAX_Y - 2_500);
    assert_eq!(p.body.speed.y, -2_350);
    assert!(!p.on_the_ground());
}

#[test]
fn diving_falls_three_times_faster() {
    let mut p = grounded_player();
    p.process_action(PlayerAction::Jump);
    p.process_action(PlayerAction::Dump(true));
    p.update();
    assert_eq!(p.body.speed.y, -2_050);
}

#[test]
fn landing_stops_the_fall() {
    let mut p = Player::new(0, Vec2::new(40_000, MAX_Y - 100));
    p.body.speed = Vec2::new(0, 500);
    p.update();
    assert_eq!(p.body.position.y, MAX_Y);
    assert_eq!(p.body.speed.y, 0);
}

#[test]
fn first_catch_takes_looks() {
    let mut p = grounded_player();
    let b = baddie(38_000, 45_000, 2_000, BaddieColor::Blue, BaddieFace::Sad);
    p.collides_with_baddie(&b);
    assert_eq!(p.captured, Some((BaddieColor::Blue, BaddieFace::Sad)));
    assert_eq!(p.score, 0);
}

#[test]
fn matching_face_scores() {
    let mut p = grounded_player();
    p.process_action(PlayerAction::Collides(Entity::from(baddie(
        0, 0, 2_000, BaddieColor::Blue, BaddieFace::Sad,
    ))));
    p.process_action(PlayerAction::Collides(Entity::from(baddie(
        0, 0, 2_000, BaddieColor::Green, BaddieFace::Sad,
    ))));
    assert_eq!(p.score, 1);
    assert_eq!(p.captured, Some((BaddieColor::Green, BaddieFace::Sad)));
    p.collides_with_baddie(&baddie(0, 0, 2_000, BaddieColor::Green, BaddieFace::Wink));
    assert_eq!(p.score, 2);
    assert_eq!(p.life, START_PLAYER_LIFE);
}

#[test]
fn mismatch_costs_life_and_pushes() {
    let mut p = grounded_player();
    p.captured = Some((BaddieColor::Blue, BaddieFace::Sad));
    p.score = 5;
    let b = baddie(38_000, 45_000, 2_000, BaddieColor::Brown, BaddieFace::Happy);
    p.collides_with_baddie(&b);
    assert_eq!(p.score, 4);
    assert_eq!(p.life, START_PLAYER_LIFE - 1);
    assert!(p.captured.is_none());
    assert_eq!(p.body.speed, Vec2::new(400, 0));
}

#[test]
fn mismatch_at_zero_score_keeps_zero() {
    let mut p = grounded_player();
    p.captured = Some((BaddieColor::Blue, BaddieFace::Sad));
    p.collides_with_baddie(&baddie(41_000, 0, 2_500, BaddieColor::Yellow, BaddieFace::Bad));
    assert_eq!(p.score, 0);
    assert_eq!(p.life, START_PLAYER_LIFE - 1);
    assert_eq!(p.body.speed, Vec2::new(-500, 0));
}

#[test]
fn shield_ignores_baddies() {
    let mut p = grounded_player();
    p.process_action(PlayerAction::Shield(true));
    p.collides_with_baddie(&baddie(0, 0, 2_000, BaddieColor::Blue, BaddieFace::Sad));
    assert!(p.captured.is_none());
}

#[test]
fn bump_pushes_players_apart() {
    let mut p = grounded_player();
    let mut other = Player::new(1, Vec2::new(45_000, MAX_Y));
    other.body.speed = Vec2::new(300, 0);
    assert!(p.overlaps_player(&other.body()));
    p.process_action(PlayerAction::Collides(Entity::from(other.body())));
    assert_eq!(p.body.speed, Vec2::new(-116, 0));
}

#[test]
fn bump_against_shield_pushes_twice_as_hard() {
    let mut p = grounded_player();
    let mut other = Player::new(1, Vec2::new(45_000, MAX_Y));
    other.body.shielded = true;
    p.collides_with_player(&other.body());
    assert_eq!(p.body.speed, Vec2::new(-1_153, 0));
}

#[test]
fn player_overlaps() {
    let p = grounded_player();
    assert!(p.overlaps(&Rect::new(42_000, 46_000, 1_000, 1_000)));
    assert!(!p.overlaps(&Rect::new(43_100, 46_000, 1_000, 1_000)));
    assert!(!p.overlaps(&Rect::new(42_200, 43_000, 1_000, 1_000)));
    let far = Player::new(1, Vec2::new(46_000, MAX_Y));
    assert!(!p.overlaps_player(&far.body()));
    let near = Player::new(1, Vec2::new(45_999, MAX_Y));
    assert!(p.overlaps_player(&near.body()));
}

#[test]
fn player_rect_surrounds_disc() {
    let p = grounded_player();
    assert_eq!(p.rect(), Rect::new(36_800, 43_600, 6_400, 6_400));
}

#[test]
fn new_baddie_is_in_range() {
    for _ in 0..200 {
        let b = Baddie::new();
        assert!(BADDIE_MIN_SIZE <= b.body.w && b.body.w < BADDIE_MAX_SIZE);
        assert_eq!(b.body.h, b.body.w);
        assert_eq!(b.body.y, -b.body.w);
        assert!(0 <= b.body.x && b.body.x < WIDTH - b.body.w);
        assert_eq!(b.speed.x, 0);
        assert!(BADDIE_MIN_SPEED <= b.speed.y && b.speed.y < BADDIE_MAX_SPEED);
    }
}

#[test]
fn baddie_falls() {
    let mut b = baddie(100, -2_000, 2_000, BaddieColor::Brown, BaddieFace::Sick);
    b.update();
    assert_eq!(b.body, Rect::new(100, -1_800, 2_000, 2_000));
}

#[test]
fn colour_codes() {
    assert_eq!(BaddieColor::Brown.rgb(), 0x58_29_26);
    assert_eq!(BaddieColor::Green.rgb(), 0x05_82_1a);
    assert_eq!(BaddieColor::Blue.rgb(), 0x24_5e_97);
    assert_eq!(BaddieColor::Yellow.rgb(), 0x8c_97_2c);
    assert_eq!(BaddieColor::from_index(2), BaddieColor::Blue);
    assert_eq!(BaddieFace::from_index(5), BaddieFace::Wink);
}

#[test]
fn ui_panels_fill_two_columns() {
    let p0 = Player::new(0, Vec2::new(40_000, MAX_Y));
    let p3 = Player::new(3, Vec2::new(40_000, MAX_Y));
    assert_eq!(p0.ui_origin(1), (0, 0, 800));
    assert_eq!(p0.ui_origin(2), (0, 0, 400));
    assert_eq!(p3.ui_origin(4), (400, 42, 400));
}
