use vstd::prelude::*;

use crate::actions::{Entity, MoveDirection, PlayerAction};
use crate::baddies::{Baddie, BaddieColor, BaddieFace};
use crate::constants::{
    FAST_ATTENUATION, FLYING_DAMPING, JUMP_ATTENUATION, JUMP_HEIGHT, MAX_Y, PLAYER_DAMPING,
    LIFE_IMAGE_SIZE, PLAYER_SPEED, RADIUS, SHIELD_MARGIN, START_PLAYER_LIFE, TOLERANCE,
    UI_MARGIN, UNITS_PER_PIXEL, WIDTH,
};
use crate::geometry::{
    clamp, clamp_i64, div_toward_zero, isqrt, norm_sq, quot, saturate, saturate_i128, sqrt_floor,
    Rect, Vec2,
};

verus! {

/// The physical part of a player: where it is, how it moves, and whether
/// its shield is up.
#[derive(Clone, Copy, Debug)]
pub struct PlayerBody {
    pub position: Vec2,
    pub speed: Vec2,
    pub shielded: bool,
}

/// A player: its body and its standing in the game.
#[derive(Clone, Copy, Debug)]
pub struct Player {
    pub body: PlayerBody,
    pub captured: Option<(BaddieColor, BaddieFace)>,
    pub score: u32,
    pub life: i32,
    pub fast_attenuation: bool,
    pub current_direction: Option<MoveDirection>,
    pub index: u8,
}

/// Horizontal speed after one frame of damping towards `wanted`.
pub open spec fn damped(speed: int, wanted: int, damping: int) -> int {
    if speed > wanted {
        if speed - damping > wanted {
            speed - damping
        } else {
            wanted
        }
    } else {
        if speed + damping < wanted {
            speed + damping
        } else {
            wanted
        }
    }
}

impl PlayerBody {
    /// Collision radius.
    pub open spec fn radius_spec(self) -> int {
        RADIUS - TOLERANCE + if self.shielded {
            SHIELD_MARGIN as int
        } else {
            0
        }
    }

    /// Resting on the ground.
    pub open spec fn grounded(self) -> bool {
        self.position.y >= MAX_Y
    }

    /// The body after one frame, steering towards horizontal speed `wanted`
    /// and falling faster when `fast`.
    pub open spec fn stepped(self, wanted: int, fast: bool) -> PlayerBody {
        let damping = if self.grounded() {
            PLAYER_DAMPING
        } else {
            FLYING_DAMPING
        };
        let sx = damped(self.speed.x as int, wanted, damping as int);
        let px = clamp(self.position.x + sx, RADIUS as int, WIDTH - RADIUS);
        let py = clamp(self.position.y + self.speed.y, 0, MAX_Y as int);
        let gravity = JUMP_ATTENUATION * if fast {
            FAST_ATTENUATION as int
        } else {
            1
        };
        let sy = if py >= MAX_Y {
            0
        } else {
            saturate(self.speed.y + gravity)
        };
        PlayerBody {
            position: Vec2 { x: px as i32, y: py as i32 },
            speed: Vec2 { x: sx as i32, y: sy as i32 },
            shielded: self.shielded,
        }
    }

    fn new(position: Vec2) -> (r: PlayerBody)
        ensures
            r.position == position,
            r.speed == (Vec2 { x: 0, y: 0 }),
            !r.shielded,
    {
        PlayerBody { position, speed: Vec2 { x: 0, y: 0 }, shielded: false }
    }

    pub fn radius(&self) -> (r: i32)
        ensures
            r == self.radius_spec(),
    {
        RADIUS - TOLERANCE + if self.shielded {
            SHIELD_MARGIN
        } else {
            0
        }
    }

    pub fn on_the_ground(&self) -> (r: bool)
        ensures
            r == self.grounded(),
    {
        self.position.y >= MAX_Y
    }
}

impl Player {
    /// Horizontal speed that the player steers towards.
    pub open spec fn wanted(self) -> int {
        match self.current_direction {
            None => 0,
            Some(MoveDirection::Left) => -PLAYER_SPEED,
            Some(MoveDirection::Right) => PLAYER_SPEED as int,
        }
    }

    /// The player after one frame of movement.
    pub open spec fn moved(self) -> Player {
        Player { body: self.body.stepped(self.wanted(), self.fast_attenuation), ..self }
    }

    /// Push given to a player's speed by a baddie that it failed to match:
    /// `w / 5` along the direction from the baddie's centre to the player,
    /// horizontal only on the ground, and nothing where the centres meet.
    pub open spec fn knockback(self, baddie: Rect) -> (int, int) {
        let dx = 2 * self.body.position.x - (2 * baddie.x + baddie.w);
        let dy = if self.body.grounded() {
            0
        } else {
            2 * self.body.position.y - (2 * baddie.y + baddie.h)
        };
        let len = sqrt_floor(norm_sq(dx, dy));
        if len == 0 {
            (0, 0)
        } else {
            (quot(dx * baddie.w, 5 * len), quot(dy * baddie.w, 5 * len))
        }
    }

    /// The player after touching `baddie`.
    pub open spec fn caught(self, baddie: Baddie) -> Player {
        if self.body.shielded {
            self
        } else {
            match self.captured {
                None => Player { captured: Some((baddie.color, baddie.face)), ..self },
                Some((c, f)) => if c == baddie.color || f == baddie.face {
                    Player {
                        captured: Some((baddie.color, baddie.face)),
                        score: if self.score == u32::MAX {
                            u32::MAX
                        } else {
                            (self.score + 1) as u32
                        },
                        ..self
                    }
                } else {
                    let push = self.knockback(baddie.body);
                    Player {
                        captured: None,
                        score: if self.score == 0 {
                            0
                        } else {
                            (self.score - 1) as u32
                        },
                        life: saturate(self.life - 1) as i32,
                        body: PlayerBody {
                            speed: Vec2 {
                                x: saturate(self.body.speed.x + push.0) as i32,
                                y: saturate(self.body.speed.y + push.1) as i32,
                            },
                            ..self.body
                        },
                        ..self
                    }
                },
            }
        }
    }

    /// The player after bumping into `other`: it takes the other's speed,
    /// pushed apart along the line between the centres in proportion to how
    /// deep the circles overlap, twice as hard when the other is shielded.
    pub open spec fn bumped(self, other: PlayerBody) -> Player {
        let reach = self.body.radius_spec() + other.radius_spec();
        let divisor = reach * if other.shielded {
            1int
        } else {
            2int
        };
        let dx = self.body.position.x - other.position.x;
        let dy = self.body.position.y - other.position.y;
        let depth = reach - sqrt_floor(norm_sq(dx, dy));
        Player {
            body: PlayerBody {
                speed: Vec2 {
                    x: saturate(other.speed.x + quot(dx * depth, divisor)) as i32,
                    y: saturate(other.speed.y + quot(dy * depth, divisor)) as i32,
                },
                ..self.body
            },
            ..self
        }
    }

    /// The player after carrying out `action`.
    pub open spec fn acted(self, action: PlayerAction) -> Player {
        match action {
            PlayerAction::Move(dir) => Player { current_direction: dir, ..self },
            PlayerAction::Jump => Player {
                body: PlayerBody { speed: Vec2 { y: -JUMP_HEIGHT as i32, ..self.body.speed }, ..self.body },
                fast_attenuation: false,
                ..self
            },
            PlayerAction::Dump(dump) => Player { fast_attenuation: dump, ..self },
            PlayerAction::Shield(shield) => Player {
                body: PlayerBody { shielded: shield, ..self.body },
                ..self
            },
            PlayerAction::Collides(Entity::Baddie(baddie)) => self.caught(baddie),
            PlayerAction::Collides(Entity::Player(other)) => self.bumped(other),
        }
    }

    /// The disc of the player touches `rect`.
    pub open spec fn overlaps_spec(self, rect: Rect) -> bool {
        let p = self.body.position;
        let r = self.body.radius_spec();
        let nx = if p.x < rect.x + rect.w { p.x as int } else { rect.x + rect.w };
        let nx = if rect.x > nx { rect.x as int } else { nx };
        let ny = if p.y < rect.y + rect.h { p.y as int } else { rect.y + rect.h };
        let ny = if rect.y > ny { rect.y as int } else { ny };
        norm_sq(p.x - nx, p.y - ny) < r * r
    }

    /// The discs of the player and of `other` overlap.
    pub open spec fn overlaps_player_spec(self, other: PlayerBody) -> bool {
        let reach = self.body.radius_spec() + other.radius_spec();
        norm_sq(self.body.position.x - other.position.x, self.body.position.y - other.position.y)
            < reach * reach
    }

    /// A new player numbered `index`, standing still at `position`, with
    /// empty hands, no points and all its lives.
    pub open spec fn fresh(index: u8, position: Vec2) -> Player {
        Player {
            body: PlayerBody { position, speed: Vec2 { x: 0, y: 0 }, shielded: false },
            captured: None,
            score: 0,
            life: START_PLAYER_LIFE,
            fast_attenuation: false,
            current_direction: None,
            index,
        }
    }

    /// A new player numbered `index`, standing at `position`.
    pub fn new(index: u8, position: Vec2) -> (r: Player)
        ensures
            r == Player::fresh(index, position),
    {
        Player {
            body: PlayerBody::new(position),
            captured: None,
            score: 0,
            life: START_PLAYER_LIFE,
            fast_attenuation: false,
            current_direction: None,
            index,
        }
    }

    fn wanted_speed(&self) -> (r: i32)
        ensures
            r == self.wanted(),
    {
        match self.current_direction {
            None => 0,
            Some(MoveDirection::Left) => -PLAYER_SPEED,
            Some(MoveDirection::Right) => PLAYER_SPEED,
        }
    }

    /// One frame of movement: horizontal damping towards the wanted speed,
    /// keeping inside the field, and falling.
    pub fn update(&mut self)
        ensures
            *final(self) == old(self).moved(),
    {
        let wanted = self.wanted_speed() as i64;
        let damping: i64 = if self.body.on_the_ground() {
            PLAYER_DAMPING as i64
        } else {
            FLYING_DAMPING as i64
        };
        let speed_x = self.body.speed.x as i64;
        let sx: i64 = if speed_x > wanted {
            if speed_x - damping > wanted {
                speed_x - damping
            } else {
                wanted
            }
        } else {
            if speed_x + damping < wanted {
                speed_x + damping
            } else {
                wanted
            }
        };
        let px = clamp_i64(
            self.body.position.x as i64 + sx,
            RADIUS as i64,
            (WIDTH - RADIUS) as i64,
        );
        let py = clamp_i64(
            self.body.position.y as i64 + self.body.speed.y as i64,
            0,
            MAX_Y as i64,
        );
        let gravity: i64 = JUMP_ATTENUATION as i64 * if self.fast_attenuation {
            FAST_ATTENUATION as i64
        } else {
            1
        };
        let sy: i32 = if py >= MAX_Y as i64 {
            0
        } else {
            saturate_i128(self.body.speed.y as i128 + gravity as i128)
        };
        self.body.position = Vec2 { x: px as i32, y: py as i32 };
        self.body.speed = Vec2 { x: sx as i32, y: sy };
    }

    pub fn on_the_ground(&self) -> (r: bool)
        ensures
            r == self.body.grounded(),
    {
        self.body.on_the_ground()
    }

    /// The square that the player's disc is drawn in.
    pub fn rect(&self) -> (r: Rect)
        requires
            i32::MIN + RADIUS <= self.body.position.x,
            i32::MIN + RADIUS <= self.body.position.y,
        ensures
            r == (Rect {
                x: (self.body.position.x - RADIUS) as i32,
                y: (self.body.position.y - RADIUS) as i32,
                w: (2 * RADIUS) as i32,
                h: (2 * RADIUS) as i32,
            }),
    {
        Rect::new(
            self.body.position.x - RADIUS,
            self.body.position.y - RADIUS,
            RADIUS * 2,
            RADIUS * 2,
        )
    }

    /// Where the interface panel of this player goes, in pixels, when
    /// `nb_players` play: its left edge, its top edge and its width. Panels
    /// fill two columns, in rows, in the order of the players' numbers.
    pub fn ui_origin(&self, nb_players: usize) -> (r: (i32, i32, i32))
        requires
            nb_players > 0,
        ensures
            r.2 == (WIDTH / UNITS_PER_PIXEL) / (if nb_players >= 2 { 2int } else { 1int }),
            r.0 == r.2 * (self.index % 2),
            r.1 == (LIFE_IMAGE_SIZE + UI_MARGIN) * (self.index / 2),
    {
        let columns: i32 = if nb_players >= 2 {
            2
        } else {
            1
        };
        let max_width = (WIDTH / UNITS_PER_PIXEL) / columns;
        let col = (self.index % 2) as i32;
        let line = (self.index / 2) as i32;
        assert(0 <= (LIFE_IMAGE_SIZE + UI_MARGIN) * line <= 42 * 128) by (nonlinear_arith)
            requires
                0 <= line < 128,
        ;
        (max_width * col, (LIFE_IMAGE_SIZE + UI_MARGIN) * line, max_width)
    }

    pub fn body(&self) -> (r: PlayerBody)
        ensures
            r == self.body,
    {
        self.body
    }

    /// Carries out `action` on this player.
    pub fn process_action(&mut self, action: PlayerAction)
        ensures
            *final(self) == old(self).acted(action),
    {
        match action {
            PlayerAction::Move(dir) => self.current_direction = dir,
            PlayerAction::Jump => {
                self.body.speed.y = -JUMP_HEIGHT;
                self.fast_attenuation = false;
            },
            PlayerAction::Dump(dump) => self.fast_attenuation = dump,
            PlayerAction::Shield(shield) => self.body.shielded = shield,
            PlayerAction::Collides(Entity::Baddie(baddie)) => self.collides_with_baddie(&baddie),
            PlayerAction::Collides(Entity::Player(other)) => self.collides_with_player(&other),
        }
    }

    /// Effect of touching `baddie`: a first catch, or a match on colour or
    /// face, takes the baddie's looks and (after the first) a point; a
    /// mismatch costs a point and a life, empties the hands and pushes the
    /// player away. A shielded player is not affected.
    pub fn collides_with_baddie(&mut self, baddie: &Baddie)
        ensures
            *final(self) == old(self).caught(*baddie),
    {
        if self.body.shielded {
            return;
        }
        match self.captured {
            None => {
                self.captured = Some((baddie.color, baddie.face));
            },
            Some((c, f)) => {
                if c == baddie.color || f == baddie.face {
                    self.score = self.score.saturating_add(1);
                    self.captured = Some((baddie.color, baddie.face));
                } else {
                    self.score = self.score.saturating_sub(1);
                    let push = self.knockback_of(&baddie.body);
                    self.body.speed = Vec2 {
                        x: saturate_i128(self.body.speed.x as i128 + push.0),
                        y: saturate_i128(self.body.speed.y as i128 + push.1),
                    };
                    self.life = if self.life == i32::MIN {
                        i32::MIN
                    } else {
                        self.life - 1
                    };
                    self.captured = None;
                }
            },
        }
    }

    fn knockback_of(&self, rect: &Rect) -> (r: (i128, i128))
        ensures
            r.0 == self.knockback(*rect).0,
            r.1 == self.knockback(*rect).1,
            -0x2_0000_0000_0000_0000 <= r.0 <= 0x2_0000_0000_0000_0000,
            -0x2_0000_0000_0000_0000 <= r.1 <= 0x2_0000_0000_0000_0000,
    {
        let dx: i128 = 2 * self.body.position.x as i128 - (2 * rect.x as i128 + rect.w as i128);
        let dy: i128 = if self.body.on_the_ground() {
            0
        } else {
            2 * self.body.position.y as i128 - (2 * rect.y as i128 + rect.h as i128)
        };
        assert(0 <= dx * dx <= 0x100_0000_0000_0000_0000) by (nonlinear_arith)
            requires
                -0x4_0000_0000 < dx < 0x4_0000_0000,
        ;
        assert(0 <= dy * dy <= 0x100_0000_0000_0000_0000) by (nonlinear_arith)
            requires
                -0x4_0000_0000 < dy < 0x4_0000_0000,
        ;
        let len = isqrt((dx * dx + dy * dy) as u128) as i128;
        if len == 0 {
            (0, 0)
        } else {
            assert(-0x4_0000_0000 * 0x8000_0000 <= dx * rect.w <= 0x4_0000_0000 * 0x8000_0000)
                by (nonlinear_arith)
                requires
                    -0x4_0000_0000 < dx < 0x4_0000_0000,
                    -0x8000_0000 <= rect.w < 0x8000_0000,
            ;
            assert(-0x4_0000_0000 * 0x8000_0000 <= dy * rect.w <= 0x4_0000_0000 * 0x8000_0000)
                by (nonlinear_arith)
                requires
                    -0x4_0000_0000 < dy < 0x4_0000_0000,
                    -0x8000_0000 <= rect.w < 0x8000_0000,
            ;
            proof {
                lemma_quot_bounded(dx * rect.w, 5 * len);
                lemma_quot_bounded(dy * rect.w, 5 * len);
            }
            (
                div_toward_zero(dx * rect.w as i128, 5 * len),
                div_toward_zero(dy * rect.w as i128, 5 * len),
            )
        }
    }

    /// Effect of bumping into `other`.
    pub fn collides_with_player(&mut self, other: &PlayerBody)
        ensures
            *final(self) == old(self).bumped(*other),
    {
        let reach: i128 = self.body.radius() as i128 + other.radius() as i128;
        let divisor: i128 = reach * if other.shielded {
            1
        } else {
            2
        };
        let dx: i128 = self.body.position.x as i128 - other.position.x as i128;
        let dy: i128 = self.body.position.y as i128 - other.position.y as i128;
        assert(0 <= dx * dx <= 0x1_0000_0000_0000_0000) by (nonlinear_arith)
            requires
                -0x1_0000_0000 < dx < 0x1_0000_0000,
        ;
        assert(0 <= dy * dy <= 0x1_0000_0000_0000_0000) by (nonlinear_arith)
            requires
                -0x1_0000_0000 < dy < 0x1_0000_0000,
        ;
        let dist = isqrt((dx * dx + dy * dy) as u128) as i128;
        assert(dist < 0x2_0000_0000) by (nonlinear_arith)
            requires
                dist * dist <= dx * dx + dy * dy,
                dx * dx + dy * dy <= 0x2_0000_0000_0000_0000,
                dist >= 0,
        ;
        let depth = reach - dist;
        assert(-0x1_0000_0000 * 0x4_0000_0000 <= dx * depth <= 0x1_0000_0000 * 0x4_0000_0000)
            by (nonlinear_arith)
            requires
                -0x1_0000_0000 < dx < 0x1_0000_0000,
                -0x4_0000_0000 < depth < 0x4_0000_0000,
        ;
        assert(-0x1_0000_0000 * 0x4_0000_0000 <= dy * depth <= 0x1_0000_0000 * 0x4_0000_0000)
            by (nonlinear_arith)
            requires
                -0x1_0000_0000 < dy < 0x1_0000_0000,
                -0x4_0000_0000 < depth < 0x4_0000_0000,
        ;
        let qx = div_toward_zero(dx * depth, divisor);
        let qy = div_toward_zero(dy * depth, divisor);
        proof {
            lemma_quot_bounded(dx * depth, divisor as int);
            lemma_quot_bounded(dy * depth, divisor as int);
        }
        self.body.speed = Vec2 {
            x: saturate_i128(other.speed.x as i128 + qx),
            y: saturate_i128(other.speed.y as i128 + qy),
        };
    }

    /// The disc of the player touches `rect`.
    pub fn overlaps(&self, rect: &Rect) -> (r: bool)
        ensures
            r == self.overlaps_spec(*rect),
    {
        let px = self.body.position.x as i64;
        let py = self.body.position.y as i64;
        let radius = self.body.radius() as i128;
        let right = rect.x as i64 + rect.w as i64;
        let bottom = rect.y as i64 + rect.h as i64;
        let nx = if px < right { px } else { right };
        let nx = if (rect.x as i64) > nx { rect.x as i64 } else { nx };
        let ny = if py < bottom { py } else { bottom };
        let ny = if (rect.y as i64) > ny { rect.y as i64 } else { ny };
        let dx = (px - nx) as i128;
        let dy = (py - ny) as i128;
        assert(0 <= dx * dx <= 0x1_0000_0000_0000_0000) by (nonlinear_arith)
            requires
                -0x1_0000_0000 < dx < 0x1_0000_0000,
        ;
        assert(0 <= dy * dy <= 0x1_0000_0000_0000_0000) by (nonlinear_arith)
            requires
                -0x1_0000_0000 < dy < 0x1_0000_0000,
        ;
        assert(radius * radius <= 3500 * 3500) by (nonlinear_arith)
            requires
                0 <= radius <= 3500,
        ;
        dx * dx + dy * dy < radius * radius
    }

    /// The discs of the player and of `other` overlap.
    pub fn overlaps_player(&self, other: &PlayerBody) -> (r: bool)
        ensures
            r == self.overlaps_player_spec(*other),
    {
        let reach = self.body.radius() as i128 + other.radius() as i128;
        let dx: i128 = self.body.position.x as i128 - other.position.x as i128;
        let dy: i128 = self.body.position.y as i128 - other.position.y as i128;
        assert(0 <= dx * dx <= 0x1_0000_0000_0000_0000) by (nonlinear_arith)
            requires
                -0x1_0000_0000 < dx < 0x1_0000_0000,
        ;
        assert(0 <= dy * dy <= 0x1_0000_0000_0000_0000) by (nonlinear_arith)
            requires
                -0x1_0000_0000 < dy < 0x1_0000_0000,
        ;
        assert(reach * reach <= 7000 * 7000) by (nonlinear_arith)
            requires
                0 <= reach <= 7000,
        ;
        dx * dx + dy * dy < reach * reach
    }
}

/// After a frame of movement a player is always inside the field, between
/// the side walls and between the top of the window and the ground, and a
/// player on the ground does not fall.
pub proof fn lemma_moved_on_field(p: Player)
    ensures
        RADIUS <= p.moved().body.position.x <= WIDTH - RADIUS,
        0 <= p.moved().body.position.y <= MAX_Y,
        p.moved().body.grounded() ==> p.moved().body.speed.y == 0,
{
}

/// A quotient rounded towards zero is no larger than its numerator.
proof fn lemma_quot_bounded(a: int, b: int)
    requires
        b >= 1,
    ensures
        -(if a >= 0 { a } else { -a }) <= quot(a, b) <= (if a >= 0 { a } else { -a }),
{
    if a >= 0 {
        assert(a / b <= a) by (nonlinear_arith)
            requires
                a >= 0,
                b >= 1,
        ;
        assert(a / b >= 0) by (nonlinear_arith)
            requires
                a >= 0,
                b >= 1,
        ;
    } else {
        assert((-a) / b <= -a) by (nonlinear_arith)
            requires
                -a >= 0,
                b >= 1,
        ;
        assert((-a) / b >= 0) by (nonlinear_arith)
            requires
                -a >= 0,
                b >= 1,
        ;
    }
}

} // verus!
