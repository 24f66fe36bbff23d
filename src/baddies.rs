use vstd::prelude::*;

use crate::constants::{
    BADDIE_MAX_SIZE, BADDIE_MAX_SPEED, BADDIE_MIN_SIZE, BADDIE_MIN_SPEED, WIDTH,
};
use crate::geometry::{Rect, Vec2};

verus! {

/// A falling square that players catch or dodge.
#[derive(Clone, Copy, Debug)]
pub struct Baddie {
    pub body: Rect,
    pub color: BaddieColor,
    pub face: BaddieFace,
    pub speed: Vec2,
}

#[derive(Clone, Copy, Debug, PartialEq, Eq, Hash, Structural)]
pub enum BaddieColor {
    Brown,
    Green,
    Blue,
    Yellow,
}

#[derive(Clone, Copy, Debug, PartialEq, Eq, Hash, Structural)]
pub enum BaddieFace {
    Bad,
    Happy,
    Horrified,
    Sad,
    Sick,
    Wink,
}

/// Relies on rand::thread_rng and rand::Rng::gen_range (rand 0.4): a value
/// drawn from `[low, high)`; gen_range panics when `low >= high`.
#[verifier::external_body]
fn random_in(low: i32, high: i32) -> (r: i32)
    requires
        low < high,
    ensures
        low <= r < high,
{
    rand::Rng::gen_range(&mut rand::thread_rng(), low, high)
}

impl BaddieColor {
    /// Number of colours.
    pub const COUNT: i32 = 4;

    /// The colour with number `i`, in declaration order.
    pub open spec fn nth(i: int) -> BaddieColor {
        if i == 0 {
            BaddieColor::Brown
        } else if i == 1 {
            BaddieColor::Green
        } else if i == 2 {
            BaddieColor::Blue
        } else {
            BaddieColor::Yellow
        }
    }

    /// The colour with number `i`, in declaration order.
    pub fn from_index(i: i32) -> (r: BaddieColor)
        requires
            0 <= i < Self::COUNT,
        ensures
            r == Self::nth(i as int),
    {
        if i == 0 {
            BaddieColor::Brown
        } else if i == 1 {
            BaddieColor::Green
        } else if i == 2 {
            BaddieColor::Blue
        } else {
            BaddieColor::Yellow
        }
    }

    /// The colour as `0xRRGGBB`.
    pub fn rgb(self) -> (r: u32)
        ensures
            r == match self {
                BaddieColor::Brown => 0x58_29_26u32,
                BaddieColor::Green => 0x05_82_1au32,
                BaddieColor::Blue => 0x24_5e_97u32,
                BaddieColor::Yellow => 0x8c_97_2cu32,
            },
    {
        match self {
            BaddieColor::Brown => 0x58_29_26,
            BaddieColor::Green => 0x05_82_1a,
            BaddieColor::Blue => 0x24_5e_97,
            BaddieColor::Yellow => 0x8c_97_2c,
        }
    }
}

impl BaddieFace {
    /// Number of faces.
    pub const COUNT: i32 = 6;

    /// The face with number `i`, in declaration order.
    pub open spec fn nth(i: int) -> BaddieFace {
        if i == 0 {
            BaddieFace::Bad
        } else if i == 1 {
            BaddieFace::Happy
        } else if i == 2 {
            BaddieFace::Horrified
        } else if i == 3 {
            BaddieFace::Sad
        } else if i == 4 {
            BaddieFace::Sick
        } else {
            BaddieFace::Wink
        }
    }

    /// The face with number `i`, in declaration order.
    pub fn from_index(i: i32) -> (r: BaddieFace)
        requires
            0 <= i < Self::COUNT,
        ensures
            r == Self::nth(i as int),
    {
        if i == 0 {
            BaddieFace::Bad
        } else if i == 1 {
            BaddieFace::Happy
        } else if i == 2 {
            BaddieFace::Horrified
        } else if i == 3 {
            BaddieFace::Sad
        } else if i == 4 {
            BaddieFace::Sick
        } else {
            BaddieFace::Wink
        }
    }
}

impl Baddie {
    /// What every baddie satisfies: a square of allowed size, entirely
    /// within the width of the field, falling straight down at an allowed speed.
    pub open spec fn wf(self) -> bool {
        &&& BADDIE_MIN_SIZE <= self.body.w < BADDIE_MAX_SIZE
        &&& self.body.h == self.body.w
        &&& 0 <= self.body.x < WIDTH - self.body.w
        &&& self.speed.x == 0
        &&& BADDIE_MIN_SPEED <= self.speed.y < BADDIE_MAX_SPEED
    }

    /// A baddie of random size, place, speed, colour and face, just above
    /// the top of the window.
    pub fn new() -> (r: Baddie)
        ensures
            r.wf(),
            r.body.y == -r.body.w,
    {
        let size = random_in(BADDIE_MIN_SIZE, BADDIE_MAX_SIZE);
        let x = random_in(0, WIDTH - size);
        let fall = random_in(BADDIE_MIN_SPEED, BADDIE_MAX_SPEED);
        let color = BaddieColor::from_index(random_in(0, BaddieColor::COUNT));
        let face = BaddieFace::from_index(random_in(0, BaddieFace::COUNT));
        Baddie { body: Rect::new(x, -size, size, size), speed: Vec2::new(0, fall), color, face }
    }

    /// Moves the baddie by one frame of its speed.
    pub fn update(&mut self)
        requires
            i32::MIN <= old(self).body.x + old(self).speed.x <= i32::MAX,
            i32::MIN <= old(self).body.y + old(self).speed.y <= i32::MAX,
        ensures
            final(self).body == old(self).body.translated(old(self).speed),
            final(self).color == old(self).color,
            final(self).face == old(self).face,
            final(self).speed == old(self).speed,
    {
        self.body.translate(self.speed);
    }
}

} // verus!
