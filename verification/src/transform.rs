//! Directions, axes and two-dimensional integer vectors.

use core::ops::{Add, Sub};
use vstd::prelude::*;
use vstd::std_specs::convert::FromSpec;
use vstd::std_specs::ops::{AddSpec, AddSpecImpl, SubSpec, SubSpecImpl};

verus! {

/// One of the four cardinal directions.
#[derive(Clone, Copy, Debug, PartialEq, Eq, Structural)]
pub enum Direction4 {
    Up,
    Right,
    Down,
    Left,
}

impl Direction4 {
    /// Position of the direction on the compass, counted clockwise from `Up`.
    pub open spec fn quarter(self) -> int {
        match self {
            Direction4::Up => 0,
            Direction4::Right => 1,
            Direction4::Down => 2,
            Direction4::Left => 3,
        }
    }

    /// The direction that stands `q` quarter turns clockwise from `Up`.
    pub open spec fn from_quarter(q: int) -> Direction4 {
        let r = q % 4;
        if r == 0 {
            Direction4::Up
        } else if r == 1 {
            Direction4::Right
        } else if r == 2 {
            Direction4::Down
        } else {
            Direction4::Left
        }
    }

    /// A quarter turn clockwise.
    pub fn rotate_right(self) -> (turned: Direction4)
        ensures
            turned == Direction4::from_quarter(self.quarter() + 1),
    {
        match self {
            Direction4::Up => Direction4::Right,
            Direction4::Right => Direction4::Down,
            Direction4::Down => Direction4::Left,
            Direction4::Left => Direction4::Up,
        }
    }

    /// A quarter turn counter-clockwise.
    pub fn rotate_left(self) -> (turned: Direction4)
        ensures
            turned == Direction4::from_quarter(self.quarter() + 3),
    {
        match self {
            Direction4::Up => Direction4::Left,
            Direction4::Right => Direction4::Up,
            Direction4::Down => Direction4::Right,
            Direction4::Left => Direction4::Down,
        }
    }

    /// A half turn.
    pub fn rotate_180(self) -> (turned: Direction4)
        ensures
            turned == Direction4::from_quarter(self.quarter() + 2),
    {
        match self {
            Direction4::Up => Direction4::Down,
            Direction4::Right => Direction4::Left,
            Direction4::Down => Direction4::Up,
            Direction4::Left => Direction4::Right,
        }
    }
}

/// A direction along the horizontal axis.
#[derive(Clone, Copy, Debug, PartialEq, Eq, Structural)]
pub enum AxisX {
    Left,
    Right,
}

/// A direction along the vertical axis.
#[derive(Clone, Copy, Debug, PartialEq, Eq, Structural)]
pub enum AxisY {
    Up,
    Down,
}

/// A vector of two coordinates.
#[derive(Clone, Copy, Debug, Default, PartialEq, Eq, Structural)]
pub struct Vector2D<T> {
    /// The x coordinate.
    pub x: T,
    /// The y coordinate.
    pub y: T,
}

/// `i16::from` of a `u8` in std: the same number, which always fits.
pub assume_specification[ <i16 as core::convert::From<u8>>::from ](value: u8) -> (same: i16)
    ensures
        same == value,
;

impl<T: From<u8>> Vector2D<T> {
    /// The vector whose two coordinates are the image of zero.
    pub fn new() -> (origin: Self)
        ensures
            call_ensures(T::from, (0u8,), origin.x),
            call_ensures(T::from, (0u8,), origin.y),
            T::obeys_from_spec() ==> origin == (Vector2D { x: T::from_spec(0u8), y: T::from_spec(0u8) }),
    {
        Vector2D { x: T::from(0u8), y: T::from(0u8) }
    }
}

impl<T: Add<Output = T>> Add<Vector2D<T>> for Vector2D<T> {
    type Output = Vector2D<T>;

    fn add(self, rhs: Vector2D<T>) -> (sum: Vector2D<T>) {
        Vector2D { x: self.x + rhs.x, y: self.y + rhs.y }
    }
}

impl<T: Add<Output = T>> AddSpecImpl<Vector2D<T>> for Vector2D<T> {
    open spec fn obeys_add_spec() -> bool {
        T::obeys_add_spec()
    }

    open spec fn add_req(self, rhs: Vector2D<T>) -> bool {
        self.x.add_req(rhs.x) && self.y.add_req(rhs.y)
    }

    open spec fn add_spec(self, rhs: Vector2D<T>) -> Vector2D<T> {
        Vector2D { x: self.x.add_spec(rhs.x), y: self.y.add_spec(rhs.y) }
    }
}

impl<T: Sub<Output = T>> Sub<Vector2D<T>> for Vector2D<T> {
    type Output = Vector2D<T>;

    fn sub(self, rhs: Vector2D<T>) -> (difference: Vector2D<T>) {
        Vector2D { x: self.x - rhs.x, y: self.y - rhs.y }
    }
}

impl<T: Sub<Output = T>> SubSpecImpl<Vector2D<T>> for Vector2D<T> {
    open spec fn obeys_sub_spec() -> bool {
        T::obeys_sub_spec()
    }

    open spec fn sub_req(self, rhs: Vector2D<T>) -> bool {
        self.x.sub_req(rhs.x) && self.y.sub_req(rhs.y)
    }

    open spec fn sub_spec(self, rhs: Vector2D<T>) -> Vector2D<T> {
        Vector2D { x: self.x.sub_spec(rhs.x), y: self.y.sub_spec(rhs.y) }
    }
}

/// One coordinate after a move from `current` toward `target` by at most
/// `step`: the target where it is no more than `step` away, else the
/// coordinate that is `step` nearer to it.
pub open spec fn toward(current: int, target: int, step: int) -> int {
    if current < target {
        if target - current <= step {
            target
        } else {
            current + step
        }
    } else {
        if current - target <= step {
            target
        } else {
            current - step
        }
    }
}

/// One coordinate after `moves` moves toward `target` by at most `step`
/// each.
pub open spec fn toward_repeated(current: int, target: int, step: int, moves: nat) -> int
    decreases moves,
{
    if moves == 0 {
        current
    } else {
        toward(toward_repeated(current, target, step, (moves - 1) as nat), target, step)
    }
}

/// The distance between two coordinates.
pub open spec fn distance(a: int, b: int) -> int {
    if a < b {
        b - a
    } else {
        a - b
    }
}

/// A move toward a target never passes it, and brings the coordinate nearer
/// by the whole step or onto the target.
pub proof fn lemma_toward_never_overshoots(current: int, target: int, step: int)
    requires
        step >= 0,
    ensures
        current <= target ==> current <= toward(current, target, step) <= target,
        current >= target ==> current >= toward(current, target, step) >= target,
        distance(current, target) <= step ==> toward(current, target, step) == target,
        distance(current, target) > step ==> distance(toward(current, target, step), target)
            == distance(current, target) - step,
{
}

/// Convergence of repeated moves: after `moves` moves by at most `step`
/// each, the coordinate lies between its start and the target, and what is
/// left of the distance is the distance at the start less `moves * step`, or
/// nothing where that is not positive. So the target is reached exactly once
/// `moves * step` is at least the distance, and is kept from then on.
pub proof fn lemma_move_towards_converges(current: int, target: int, step: int, moves: nat)
    requires
        step >= 0,
    ensures
        current <= target ==> current <= toward_repeated(current, target, step, moves) <= target,
        current >= target ==> current >= toward_repeated(current, target, step, moves) >= target,
        moves * step >= distance(current, target) ==> toward_repeated(current, target, step, moves)
            == target,
        moves * step < distance(current, target) ==> distance(
            toward_repeated(current, target, step, moves),
            target,
        ) == distance(current, target) - moves * step,
    decreases moves,
{
    if moves > 0 {
        let before = (moves - 1) as nat;
        lemma_move_towards_converges(current, target, step, before);
        lemma_toward_never_overshoots(toward_repeated(current, target, step, before), target, step);
        assert(moves * step == before * step + step) by (nonlinear_arith)
            requires
                moves == before + 1,
        ;
    }
}

/// One coordinate moved toward `target` by at most `step`.
fn approach(current: i16, target: i16, step: u16) -> (moved: i16)
    ensures
        moved == toward(current as int, target as int, step as int),
{
    if current < target {
        let gap: i32 = target as i32 - current as i32;
        if gap <= step as i32 {
            target
        } else {
            (current as i32 + step as i32) as i16
        }
    } else {
        let gap: i32 = current as i32 - target as i32;
        if gap <= step as i32 {
            target
        } else {
            (current as i32 - step as i32) as i16
        }
    }
}

impl Vector2D<i16> {
    /// Adds `rhs` in place, coordinate by coordinate.
    pub fn add_assign(&mut self, rhs: Vector2D<i16>)
        requires
            i16::MIN <= old(self).x + rhs.x <= i16::MAX,
            i16::MIN <= old(self).y + rhs.y <= i16::MAX,
        ensures
            final(self).x == old(self).x + rhs.x,
            final(self).y == old(self).y + rhs.y,
    {
        self.x = self.x + rhs.x;
        self.y = self.y + rhs.y;
    }

    /// Subtracts `rhs` in place, coordinate by coordinate.
    pub fn sub_assign(&mut self, rhs: Vector2D<i16>)
        requires
            i16::MIN <= old(self).x - rhs.x <= i16::MAX,
            i16::MIN <= old(self).y - rhs.y <= i16::MAX,
        ensures
            final(self).x == old(self).x - rhs.x,
            final(self).y == old(self).y - rhs.y,
    {
        self.x = self.x - rhs.x;
        self.y = self.y - rhs.y;
    }

    /// The vector with both coordinates multiplied by `factor`, each product
    /// wrapped into sixteen bits.
    pub fn scaled(self, factor: i16) -> (product: Vector2D<i16>)
        ensures
            product.x == vstd::wrapping::i16_specs::wrapping_mul(self.x, factor),
            product.y == vstd::wrapping::i16_specs::wrapping_mul(self.y, factor),
            i16::MIN <= self.x * factor <= i16::MAX ==> product.x == self.x * factor,
            i16::MIN <= self.y * factor <= i16::MAX ==> product.y == self.y * factor,
    {
        proof {
            lemma_crop_in_range(self.x * factor);
            lemma_crop_in_range(self.y * factor);
        }
        Vector2D { x: self.x.wrapping_mul(factor), y: self.y.wrapping_mul(factor) }
    }

    /// Moves each coordinate toward that of `target` by at most `step`,
    /// never past it.
    pub fn move_towards(&mut self, target: Vector2D<i16>, step: u16)
        ensures
            final(self).x == toward(old(self).x as int, target.x as int, step as int),
            final(self).y == toward(old(self).y as int, target.y as int, step as int),
    {
        self.x = approach(self.x, target.x, step);
        self.y = approach(self.y, target.y, step);
    }
}

/// Wrapping into sixteen bits leaves a value of sixteen bits as it is.
proof fn lemma_crop_in_range(value: int)
    ensures
        i16::MIN <= value <= i16::MAX ==> vstd::wrapping::i16_specs::signed_crop(value) == value,
{
    if 0 <= value <= i16::MAX {
        assert(value % 0x1_0000 == value);
    } else if i16::MIN <= value < 0 {
        assert(value % 0x1_0000 == value + 0x1_0000);
    }
}

} // verus!
