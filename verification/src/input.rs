//! The input snapshot of a frame: which keys are held, which went down and
//! which came up since the frame before.
//!
//! A key set is kept as the key register gives it: sixteen bits, one for
//! each key, and a key is down where its bit is 0.

use crate::transform::{AxisX, AxisY, Direction4};
use gba::keys::KeyInput;
use vstd::prelude::*;

verus! {

/// The keys that the frame logic asks for.
#[derive(Clone, Copy, Debug, PartialEq, Eq, Structural)]
pub enum Key {
    A,
    Right,
    Left,
    Up,
    Down,
}

impl Key {
    /// The bit of the key in a key set.
    pub open spec fn mask(self) -> u16 {
        match self {
            Key::A => 0x0001,
            Key::Right => 0x0010,
            Key::Left => 0x0020,
            Key::Up => 0x0040,
            Key::Down => 0x0080,
        }
    }
}

/// Whether the key with bit `mask` is down in the key set `keys`.
pub open spec fn down(keys: u16, mask: u16) -> bool {
    keys & mask == 0
}

/// The key set in which those keys are down that are down in both sets.
pub open spec fn both(a: u16, b: u16) -> u16 {
    !(!a & !b)
}

/// The key set in which those keys are down that are up in `a`.
pub open spec fn inverse(a: u16) -> u16 {
    !a
}

/// The direction that a key set asks for: up before right, right before
/// down, down before left.
pub open spec fn direction_of(keys: u16) -> Option<Direction4> {
    if down(keys, Key::Up.mask()) {
        Some(Direction4::Up)
    } else if down(keys, Key::Right.mask()) {
        Some(Direction4::Right)
    } else if down(keys, Key::Down.mask()) {
        Some(Direction4::Down)
    } else if down(keys, Key::Left.mask()) {
        Some(Direction4::Left)
    } else {
        None
    }
}

/// The horizontal direction that a key set asks for: left before right.
pub open spec fn axis_x_of(keys: u16) -> Option<AxisX> {
    if down(keys, Key::Left.mask()) {
        Some(AxisX::Left)
    } else if down(keys, Key::Right.mask()) {
        Some(AxisX::Right)
    } else {
        None
    }
}

/// The vertical direction that a key set asks for: up before down.
pub open spec fn axis_y_of(keys: u16) -> Option<AxisY> {
    if down(keys, Key::Up.mask()) {
        Some(AxisY::Up)
    } else if down(keys, Key::Down.mask()) {
        Some(AxisY::Down)
    } else {
        None
    }
}

/// `KeyInput::new` of the gba crate, as its raw value: the key set with no
/// key down, in which every bit is 1.
#[verifier::external_body]
fn no_keys() -> (keys: u16)
    ensures
        keys == 0xFFFFu16,
{
    KeyInput::new().to_u16()
}

/// `&` on `KeyInput` of the gba crate, on raw values: the result has a bit
/// at 0 exactly where both operands have it at 0.
#[verifier::external_body]
fn keys_and(a: u16, b: u16) -> (keys: u16)
    ensures
        keys == both(a, b),
{
    (KeyInput::from(a) & KeyInput::from(b)).to_u16()
}

/// `!` on `KeyInput` of the gba crate, on raw values: every bit is turned.
#[verifier::external_body]
fn keys_not(a: u16) -> (keys: u16)
    ensures
        keys == inverse(a),
{
    (!KeyInput::from(a)).to_u16()
}

/// `KeyInput::a` of the gba crate: whether bit 0 is 0.
#[verifier::external_body]
fn key_a(keys: u16) -> (is_down: bool)
    ensures
        is_down == down(keys, 0x0001),
{
    KeyInput::from(keys).a()
}

/// `KeyInput::right` of the gba crate: whether bit 4 is 0.
#[verifier::external_body]
fn key_right(keys: u16) -> (is_down: bool)
    ensures
        is_down == down(keys, 0x0010),
{
    KeyInput::from(keys).right()
}

/// `KeyInput::left` of the gba crate: whether bit 5 is 0.
#[verifier::external_body]
fn key_left(keys: u16) -> (is_down: bool)
    ensures
        is_down == down(keys, 0x0020),
{
    KeyInput::from(keys).left()
}

/// `KeyInput::up` of the gba crate: whether bit 6 is 0.
#[verifier::external_body]
fn key_up(keys: u16) -> (is_down: bool)
    ensures
        is_down == down(keys, 0x0040),
{
    KeyInput::from(keys).up()
}

/// `KeyInput::down` of the gba crate: whether bit 7 is 0.
#[verifier::external_body]
fn key_down(keys: u16) -> (is_down: bool)
    ensures
        is_down == down(keys, 0x0080),
{
    KeyInput::from(keys).down()
}

/// Whether `key` is down in the key set `keys`.
pub fn is_down(keys: u16, key: Key) -> (pressed: bool)
    ensures
        pressed == down(keys, key.mask()),
{
    match key {
        Key::A => key_a(keys),
        Key::Right => key_right(keys),
        Key::Left => key_left(keys),
        Key::Up => key_up(keys),
        Key::Down => key_down(keys),
    }
}

/// The input state of the current frame. It is brought up to date once in
/// each frame, by [`Input::update`].
pub struct Input {
    /// The keys that are down.
    pub held: u16,
    /// The keys that went down with this frame.
    pub new: u16,
    /// The keys that came up with this frame.
    pub released: u16,
    last: u16,
}

/// What an input snapshot holds, each key set as the key register gives it.
pub ghost struct InputModel {
    pub held: u16,
    pub new: u16,
    pub released: u16,
    /// The keys that were down in the frame before.
    pub previous: u16,
}

impl View for Input {
    type V = InputModel;

    closed spec fn view(&self) -> InputModel {
        InputModel {
            held: self.held,
            new: self.new,
            released: self.released,
            previous: self.last,
        }
    }
}

impl Input {
    /// A snapshot with no key down.
    pub fn new() -> (input: Input)
        ensures
            input@ == (InputModel {
                held: 0xFFFFu16,
                new: 0xFFFFu16,
                released: 0xFFFFu16,
                previous: 0xFFFFu16,
            }),
    {
        Input { held: no_keys(), last: no_keys(), new: no_keys(), released: no_keys() }
    }

    /// Takes the key register's value `keys` as the state of this frame. A
    /// key is new where it is down now and was up before, and released
    /// where it is up now and was down before.
    pub fn update(&mut self, keys: u16)
        ensures
            final(self)@ == (InputModel {
                held: keys,
                new: both(keys, inverse(old(self)@.held)),
                released: both(inverse(keys), old(self)@.held),
                previous: old(self)@.held,
            }),
    {
        self.last = self.held;
        self.held = keys;
        self.new = keys_and(self.held, keys_not(self.last));
        self.released = keys_and(keys_not(self.held), self.last);
    }

    /// The keys that are down.
    pub fn held(&self) -> (keys: u16)
        ensures
            keys == self@.held,
    {
        self.held
    }

    /// The keys that went down with this frame.
    pub fn newly_pressed(&self) -> (keys: u16)
        ensures
            keys == self@.new,
    {
        self.new
    }

    /// The keys that came up with this frame.
    pub fn newly_released(&self) -> (keys: u16)
        ensures
            keys == self@.released,
    {
        self.released
    }

    /// The direction that the key set `input` asks for.
    pub fn get_direction4(input: u16) -> (direction: Option<Direction4>)
        ensures
            direction == direction_of(input),
    {
        if key_up(input) {
            Some(Direction4::Up)
        } else if key_right(input) {
            Some(Direction4::Right)
        } else if key_down(input) {
            Some(Direction4::Down)
        } else if key_left(input) {
            Some(Direction4::Left)
        } else {
            None
        }
    }

    pub fn get_held_direction4(&self) -> (direction: Option<Direction4>)
        ensures
            direction == direction_of(self@.held),
    {
        Self::get_direction4(self.held)
    }

    pub fn get_new_direction4(&self) -> (direction: Option<Direction4>)
        ensures
            direction == direction_of(self@.new),
    {
        Self::get_direction4(self.new)
    }

    pub fn get_released_direction4(&self) -> (direction: Option<Direction4>)
        ensures
            direction == direction_of(self@.released),
    {
        Self::get_direction4(self.released)
    }

    /// The horizontal direction that the key set `input` asks for.
    pub fn get_x(input: u16) -> (axis: Option<AxisX>)
        ensures
            axis == axis_x_of(input),
    {
        if key_left(input) {
            Some(AxisX::Left)
        } else if key_right(input) {
            Some(AxisX::Right)
        } else {
            None
        }
    }

    pub fn get_held_x(&self) -> (axis: Option<AxisX>)
        ensures
            axis == axis_x_of(self@.held),
    {
        Self::get_x(self.held)
    }

    pub fn get_new_x(&self) -> (axis: Option<AxisX>)
        ensures
            axis == axis_x_of(self@.new),
    {
        Self::get_x(self.new)
    }

    pub fn get_released_x(&self) -> (axis: Option<AxisX>)
        ensures
            axis == axis_x_of(self@.released),
    {
        Self::get_x(self.released)
    }

    /// The vertical direction that the key set `input` asks for.
    pub fn get_y(input: u16) -> (axis: Option<AxisY>)
        ensures
            axis == axis_y_of(input),
    {
        if key_up(input) {
            Some(AxisY::Up)
        } else if key_down(input) {
            Some(AxisY::Down)
        } else {
            None
        }
    }

    pub fn get_held_y(&self) -> (axis: Option<AxisY>)
        ensures
            axis == axis_y_of(self@.held),
    {
        Self::get_y(self.held)
    }

    pub fn get_new_y(&self) -> (axis: Option<AxisY>)
        ensures
            axis == axis_y_of(self@.new),
    {
        Self::get_y(self.new)
    }

    pub fn get_released_y(&self) -> (axis: Option<AxisY>)
        ensures
            axis == axis_y_of(self@.released),
    {
        Self::get_y(self.released)
    }
}

/// Edge detection. Of a key with the single bit `mask`: it is new exactly
/// where it is down in `held` and up in `last`, and released exactly where
/// it is up in `held` and down in `last`.
pub proof fn lemma_edges(held: u16, last: u16, bit: u16)
    requires
        bit < 16,
    ensures
        down(both(held, inverse(last)), 1u16 << bit) <==> down(held, 1u16 << bit) && !down(
            last,
            1u16 << bit,
        ),
        down(both(inverse(held), last), 1u16 << bit) <==> !down(held, 1u16 << bit) && down(
            last,
            1u16 << bit,
        ),
{
    let mask = 1u16 << bit;
    assert((!(!held & !(!last))) & mask == 0 <==> held & mask == 0 && !(last & mask == 0))
        by (bit_vector)
        requires
            bit < 16,
            mask == 1u16 << bit,
    ;
    assert((!(!(!held) & !last)) & mask == 0 <==> !(held & mask == 0) && last & mask == 0)
        by (bit_vector)
        requires
            bit < 16,
            mask == 1u16 << bit,
    ;
}

} // verus!
