//! The interactive controls: five buttons, each a rectangle with a hover
//! flag and, where the control carries state, a toggle or a die face. A
//! press only counts while the pointer hovers the rectangle; hover itself is
//! recomputed exactly once per pointer-move event.

use vstd::prelude::*;

verus! {

use crate::input::InputButton;
use crate::rng::random_u8_in;

/// An axis-aligned screen rectangle in pixel coordinates.
#[derive(Clone, Copy, Debug, PartialEq, Eq, Structural)]
pub struct Rect {
    pub x: u32,
    pub y: u32,
    pub width: u32,
    pub height: u32,
}

impl Rect {
    /// Strict point-in-rectangle containment, the hover test every control
    /// uses.
    pub open spec fn contains(self, px: int, py: int) -> bool {
        &&& px > self.x as int
        &&& px < self.x as int + self.width as int
        &&& py > self.y as int
        &&& py < self.y as int + self.height as int
    }

    pub fn contains_point(&self, px: i64, py: i64) -> (r: bool)
        ensures
            r == self.contains(px as int, py as int),
    {
        px > self.x as i64 && px < self.x as i64 + self.width as i64 && py > self.y as i64 && py
            < self.y as i64 + self.height as i64
    }
}

/// The six faces of the die shown on the randomize button; purely
/// decorative animation state.
#[derive(Clone, Copy, Debug, PartialEq, Eq, Structural)]
pub enum Dice {
    One,
    Two,
    Three,
    Four,
    Five,
    Six,
}

/// The position of a face in the conventional 1..=6 numbering.
pub open spec fn spec_face_index(d: Dice) -> int {
    match d {
        Dice::One => 1,
        Dice::Two => 2,
        Dice::Three => 3,
        Dice::Four => 4,
        Dice::Five => 5,
        Dice::Six => 6,
    }
}

pub fn face_index(d: Dice) -> (i: u8)
    ensures
        i == spec_face_index(d),
{
    match d {
        Dice::One => 1,
        Dice::Two => 2,
        Dice::Three => 3,
        Dice::Four => 4,
        Dice::Five => 5,
        Dice::Six => 6,
    }
}

pub fn face_from_index(i: u8) -> (d: Dice)
    requires
        1 <= i <= 6,
    ensures
        spec_face_index(d) == i,
{
    match i {
        1 => Dice::One,
        2 => Dice::Two,
        3 => Dice::Three,
        4 => Dice::Four,
        5 => Dice::Five,
        _ => Dice::Six,
    }
}

/// What every button offers the event loop: construction at a rectangle,
/// the hover update on pointer moves, and the press test. A press counts
/// exactly when the left mouse button goes down while the pointer hovers
/// the rectangle; what else a press does is each button's own affair, but
/// it never moves the rectangle or the hover flag. Rendering stays with
/// the windowing layer.
pub trait Btn: Sized {
    spec fn btn_rect(&self) -> Rect;

    spec fn btn_hover(&self) -> bool;

    fn new(x: u32, y: u32, width: u32, height: u32) -> (r: Self)
        ensures
            r.btn_rect() == (Rect { x, y, width, height }),
            !r.btn_hover(),
    ;

    fn mouse_cursor(&mut self, px: i64, py: i64)
        ensures
            final(self).btn_rect() == old(self).btn_rect(),
            final(self).btn_hover() == old(self).btn_rect().contains(px as int, py as int),
    ;

    fn is_pressed(&mut self, button: &InputButton) -> (r: bool)
        ensures
            r == (*button == InputButton::MouseLeft && old(self).btn_hover()),
            final(self).btn_rect() == old(self).btn_rect(),
            final(self).btn_hover() == old(self).btn_hover(),
    ;
}

/// The single-step button: stateless besides hover.
pub struct Next {
    pub rect: Rect,
    pub hover: bool,
}

impl Next {
    pub fn new(x: u32, y: u32, width: u32, height: u32) -> (r: Next)
        ensures
            r.rect == (Rect { x, y, width, height }),
            !r.hover,
    {
        Next { rect: Rect { x, y, width, height }, hover: false }
    }

    pub fn mouse_cursor(&mut self, px: i64, py: i64)
        ensures
            final(self).rect == old(self).rect,
            final(self).hover == old(self).rect.contains(px as int, py as int),
    {
        self.hover = self.rect.contains_point(px, py);
    }

    pub fn is_pressed(&mut self, button: &InputButton) -> (r: bool)
        ensures
            r == (*button == InputButton::MouseLeft && old(self).hover),
            *final(self) == *old(self),
    {
        *button == InputButton::MouseLeft && self.hover
    }
}

/// The play/pause button: its toggle flips on every qualifying press and
/// stands for "autoplay enabled".
pub struct Play {
    pub rect: Rect,
    pub hover: bool,
    pub toggle: bool,
}

impl Play {
    pub fn new(x: u32, y: u32, width: u32, height: u32) -> (r: Play)
        ensures
            r.rect == (Rect { x, y, width, height }),
            !r.hover,
            !r.toggle,
    {
        Play { rect: Rect { x, y, width, height }, hover: false, toggle: false }
    }

    pub fn mouse_cursor(&mut self, px: i64, py: i64)
        ensures
            final(self).rect == old(self).rect,
            final(self).hover == old(self).rect.contains(px as int, py as int),
            final(self).toggle == old(self).toggle,
    {
        self.hover = self.rect.contains_point(px, py);
    }

    pub fn is_pressed(&mut self, button: &InputButton) -> (r: bool)
        ensures
            r == (*button == InputButton::MouseLeft && old(self).hover),
            final(self).rect == old(self).rect,
            final(self).hover == old(self).hover,
            final(self).toggle == (if r {
                !old(self).toggle
            } else {
                old(self).toggle
            }),
    {
        if *button == InputButton::MouseLeft && self.hover {
            self.toggle = !self.toggle;
            true
        } else {
            false
        }
    }
}

/// The randomize button: a qualifying press rolls its die face to one of
/// the five other faces, never the one already shown.
pub struct Random {
    pub rect: Rect,
    pub hover: bool,
    pub face: Dice,
}

impl Random {
    pub fn new(x: u32, y: u32, width: u32, height: u32) -> (r: Random)
        ensures
            r.rect == (Rect { x, y, width, height }),
            !r.hover,
            r.face == Dice::Six,
    {
        Random { rect: Rect { x, y, width, height }, hover: false, face: Dice::Six }
    }

    pub fn mouse_cursor(&mut self, px: i64, py: i64)
        ensures
            final(self).rect == old(self).rect,
            final(self).hover == old(self).rect.contains(px as int, py as int),
            final(self).face == old(self).face,
    {
        self.hover = self.rect.contains_point(px, py);
    }

    pub fn is_pressed(&mut self, button: &InputButton) -> (r: bool)
        ensures
            r == (*button == InputButton::MouseLeft && old(self).hover),
            final(self).rect == old(self).rect,
            final(self).hover == old(self).hover,
            r ==> final(self).face != old(self).face,
            !r ==> final(self).face == old(self).face,
    {
        if *button == InputButton::MouseLeft && self.hover {
            let cur = face_index(self.face);
            // A draw over the five other faces: rolls at or above the
            // current face shift up by one, so the result skips it.
            let roll = random_u8_in(1, 5);
            let idx = if roll >= cur {
                roll + 1
            } else {
                roll
            };
            self.face = face_from_index(idx);
            true
        } else {
            false
        }
    }
}

/// The speed-up button: stateless besides hover.
pub struct Increase {
    pub rect: Rect,
    pub hover: bool,
}

impl Increase {
    pub fn new(x: u32, y: u32, width: u32, height: u32) -> (r: Increase)
        ensures
            r.rect == (Rect { x, y, width, height }),
            !r.hover,
    {
        Increase { rect: Rect { x, y, width, height }, hover: false }
    }

    pub fn mouse_cursor(&mut self, px: i64, py: i64)
        ensures
            final(self).rect == old(self).rect,
            final(self).hover == old(self).rect.contains(px as int, py as int),
    {
        self.hover = self.rect.contains_point(px, py);
    }

    pub fn is_pressed(&mut self, button: &InputButton) -> (r: bool)
        ensures
            r == (*button == InputButton::MouseLeft && old(self).hover),
            *final(self) == *old(self),
    {
        *button == InputButton::MouseLeft && self.hover
    }
}

/// The slow-down button: stateless besides hover.
pub struct Decrease {
    pub rect: Rect,
    pub hover: bool,
}

impl Decrease {
    pub fn new(x: u32, y: u32, width: u32, height: u32) -> (r: Decrease)
        ensures
            r.rect == (Rect { x, y, width, height }),
            !r.hover,
    {
        Decrease { rect: Rect { x, y, width, height }, hover: false }
    }

    pub fn mouse_cursor(&mut self, px: i64, py: i64)
        ensures
            final(self).rect == old(self).rect,
            final(self).hover == old(self).rect.contains(px as int, py as int),
    {
        self.hover = self.rect.contains_point(px, py);
    }

    pub fn is_pressed(&mut self, button: &InputButton) -> (r: bool)
        ensures
            r == (*button == InputButton::MouseLeft && old(self).hover),
            *final(self) == *old(self),
    {
        *button == InputButton::MouseLeft && self.hover
    }
}

impl Btn for Next {
    open spec fn btn_rect(&self) -> Rect {
        self.rect
    }

    open spec fn btn_hover(&self) -> bool {
        self.hover
    }

    fn new(x: u32, y: u32, width: u32, height: u32) -> (r: Self) {
        Next::new(x, y, width, height)
    }

    fn mouse_cursor(&mut self, px: i64, py: i64) {
        Next::mouse_cursor(self, px, py);
    }

    fn is_pressed(&mut self, button: &InputButton) -> (r: bool) {
        Next::is_pressed(self, button)
    }
}

impl Btn for Play {
    open spec fn btn_rect(&self) -> Rect {
        self.rect
    }

    open spec fn btn_hover(&self) -> bool {
        self.hover
    }

    fn new(x: u32, y: u32, width: u32, height: u32) -> (r: Self) {
        Play::new(x, y, width, height)
    }

    fn mouse_cursor(&mut self, px: i64, py: i64) {
        Play::mouse_cursor(self, px, py);
    }

    fn is_pressed(&mut self, button: &InputButton) -> (r: bool) {
        Play::is_pressed(self, button)
    }
}

impl Btn for Random {
    open spec fn btn_rect(&self) -> Rect {
        self.rect
    }

    open spec fn btn_hover(&self) -> bool {
        self.hover
    }

    fn new(x: u32, y: u32, width: u32, height: u32) -> (r: Self) {
        Random::new(x, y, width, height)
    }

    fn mouse_cursor(&mut self, px: i64, py: i64) {
        Random::mouse_cursor(self, px, py);
    }

    fn is_pressed(&mut self, button: &InputButton) -> (r: bool) {
        Random::is_pressed(self, button)
    }
}

impl Btn for Increase {
    open spec fn btn_rect(&self) -> Rect {
        self.rect
    }

    open spec fn btn_hover(&self) -> bool {
        self.hover
    }

    fn new(x: u32, y: u32, width: u32, height: u32) -> (r: Self) {
        Increase::new(x, y, width, height)
    }

    fn mouse_cursor(&mut self, px: i64, py: i64) {
        Increase::mouse_cursor(self, px, py);
    }

    fn is_pressed(&mut self, button: &InputButton) -> (r: bool) {
        Increase::is_pressed(self, button)
    }
}

impl Btn for Decrease {
    open spec fn btn_rect(&self) -> Rect {
        self.rect
    }

    open spec fn btn_hover(&self) -> bool {
        self.hover
    }

    fn new(x: u32, y: u32, width: u32, height: u32) -> (r: Self) {
        Decrease::new(x, y, width, height)
    }

    fn mouse_cursor(&mut self, px: i64, py: i64) {
        Decrease::mouse_cursor(self, px, py);
    }

    fn is_pressed(&mut self, button: &InputButton) -> (r: bool) {
        Decrease::is_pressed(self, button)
    }
}

} // verus!
