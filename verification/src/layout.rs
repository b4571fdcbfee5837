//! A layout step: a horizontal group that divides its width evenly among a
//! row of widgets, sizing each one and placing them left to right.

use vstd::prelude::*;

verus! {

use crate::widget::{Decrease, Increase, Next, Play, Random};
use vstd::arithmetic::div_mod::lemma_fundamental_div_mod;
use vstd::arithmetic::mul::{lemma_mul_inequality, lemma_mul_is_commutative};

/// A control that a layout step can place and size. The five buttons all
/// implement it over their rectangle.
pub trait Widget: Sized {
    spec fn spec_pos(&self) -> (int, int);

    spec fn spec_size(&self) -> (int, int);

    fn pos(&self) -> (r: (u32, u32))
        ensures
            (r.0 as int, r.1 as int) == self.spec_pos(),
    ;

    fn size(&self) -> (r: (u32, u32))
        ensures
            (r.0 as int, r.1 as int) == self.spec_size(),
    ;

    fn set_pos(&mut self, x: u32, y: u32)
        ensures
            final(self).spec_pos() == (x as int, y as int),
            final(self).spec_size() == old(self).spec_size(),
    ;

    fn set_size(&mut self, width: u32, height: u32)
        ensures
            final(self).spec_size() == (width as int, height as int),
            final(self).spec_pos() == old(self).spec_pos(),
    ;
}

/// A horizontal strip of equally wide slots, one per widget.
pub struct HGroup {
    pub x: u32,
    pub y: u32,
    pub width: u32,
    pub height: u32,
}

impl HGroup {
    /// Sizes every widget to an equal share of the strip's width and the
    /// strip's full height, and places them left to right from the strip's
    /// corner.
    pub fn new<W: Widget>(x: u32, y: u32, width: u32, height: u32, items: &mut Vec<W>) -> (r:
        HGroup)
        requires
            0 < old(items).len(),
            old(items).len() <= u32::MAX,
            x + width <= u32::MAX,
        ensures
            r == (HGroup { x, y, width, height }),
            final(items).len() == old(items).len(),
            forall|i: int|
                0 <= i < old(items).len() ==> (#[trigger] final(items)[i].spec_size()) == (
                (width as int / old(items).len() as int),
                height as int,
            ),
            forall|i: int|
                0 <= i < old(items).len() ==> (#[trigger] final(items)[i].spec_pos()) == (
                x as int + i * (width as int / old(items).len() as int),
                y as int,
            ),
    {
        let count = items.len();
        let item_width: u32 = width / (count as u32);
        proof {
            lemma_slot_bound(width as int, count as int, item_width as int);
        }
        let mut i: usize = 0;
        while i < count
            invariant
                i <= count,
                count == old(items).len(),
                items.len() == count,
                0 < count,
                count <= u32::MAX,
                x + width <= u32::MAX,
                item_width as int == width as int / count as int,
                count as int * item_width as int <= width as int,
                forall|j: int|
                    0 <= j < i as int ==> (#[trigger] items[j].spec_size()) == (
                    item_width as int,
                    height as int,
                ),
                forall|j: int|
                    0 <= j < i as int ==> (#[trigger] items[j].spec_pos()) == (
                    x as int + j * item_width as int,
                    y as int,
                ),
            decreases count - i,
        {
            proof {
                lemma_mul_inequality(i as int, count as int, item_width as int);
                lemma_mul_is_commutative(i as int, item_width as int);
                lemma_mul_is_commutative(count as int, item_width as int);
            }
            let offset: u32 = (i as u32) * item_width;
            items[i].set_size(item_width, height);
            items[i].set_pos(x + offset, y);
            i += 1;
        }
        HGroup { x, y, width, height }
    }
}

/// All the slots together never outgrow the strip.
proof fn lemma_slot_bound(width: int, count: int, item_width: int)
    requires
        0 < count,
        0 <= width,
        item_width == width / count,
    ensures
        count * item_width <= width,
        0 <= item_width,
{
    lemma_fundamental_div_mod(width, count);
    vstd::arithmetic::div_mod::lemma_mod_bound(width, count);
    vstd::arithmetic::div_mod::lemma_div_pos_is_pos(width, count);
}

/// The five buttons place and size through their rectangle; layout touches
/// nothing else about them.
impl Widget for Next {
    open spec fn spec_pos(&self) -> (int, int) {
        (self.rect.x as int, self.rect.y as int)
    }

    open spec fn spec_size(&self) -> (int, int) {
        (self.rect.width as int, self.rect.height as int)
    }

    fn pos(&self) -> (r: (u32, u32)) {
        (self.rect.x, self.rect.y)
    }

    fn size(&self) -> (r: (u32, u32)) {
        (self.rect.width, self.rect.height)
    }

    fn set_pos(&mut self, x: u32, y: u32) {
        self.rect.x = x;
        self.rect.y = y;
    }

    fn set_size(&mut self, width: u32, height: u32) {
        self.rect.width = width;
        self.rect.height = height;
    }
}

impl Widget for Play {
    open spec fn spec_pos(&self) -> (int, int) {
        (self.rect.x as int, self.rect.y as int)
    }

    open spec fn spec_size(&self) -> (int, int) {
        (self.rect.width as int, self.rect.height as int)
    }

    fn pos(&self) -> (r: (u32, u32)) {
        (self.rect.x, self.rect.y)
    }

    fn size(&self) -> (r: (u32, u32)) {
        (self.rect.width, self.rect.height)
    }

    fn set_pos(&mut self, x: u32, y: u32) {
        self.rect.x = x;
        self.rect.y = y;
    }

    fn set_size(&mut self, width: u32, height: u32) {
        self.rect.width = width;
        self.rect.height = height;
    }
}

impl Widget for Random {
    open spec fn spec_pos(&self) -> (int, int) {
        (self.rect.x as int, self.rect.y as int)
    }

    open spec fn spec_size(&self) -> (int, int) {
        (self.rect.width as int, self.rect.height as int)
    }

    fn pos(&self) -> (r: (u32, u32)) {
        (self.rect.x, self.rect.y)
    }

    fn size(&self) -> (r: (u32, u32)) {
        (self.rect.width, self.rect.height)
    }

    fn set_pos(&mut self, x: u32, y: u32) {
        self.rect.x = x;
        self.rect.y = y;
    }

    fn set_size(&mut self, width: u32, height: u32) {
        self.rect.width = width;
        self.rect.height = height;
    }
}

impl Widget for Increase {
    open spec fn spec_pos(&self) -> (int, int) {
        (self.rect.x as int, self.rect.y as int)
    }

    open spec fn spec_size(&self) -> (int, int) {
        (self.rect.width as int, self.rect.height as int)
    }

    fn pos(&self) -> (r: (u32, u32)) {
        (self.rect.x, self.rect.y)
    }

    fn size(&self) -> (r: (u32, u32)) {
        (self.rect.width, self.rect.height)
    }

    fn set_pos(&mut self, x: u32, y: u32) {
        self.rect.x = x;
        self.rect.y = y;
    }

    fn set_size(&mut self, width: u32, height: u32) {
        self.rect.width = width;
        self.rect.height = height;
    }
}

impl Widget for Decrease {
    open spec fn spec_pos(&self) -> (int, int) {
        (self.rect.x as int, self.rect.y as int)
    }

    open spec fn spec_size(&self) -> (int, int) {
        (self.rect.width as int, self.rect.height as int)
    }

    fn pos(&self) -> (r: (u32, u32)) {
        (self.rect.x, self.rect.y)
    }

    fn size(&self) -> (r: (u32, u32)) {
        (self.rect.width, self.rect.height)
    }

    fn set_pos(&mut self, x: u32, y: u32) {
        self.rect.x = x;
        self.rect.y = y;
    }

    fn set_size(&mut self, width: u32, height: u32) {
        self.rect.width = width;
        self.rect.height = height;
    }
}

} // verus!
