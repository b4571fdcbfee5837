//! The per-frame control loop: owns the grid, the five buttons, the speed
//! control and the autoplay clock, routes pointer and button events to each
//! of them in a fixed order, and translates button presses into engine
//! commands. The windowing layer only forwards events and renders state.

use vstd::prelude::*;

verus! {

use crate::clock::{interval_ms, AutoplayClock};
use crate::grid::{same_frame, Grid};
use crate::input::InputButton;
use crate::life::{exactly_live, step_spec};
use crate::speed::{on_ladder, Speed};
use crate::widget::{Decrease, Increase, Next, Play, Random};

/// The engine's whole interactive state, laid out as the original window:
/// a 50-by-50 grid of 10-pixel cells below a row of controls.
pub struct InteractionRouter {
    pub grid: Grid,
    pub next: Next,
    pub play: Play,
    pub random: Random,
    pub increase: Increase,
    pub decrease: Decrease,
    pub speed: Speed,
    pub clock: AutoplayClock,
    pub mouse: (i64, i64),
}

impl InteractionRouter {
    /// The grid and the speed control keep their invariants, and the clock
    /// mirrors the play button's toggle, which stands for "autoplay on".
    pub open spec fn wf(self) -> bool {
        &&& self.grid.wf()
        &&& self.speed.wf()
        &&& self.clock.enabled == self.play.toggle
    }

    /// The initial state: an all-dead grid, no hover anywhere, autoplay
    /// off, speed 4x on the 1x..16x ladder, the interval baseline at `now`.
    pub fn new(now: u64) -> (r: InteractionRouter)
        ensures
            r.wf(),
            r.grid@.columns == 50,
            r.grid@.rows == 50,
            r.grid@.hover is None,
            exactly_live(r.grid@.cells, 50, 50, Set::empty()),
            !r.play.toggle,
            !r.clock.enabled,
            r.clock.last_step == now,
            r.speed.speed == 4,
            r.speed.min == 1,
            r.speed.max == 16,
            r.random.face is Six,
    {
        proof {
            reveal_with_fuel(on_ladder, 6);
        }
        InteractionRouter {
            grid: Grid::new(0, 50, 500, 500, 50, 50),
            next: Next::new(100, 0, 50, 50),
            play: Play::new(150, 0, 50, 50),
            random: Random::new(200, 0, 50, 50),
            decrease: Decrease::new(250, 0, 50, 50),
            speed: Speed::new(300, 0, 50, 50, 4, 1, 16, 30),
            increase: Increase::new(350, 0, 50, 50),
            clock: AutoplayClock::new(now),
            mouse: (0, 0),
        }
    }

    /// A pointer-move event: remembers the position and re-derives every
    /// hover flag from it, the grid's hovered cell included. Nothing else
    /// changes.
    pub fn mouse_cursor(&mut self, px: i64, py: i64)
        requires
            old(self).wf(),
        ensures
            final(self).wf(),
            final(self).mouse == (px, py),
            same_frame(old(self).grid@, final(self).grid@),
            final(self).grid@.cells == old(self).grid@.cells,
            old(self).grid@.contains(px as int, py as int) ==> final(self).grid@.hover == Some(
                old(self).grid@.cell_coord(px as int, py as int),
            ),
            !old(self).grid@.contains(px as int, py as int) ==> final(self).grid@.hover is None,
            final(self).next.rect == old(self).next.rect,
            final(self).next.hover == old(self).next.rect.contains(px as int, py as int),
            final(self).play.rect == old(self).play.rect,
            final(self).play.hover == old(self).play.rect.contains(px as int, py as int),
            final(self).play.toggle == old(self).play.toggle,
            final(self).random.rect == old(self).random.rect,
            final(self).random.hover == old(self).random.rect.contains(px as int, py as int),
            final(self).random.face == old(self).random.face,
            final(self).increase.rect == old(self).increase.rect,
            final(self).increase.hover == old(self).increase.rect.contains(px as int, py as int),
            final(self).decrease.rect == old(self).decrease.rect,
            final(self).decrease.hover == old(self).decrease.rect.contains(px as int, py as int),
            final(self).speed == old(self).speed,
            final(self).clock == old(self).clock,
    {
        self.mouse = (px, py);
        self.grid.update_hover(px, py);
        self.next.mouse_cursor(px, py);
        self.play.mouse_cursor(px, py);
        self.random.mouse_cursor(px, py);
        self.increase.mouse_cursor(px, py);
        self.decrease.mouse_cursor(px, py);
    }

    /// A button-press event, dispatched in the frame's fixed order: first
    /// the grid edits the cell under the remembered pointer position (left
    /// paints, right clears; space steps, R randomizes), then each button
    /// that is hovered by a left click fires its command: step, autoplay
    /// toggle, randomize, speed up, speed down.
    pub fn press(&mut self, button: InputButton, now: u64)
        requires
            old(self).wf(),
        ensures
            final(self).wf(),
            final(self).mouse == old(self).mouse,
            final(self).next.rect == old(self).next.rect,
            final(self).next.hover == old(self).next.hover,
            final(self).play.rect == old(self).play.rect,
            final(self).play.hover == old(self).play.hover,
            final(self).random.rect == old(self).random.rect,
            final(self).random.hover == old(self).random.hover,
            final(self).increase.rect == old(self).increase.rect,
            final(self).increase.hover == old(self).increase.hover,
            final(self).decrease.rect == old(self).decrease.rect,
            final(self).decrease.hover == old(self).decrease.hover,
            // The play toggle flips exactly on a hovered left click, and the
            // clock's enabled flag follows it; the interval baseline resets
            // exactly on the off-to-on transition.
            final(self).play.toggle == (if button == InputButton::MouseLeft
                && old(self).play.hover {
                !old(self).play.toggle
            } else {
                old(self).play.toggle
            }),
            final(self).clock.enabled == final(self).play.toggle,
            final(self).clock.last_step == (if button == InputButton::MouseLeft
                && old(self).play.hover && !old(self).play.toggle {
                now
            } else {
                old(self).clock.last_step
            }),
            // The die face re-rolls to a different face exactly on a hovered
            // left click.
            (button == InputButton::MouseLeft && old(self).random.hover) ==> final(self).random.face != old(self).random.face,
            !(button == InputButton::MouseLeft && old(self).random.hover) ==> final(self).random.face == old(self).random.face,
            // The speed doubles or halves within its bounds on a hovered
            // left click of the matching button.
            final(self).speed.min == old(self).speed.min,
            final(self).speed.max == old(self).speed.max,
            (button == InputButton::MouseLeft && old(self).increase.hover && !old(self).decrease.hover) ==> final(self).speed.speed as int == (if old(self).speed.speed < old(self).speed.max {
                2 * old(self).speed.speed
            } else {
                old(self).speed.speed as int
            }),
            (button == InputButton::MouseLeft && !old(self).increase.hover && old(self).decrease.hover) ==> final(self).speed.speed as int == (if old(self).speed.speed > old(self).speed.min {
                old(self).speed.speed as int / 2
            } else {
                old(self).speed.speed as int
            }),
            !(button == InputButton::MouseLeft && (old(self).increase.hover || old(self).decrease.hover)) ==> final(self).speed.speed == old(self).speed.speed,
            // The grid: placement and hover are untouched; the cells change
            // as the pressed command says.
            same_frame(old(self).grid@, final(self).grid@),
            final(self).grid@.hover == old(self).grid@.hover,
            button == InputButton::KeySpace ==> final(self).grid@.cells == step_spec(
                old(self).grid@.cells,
                old(self).grid@.columns,
                old(self).grid@.rows,
            ),
            button == InputButton::KeyR ==> final(self).grid@.cells.len() == old(self).grid@.cells.len(),
            button == InputButton::MouseRight ==> final(self).grid@.cells == old(self).grid@.edited(old(self).mouse.0 as int, old(self).mouse.1 as int, false),
            button == InputButton::Other ==> final(self).grid@.cells == old(self).grid@.cells,
            (button == InputButton::MouseLeft && old(self).random.hover) ==> final(self).grid@.cells.len() == old(self).grid@.cells.len(),
            (button == InputButton::MouseLeft && !old(self).random.hover && old(self).next.hover) ==> final(self).grid@.cells == step_spec(
                old(self).grid@.edited(old(self).mouse.0 as int, old(self).mouse.1 as int, true),
                old(self).grid@.columns,
                old(self).grid@.rows,
            ),
            (button == InputButton::MouseLeft && !old(self).random.hover && !old(self).next.hover) ==> final(self).grid@.cells == old(self).grid@.edited(
                old(self).mouse.0 as int,
                old(self).mouse.1 as int,
                true,
            ),
    {
        let (mx, my) = self.mouse;
        self.grid.press(button, mx, my);
        if self.next.is_pressed(&button) {
            self.grid.step();
        }
        if self.play.is_pressed(&button) {
            let enabled = self.play.toggle;
            self.clock.set_enabled(enabled, now);
        }
        if self.random.is_pressed(&button) {
            self.grid.randomize();
        }
        if self.increase.is_pressed(&button) {
            self.speed.increase();
        }
        if self.decrease.is_pressed(&button) {
            self.speed.decrease();
        }
    }

    /// A frame tick: asks the clock whether a generation is due and, when
    /// it is, steps the grid once. Returns whether it stepped.
    pub fn tick(&mut self, now: u64) -> (stepped: bool)
        requires
            old(self).wf(),
            now >= old(self).clock.last_step,
        ensures
            final(self).wf(),
            stepped == (old(self).clock.enabled && now - old(self).clock.last_step >= interval_ms(
                old(self).speed.speed as int,
            )),
            same_frame(old(self).grid@, final(self).grid@),
            final(self).grid@.hover == old(self).grid@.hover,
            stepped ==> final(self).grid@.cells == step_spec(
                old(self).grid@.cells,
                old(self).grid@.columns,
                old(self).grid@.rows,
            ),
            stepped ==> final(self).clock.last_step == now,
            !stepped ==> final(self).grid@.cells == old(self).grid@.cells,
            !stepped ==> final(self).clock.last_step == old(self).clock.last_step,
            final(self).clock.enabled == old(self).clock.enabled,
            final(self).next == old(self).next,
            final(self).play == old(self).play,
            final(self).random == old(self).random,
            final(self).increase == old(self).increase,
            final(self).decrease == old(self).decrease,
            final(self).speed == old(self).speed,
            final(self).mouse == old(self).mouse,
    {
        let stepped = self.clock.maybe_step(now, &self.speed);
        if stepped {
            self.grid.step();
        }
        stepped
    }
}

} // verus!
