//! The decisions of the main loop: a button press moves to the next shape,
//! the LED blinks the shape's number, and a heartbeat toggles the LED.
//!
//! One call of [`Control::step`] is one pass of the loop: it takes the level
//! read from the button and says what the loop has to do.

use vstd::prelude::*;

use crate::shapes::{spec_index, spec_next, Shape};

verus! {

/// Loop passes between two heartbeat toggles of the LED.
pub const HEARTBEAT_PASSES: u32 = 16;

/// The state that the main loop carries from one pass to the next.
#[derive(Clone, Copy, Debug, PartialEq, Eq, Structural)]
pub struct Control {
    /// The shape being drawn.
    pub shape: Shape,
    /// Whether the button was down on the previous pass.
    pub last_pressed: bool,
    /// Heartbeat pass counter.
    pub hb: u32,
    /// Whether the heartbeat last switched the LED on.
    pub led_on: bool,
}

/// What one pass of the loop has to do.
#[derive(Clone, Copy, Debug, PartialEq, Eq, Structural)]
pub struct Action {
    /// The shape to redraw (timer paused, table refilled, timer restarted,
    /// number blinked, debounce wait), if the button was just pressed.
    pub redraw: Option<Shape>,
    /// How many times to blink the LED: the new shape's 1-based number, or 0.
    pub blinks: usize,
    /// The level to drive the LED to, if the heartbeat toggles it.
    pub led: Option<bool>,
}

/// The state after one pass with the button at level `pressed`.
pub open spec fn spec_step(c: Control, pressed: bool) -> Control {
    let edge = pressed && !c.last_pressed;
    let shape = if edge { spec_next(c.shape) } else { c.shape };
    let led0 = if edge { false } else { c.led_on };
    let hb = ((c.hb as int + 1) % 0x1_0000_0000) as u32;
    let led = if hb % 16 == 0 { !led0 } else { led0 };
    Control { shape, last_pressed: pressed, hb, led_on: led }
}

/// What one pass with the button at level `pressed` has to do.
pub open spec fn spec_action(c: Control, pressed: bool) -> Action {
    let edge = pressed && !c.last_pressed;
    let n = spec_step(c, pressed);
    Action {
        redraw: if edge { Some(n.shape) } else { None },
        blinks: if edge { (spec_index(n.shape) + 1) as usize } else { 0 },
        led: if n.hb % 16 == 0 { Some(n.led_on) } else { None },
    }
}

impl Control {
    /// The state at start-up, drawing `shape`.
    pub fn new(shape: Shape) -> (c: Control)
        ensures
            c == (Control { shape, last_pressed: false, hb: 0, led_on: false }),
    {
        Control { shape, last_pressed: false, hb: 0, led_on: false }
    }

    /// How many times the LED blinks to announce the current shape: its
    /// 1-based number in the cycling order.
    pub fn blinks(&self) -> (n: usize)
        ensures
            n == spec_index(self.shape) + 1,
            1 <= n <= 8,
    {
        self.shape.index() + 1
    }

    /// One pass of the loop with the button read at level `pressed`.
    pub fn step(&mut self, pressed: bool) -> (a: Action)
        ensures
            *final(self) == spec_step(*old(self), pressed),
            a == spec_action(*old(self), pressed),
            final(self).last_pressed == pressed,
            final(self).hb as int == (old(self).hb as int + 1) % 0x1_0000_0000,
            pressed && !old(self).last_pressed ==> {
                &&& spec_index(final(self).shape) == (spec_index(old(self).shape) + 1) % 8
                &&& a.redraw == Some(final(self).shape)
                &&& a.blinks == spec_index(final(self).shape) + 1
                &&& 1 <= a.blinks <= 8
            },
            !(pressed && !old(self).last_pressed) ==> {
                &&& final(self).shape == old(self).shape
                &&& a.redraw is None
                &&& a.blinks == 0
            },
            a.led is Some <==> final(self).hb % 16 == 0,
            a.led is Some ==> a.led == Some(final(self).led_on),
            final(self).hb % 16 != 0 ==> final(self).led_on == (!(pressed
                && !old(self).last_pressed) && old(self).led_on),
            final(self).hb % 16 == 0 ==> final(self).led_on == ((pressed
                && !old(self).last_pressed) || !old(self).led_on),
    {
        let mut redraw: Option<Shape> = None;
        let mut blinks: usize = 0;
        if pressed && !self.last_pressed {
            self.shape = self.shape.next();
            redraw = Some(self.shape);
            blinks = self.shape.index() + 1;
            self.led_on = false;
        }
        self.last_pressed = pressed;
        self.hb = self.hb.wrapping_add(1);
        let mut led: Option<bool> = None;
        if self.hb % HEARTBEAT_PASSES == 0 {
            self.led_on = !self.led_on;
            led = Some(self.led_on);
        }
        Action { redraw, blinks, led }
    }
}

/// What one pass does, stated from the button level and the old state: the
/// button state is remembered, the pass counter advances by one (wrapping),
/// a press (up to down) moves one place on in the cycling order, asks for a
/// redraw of the new shape and for as many blinks as its 1-based number, and
/// switches the heartbeat level off; on a sixteenth pass the heartbeat level
/// flips and the LED is driven to it, otherwise the LED is left alone.
pub proof fn lemma_step_effects(c: Control, pressed: bool)
    ensures
        ({
            let n = spec_step(c, pressed);
            let a = spec_action(c, pressed);
            let press = pressed && !c.last_pressed;
            &&& n.last_pressed == pressed
            &&& n.hb as int == (c.hb as int + 1) % 0x1_0000_0000
            &&& press ==> spec_index(n.shape) == (spec_index(c.shape) + 1) % 8
            &&& press ==> a.redraw == Some(n.shape)
            &&& press ==> a.blinks == spec_index(n.shape) + 1 && 1 <= a.blinks <= 8
            &&& !press ==> n.shape == c.shape && a.redraw is None && a.blinks == 0
            &&& (a.led is Some <==> n.hb % 16 == 0)
            &&& a.led is Some ==> a.led == Some(n.led_on)
            &&& press && n.hb % 16 != 0 ==> !n.led_on
            &&& !press && n.hb % 16 != 0 ==> n.led_on == c.led_on
            &&& press && n.hb % 16 == 0 ==> n.led_on
            &&& !press && n.hb % 16 == 0 ==> n.led_on == !c.led_on
        }),
{
}

/// A press blinks the number of the shape it moves to, which is the shape's
/// 1-based position in `ALL`: one more than the old shape's number, and one
/// again after the last shape.
pub proof fn lemma_press_blinks_new_number(c: Control)
    requires
        !c.last_pressed,
    ensures
        spec_action(c, true).blinks == spec_index(spec_next(c.shape)) + 1,
        spec_action(c, true).blinks == if spec_index(c.shape) == 7 {
            1
        } else {
            spec_index(c.shape) + 2
        },
        spec_action(c, true).redraw == Some(spec_next(c.shape)),
{
}

/// Holding the button down counts as one press: on the pass after the one
/// that saw it go down, the shape stays and nothing is redrawn.
pub proof fn lemma_hold_is_one_press(c: Control)
    ensures
        spec_step(spec_step(c, true), true).shape == spec_step(c, true).shape,
        spec_action(spec_step(c, true), true).redraw is None,
{
}

/// The shape changes exactly on a pass where the button goes from up to down,
/// and then it becomes the next one in the cycling order.
pub proof fn lemma_press_edge(c: Control, pressed: bool)
    ensures
        (pressed && !c.last_pressed) ==> spec_step(c, pressed).shape == spec_next(c.shape),
        !(pressed && !c.last_pressed) ==> spec_step(c, pressed).shape == c.shape,
        spec_action(c, pressed).redraw is Some <==> (pressed && !c.last_pressed),
{
}

/// The LED is driven by the heartbeat exactly on every sixteenth pass, and
/// each time to the opposite of its previous heartbeat level (after a press,
/// to on).
pub proof fn lemma_heartbeat(c: Control, pressed: bool)
    ensures
        spec_action(c, pressed).led is Some <==> spec_step(c, pressed).hb % 16 == 0,
        spec_step(c, pressed).hb % 16 == 0 && !(pressed && !c.last_pressed) ==> spec_action(
            c,
            pressed,
        ).led == Some(!c.led_on),
        spec_step(c, pressed).hb % 16 == 0 && (pressed && !c.last_pressed) ==> spec_action(
            c,
            pressed,
        ).led == Some(true),
{
}

} // verus!
