//! Touch and gamepad input: the game's input actions, joystick direction
//! decoding and the finger-to-player assignment.
use vstd::prelude::*;
use std::collections::HashMap;
use crate::health::Color;

verus! {

broadcast use vstd::std_specs::hash::group_hash_axioms;

/// A logical input action.
#[derive(Debug, Clone, Copy, PartialEq, Eq, Hash, Structural)]
pub enum GameInput {
    MoveLeft,
    MoveRight,
    MoveUp,
    MoveDown,
    Jump,
    Interact,
    Confirm,
    Back,
    Pause,
}

/// Where a joystick axis sits relative to the dead zone (|v| <= 0.3).
#[derive(Debug, Clone, Copy, PartialEq, Eq, Structural)]
pub enum AxisDir {
    Negative,
    Neutral,
    Positive,
}

/// The movement inputs of a joystick position: left or right from the x
/// axis, then up or down from the y axis.
pub open spec fn spec_axis_inputs(x: AxisDir, y: AxisDir) -> Seq<GameInput> {
    let h = match x {
        AxisDir::Negative => seq![GameInput::MoveLeft],
        AxisDir::Positive => seq![GameInput::MoveRight],
        AxisDir::Neutral => Seq::<GameInput>::empty(),
    };
    let v = match y {
        AxisDir::Negative => seq![GameInput::MoveUp],
        AxisDir::Positive => seq![GameInput::MoveDown],
        AxisDir::Neutral => Seq::<GameInput>::empty(),
    };
    h + v
}

/// Convert a joystick position, given per axis, to a list of movement inputs.
pub fn axis_inputs(x: AxisDir, y: AxisDir) -> (r: Vec<GameInput>)
    ensures
        r@ == spec_axis_inputs(x, y),
{
    let mut inputs: Vec<GameInput> = Vec::new();
    match x {
        AxisDir::Negative => inputs.push(GameInput::MoveLeft),
        AxisDir::Positive => inputs.push(GameInput::MoveRight),
        AxisDir::Neutral => {},
    }
    match y {
        AxisDir::Negative => inputs.push(GameInput::MoveUp),
        AxisDir::Positive => inputs.push(GameInput::MoveDown),
        AxisDir::Neutral => {},
    }
    assert(inputs@ =~= spec_axis_inputs(x, y));
    inputs
}

/// Tracks which player each touch finger belongs to. Finger ids are
/// arbitrary and reusable, so the mapping is kept from the touch-down on.
pub struct FingerTracker {
    /// Finger id -> player number (1 or 2).
    pub fingers: HashMap<i64, u8>,
}

impl FingerTracker {
    pub fn new() -> (r: Self)
        ensures
            r.fingers@ == Map::<i64, u8>::empty(),
    {
        FingerTracker { fingers: HashMap::new() }
    }

    /// Assign `finger_id` to player 1 when the touch is on the left half of
    /// the screen, else to player 2, and return that player.
    pub fn get_player(&mut self, finger_id: i64, on_left_half: bool) -> (p: u8)
        ensures
            p == if on_left_half {
                1u8
            } else {
                2u8
            },
            final(self).fingers@ == old(self).fingers@.insert(finger_id, p),
    {
        let player: u8 = if on_left_half {
            1
        } else {
            2
        };
        self.fingers.insert(finger_id, player);
        player
    }

    /// The player a tracked finger belongs to.
    pub fn player_of(&self, finger_id: i64) -> (p: Option<u8>)
        ensures
            p == if self.fingers@.contains_key(finger_id) {
                Some(self.fingers@[finger_id])
            } else {
                None::<u8>
            },
    {
        match self.fingers.get(&finger_id) {
            Some(p) => Some(*p),
            None => None,
        }
    }

    /// Remove a finger and return its player, or None if not tracked.
    pub fn release(&mut self, finger_id: i64) -> (p: Option<u8>)
        ensures
            final(self).fingers@ == old(self).fingers@.remove(finger_id),
            p == if old(self).fingers@.contains_key(finger_id) {
                Some(old(self).fingers@[finger_id])
            } else {
                None::<u8>
            },
    {
        self.fingers.remove(&finger_id)
    }
}

/// Longest press, in microseconds, that still counts as a tap.
pub const MAX_TAP_DURATION_US: u32 = 200_000;

/// A press that began at `start_us` and ended at `end_us` was short enough
/// to be a tap (a clock that went backwards counts as no time).
pub fn quick_enough(start_us: u32, end_us: u32) -> (r: bool)
    ensures
        r == (if end_us >= start_us { end_us - start_us } else { 0 } <= MAX_TAP_DURATION_US),
{
    end_us.saturating_sub(start_us) <= MAX_TAP_DURATION_US
}

/// A rectangle on screen.
#[derive(Debug, Clone, Copy, PartialEq, Eq, Structural)]
pub struct ScreenRect {
    pub x: i32,
    pub y: i32,
    pub w: u32,
    pub h: u32,
}

/// The gamepad colours.
pub open spec fn pad_inactive() -> Color {
    Color { r: 80, g: 80, b: 80, a: 160 }
}

pub open spec fn pad_active() -> Color {
    Color { r: 255, g: 200, b: 50, a: 220 }
}

pub open spec fn pad_backdrop() -> Color {
    Color { r: 40, g: 40, b: 40, a: 180 }
}

/// The lit or unlit colour of a pad part.
pub open spec fn lit(on: bool) -> Color {
    if on {
        pad_active()
    } else {
        pad_inactive()
    }
}

/// Top of the gamepad overlay: the bottom 200 pixels of the screen.
pub open spec fn pad_top(screen_h: int) -> int {
    if screen_h - 200 > 0 {
        screen_h - 200
    } else {
        0
    }
}

/// The virtual gamepad, as the filled rectangles drawn in order: the
/// backdrop bar, the d-pad (centre, up, down, left, right) on the left, and
/// the action button (a square and four horizontal strips) on the right.
/// The d-pad arms light for the held directions, the button when pressed.
pub open spec fn gamepad_layout(
    screen_w: int,
    screen_h: int,
    left: bool,
    right: bool,
    up: bool,
    down: bool,
    button: bool,
) -> Seq<(ScreenRect, Color)> {
    let top = pad_top(screen_h);
    let dy = top + 51;
    let bx = screen_w - 100;
    let by = top + 100;
    let b = lit(button);
    seq![
        (ScreenRect { x: 0, y: top as i32, w: screen_w as u32, h: 200 }, pad_backdrop()),
        (ScreenRect { x: 84, y: (dy + 24) as i32, w: 50, h: 50 }, pad_inactive()),
        (ScreenRect { x: 84, y: dy as i32, w: 50, h: 24 }, lit(up)),
        (ScreenRect { x: 84, y: (dy + 74) as i32, w: 50, h: 24 }, lit(down)),
        (ScreenRect { x: 60, y: (dy + 24) as i32, w: 24, h: 50 }, lit(left)),
        (ScreenRect { x: 134, y: (dy + 24) as i32, w: 24, h: 50 }, lit(right)),
        (ScreenRect { x: (bx - 12) as i32, y: (by - 12) as i32, w: 25, h: 25 }, b),
        (ScreenRect { x: (bx - 31) as i32, y: (by - 3) as i32, w: 38, h: 6 }, b),
        (ScreenRect { x: (bx - 25) as i32, y: (by - 3) as i32, w: 50, h: 6 }, b),
        (ScreenRect { x: (bx - 19) as i32, y: (by - 3) as i32, w: 38, h: 6 }, b),
        (ScreenRect { x: (bx - 13) as i32, y: (by - 3) as i32, w: 26, h: 6 }, b),
    ]
}

fn lit_color(on: bool) -> (c: Color)
    ensures
        c == lit(on),
{
    if on {
        Color { r: 255, g: 200, b: 50, a: 220 }
    } else {
        Color { r: 80, g: 80, b: 80, a: 160 }
    }
}

/// The virtual gamepad overlay (see `gamepad_layout`).
pub fn gamepad_rects(
    screen_w: u32,
    screen_h: u32,
    left: bool,
    right: bool,
    up: bool,
    down: bool,
    button: bool,
) -> (r: Vec<(ScreenRect, Color)>)
    requires
        screen_w <= i32::MAX,
        screen_h <= i32::MAX,
    ensures
        r@ == gamepad_layout(screen_w as int, screen_h as int, left, right, up, down, button),
{
    let top: i32 = if screen_h as i32 - 200 > 0 { screen_h as i32 - 200 } else { 0 };
    let dpad_arm: i32 = 24;
    let dpad_center: i32 = 50;
    let dpad_total = dpad_arm * 2 + dpad_center;
    let dpad_x: i32 = 60;
    let dpad_y = top + (200 - dpad_total) / 2;
    let btn_radius: i32 = 25;
    let btn_x = screen_w as i32 - 100;
    let btn_y = top + 100;
    let inactive = Color { r: 80, g: 80, b: 80, a: 160 };
    let b = lit_color(button);
    let mut out: Vec<(ScreenRect, Color)> = Vec::new();
    out.push((ScreenRect { x: 0, y: top, w: screen_w, h: 200 }, Color { r: 40, g: 40, b: 40, a: 180 }));
    out.push(
        (
            ScreenRect {
                x: dpad_x + dpad_arm,
                y: dpad_y + dpad_arm,
                w: dpad_center as u32,
                h: dpad_center as u32,
            },
            inactive,
        ),
    );
    out.push(
        (
            ScreenRect { x: dpad_x + dpad_arm, y: dpad_y, w: dpad_center as u32, h: dpad_arm as u32 },
            lit_color(up),
        ),
    );
    out.push(
        (
            ScreenRect {
                x: dpad_x + dpad_arm,
                y: dpad_y + dpad_arm + dpad_center,
                w: dpad_center as u32,
                h: dpad_arm as u32,
            },
            lit_color(down),
        ),
    );
    out.push(
        (
            ScreenRect { x: dpad_x, y: dpad_y + dpad_arm, w: dpad_arm as u32, h: dpad_center as u32 },
            lit_color(left),
        ),
    );
    out.push(
        (
            ScreenRect {
                x: dpad_x + dpad_arm + dpad_center,
                y: dpad_y + dpad_arm,
                w: dpad_arm as u32,
                h: dpad_center as u32,
            },
            lit_color(right),
        ),
    );
    out.push(
        (
            ScreenRect {
                x: btn_x - btn_radius / 2,
                y: btn_y - btn_radius / 2,
                w: btn_radius as u32,
                h: btn_radius as u32,
            },
            b,
        ),
    );
    let strip_size: i32 = 6;
    let mut i: i32 = 0;
    while i < 4
        invariant
            0 <= i <= 4,
            top == pad_top(screen_h as int),
            btn_x == screen_w - 100,
            btn_y == top + 100,
            btn_radius == 25,
            strip_size == 6,
            b == lit(button),
            screen_w <= i32::MAX,
            screen_h <= i32::MAX,
            out@.len() == 7 + i,
            forall|k: int| 0 <= k < out@.len() ==> #[trigger] out@[k] == gamepad_layout(
                screen_w as int,
                screen_h as int,
                left,
                right,
                up,
                down,
                button,
            )[k],
        decreases 4 - i,
    {
        let offset = (i - 1) * strip_size;
        let aoff = if offset >= 0 { offset } else { -offset };
        out.push(
            (
                ScreenRect {
                    x: btn_x - btn_radius + offset,
                    y: btn_y - strip_size / 2,
                    w: (btn_radius * 2 - aoff * 2) as u32,
                    h: strip_size as u32,
                },
                b,
            ),
        );
        i = i + 1;
    }
    assert(out@ =~= gamepad_layout(screen_w as int, screen_h as int, left, right, up, down, button));
    out
}

/// A finger keeps the player it touched down for until it is lifted, other
/// fingers do not disturb it, and lifting it forgets it: after assigning
/// `finger` to `player` and then `other` to anyone, `finger` is still
/// `player`'s; once `finger` is removed it is untracked.
pub proof fn lemma_finger_keeps_player(m: Map<i64, u8>, finger: i64, player: u8, other: i64, q: u8)
    requires
        other != finger,
    ensures
        m.insert(finger, player).insert(other, q).contains_key(finger),
        m.insert(finger, player).insert(other, q)[finger] == player,
        !m.insert(finger, player).remove(finger).contains_key(finger),
{
}

} // verus!
