//! The red and green indicator LEDs and the blink patterns shown on them.

use vstd::prelude::*;

verus! {

/// Duty value of a fully lit channel.
pub const DUTY_FULL: u8 = 255;

/// Duty value of a dark channel.
pub const DUTY_OFF: u8 = 0;

/// Time between two toggles when an outcome is flashed.
pub const FLASH_INTERVAL_MS: u64 = 100;

/// Time between two toggles while waiting for the next scan.
pub const WAITING_INTERVAL_MS: u64 = 1000;

/// The duty values to write to the red and the green channel.
#[derive(Clone, Copy, Debug, PartialEq, Eq, Structural)]
pub struct DutyPair {
    pub red: u32,
    pub green: u32,
}

/// The channel that a pattern blinks on.
#[derive(Clone, Copy, Debug, PartialEq, Eq, Structural)]
pub enum LedColor {
    Red,
    Green,
}

/// One step of a pattern: both channels are set, then held for `hold_ms`.
#[derive(Clone, Copy, Debug, PartialEq, Eq, Structural)]
pub struct LedFrame {
    pub red: u8,
    pub green: u8,
    pub hold_ms: u64,
}

/// A blink pattern: `toggles` frames of `interval_ms` each, lit on the even
/// ones and dark on the odd ones, and a closing frame that leaves both
/// channels dark.
#[derive(Clone, Copy, Debug, PartialEq, Eq, Structural)]
pub struct FlashPattern {
    pub color: LedColor,
    pub toggles: u64,
    pub interval_ms: u64,
}

/// The frame with `color` fully lit and the other channel dark.
pub open spec fn lit_frame(color: LedColor, hold_ms: u64) -> LedFrame {
    match color {
        LedColor::Red => LedFrame { red: 255, green: 0, hold_ms },
        LedColor::Green => LedFrame { red: 0, green: 255, hold_ms },
    }
}

/// The frame with both channels dark.
pub open spec fn dark_frame(hold_ms: u64) -> LedFrame {
    LedFrame { red: 0, green: 0, hold_ms }
}

/// The total time for which a sequence of frames is held.
pub open spec fn total_hold(frames: Seq<LedFrame>) -> nat
    decreases frames.len(),
{
    if frames.len() == 0 {
        0
    } else {
        total_hold(frames.drop_last()) + frames.last().hold_ms as nat
    }
}

/// The pattern that toggles `color` every `interval_ms` for as many whole
/// intervals as fit into `duration_ms`.
pub open spec fn pattern_of(color: LedColor, duration_ms: u64, interval_ms: u64) -> FlashPattern {
    FlashPattern { color, toggles: duration_ms / interval_ms, interval_ms }
}

impl LedFrame {
    /// Whether the frame leaves both channels dark.
    pub open spec fn is_dark(self) -> bool {
        self.red == 0 && self.green == 0
    }
}

impl FlashPattern {
    /// The frame at position `index`; from `toggles` on it is the closing
    /// frame.
    pub open spec fn frame_at(self, index: int) -> LedFrame {
        if index >= self.toggles {
            dark_frame(0)
        } else if index % 2 == 0 {
            lit_frame(self.color, self.interval_ms)
        } else {
            dark_frame(self.interval_ms)
        }
    }

    /// All frames in the order shown, the closing frame last.
    pub open spec fn view(self) -> Seq<LedFrame> {
        Seq::new((self.toggles + 1) as nat, |i: int| self.frame_at(i))
    }

    /// The pattern that toggles every `interval_ms` for as many whole
    /// intervals as fit into `duration_ms`.
    pub fn new(color: LedColor, duration_ms: u64, interval_ms: u64) -> (pattern: FlashPattern)
        requires
            interval_ms > 0,
        ensures
            pattern == pattern_of(color, duration_ms, interval_ms),
    {
        FlashPattern { color, toggles: duration_ms / interval_ms, interval_ms }
    }

    /// The frame at position `index`.
    pub fn frame(&self, index: u64) -> (frame: LedFrame)
        ensures
            frame == self.frame_at(index as int),
            index <= self.toggles ==> frame == self@[index as int],
    {
        if index >= self.toggles {
            LedFrame { red: DUTY_OFF, green: DUTY_OFF, hold_ms: 0 }
        } else if index % 2 == 0 {
            match self.color {
                LedColor::Red => LedFrame {
                    red: DUTY_FULL,
                    green: DUTY_OFF,
                    hold_ms: self.interval_ms,
                },
                LedColor::Green => LedFrame {
                    red: DUTY_OFF,
                    green: DUTY_FULL,
                    hold_ms: self.interval_ms,
                },
            }
        } else {
            LedFrame { red: DUTY_OFF, green: DUTY_OFF, hold_ms: self.interval_ms }
        }
    }

    /// All frames of the pattern.
    pub fn frames(&self) -> (frames: Vec<LedFrame>)
        requires
            self.toggles < usize::MAX,
        ensures
            frames@ == self@,
    {
        let mut frames: Vec<LedFrame> = Vec::new();
        let mut index: u64 = 0;
        while index <= self.toggles
            invariant
                self.toggles < usize::MAX,
                index <= self.toggles + 1,
                frames@.len() == index,
                forall|k: int| 0 <= k < index ==> frames@[k] == self.frame_at(k),
            decreases self.toggles + 1 - index,
        {
            frames.push(self.frame(index));
            index = index + 1;
        }
        frames
    }
}

/// The first `count` frames of a pattern are held for `count` intervals in
/// all.
proof fn toggles_hold(pattern: FlashPattern, count: nat)
    requires
        count <= pattern.toggles,
    ensures
        total_hold(pattern@.subrange(0, count as int)) == count * pattern.interval_ms,
    decreases count,
{
    if count > 0 {
        toggles_hold(pattern, (count - 1) as nat);
        assert(pattern@.subrange(0, count as int).drop_last() =~= pattern@.subrange(
            0,
            count - 1,
        ));
        assert(count * pattern.interval_ms == (count - 1) * pattern.interval_ms
            + pattern.interval_ms) by (nonlinear_arith);
    } else {
        assert(count * pattern.interval_ms == 0) by (nonlinear_arith)
            requires
                count == 0,
        ;
    }
}

/// For every duration `D` and interval `I`, the pattern toggles exactly
/// `floor(D / I)` times, each toggle held for `I`: lit on the even ones, dark
/// on the odd ones. One frame follows them, and it leaves both channels dark
/// without holding, whether the number of toggles is even or odd. The
/// pattern never holds for longer than `D`.
pub proof fn pattern_ends_dark(color: LedColor, duration_ms: u64, interval_ms: u64)
    requires
        interval_ms > 0,
    ensures
        ({
            let pattern = pattern_of(color, duration_ms, interval_ms);
            &&& pattern.toggles == duration_ms as nat / interval_ms as nat
            &&& pattern@.len() == pattern.toggles + 1
            &&& forall|i: int|
                0 <= i < pattern.toggles ==> #[trigger] pattern@[i] == if i % 2 == 0 {
                    lit_frame(color, interval_ms)
                } else {
                    dark_frame(interval_ms)
                }
            &&& pattern@.last() == dark_frame(0)
            &&& pattern@.last().is_dark()
            &&& total_hold(pattern@) == pattern.toggles * interval_ms
            &&& total_hold(pattern@) <= duration_ms
        }),
{
    let pattern = pattern_of(color, duration_ms, interval_ms);
    let toggles = pattern.toggles as nat;
    toggles_hold(pattern, toggles);
    assert(toggles * interval_ms <= duration_ms) by (nonlinear_arith)
        requires
            interval_ms > 0,
            toggles == duration_ms as nat / interval_ms as nat,
    ;
}

/// The duties that show `red` and `green` on the two channels.
pub fn set_led_color(red: u8, green: u8) -> (duties: DutyPair)
    ensures
        duties.red == red,
        duties.green == green,
{
    DutyPair { red: red as u32, green: green as u32 }
}

/// The pattern that reports a successful scan: green, toggled every 100 ms
/// within `duration_ms`.
pub fn flash_green(duration_ms: u64) -> (pattern: FlashPattern)
    ensures
        pattern == pattern_of(LedColor::Green, duration_ms, 100),
{
    FlashPattern::new(LedColor::Green, duration_ms, FLASH_INTERVAL_MS)
}

/// The pattern that reports a failed scan: red, toggled every 100 ms within
/// `duration_ms`.
pub fn flash_red(duration_ms: u64) -> (pattern: FlashPattern)
    ensures
        pattern == pattern_of(LedColor::Red, duration_ms, 100),
{
    FlashPattern::new(LedColor::Red, duration_ms, FLASH_INTERVAL_MS)
}

/// The pattern shown between two scans: red, toggled every second within
/// `duration_ms`.
pub fn flash_red_waiting(duration_ms: u64) -> (pattern: FlashPattern)
    ensures
        pattern == pattern_of(LedColor::Red, duration_ms, 1000),
{
    FlashPattern::new(LedColor::Red, duration_ms, WAITING_INTERVAL_MS)
}

} // verus!
