//! The scan indicator: scan for networks, flash how the scan ended, blink
//! while waiting, and scan again.

use crate::led::{
    dark_frame, flash_green, flash_red, flash_red_waiting, pattern_of, FlashPattern, LedColor,
    LedFrame,
};
use vstd::prelude::*;

verus! {

/// Time for which the outcome of a scan is flashed.
pub const REPORT_MS: u64 = 500;

/// Time between two scans.
pub const WAIT_MS: u64 = 10000;

/// Where the worker stands. Each state names the command that is under way.
#[derive(Clone, Copy, Debug, PartialEq, Eq, Structural)]
pub enum IndicatorState {
    /// Nothing has been asked for yet.
    Idle,
    /// A scan is under way.
    Scanning,
    /// Frame `index` of the pattern that reports the outcome is shown.
    Reporting { color: LedColor, index: u64 },
    /// Frame `index` of the waiting pattern is shown.
    Waiting { index: u64 },
}

/// What the caller is to do next.
#[derive(Clone, Copy, Debug, PartialEq, Eq, Structural)]
pub enum IndicatorCommand {
    /// Scan for networks.
    Scan,
    /// Set both channels as the frame says, then hold for its time.
    Show(LedFrame),
}

/// How the last command ended.
#[derive(Clone, Copy, Debug, PartialEq, Eq, Structural)]
pub enum IndicatorEvent {
    /// The scan returned this many networks.
    ScanSucceeded { networks: usize },
    /// The scan failed.
    ScanFailed,
    /// The frame was shown and held.
    FrameShown,
}

/// The pattern that reports a scan: green after a success, red after a
/// failure, toggled every 100 ms for 500 ms.
pub open spec fn report_pattern(color: LedColor) -> FlashPattern {
    pattern_of(color, REPORT_MS, 100)
}

/// The pattern shown while waiting: red, toggled every second for 10 s.
pub open spec fn waiting_pattern() -> FlashPattern {
    pattern_of(LedColor::Red, WAIT_MS, 1000)
}

/// The colour that reports how a scan ended. Only a scan that succeeded is
/// reported in green.
pub open spec fn report_color(event: IndicatorEvent) -> LedColor {
    if event is ScanSucceeded {
        LedColor::Green
    } else {
        LedColor::Red
    }
}

impl IndicatorState {
    /// The frame that is shown in this state, if one is.
    pub open spec fn showing(self) -> Option<LedFrame> {
        match self {
            IndicatorState::Reporting { color, index } => Some(
                report_pattern(color).frame_at(index as int),
            ),
            IndicatorState::Waiting { index } => Some(waiting_pattern().frame_at(index as int)),
            _ => None,
        }
    }
}

/// The worker's transition: the state that follows `state` when the command
/// under way ends with `event`, and the command to perform next.
///
/// A scan is followed by the pattern that reports it, frame by frame, then
/// by the waiting pattern, frame by frame, then by the next scan. Nothing
/// ends the cycle.
pub open spec fn indicator_next(state: IndicatorState, event: IndicatorEvent) -> (
    IndicatorState,
    IndicatorCommand,
) {
    match state {
        IndicatorState::Idle => (IndicatorState::Scanning, IndicatorCommand::Scan),
        IndicatorState::Scanning => {
            let color = report_color(event);
            (
                IndicatorState::Reporting { color, index: 0 },
                IndicatorCommand::Show(report_pattern(color).frame_at(0)),
            )
        },
        IndicatorState::Reporting { color, index } => if index < report_pattern(color).toggles {
            (
                IndicatorState::Reporting { color, index: (index + 1) as u64 },
                IndicatorCommand::Show(report_pattern(color).frame_at(index + 1)),
            )
        } else {
            (
                IndicatorState::Waiting { index: 0 },
                IndicatorCommand::Show(waiting_pattern().frame_at(0)),
            )
        },
        IndicatorState::Waiting { index } => if index < waiting_pattern().toggles {
            (
                IndicatorState::Waiting { index: (index + 1) as u64 },
                IndicatorCommand::Show(waiting_pattern().frame_at(index + 1)),
            )
        } else {
            (IndicatorState::Scanning, IndicatorCommand::Scan)
        },
    }
}

/// The state reached from `state` when the commands end with `events`, one
/// after the other.
pub open spec fn indicator_run(state: IndicatorState, events: Seq<IndicatorEvent>)
    -> IndicatorState
    decreases events.len(),
{
    if events.len() == 0 {
        state
    } else {
        indicator_next(indicator_run(state, events.drop_last()), events.last()).0
    }
}

/// The commands given out on the way from `state` through `events`.
pub open spec fn indicator_commands(state: IndicatorState, events: Seq<IndicatorEvent>) -> Seq<
    IndicatorCommand,
>
    decreases events.len(),
{
    if events.len() == 0 {
        Seq::empty()
    } else {
        indicator_commands(state, events.drop_last()).push(
            indicator_next(indicator_run(state, events.drop_last()), events.last()).1,
        )
    }
}

/// The commands that show `frames` one after the other.
pub open spec fn shows(frames: Seq<LedFrame>) -> Seq<IndicatorCommand> {
    Seq::new(frames.len(), |i: int| IndicatorCommand::Show(frames[i]))
}

/// The commands of one cycle after a scan that is reported in `color`: the
/// frames of the report, the frames of the waiting pattern, and the next
/// scan.
pub open spec fn cycle_commands(color: LedColor) -> Seq<IndicatorCommand> {
    shows(report_pattern(color)@) + shows(waiting_pattern()@) + seq![IndicatorCommand::Scan]
}

/// The state that the worker is in when `count` commands of a cycle have
/// been given out.
spec fn cycle_state(color: LedColor, count: int) -> IndicatorState {
    if count == 0 || count == 18 {
        IndicatorState::Scanning
    } else if count <= 6 {
        IndicatorState::Reporting { color, index: (count - 1) as u64 }
    } else {
        IndicatorState::Waiting { index: (count - 7) as u64 }
    }
}

/// A cycle that has begun goes as `cycle_commands` says, as far as it has
/// come.
proof fn cycle_so_far(color: LedColor, events: Seq<IndicatorEvent>)
    requires
        events.len() <= 18,
        events.len() > 0 ==> report_color(events[0]) == color,
    ensures
        indicator_run(IndicatorState::Scanning, events) == cycle_state(color, events.len() as int),
        indicator_commands(IndicatorState::Scanning, events) == cycle_commands(color).subrange(
            0,
            events.len() as int,
        ),
    decreases events.len(),
{
    if events.len() > 0 {
        cycle_so_far(color, events.drop_last());
    }
}

/// One whole cycle: when a scan has ended, however it ended, the next
/// eighteen commands are the six frames of the report, in green if the scan
/// succeeded and in red if not, the eleven frames of the waiting pattern, and
/// the next scan. What is reported back while frames are shown changes
/// nothing, and after the cycle the worker scans again.
pub proof fn scan_cycle(events: Seq<IndicatorEvent>)
    requires
        events.len() == 18,
    ensures
        indicator_commands(IndicatorState::Scanning, events) == cycle_commands(
            report_color(events[0]),
        ),
        indicator_run(IndicatorState::Scanning, events) == IndicatorState::Scanning,
{
    cycle_so_far(report_color(events[0]), events);
}

/// The LEDs are dark whenever a scan begins and whenever the waiting
/// pattern begins: the frame shown just before is the closing frame of a
/// pattern, which leaves both channels dark.
pub proof fn patterns_end_dark(state: IndicatorState, event: IndicatorEvent)
    requires
        state != IndicatorState::Idle,
        state != IndicatorState::Scanning,
    ensures
        ({
            let (next, command) = indicator_next(state, event);
            command == IndicatorCommand::Scan || next == (IndicatorState::Waiting { index: 0 })
                ==> state.showing() == Some(dark_frame(0))
        }),
{
}

/// The networks that a scan reports: for now three fixed entries, each a
/// label and a signal strength in dBm.
pub fn perform_wifi_scan() -> (found: Result<Vec<(String, i8)>, String>)
    ensures
        found matches Ok(networks) && {
            &&& networks@.len() == 3
            &&& networks@[0].0@ == "Network-1"@ && networks@[0].1 == -45
            &&& networks@[1].0@ == "Network-2"@ && networks@[1].1 == -67
            &&& networks@[2].0@ == "Wokwi-GUEST"@ && networks@[2].1 == -30
        },
{
    let mut networks: Vec<(String, i8)> = Vec::new();
    networks.push(("Network-1".to_owned(), -45i8));
    networks.push(("Network-2".to_owned(), -67i8));
    networks.push(("Wokwi-GUEST".to_owned(), -30i8));
    Ok(networks)
}

/// The event that reports how a scan ended.
pub fn scan_event(found: &Result<Vec<(String, i8)>, String>) -> (event: IndicatorEvent)
    ensures
        event == match found {
            Ok(networks) => IndicatorEvent::ScanSucceeded { networks: networks@.len() as usize },
            Err(_) => IndicatorEvent::ScanFailed,
        },
{
    match found {
        Ok(networks) => IndicatorEvent::ScanSucceeded { networks: networks.len() },
        Err(_) => IndicatorEvent::ScanFailed,
    }
}

/// The scan indicator worker.
pub struct ScanIndicatorWorker {
    state: IndicatorState,
}

impl ScanIndicatorWorker {
    /// The state that the worker is in.
    pub closed spec fn state(self) -> IndicatorState {
        self.state
    }

    /// A worker that has not begun.
    pub fn new() -> (worker: ScanIndicatorWorker)
        ensures
            worker.state() == IndicatorState::Idle,
    {
        ScanIndicatorWorker { state: IndicatorState::Idle }
    }

    /// The state that the worker is in.
    pub fn current(&self) -> (state: IndicatorState)
        ensures
            state == self.state(),
    {
        self.state
    }

    /// Takes in how the command under way ended, moves on, and returns the
    /// command to perform next. The first call, on a worker that has not
    /// begun, takes any event.
    pub fn step(&mut self, event: IndicatorEvent) -> (command: IndicatorCommand)
        ensures
            (final(self).state(), command) == indicator_next(old(self).state(), event),
    {
        let (state, command) = match self.state {
            IndicatorState::Idle => (IndicatorState::Scanning, IndicatorCommand::Scan),
            IndicatorState::Scanning => {
                let (color, pattern) = match event {
                    IndicatorEvent::ScanSucceeded { .. } => (
                        LedColor::Green,
                        flash_green(REPORT_MS),
                    ),
                    _ => (LedColor::Red, flash_red(REPORT_MS)),
                };
                (
                    IndicatorState::Reporting { color, index: 0 },
                    IndicatorCommand::Show(pattern.frame(0)),
                )
            },
            IndicatorState::Reporting { color, index } => {
                let pattern = match color {
                    LedColor::Green => flash_green(REPORT_MS),
                    LedColor::Red => flash_red(REPORT_MS),
                };
                if index < pattern.toggles {
                    (
                        IndicatorState::Reporting { color, index: index + 1 },
                        IndicatorCommand::Show(pattern.frame(index + 1)),
                    )
                } else {
                    (
                        IndicatorState::Waiting { index: 0 },
                        IndicatorCommand::Show(flash_red_waiting(WAIT_MS).frame(0)),
                    )
                }
            },
            IndicatorState::Waiting { index } => {
                let pattern = flash_red_waiting(WAIT_MS);
                if index < pattern.toggles {
                    (
                        IndicatorState::Waiting { index: index + 1 },
                        IndicatorCommand::Show(pattern.frame(index + 1)),
                    )
                } else {
                    (IndicatorState::Scanning, IndicatorCommand::Scan)
                }
            },
        };
        self.state = state;
        command
    }
}

} // verus!
