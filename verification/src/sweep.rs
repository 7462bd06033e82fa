//! The frequency-sweep transmitter: a table of channel ranges that is walked
//! range by range and channel by channel, for ever.

use crate::noise::{generate_random_noise, noise_seq};
use vstd::prelude::*;

verus! {

/// Length of the payload sent on each channel.
pub const PAYLOAD_LEN: usize = 32;

/// Time spent on a channel after transmitting on it.
pub const HOP_DWELL_MS: u64 = 50;

/// Time between two ranges.
pub const RANGE_PAUSE_MS: u64 = 500;

/// Time given to the transceiver to power up before it is configured.
pub const SETTLE_MS: u64 = 100;

/// An inclusive range of logical channels.
#[derive(Clone, Copy, Debug, PartialEq, Eq, Structural)]
pub struct FrequencyRange {
    pub start_channel: u8,
    pub end_channel: u8,
}

impl FrequencyRange {
    /// A range is valid when it holds at least one channel.
    pub open spec fn valid(self) -> bool {
        self.start_channel <= self.end_channel
    }

    /// The channels of the range in ascending order.
    pub open spec fn channels(self) -> Seq<u8> {
        Seq::new(
            (self.end_channel - self.start_channel + 1) as nat,
            |i: int| (self.start_channel + i) as u8,
        )
    }
}

/// A table is valid when it holds at least one range, no more ranges than
/// can be indexed, and every range is valid.
pub open spec fn table_valid(ranges: Seq<FrequencyRange>) -> bool {
    &&& 0 < ranges.len() <= usize::MAX
    &&& forall|i: int| 0 <= i < ranges.len() ==> (#[trigger] ranges[i]).valid()
}

/// The five overlapping windows of twenty channels that the transmitter
/// sweeps.
pub open spec fn standard_ranges() -> Seq<FrequencyRange> {
    seq![
        FrequencyRange { start_channel: 2, end_channel: 22 },
        FrequencyRange { start_channel: 7, end_channel: 27 },
        FrequencyRange { start_channel: 12, end_channel: 32 },
        FrequencyRange { start_channel: 17, end_channel: 37 },
        FrequencyRange { start_channel: 22, end_channel: 42 },
    ]
}

/// A valid table of ranges, consulted in cyclic order.
pub struct SweepTable {
    ranges: Vec<FrequencyRange>,
}

impl SweepTable {
    #[verifier::type_invariant]
    spec fn inv(self) -> bool {
        table_valid(self.ranges@)
    }

    /// The ranges in the order in which they are swept.
    pub closed spec fn view(self) -> Seq<FrequencyRange> {
        self.ranges@
    }

    /// Makes a table of `ranges`, unless there is none or one of them is
    /// empty.
    pub fn new(ranges: Vec<FrequencyRange>) -> (table: Option<SweepTable>)
        ensures
            table is Some <==> table_valid(ranges@),
            table matches Some(t) ==> t@ == ranges@,
    {
        if ranges.len() == 0 {
            return None;
        }
        for i in 0..ranges.len()
            invariant
                forall|k: int| 0 <= k < i ==> (#[trigger] ranges@[k]).valid(),
        {
            if ranges[i].start_channel > ranges[i].end_channel {
                return None;
            }
        }
        Some(SweepTable { ranges })
    }

    /// The table of the five standard ranges.
    pub fn standard() -> (table: SweepTable)
        ensures
            table@ == standard_ranges(),
    {
        let ranges = vec![
            FrequencyRange { start_channel: 2, end_channel: 22 },
            FrequencyRange { start_channel: 7, end_channel: 27 },
            FrequencyRange { start_channel: 12, end_channel: 32 },
            FrequencyRange { start_channel: 17, end_channel: 37 },
            FrequencyRange { start_channel: 22, end_channel: 42 },
        ];
        SweepTable { ranges }
    }

    /// The number of ranges, which is at least one.
    pub fn len(&self) -> (len: usize)
        ensures
            len == self@.len(),
            len > 0,
            table_valid(self@),
    {
        proof {
            use_type_invariant(self);
        }
        self.ranges.len()
    }

    /// The range at `index`, if the table has that many.
    pub fn range(&self, index: usize) -> (range: Option<FrequencyRange>)
        ensures
            range is Some <==> index < self@.len(),
            range matches Some(r) ==> r == self@[index as int] && r.valid(),
    {
        proof {
            use_type_invariant(self);
        }
        if index < self.ranges.len() {
            Some(self.ranges[index])
        } else {
            None
        }
    }
}

/// Transmit power of the transceiver.
#[derive(Clone, Copy, Debug, PartialEq, Eq, Structural)]
pub enum PowerLevel {
    Min,
    Low,
    High,
    Max,
}

/// What the transceiver is configured with before the sweep begins.
#[derive(Clone, Copy, Debug, PartialEq, Eq, Structural)]
pub struct RadioSettings {
    pub channel: u8,
    pub power: PowerLevel,
    pub payload_size: u8,
}

/// The settings of the sweep: channel 76, full power, payloads of 32 bytes.
pub open spec fn sweep_settings() -> RadioSettings {
    RadioSettings { channel: 76, power: PowerLevel::Max, payload_size: 32 }
}

/// The address of the writing pipe, the five bytes of `Node1`.
pub open spec fn pipe_address_bytes() -> Seq<u8> {
    seq![0x4e, 0x6f, 0x64, 0x65, 0x31]
}

/// The settings to configure the transceiver with.
pub fn radio_settings() -> (settings: RadioSettings)
    ensures
        settings == sweep_settings(),
        settings.payload_size == PAYLOAD_LEN,
{
    RadioSettings { channel: 76, power: PowerLevel::Max, payload_size: 32 }
}

/// The address to open the writing pipe on.
pub fn pipe_address() -> (address: Vec<u8>)
    ensures
        address@ == pipe_address_bytes(),
{
    let address = vec![0x4eu8, 0x6fu8, 0x64u8, 0x65u8, 0x31u8];
    address
}

/// A fresh payload for one channel hop, seeded from the wall clock.
pub fn hop_payload() -> (payload: Vec<u8>)
    ensures
        payload@.len() == PAYLOAD_LEN,
        exists|seed: u64| payload@ == noise_seq(seed, PAYLOAD_LEN as nat),
{
    generate_random_noise(PAYLOAD_LEN)
}

/// Where the worker stands. Each state names the command that is under way.
#[derive(Clone, Copy, Debug, PartialEq, Eq, Structural)]
pub enum SweepState {
    /// Nothing has been asked for yet.
    Idle,
    /// The bus and the pins are being claimed.
    AcquiringBus,
    /// The transceiver is given time to power up.
    Settling,
    /// The driver is being created with the settings.
    CreatingDriver,
    /// The transceiver is being asked whether it responds.
    Probing,
    /// The writing pipe is being opened.
    OpeningPipe,
    /// The transceiver is being taken out of receive mode.
    LeavingReceive,
    /// The transceiver is being set to `channel`.
    Tuning { range_index: usize, channel: u8 },
    /// A payload is being sent on `channel`.
    Sending { range_index: usize, channel: u8 },
    /// The worker dwells on `channel` after sending.
    Dwelling { range_index: usize, channel: u8 },
    /// The worker pauses before the range at `range_index`.
    Pausing { range_index: usize },
    /// The worker has given up during start-up.
    Halted,
}

/// The coarse phases of the worker.
#[derive(Clone, Copy, Debug, PartialEq, Eq, Structural)]
pub enum SweepPhase {
    Initializing,
    Connected,
    Sweeping,
    Terminated,
}

/// What the caller is to do next.
#[derive(Clone, Copy, Debug, PartialEq, Eq, Structural)]
pub enum SweepCommand {
    /// Claim the bus, the device on it and the enable pin.
    AcquireBus,
    /// Create the driver with these settings.
    CreateDriver(RadioSettings),
    /// Ask the transceiver whether it responds.
    ProbeConnection,
    /// Open the writing pipe on the pipe address.
    OpenWritingPipe,
    /// Take the transceiver out of receive mode.
    StopListening,
    /// Set the transceiver to this channel.
    SetChannel(u8),
    /// Send a fresh payload.
    Transmit,
    /// Sleep for this many milliseconds.
    Sleep(u64),
    /// Stop: the worker has ended.
    Halt,
}

/// How the last command ended.
#[derive(Clone, Copy, Debug, PartialEq, Eq, Structural)]
pub enum SweepEvent {
    /// The command succeeded.
    Completed,
    /// The command failed.
    Failed,
    /// The probe was answered: the transceiver responds, or it does not.
    Probed(bool),
}

impl SweepState {
    /// The coarse phase that a state belongs to.
    pub open spec fn phase(self) -> SweepPhase {
        match self {
            SweepState::Idle
            | SweepState::AcquiringBus
            | SweepState::Settling
            | SweepState::CreatingDriver
            | SweepState::Probing => SweepPhase::Initializing,
            SweepState::OpeningPipe | SweepState::LeavingReceive => SweepPhase::Connected,
            SweepState::Tuning { .. }
            | SweepState::Sending { .. }
            | SweepState::Dwelling { .. }
            | SweepState::Pausing { .. } => SweepPhase::Sweeping,
            SweepState::Halted => SweepPhase::Terminated,
        }
    }

    /// The index of the range that the worker is in, or pauses before. It is
    /// zero until the sweep begins.
    pub open spec fn cursor(self) -> int {
        match self {
            SweepState::Tuning { range_index, .. }
            | SweepState::Sending { range_index, .. }
            | SweepState::Dwelling { range_index, .. }
            | SweepState::Pausing { range_index } => range_index as int,
            _ => 0,
        }
    }

    /// Whether a state belongs to `table`: its range exists and its channel
    /// lies in that range.
    pub open spec fn fits(self, table: Seq<FrequencyRange>) -> bool {
        match self {
            SweepState::Tuning { range_index, channel }
            | SweepState::Sending { range_index, channel }
            | SweepState::Dwelling { range_index, channel } => {
                &&& range_index < table.len()
                &&& table[range_index as int].start_channel <= channel
                &&& channel <= table[range_index as int].end_channel
            },
            SweepState::Pausing { range_index } => range_index < table.len(),
            _ => true,
        }
    }
}

/// The step that gives up: the worker halts.
pub open spec fn halt() -> (SweepState, SweepCommand) {
    (SweepState::Halted, SweepCommand::Halt)
}

/// The step that enters the range at `range_index` on its first channel.
pub open spec fn enter_range(table: Seq<FrequencyRange>, range_index: usize) -> (
    SweepState,
    SweepCommand,
) {
    let first = table[range_index as int].start_channel;
    (SweepState::Tuning { range_index, channel: first }, SweepCommand::SetChannel(first))
}

/// The step that leaves `channel`: on to the next channel of the range, or,
/// after the last one, to the pause before the next range, the first range
/// following the last.
pub open spec fn leave_channel(table: Seq<FrequencyRange>, range_index: usize, channel: u8) -> (
    SweepState,
    SweepCommand,
) {
    if channel < table[range_index as int].end_channel {
        let next = (channel + 1) as u8;
        (SweepState::Tuning { range_index, channel: next }, SweepCommand::SetChannel(next))
    } else {
        (
            SweepState::Pausing { range_index: ((range_index + 1) % table.len() as int) as usize },
            SweepCommand::Sleep(RANGE_PAUSE_MS),
        )
    }
}

/// The worker's transition: the state that follows `state` when the command
/// under way ends with `event`, and the command to perform next.
///
/// During start-up every command must succeed, and the probe must find the
/// transceiver responding; anything else halts the worker. During the sweep
/// nothing halts it: a channel that cannot be set is skipped without
/// dwelling, and a payload that cannot be sent is forgotten.
pub open spec fn sweep_next(table: Seq<FrequencyRange>, state: SweepState, event: SweepEvent) -> (
    SweepState,
    SweepCommand,
) {
    match state {
        SweepState::Idle => (SweepState::AcquiringBus, SweepCommand::AcquireBus),
        SweepState::AcquiringBus => if event == SweepEvent::Completed {
            (SweepState::Settling, SweepCommand::Sleep(SETTLE_MS))
        } else {
            halt()
        },
        SweepState::Settling => (
            SweepState::CreatingDriver,
            SweepCommand::CreateDriver(sweep_settings()),
        ),
        SweepState::CreatingDriver => if event == SweepEvent::Completed {
            (SweepState::Probing, SweepCommand::ProbeConnection)
        } else {
            halt()
        },
        SweepState::Probing => if event == SweepEvent::Probed(true) {
            (SweepState::OpeningPipe, SweepCommand::OpenWritingPipe)
        } else {
            halt()
        },
        SweepState::OpeningPipe => if event == SweepEvent::Completed {
            (SweepState::LeavingReceive, SweepCommand::StopListening)
        } else {
            halt()
        },
        SweepState::LeavingReceive => if event == SweepEvent::Completed {
            enter_range(table, 0)
        } else {
            halt()
        },
        SweepState::Tuning { range_index, channel } => if event == SweepEvent::Completed {
            (SweepState::Sending { range_index, channel }, SweepCommand::Transmit)
        } else {
            leave_channel(table, range_index, channel)
        },
        SweepState::Sending { range_index, channel } => (
            SweepState::Dwelling { range_index, channel },
            SweepCommand::Sleep(HOP_DWELL_MS),
        ),
        SweepState::Dwelling { range_index, channel } => leave_channel(
            table,
            range_index,
            channel,
        ),
        SweepState::Pausing { range_index } => enter_range(table, range_index),
        SweepState::Halted => halt(),
    }
}

/// The state reached from `state` when the commands end with `events`, one
/// after the other.
pub open spec fn sweep_run(table: Seq<FrequencyRange>, state: SweepState, events: Seq<SweepEvent>)
    -> SweepState
    decreases events.len(),
{
    if events.len() == 0 {
        state
    } else {
        sweep_next(table, sweep_run(table, state, events.drop_last()), events.last()).0
    }
}

/// The commands given out on the way from `state` through `events`.
pub open spec fn sweep_commands(
    table: Seq<FrequencyRange>,
    state: SweepState,
    events: Seq<SweepEvent>,
) -> Seq<SweepCommand>
    decreases events.len(),
{
    if events.len() == 0 {
        Seq::empty()
    } else {
        sweep_commands(table, state, events.drop_last()).push(
            sweep_next(table, sweep_run(table, state, events.drop_last()), events.last()).1,
        )
    }
}

/// How many ranges have been swept to the end: the number of pauses among
/// the commands.
pub open spec fn completed_passes(commands: Seq<SweepCommand>) -> nat
    decreases commands.len(),
{
    if commands.len() == 0 {
        0
    } else if commands.last() == SweepCommand::Sleep(RANGE_PAUSE_MS) {
        completed_passes(commands.drop_last()) + 1
    } else {
        completed_passes(commands.drop_last())
    }
}

/// The channels that the commands set, in order.
pub open spec fn tuned_channels(commands: Seq<SweepCommand>) -> Seq<u8>
    decreases commands.len(),
{
    if commands.len() == 0 {
        Seq::empty()
    } else {
        match commands.last() {
            SweepCommand::SetChannel(channel) => tuned_channels(commands.drop_last()).push(
                channel,
            ),
            _ => tuned_channels(commands.drop_last()),
        }
    }
}

/// The place of hop `n` in the endless sweep: the range index and the
/// channel. Hop 0 is the first channel of the first range; each hop goes one
/// channel up, and from the end of a range to the first channel of the next,
/// the first range following the last.
pub open spec fn hop(table: Seq<FrequencyRange>, n: nat) -> (int, u8)
    decreases n,
{
    if n == 0 {
        (0, table[0].start_channel)
    } else {
        let (range_index, channel) = hop(table, (n - 1) as nat);
        if channel < table[range_index].end_channel {
            (range_index, (channel + 1) as u8)
        } else {
            let following = (range_index + 1) % table.len() as int;
            (following, table[following].start_channel)
        }
    }
}

/// The channels of the first `n` hops of the endless sweep.
pub open spec fn sweep_order(table: Seq<FrequencyRange>, n: nat) -> Seq<u8> {
    Seq::new(n, |i: int| hop(table, i as nat).1)
}

/// A step never leaves the table: the state that follows a state of the
/// table is one too, and its cursor is the index of a range.
pub proof fn step_stays_in_table(table: Seq<FrequencyRange>, state: SweepState, event: SweepEvent)
    requires
        table_valid(table),
        state.fits(table),
    ensures
        sweep_next(table, state, event).0.fits(table),
        0 <= sweep_next(table, state, event).0.cursor() < table.len(),
{
}

/// Once the sweep has begun it never ends, whatever the events.
pub proof fn sweep_never_halts(table: Seq<FrequencyRange>, state: SweepState, event: SweepEvent)
    requires
        state.phase() == SweepPhase::Sweeping,
    ensures
        sweep_next(table, state, event).0.phase() == SweepPhase::Sweeping,
        sweep_next(table, state, event).1 != SweepCommand::Halt,
{
}

/// A channel that cannot be set, or a payload that cannot be sent, does not
/// keep the next channel of the range from being tried. When setting
/// `channel` ends with `tuned`, other than success, the next command sets
/// `channel + 1`. When it succeeds, the payload is sent, and however that
/// ends (`sent`) and whatever follows the dwell (`dwelt`), the command after
/// the dwell sets `channel + 1`.
pub proof fn failure_keeps_sweeping(
    table: Seq<FrequencyRange>,
    range_index: usize,
    channel: u8,
    tuned: SweepEvent,
    sent: SweepEvent,
    dwelt: SweepEvent,
)
    requires
        table_valid(table),
        (SweepState::Tuning { range_index, channel }).fits(table),
        channel < table[range_index as int].end_channel,
    ensures
        ({
            let tuning = SweepState::Tuning { range_index, channel };
            let onward = (
                SweepState::Tuning { range_index, channel: (channel + 1) as u8 },
                SweepCommand::SetChannel((channel + 1) as u8),
            );
            let after_tuning = sweep_next(table, tuning, tuned);
            let after_sending = sweep_next(table, after_tuning.0, sent);
            let after_dwelling = sweep_next(table, after_sending.0, dwelt);
            if tuned == SweepEvent::Completed {
                &&& after_tuning.1 == SweepCommand::Transmit
                &&& after_sending.1 == SweepCommand::Sleep(HOP_DWELL_MS)
                &&& after_dwelling == onward
            } else {
                after_tuning == onward
            }
        }),
{
}

/// How a state relates to the number of channels set so far: before the
/// sweep none was set; in the sweep the state stands at the last hop, or
/// pauses behind the last hop of a range.
spec fn at_hop(table: Seq<FrequencyRange>, state: SweepState, hops: nat) -> bool {
    match state {
        SweepState::Tuning { range_index, channel }
        | SweepState::Sending { range_index, channel }
        | SweepState::Dwelling { range_index, channel } => {
            &&& hops > 0
            &&& hop(table, (hops - 1) as nat) == (range_index as int, channel)
        },
        SweepState::Pausing { range_index } => {
            let last = hop(table, (hops - 1) as nat);
            &&& hops > 0
            &&& 0 <= last.0 < table.len()
            &&& last.1 >= table[last.0].end_channel
            &&& range_index == (last.0 + 1) % table.len() as int
        },
        _ => hops == 0,
    }
}

/// What holds of every run from the idle state.
proof fn run_invariant(table: Seq<FrequencyRange>, events: Seq<SweepEvent>)
    requires
        table_valid(table),
    ensures
        ({
            let end = sweep_run(table, SweepState::Idle, events);
            let commands = sweep_commands(table, SweepState::Idle, events);
            let tuned = tuned_channels(commands);
            &&& commands.len() == events.len()
            &&& end.fits(table)
            &&& end.cursor() == completed_passes(commands) % table.len()
            &&& at_hop(table, end, tuned.len())
            &&& tuned == sweep_order(table, tuned.len())
        }),
    decreases events.len(),
{
    let len = table.len() as int;
    if events.len() == 0 {
        assert(0int % len == 0);
    } else {
        let before = events.drop_last();
        run_invariant(table, before);
        let state = sweep_run(table, SweepState::Idle, before);
        let earlier = sweep_commands(table, SweepState::Idle, before);
        let passes = completed_passes(earlier) as int;
        step_stays_in_table(table, state, events.last());
        assert(sweep_commands(table, SweepState::Idle, events).drop_last() =~= earlier);
        // A pause moves the cursor on by one, as it does the count of passes.
        assert((passes % len + 1) % len == (passes + 1) % len) by (nonlinear_arith)
            requires
                len > 0,
        ;
    }
}

/// The cursor counts the ranges swept: after any run from the idle state it
/// is the number of completed passes modulo the length of the table, and so
/// it is always the index of a range.
pub proof fn cursor_counts_passes(table: Seq<FrequencyRange>, events: Seq<SweepEvent>)
    requires
        table_valid(table),
    ensures
        ({
            let end = sweep_run(table, SweepState::Idle, events);
            let commands = sweep_commands(table, SweepState::Idle, events);
            &&& end.cursor() == completed_passes(commands) % table.len()
            &&& 0 <= end.cursor() <= table.len() - 1
        }),
{
    run_invariant(table, events);
}

/// Whatever the events, the channels are set in the order of the endless
/// sweep: none is left out and none is set out of turn.
pub proof fn channels_follow_sweep_order(table: Seq<FrequencyRange>, events: Seq<SweepEvent>)
    requires
        table_valid(table),
    ensures
        ({
            let tuned = tuned_channels(sweep_commands(table, SweepState::Idle, events));
            tuned == sweep_order(table, tuned.len())
        }),
{
    run_invariant(table, events);
}

/// The commands of one pass over `range` on which every channel can be set:
/// for each channel in ascending order the channel is set, a payload is
/// sent and the worker dwells; after the last channel it pauses.
pub open spec fn pass_commands(range: FrequencyRange) -> Seq<SweepCommand> {
    let count = range.channels().len() as int;
    Seq::new(
        (3 * count + 1) as nat,
        |i: int|
            if i == 3 * count {
                SweepCommand::Sleep(RANGE_PAUSE_MS)
            } else if i % 3 == 0 {
                SweepCommand::SetChannel(range.channels()[i / 3])
            } else if i % 3 == 1 {
                SweepCommand::Transmit
            } else {
                SweepCommand::Sleep(HOP_DWELL_MS)
            },
    )
}

/// The state that the worker is in when `count` commands of a pass over the
/// range at `range_index` have been given out.
spec fn pass_state(table: Seq<FrequencyRange>, range_index: usize, count: int) -> SweepState {
    let range = table[range_index as int];
    let channel = (range.start_channel + (count - 1) / 3) as u8;
    if count == 0 {
        SweepState::Pausing { range_index }
    } else if count == 3 * range.channels().len() + 1 {
        SweepState::Pausing { range_index: ((range_index + 1) % table.len() as int) as usize }
    } else if count % 3 == 1 {
        SweepState::Tuning { range_index, channel }
    } else if count % 3 == 2 {
        SweepState::Sending { range_index, channel }
    } else {
        SweepState::Dwelling { range_index, channel }
    }
}

/// A pass that has begun goes as `pass_commands` says, as far as it has
/// come.
proof fn pass_so_far(table: Seq<FrequencyRange>, range_index: usize, events: Seq<SweepEvent>)
    requires
        table_valid(table),
        range_index < table.len(),
        events.len() <= 3 * table[range_index as int].channels().len() + 1,
        forall|i: int|
            0 <= i < events.len() && i % 3 == 1 ==> #[trigger] events[i] == SweepEvent::Completed,
    ensures
        sweep_run(table, SweepState::Pausing { range_index }, events) == pass_state(
            table,
            range_index,
            events.len() as int,
        ),
        sweep_commands(table, SweepState::Pausing { range_index }, events) == pass_commands(
            table[range_index as int],
        ).subrange(0, events.len() as int),
    decreases events.len(),
{
    if events.len() > 0 {
        let before = events.drop_last();
        assert forall|i: int| 0 <= i < before.len() && i % 3 == 1 implies #[trigger] before[i]
            == SweepEvent::Completed by {
            assert(before[i] == events[i]);
        }
        pass_so_far(table, range_index, before);
    }
}

/// One whole pass: from the pause before a range, when every channel of the
/// range can be set, the worker sets each channel in ascending order, sends
/// on it and dwells for 50 ms, whether or not the payload could be sent;
/// after the last channel it pauses for 500 ms before the next range, the
/// first range following the last.
pub proof fn pass_visits_every_channel(
    table: Seq<FrequencyRange>,
    range_index: usize,
    events: Seq<SweepEvent>,
)
    requires
        table_valid(table),
        range_index < table.len(),
        events.len() == 3 * table[range_index as int].channels().len() + 1,
        forall|i: int|
            0 <= i < events.len() && i % 3 == 1 ==> #[trigger] events[i] == SweepEvent::Completed,
    ensures
        sweep_commands(table, SweepState::Pausing { range_index }, events) == pass_commands(
            table[range_index as int],
        ),
        sweep_run(table, SweepState::Pausing { range_index }, events) == (SweepState::Pausing {
            range_index: ((range_index + 1) % table.len() as int) as usize,
        }),
{
    pass_so_far(table, range_index, events);
}

/// The sweep worker: a table and the place in it.
pub struct RadioSweepWorker {
    table: SweepTable,
    state: SweepState,
}

impl RadioSweepWorker {
    #[verifier::type_invariant]
    spec fn inv(self) -> bool {
        table_valid(self.table@) && self.state.fits(self.table@)
    }

    /// The table that the worker sweeps.
    pub closed spec fn table(self) -> Seq<FrequencyRange> {
        self.table@
    }

    /// The state that the worker is in.
    pub closed spec fn state(self) -> SweepState {
        self.state
    }

    /// A worker over `table` that has not begun.
    pub fn new(table: SweepTable) -> (worker: RadioSweepWorker)
        ensures
            worker.table() == table@,
            worker.state() == SweepState::Idle,
    {
        proof {
            use_type_invariant(&table);
        }
        RadioSweepWorker { table, state: SweepState::Idle }
    }

    /// The state that the worker is in.
    pub fn current(&self) -> (state: SweepState)
        ensures
            state == self.state(),
            state.fits(self.table()),
            table_valid(self.table()),
    {
        proof {
            use_type_invariant(self);
        }
        self.state
    }

    /// The index of the range that the worker is in or pauses before.
    pub fn range_index(&self) -> (index: usize)
        ensures
            index == self.state().cursor(),
            index < self.table().len(),
    {
        proof {
            use_type_invariant(self);
        }
        match self.state {
            SweepState::Tuning { range_index, .. } => range_index,
            SweepState::Sending { range_index, .. } => range_index,
            SweepState::Dwelling { range_index, .. } => range_index,
            SweepState::Pausing { range_index } => range_index,
            _ => 0,
        }
    }

    /// The range that the worker is in or pauses before.
    pub fn range(&self) -> (range: FrequencyRange)
        ensures
            range == self.table()[self.state().cursor()],
            range.valid(),
    {
        proof {
            use_type_invariant(self);
        }
        let index = self.range_index();
        self.table.ranges[index]
    }

    /// Whether the worker has ended.
    pub fn is_halted(&self) -> (halted: bool)
        ensures
            halted == (self.state() == SweepState::Halted),
    {
        match self.state {
            SweepState::Halted => true,
            _ => false,
        }
    }

    /// Takes in how the command under way ended, moves on, and returns the
    /// command to perform next. The first call, on a worker that has not
    /// begun, takes any event.
    pub fn step(&mut self, event: SweepEvent) -> (command: SweepCommand)
        ensures
            final(self).table() == old(self).table(),
            (final(self).state(), command) == sweep_next(
                old(self).table(),
                old(self).state(),
                event,
            ),
    {
        proof {
            use_type_invariant(&*self);
        }
        let completed = match event {
            SweepEvent::Completed => true,
            _ => false,
        };
        let responding = match event {
            SweepEvent::Probed(answer) => answer,
            _ => false,
        };
        let (state, command) = match self.state {
            SweepState::Idle => (SweepState::AcquiringBus, SweepCommand::AcquireBus),
            SweepState::AcquiringBus => if completed {
                (SweepState::Settling, SweepCommand::Sleep(SETTLE_MS))
            } else {
                (SweepState::Halted, SweepCommand::Halt)
            },
            SweepState::Settling => (
                SweepState::CreatingDriver,
                SweepCommand::CreateDriver(radio_settings()),
            ),
            SweepState::CreatingDriver => if completed {
                (SweepState::Probing, SweepCommand::ProbeConnection)
            } else {
                (SweepState::Halted, SweepCommand::Halt)
            },
            SweepState::Probing => if responding {
                (SweepState::OpeningPipe, SweepCommand::OpenWritingPipe)
            } else {
                (SweepState::Halted, SweepCommand::Halt)
            },
            SweepState::OpeningPipe => if completed {
                (SweepState::LeavingReceive, SweepCommand::StopListening)
            } else {
                (SweepState::Halted, SweepCommand::Halt)
            },
            SweepState::LeavingReceive => if completed {
                self.enter(0)
            } else {
                (SweepState::Halted, SweepCommand::Halt)
            },
            SweepState::Tuning { range_index, channel } => if completed {
                (SweepState::Sending { range_index, channel }, SweepCommand::Transmit)
            } else {
                self.leave(range_index, channel)
            },
            SweepState::Sending { range_index, channel } => (
                SweepState::Dwelling { range_index, channel },
                SweepCommand::Sleep(HOP_DWELL_MS),
            ),
            SweepState::Dwelling { range_index, channel } => self.leave(range_index, channel),
            SweepState::Pausing { range_index } => self.enter(range_index),
            SweepState::Halted => (SweepState::Halted, SweepCommand::Halt),
        };
        self.state = state;
        command
    }

    /// Enters the range at `range_index`.
    fn enter(&self, range_index: usize) -> (step: (SweepState, SweepCommand))
        requires
            table_valid(self.table()),
            range_index < self.table().len(),
        ensures
            step == enter_range(self.table(), range_index),
            step.0.fits(self.table()),
    {
        let first = self.table.ranges[range_index].start_channel;
        (SweepState::Tuning { range_index, channel: first }, SweepCommand::SetChannel(first))
    }

    /// Leaves `channel` of the range at `range_index`.
    fn leave(&self, range_index: usize, channel: u8) -> (step: (SweepState, SweepCommand))
        requires
            table_valid(self.table()),
            (SweepState::Dwelling { range_index, channel }).fits(self.table()),
        ensures
            step == leave_channel(self.table(), range_index, channel),
            step.0.fits(self.table()),
    {
        if channel < self.table.ranges[range_index].end_channel {
            let next = channel + 1;
            (SweepState::Tuning { range_index, channel: next }, SweepCommand::SetChannel(next))
        } else {
            let len = self.table.ranges.len();
            let following = (range_index + 1) % len;
            (SweepState::Pausing { range_index: following }, SweepCommand::Sleep(RANGE_PAUSE_MS))
        }
    }
}

} // verus!
