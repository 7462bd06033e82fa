//! The live scanner: bring the WiFi driver up, then scan every five seconds
//! and list what was found, the strongest signal first.

use vstd::prelude::*;
use vstd::set_lib::{lemma_int_range, lemma_len_subset, lemma_subset_equality, set_int_range};

verus! {

/// Time given to the driver after it was started.
pub const STARTUP_MS: u64 = 2000;

/// Time given to the driver after it was started again.
pub const RESTART_MS: u64 = 1000;

/// Time between two scans.
pub const SCAN_PERIOD_MS: u64 = 5000;

/// How an access point secures its network.
#[derive(Clone, Copy, Debug, PartialEq, Eq, Structural)]
pub enum AuthMethod {
    Open,
    Wep,
    Wpa,
    Wpa2Personal,
    WpaWpa2Personal,
    Wpa2Enterprise,
    Wpa3Personal,
    Wpa2Wpa3Personal,
    WapiPersonal,
}

/// The name under which a method is listed. A method that is not known, or
/// has no name of its own, is listed as unknown.
pub open spec fn auth_label(auth: Option<AuthMethod>) -> Seq<char> {
    match auth {
        Some(AuthMethod::Open) => "Open"@,
        Some(AuthMethod::Wep) => "WEP"@,
        Some(AuthMethod::Wpa) => "WPA"@,
        Some(AuthMethod::Wpa2Personal) => "WPA2-Personal"@,
        Some(AuthMethod::Wpa3Personal) => "WPA3-Personal"@,
        Some(AuthMethod::Wpa2Enterprise) => "WPA2-Enterprise"@,
        Some(AuthMethod::Wpa2Wpa3Personal) => "WPA2/WPA3"@,
        _ => "Unknown"@,
    }
}

/// The name under which a network is listed: its own, or a stand-in when it
/// hides its name.
pub open spec fn listed_name(ssid: Seq<char>) -> Seq<char> {
    if ssid.len() == 0 {
        "<Hidden network>"@
    } else {
        ssid
    }
}

/// Whether the network at index `a` is listed before the one at index `b`:
/// the stronger signal first, and of two equal signals the one found first.
pub open spec fn listed_before(signals: Seq<i8>, a: int, b: int) -> bool {
    signals[a] > signals[b] || (signals[a] == signals[b] && a < b)
}

/// Whether `order` lists each of the networks once, in listing order.
pub open spec fn is_ranking(signals: Seq<i8>, order: Seq<usize>) -> bool {
    &&& order.len() == signals.len()
    &&& forall|i: int| 0 <= i < order.len() ==> #[trigger] order[i] < signals.len()
    &&& forall|i: int, j: int|
        0 <= i < j < order.len() ==> listed_before(
            signals,
            #[trigger] order[i] as int,
            #[trigger] order[j] as int,
        )
}

/// The name under which a method is listed.
pub fn auth_method_to_string(auth: Option<AuthMethod>) -> (label: &'static str)
    ensures
        label@ == auth_label(auth),
{
    match auth {
        Some(AuthMethod::Open) => "Open",
        Some(AuthMethod::Wep) => "WEP",
        Some(AuthMethod::Wpa) => "WPA",
        Some(AuthMethod::Wpa2Personal) => "WPA2-Personal",
        Some(AuthMethod::Wpa3Personal) => "WPA3-Personal",
        Some(AuthMethod::Wpa2Enterprise) => "WPA2-Enterprise",
        Some(AuthMethod::Wpa2Wpa3Personal) => "WPA2/WPA3",
        None => "Unknown",
        _ => "Unknown",
    }
}

/// The name under which a network is listed.
pub fn display_ssid(ssid: &str) -> (name: String)
    ensures
        name@ == listed_name(ssid@),
{
    if ssid.is_empty() {
        "<Hidden network>".to_owned()
    } else {
        ssid.to_owned()
    }
}

/// The order in which networks are listed, given their signal strengths in
/// the order in which they were found: the indices of the networks, the
/// strongest signal first, equal signals in the order found.
pub fn rank_by_signal(signals: &Vec<i8>) -> (order: Vec<usize>)
    ensures
        is_ranking(signals@, order@),
{
    let mut order: Vec<usize> = Vec::with_capacity(signals.len());
    for next in 0..signals.len()
        invariant
            order@.len() == next,
            forall|i: int| 0 <= i < order@.len() ==> #[trigger] order@[i] < next,
            forall|i: int, j: int|
                0 <= i < j < order@.len() ==> listed_before(
                    signals@,
                    #[trigger] order@[i] as int,
                    #[trigger] order@[j] as int,
                ),
    {
        let signal = signals[next];
        let mut place: usize = 0;
        while place < order.len() && signals[order[place]] >= signal
            invariant
                place <= order@.len(),
                order@.len() == next,
                next < signals@.len(),
                signal == signals@[next as int],
                forall|i: int| 0 <= i < order@.len() ==> #[trigger] order@[i] < next,
                forall|i: int| 0 <= i < place ==> signals@[#[trigger] order@[i] as int] >= signal,
            decreases order@.len() - place,
        {
            place = place + 1;
        }
        let ghost before = order@;
        order.insert(place, next);
        proof {
            assert forall|i: int, j: int| 0 <= i < j < order@.len() implies listed_before(
                signals@,
                #[trigger] order@[i] as int,
                #[trigger] order@[j] as int,
            ) by {
                if i == place && place < j - 1 {
                    assert(listed_before(
                        signals@,
                        before[place as int] as int,
                        before[j - 1] as int,
                    ));
                }
            }
        }
    }
    order
}

/// A ranking lists every network, and none twice.
pub proof fn ranking_lists_each_once(signals: Seq<i8>, order: Seq<usize>)
    requires
        is_ranking(signals, order),
    ensures
        order.no_duplicates(),
        forall|k: usize| k < signals.len() ==> order.contains(k),
{
    let count = signals.len() as int;
    let listed = Seq::new(order.len(), |i: int| order[i] as int);
    // Two places never hold one network: one of the two would be listed
    // before itself.
    assert forall|i: int, j: int| 0 <= i < order.len() && 0 <= j < order.len() && i != j implies
        order[i] != order[j] by {
        if i < j {
            assert(listed_before(signals, order[i] as int, order[j] as int));
        } else {
            assert(listed_before(signals, order[j] as int, order[i] as int));
        }
    }
    // So the networks listed are as many as the networks, and as all of them
    // are networks, they are all the networks.
    listed.unique_seq_to_set();
    lemma_int_range(0, count);
    assert(listed.to_set().subset_of(set_int_range(0, count)));
    lemma_len_subset(listed.to_set(), set_int_range(0, count));
    lemma_subset_equality(listed.to_set(), set_int_range(0, count));
    assert forall|k: usize| k < signals.len() implies order.contains(k) by {
        assert(listed.to_set().contains(k as int));
        let i = choose|i: int| 0 <= i < listed.len() && listed[i] == k as int;
        assert(order[i] == k);
    }
}

/// Two rankings of the same signals agree on their first `upto` places.
proof fn rankings_agree(signals: Seq<i8>, a: Seq<usize>, b: Seq<usize>, upto: int)
    requires
        is_ranking(signals, a),
        is_ranking(signals, b),
        0 <= upto <= signals.len(),
    ensures
        forall|i: int| 0 <= i < upto ==> a[i] == b[i],
    decreases upto,
{
    if upto > 0 {
        let at = upto - 1;
        rankings_agree(signals, a, b, at);
        ranking_lists_each_once(signals, a);
        ranking_lists_each_once(signals, b);
        // Each ranking holds what the other has at this place, and not
        // before it, where they agree. Were it behind this place in both,
        // each of the two networks would be listed before the other.
        assert(b.contains(a[at]) && a.contains(b[at]));
        let in_b = choose|j: int| 0 <= j < b.len() && b[j] == a[at];
        let in_a = choose|j: int| 0 <= j < a.len() && a[j] == b[at];
        if in_b > at && in_a > at {
            assert(listed_before(signals, b[at] as int, b[in_b] as int));
            assert(listed_before(signals, a[at] as int, a[in_a] as int));
        }
    }
}

/// The signals decide the ranking: there is one ranking and no other.
pub proof fn ranking_is_unique(signals: Seq<i8>, a: Seq<usize>, b: Seq<usize>)
    requires
        is_ranking(signals, a),
        is_ranking(signals, b),
    ensures
        a == b,
{
    rankings_agree(signals, a, b, signals.len() as int);
}

/// Where the scanner stands. Each state names the command that is under
/// way.
#[derive(Clone, Copy, Debug, PartialEq, Eq, Structural)]
pub enum ScanState {
    /// Nothing has been asked for yet.
    Idle,
    /// The driver is being created.
    Creating,
    /// The driver is being wrapped for blocking use.
    Wrapping,
    /// The driver is being configured as a client.
    Configuring,
    /// The driver is being started.
    Starting,
    /// The driver is given time after its start.
    Settling,
    /// The driver is being asked whether it is started.
    Checking,
    /// The driver is being started again.
    Restarting,
    /// The driver is given time after it was started again.
    Recovering,
    /// A scan is under way.
    Scanning,
    /// The scanner rests until the next scan.
    Resting,
    /// The scanner has ended with an error.
    Ended,
}

/// What the caller is to do next.
#[derive(Clone, Copy, Debug, PartialEq, Eq, Structural)]
pub enum ScanCommand {
    /// Create the driver.
    CreateWifi,
    /// Wrap the driver for blocking use.
    WrapWifi,
    /// Configure the driver as a client with default settings.
    Configure,
    /// Start the driver.
    Start,
    /// Ask the driver whether it is started.
    CheckStarted,
    /// Scan, and list what was found.
    Scan,
    /// Sleep for this many milliseconds.
    Sleep(u64),
    /// Return the error of the command that failed.
    GiveUp,
}

/// How the last command ended.
#[derive(Clone, Copy, Debug, PartialEq, Eq, Structural)]
pub enum ScanEvent {
    /// The command succeeded.
    Completed,
    /// The command failed.
    Failed,
    /// The driver answered whether it is started.
    Running(bool),
}

/// The step that gives up: the scanner ends.
pub open spec fn give_up() -> (ScanState, ScanCommand) {
    (ScanState::Ended, ScanCommand::GiveUp)
}

/// Whether the scanner has a step to take on `event`. It has none when the
/// configuration is refused.
pub open spec fn scan_accepts(state: ScanState, event: ScanEvent) -> bool {
    state == ScanState::Configuring ==> event == ScanEvent::Completed
}

/// The scanner's transition: the state that follows `state` when the command
/// under way ends with `event`, and the command to perform next.
///
/// The scanner ends when the driver cannot be created, wrapped or started.
/// A scan that fails does not end it. Before each scan the driver is asked
/// whether it is started, and is started again unless it says so.
pub open spec fn scan_next(state: ScanState, event: ScanEvent) -> (ScanState, ScanCommand) {
    let completed = event == ScanEvent::Completed;
    match state {
        ScanState::Idle => (ScanState::Creating, ScanCommand::CreateWifi),
        ScanState::Creating => if completed {
            (ScanState::Wrapping, ScanCommand::WrapWifi)
        } else {
            give_up()
        },
        ScanState::Wrapping => if completed {
            (ScanState::Configuring, ScanCommand::Configure)
        } else {
            give_up()
        },
        ScanState::Configuring => (ScanState::Starting, ScanCommand::Start),
        ScanState::Starting => if completed {
            (ScanState::Settling, ScanCommand::Sleep(STARTUP_MS))
        } else {
            give_up()
        },
        ScanState::Settling => (ScanState::Checking, ScanCommand::CheckStarted),
        ScanState::Checking => if event == ScanEvent::Running(true) {
            (ScanState::Scanning, ScanCommand::Scan)
        } else {
            (ScanState::Restarting, ScanCommand::Start)
        },
        ScanState::Restarting => if completed {
            (ScanState::Recovering, ScanCommand::Sleep(RESTART_MS))
        } else {
            give_up()
        },
        ScanState::Recovering => (ScanState::Scanning, ScanCommand::Scan),
        ScanState::Scanning => (ScanState::Resting, ScanCommand::Sleep(SCAN_PERIOD_MS)),
        ScanState::Resting => (ScanState::Checking, ScanCommand::CheckStarted),
        ScanState::Ended => give_up(),
    }
}

/// Takes in how the command under way ended and returns the state that
/// follows and the command to perform next. The first step, from the idle
/// state, takes any event.
pub fn scan_step(state: ScanState, event: ScanEvent) -> (step: (ScanState, ScanCommand))
    requires
        scan_accepts(state, event),
    ensures
        step == scan_next(state, event),
{
    let completed = match event {
        ScanEvent::Completed => true,
        _ => false,
    };
    let running = match event {
        ScanEvent::Running(answer) => answer,
        _ => false,
    };
    match state {
        ScanState::Idle => (ScanState::Creating, ScanCommand::CreateWifi),
        ScanState::Creating => if completed {
            (ScanState::Wrapping, ScanCommand::WrapWifi)
        } else {
            (ScanState::Ended, ScanCommand::GiveUp)
        },
        ScanState::Wrapping => if completed {
            (ScanState::Configuring, ScanCommand::Configure)
        } else {
            (ScanState::Ended, ScanCommand::GiveUp)
        },
        ScanState::Configuring => (ScanState::Starting, ScanCommand::Start),
        ScanState::Starting => if completed {
            (ScanState::Settling, ScanCommand::Sleep(STARTUP_MS))
        } else {
            (ScanState::Ended, ScanCommand::GiveUp)
        },
        ScanState::Settling => (ScanState::Checking, ScanCommand::CheckStarted),
        ScanState::Checking => if running {
            (ScanState::Scanning, ScanCommand::Scan)
        } else {
            (ScanState::Restarting, ScanCommand::Start)
        },
        ScanState::Restarting => if completed {
            (ScanState::Recovering, ScanCommand::Sleep(RESTART_MS))
        } else {
            (ScanState::Ended, ScanCommand::GiveUp)
        },
        ScanState::Recovering => (ScanState::Scanning, ScanCommand::Scan),
        ScanState::Scanning => (ScanState::Resting, ScanCommand::Sleep(SCAN_PERIOD_MS)),
        ScanState::Resting => (ScanState::Checking, ScanCommand::CheckStarted),
        ScanState::Ended => (ScanState::Ended, ScanCommand::GiveUp),
    }
}

/// Whether the scanner has a step to take on `event`.
pub fn scan_step_accepts(state: ScanState, event: ScanEvent) -> (accepted: bool)
    ensures
        accepted == scan_accepts(state, event),
{
    match (state, event) {
        (ScanState::Configuring, ScanEvent::Completed) => true,
        (ScanState::Configuring, _) => false,
        _ => true,
    }
}

/// A scan that fails does not end the scanner: however the scan ends
/// (`scanned`) and whatever follows the rest (`rested`), the scanner rests
/// for five seconds and asks the driver whether it is started. When it is,
/// the next scan follows at once; when it is not, the scan follows once the
/// driver has been started again and given a second.
pub proof fn scanner_scans_again(
    scanned: ScanEvent,
    rested: ScanEvent,
    checked: ScanEvent,
    recovered: ScanEvent,
)
    ensures
        ({
            let resting = scan_next(ScanState::Scanning, scanned);
            let checking = scan_next(resting.0, rested);
            let after_check = scan_next(checking.0, checked);
            let restarted = scan_next(after_check.0, ScanEvent::Completed);
            let after_recovery = scan_next(restarted.0, recovered);
            &&& resting == (ScanState::Resting, ScanCommand::Sleep(SCAN_PERIOD_MS))
            &&& checking == (ScanState::Checking, ScanCommand::CheckStarted)
            &&& if checked == ScanEvent::Running(true) {
                after_check == (ScanState::Scanning, ScanCommand::Scan)
            } else {
                &&& after_check == (ScanState::Restarting, ScanCommand::Start)
                &&& restarted == (ScanState::Recovering, ScanCommand::Sleep(RESTART_MS))
                &&& after_recovery == (ScanState::Scanning, ScanCommand::Scan)
            }
        }),
{
}

/// The scanner ends only when the driver cannot be created, wrapped or
/// started, and once ended it stays so.
pub proof fn scanner_ends_on_driver_failure(state: ScanState, event: ScanEvent)
    requires
        scan_accepts(state, event),
    ensures
        scan_next(state, event).0 == ScanState::Ended <==> {
            ||| state == ScanState::Ended
            ||| event != ScanEvent::Completed && {
                ||| state == ScanState::Creating
                ||| state == ScanState::Wrapping
                ||| state == ScanState::Starting
                ||| state == ScanState::Restarting
            }
        },
{
}

} // verus!
