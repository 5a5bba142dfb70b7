//! The presence monitor: what one poll of the enumeration leads to.
//!
//! Each poll compares the devices that are attached now with those of the poll
//! before. The comparison goes by `unique_id` alone. What has to happen is
//! returned as a list of [`MonitorAction`]s, in the order in which the caller
//! carries them out.

use vstd::prelude::*;
use vstd::seq_lib::lemma_flatten_concat;
use vstd::string::StringExecFns;
use crate::device::{DeviceIdentity, DeviceIdentityView};
use crate::notification::{Notification, NotificationView};
use crate::text::{tail_chars, tail_of};

verus! {

/// Milliseconds between two polls of the enumeration.
pub const POLL_INTERVAL_MS: u64 = 1000;

/// Milliseconds that the monitor waits after its start, so that a listener
/// can attach before the first status is sent.
pub const SETTLE_DELAY_MS: u64 = 500;

/// Milliseconds after the first status at which the monitor sends one more
/// line, by which a listener can tell that it is attached.
pub const LISTENER_TEST_DELAY_MS: u64 = 3000;

/// Milliseconds after the last device left at which the monitor reports that
/// it is scanning again.
pub const RESCAN_DELAY_MS: u64 = 1000;

/// Seconds within which the worker of a device that has left has to shut
/// down. A worker that has not shut down by then is left alone.
pub const WORKER_SHUTDOWN_TIMEOUT_SECS: u64 = 5;

/// How many characters of a device's identifier a status line shows.
pub const SHORT_ID_CHARS: usize = 8;

/// One thing for the caller of the monitor to do.
#[derive(Debug, PartialEq, Eq)]
pub enum MonitorAction {
    /// Wait this long before the next action.
    Pause { millis: u64 },
    /// Send the event to the listener now.
    Emit { event: Notification },
    /// Send the event after the delay, without holding up the next action.
    EmitLater { delay_ms: u64, event: Notification },
    /// Start the readiness resolution of this device, detached from the poll.
    Resolve { device: DeviceIdentity },
    /// Take the worker of this device out of the registry and shut it down,
    /// detached from the poll, waiting for the shutdown no longer than the
    /// timeout. A shutdown that fails or takes longer is not tried again.
    ReleaseWorker { device_id: String, timeout_secs: u64 },
}

/// The mathematical model of a [`MonitorAction`].
pub enum MonitorActionView {
    Pause { millis: u64 },
    Emit { event: NotificationView },
    EmitLater { delay_ms: u64, event: NotificationView },
    Resolve { device: DeviceIdentityView },
    ReleaseWorker { device_id: Seq<char>, timeout_secs: u64 },
}

impl View for MonitorAction {
    type V = MonitorActionView;

    open spec fn view(&self) -> MonitorActionView {
        match self {
            MonitorAction::Pause { millis } => MonitorActionView::Pause { millis: *millis },
            MonitorAction::Emit { event } => MonitorActionView::Emit { event: event@ },
            MonitorAction::EmitLater { delay_ms, event } => MonitorActionView::EmitLater {
                delay_ms: *delay_ms,
                event: event@,
            },
            MonitorAction::Resolve { device } => MonitorActionView::Resolve { device: device@ },
            MonitorAction::ReleaseWorker {
                device_id,
                timeout_secs,
            } => MonitorActionView::ReleaseWorker {
                device_id: device_id@,
                timeout_secs: *timeout_secs,
            },
        }
    }
}

impl DeepView for MonitorAction {
    type V = MonitorActionView;

    open spec fn deep_view(&self) -> MonitorActionView {
        self@
    }
}

/// The status line while no device is attached.
pub open spec fn scanning_text() -> Seq<char> {
    "Scanning for devices…"@
}

/// The line by which a listener can tell that it is attached.
pub open spec fn listener_test_text() -> Seq<char> {
    "Test message after 3 seconds"@
}

/// The status line for a device that has just appeared: the fixed words and
/// the end of its identifier.
pub open spec fn device_found_text(unique_id: Seq<char>) -> Seq<char> {
    "Device found "@ + tail_of(unique_id, SHORT_ID_CHARS as nat)
}

/// The status line for a device that has just left.
pub open spec fn device_disconnected_text() -> Seq<char> {
    "Device disconnected"@
}

/// Whether a device with this identifier is in the snapshot.
pub open spec fn has_device(snapshot: Seq<DeviceIdentityView>, unique_id: Seq<char>) -> bool {
    exists|i: int| 0 <= i < snapshot.len() && (#[trigger] snapshot[i]).unique_id == unique_id
}

/// The devices of `devices` whose identifier is not in `reference`, in their
/// order in `devices`.
pub open spec fn absent_from(
    devices: Seq<DeviceIdentityView>,
    reference: Seq<DeviceIdentityView>,
) -> Seq<DeviceIdentityView> {
    devices.filter(|d: DeviceIdentityView| !has_device(reference, d.unique_id))
}

/// What follows the appearance of one device.
pub open spec fn arrival_actions(device: DeviceIdentityView) -> Seq<MonitorActionView> {
    seq![
        MonitorActionView::Emit { event: NotificationView::DeviceConnected { device } },
        MonitorActionView::Emit {
            event: NotificationView::status(device_found_text(device.unique_id)),
        },
        MonitorActionView::Resolve { device },
    ]
}

/// What follows the disappearance of one device.
pub open spec fn departure_actions(device: DeviceIdentityView) -> Seq<MonitorActionView> {
    seq![
        MonitorActionView::Emit { event: NotificationView::status(device_disconnected_text()) },
        MonitorActionView::Emit {
            event: NotificationView::DeviceDisconnected { device_id: device.unique_id },
        },
        MonitorActionView::ReleaseWorker {
            device_id: device.unique_id,
            timeout_secs: WORKER_SHUTDOWN_TIMEOUT_SECS,
        },
    ]
}

/// The arrival actions of every device of `current` that `previous` lacks.
pub open spec fn arrivals(
    previous: Seq<DeviceIdentityView>,
    current: Seq<DeviceIdentityView>,
) -> Seq<MonitorActionView> {
    absent_from(current, previous).map_values(|d: DeviceIdentityView| arrival_actions(d)).flatten()
}

/// The departure actions of every device of `previous` that `current` lacks.
pub open spec fn departures(
    previous: Seq<DeviceIdentityView>,
    current: Seq<DeviceIdentityView>,
) -> Seq<MonitorActionView> {
    absent_from(previous, current).map_values(
        |d: DeviceIdentityView| departure_actions(d),
    ).flatten()
}

/// The scanning status, sent after a delay.
pub open spec fn rescan_action() -> MonitorActionView {
    MonitorActionView::EmitLater {
        delay_ms: RESCAN_DELAY_MS,
        event: NotificationView::status(scanning_text()),
    }
}

/// When the last device has left, the scanning status is sent again after a
/// delay.
pub open spec fn rescan_actions(
    previous: Seq<DeviceIdentityView>,
    current: Seq<DeviceIdentityView>,
) -> Seq<MonitorActionView> {
    if current.len() == 0 && previous.len() > 0 {
        seq![rescan_action()]
    } else {
        Seq::empty()
    }
}

/// Everything that one poll leads to: arrivals first, then departures, then
/// the return to scanning.
pub open spec fn tick_actions(
    previous: Seq<DeviceIdentityView>,
    current: Seq<DeviceIdentityView>,
) -> Seq<MonitorActionView> {
    arrivals(previous, current) + departures(previous, current) + rescan_actions(previous, current)
}

/// What the monitor does once, before its first poll.
pub open spec fn startup_actions() -> Seq<MonitorActionView> {
    seq![
        MonitorActionView::Pause { millis: SETTLE_DELAY_MS },
        MonitorActionView::Emit { event: NotificationView::status(scanning_text()) },
        MonitorActionView::EmitLater {
            delay_ms: LISTENER_TEST_DELAY_MS,
            event: NotificationView::status(listener_test_text()),
        },
    ]
}

/// Extending the devices under comparison by one extends the actions by that
/// device's, or by nothing where the reference holds its identifier.
proof fn lemma_actions_push(
    devices: Seq<DeviceIdentityView>,
    device: DeviceIdentityView,
    reference: Seq<DeviceIdentityView>,
    per_device: spec_fn(DeviceIdentityView) -> Seq<MonitorActionView>,
)
    ensures
        absent_from(devices.push(device), reference).map_values(per_device).flatten()
            == absent_from(devices, reference).map_values(per_device).flatten() + (if has_device(
            reference,
            device.unique_id,
        ) {
            Seq::empty()
        } else {
            per_device(device)
        }),
{
    let keep = |d: DeviceIdentityView| !has_device(reference, d.unique_id);
    let kept = devices.filter(keep);
    devices.lemma_filter_push(device, keep);
    if has_device(reference, device.unique_id) {
        assert(kept.map_values(per_device).flatten() + Seq::<MonitorActionView>::empty()
            =~= kept.map_values(per_device).flatten());
    } else {
        let one = seq![device].map_values(per_device);
        assert(kept.push(device).map_values(per_device) =~= kept.map_values(per_device) + one);
        lemma_flatten_concat(kept.map_values(per_device), one);
        one.lemma_flatten_one_element();
    }
}

/// How many devices of the snapshot have this identifier.
pub open spec fn occurrences(snapshot: Seq<DeviceIdentityView>, unique_id: Seq<char>) -> nat {
    snapshot.filter(|d: DeviceIdentityView| d.unique_id == unique_id).len()
}

/// Holds of the actions that send a `device:connected` event for the device
/// `unique_id`.
pub open spec fn announces_connect(unique_id: Seq<char>) -> spec_fn(MonitorActionView) -> bool {
    |action: MonitorActionView|
        action matches MonitorActionView::Emit {
            event: NotificationView::DeviceConnected { device },
        } && device.unique_id == unique_id
}

/// Holds of the actions that start the readiness resolution of the device
/// `unique_id`.
pub open spec fn starts_resolution(unique_id: Seq<char>) -> spec_fn(MonitorActionView) -> bool {
    |action: MonitorActionView|
        action matches MonitorActionView::Resolve { device } && device.unique_id == unique_id
}

/// Holds of the actions that send a `device:disconnected` event for the
/// device `unique_id`.
pub open spec fn announces_disconnect(unique_id: Seq<char>) -> spec_fn(MonitorActionView) -> bool {
    |action: MonitorActionView|
        action == (MonitorActionView::Emit {
            event: NotificationView::DeviceDisconnected { device_id: unique_id },
        })
}

/// Holds of the actions that release the worker of the device `unique_id`
/// with the fixed bound on its shutdown.
pub open spec fn releases_worker(unique_id: Seq<char>) -> spec_fn(MonitorActionView) -> bool {
    |action: MonitorActionView|
        action == (MonitorActionView::ReleaseWorker {
            device_id: unique_id,
            timeout_secs: WORKER_SHUTDOWN_TIMEOUT_SECS,
        })
}

/// How many of the actions `wanted` holds of.
pub open spec fn count_where(
    actions: Seq<MonitorActionView>,
    wanted: spec_fn(MonitorActionView) -> bool,
) -> nat {
    actions.filter(wanted).len()
}

/// Where each compared device's actions hold one wanted action if `counts`
/// is set and the device is `unique_id`, and none otherwise, the wanted
/// actions are as many as the occurrences of `unique_id` among the devices
/// if `counts` is set and the reference does not hold it, and none otherwise.
proof fn lemma_counted(
    devices: Seq<DeviceIdentityView>,
    reference: Seq<DeviceIdentityView>,
    per_device: spec_fn(DeviceIdentityView) -> Seq<MonitorActionView>,
    wanted: spec_fn(MonitorActionView) -> bool,
    unique_id: Seq<char>,
    counts: bool,
)
    requires
        forall|d: DeviceIdentityView|
            count_where(#[trigger] per_device(d), wanted) == if counts && d.unique_id
                == unique_id {
                1nat
            } else {
                0nat
            },
    ensures
        count_where(absent_from(devices, reference).map_values(per_device).flatten(), wanted)
            == if counts && !has_device(reference, unique_id) {
            occurrences(devices, unique_id)
        } else {
            0
        },
    decreases devices.len(),
{
    if devices.len() == 0 {
        reveal(Seq::filter);
        assert(absent_from(devices, reference) =~= Seq::empty());
        assert(absent_from(devices, reference).map_values(per_device) =~= Seq::empty());
    } else {
        let rest = devices.drop_last();
        let device = devices.last();
        assert(devices =~= rest.push(device));
        lemma_counted(rest, reference, per_device, wanted, unique_id, counts);
        lemma_actions_push(rest, device, reference, per_device);
        let earlier = absent_from(rest, reference).map_values(per_device).flatten();
        let added = if has_device(reference, device.unique_id) {
            Seq::empty()
        } else {
            per_device(device)
        };
        Seq::filter_distributes_over_add(earlier, added, wanted);
        rest.lemma_filter_push(device, |d: DeviceIdentityView| d.unique_id == unique_id);
        if has_device(reference, device.unique_id) {
            assert(added.filter(wanted) =~= Seq::empty()) by {
                reveal(Seq::filter);
            }
        }
    }
}

/// How many of the first three actions are wanted.
spec fn wanted_of_three(
    actions: Seq<MonitorActionView>,
    wanted: spec_fn(MonitorActionView) -> bool,
) -> nat {
    (if wanted(actions[0]) {
        1nat
    } else {
        0nat
    }) + (if wanted(actions[1]) {
        1nat
    } else {
        0nat
    }) + (if wanted(actions[2]) {
        1nat
    } else {
        0nat
    })
}

/// Counting in a sequence of three actions.
proof fn lemma_count_three(
    actions: Seq<MonitorActionView>,
    wanted: spec_fn(MonitorActionView) -> bool,
)
    requires
        actions.len() == 3,
    ensures
        count_where(actions, wanted) == wanted_of_three(actions, wanted),
{
    reveal_with_fuel(Seq::filter, 4);
    let two = actions.drop_last();
    let one = two.drop_last();
    assert(one.drop_last() =~= Seq::empty());
    assert(two.last() == actions[1]);
    assert(one.last() == actions[0]);
}

/// Counting over one poll. Where every arriving device `unique_id` brings one
/// wanted action and nothing else brings any, the wanted actions are as many
/// as the occurrences of `unique_id` in the current snapshot, or none where
/// the previous snapshot held it. The same holds with the snapshots in each
/// other's place where the departing devices bring the wanted actions.
proof fn lemma_tick_counted(
    previous: Seq<DeviceIdentityView>,
    current: Seq<DeviceIdentityView>,
    wanted: spec_fn(MonitorActionView) -> bool,
    unique_id: Seq<char>,
    on_arrival: bool,
)
    requires
        forall|d: DeviceIdentityView|
            wanted_of_three(#[trigger] arrival_actions(d), wanted) == if on_arrival
                && d.unique_id == unique_id {
                1nat
            } else {
                0nat
            },
        forall|d: DeviceIdentityView|
            wanted_of_three(#[trigger] departure_actions(d), wanted) == if !on_arrival
                && d.unique_id == unique_id {
                1nat
            } else {
                0nat
            },
        !wanted(rescan_action()),
    ensures
        count_where(tick_actions(previous, current), wanted) == if on_arrival {
            if has_device(previous, unique_id) {
                0
            } else {
                occurrences(current, unique_id)
            }
        } else {
            if has_device(current, unique_id) {
                0
            } else {
                occurrences(previous, unique_id)
            }
        },
{
    let arriving = |d: DeviceIdentityView| arrival_actions(d);
    let departing = |d: DeviceIdentityView| departure_actions(d);
    assert forall|d: DeviceIdentityView|
        count_where(#[trigger] arriving(d), wanted) == if on_arrival && d.unique_id == unique_id {
            1nat
        } else {
            0nat
        } by {
        lemma_count_three(arrival_actions(d), wanted);
    }
    assert forall|d: DeviceIdentityView|
        count_where(#[trigger] departing(d), wanted) == if !on_arrival && d.unique_id
            == unique_id {
            1nat
        } else {
            0nat
        } by {
        lemma_count_three(departure_actions(d), wanted);
    }
    lemma_counted(current, previous, arriving, wanted, unique_id, on_arrival);
    lemma_counted(previous, current, departing, wanted, unique_id, !on_arrival);
    let arrived = arrivals(previous, current);
    let departed = departures(previous, current);
    let rescan = rescan_actions(previous, current);
    assert(count_where(rescan, wanted) == 0) by {
        reveal_with_fuel(Seq::filter, 2);
        if rescan.len() > 0 {
            assert(rescan.drop_last() =~= Seq::empty());
        }
    }
    Seq::filter_distributes_over_add(arrived, departed, wanted);
    Seq::filter_distributes_over_add(arrived + departed, rescan, wanted);
}

/// Two snapshots that hold the same identifiers cause nothing, in whatever
/// order and however often each snapshot lists them.
pub proof fn lemma_same_devices_cause_nothing(
    previous: Seq<DeviceIdentityView>,
    current: Seq<DeviceIdentityView>,
)
    requires
        forall|unique_id: Seq<char>|
            has_device(previous, unique_id) <==> has_device(current, unique_id),
    ensures
        tick_actions(previous, current) == Seq::<MonitorActionView>::empty(),
{
    let new_here = |d: DeviceIdentityView| !has_device(previous, d.unique_id);
    let gone_here = |d: DeviceIdentityView| !has_device(current, d.unique_id);
    assert forall|i: int| 0 <= i < current.len() implies !new_here(#[trigger] current[i]) by {
        assert(has_device(current, current[i].unique_id));
    }
    assert forall|i: int| 0 <= i < previous.len() implies !gone_here(#[trigger] previous[i]) by {
        assert(has_device(previous, previous[i].unique_id));
    }
    current.lemma_all_neg_filter_empty(new_here);
    previous.lemma_all_neg_filter_empty(gone_here);
    assert(absent_from(current, previous).map_values(|d: DeviceIdentityView| arrival_actions(d))
        =~= Seq::empty());
    assert(absent_from(previous, current).map_values(|d: DeviceIdentityView| departure_actions(d))
        =~= Seq::empty());
    if previous.len() > 0 {
        assert(has_device(previous, previous[0].unique_id));
        assert(current.len() > 0);
    }
    assert(tick_actions(previous, current) =~= Seq::empty());
}

/// One poll announces the connection of a device, and starts its resolution,
/// once for each time that its identifier stands in the current snapshot, and
/// not at all where the identifier stood in the previous snapshot already.
pub proof fn lemma_connects_counted(
    previous: Seq<DeviceIdentityView>,
    current: Seq<DeviceIdentityView>,
    unique_id: Seq<char>,
)
    ensures
        count_where(tick_actions(previous, current), announces_connect(unique_id)) == if has_device(
            previous,
            unique_id,
        ) {
            0
        } else {
            occurrences(current, unique_id)
        },
        count_where(tick_actions(previous, current), starts_resolution(unique_id)) == if has_device(
            previous,
            unique_id,
        ) {
            0
        } else {
            occurrences(current, unique_id)
        },
{
    lemma_tick_counted(previous, current, announces_connect(unique_id), unique_id, true);
    lemma_tick_counted(previous, current, starts_resolution(unique_id), unique_id, true);
}

/// One poll announces the disconnection of a device, and releases its worker,
/// once for each time that its identifier stood in the previous snapshot, and
/// not at all where the identifier stands in the current snapshot.
pub proof fn lemma_disconnects_counted(
    previous: Seq<DeviceIdentityView>,
    current: Seq<DeviceIdentityView>,
    unique_id: Seq<char>,
)
    ensures
        count_where(tick_actions(previous, current), announces_disconnect(unique_id)) == if has_device(
            current,
            unique_id,
        ) {
            0
        } else {
            occurrences(previous, unique_id)
        },
        count_where(tick_actions(previous, current), releases_worker(unique_id)) == if has_device(
            current,
            unique_id,
        ) {
            0
        } else {
            occurrences(previous, unique_id)
        },
{
    lemma_tick_counted(previous, current, announces_disconnect(unique_id), unique_id, false);
    lemma_tick_counted(previous, current, releases_worker(unique_id), unique_id, false);
}

/// Whether a device with this identifier is in the snapshot.
pub fn snapshot_has(snapshot: &Vec<DeviceIdentity>, unique_id: &String) -> (found: bool)
    ensures
        found == has_device(snapshot.deep_view(), unique_id@),
{
    let mut i: usize = 0;
    while i < snapshot.len()
        invariant
            i <= snapshot.len(),
            forall|k: int|
                0 <= k < i ==> (#[trigger] snapshot.deep_view()[k]).unique_id != unique_id@,
        decreases snapshot.len() - i,
    {
        if snapshot[i].unique_id == *unique_id {
            assert(snapshot.deep_view()[i as int].unique_id == unique_id@);
            return true;
        }
        i += 1;
    }
    false
}

/// Appends the actions that follow the appearance of `device`.
fn push_arrival(actions: &mut Vec<MonitorAction>, device: &DeviceIdentity)
    ensures
        final(actions).deep_view() == old(actions).deep_view() + arrival_actions(device@),
{
    let short_id = tail_chars(device.unique_id.as_str(), SHORT_ID_CHARS);
    let found = String::from_str("Device found ").concat(short_id);
    actions.push(
        MonitorAction::Emit { event: Notification::DeviceConnected { device: device.clone() } },
    );
    actions.push(MonitorAction::Emit { event: Notification::StatusUpdate { status: found } });
    actions.push(MonitorAction::Resolve { device: device.clone() });
    assert(actions.deep_view() =~= old(actions).deep_view() + arrival_actions(device@));
}

/// Appends the actions that follow the disappearance of `device`.
fn push_departure(actions: &mut Vec<MonitorAction>, device: &DeviceIdentity)
    ensures
        final(actions).deep_view() == old(actions).deep_view() + departure_actions(device@),
{
    actions.push(MonitorAction::Emit { event: Notification::status("Device disconnected") });
    actions.push(
        MonitorAction::Emit {
            event: Notification::DeviceDisconnected { device_id: device.unique_id.clone() },
        },
    );
    actions.push(
        MonitorAction::ReleaseWorker {
            device_id: device.unique_id.clone(),
            timeout_secs: WORKER_SHUTDOWN_TIMEOUT_SECS,
        },
    );
    assert(actions.deep_view() =~= old(actions).deep_view() + departure_actions(device@));
}

/// The actions that one poll leads to, given the snapshot of the poll before
/// and the snapshot of this one.
pub fn plan_tick(previous: &Vec<DeviceIdentity>, current: &Vec<DeviceIdentity>) -> (actions: Vec<
    MonitorAction,
>)
    ensures
        actions.deep_view() == tick_actions(previous.deep_view(), current.deep_view()),
{
    let ghost before = previous.deep_view();
    let ghost now = current.deep_view();
    let mut actions: Vec<MonitorAction> = Vec::new();
    let mut i: usize = 0;
    assert(now.take(0) =~= Seq::empty());
    assert(arrivals(before, Seq::empty()) =~= Seq::empty()) by {
        reveal(Seq::filter);
    }
    while i < current.len()
        invariant
            i <= current.len(),
            before == previous.deep_view(),
            now == current.deep_view(),
            actions.deep_view() == arrivals(before, now.take(i as int)),
        decreases current.len() - i,
    {
        let device = &current[i];
        proof {
            assert(now.take(i + 1) =~= now.take(i as int).push(device@));
            lemma_actions_push(
                now.take(i as int),
                device@,
                before,
                |d: DeviceIdentityView| arrival_actions(d),
            );
        }
        if !snapshot_has(previous, &device.unique_id) {
            push_arrival(&mut actions, device);
        }
        i += 1;
    }
    assert(now.take(i as int) =~= now);
    let ghost arrived = actions.deep_view();
    let mut j: usize = 0;
    assert(before.take(0) =~= Seq::empty());
    assert(departures(Seq::empty(), now) =~= Seq::empty()) by {
        reveal(Seq::filter);
    }
    while j < previous.len()
        invariant
            j <= previous.len(),
            before == previous.deep_view(),
            now == current.deep_view(),
            arrived == arrivals(before, now),
            actions.deep_view() == arrived + departures(before.take(j as int), now),
        decreases previous.len() - j,
    {
        let device = &previous[j];
        proof {
            assert(before.take(j + 1) =~= before.take(j as int).push(device@));
            lemma_actions_push(
                before.take(j as int),
                device@,
                now,
                |d: DeviceIdentityView| departure_actions(d),
            );
        }
        if !snapshot_has(current, &device.unique_id) {
            push_departure(&mut actions, device);
        }
        j += 1;
    }
    assert(before.take(j as int) =~= before);
    if current.len() == 0 && previous.len() > 0 {
        actions.push(
            MonitorAction::EmitLater {
                delay_ms: RESCAN_DELAY_MS,
                event: Notification::status("Scanning for devices…"),
            },
        );
    }
    assert(actions.deep_view() =~= tick_actions(before, now));
    actions
}

/// What the monitor does once, before its first poll.
pub fn plan_startup() -> (actions: Vec<MonitorAction>)
    ensures
        actions.deep_view() == startup_actions(),
{
    let mut actions: Vec<MonitorAction> = Vec::new();
    actions.push(MonitorAction::Pause { millis: SETTLE_DELAY_MS });
    actions.push(MonitorAction::Emit { event: Notification::status("Scanning for devices…") });
    actions.push(
        MonitorAction::EmitLater {
            delay_ms: LISTENER_TEST_DELAY_MS,
            event: Notification::status("Test message after 3 seconds"),
        },
    );
    assert(actions.deep_view() =~= startup_actions());
    actions
}

/// The poll loop's memory: the snapshot of the poll before.
pub struct PresenceMonitor {
    previous: Vec<DeviceIdentity>,
}

impl PresenceMonitor {
    /// The snapshot that the next poll is compared with.
    pub closed spec fn snapshot(&self) -> Seq<DeviceIdentityView> {
        self.previous.deep_view()
    }

    /// A monitor that has seen no device yet.
    pub fn new() -> (monitor: PresenceMonitor)
        ensures
            monitor.snapshot() == Seq::<DeviceIdentityView>::empty(),
    {
        let monitor = PresenceMonitor { previous: Vec::new() };
        assert(monitor.previous.deep_view() =~= Seq::empty());
        monitor
    }

    /// The devices of the poll before.
    pub fn previous(&self) -> (devices: &Vec<DeviceIdentity>)
        ensures
            devices.deep_view() == self.snapshot(),
    {
        &self.previous
    }

    /// One poll: returns what follows from the change between the snapshot of
    /// the poll before and `current`, and keeps `current` for the next poll.
    pub fn tick(&mut self, current: Vec<DeviceIdentity>) -> (actions: Vec<MonitorAction>)
        ensures
            actions.deep_view() == tick_actions(old(self).snapshot(), current.deep_view()),
            final(self).snapshot() == current.deep_view(),
    {
        let actions = plan_tick(&self.previous, &current);
        self.previous = current;
        actions
    }
}

} // verus!
