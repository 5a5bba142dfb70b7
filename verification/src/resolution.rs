//! Readiness resolution: from a newly connected device to a readiness report.
//!
//! A resolution is a small state machine. The caller performs the outside
//! work (the feature handshake through the device's worker, the fallback
//! probe, the readiness evaluation) and hands each result to
//! [`ResolutionTask::step`], which answers with the next things to do. A
//! resolution never fails towards its caller: every failure ends in a
//! notification.

use vstd::prelude::*;
use vstd::string::StringExecFns;
use crate::device::{
    DeviceFeatures, DeviceFeaturesView, DeviceIdentity, DeviceIdentityView, ReadinessVerdict,
};
use crate::notification::{Notification, NotificationView};
use crate::text::{contains_text, occurs_at, starts_with_text, str_contains, str_starts_with};

verus! {

/// Seconds after which a feature handshake counts as timed out.
pub const HANDSHAKE_TIMEOUT_SECS: u64 = 5;

/// The words that open the explanation of a device that another program holds.
pub const IN_USE_PREAMBLE: &'static str =
    "🔒 KeepKey Device Already In Use\n\nYour KeepKey device is currently being used by another application.\n\nCommon causes:\n• KeepKey Desktop app is running\n• KeepKey Bridge is running\n• Another wallet application is connected\n• Previous connection wasn't properly closed\n\nSolutions:\n1. Close KeepKey Desktop app completely\n2. Close any other wallet applications\n3. Unplug and reconnect your KeepKey device\n4. Try again\n\nTechnical details: ";

/// The status line at the start of a resolution.
pub open spec fn getting_features_text() -> Seq<char> {
    "Getting features…"@
}

/// The status line once the features are known: the label, or `Unlabeled`,
/// and the version.
pub open spec fn features_text(features: DeviceFeaturesView) -> Seq<char> {
    (match features.label {
        Some(label) => label,
        None => "Unlabeled"@,
    }) + " v"@ + features.version
}

/// The status line for a verdict. All three needs together are reported as
/// one; otherwise the first need counts, bootloader before firmware before
/// setup.
pub open spec fn verdict_text(verdict: ReadinessVerdict) -> Seq<char> {
    if verdict.needs_bootloader_update && verdict.needs_firmware_update
        && verdict.needs_initialization {
        "Device needs updates"@
    } else if verdict.needs_bootloader_update {
        "Bootloader update needed"@
    } else if verdict.needs_firmware_update {
        "Firmware update needed"@
    } else if verdict.needs_initialization {
        "Device setup needed"@
    } else {
        "Device ready"@
    }
}

/// The error text of a handshake that did not answer in time.
pub open spec fn timeout_text() -> Seq<char> {
    "Timeout while fetching device features"@
}

/// The error text of a handshake that failed with `message`.
pub open spec fn handshake_failure_text(message: Seq<char>) -> Seq<char> {
    "Failed to get device features: "@ + message
}

/// The error text when the handshake failed with `message` and the fallback
/// probe after it with `probe_message`.
pub open spec fn fallback_failure_text(message: Seq<char>, probe_message: Seq<char>) -> Seq<char> {
    "Failed to get device features: "@ + message + " (OOB attempt: "@ + probe_message + ")"@
}

/// The failure text of a fallback probe that could not be run to its end.
pub open spec fn task_failure_text(message: Seq<char>) -> Seq<char> {
    "Task execution error: "@ + message
}

/// Whether a handshake failure says that the device did not recognise the
/// request, which is the sign of a bootloader that predates it.
pub open spec fn unrecognized_request(message: Seq<char>) -> bool {
    contains_text(message, "Unknown message"@) || contains_text(message, "Unexpected response"@)
}

/// Whether an error text says that another program holds the device.
pub open spec fn device_in_use(error: Seq<char>) -> bool {
    contains_text(error, "Device Already In Use"@) || contains_text(error, "already claimed"@)
        || contains_text(error, "🔒"@)
}

/// The text of an access error. An error that says the device is in use is
/// explained to the user, unless it carries the explanation already; any
/// other error is reported as it is.
pub open spec fn access_error_text(error: Seq<char>) -> Seq<char> {
    if !device_in_use(error) || contains_text(error, "🔒"@) {
        error
    } else {
        IN_USE_PREAMBLE@ + error
    }
}

/// The mode in which a device answered the fallback probe.
#[derive(Debug, Clone, Copy, PartialEq, Eq, Structural)]
pub enum OobMode {
    Bootloader,
    Wallet,
}

/// A device that answered the fallback probe counts as being in bootloader
/// mode when it says so, when its version is the legacy marker or holds
/// `0.0.0`, or when it is not initialised and its version begins with `1.`.
pub open spec fn oob_mode_of(features: DeviceFeaturesView) -> OobMode {
    if features.bootloader_mode || features.version == "Legacy Bootloader"@ || contains_text(
        features.version,
        "0.0.0"@,
    ) || (!features.initialized && starts_with_text(features.version, "1."@)) {
        OobMode::Bootloader
    } else {
        OobMode::Wallet
    }
}

/// How a feature handshake ended.
#[derive(Debug, PartialEq, Eq)]
pub enum HandshakeOutcome {
    /// The device answered with its features.
    Features { features: DeviceFeatures },
    /// The exchange failed; `message` describes the failure.
    Failure { message: String },
    /// No answer came within the timeout.
    TimedOut,
}

/// The mathematical model of a [`HandshakeOutcome`].
pub enum HandshakeOutcomeView {
    Features { features: DeviceFeaturesView },
    Failure { message: Seq<char> },
    TimedOut,
}

impl View for HandshakeOutcome {
    type V = HandshakeOutcomeView;

    open spec fn view(&self) -> HandshakeOutcomeView {
        match self {
            HandshakeOutcome::Features { features } => HandshakeOutcomeView::Features {
                features: features@,
            },
            HandshakeOutcome::Failure { message } => HandshakeOutcomeView::Failure {
                message: message@,
            },
            HandshakeOutcome::TimedOut => HandshakeOutcomeView::TimedOut,
        }
    }
}

/// How a fallback probe ended.
#[derive(Debug, PartialEq, Eq)]
pub enum ProbeOutcome {
    /// The device answered the probe with its features.
    Features { features: DeviceFeatures },
    /// The probe failed; `message` describes the failure.
    Failure { message: String },
    /// The probe could not be run to its end; `message` says why.
    TaskFailed { message: String },
}

/// The mathematical model of a [`ProbeOutcome`].
pub enum ProbeOutcomeView {
    Features { features: DeviceFeaturesView },
    Failure { message: Seq<char> },
    TaskFailed { message: Seq<char> },
}

impl View for ProbeOutcome {
    type V = ProbeOutcomeView;

    open spec fn view(&self) -> ProbeOutcomeView {
        match self {
            ProbeOutcome::Features { features } => ProbeOutcomeView::Features {
                features: features@,
            },
            ProbeOutcome::Failure { message } => ProbeOutcomeView::Failure { message: message@ },
            ProbeOutcome::TaskFailed { message } => ProbeOutcomeView::TaskFailed {
                message: message@,
            },
        }
    }
}

/// Whether a handshake failure says that the device did not recognise the
/// request.
pub fn is_unrecognized_request(message: &str) -> (unrecognized: bool)
    ensures
        unrecognized == unrecognized_request(message@),
{
    str_contains(message, "Unknown message") || str_contains(message, "Unexpected response")
}

/// Whether an error text says that another program holds the device.
pub fn is_device_in_use(error: &str) -> (in_use: bool)
    ensures
        in_use == device_in_use(error@),
{
    str_contains(error, "Device Already In Use") || str_contains(error, "already claimed")
        || str_contains(error, "🔒")
}

/// The text that an access error shows for `error`.
pub fn explain_access_error(error: &str) -> (text: String)
    ensures
        text@ == access_error_text(error@),
{
    if !is_device_in_use(error) || str_contains(error, "🔒") {
        String::from_str(error)
    } else {
        String::from_str(IN_USE_PREAMBLE).concat(error)
    }
}

/// The status line for `features`.
pub fn features_status(features: &DeviceFeatures) -> (text: String)
    ensures
        text@ == features_text(features@),
{
    let name = match &features.label {
        Some(label) => label.clone(),
        None => String::from_str("Unlabeled"),
    };
    name.concat(" v").concat(features.version.as_str())
}

/// The status line for `verdict`.
pub fn verdict_status(verdict: &ReadinessVerdict) -> (text: &'static str)
    ensures
        text@ == verdict_text(*verdict),
{
    if verdict.needs_bootloader_update && verdict.needs_firmware_update
        && verdict.needs_initialization {
        "Device needs updates"
    } else if verdict.needs_bootloader_update {
        "Bootloader update needed"
    } else if verdict.needs_firmware_update {
        "Firmware update needed"
    } else if verdict.needs_initialization {
        "Device setup needed"
    } else {
        "Device ready"
    }
}

/// The mode in which a device with these features answered the fallback probe.
pub fn oob_mode(features: &DeviceFeatures) -> (mode: OobMode)
    ensures
        mode == oob_mode_of(features@),
{
    let legacy = String::from_str("Legacy Bootloader");
    if features.bootloader_mode || features.version == legacy || str_contains(
        features.version.as_str(),
        "0.0.0",
    ) || (!features.initialized && str_starts_with(features.version.as_str(), "1.")) {
        OobMode::Bootloader
    } else {
        OobMode::Wallet
    }
}

/// What a resolution is waiting for.
#[derive(Debug, PartialEq, Eq)]
pub enum ResolutionPhase {
    /// Nothing has been done yet.
    NotStarted,
    /// The feature handshake is under way.
    AwaitingHandshake,
    /// The handshake failed with `handshake_error`, which the device did not
    /// recognise, and the fallback probe is under way.
    AwaitingProbe { handshake_error: String },
    /// The features are known and the readiness evaluation is under way.
    AwaitingVerdict { features: DeviceFeatures },
    /// The resolution has reported its result.
    Finished,
}

/// The mathematical model of a [`ResolutionPhase`].
pub enum ResolutionPhaseView {
    NotStarted,
    AwaitingHandshake,
    AwaitingProbe { handshake_error: Seq<char> },
    AwaitingVerdict { features: DeviceFeaturesView },
    Finished,
}

impl View for ResolutionPhase {
    type V = ResolutionPhaseView;

    open spec fn view(&self) -> ResolutionPhaseView {
        match self {
            ResolutionPhase::NotStarted => ResolutionPhaseView::NotStarted,
            ResolutionPhase::AwaitingHandshake => ResolutionPhaseView::AwaitingHandshake,
            ResolutionPhase::AwaitingProbe {
                handshake_error,
            } => ResolutionPhaseView::AwaitingProbe { handshake_error: handshake_error@ },
            ResolutionPhase::AwaitingVerdict { features } => ResolutionPhaseView::AwaitingVerdict {
                features: features@,
            },
            ResolutionPhase::Finished => ResolutionPhaseView::Finished,
        }
    }
}

/// What happened since the last step of a resolution.
#[derive(Debug, PartialEq, Eq)]
pub enum ResolutionEvent {
    /// The resolution was launched.
    Launched,
    /// The feature handshake ended.
    Handshake { handshake: HandshakeOutcome },
    /// The fallback probe ended.
    Probe { probe: ProbeOutcome },
    /// The readiness evaluator gave its verdict.
    Verdict { verdict: ReadinessVerdict },
}

/// The mathematical model of a [`ResolutionEvent`].
pub enum ResolutionEventView {
    Launched,
    Handshake { handshake: HandshakeOutcomeView },
    Probe { probe: ProbeOutcomeView },
    Verdict { verdict: ReadinessVerdict },
}

impl View for ResolutionEvent {
    type V = ResolutionEventView;

    open spec fn view(&self) -> ResolutionEventView {
        match self {
            ResolutionEvent::Launched => ResolutionEventView::Launched,
            ResolutionEvent::Handshake { handshake } => ResolutionEventView::Handshake {
                handshake: handshake@,
            },
            ResolutionEvent::Probe { probe } => ResolutionEventView::Probe { probe: probe@ },
            ResolutionEvent::Verdict { verdict } => ResolutionEventView::Verdict {
                verdict: *verdict,
            },
        }
    }
}

/// One thing for the caller of a resolution to do.
#[derive(Debug, PartialEq, Eq)]
pub enum ResolutionAction {
    /// Send the event to the listener.
    Emit { event: Notification },
    /// Get the device's worker from the registry, creating it if there is
    /// none, ask it for the features, and wait for the answer no longer than
    /// the timeout.
    RequestFeatures { timeout_secs: u64 },
    /// Run the blocking fallback probe, off the scheduler of the poll loop.
    RunFallbackProbe,
    /// Ask the readiness evaluator for its verdict on the features.
    EvaluateReadiness,
}

/// The mathematical model of a [`ResolutionAction`].
pub enum ResolutionActionView {
    Emit { event: NotificationView },
    RequestFeatures { timeout_secs: u64 },
    RunFallbackProbe,
    EvaluateReadiness,
}

impl View for ResolutionAction {
    type V = ResolutionActionView;

    open spec fn view(&self) -> ResolutionActionView {
        match self {
            ResolutionAction::Emit { event } => ResolutionActionView::Emit { event: event@ },
            ResolutionAction::RequestFeatures {
                timeout_secs,
            } => ResolutionActionView::RequestFeatures { timeout_secs: *timeout_secs },
            ResolutionAction::RunFallbackProbe => ResolutionActionView::RunFallbackProbe,
            ResolutionAction::EvaluateReadiness => ResolutionActionView::EvaluateReadiness,
        }
    }
}

impl DeepView for ResolutionAction {
    type V = ResolutionActionView;

    open spec fn deep_view(&self) -> ResolutionActionView {
        self@
    }
}

/// A phase together with the actions that lead into it.
pub struct ResolutionStep {
    pub phase: ResolutionPhaseView,
    pub actions: Seq<ResolutionActionView>,
}

/// The first step: the status line and the feature handshake.
pub open spec fn launch_step() -> ResolutionStep {
    ResolutionStep {
        phase: ResolutionPhaseView::AwaitingHandshake,
        actions: seq![
            ResolutionActionView::Emit { event: NotificationView::status(getting_features_text()) },
            ResolutionActionView::RequestFeatures { timeout_secs: HANDSHAKE_TIMEOUT_SECS },
        ],
    }
}

/// The step once the features are known, from the handshake or from the
/// fallback probe: the status line with label and version, and the readiness
/// evaluation.
pub open spec fn features_step(features: DeviceFeaturesView) -> ResolutionStep {
    ResolutionStep {
        phase: ResolutionPhaseView::AwaitingVerdict { features },
        actions: seq![
            ResolutionActionView::Emit { event: NotificationView::status(features_text(features)) },
            ResolutionActionView::EvaluateReadiness,
        ],
    }
}

/// The step that ends a resolution in failure: one access error.
pub open spec fn failure_step(device: DeviceIdentityView, error: Seq<char>) -> ResolutionStep {
    ResolutionStep {
        phase: ResolutionPhaseView::Finished,
        actions: seq![
            ResolutionActionView::Emit {
                event: NotificationView::access_error(device.unique_id, access_error_text(error)),
            },
        ],
    }
}

/// The step after the handshake. A failure that the device did not recognise
/// leads to the fallback probe, and to nothing else; any other failure and a
/// timeout end the resolution.
pub open spec fn handshake_step(
    device: DeviceIdentityView,
    outcome: HandshakeOutcomeView,
) -> ResolutionStep {
    match outcome {
        HandshakeOutcomeView::Features { features } => features_step(features),
        HandshakeOutcomeView::Failure { message } => if unrecognized_request(message) {
            ResolutionStep {
                phase: ResolutionPhaseView::AwaitingProbe { handshake_error: message },
                actions: seq![ResolutionActionView::RunFallbackProbe],
            }
        } else {
            failure_step(device, handshake_failure_text(message))
        },
        HandshakeOutcomeView::TimedOut => failure_step(device, timeout_text()),
    }
}

/// The step after the fallback probe that followed the handshake failure
/// `handshake_error`.
pub open spec fn probe_step(
    device: DeviceIdentityView,
    handshake_error: Seq<char>,
    outcome: ProbeOutcomeView,
) -> ResolutionStep {
    match outcome {
        ProbeOutcomeView::Features { features } => features_step(features),
        ProbeOutcomeView::Failure { message } => failure_step(
            device,
            fallback_failure_text(handshake_error, message),
        ),
        ProbeOutcomeView::TaskFailed { message } => failure_step(
            device,
            fallback_failure_text(handshake_error, task_failure_text(message)),
        ),
    }
}

/// The events that report the verdict on a device: for a device that needs
/// nothing, the ready status and the ready event; for any other, the status
/// line of its needs; and in both cases the features with the verdict.
pub open spec fn verdict_events(
    device: DeviceIdentityView,
    features: DeviceFeaturesView,
    verdict: ReadinessVerdict,
) -> Seq<NotificationView> {
    (if verdict.fully_ready() {
        seq![
            NotificationView::status(verdict_text(verdict)),
            NotificationView::ready(device, features),
        ]
    } else {
        seq![NotificationView::status(verdict_text(verdict))]
    }) + seq![
        NotificationView::FeaturesUpdated {
            device_id: device.unique_id,
            features,
            verdict,
        },
    ]
}

/// One action for each event: to send it.
pub open spec fn emit_each(events: Seq<NotificationView>) -> Seq<ResolutionActionView> {
    events.map_values(|event: NotificationView| ResolutionActionView::Emit { event })
}

/// The last step: the events of the verdict, each to be sent.
pub open spec fn verdict_step(
    device: DeviceIdentityView,
    features: DeviceFeaturesView,
    verdict: ReadinessVerdict,
) -> ResolutionStep {
    ResolutionStep {
        phase: ResolutionPhaseView::Finished,
        actions: emit_each(verdict_events(device, features, verdict)),
    }
}

/// The step that `event` causes in `phase`. An event that the phase does not
/// wait for changes nothing and causes nothing.
pub open spec fn resolution_step(
    device: DeviceIdentityView,
    phase: ResolutionPhaseView,
    event: ResolutionEventView,
) -> ResolutionStep {
    match (phase, event) {
        (ResolutionPhaseView::NotStarted, ResolutionEventView::Launched) => launch_step(),
        (
            ResolutionPhaseView::AwaitingHandshake,
            ResolutionEventView::Handshake { handshake },
        ) => handshake_step(device, handshake),
        (
            ResolutionPhaseView::AwaitingProbe { handshake_error },
            ResolutionEventView::Probe { probe },
        ) => probe_step(device, handshake_error, probe),
        (
            ResolutionPhaseView::AwaitingVerdict { features },
            ResolutionEventView::Verdict { verdict },
        ) => verdict_step(device, features, verdict),
        _ => ResolutionStep { phase, actions: Seq::empty() },
    }
}

/// The handshake is asked for with the fixed timeout, and a handshake that
/// timed out ends the resolution with one access error whose text is the
/// timeout text, word for word.
pub proof fn lemma_timeout_ends_resolution(device: DeviceIdentityView)
    ensures
        launch_step().actions[1] == (ResolutionActionView::RequestFeatures { timeout_secs: 5 }),
        access_error_text(timeout_text()) == timeout_text(),
        resolution_step(
            device,
            ResolutionPhaseView::AwaitingHandshake,
            ResolutionEventView::Handshake { handshake: HandshakeOutcomeView::TimedOut },
        ) == (ResolutionStep {
            phase: ResolutionPhaseView::Finished,
            actions: seq![
                ResolutionActionView::Emit {
                    event: NotificationView::access_error(device.unique_id, timeout_text()),
                },
            ],
        }),
{
    reveal_strlit("Timeout while fetching device features");
    reveal_strlit("Device Already In Use");
    reveal_strlit("already claimed");
    reveal_strlit("🔒");
    let hay = timeout_text();
    assert forall|at: int| !occurs_at(hay, "Device Already In Use"@, at) by {
        let needle = "Device Already In Use"@;
        if occurs_at(hay, needle, at) {
            assert(hay.subrange(at, at + needle.len())[0] == needle[0]);
            assert(0 <= at < 38);
        }
    }
    assert forall|at: int| !occurs_at(hay, "already claimed"@, at) by {
        let needle = "already claimed"@;
        if occurs_at(hay, needle, at) {
            assert(hay.subrange(at, at + needle.len())[0] == needle[0]);
            assert(hay.subrange(at, at + needle.len())[1] == needle[1]);
            assert(0 <= at < 38);
        }
    }
    assert forall|at: int| !occurs_at(hay, "🔒"@, at) by {
        let needle = "🔒"@;
        if occurs_at(hay, needle, at) {
            assert(hay.subrange(at, at + needle.len())[0] == needle[0]);
            assert(0 <= at < 38);
        }
    }
}

/// Whether `event` in `phase` is a handshake failure with a message that the
/// device did not recognise.
pub open spec fn fallback_due(phase: ResolutionPhaseView, event: ResolutionEventView) -> bool {
    match (phase, event) {
        (
            ResolutionPhaseView::AwaitingHandshake,
            ResolutionEventView::Handshake { handshake: HandshakeOutcomeView::Failure { message } },
        ) => unrecognized_request(message),
        _ => false,
    }
}

/// A step asks for the fallback probe exactly when the handshake failed with
/// a message that the device did not recognise. The probe is then all that
/// the step asks for, so it is run once and before any notification; after
/// any other failure it is not run at all.
pub proof fn lemma_fallback_only_when_unrecognized(
    device: DeviceIdentityView,
    phase: ResolutionPhaseView,
    event: ResolutionEventView,
)
    ensures
        resolution_step(device, phase, event).actions.contains(
            ResolutionActionView::RunFallbackProbe,
        ) <==> fallback_due(phase, event),
        fallback_due(phase, event) ==> resolution_step(device, phase, event).actions
            == seq![ResolutionActionView::RunFallbackProbe],
{
    let actions = resolution_step(device, phase, event).actions;
    let probe = ResolutionActionView::RunFallbackProbe;
    if fallback_due(phase, event) {
        assert(actions[0] == probe);
    } else {
        if actions.contains(probe) {
            let i = choose|i: int| 0 <= i < actions.len() && actions[i] == probe;
            assert(actions[i] == probe);
        }
    }
}

/// The status text is fixed by the needs: all three together are reported as
/// updates, one need alone under its own name, and no need as ready.
pub proof fn lemma_verdict_status_table(verdict: ReadinessVerdict)
    ensures
        verdict.needs_bootloader_update && verdict.needs_firmware_update
            && verdict.needs_initialization ==> verdict_text(verdict) == "Device needs updates"@,
        verdict.needs_bootloader_update && !verdict.needs_firmware_update
            && !verdict.needs_initialization ==> verdict_text(verdict)
            == "Bootloader update needed"@,
        !verdict.needs_bootloader_update && verdict.needs_firmware_update
            && !verdict.needs_initialization ==> verdict_text(verdict) == "Firmware update needed"@,
        !verdict.needs_bootloader_update && !verdict.needs_firmware_update
            && verdict.needs_initialization ==> verdict_text(verdict) == "Device setup needed"@,
        verdict.fully_ready() ==> verdict_text(verdict) == "Device ready"@,
{
}

/// A device that needs nothing gets the ready status, followed by the ready
/// event and the features with the verdict; any other device gets the status
/// of its needs and the features with the verdict, and no ready event.
pub proof fn lemma_verdict_events(
    device: DeviceIdentityView,
    features: DeviceFeaturesView,
    verdict: ReadinessVerdict,
)
    ensures
        verdict.fully_ready() ==> verdict_events(device, features, verdict) == seq![
            NotificationView::status("Device ready"@),
            NotificationView::ready(device, features),
            NotificationView::FeaturesUpdated { device_id: device.unique_id, features, verdict },
        ],
        !verdict.fully_ready() ==> verdict_events(device, features, verdict) == seq![
            NotificationView::status(verdict_text(verdict)),
            NotificationView::FeaturesUpdated { device_id: device.unique_id, features, verdict },
        ],
{
    if verdict.fully_ready() {
        assert(verdict_events(device, features, verdict) =~= seq![
            NotificationView::status("Device ready"@),
            NotificationView::ready(device, features),
            NotificationView::FeaturesUpdated { device_id: device.unique_id, features, verdict },
        ]);
    } else {
        assert(verdict_events(device, features, verdict) =~= seq![
            NotificationView::status(verdict_text(verdict)),
            NotificationView::FeaturesUpdated { device_id: device.unique_id, features, verdict },
        ]);
    }
}

/// How far a resolution has come.
pub open spec fn progress(phase: ResolutionPhaseView) -> nat {
    match phase {
        ResolutionPhaseView::NotStarted => 0,
        ResolutionPhaseView::AwaitingHandshake => 1,
        ResolutionPhaseView::AwaitingProbe { .. } => 2,
        ResolutionPhaseView::AwaitingVerdict { .. } => 3,
        ResolutionPhaseView::Finished => 4,
    }
}

/// Whether the action sends an event that closes a resolution: an access
/// error, or the features with their verdict.
pub open spec fn closing_event(action: ResolutionActionView) -> bool {
    match action {
        ResolutionActionView::Emit { event: NotificationView::AccessError { .. } } => true,
        ResolutionActionView::Emit { event: NotificationView::FeaturesUpdated { .. } } => true,
        _ => false,
    }
}

/// A resolution never goes back and never hangs: a step that asks for
/// anything moves the resolution forward, and a step that asks for nothing
/// leaves it where it is. After at most four steps that ask for something,
/// the resolution is finished.
pub proof fn lemma_step_advances(
    device: DeviceIdentityView,
    phase: ResolutionPhaseView,
    event: ResolutionEventView,
)
    ensures
        resolution_step(device, phase, event).actions.len() > 0 ==> progress(
            resolution_step(device, phase, event).phase,
        ) > progress(phase),
        resolution_step(device, phase, event).actions.len() == 0 ==> resolution_step(
            device,
            phase,
            event,
        ).phase == phase,
        progress(resolution_step(device, phase, event).phase) <= 4,
{
}

/// No resolution ends in silence: the step that finishes a resolution sends,
/// as the last thing it asks for, an access error or the features with their
/// verdict.
pub proof fn lemma_every_end_is_reported(
    device: DeviceIdentityView,
    phase: ResolutionPhaseView,
    event: ResolutionEventView,
)
    requires
        phase != ResolutionPhaseView::Finished,
        resolution_step(device, phase, event).phase == ResolutionPhaseView::Finished,
    ensures
        resolution_step(device, phase, event).actions.len() > 0,
        closing_event(resolution_step(device, phase, event).actions.last()),
{
}

/// A finished resolution stays finished and asks for nothing more, whatever
/// is handed to it.
pub proof fn lemma_finished_is_final(device: DeviceIdentityView, event: ResolutionEventView)
    ensures
        resolution_step(device, ResolutionPhaseView::Finished, event) == (ResolutionStep {
            phase: ResolutionPhaseView::Finished,
            actions: Seq::empty(),
        }),
{
}

/// The events that report the verdict on a device, in the order in which they
/// are sent.
pub fn report_verdict(
    device: &DeviceIdentity,
    features: &DeviceFeatures,
    verdict: ReadinessVerdict,
) -> (events: Vec<Notification>)
    ensures
        events.deep_view() == verdict_events(device@, features@, verdict),
{
    let mut events: Vec<Notification> = Vec::new();
    events.push(Notification::status(verdict_status(&verdict)));
    if verdict.is_fully_ready() {
        events.push(Notification::ready(device.clone(), features.clone()));
    }
    events.push(
        Notification::FeaturesUpdated {
            device_id: device.unique_id.clone(),
            features: features.clone(),
            verdict,
        },
    );
    assert(events.deep_view() =~= verdict_events(device@, features@, verdict));
    events
}

/// The resolution of one device.
pub struct ResolutionTask {
    device: DeviceIdentity,
    phase: ResolutionPhase,
}

impl ResolutionTask {
    /// The device that is being resolved.
    pub closed spec fn device_view(&self) -> DeviceIdentityView {
        self.device@
    }

    /// What the resolution is waiting for.
    pub closed spec fn phase_view(&self) -> ResolutionPhaseView {
        self.phase@
    }

    /// A resolution of `device` that has not started yet.
    pub fn new(device: DeviceIdentity) -> (task: ResolutionTask)
        ensures
            task.device_view() == device@,
            task.phase_view() == ResolutionPhaseView::NotStarted,
    {
        ResolutionTask { device, phase: ResolutionPhase::NotStarted }
    }

    /// The device that is being resolved.
    pub fn device(&self) -> (device: &DeviceIdentity)
        ensures
            device@ == self.device_view(),
    {
        &self.device
    }

    /// What the resolution is waiting for.
    pub fn phase(&self) -> (phase: &ResolutionPhase)
        ensures
            phase@ == self.phase_view(),
    {
        &self.phase
    }

    /// Whether the resolution has reported its result.
    pub fn is_finished(&self) -> (finished: bool)
        ensures
            finished == (self.phase_view() == ResolutionPhaseView::Finished),
    {
        match &self.phase {
            ResolutionPhase::Finished => true,
            _ => false,
        }
    }

    /// Takes `event` and returns what the caller has to do next, in order.
    pub fn step(&mut self, event: ResolutionEvent) -> (actions: Vec<ResolutionAction>)
        ensures
            final(self).device_view() == old(self).device_view(),
            final(self).phase_view() == resolution_step(
                old(self).device_view(),
                old(self).phase_view(),
                event@,
            ).phase,
            actions.deep_view() == resolution_step(
                old(self).device_view(),
                old(self).phase_view(),
                event@,
            ).actions,
    {
        let mut actions: Vec<ResolutionAction> = Vec::new();
        let next: Option<ResolutionPhase> = match (&self.phase, event) {
            (ResolutionPhase::NotStarted, ResolutionEvent::Launched) => {
                actions.push(
                    ResolutionAction::Emit { event: Notification::status("Getting features…") },
                );
                actions.push(
                    ResolutionAction::RequestFeatures { timeout_secs: HANDSHAKE_TIMEOUT_SECS },
                );
                Some(ResolutionPhase::AwaitingHandshake)
            },
            (ResolutionPhase::AwaitingHandshake, ResolutionEvent::Handshake { handshake }) => {
                match handshake {
                    HandshakeOutcome::Features { features } => Some(
                        features_known(&mut actions, features),
                    ),
                    HandshakeOutcome::Failure { message } => {
                        if is_unrecognized_request(message.as_str()) {
                            actions.push(ResolutionAction::RunFallbackProbe);
                            Some(ResolutionPhase::AwaitingProbe { handshake_error: message })
                        } else {
                            let error = String::from_str("Failed to get device features: ").concat(
                                message.as_str(),
                            );
                            Some(failed(&mut actions, &self.device, error.as_str()))
                        }
                    },
                    HandshakeOutcome::TimedOut => Some(
                        failed(
                            &mut actions,
                            &self.device,
                            "Timeout while fetching device features",
                        ),
                    ),
                }
            },
            (ResolutionPhase::AwaitingProbe { handshake_error }, ResolutionEvent::Probe { probe }) => {
                match probe {
                    ProbeOutcome::Features { features } => Some(features_known(&mut actions, features)),
                    ProbeOutcome::Failure { message } => {
                        let error = fallback_failure(handshake_error.as_str(), message.as_str());
                        Some(failed(&mut actions, &self.device, error.as_str()))
                    },
                    ProbeOutcome::TaskFailed { message } => {
                        let probe_error = String::from_str("Task execution error: ").concat(
                            message.as_str(),
                        );
                        let error = fallback_failure(handshake_error.as_str(), probe_error.as_str());
                        Some(failed(&mut actions, &self.device, error.as_str()))
                    },
                }
            },
            (ResolutionPhase::AwaitingVerdict { features }, ResolutionEvent::Verdict { verdict }) => {
                let events = report_verdict(&self.device, features, verdict);
                emit_all(&mut actions, &events);
                Some(ResolutionPhase::Finished)
            },
            _ => None,
        };
        match next {
            Some(phase) => {
                self.phase = phase;
            },
            None => {},
        }
        actions
    }
}

/// Appends one action for each event: to send it.
fn emit_all(actions: &mut Vec<ResolutionAction>, events: &Vec<Notification>)
    requires
        old(actions)@.len() == 0,
    ensures
        final(actions).deep_view() == emit_each(events.deep_view()),
{
    let ghost all = events.deep_view();
    let mut i: usize = 0;
    assert(actions.deep_view() =~= emit_each(all.take(0)));
    while i < events.len()
        invariant
            i <= events.len(),
            all == events.deep_view(),
            actions.deep_view() == emit_each(all.take(i as int)),
        decreases events.len() - i,
    {
        actions.push(ResolutionAction::Emit { event: events[i].clone() });
        proof {
            assert(all.take(i + 1) =~= all.take(i as int).push(all[i as int]));
            assert(emit_each(all.take(i + 1)) =~= emit_each(all.take(i as int)).push(
                ResolutionActionView::Emit { event: all[i as int] },
            ));
        }
        i += 1;
    }
    assert(all.take(i as int) =~= all);
}

/// Records that the features are known and returns the phase that follows.
fn features_known(actions: &mut Vec<ResolutionAction>, features: DeviceFeatures) -> (phase:
    ResolutionPhase)
    requires
        old(actions)@.len() == 0,
    ensures
        phase@ == features_step(features@).phase,
        final(actions).deep_view() == features_step(features@).actions,
{
    actions.push(
        ResolutionAction::Emit {
            event: Notification::StatusUpdate { status: features_status(&features) },
        },
    );
    actions.push(ResolutionAction::EvaluateReadiness);
    assert(actions.deep_view() =~= features_step(features@).actions);
    ResolutionPhase::AwaitingVerdict { features }
}

/// Records the failure of the resolution of `device` and returns the phase
/// that follows.
fn failed(actions: &mut Vec<ResolutionAction>, device: &DeviceIdentity, error: &str) -> (phase:
    ResolutionPhase)
    requires
        old(actions)@.len() == 0,
    ensures
        phase@ == failure_step(device@, error@).phase,
        final(actions).deep_view() == failure_step(device@, error@).actions,
{
    actions.push(
        ResolutionAction::Emit {
            event: Notification::access_error(device.unique_id.as_str(), explain_access_error(error)),
        },
    );
    assert(actions.deep_view() =~= failure_step(device@, error@).actions);
    ResolutionPhase::Finished
}

/// The error text when the handshake failed with `message` and the fallback
/// probe after it with `probe_message`.
fn fallback_failure(message: &str, probe_message: &str) -> (text: String)
    ensures
        text@ == fallback_failure_text(message@, probe_message@),
{
    String::from_str("Failed to get device features: ").concat(message).concat(
        " (OOB attempt: ",
    ).concat(probe_message).concat(")")
}

} // verus!
