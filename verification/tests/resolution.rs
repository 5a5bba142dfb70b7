use device_monitor::device::{DeviceFeatures, DeviceIdentity, ReadinessVerdict};
use device_monitor::notification::Notification;
use device_monitor::resolution::{
    explain_access_error, features_status, is_device_in_use, is_unrecognized_request, oob_mode,
    report_verdict, verdict_status, HandshakeOutcome, OobMode, ProbeOutcome, ResolutionAction,
    ResolutionEvent, ResolutionPhase, ResolutionTask, HANDSHAKE_TIMEOUT_SECS, IN_USE_PREAMBLE,
};

fn device() -> DeviceIdentity {
    DeviceIdentity {
        unique_id: "343737340F4736331F003B00".to_string(),
        vendor_id: 0x2b24,
        product_id: 0x0002,
        manufacturer: None,
        product: Some("KeepKey".to_string()),
    }
}

fn features(label: Option<&str>, version: &str) -> DeviceFeatures {
    DeviceFeatures {
        label: label.map(|l| l.to_string()),
        version: version.to_string(),
        bootloader_mode: false,
        initialized: true,
    }
}

fn verdict(bootloader: bool, firmware: bool, init: bool) -> ReadinessVerdict {
    ReadinessVerdict {
        needs_bootloader_update: bootloader,
        needs_firmware_update: firmware,
        needs_initialization: init,
    }
}

fn status(text: &str) -> ResolutionAction {
    ResolutionAction::Emit { event: Notification::StatusUpdate { status: text.to_string() } }
}

fn access_error(text: &str) -> ResolutionAction {
    ResolutionAction::Emit {
        event: Notification::AccessError {
            device_id: "343737340F4736331F003B00".to_string(),
            error: text.to_string(),
            error_type: "DEVICE_CLAIMED".to_string(),
            status: "error".to_string(),
        },
    }
}

fn launched() -> ResolutionTask {
    let mut task = ResolutionTask::new(device());
    task.step(ResolutionEvent::Launched);
    task
}

fn probing(handshake_error: &str) -> ResolutionTask {
    let mut task = launched();
    let actions = task.step(ResolutionEvent::Handshake {
        handshake: HandshakeOutcome::Failure { message: handshake_error.to_string() },
    });
    assert_eq!(actions, vec![ResolutionAction::RunFallbackProbe]);
    task
}

fn probes_in(actions: &[ResolutionAction]) -> usize {
    actions.iter().filter(|a| matches!(a, ResolutionAction::RunFallbackProbe)).count()
}

const EXPLANATION: &str = "🔒 KeepKey Device Already In Use\n\nYour KeepKey device is currently being used by another application.\n\nCommon causes:\n• KeepKey Desktop app is running\n• KeepKey Bridge is running\n• Another wallet application is connected\n• Previous connection wasn't properly closed\n\nSolutions:\n1. Close KeepKey Desktop app completely\n2. Close any other wallet applications\n3. Unplug and reconnect your KeepKey device\n4. Try again\n\nTechnical details: ";

#[test]
fn new_resolution_has_not_started() {
    let task = ResolutionTask::new(device());
    assert_eq!(task.phase(), &ResolutionPhase::NotStarted);
    assert_eq!(task.device(), &device());
    assert!(!task.is_finished());
}

#[test]
fn launch_reports_and_requests_the_features() {
    let mut task = ResolutionTask::new(device());
    let actions = task.step(ResolutionEvent::Launched);
    assert_eq!(
        actions,
        vec![status("Getting features…"), ResolutionAction::RequestFeatures { timeout_secs: 5 }]
    );
    assert_eq!(task.phase(), &ResolutionPhase::AwaitingHandshake);
    assert_eq!(HANDSHAKE_TIMEOUT_SECS, 5);
}

#[test]
fn handshake_success_reports_label_and_version() {
    let mut task = launched();
    let found = features(Some("My KeepKey"), "7.10.0");
    let actions = task.step(ResolutionEvent::Handshake {
        handshake: HandshakeOutcome::Features { features: found.clone() },
    });
    assert_eq!(actions, vec![status("My KeepKey v7.10.0"), ResolutionAction::EvaluateReadiness]);
    assert_eq!(task.phase(), &ResolutionPhase::AwaitingVerdict { features: found });
}

#[test]
fn device_without_label_is_reported_as_unlabeled() {
    assert_eq!(features_status(&features(None, "7.10.0")), "Unlabeled v7.10.0");
    assert_eq!(features_status(&features(Some(""), "")), " v");
    assert_eq!(features_status(&features(Some("Vault"), "1.0.3")), "Vault v1.0.3");
}

#[test]
fn handshake_that_never_completes_ends_with_the_timeout_message() {
    let mut task = launched();
    let actions = task.step(ResolutionEvent::Handshake { handshake: HandshakeOutcome::TimedOut });
    assert_eq!(actions, vec![access_error("Timeout while fetching device features")]);
    assert!(task.is_finished());
    assert_eq!(probes_in(&actions), 0);
}

#[test]
fn unknown_message_causes_one_probe_before_any_notification() {
    let mut task = launched();
    let actions = task.step(ResolutionEvent::Handshake {
        handshake: HandshakeOutcome::Failure { message: "Unknown message".to_string() },
    });
    assert_eq!(actions, vec![ResolutionAction::RunFallbackProbe]);
    assert_eq!(probes_in(&actions), 1);
    assert_eq!(
        task.phase(),
        &ResolutionPhase::AwaitingProbe { handshake_error: "Unknown message".to_string() }
    );
}

#[test]
fn unrelated_failure_causes_no_probe() {
    let mut task = launched();
    let actions = task.step(ResolutionEvent::Handshake {
        handshake: HandshakeOutcome::Failure { message: "Device not found".to_string() },
    });
    assert_eq!(probes_in(&actions), 0);
    assert_eq!(actions, vec![access_error("Failed to get device features: Device not found")]);
    assert!(task.is_finished());
}

#[test]
fn unrecognized_request_is_matched_by_its_words() {
    assert!(is_unrecognized_request("Unknown message"));
    assert!(is_unrecognized_request("Failure: Unknown message"));
    assert!(is_unrecognized_request("device said: Unexpected response (17)"));
    assert!(is_unrecognized_request("Unexpected response"));
    assert!(!is_unrecognized_request("unknown message"));
    assert!(!is_unrecognized_request("unexpected response"));
    assert!(!is_unrecognized_request("Unknown  message"));
    assert!(!is_unrecognized_request("Unknown messag"));
    assert!(!is_unrecognized_request(""));
    assert!(!is_unrecognized_request("Timeout while fetching device features"));
}

#[test]
fn probe_success_goes_on_to_the_evaluation() {
    let mut task = probing("Failure: Unknown message");
    let found = features(None, "1.0.3");
    let actions = task.step(ResolutionEvent::Probe {
        probe: ProbeOutcome::Features { features: found.clone() },
    });
    assert_eq!(actions, vec![status("Unlabeled v1.0.3"), ResolutionAction::EvaluateReadiness]);
    assert_eq!(task.phase(), &ResolutionPhase::AwaitingVerdict { features: found });
}

#[test]
fn probe_failure_reports_both_messages() {
    let mut task = probing("Unknown message");
    let actions = task.step(ResolutionEvent::Probe {
        probe: ProbeOutcome::Failure { message: "no HID device".to_string() },
    });
    assert_eq!(
        actions,
        vec![access_error(
            "Failed to get device features: Unknown message (OOB attempt: no HID device)"
        )]
    );
    assert!(task.is_finished());
}

#[test]
fn probe_that_could_not_run_reports_the_task_error() {
    let mut task = probing("Unexpected response");
    let actions = task.step(ResolutionEvent::Probe {
        probe: ProbeOutcome::TaskFailed { message: "task 7 panicked".to_string() },
    });
    assert_eq!(
        actions,
        vec![access_error(
            "Failed to get device features: Unexpected response (OOB attempt: Task execution error: task 7 panicked)"
        )]
    );
    assert!(task.is_finished());
}

#[test]
fn verdict_status_follows_the_table() {
    assert_eq!(verdict_status(&verdict(true, true, true)), "Device needs updates");
    assert_eq!(verdict_status(&verdict(true, false, false)), "Bootloader update needed");
    assert_eq!(verdict_status(&verdict(false, true, false)), "Firmware update needed");
    assert_eq!(verdict_status(&verdict(false, false, true)), "Device setup needed");
    assert_eq!(verdict_status(&verdict(false, false, false)), "Device ready");
}

#[test]
fn verdict_status_takes_the_first_need_of_two() {
    assert_eq!(verdict_status(&verdict(true, true, false)), "Bootloader update needed");
    assert_eq!(verdict_status(&verdict(true, false, true)), "Bootloader update needed");
    assert_eq!(verdict_status(&verdict(false, true, true)), "Firmware update needed");
}

#[test]
fn ready_device_gets_status_then_ready_event() {
    let found = features(Some("Vault"), "7.10.0");
    let ready = verdict(false, false, false);
    assert!(ready.is_fully_ready());
    let events = report_verdict(&device(), &found, ready);
    assert_eq!(
        events,
        vec![
            Notification::StatusUpdate { status: "Device ready".to_string() },
            Notification::DeviceReady {
                device: device(),
                features: found.clone(),
                status: "ready".to_string(),
            },
            Notification::FeaturesUpdated {
                device_id: "343737340F4736331F003B00".to_string(),
                features: found,
                verdict: ready,
            },
        ]
    );
}

#[test]
fn device_with_needs_gets_status_and_features_only() {
    let found = features(Some("Vault"), "6.0.0");
    let needs = verdict(false, true, false);
    assert!(!needs.is_fully_ready());
    let events = report_verdict(&device(), &found, needs);
    assert_eq!(
        events,
        vec![
            Notification::StatusUpdate { status: "Firmware update needed".to_string() },
            Notification::FeaturesUpdated {
                device_id: "343737340F4736331F003B00".to_string(),
                features: found,
                verdict: needs,
            },
        ]
    );
}

#[test]
fn verdict_ends_the_resolution_with_its_events() {
    let mut task = launched();
    let found = features(Some("Vault"), "7.10.0");
    task.step(ResolutionEvent::Handshake {
        handshake: HandshakeOutcome::Features { features: found.clone() },
    });
    let all = verdict(true, true, true);
    let actions = task.step(ResolutionEvent::Verdict { verdict: all });
    assert_eq!(
        actions,
        vec![
            status("Device needs updates"),
            ResolutionAction::Emit {
                event: Notification::FeaturesUpdated {
                    device_id: "343737340F4736331F003B00".to_string(),
                    features: found,
                    verdict: all,
                },
            },
        ]
    );
    assert!(task.is_finished());
}

#[test]
fn full_resolution_of_a_ready_device() {
    let mut task = ResolutionTask::new(device());
    let found = features(None, "7.10.0");
    task.step(ResolutionEvent::Launched);
    task.step(ResolutionEvent::Handshake {
        handshake: HandshakeOutcome::Features { features: found.clone() },
    });
    let actions = task.step(ResolutionEvent::Verdict { verdict: verdict(false, false, false) });
    assert_eq!(
        actions,
        vec![
            status("Device ready"),
            ResolutionAction::Emit {
                event: Notification::DeviceReady {
                    device: device(),
                    features: found.clone(),
                    status: "ready".to_string(),
                },
            },
            ResolutionAction::Emit {
                event: Notification::FeaturesUpdated {
                    device_id: "343737340F4736331F003B00".to_string(),
                    features: found,
                    verdict: verdict(false, false, false),
                },
            },
        ]
    );
    assert!(task.is_finished());
}

#[test]
fn event_that_is_not_awaited_changes_nothing() {
    let mut task = ResolutionTask::new(device());
    assert_eq!(task.step(ResolutionEvent::Verdict { verdict: verdict(false, false, false) }), vec![]);
    assert_eq!(
        task.step(ResolutionEvent::Handshake { handshake: HandshakeOutcome::TimedOut }),
        vec![]
    );
    assert_eq!(task.phase(), &ResolutionPhase::NotStarted);
    let mut task = launched();
    assert_eq!(task.step(ResolutionEvent::Launched), vec![]);
    assert_eq!(
        task.step(ResolutionEvent::Probe {
            probe: ProbeOutcome::Failure { message: "x".to_string() }
        }),
        vec![]
    );
    assert_eq!(task.phase(), &ResolutionPhase::AwaitingHandshake);
}

#[test]
fn finished_resolution_stays_finished() {
    let mut task = launched();
    task.step(ResolutionEvent::Handshake { handshake: HandshakeOutcome::TimedOut });
    assert!(task.is_finished());
    assert_eq!(task.step(ResolutionEvent::Launched), vec![]);
    assert_eq!(
        task.step(ResolutionEvent::Handshake {
            handshake: HandshakeOutcome::Features { features: features(None, "1") }
        }),
        vec![]
    );
    assert!(task.is_finished());
}

#[test]
fn device_in_use_is_matched_by_its_markers() {
    assert!(is_device_in_use("Device Already In Use"));
    assert!(is_device_in_use("usb: interface already claimed by another process"));
    assert!(is_device_in_use("🔒 locked"));
    assert!(!is_device_in_use("device already in use"));
    assert!(!is_device_in_use("Already claimed"));
    assert!(!is_device_in_use("Timeout while fetching device features"));
    assert!(!is_device_in_use(""));
}

#[test]
fn device_in_use_is_explained() {
    let raw = "Failed to get device features: interface already claimed";
    assert_eq!(explain_access_error(raw), format!("{}{}", EXPLANATION, raw));
    assert_eq!(IN_USE_PREAMBLE, EXPLANATION);
    let mut task = launched();
    let actions = task.step(ResolutionEvent::Handshake {
        handshake: HandshakeOutcome::Failure { message: "interface already claimed".to_string() },
    });
    assert_eq!(actions, vec![access_error(&format!("{}{}", EXPLANATION, raw))]);
}

#[test]
fn explanation_that_is_there_already_is_kept() {
    let explained = "🔒 KeepKey Device Already In Use\n\nclose the other program";
    assert_eq!(explain_access_error(explained), explained);
    let prefixed = "Failed to get device features: 🔒 already claimed";
    assert_eq!(explain_access_error(prefixed), prefixed);
}

#[test]
fn other_errors_are_reported_as_they_are() {
    assert_eq!(
        explain_access_error("Timeout while fetching device features"),
        "Timeout while fetching device features"
    );
    assert_eq!(explain_access_error(""), "");
}

#[test]
fn fallback_answer_is_classified() {
    let wallet = features(None, "7.10.0");
    assert_eq!(oob_mode(&wallet), OobMode::Wallet);
    let mut flagged = features(None, "7.10.0");
    flagged.bootloader_mode = true;
    assert_eq!(oob_mode(&flagged), OobMode::Bootloader);
    assert_eq!(oob_mode(&features(None, "Legacy Bootloader")), OobMode::Bootloader);
    assert_eq!(oob_mode(&features(None, "legacy bootloader")), OobMode::Wallet);
    assert_eq!(oob_mode(&features(None, "0.0.0")), OobMode::Bootloader);
    assert_eq!(oob_mode(&features(None, "v0.0.0-rc1")), OobMode::Bootloader);
    let mut fresh = features(None, "1.0.3");
    fresh.initialized = false;
    assert_eq!(oob_mode(&fresh), OobMode::Bootloader);
    assert_eq!(oob_mode(&features(None, "1.0.3")), OobMode::Wallet);
    let mut newer = features(None, "2.1.4");
    newer.initialized = false;
    assert_eq!(oob_mode(&newer), OobMode::Wallet);
    let mut inner = features(None, "v1.0.3");
    inner.initialized = false;
    assert_eq!(oob_mode(&inner), OobMode::Wallet);
}
