use qwertdvert::keys::{KEY_A, KEY_Q, KEY_Z};
use qwertdvert::lifecycle::{process_exit_code, Lifecycle};
use qwertdvert::reader::{after_submit, reader_step, FetchOutcome, ReaderDecision, SubmitReport};
use qwertdvert::startup::{
    contains_subslice, device_qualifies, startup_step, StartupDecision, STARTUP_LOG_INTERVAL_MS,
};

// The kernel codes of the 26 letter keys, A through Z.
const LETTER_CODES: [u16; 26] = [
    30, 48, 46, 32, 18, 33, 34, 35, 23, 36, 37, 38, 50, 49, 24, 25, 16, 19, 31, 20, 22, 47, 17,
    45, 21, 44,
];

#[test]
fn substring_search_finds_and_rejects() {
    assert!(contains_subslice(b"AT Translated Set 2 keyboard", b"AT Translated"));
    assert!(contains_subslice(b"xxAT Translated", b"AT Translated"));
    assert!(contains_subslice(b"abc", b"abc"));
    assert!(contains_subslice(b"abc", b"c"));
    assert!(contains_subslice(b"abc", b""));
    assert!(!contains_subslice(b"", b"a"));
    assert!(!contains_subslice(b"Logitech USB Mouse", b"AT Translated"));
    assert!(!contains_subslice(b"at translated", b"AT Translated"));
    assert!(!contains_subslice(b"AT Translate", b"AT Translated"));
}

#[test]
fn a_real_keyboard_qualifies() {
    let codes: Vec<u16> = (1..=120).collect();
    assert!(device_qualifies(&codes, b"AT Translated Set 2 keyboard"));
}

#[test]
fn devices_without_the_full_alphabet_do_not_qualify() {
    let name: &[u8] = b"AT Translated Set 2 keyboard";
    // A mouse advertises buttons, not the alphabetic range.
    let mouse_codes: Vec<u16> = vec![272, 273, 274];
    assert!(!device_qualifies(&mouse_codes, name));
    // The two endpoints alone are not the full range: a device advertising
    // only A and Z lacks the other 24 letters and does not qualify.
    assert!(!device_qualifies(&[KEY_A, KEY_Z], name));
    assert!(!device_qualifies(&[KEY_A, KEY_Q], name));
    assert!(!device_qualifies(&[KEY_Z, KEY_Q], name));
    // Dropping any single letter from a full keyboard disqualifies it.
    let full: Vec<u16> = (1..=120).collect();
    assert!(device_qualifies(&full, name));
    for letter in LETTER_CODES {
        let partial: Vec<u16> = full.iter().copied().filter(|c| *c != letter).collect();
        assert!(
            !device_qualifies(&partial, name),
            "qualified without letter code {}",
            letter
        );
    }
}

#[test]
fn devices_with_the_wrong_name_do_not_qualify() {
    let codes: Vec<u16> = (1..=120).collect();
    assert!(!device_qualifies(&codes, b"Virtual Keyboard"));
    assert!(!device_qualifies(&codes, b""));
}

#[test]
fn startup_waits_then_proceeds_when_a_device_appears() {
    // Zero qualifying devices at startup, then one becomes available after
    // several retry intervals: the daemon proceeds without a restart.
    let mut elapsed_since_log: Option<u64> = None;
    let mut decisions = Vec::new();
    for attempt in 0..25 {
        let devices = if attempt < 20 { 0 } else { 1 };
        let output_ready = devices > 0;
        let d = startup_step(false, devices, output_ready, elapsed_since_log);
        match d {
            StartupDecision::Retry { log } => {
                if log {
                    elapsed_since_log = Some(0);
                } else {
                    elapsed_since_log = Some(elapsed_since_log.unwrap_or(0) + 500);
                }
            }
            _ => {}
        }
        decisions.push(d);
        if d == StartupDecision::Proceed {
            break;
        }
    }
    assert_eq!(decisions.len(), 21);
    assert_eq!(decisions[20], StartupDecision::Proceed);
    // The first attempt logs; the throttle then keeps the next attempts
    // quiet until the long interval has elapsed again.
    assert_eq!(decisions[0], StartupDecision::Retry { log: true });
    assert_eq!(decisions[1], StartupDecision::Retry { log: false });
    let logged = decisions
        .iter()
        .filter(|d| matches!(d, StartupDecision::Retry { log: true }))
        .count();
    assert_eq!(logged, 1);
}

#[test]
fn startup_aborts_at_once_on_shutdown() {
    // A shutdown signal received while waiting for devices returns
    // immediately, whatever else is ready: nothing grabbed, nothing
    // created.
    assert_eq!(startup_step(true, 0, false, None), StartupDecision::AbortShutdown);
    assert_eq!(startup_step(true, 3, true, Some(0)), StartupDecision::AbortShutdown);
}

#[test]
fn startup_retries_while_output_is_not_ready() {
    // A first failure is always reported; after that the throttle holds
    // until the long interval has elapsed.
    let d = startup_step(false, 2, false, None);
    assert_eq!(d, StartupDecision::Retry { log: true });
    let d = startup_step(false, 2, false, Some(0));
    assert_eq!(d, StartupDecision::Retry { log: false });
    let d = startup_step(false, 2, false, Some(STARTUP_LOG_INTERVAL_MS + 1));
    assert_eq!(d, StartupDecision::Retry { log: true });
}

#[test]
fn lifecycle_is_one_way() {
    let mut lc = Lifecycle::new();
    assert!(!lc.shutdown_requested());
    lc.request_shutdown();
    assert!(lc.shutdown_requested());
    // Requesting again changes nothing; there is no reset.
    lc.request_shutdown();
    assert!(lc.shutdown_requested());
}

#[test]
fn exit_status_distinguishes_clean_shutdown_from_dead_pipelines() {
    assert_eq!(process_exit_code(true), 0);
    assert_eq!(process_exit_code(false), 1);
}

#[test]
fn reader_loop_decision_table() {
    assert_eq!(reader_step(true, FetchOutcome::Batch), ReaderDecision::Stop);
    assert_eq!(reader_step(true, FetchOutcome::NoData), ReaderDecision::Stop);
    assert_eq!(reader_step(true, FetchOutcome::Failed), ReaderDecision::Stop);
    assert_eq!(reader_step(false, FetchOutcome::Batch), ReaderDecision::ProcessBatch);
    assert_eq!(reader_step(false, FetchOutcome::NoData), ReaderDecision::WaitForReadiness);
    assert_eq!(reader_step(false, FetchOutcome::Failed), ReaderDecision::FailDevice);
}

#[test]
fn reader_stops_only_on_channel_disconnect() {
    // A delivered event and a shed best-effort event keep the reader
    // running; a disconnected consumer ends it immediately.
    assert!(!after_submit(SubmitReport::Delivered));
    assert!(!after_submit(SubmitReport::Shed));
    assert!(after_submit(SubmitReport::Disconnected));
}
