use ffmpeg_next::context::ContextRegistry;
use ffmpeg_next::dictionary::Dictionary;
use ffmpeg_next::error::{Error, INTERRUPT_CODE};
use ffmpeg_next::format::{InputAction, InputOpen, InputPhase};

// the native "no such file or directory" status is some non-zero code;
// the exact value does not matter to the sequence
const ENOENT_CODE: i32 = -2;

#[test]
fn missing_path_yields_open_failed_and_no_allocation() {
    let mut registry = ContextRegistry::new();
    let session = InputOpen::new(false);
    assert!(matches!(session.next_action(), InputAction::CallOpen));
    // the native open call fails: the path does not exist
    let session = session.on_open_returned(ENOENT_CODE);
    assert!(matches!(session.phase, InputPhase::Failed));
    assert!(!session.owns_context);
    assert!(matches!(session.next_action(), InputAction::Finish));
    let result = session.finish(&mut registry);
    assert_eq!(result.unwrap_err(), Error::OpenFailed { code: ENOENT_CODE });
    // leak check: nothing was left allocated
    assert_eq!(registry.live_count(), 0);
}

#[test]
fn probe_failure_closes_the_context_first() {
    let mut registry = ContextRegistry::new();
    let session = InputOpen::new(false);
    let session = session.on_open_returned(0);
    assert!(matches!(session.phase, InputPhase::Probing));
    assert!(session.owns_context);
    assert!(matches!(session.next_action(), InputAction::CallProbe));
    let session = session.on_probe_returned(-5);
    // the just-opened context must be closed before the error returns
    assert!(matches!(session.next_action(), InputAction::CloseContext));
    assert!(session.owns_context);
    let session = session.on_context_closed();
    assert!(matches!(session.phase, InputPhase::Failed));
    assert!(!session.owns_context);
    let result = session.finish(&mut registry);
    assert_eq!(result.unwrap_err(), Error::ProbeFailed { code: -5 });
    assert_eq!(registry.live_count(), 0);
}

#[test]
fn successful_open_yields_a_live_handle() {
    let mut registry = ContextRegistry::new();
    let session = InputOpen::new(false);
    let session = session.on_open_returned(0);
    let session = session.on_probe_returned(3);
    assert!(matches!(session.phase, InputPhase::Succeeded));
    let handle = session.finish(&mut registry).unwrap();
    assert_eq!(registry.live_count(), 1);
    assert!(registry.is_live(handle.id()));
    handle.close(&mut registry);
    assert_eq!(registry.live_count(), 0);
}

#[test]
fn dictionary_is_reclaimed_whether_open_fails_or_succeeds() {
    // failing call: the lend window still ends with the call
    let mut options = Dictionary::new();
    options.push("probesize".to_string(), "32".to_string());
    let entries = options.disown();
    let session = InputOpen::new(true);
    assert!(session.dict_lent);
    let session = session.on_open_returned(ENOENT_CODE);
    assert!(!session.dict_lent);
    let options = Dictionary::own(entries);
    assert_eq!(options.len(), 1);
    assert_eq!(options.key_at(0), "probesize");

    // successful call: the native layer consumed the recognised entry
    let entries = options.disown();
    let session = InputOpen::new(true);
    let session = session.on_open_returned(0);
    assert!(!session.dict_lent);
    let mut mutated = entries;
    mutated.clear();
    let options = Dictionary::own(mutated);
    assert_eq!(options.len(), 0);
    let session = session.on_probe_returned(0);
    assert!(matches!(session.phase, InputPhase::Succeeded));
    assert!(!session.dict_lent);
}

#[test]
fn immediate_interrupt_ends_the_open_with_an_interrupt_error() {
    let mut registry = ContextRegistry::new();
    // the caller's predicate answers "abort" at the first poll, so the
    // native open returns the interruption status instead of blocking
    let session = InputOpen::new(false);
    let session = session.on_open_returned(INTERRUPT_CODE);
    assert!(matches!(session.phase, InputPhase::Failed));
    assert!(matches!(session.next_action(), InputAction::Finish));
    let err = session.finish(&mut registry).unwrap_err();
    assert!(err.interrupted());
    assert_eq!(err.native_code(), Some(INTERRUPT_CODE));
    assert_eq!(registry.live_count(), 0);
}

#[test]
fn ordinary_failure_is_not_an_interrupt() {
    let session = InputOpen::new(false);
    let session = session.on_open_returned(ENOENT_CODE);
    let err = session.error.unwrap();
    assert!(!err.interrupted());
}

#[test]
fn two_opens_give_independent_handles_either_teardown_order() {
    // first order: close the first handle first
    let mut registry = ContextRegistry::new();
    let a = InputOpen::new(false)
        .on_open_returned(0)
        .on_probe_returned(0)
        .finish(&mut registry)
        .unwrap();
    let b = InputOpen::new(false)
        .on_open_returned(0)
        .on_probe_returned(0)
        .finish(&mut registry)
        .unwrap();
    assert_ne!(a.id(), b.id());
    assert_eq!(registry.live_count(), 2);
    // identifiers are handed out in order, and closing returns none
    assert_eq!(registry.issued_count(), 2);
    let b_id = b.id();
    a.close(&mut registry);
    assert!(registry.is_live(b_id));
    b.close(&mut registry);
    assert_eq!(registry.live_count(), 0);

    // second order: close the second handle first
    let mut registry = ContextRegistry::new();
    let a = InputOpen::new(false)
        .on_open_returned(0)
        .on_probe_returned(0)
        .finish(&mut registry)
        .unwrap();
    let b = InputOpen::new(false)
        .on_open_returned(0)
        .on_probe_returned(0)
        .finish(&mut registry)
        .unwrap();
    let a_id = a.id();
    b.close(&mut registry);
    assert!(registry.is_live(a_id));
    a.close(&mut registry);
    assert_eq!(registry.live_count(), 0);
}
