use qrgen::settings::Settings;
use qrgen::source::{SourceEvent, SourceState};
use qrgen::symbol::{Mask, QrCodeEcc, Version};
use std::path::PathBuf;

#[test]
fn settings_keep_what_they_are_given() {
    let settings = Settings::new(
        PathBuf::from("out"),
        3,
        7,
        QrCodeEcc::Quartile,
        16,
        true,
        4,
        Some(5),
    );
    assert_eq!(&PathBuf::from("out"), settings.output());
    assert_eq!(3, settings.qr_version_min().value());
    assert_eq!(7, settings.qr_version_max().value());
    assert_eq!(QrCodeEcc::Quartile, settings.error_correction());
    assert_eq!(16, settings.chunk_size());
    assert!(settings.has_headers());
    assert_eq!(4, settings.border());
    assert_eq!(Some(5), settings.mask().map(|m| m.value()));
}

#[test]
fn a_maximum_below_the_minimum_is_reset() {
    let settings = Settings::new(PathBuf::new(), 9, 2, QrCodeEcc::Low, 1, false, 0, None);
    assert_eq!(9, settings.qr_version_min().value());
    assert_eq!(9, settings.qr_version_max().value());
    assert!(settings.mask().is_none());
    assert!(!settings.has_headers());

    let equal = Settings::new(PathBuf::new(), 40, 40, QrCodeEcc::High, 1, false, 0, Some(0));
    assert_eq!(40, equal.qr_version_min().value());
    assert_eq!(40, equal.qr_version_max().value());
    assert_eq!(Some(0), equal.mask().map(|m| m.value()));
}

#[test]
fn versions_and_masks_hold_their_number() {
    for number in 1u8..41 {
        assert_eq!(number, Version::new(number).value());
    }
    for number in 0u8..8 {
        assert_eq!(number, Mask::new(number).value());
    }
    assert_eq!(Version::new(7), Version::new(7));
    assert_ne!(Mask::new(1), Mask::new(2));
}

#[test]
fn a_source_that_cannot_be_opened_has_failed() {
    let state = SourceState::Opened.on(SourceEvent::OpenFailed);
    assert_eq!(SourceState::Failed, state);
    assert!(state.is_done());
    assert_eq!(SourceState::Failed, state.on(SourceEvent::BatchDone));
    assert_eq!(SourceState::Failed, state.on(SourceEvent::Exhausted));
}

#[test]
fn a_source_streams_until_it_is_exhausted() {
    let mut state = SourceState::Opened;
    assert!(!state.is_done());
    state = state.on(SourceEvent::BatchDone);
    assert_eq!(SourceState::Streaming, state);
    state = state.on(SourceEvent::BatchDone);
    assert_eq!(SourceState::Streaming, state);
    assert!(!state.is_done());
    state = state.on(SourceEvent::Exhausted);
    assert_eq!(SourceState::Completed, state);
    assert!(state.is_done());
    assert_eq!(SourceState::Completed, state.on(SourceEvent::OpenFailed));
}

#[test]
fn an_empty_source_completes() {
    assert_eq!(
        SourceState::Completed,
        SourceState::Opened.on(SourceEvent::Exhausted)
    );
}

#[test]
fn the_failure_of_a_record_never_fails_the_source() {
    for &state in [
        SourceState::Opened,
        SourceState::Streaming,
        SourceState::Completed,
        SourceState::Failed,
    ]
    .iter()
    {
        assert_eq!(state, state.on(SourceEvent::RecordFailed));
    }
    assert_eq!(
        SourceState::Streaming,
        SourceState::Streaming.on(SourceEvent::OpenFailed)
    );
}
