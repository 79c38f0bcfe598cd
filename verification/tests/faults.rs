use optail::error_label;
use optail::fault_line;
use optail::should_surface;
use optail::FaultKind;

#[test]
fn verbose_mode_surfaces_every_fault() {
    assert!(should_surface(FaultKind::ConnectionFailure, true));
    assert!(should_surface(FaultKind::BookmarkQueryFailure, true));
    assert!(should_surface(FaultKind::CursorOpenFailure, true));
    assert!(should_surface(FaultKind::EntryDecodeFailure, true));
    assert!(should_surface(FaultKind::EmbeddedStreamError, true));
}

#[test]
fn quiet_mode_surfaces_only_the_embedded_stream_error() {
    assert!(!should_surface(FaultKind::ConnectionFailure, false));
    assert!(!should_surface(FaultKind::BookmarkQueryFailure, false));
    assert!(!should_surface(FaultKind::CursorOpenFailure, false));
    assert!(!should_surface(FaultKind::EntryDecodeFailure, false));
    assert!(should_surface(FaultKind::EmbeddedStreamError, false));
}

#[test]
fn fault_line_joins_label_and_message() {
    assert_eq!(
        fault_line("optail error", "got error \"not authorized\""),
        "optail error: got error \"not authorized\""
    );
}

#[test]
fn error_label_is_bare_when_colors_are_off() {
    colored::control::set_override(false);
    assert_eq!(error_label(), "optail error");
}
