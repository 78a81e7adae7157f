use pulsectl::controllers::errors::{ControllerError, ControllerErrorType};
use pulsectl::errors::{PulseCtlError, PulseCtlErrorType};

#[test]
fn get_info_error_is_displayed_with_its_name() {
    let e = ControllerError::new(ControllerErrorType::GetInfoError, "sink not found");
    assert_eq!(e.to_string(), "[GetInfoError]: sink not found");
}

#[test]
fn controller_kinds_are_displayed_under_their_own_names() {
    let e = ControllerError::new(ControllerErrorType::ConnectionLayerError, "below");
    assert_eq!(e.to_string(), "[ConnectionLayerError]: below");
    let e = ControllerError::new(ControllerErrorType::GetInfoError, "");
    assert_eq!(e.to_string(), "[GetInfoError]: ");
    assert_eq!(ControllerErrorType::ConnectionLayerError.name(), "ConnectionLayerError");
    assert_eq!(ControllerErrorType::GetInfoError.name(), "GetInfoError");
}

#[test]
fn controller_new_keeps_kind_and_message() {
    let e = ControllerError::new(ControllerErrorType::GetInfoError, "no such source");
    assert!(matches!(e.kind(), ControllerErrorType::GetInfoError));
    assert_eq!(e.kind(), ControllerErrorType::GetInfoError);
    assert_eq!(e.message(), "no such source");
}

#[test]
fn wrapped_operation_error_shows_kind_and_message() {
    let inner = PulseCtlError::new(PulseCtlErrorType::OperationError, "cancelled");
    let outer = ControllerError::from(inner);
    assert_eq!(outer.kind(), ControllerErrorType::ConnectionLayerError);
    assert_eq!(
        outer.message(),
        "PulseCtlError { error: OperationError, message: \"cancelled\" }"
    );
    let shown = outer.to_string();
    assert_eq!(
        shown,
        "[ConnectionLayerError]: PulseCtlError { error: OperationError, message: \"cancelled\" }"
    );
    assert!(shown.starts_with("[ConnectionLayerError]: "));
    assert!(shown.contains("OperationError"));
    assert!(shown.contains("cancelled"));
}

#[test]
fn wrapping_always_gives_a_connection_layer_error() {
    let kinds = [
        PulseCtlErrorType::ConnectError,
        PulseCtlErrorType::OperationError,
        PulseCtlErrorType::PulseAudioError,
    ];
    for kind in kinds {
        for message in ["", "refused", "server went away", "42"] {
            let inner = PulseCtlError::new(kind, message);
            let debug = format!("{:?}", inner);
            let outer = ControllerError::from(inner);
            assert_eq!(outer.kind(), ControllerErrorType::ConnectionLayerError);
            assert_eq!(outer.message(), debug);
            assert!(outer.to_string().contains(kind.name()));
            assert!(outer.to_string().contains(message));
            assert!(outer.to_string().contains(&format!("{:?}", message)));
        }
    }
}

#[test]
fn wrapping_through_into() {
    let inner = PulseCtlError::new(PulseCtlErrorType::ConnectError, "refused");
    let outer: ControllerError = inner.into();
    assert_eq!(
        outer.to_string(),
        "[ConnectionLayerError]: PulseCtlError { error: ConnectError, message: \"refused\" }"
    );
}

#[test]
fn wrapping_a_native_code_error() {
    let outer = ControllerError::from(PulseCtlError::from_native_code(Some("NoEntity")));
    assert_eq!(
        outer.to_string(),
        "[ConnectionLayerError]: PulseCtlError { error: PulseAudioError, \
         message: \"server returned error code NoEntity\" }"
    );
}

#[test]
fn wrapped_message_with_a_line_break_is_shown_escaped() {
    let inner = PulseCtlError::new(PulseCtlErrorType::OperationError, "first\nsecond");
    let outer = ControllerError::from(inner);
    let shown = outer.to_string();
    assert_eq!(
        shown,
        "[ConnectionLayerError]: PulseCtlError { error: OperationError, \
         message: \"first\\nsecond\" }"
    );
    assert!(shown.contains("OperationError"));
    assert!(!shown.contains("first\nsecond"));
}

#[test]
fn controller_equal_fields_are_displayed_alike() {
    let first = ControllerError::from(PulseCtlError::new(PulseCtlErrorType::ConnectError, "x"));
    let second = ControllerError::from(PulseCtlError::new(PulseCtlErrorType::ConnectError, "x"));
    assert_eq!(first.kind(), second.kind());
    assert_eq!(first.message(), second.message());
    assert_eq!(first.to_string(), second.to_string());
    let a = ControllerError::new(ControllerErrorType::GetInfoError, "sink not found");
    let b = ControllerError::new(ControllerErrorType::GetInfoError, "sink not found");
    assert_eq!(a.to_string(), b.to_string());
    assert_eq!(a.to_string(), a.to_string());
}
