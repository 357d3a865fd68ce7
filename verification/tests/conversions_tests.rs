use hydebar::brightness::BrightnessError;
use hydebar::config::modules::{ModuleName, non_empty};
use hydebar::idle_inhibitor::IdleInhibitorError;
use hydebar::privacy::PrivacyError;

#[test]
fn converts_io_errors() {
    let io = std::io::Error::new(std::io::ErrorKind::Other, "boom");
    let err = BrightnessError::filesystem(io.to_string());
    assert!(matches!(
        err,
        BrightnessError::Filesystem { ref context } if context.as_str() == "boom"
    ));
}

#[test]
fn converts_zbus_errors() {
    let err = BrightnessError::dbus("failure".to_owned());
    assert!(matches!(err, BrightnessError::DBus { .. }));
}

#[test]
fn connection_error_converts() {
    let err = IdleInhibitorError::connection("no compositor".to_owned());
    assert!(matches!(err, IdleInhibitorError::Connection { .. }));
}

#[test]
fn dispatch_error_converts() {
    let err = IdleInhibitorError::dispatch("dispatch".to_owned());
    assert!(matches!(err, IdleInhibitorError::Dispatch { .. }));
}

#[test]
fn converts_not_found_to_webcam_unavailable() {
    let io = std::io::Error::new(std::io::ErrorKind::NotFound, "missing");
    let err = PrivacyError::from_io_error(io.kind() == std::io::ErrorKind::NotFound, io.to_string());
    assert_eq!(err, PrivacyError::WebcamUnavailable);
}

#[test]
fn converts_pipewire_error() {
    assert!(matches!(
        PrivacyError::from_pipewire_error("no memory".to_owned()),
        PrivacyError::PipewireMainloop { .. }
    ));
}

#[test]
fn non_empty_rejects_empty_vectors() {
    let error = non_empty(Vec::<String>::new()).expect_err("empty list should fail");
    assert!(error.contains("non-empty"));
    assert_eq!(non_empty(vec!["DP-1".to_owned()]), Ok(vec!["DP-1".to_owned()]));
}

#[test]
fn module_name_deserializes_custom_values() {
    let name = ModuleName::from_name("MyCustom");
    assert!(matches!(name, ModuleName::Custom(value) if value == "MyCustom"));
}
