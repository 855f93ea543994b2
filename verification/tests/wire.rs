//! Marshalling of the RPC request and response types to and from their
//! wire tuples.

use choosme::dbus::KillCmdInputs;
use choosme::dbus::KillCmdOutputs;
use choosme::dbus::OpenCmdInputs;
use choosme::dbus::OpenCmdOutputs;
use choosme::dbus::OpenCmdOutputsStatus;
use choosme::dbus::SetDefaultCmdInputs;
use choosme::dbus::SetDefaultCmdOutputs;
use choosme::dbus::StatusCmdInputs;
use choosme::dbus::StatusCmdOutputApplication;
use choosme::dbus::StatusCmdOutputs;
use choosme::dbus::ToggleStatusParseError;

#[test]
fn open_inputs_round_trip() {
    let inputs = OpenCmdInputs::from_dbus_input(("http://example.com".to_string(),));
    assert_eq!(inputs.uri, "http://example.com");
    assert_eq!(inputs.to_dbus_input(), ("http://example.com".to_string(),));
}

#[test]
fn open_outputs_to_wire_words() {
    let launched = OpenCmdOutputs { status: OpenCmdOutputsStatus::Launched };
    assert_eq!(launched.to_dbus_output(), ("launched".to_string(),));
    let fallbacked = OpenCmdOutputs { status: OpenCmdOutputsStatus::Fallbacked };
    assert_eq!(fallbacked.to_dbus_output(), ("fallbacked".to_string(),));
}

#[test]
fn open_outputs_from_wire_words() {
    let out = OpenCmdOutputs::from_dbus_output(("launched".to_string(),)).unwrap();
    assert_eq!(out.status, OpenCmdOutputsStatus::Launched);
    let out = OpenCmdOutputs::from_dbus_output(("fallbacked".to_string(),)).unwrap();
    assert_eq!(out.status, OpenCmdOutputsStatus::Fallbacked);
}

#[test]
fn open_status_parse_rejects_the_empty_string() {
    let err = OpenCmdOutputsStatus::try_from(String::new()).unwrap_err();
    assert_eq!(err, ToggleStatusParseError::EmptyString);
}

#[test]
fn open_status_parse_reports_unknown_words() {
    let err = OpenCmdOutputsStatus::try_from("bogus".to_string()).unwrap_err();
    assert_eq!(err, ToggleStatusParseError::UnknownStatus("bogus".to_string()));
}

#[test]
fn parse_error_messages() {
    assert_eq!(
        ToggleStatusParseError::UnknownStatus("bogus".to_string()).describe(),
        "Unknown status: bogus"
    );
    assert_eq!(
        ToggleStatusParseError::EmptyString.describe(),
        "Empty string provided"
    );
}

#[test]
fn status_outputs_round_trip() {
    let outputs = StatusCmdOutputs {
        applications: vec![
            StatusCmdOutputApplication {
                id: "a".to_string(),
                name: "App A".to_string(),
                icon: "icon-a".to_string(),
            },
            StatusCmdOutputApplication {
                id: "b".to_string(),
                name: "App B".to_string(),
                icon: String::new(),
            },
        ],
        default_application_id: Some("b".to_string()),
    };
    let wire = outputs.to_dbus_output();
    assert_eq!(
        wire.0,
        vec![
            ("a".to_string(), "App A".to_string(), "icon-a".to_string()),
            ("b".to_string(), "App B".to_string(), String::new()),
        ]
    );
    assert_eq!(wire.1, "b");
    let back = StatusCmdOutputs::from_dbus_output(wire).unwrap();
    assert_eq!(back.applications.len(), 2);
    assert_eq!(back.applications[0].id, "a");
    assert_eq!(back.applications[0].name, "App A");
    assert_eq!(back.applications[1].icon, "");
    assert_eq!(back.default_application_id.as_deref(), Some("b"));
}

#[test]
fn status_outputs_empty_default_means_none() {
    let outputs = StatusCmdOutputs {
        applications: vec![],
        default_application_id: None,
    };
    let wire = outputs.to_dbus_output();
    assert_eq!(wire.1, "");
    let back = StatusCmdOutputs::from_dbus_output(wire).unwrap();
    assert!(back.default_application_id.is_none());
    assert!(back.applications.is_empty());
}

#[test]
fn status_inputs_are_empty() {
    let inputs = StatusCmdInputs::from_dbus_input(());
    inputs.to_dbus_input();
}

#[test]
fn kill_round_trip_is_trivial() {
    let inputs = KillCmdInputs::from_dbus_input(());
    inputs.to_dbus_input();
    let outputs = KillCmdOutputs::from_dbus_output(()).unwrap();
    outputs.to_dbus_output();
}

#[test]
fn set_default_inputs_round_trip() {
    let inputs = SetDefaultCmdInputs::from_dbus_input((-1,));
    assert_eq!(inputs.index, -1);
    assert_eq!(inputs.to_dbus_input(), (-1,));
    let inputs = SetDefaultCmdInputs::from_dbus_input((42,));
    assert_eq!(inputs.to_dbus_input(), (42,));
    let outputs = SetDefaultCmdOutputs::from_dbus_output(()).unwrap();
    outputs.to_dbus_output();
}
