use buttplug::correlator::{
    error_kind, interpret, shape_name, Answer, ExpectedAnswer, RequestResponseCorrelator,
};
use buttplug::error::{ButtplugClientError, ButtplugErrorKind};
use buttplug::gate::{admit_command, ConnectionStateGate};
use buttplug::message::{ButtplugCurrentSpecServerMessage, Endpoint};

#[test]
fn gate_reports_session_before_device() {
    let name = "Toy".to_owned();
    assert_eq!(admit_command(true, true, &name), Ok(()));
    assert_eq!(
        admit_command(false, true, &name),
        Err(ButtplugClientError::ConnectorNotConnected)
    );
    assert_eq!(
        admit_command(false, false, &name),
        Err(ButtplugClientError::ConnectorNotConnected)
    );
    assert_eq!(
        admit_command(true, false, &name),
        Err(ButtplugClientError::DeviceNotConnected("Toy".to_owned()))
    );
}

#[test]
fn gate_starts_connected_and_follows_its_setters() {
    let gate = ConnectionStateGate::new();
    let name = "Toy".to_owned();
    assert!(gate.connected());
    assert!(gate.client_connected());
    assert_eq!(gate.check(&name), Ok(()));
    gate.set_device_connected(false);
    assert!(!gate.connected());
    assert_eq!(
        gate.check(&name),
        Err(ButtplugClientError::DeviceNotConnected("Toy".to_owned()))
    );
    gate.set_client_connected(false);
    assert_eq!(gate.check(&name), Err(ButtplugClientError::ConnectorNotConnected));
    gate.set_client_connected(true);
    gate.set_device_connected(true);
    assert_eq!(gate.check(&name), Ok(()));
}

#[test]
fn rejected_send_spends_no_identifier() {
    let mut table = RequestResponseCorrelator::new();
    let name = "Toy".to_owned();
    assert_eq!(
        table.send(true, false, &name, ExpectedAnswer::Okay),
        Err(ButtplugClientError::DeviceNotConnected("Toy".to_owned()))
    );
    assert_eq!(
        table.send(false, true, &name, ExpectedAnswer::Okay),
        Err(ButtplugClientError::ConnectorNotConnected)
    );
    assert_eq!(table.pending_count(), 0);
    assert_eq!(table.send(true, true, &name, ExpectedAnswer::Okay), Ok(1));
}

#[test]
fn identifiers_follow_call_order() {
    let mut table = RequestResponseCorrelator::new();
    let name = "Toy".to_owned();
    assert!(table.has_identifier_left());
    assert_eq!(table.send(true, true, &name, ExpectedAnswer::Okay), Ok(1));
    assert_eq!(table.send(true, true, &name, ExpectedAnswer::RawData), Ok(2));
    assert_eq!(table.send(true, true, &name, ExpectedAnswer::Okay), Ok(3));
    assert_eq!(table.pending_count(), 3);
    assert!(table.is_pending(2));
    assert!(!table.is_pending(4));
}

#[test]
fn answers_resolve_in_delivery_order() {
    let mut table = RequestResponseCorrelator::new();
    let name = "Toy".to_owned();
    assert_eq!(table.send(true, true, &name, ExpectedAnswer::Okay), Ok(1));
    assert_eq!(table.send(true, true, &name, ExpectedAnswer::RssiLevel), Ok(2));
    assert_eq!(
        table.deliver(
            2,
            ButtplugCurrentSpecServerMessage::RSSILevelReading { device_index: 0, rssi_level: -40 }
        ),
        Some(Ok(Answer::RssiLevel(-40)))
    );
    assert!(table.is_pending(1));
    assert_eq!(
        table.deliver(1, ButtplugCurrentSpecServerMessage::Okay),
        Some(Ok(Answer::Okay))
    );
    assert_eq!(table.pending_count(), 0);
}

#[test]
fn answer_without_pending_entry_is_discarded() {
    let mut table = RequestResponseCorrelator::new();
    let name = "Toy".to_owned();
    assert_eq!(table.send(true, true, &name, ExpectedAnswer::Okay), Ok(1));
    assert_eq!(table.deliver(9, ButtplugCurrentSpecServerMessage::Okay), None);
    assert_eq!(table.deliver(0, ButtplugCurrentSpecServerMessage::Okay), None);
    assert!(table.is_pending(1));
    assert_eq!(
        table.deliver(1, ButtplugCurrentSpecServerMessage::Okay),
        Some(Ok(Answer::Okay))
    );
    // A second answer for the same identifier is ignored.
    assert_eq!(table.deliver(1, ButtplugCurrentSpecServerMessage::Okay), None);
}

#[test]
fn failed_handoff_resolves_with_closed_channel() {
    let mut table = RequestResponseCorrelator::new();
    let name = "Toy".to_owned();
    assert_eq!(table.send(true, true, &name, ExpectedAnswer::Okay), Ok(1));
    assert_eq!(table.fail_handoff(1), Some(ButtplugClientError::ConnectorChannelClosed));
    assert_eq!(table.fail_handoff(1), None);
    assert_eq!(table.deliver(1, ButtplugCurrentSpecServerMessage::Okay), None);
    assert_eq!(table.send(true, true, &name, ExpectedAnswer::Okay), Ok(2));
}

#[test]
fn test_serialized_error_relay() {
    let mut table = RequestResponseCorrelator::new();
    let name = "Toy".to_owned();
    assert_eq!(table.send(true, true, &name, ExpectedAnswer::Okay), Ok(1));
    assert_eq!(table.send(true, true, &name, ExpectedAnswer::Okay), Ok(2));
    assert_eq!(table.send(true, true, &name, ExpectedAnswer::Okay), Ok(3));
    let relayed = table.deliver(
        3,
        ButtplugCurrentSpecServerMessage::Error {
            error_code: 0,
            error_message: "NoDeviceCommManagers".to_owned(),
        },
    );
    assert!(matches!(
        relayed,
        Some(Err(ButtplugClientError::DomainError(ButtplugErrorKind::Unknown, _)))
    ));
    assert_eq!(
        relayed,
        Some(Err(ButtplugClientError::DomainError(
            ButtplugErrorKind::Unknown,
            "NoDeviceCommManagers".to_owned()
        )))
    );
}

#[test]
fn error_codes_map_to_kinds() {
    assert_eq!(error_kind(0), ButtplugErrorKind::Unknown);
    assert_eq!(error_kind(1), ButtplugErrorKind::Handshake);
    assert_eq!(error_kind(2), ButtplugErrorKind::Ping);
    assert_eq!(error_kind(3), ButtplugErrorKind::Message);
    assert_eq!(error_kind(4), ButtplugErrorKind::Device);
    assert_eq!(error_kind(200), ButtplugErrorKind::Unknown);
}

#[test]
fn expected_shapes_resolve_to_their_payload() {
    assert_eq!(
        interpret(
            ExpectedAnswer::BatteryLevel,
            ButtplugCurrentSpecServerMessage::BatteryLevelReading {
                device_index: 1,
                battery_level_bits: 0.5f64.to_bits(),
            }
        ),
        Ok(Answer::BatteryLevel(0.5f64.to_bits()))
    );
    assert_eq!(
        interpret(
            ExpectedAnswer::RawData,
            ButtplugCurrentSpecServerMessage::RawReading {
                device_index: 1,
                endpoint: Endpoint::Rx,
                data: vec![1, 2, 3],
            }
        ),
        Ok(Answer::RawData(vec![1, 2, 3]))
    );
    assert_eq!(
        interpret(ExpectedAnswer::Any, ButtplugCurrentSpecServerMessage::ScanningFinished),
        Ok(Answer::Message(ButtplugCurrentSpecServerMessage::ScanningFinished))
    );
}

#[test]
fn other_shapes_resolve_to_unexpected_message_type() {
    assert_eq!(
        interpret(ExpectedAnswer::Okay, ButtplugCurrentSpecServerMessage::ScanningFinished),
        Err(ButtplugClientError::UnexpectedMessageType("ScanningFinished".to_owned()))
    );
    assert_eq!(
        interpret(ExpectedAnswer::BatteryLevel, ButtplugCurrentSpecServerMessage::Okay),
        Err(ButtplugClientError::UnexpectedMessageType("Ok".to_owned()))
    );
    assert_eq!(
        interpret(
            ExpectedAnswer::RssiLevel,
            ButtplugCurrentSpecServerMessage::RawReading {
                device_index: 0,
                endpoint: Endpoint::Rx,
                data: vec![],
            }
        ),
        Err(ButtplugClientError::UnexpectedMessageType("RawReading".to_owned()))
    );
}

#[test]
fn reported_failure_wins_over_any_expected_shape() {
    let failure = ButtplugCurrentSpecServerMessage::Error {
        error_code: 4,
        error_message: "no such device".to_owned(),
    };
    assert_eq!(
        interpret(ExpectedAnswer::Any, failure.clone()),
        Err(ButtplugClientError::DomainError(
            ButtplugErrorKind::Device,
            "no such device".to_owned()
        ))
    );
    assert_eq!(
        interpret(ExpectedAnswer::RawData, failure),
        Err(ButtplugClientError::DomainError(
            ButtplugErrorKind::Device,
            "no such device".to_owned()
        ))
    );
}

#[test]
fn shape_names() {
    assert_eq!(shape_name(&ButtplugCurrentSpecServerMessage::Okay), "Ok");
    assert_eq!(
        shape_name(&ButtplugCurrentSpecServerMessage::DeviceRemoved { device_index: 3 }),
        "DeviceRemoved"
    );
    assert_eq!(
        shape_name(&ButtplugCurrentSpecServerMessage::RSSILevelReading {
            device_index: 3,
            rssi_level: -1
        }),
        "RSSILevelReading"
    );
    assert_eq!(
        shape_name(&ButtplugCurrentSpecServerMessage::BatteryLevelReading {
            device_index: 3,
            battery_level_bits: 0
        }),
        "BatteryLevelReading"
    );
    assert_eq!(
        shape_name(&ButtplugCurrentSpecServerMessage::Error {
            error_code: 1,
            error_message: String::new()
        }),
        "Error"
    );
}

#[test]
fn settling_a_handoff() {
    let mut table = RequestResponseCorrelator::new();
    let name = "Toy".to_owned();
    assert_eq!(table.send(true, true, &name, ExpectedAnswer::Okay), Ok(1));
    assert_eq!(table.settle_handoff(1, true), Ok(1));
    assert!(table.is_pending(1));
    assert_eq!(table.send(true, true, &name, ExpectedAnswer::Okay), Ok(2));
    assert_eq!(table.settle_handoff(2, false), Err(ButtplugClientError::ConnectorChannelClosed));
    assert!(!table.is_pending(2));
    assert!(table.is_pending(1));
}
