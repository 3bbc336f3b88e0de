use buttplug::error::ButtplugClientError;
use buttplug::jejoue::{encode_vibration, speed_step, JeJoue};
use buttplug::protocol::{DeviceAction, DeviceWriteCmd};
use buttplug::message::{
    ButtplugCurrentSpecClientMessage, ButtplugCurrentSpecDeviceMessageType, Endpoint,
};

fn percent(speed: f64) -> u32 {
    (speed * 100.0).round() as u32
}

fn vibrate(speeds: Vec<(u32, f64)>) -> ButtplugCurrentSpecClientMessage {
    ButtplugCurrentSpecClientMessage::VibrateCmd {
        device_index: 0,
        speeds: speeds.into_iter().map(|(i, s)| (i, percent(s))).collect(),
    }
}

fn write(data: Vec<u8>) -> DeviceAction {
    DeviceAction::Write(DeviceWriteCmd { endpoint: Endpoint::Tx, data, write_with_response: false })
}

#[test]
fn test_je_joue_protocol() {
    let mut device = JeJoue::new();
    // Only the first motor runs: one write, pattern 2.
    assert_eq!(device.handle_command(&vibrate(vec![(0, 0.5)])), Ok(write(vec![2, 3])));
    // The same again: nothing to write.
    assert_eq!(device.handle_command(&vibrate(vec![(0, 0.5)])), Ok(DeviceAction::Nothing));
    // The second motor starts while the first changes: one write, pattern 1.
    assert_eq!(
        device.handle_command(&vibrate(vec![(0, 0.1), (1, 0.5)])),
        Ok(write(vec![1, 1]))
    );
    // Only the second motor changed: one write, same bytes.
    assert_eq!(
        device.handle_command(&vibrate(vec![(0, 0.1), (1, 0.9)])),
        Ok(write(vec![1, 1]))
    );
    // The first motor stops: one write, pattern 3.
    assert_eq!(
        device.handle_command(&vibrate(vec![(0, 0.0), (1, 0.9)])),
        Ok(write(vec![3, 5]))
    );
    // Stop on both: one write, pattern 1.
    assert_eq!(
        device.handle_command(&ButtplugCurrentSpecClientMessage::StopDeviceCmd { device_index: 0 }),
        Ok(write(vec![1, 0]))
    );
    assert_eq!(
        device.handle_command(&ButtplugCurrentSpecClientMessage::StopDeviceCmd { device_index: 0 }),
        Ok(DeviceAction::Nothing)
    );
}

#[test]
fn merged_states_of_the_two_motor_scenario() {
    let mut device = JeJoue::new();
    assert!(device.handle_vibrate_cmd(&vec![(0, 50)]).unwrap().is_some());
    assert_eq!(device.manager.vibration.visible_state(), vec![50, 0]);
    assert_eq!(device.handle_vibrate_cmd(&vec![(0, 50)]), Ok(None));
    assert!(device.handle_vibrate_cmd(&vec![(0, 10), (1, 50)]).unwrap().is_some());
    assert_eq!(device.manager.vibration.visible_state(), vec![10, 50]);
    assert!(device.handle_vibrate_cmd(&vec![(0, 0), (1, 90)]).unwrap().is_some());
    assert_eq!(device.manager.vibration.visible_state(), vec![0, 90]);
    assert!(device.handle_stop_device_cmd().is_some());
    assert_eq!(device.manager.vibration.visible_state(), vec![0, 0]);
}

#[test]
fn speed_steps_round_up() {
    assert_eq!(speed_step(0), 0);
    assert_eq!(speed_step(1), 1);
    assert_eq!(speed_step(20), 1);
    assert_eq!(speed_step(21), 2);
    assert_eq!(speed_step(50), 3);
    assert_eq!(speed_step(90), 5);
    assert_eq!(speed_step(100), 5);
    assert_eq!(speed_step(u32::MAX), 5);
}

#[test]
fn encoder_is_total() {
    assert_eq!(encode_vibration(&vec![]).data, vec![1, 0]);
    assert_eq!(encode_vibration(&vec![40]).data, vec![2, 2]);
    assert_eq!(encode_vibration(&vec![0, 100, 7]).data, vec![3, 5]);
    assert_eq!(encode_vibration(&vec![60, 100]).data, vec![1, 3]);
    let cmd = encode_vibration(&vec![60, 100]);
    assert_eq!(cmd.endpoint, Endpoint::Tx);
    assert!(!cmd.write_with_response);
}

#[test]
fn vibration_index_out_of_range_is_refused() {
    let mut device = JeJoue::new();
    assert_eq!(
        device.handle_vibrate_cmd(&vec![(2, 50)]),
        Err(ButtplugClientError::DeviceFeatureIndexError(2, 2))
    );
    assert_eq!(device.manager.vibration.visible_state(), vec![0, 0]);
}

#[test]
fn raw_commands_bypass_the_cache() {
    let mut device = JeJoue::new();
    let raw = ButtplugCurrentSpecClientMessage::RawWriteCmd {
        device_index: 0,
        endpoint: Endpoint::Command,
        data: vec![9, 8, 7],
        write_with_response: true,
    };
    let expected = DeviceAction::Write(DeviceWriteCmd {
        endpoint: Endpoint::Command,
        data: vec![9, 8, 7],
        write_with_response: true,
    });
    assert_eq!(device.handle_command(&raw), Ok(expected));
    let again = DeviceAction::Write(DeviceWriteCmd {
        endpoint: Endpoint::Command,
        data: vec![9, 8, 7],
        write_with_response: true,
    });
    assert_eq!(device.handle_command(&raw), Ok(again));
    assert_eq!(
        device.handle_command(&ButtplugCurrentSpecClientMessage::RawReadCmd {
            device_index: 0,
            endpoint: Endpoint::Rx,
            expected_length: 4,
            timeout: 100,
        }),
        Ok(DeviceAction::Read { endpoint: Endpoint::Rx, expected_length: 4, timeout: 100 })
    );
    assert_eq!(
        device.handle_command(&ButtplugCurrentSpecClientMessage::RawSubscribeCmd {
            device_index: 0,
            endpoint: Endpoint::Rx,
        }),
        Ok(DeviceAction::Subscribe(Endpoint::Rx))
    );
    assert_eq!(
        device.handle_command(&ButtplugCurrentSpecClientMessage::RawUnsubscribeCmd {
            device_index: 0,
            endpoint: Endpoint::Rx,
        }),
        Ok(DeviceAction::Unsubscribe(Endpoint::Rx))
    );
    assert_eq!(device.manager.vibration.cached(0), None);
}

#[test]
fn commands_without_a_feature_are_not_supported() {
    let mut device = JeJoue::new();
    assert_eq!(
        device.handle_command(&ButtplugCurrentSpecClientMessage::RotateCmd {
            device_index: 0,
            rotations: vec![(0, (50, true))],
        }),
        Err(ButtplugClientError::MessageNotSupported(
            ButtplugCurrentSpecDeviceMessageType::RotateCmd
        ))
    );
    assert_eq!(
        device.handle_command(&ButtplugCurrentSpecClientMessage::BatteryLevelCmd {
            device_index: 0
        }),
        Err(ButtplugClientError::MessageNotSupported(
            ButtplugCurrentSpecDeviceMessageType::BatteryLevelCmd
        ))
    );
}

#[test]
fn new_handler_has_two_vibration_features_and_no_others() {
    let device = JeJoue::new();
    assert_eq!(device.manager.vibration.feature_count(), 2);
    assert_eq!(device.manager.rotation.feature_count(), 0);
    assert_eq!(device.manager.linear.feature_count(), 0);
    assert_eq!(device.manager.vibration.cached(0), None);
    assert_eq!(device.manager.vibration.cached(1), None);
}
