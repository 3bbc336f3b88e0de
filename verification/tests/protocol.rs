use buttplug::error::ButtplugClientError;
use buttplug::message::{
    ButtplugCurrentSpecClientMessage, ButtplugCurrentSpecDeviceMessageType, Endpoint,
};
use buttplug::protocol::{
    copy_bytes, forward_raw, message_type, DeviceAction, DeviceWriteCmd, GenericProtocol,
    ProtocolDispatcher, ProtocolModel, StateChange,
};

fn vibration(state: Vec<u32>) -> DeviceAction {
    DeviceAction::Update(StateChange { vibration: Some(state), rotation: None, linear: None })
}

fn no_change() -> DeviceAction {
    DeviceAction::Update(StateChange { vibration: None, rotation: None, linear: None })
}

#[test]
fn default_handler_passes_merged_values_through() {
    let mut device = GenericProtocol::new(2, 1, 1);
    let first = ButtplugCurrentSpecClientMessage::VibrateCmd {
        device_index: 0,
        speeds: vec![(0, 50)],
    };
    assert_eq!(device.handle_command(&first), Ok(vibration(vec![50, 0])));
    assert_eq!(device.handle_command(&first), Ok(no_change()));
    let second = ButtplugCurrentSpecClientMessage::VibrateCmd {
        device_index: 0,
        speeds: vec![(1, 20)],
    };
    assert_eq!(device.handle_command(&second), Ok(vibration(vec![50, 20])));
}

#[test]
fn default_handler_keeps_categories_apart() {
    let mut device = GenericProtocol::new(1, 1, 1);
    assert_eq!(
        device.handle_command(&ButtplugCurrentSpecClientMessage::RotateCmd {
            device_index: 0,
            rotations: vec![(0, (30, true))],
        }),
        Ok(DeviceAction::Update(StateChange {
            vibration: None,
            rotation: Some(vec![(30, true)]),
            linear: None,
        }))
    );
    assert_eq!(
        device.handle_command(&ButtplugCurrentSpecClientMessage::LinearCmd {
            device_index: 0,
            vectors: vec![(0, (500, 80))],
        }),
        Ok(DeviceAction::Update(StateChange {
            vibration: None,
            rotation: None,
            linear: Some(vec![(500, 80)]),
        }))
    );
    assert_eq!(device.manager.vibration.cached(0), None);
}

#[test]
fn default_stop_resets_every_category_that_moved() {
    let mut device = GenericProtocol::new(2, 1, 1);
    let stop = ButtplugCurrentSpecClientMessage::StopDeviceCmd { device_index: 0 };
    assert_eq!(device.handle_command(&stop), Ok(no_change()));
    assert_eq!(
        device.handle_command(&ButtplugCurrentSpecClientMessage::VibrateCmd {
            device_index: 0,
            speeds: vec![(1, 5)],
        }),
        Ok(vibration(vec![0, 5]))
    );
    assert_eq!(
        device.handle_command(&ButtplugCurrentSpecClientMessage::RotateCmd {
            device_index: 0,
            rotations: vec![(0, (0, true))],
        }),
        Ok(DeviceAction::Update(StateChange {
            vibration: None,
            rotation: Some(vec![(0, true)]),
            linear: None,
        }))
    );
    assert_eq!(
        device.handle_command(&stop),
        Ok(DeviceAction::Update(StateChange {
            vibration: Some(vec![0, 0]),
            rotation: Some(vec![(0, false)]),
            linear: None,
        }))
    );
    assert_eq!(device.handle_command(&stop), Ok(no_change()));
    assert_eq!(
        device.handle_stop_device_cmd(),
        StateChange { vibration: None, rotation: None, linear: None }
    );
}

#[test]
fn default_handler_refuses_missing_features_and_queries() {
    let mut device = GenericProtocol::new(1, 0, 0);
    assert_eq!(
        device.handle_command(&ButtplugCurrentSpecClientMessage::RotateCmd {
            device_index: 0,
            rotations: vec![(0, (30, true))],
        }),
        Err(ButtplugClientError::DeviceFeatureIndexError(0, 0))
    );
    assert_eq!(
        device.handle_command(&ButtplugCurrentSpecClientMessage::RSSILevelCmd { device_index: 0 }),
        Err(ButtplugClientError::MessageNotSupported(
            ButtplugCurrentSpecDeviceMessageType::RSSILevelCmd
        ))
    );
}

#[test]
fn raw_commands_are_forwarded_every_time() {
    let mut device = GenericProtocol::new(1, 0, 0);
    let raw = ButtplugCurrentSpecClientMessage::RawWriteCmd {
        device_index: 0,
        endpoint: Endpoint::TxMode,
        data: vec![1, 2, 3],
        write_with_response: false,
    };
    for _ in 0..2 {
        assert_eq!(
            device.handle_command(&raw),
            Ok(DeviceAction::Write(DeviceWriteCmd {
                endpoint: Endpoint::TxMode,
                data: vec![1, 2, 3],
                write_with_response: false,
            }))
        );
    }
    assert_eq!(
        forward_raw(&ButtplugCurrentSpecClientMessage::StopDeviceCmd { device_index: 0 }),
        None
    );
    assert_eq!(copy_bytes(&vec![4, 5]), vec![4, 5]);
}

#[test]
fn dispatcher_routes_by_model() {
    let command = ButtplugCurrentSpecClientMessage::VibrateCmd {
        device_index: 0,
        speeds: vec![(0, 50)],
    };
    let mut generic = ProtocolDispatcher::for_model(ProtocolModel::Generic, 2, 0, 0);
    assert_eq!(generic.model(), ProtocolModel::Generic);
    assert_eq!(generic.handle_command(&command), Ok(vibration(vec![50, 0])));
    let mut jejoue = ProtocolDispatcher::for_model(ProtocolModel::JeJoue, 9, 9, 9);
    assert_eq!(jejoue.model(), ProtocolModel::JeJoue);
    assert_eq!(
        jejoue.handle_command(&command),
        Ok(DeviceAction::Write(DeviceWriteCmd {
            endpoint: Endpoint::Tx,
            data: vec![2, 3],
            write_with_response: false,
        }))
    );
    assert_eq!(jejoue.handle_command(&command), Ok(DeviceAction::Nothing));
}

#[test]
fn message_types_of_commands() {
    assert_eq!(
        message_type(&ButtplugCurrentSpecClientMessage::StopDeviceCmd { device_index: 0 }),
        ButtplugCurrentSpecDeviceMessageType::StopDeviceCmd
    );
    assert_eq!(
        message_type(&ButtplugCurrentSpecClientMessage::LinearCmd {
            device_index: 0,
            vectors: vec![],
        }),
        ButtplugCurrentSpecDeviceMessageType::LinearCmd
    );
}
