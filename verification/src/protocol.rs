//! Protocol dispatch: what the transport is to do for a command, by device
//! model. A model without a protocol of its own gets the default handlers,
//! which keep the cached state and pass merged values on as they are.

use vstd::prelude::*;
use crate::error::ButtplugClientError;
use crate::jejoue::{jejoue_handles, JeJoue};
use crate::message::{
    ButtplugCurrentSpecClientMessage,
    ButtplugCurrentSpecDeviceMessageType,
    Endpoint,
};
use crate::state::{cache_after, update_outcome, update_result, CommandStateManager};

verus! {

/// A write to an endpoint of a piece of hardware.
#[derive(Debug, PartialEq, Eq)]
pub struct DeviceWriteCmd {
    /// Where the bytes go.
    pub endpoint: Endpoint,
    /// The bytes.
    pub data: Vec<u8>,
    /// Whether the transport must wait for the hardware to acknowledge.
    pub write_with_response: bool,
}

/// The categories whose state a command changed, each with its full
/// merged state. A category that is absent needs no write.
#[derive(Debug, PartialEq, Eq)]
pub struct StateChange {
    /// The speeds of all vibration features.
    pub vibration: Option<Vec<u32>>,
    /// The speeds and directions of all rotation features.
    pub rotation: Option<Vec<(u32, bool)>>,
    /// The durations and positions of all linear features.
    pub linear: Option<Vec<(u32, u32)>>,
}

/// What the transport is to do for a command.
#[derive(Debug, PartialEq, Eq)]
pub enum DeviceAction {
    /// Nothing: the device already shows what was asked for.
    Nothing,
    /// Write bytes to an endpoint.
    Write(DeviceWriteCmd),
    /// Read bytes from an endpoint.
    Read { endpoint: Endpoint, expected_length: u32, timeout: u32 },
    /// Have an endpoint report what it receives.
    Subscribe(Endpoint),
    /// End the reports of an endpoint.
    Unsubscribe(Endpoint),
    /// Bring the device to the merged state, values as they are.
    Update(StateChange),
}

/// The category of a command.
pub open spec fn message_type_spec(
    message: ButtplugCurrentSpecClientMessage,
) -> ButtplugCurrentSpecDeviceMessageType {
    match message {
        ButtplugCurrentSpecClientMessage::VibrateCmd { .. } =>
            ButtplugCurrentSpecDeviceMessageType::VibrateCmd,
        ButtplugCurrentSpecClientMessage::RotateCmd { .. } =>
            ButtplugCurrentSpecDeviceMessageType::RotateCmd,
        ButtplugCurrentSpecClientMessage::LinearCmd { .. } =>
            ButtplugCurrentSpecDeviceMessageType::LinearCmd,
        ButtplugCurrentSpecClientMessage::StopDeviceCmd { .. } =>
            ButtplugCurrentSpecDeviceMessageType::StopDeviceCmd,
        ButtplugCurrentSpecClientMessage::RawWriteCmd { .. } =>
            ButtplugCurrentSpecDeviceMessageType::RawWriteCmd,
        ButtplugCurrentSpecClientMessage::RawReadCmd { .. } =>
            ButtplugCurrentSpecDeviceMessageType::RawReadCmd,
        ButtplugCurrentSpecClientMessage::RawSubscribeCmd { .. } =>
            ButtplugCurrentSpecDeviceMessageType::RawSubscribeCmd,
        ButtplugCurrentSpecClientMessage::RawUnsubscribeCmd { .. } =>
            ButtplugCurrentSpecDeviceMessageType::RawUnsubscribeCmd,
        ButtplugCurrentSpecClientMessage::BatteryLevelCmd { .. } =>
            ButtplugCurrentSpecDeviceMessageType::BatteryLevelCmd,
        ButtplugCurrentSpecClientMessage::RSSILevelCmd { .. } =>
            ButtplugCurrentSpecDeviceMessageType::RSSILevelCmd,
    }
}

/// The category of a command.
pub fn message_type(message: &ButtplugCurrentSpecClientMessage) -> (t:
    ButtplugCurrentSpecDeviceMessageType)
    ensures
        t == message_type_spec(*message),
{
    match message {
        ButtplugCurrentSpecClientMessage::VibrateCmd { .. } =>
            ButtplugCurrentSpecDeviceMessageType::VibrateCmd,
        ButtplugCurrentSpecClientMessage::RotateCmd { .. } =>
            ButtplugCurrentSpecDeviceMessageType::RotateCmd,
        ButtplugCurrentSpecClientMessage::LinearCmd { .. } =>
            ButtplugCurrentSpecDeviceMessageType::LinearCmd,
        ButtplugCurrentSpecClientMessage::StopDeviceCmd { .. } =>
            ButtplugCurrentSpecDeviceMessageType::StopDeviceCmd,
        ButtplugCurrentSpecClientMessage::RawWriteCmd { .. } =>
            ButtplugCurrentSpecDeviceMessageType::RawWriteCmd,
        ButtplugCurrentSpecClientMessage::RawReadCmd { .. } =>
            ButtplugCurrentSpecDeviceMessageType::RawReadCmd,
        ButtplugCurrentSpecClientMessage::RawSubscribeCmd { .. } =>
            ButtplugCurrentSpecDeviceMessageType::RawSubscribeCmd,
        ButtplugCurrentSpecClientMessage::RawUnsubscribeCmd { .. } =>
            ButtplugCurrentSpecDeviceMessageType::RawUnsubscribeCmd,
        ButtplugCurrentSpecClientMessage::BatteryLevelCmd { .. } =>
            ButtplugCurrentSpecDeviceMessageType::BatteryLevelCmd,
        ButtplugCurrentSpecClientMessage::RSSILevelCmd { .. } =>
            ButtplugCurrentSpecDeviceMessageType::RSSILevelCmd,
    }
}

/// A copy of a byte string.
pub fn copy_bytes(bytes: &Vec<u8>) -> (copy: Vec<u8>)
    ensures
        copy@ == bytes@,
{
    let mut copy: Vec<u8> = Vec::new();
    let mut i: usize = 0;
    while i < bytes.len()
        invariant
            i <= bytes.len(),
            copy@ == bytes@.take(i as int),
        decreases bytes.len() - i,
    {
        copy.push(bytes[i]);
        i = i + 1;
        assert(copy@ =~= bytes@.take(i as int));
    }
    assert(bytes@.take(i as int) =~= bytes@);
    copy
}

/// What a raw command is forwarded as: the same endpoint and the same
/// values, with nothing added or left out. Commands that are not raw are
/// not forwarded.
pub open spec fn forwards(message: ButtplugCurrentSpecClientMessage, action: DeviceAction) -> bool {
    match message {
        ButtplugCurrentSpecClientMessage::RawWriteCmd {
            endpoint,
            data,
            write_with_response,
            ..
        } => {
            &&& action matches DeviceAction::Write(cmd)
            &&& cmd.endpoint == endpoint
            &&& cmd.data@ == data@
            &&& cmd.write_with_response == write_with_response
        },
        ButtplugCurrentSpecClientMessage::RawReadCmd { endpoint, expected_length, timeout, .. } => {
            action == (DeviceAction::Read { endpoint, expected_length, timeout })
        },
        ButtplugCurrentSpecClientMessage::RawSubscribeCmd { endpoint, .. } => {
            action == DeviceAction::Subscribe(endpoint)
        },
        ButtplugCurrentSpecClientMessage::RawUnsubscribeCmd { endpoint, .. } => {
            action == DeviceAction::Unsubscribe(endpoint)
        },
        _ => false,
    }
}

/// Forwards a raw command; hands back nothing for any other.
pub fn forward_raw(message: &ButtplugCurrentSpecClientMessage) -> (r: Option<DeviceAction>)
    ensures
        match r {
            Some(action) => forwards(*message, action),
            None => !(message is RawWriteCmd || message is RawReadCmd || message is RawSubscribeCmd
                || message is RawUnsubscribeCmd),
        },
{
    match message {
        ButtplugCurrentSpecClientMessage::RawWriteCmd {
            endpoint,
            data,
            write_with_response,
            ..
        } => Some(
            DeviceAction::Write(
                DeviceWriteCmd {
                    endpoint: *endpoint,
                    data: copy_bytes(data),
                    write_with_response: *write_with_response,
                },
            ),
        ),
        ButtplugCurrentSpecClientMessage::RawReadCmd {
            endpoint,
            expected_length,
            timeout,
            ..
        } => Some(
            DeviceAction::Read {
                endpoint: *endpoint,
                expected_length: *expected_length,
                timeout: *timeout,
            },
        ),
        ButtplugCurrentSpecClientMessage::RawSubscribeCmd { endpoint, .. } => Some(
            DeviceAction::Subscribe(*endpoint),
        ),
        ButtplugCurrentSpecClientMessage::RawUnsubscribeCmd { endpoint, .. } => Some(
            DeviceAction::Unsubscribe(*endpoint),
        ),
        _ => None,
    }
}

/// The reported state of one category, as a plain sequence.
pub open spec fn reported<V>(state: Option<Vec<V>>) -> Option<Seq<V>> {
    match state {
        Some(values) => Some(values@),
        None => None,
    }
}

/// What the default handlers do with a command.
///
/// A vibration, rotation or linear command is a partial update of its
/// category; the others stay. A stop resets every category. What is
/// handed on is the merged state of each category that changed, values as
/// they are. A command with an index out of range is refused and nothing
/// changes. Raw commands are forwarded as they are and nothing changes.
/// Battery and signal queries are refused as not supported.
pub open spec fn default_handles(
    before: CommandStateManager,
    after: CommandStateManager,
    message: ButtplugCurrentSpecClientMessage,
    r: Result<DeviceAction, ButtplugClientError>,
) -> bool {
    match message {
        ButtplugCurrentSpecClientMessage::VibrateCmd { speeds, .. } => {
            &&& after.rotation == before.rotation
            &&& after.linear == before.linear
            &&& match r {
                Ok(DeviceAction::Update(change)) => {
                    &&& update_outcome(
                        before.vibration@,
                        after.vibration@,
                        speeds@,
                        true,
                        Ok(change.vibration),
                    )
                    &&& change.rotation is None
                    &&& change.linear is None
                },
                Ok(_) => false,
                Err(e) =>
                    update_outcome(before.vibration@, after.vibration@, speeds@, true, Err(e)),
            }
        },
        ButtplugCurrentSpecClientMessage::RotateCmd { rotations, .. } => {
            &&& after.vibration == before.vibration
            &&& after.linear == before.linear
            &&& match r {
                Ok(DeviceAction::Update(change)) => {
                    &&& update_outcome(
                        before.rotation@,
                        after.rotation@,
                        rotations@,
                        true,
                        Ok(change.rotation),
                    )
                    &&& change.vibration is None
                    &&& change.linear is None
                },
                Ok(_) => false,
                Err(e) => update_outcome(
                    before.rotation@,
                    after.rotation@,
                    rotations@,
                    true,
                    Err(e),
                ),
            }
        },
        ButtplugCurrentSpecClientMessage::LinearCmd { vectors, .. } => {
            &&& after.vibration == before.vibration
            &&& after.rotation == before.rotation
            &&& match r {
                Ok(DeviceAction::Update(change)) => {
                    &&& update_outcome(
                        before.linear@,
                        after.linear@,
                        vectors@,
                        true,
                        Ok(change.linear),
                    )
                    &&& change.vibration is None
                    &&& change.rotation is None
                },
                Ok(_) => false,
                Err(e) => update_outcome(before.linear@, after.linear@, vectors@, true, Err(e)),
            }
        },
        ButtplugCurrentSpecClientMessage::StopDeviceCmd { .. } => {
            &&& after.vibration@ == cache_after(before.vibration@, Seq::empty(), false)
            &&& after.rotation@ == cache_after(before.rotation@, Seq::empty(), false)
            &&& after.linear@ == cache_after(before.linear@, Seq::empty(), false)
            &&& r matches Ok(DeviceAction::Update(change))
            &&& reported(change.vibration) == update_result(before.vibration@, Seq::empty(), false)
            &&& reported(change.rotation) == update_result(before.rotation@, Seq::empty(), false)
            &&& reported(change.linear) == update_result(before.linear@, Seq::empty(), false)
        },
        ButtplugCurrentSpecClientMessage::BatteryLevelCmd { .. }
        | ButtplugCurrentSpecClientMessage::RSSILevelCmd { .. } => {
            &&& after == before
            &&& r == Err::<DeviceAction, ButtplugClientError>(
                ButtplugClientError::MessageNotSupported(message_type_spec(message)),
            )
        },
        _ => {
            &&& after == before
            &&& r matches Ok(action)
            &&& forwards(message, action)
        },
    }
}

/// The default handlers: cached state, and nothing else.
pub struct GenericProtocol {
    /// The cached feature state of the device.
    pub manager: CommandStateManager,
}

impl GenericProtocol {
    /// Handlers for a device with these feature counts, before any
    /// command.
    pub fn new(vibration_count: u32, rotation_count: u32, linear_count: u32) -> (handler: Self)
        ensures
            handler.manager.vibration@ == Seq::new(vibration_count as nat, |i: int| None::<u32>),
            handler.manager.rotation@ == Seq::new(
                rotation_count as nat,
                |i: int| None::<(u32, bool)>,
            ),
            handler.manager.linear@ == Seq::new(linear_count as nat, |i: int| None::<(u32, u32)>),
    {
        GenericProtocol {
            manager: CommandStateManager::new(vibration_count, rotation_count, linear_count),
        }
    }

    /// Handles a stop: every category is reset, and each that showed
    /// anything but rest is reported at rest.
    pub fn handle_stop_device_cmd(&mut self) -> (change: StateChange)
        ensures
            final(self).manager.vibration@ == cache_after(
                old(self).manager.vibration@,
                Seq::empty(),
                false,
            ),
            final(self).manager.rotation@ == cache_after(
                old(self).manager.rotation@,
                Seq::empty(),
                false,
            ),
            final(self).manager.linear@ == cache_after(
                old(self).manager.linear@,
                Seq::empty(),
                false,
            ),
            reported(change.vibration) == update_result(
                old(self).manager.vibration@,
                Seq::empty(),
                false,
            ),
            reported(change.rotation) == update_result(
                old(self).manager.rotation@,
                Seq::empty(),
                false,
            ),
            reported(change.linear) == update_result(
                old(self).manager.linear@,
                Seq::empty(),
                false,
            ),
    {
        let no_speeds: Vec<(u32, u32)> = Vec::new();
        let no_rotations: Vec<(u32, (u32, bool))> = Vec::new();
        let no_vectors: Vec<(u32, (u32, u32))> = Vec::new();
        assert(no_speeds@ =~= Seq::empty());
        assert(no_rotations@ =~= Seq::empty());
        assert(no_vectors@ =~= Seq::empty());
        let vibration = match self.manager.update_vibration(&no_speeds, false) {
            Ok(state) => state,
            Err(_) => {
                assert(false);
                None
            },
        };
        let rotation = match self.manager.update_rotation(&no_rotations, false) {
            Ok(state) => state,
            Err(_) => {
                assert(false);
                None
            },
        };
        let linear = match self.manager.update_linear(&no_vectors, false) {
            Ok(state) => state,
            Err(_) => {
                assert(false);
                None
            },
        };
        StateChange { vibration, rotation, linear }
    }

    /// Routes a command to its default handler.
    pub fn handle_command(&mut self, message: &ButtplugCurrentSpecClientMessage) -> (r: Result<
        DeviceAction,
        ButtplugClientError,
    >)
        ensures
            default_handles(old(self).manager, final(self).manager, *message, r),
    {
        match message {
            ButtplugCurrentSpecClientMessage::VibrateCmd { speeds, .. } => {
                match self.manager.update_vibration(speeds, true) {
                    Ok(vibration) => Ok(
                        DeviceAction::Update(
                            StateChange { vibration, rotation: None, linear: None },
                        ),
                    ),
                    Err(e) => Err(e),
                }
            },
            ButtplugCurrentSpecClientMessage::RotateCmd { rotations, .. } => {
                match self.manager.update_rotation(rotations, true) {
                    Ok(rotation) => Ok(
                        DeviceAction::Update(
                            StateChange { vibration: None, rotation, linear: None },
                        ),
                    ),
                    Err(e) => Err(e),
                }
            },
            ButtplugCurrentSpecClientMessage::LinearCmd { vectors, .. } => {
                match self.manager.update_linear(vectors, true) {
                    Ok(linear) => Ok(
                        DeviceAction::Update(
                            StateChange { vibration: None, rotation: None, linear },
                        ),
                    ),
                    Err(e) => Err(e),
                }
            },
            ButtplugCurrentSpecClientMessage::StopDeviceCmd { .. } => Ok(
                DeviceAction::Update(self.handle_stop_device_cmd()),
            ),
            _ => match forward_raw(message) {
                Some(action) => Ok(action),
                None => Err(ButtplugClientError::MessageNotSupported(message_type(message))),
            },
        }
    }
}

/// The device models that have handlers.
#[derive(Clone, Copy, Debug, PartialEq, Eq, Structural)]
pub enum ProtocolModel {
    /// Any model without a protocol of its own.
    Generic,
    /// The vibrator with two motors and five speed steps.
    JeJoue,
}

/// The handlers of one device, chosen by its model.
pub enum ProtocolDispatcher {
    /// The default handlers.
    Generic(GenericProtocol),
    /// The handlers of the two-motor vibrator.
    JeJoue(JeJoue),
}

impl ProtocolDispatcher {
    /// The model whose handlers these are.
    pub open spec fn model_spec(self) -> ProtocolModel {
        match self {
            ProtocolDispatcher::Generic(_) => ProtocolModel::Generic,
            ProtocolDispatcher::JeJoue(_) => ProtocolModel::JeJoue,
        }
    }

    /// The cached state behind the handlers.
    pub open spec fn manager(self) -> CommandStateManager {
        match self {
            ProtocolDispatcher::Generic(handler) => handler.manager,
            ProtocolDispatcher::JeJoue(handler) => handler.manager,
        }
    }

    /// The handlers for a device of a model. The feature counts are those
    /// that discovery reported; the two-motor vibrator has its own.
    pub fn for_model(
        model: ProtocolModel,
        vibration_count: u32,
        rotation_count: u32,
        linear_count: u32,
    ) -> (dispatcher: Self)
        ensures
            dispatcher.model_spec() == model,
            model == ProtocolModel::Generic ==> {
                &&& dispatcher.manager().vibration@ == Seq::new(
                    vibration_count as nat,
                    |i: int| None::<u32>,
                )
                &&& dispatcher.manager().rotation@ == Seq::new(
                    rotation_count as nat,
                    |i: int| None::<(u32, bool)>,
                )
                &&& dispatcher.manager().linear@ == Seq::new(
                    linear_count as nat,
                    |i: int| None::<(u32, u32)>,
                )
            },
            model == ProtocolModel::JeJoue ==> {
                &&& dispatcher.manager().vibration@ == Seq::new(2, |i: int| None::<u32>)
                &&& dispatcher.manager().rotation@ == Seq::<Option<(u32, bool)>>::empty()
                &&& dispatcher.manager().linear@ == Seq::<Option<(u32, u32)>>::empty()
            },
    {
        match model {
            ProtocolModel::Generic => ProtocolDispatcher::Generic(
                GenericProtocol::new(vibration_count, rotation_count, linear_count),
            ),
            ProtocolModel::JeJoue => ProtocolDispatcher::JeJoue(JeJoue::new()),
        }
    }

    /// The model whose handlers these are.
    pub fn model(&self) -> (model: ProtocolModel)
        ensures
            model == self.model_spec(),
    {
        match self {
            ProtocolDispatcher::Generic(_) => ProtocolModel::Generic,
            ProtocolDispatcher::JeJoue(_) => ProtocolModel::JeJoue,
        }
    }

    /// Routes a command to the handler of the device's model. The model
    /// never changes.
    pub fn handle_command(&mut self, message: &ButtplugCurrentSpecClientMessage) -> (r: Result<
        DeviceAction,
        ButtplugClientError,
    >)
        ensures
            final(self).model_spec() == old(self).model_spec(),
            match old(self).model_spec() {
                ProtocolModel::Generic => default_handles(
                    old(self).manager(),
                    final(self).manager(),
                    *message,
                    r,
                ),
                ProtocolModel::JeJoue => jejoue_handles(
                    old(self).manager(),
                    final(self).manager(),
                    *message,
                    r,
                ),
            },
    {
        match self {
            ProtocolDispatcher::Generic(handler) => handler.handle_command(message),
            ProtocolDispatcher::JeJoue(handler) => handler.handle_command(message),
        }
    }
}

} // verus!
