//! The handle of one device: what it is, what it accepts, and the
//! commands that can be formed for it and sent.

use vstd::prelude::*;
use tokio::sync::broadcast::Sender;
use crate::command::{LinearCommand, RotateCommand, VibrateCommand};
use crate::correlator::{ExpectedAnswer, RequestResponseCorrelator};
use crate::error::ButtplugClientError;
use crate::event::{broadcast_send, ButtplugClientDeviceEvent, EventBroadcaster, EventSubscription};
use crate::gate::{admission, ConnectionStateGate};
use crate::message::{
    convert_to_client_device_map,
    ButtplugCurrentSpecClientMessage,
    ButtplugCurrentSpecDeviceMessageType,
    ClientDeviceMessageAttributesMap,
    DeviceMessageAttributes,
    DeviceMessageAttributesMap,
    Endpoint,
};

verus! {

/// A command on its way to the session, under the identifier that its
/// answer will bear.
#[derive(Clone, Debug, PartialEq, Eq)]
pub struct ButtplugClientRequest {
    /// The correlation identifier.
    pub id: u32,
    /// The command.
    pub message: ButtplugCurrentSpecClientMessage,
}

/// What the session learns of a device when it is found.
pub struct DeviceMessageInfo {
    /// The index of the device, unique within the session.
    pub device_index: u32,
    /// The name of the device.
    pub device_name: String,
    /// What the device announces that it accepts.
    pub device_messages: DeviceMessageAttributesMap,
}

/// The feature count that a capability map gives for a category: zero
/// where the category is missing or states no count.
pub open spec fn feature_count_of(
    allowed: Map<ButtplugCurrentSpecDeviceMessageType, DeviceMessageAttributes>,
    message_type: ButtplugCurrentSpecDeviceMessageType,
) -> u32 {
    if allowed.contains_key(message_type) {
        match allowed[message_type].feature_count {
            Some(count) => count,
            None => 0,
        }
    } else {
        0
    }
}

/// What forming a command without features returns: the command where the
/// device accepts its category, else the refusal of that category.
pub open spec fn plain_command(
    allowed: Map<ButtplugCurrentSpecDeviceMessageType, DeviceMessageAttributes>,
    message_type: ButtplugCurrentSpecDeviceMessageType,
    message: ButtplugCurrentSpecClientMessage,
    r: Result<ButtplugCurrentSpecClientMessage, ButtplugClientError>,
) -> bool {
    if allowed.contains_key(message_type) {
        r == Ok::<ButtplugCurrentSpecClientMessage, ButtplugClientError>(message)
    } else {
        r == Err::<ButtplugCurrentSpecClientMessage, ButtplugClientError>(
            ButtplugClientError::MessageNotSupported(message_type),
        )
    }
}

/// The handle of one device of a session.
pub struct ButtplugClientDevice {
    /// The name of the device.
    pub name: String,
    index: u32,
    /// The command categories the device accepts, with their attributes.
    pub allowed_messages: ClientDeviceMessageAttributesMap,
    event_loop_sender: Sender<ButtplugClientRequest>,
    internal_event_sender: EventBroadcaster,
    gate: ConnectionStateGate,
}

impl ButtplugClientDevice {
    /// The index of the device.
    pub closed spec fn spec_index(&self) -> u32 {
        self.index
    }

    /// The name of the device.
    pub closed spec fn spec_name(&self) -> Seq<char> {
        self.name@
    }

    /// The command categories the device accepts, with their attributes.
    pub closed spec fn spec_allowed(&self) -> Map<
        ButtplugCurrentSpecDeviceMessageType,
        DeviceMessageAttributes,
    > {
        self.allowed_messages@
    }

    /// A handle for a connected device. Commands sent through it go to
    /// the session over `message_sender`.
    pub fn new(
        name: &str,
        index: u32,
        allowed_messages: ClientDeviceMessageAttributesMap,
        message_sender: Sender<ButtplugClientRequest>,
    ) -> (device: Self)
        ensures
            device.spec_name() == name@,
            device.spec_index() == index,
            device.spec_allowed() == allowed_messages@,
    {
        ButtplugClientDevice {
            name: name.to_owned(),
            index,
            allowed_messages,
            event_loop_sender: message_sender,
            internal_event_sender: EventBroadcaster::new(),
            gate: ConnectionStateGate::new(),
        }
    }

    /// A handle for a device as the session found it, with what it
    /// announces cut down to the current vocabulary.
    pub fn new_from_device_info(
        info: &DeviceMessageInfo,
        sender: Sender<ButtplugClientRequest>,
    ) -> (device: Self)
        ensures
            device.spec_name() == info.device_name@,
            device.spec_index() == info.device_index,
            device.spec_allowed() == crate::message::client_device_map(info.device_messages@),
    {
        ButtplugClientDevice::new(
            info.device_name.as_str(),
            info.device_index,
            convert_to_client_device_map(&info.device_messages),
            sender,
        )
    }

    /// Whether the device is connected, as of now.
    pub fn connected(&self) -> (b: bool) {
        self.gate.connected()
    }

    /// The index of the device.
    pub fn index(&self) -> (index: u32)
        ensures
            index == self.spec_index(),
    {
        self.index
    }

    /// Records that the device has come or gone.
    pub fn set_device_connected(&self, connected: bool) {
        self.gate.set_device_connected(connected);
    }

    /// Records that the session has come or gone.
    pub fn set_client_connected(&self, connected: bool) {
        self.gate.set_client_connected(connected);
    }

    /// Tells the listeners of an event, if there are any; an event that
    /// nobody could be told of is handed back.
    pub fn queue_event(&self, event: ButtplugClientDeviceEvent) -> (dropped: Option<
        ButtplugClientDeviceEvent,
    >)
        ensures
            dropped matches Some(e) ==> e == event,
    {
        self.queue_event_counted(self.internal_event_sender.receiver_count(), event)
    }

    /// Tells the listeners of an event, for the number of listeners
    /// counted. With none counted nothing is sent and the event is handed
    /// back as dropped; with some counted it is handed back only where the
    /// last of them has left meanwhile.
    pub fn queue_event_counted(
        &self,
        receiver_count: usize,
        event: ButtplugClientDeviceEvent,
    ) -> (dropped: Option<ButtplugClientDeviceEvent>)
        ensures
            receiver_count == 0 ==> dropped == Some(event),
            dropped matches Some(e) ==> e == event,
    {
        self.internal_event_sender.publish_counted(receiver_count, event)
    }

    /// A new listener for the events of this device.
    pub fn event_stream(&self) -> (subscription: EventSubscription) {
        self.internal_event_sender.subscribe()
    }

    /// Refuses a command category that the device does not accept.
    pub fn check_message_support(&self, message_type: ButtplugCurrentSpecDeviceMessageType) -> (r:
        Result<(), ButtplugClientError>)
        ensures
            r == (if self.spec_allowed().contains_key(message_type) {
                Ok::<(), ButtplugClientError>(())
            } else {
                Err::<(), ButtplugClientError>(
                    ButtplugClientError::MessageNotSupported(message_type),
                )
            }),
    {
        if self.allowed_messages.contains_key(message_type) {
            Ok(())
        } else {
            Err(ButtplugClientError::MessageNotSupported(message_type))
        }
    }

    /// How many features of a category the device has.
    pub fn feature_count(&self, message_type: ButtplugCurrentSpecDeviceMessageType) -> (count: u32)
        ensures
            count == feature_count_of(self.spec_allowed(), message_type),
    {
        match self.allowed_messages.get(message_type) {
            Some(attributes) => match attributes.feature_count {
                Some(count) => count,
                None => 0,
            },
            None => 0,
        }
    }

    /// Forms the command that sets vibration speeds.
    ///
    /// A device that does not vibrate refuses it. Otherwise the command
    /// carries this device's index and the canonical expansion of
    /// `speed_cmd` over the device's vibration features, or the expansion
    /// fails and its error is returned.
    pub fn vibrate(&self, speed_cmd: &VibrateCommand) -> (r: Result<
        ButtplugCurrentSpecClientMessage,
        ButtplugClientError,
    >)
        ensures
            !self.spec_allowed().contains_key(ButtplugCurrentSpecDeviceMessageType::VibrateCmd)
                ==> r == Err::<ButtplugCurrentSpecClientMessage, ButtplugClientError>(
                ButtplugClientError::MessageNotSupported(
                    ButtplugCurrentSpecDeviceMessageType::VibrateCmd,
                ),
            ),
            self.spec_allowed().contains_key(ButtplugCurrentSpecDeviceMessageType::VibrateCmd)
                ==> match r {
                Ok(ButtplugCurrentSpecClientMessage::VibrateCmd { device_index, speeds }) => {
                    &&& device_index == self.spec_index()
                    &&& speed_cmd.expands_to(
                        feature_count_of(
                            self.spec_allowed(),
                            ButtplugCurrentSpecDeviceMessageType::VibrateCmd,
                        ),
                        Ok(speeds),
                    )
                },
                Ok(_) => false,
                Err(e) => speed_cmd.expands_to(
                    feature_count_of(
                        self.spec_allowed(),
                        ButtplugCurrentSpecDeviceMessageType::VibrateCmd,
                    ),
                    Err(e),
                ),
            },
    {
        match self.check_message_support(ButtplugCurrentSpecDeviceMessageType::VibrateCmd) {
            Err(e) => Err(e),
            Ok(()) => {
                let count = self.feature_count(ButtplugCurrentSpecDeviceMessageType::VibrateCmd);
                match speed_cmd.expand(count) {
                    Ok(speeds) => Ok(
                        ButtplugCurrentSpecClientMessage::VibrateCmd {
                            device_index: self.index,
                            speeds,
                        },
                    ),
                    Err(e) => Err(e),
                }
            },
        }
    }

    /// Forms the command that moves linear features.
    ///
    /// A device without linear features refuses it. Otherwise the command
    /// carries this device's index and the canonical expansion of
    /// `linear_cmd` over the device's linear features, or the expansion
    /// fails and its error is returned.
    pub fn linear(&self, linear_cmd: &LinearCommand) -> (r: Result<
        ButtplugCurrentSpecClientMessage,
        ButtplugClientError,
    >)
        ensures
            !self.spec_allowed().contains_key(ButtplugCurrentSpecDeviceMessageType::LinearCmd)
                ==> r == Err::<ButtplugCurrentSpecClientMessage, ButtplugClientError>(
                ButtplugClientError::MessageNotSupported(
                    ButtplugCurrentSpecDeviceMessageType::LinearCmd,
                ),
            ),
            self.spec_allowed().contains_key(ButtplugCurrentSpecDeviceMessageType::LinearCmd)
                ==> match r {
                Ok(ButtplugCurrentSpecClientMessage::LinearCmd { device_index, vectors }) => {
                    &&& device_index == self.spec_index()
                    &&& linear_cmd.expands_to(
                        feature_count_of(
                            self.spec_allowed(),
                            ButtplugCurrentSpecDeviceMessageType::LinearCmd,
                        ),
                        Ok(vectors),
                    )
                },
                Ok(_) => false,
                Err(e) => linear_cmd.expands_to(
                    feature_count_of(
                        self.spec_allowed(),
                        ButtplugCurrentSpecDeviceMessageType::LinearCmd,
                    ),
                    Err(e),
                ),
            },
    {
        match self.check_message_support(ButtplugCurrentSpecDeviceMessageType::LinearCmd) {
            Err(e) => Err(e),
            Ok(()) => {
                let count = self.feature_count(ButtplugCurrentSpecDeviceMessageType::LinearCmd);
                match linear_cmd.expand(count) {
                    Ok(vectors) => Ok(
                        ButtplugCurrentSpecClientMessage::LinearCmd {
                            device_index: self.index,
                            vectors,
                        },
                    ),
                    Err(e) => Err(e),
                }
            },
        }
    }

    /// Forms the command that turns rotation features.
    ///
    /// A device that does not rotate refuses it. Otherwise the command
    /// carries this device's index and the canonical expansion of
    /// `rotate_cmd` over the device's rotation features, or the expansion
    /// fails and its error is returned.
    pub fn rotate(&self, rotate_cmd: &RotateCommand) -> (r: Result<
        ButtplugCurrentSpecClientMessage,
        ButtplugClientError,
    >)
        ensures
            !self.spec_allowed().contains_key(ButtplugCurrentSpecDeviceMessageType::RotateCmd)
                ==> r == Err::<ButtplugCurrentSpecClientMessage, ButtplugClientError>(
                ButtplugClientError::MessageNotSupported(
                    ButtplugCurrentSpecDeviceMessageType::RotateCmd,
                ),
            ),
            self.spec_allowed().contains_key(ButtplugCurrentSpecDeviceMessageType::RotateCmd)
                ==> match r {
                Ok(ButtplugCurrentSpecClientMessage::RotateCmd { device_index, rotations }) => {
                    &&& device_index == self.spec_index()
                    &&& rotate_cmd.expands_to(
                        feature_count_of(
                            self.spec_allowed(),
                            ButtplugCurrentSpecDeviceMessageType::RotateCmd,
                        ),
                        Ok(rotations),
                    )
                },
                Ok(_) => false,
                Err(e) => rotate_cmd.expands_to(
                    feature_count_of(
                        self.spec_allowed(),
                        ButtplugCurrentSpecDeviceMessageType::RotateCmd,
                    ),
                    Err(e),
                ),
            },
    {
        match self.check_message_support(ButtplugCurrentSpecDeviceMessageType::RotateCmd) {
            Err(e) => Err(e),
            Ok(()) => {
                let count = self.feature_count(ButtplugCurrentSpecDeviceMessageType::RotateCmd);
                match rotate_cmd.expand(count) {
                    Ok(rotations) => Ok(
                        ButtplugCurrentSpecClientMessage::RotateCmd {
                            device_index: self.index,
                            rotations,
                        },
                    ),
                    Err(e) => Err(e),
                }
            },
        }
    }

    /// Forms the command that asks for the battery level.
    pub fn battery_level(&self) -> (r: Result<ButtplugCurrentSpecClientMessage, ButtplugClientError>)
        ensures
            plain_command(
                self.spec_allowed(),
                ButtplugCurrentSpecDeviceMessageType::BatteryLevelCmd,
                ButtplugCurrentSpecClientMessage::BatteryLevelCmd { device_index: self.spec_index() },
                r,
            ),
    {
        match self.check_message_support(ButtplugCurrentSpecDeviceMessageType::BatteryLevelCmd) {
            Err(e) => Err(e),
            Ok(()) =>
                Ok(ButtplugCurrentSpecClientMessage::BatteryLevelCmd { device_index: self.index }),
        }
    }

    /// Forms the command that asks for the signal strength.
    pub fn rssi_level(&self) -> (r: Result<ButtplugCurrentSpecClientMessage, ButtplugClientError>)
        ensures
            plain_command(
                self.spec_allowed(),
                ButtplugCurrentSpecDeviceMessageType::RSSILevelCmd,
                ButtplugCurrentSpecClientMessage::RSSILevelCmd { device_index: self.spec_index() },
                r,
            ),
    {
        match self.check_message_support(ButtplugCurrentSpecDeviceMessageType::RSSILevelCmd) {
            Err(e) => Err(e),
            Ok(()) =>
                Ok(ButtplugCurrentSpecClientMessage::RSSILevelCmd { device_index: self.index }),
        }
    }

    /// Forms the command that writes bytes to an endpoint.
    pub fn raw_write(&self, endpoint: Endpoint, data: Vec<u8>, write_with_response: bool) -> (r:
        Result<ButtplugCurrentSpecClientMessage, ButtplugClientError>)
        ensures
            plain_command(
                self.spec_allowed(),
                ButtplugCurrentSpecDeviceMessageType::RawWriteCmd,
                ButtplugCurrentSpecClientMessage::RawWriteCmd {
                    device_index: self.spec_index(),
                    endpoint,
                    data,
                    write_with_response,
                },
                r,
            ),
    {
        match self.check_message_support(ButtplugCurrentSpecDeviceMessageType::RawWriteCmd) {
            Err(e) => Err(e),
            Ok(()) => Ok(
                ButtplugCurrentSpecClientMessage::RawWriteCmd {
                    device_index: self.index,
                    endpoint,
                    data,
                    write_with_response,
                },
            ),
        }
    }

    /// Forms the command that reads bytes from an endpoint.
    pub fn raw_read(&self, endpoint: Endpoint, expected_length: u32, timeout: u32) -> (r: Result<
        ButtplugCurrentSpecClientMessage,
        ButtplugClientError,
    >)
        ensures
            plain_command(
                self.spec_allowed(),
                ButtplugCurrentSpecDeviceMessageType::RawReadCmd,
                ButtplugCurrentSpecClientMessage::RawReadCmd {
                    device_index: self.spec_index(),
                    endpoint,
                    expected_length,
                    timeout,
                },
                r,
            ),
    {
        match self.check_message_support(ButtplugCurrentSpecDeviceMessageType::RawReadCmd) {
            Err(e) => Err(e),
            Ok(()) => Ok(
                ButtplugCurrentSpecClientMessage::RawReadCmd {
                    device_index: self.index,
                    endpoint,
                    expected_length,
                    timeout,
                },
            ),
        }
    }

    /// Forms the command that has an endpoint report what it receives.
    pub fn raw_subscribe(&self, endpoint: Endpoint) -> (r: Result<
        ButtplugCurrentSpecClientMessage,
        ButtplugClientError,
    >)
        ensures
            plain_command(
                self.spec_allowed(),
                ButtplugCurrentSpecDeviceMessageType::RawSubscribeCmd,
                ButtplugCurrentSpecClientMessage::RawSubscribeCmd {
                    device_index: self.spec_index(),
                    endpoint,
                },
                r,
            ),
    {
        match self.check_message_support(ButtplugCurrentSpecDeviceMessageType::RawSubscribeCmd) {
            Err(e) => Err(e),
            Ok(()) => Ok(
                ButtplugCurrentSpecClientMessage::RawSubscribeCmd { device_index: self.index, endpoint },
            ),
        }
    }

    /// Forms the command that ends the reports of an endpoint.
    pub fn raw_unsubscribe(&self, endpoint: Endpoint) -> (r: Result<
        ButtplugCurrentSpecClientMessage,
        ButtplugClientError,
    >)
        ensures
            plain_command(
                self.spec_allowed(),
                ButtplugCurrentSpecDeviceMessageType::RawUnsubscribeCmd,
                ButtplugCurrentSpecClientMessage::RawUnsubscribeCmd {
                    device_index: self.spec_index(),
                    endpoint,
                },
                r,
            ),
    {
        match self.check_message_support(ButtplugCurrentSpecDeviceMessageType::RawUnsubscribeCmd) {
            Err(e) => Err(e),
            Ok(()) => Ok(
                ButtplugCurrentSpecClientMessage::RawUnsubscribeCmd {
                    device_index: self.index,
                    endpoint,
                },
            ),
        }
    }

    /// Forms the command that stops everything the device does.
    pub fn stop(&self) -> (r: Result<ButtplugCurrentSpecClientMessage, ButtplugClientError>)
        ensures
            plain_command(
                self.spec_allowed(),
                ButtplugCurrentSpecDeviceMessageType::StopDeviceCmd,
                ButtplugCurrentSpecClientMessage::StopDeviceCmd { device_index: self.spec_index() },
                r,
            ),
    {
        match self.check_message_support(ButtplugCurrentSpecDeviceMessageType::StopDeviceCmd) {
            Err(e) => Err(e),
            Ok(()) =>
                Ok(ButtplugCurrentSpecClientMessage::StopDeviceCmd { device_index: self.index }),
        }
    }

    /// The shape of answer that a command waits for: a reading for the
    /// three commands that ask for one, an acknowledgement for the rest.
    pub fn expected_answer(message: &ButtplugCurrentSpecClientMessage) -> (expected: ExpectedAnswer)
        ensures
            expected == (match *message {
                ButtplugCurrentSpecClientMessage::BatteryLevelCmd { .. } =>
                    ExpectedAnswer::BatteryLevel,
                ButtplugCurrentSpecClientMessage::RSSILevelCmd { .. } => ExpectedAnswer::RssiLevel,
                ButtplugCurrentSpecClientMessage::RawReadCmd { .. } => ExpectedAnswer::RawData,
                _ => ExpectedAnswer::Okay,
            }),
    {
        match message {
            ButtplugCurrentSpecClientMessage::BatteryLevelCmd { .. } =>
                ExpectedAnswer::BatteryLevel,
            ButtplugCurrentSpecClientMessage::RSSILevelCmd { .. } => ExpectedAnswer::RssiLevel,
            ButtplugCurrentSpecClientMessage::RawReadCmd { .. } => ExpectedAnswer::RawData,
            _ => ExpectedAnswer::Okay,
        }
    }

    /// Reads both connection flags once and admits or rejects a command
    /// for this device, without sending anything. Whatever the flags held,
    /// a rejection is one of the two admission errors, and names this
    /// device.
    pub fn check_connection(&self) -> (r: Result<(), ButtplugClientError>)
        ensures
            match r {
                Ok(()) => true,
                Err(ButtplugClientError::ConnectorNotConnected) => true,
                Err(ButtplugClientError::DeviceNotConnected(name)) => name@ == self.spec_name(),
                Err(_) => false,
            },
    {
        self.gate.check(&self.name)
    }

    /// Does everything that precedes the hand-off of a command, for the
    /// flag values read: admission, and for an admitted command the fresh
    /// identifier, its entry in the table, and the request that goes to
    /// the session.
    ///
    /// The request carries that identifier and the caller's command as it
    /// came. A rejected command makes no request, spends no identifier and
    /// leaves the table as it was; with the session connected and the
    /// device not, the rejection names this device.
    pub fn prepare_request(
        &self,
        correlator: &mut RequestResponseCorrelator,
        client_connected: bool,
        device_connected: bool,
        message: ButtplugCurrentSpecClientMessage,
        expected: ExpectedAnswer,
    ) -> (r: Result<ButtplugClientRequest, ButtplugClientError>)
        requires
            old(correlator).wf(),
            client_connected && device_connected ==> old(correlator).next_id() < u32::MAX,
        ensures
            final(correlator).wf(),
            client_connected && device_connected ==> r is Ok,
            !client_connected ==> r == Err::<ButtplugClientRequest, ButtplugClientError>(
                ButtplugClientError::ConnectorNotConnected,
            ),
            client_connected && !device_connected ==> (r matches Err(
                ButtplugClientError::DeviceNotConnected(name),
            ) && name@ == self.spec_name()),
            match r {
                Ok(request) => {
                    &&& client_connected && device_connected
                    &&& request.id == old(correlator).next_id()
                    &&& request.message == message
                    &&& !old(correlator).pending().contains_key(request.id)
                    &&& final(correlator).next_id() == request.id + 1
                    &&& final(correlator).pending() == old(correlator).pending().insert(
                        request.id,
                        expected,
                    )
                },
                Err(e) => {
                    &&& admission(client_connected, device_connected, self.spec_name(), Err(e))
                    &&& final(correlator).next_id() == old(correlator).next_id()
                    &&& final(correlator).pending() == old(correlator).pending()
                },
            },
    {
        match correlator.send(client_connected, device_connected, &self.name, expected) {
            Err(e) => Err(e),
            Ok(id) => Ok(ButtplugClientRequest { id, message }),
        }
    }

    /// Sends a command to the session and enters it in the table of
    /// commands that await an answer.
    ///
    /// The two connection flags are read now. A command that admission
    /// rejects spends no identifier and leaves the table as it was. An
    /// admitted command gets the next identifier and an entry, and is
    /// handed to the session; where the session no longer takes commands,
    /// the entry is removed again and the command fails with a closed
    /// channel. Whatever the flags and the session do, the result is one
    /// of these four.
    pub fn send_message(
        &self,
        correlator: &mut RequestResponseCorrelator,
        message: ButtplugCurrentSpecClientMessage,
        expected: ExpectedAnswer,
    ) -> (r: Result<u32, ButtplugClientError>)
        requires
            old(correlator).wf(),
            old(correlator).next_id() < u32::MAX,
        ensures
            final(correlator).wf(),
            match r {
                Ok(id) => {
                    &&& id == old(correlator).next_id()
                    &&& !old(correlator).pending().contains_key(id)
                    &&& final(correlator).next_id() == id + 1
                    &&& final(correlator).pending() == old(correlator).pending().insert(id, expected)
                },
                Err(ButtplugClientError::ConnectorNotConnected) => {
                    &&& final(correlator).next_id() == old(correlator).next_id()
                    &&& final(correlator).pending() == old(correlator).pending()
                },
                Err(ButtplugClientError::DeviceNotConnected(name)) => {
                    &&& name@ == self.spec_name()
                    &&& final(correlator).next_id() == old(correlator).next_id()
                    &&& final(correlator).pending() == old(correlator).pending()
                },
                Err(ButtplugClientError::ConnectorChannelClosed) => {
                    &&& final(correlator).next_id() == old(correlator).next_id() + 1
                    &&& final(correlator).pending() == old(correlator).pending()
                },
                Err(_) => false,
            },
    {
        let client_connected = self.gate.client_connected();
        let device_connected = self.gate.connected();
        match self.prepare_request(
            correlator,
            client_connected,
            device_connected,
            message,
            expected,
        ) {
            Err(e) => Err(e),
            Ok(request) => {
                let id = request.id;
                let accepted = broadcast_send(&self.event_loop_sender, request).is_ok();
                let r = correlator.settle_handoff(id, accepted);
                assert(old(correlator).pending().insert(id, expected).remove(id) =~= old(
                    correlator,
                ).pending());
                r
            },
        }
    }

    /// Sends a command that waits for a plain acknowledgement.
    pub fn send_message_expect_ok(
        &self,
        correlator: &mut RequestResponseCorrelator,
        message: ButtplugCurrentSpecClientMessage,
    ) -> (r: Result<u32, ButtplugClientError>)
        requires
            old(correlator).wf(),
            old(correlator).next_id() < u32::MAX,
        ensures
            final(correlator).wf(),
            match r {
                Ok(id) => {
                    &&& id == old(correlator).next_id()
                    &&& !old(correlator).pending().contains_key(id)
                    &&& final(correlator).next_id() == id + 1
                    &&& final(correlator).pending() == old(correlator).pending().insert(
                        id,
                        ExpectedAnswer::Okay,
                    )
                },
                Err(ButtplugClientError::ConnectorNotConnected) => {
                    &&& final(correlator).next_id() == old(correlator).next_id()
                    &&& final(correlator).pending() == old(correlator).pending()
                },
                Err(ButtplugClientError::DeviceNotConnected(name)) => {
                    &&& name@ == self.spec_name()
                    &&& final(correlator).next_id() == old(correlator).next_id()
                    &&& final(correlator).pending() == old(correlator).pending()
                },
                Err(ButtplugClientError::ConnectorChannelClosed) => {
                    &&& final(correlator).next_id() == old(correlator).next_id() + 1
                    &&& final(correlator).pending() == old(correlator).pending()
                },
                Err(_) => false,
            },
    {
        self.send_message(correlator, message, ExpectedAnswer::Okay)
    }
}

/// Two handles are equal where they have the same index: within a session
/// the index names the device.
impl PartialEq for ButtplugClientDevice {
    fn eq(&self, other: &Self) -> (b: bool) {
        self.index == other.index
    }
}

impl Eq for ButtplugClientDevice {

}

impl vstd::std_specs::cmp::PartialEqSpecImpl for ButtplugClientDevice {
    open spec fn obeys_eq_spec() -> bool {
        true
    }

    open spec fn eq_spec(&self, other: &Self) -> bool {
        self.spec_index() == other.spec_index()
    }
}

} // verus!
