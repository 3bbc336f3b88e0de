//! Request/response correlation: which commands await an answer, under
//! which identifier, and what each answer resolves to.

use vstd::prelude::*;
use std::collections::HashMap;
use crate::error::{ButtplugClientError, ButtplugErrorKind};
use crate::gate::{admission, admit_command};
use crate::message::ButtplugCurrentSpecServerMessage;

verus! {

/// The shape of answer that a command waits for.
#[derive(Clone, Copy, Debug, PartialEq, Eq, Structural)]
pub enum ExpectedAnswer {
    /// A plain acknowledgement.
    Okay,
    /// A battery level reading.
    BatteryLevel,
    /// A signal strength reading.
    RssiLevel,
    /// Bytes read from an endpoint.
    RawData,
    /// Whatever comes, but for a reported failure.
    Any,
}

/// What a command resolves to on success.
#[derive(Debug, PartialEq, Eq)]
pub enum Answer {
    /// The command was carried out.
    Okay,
    /// The battery level, as the bits of a double-precision number.
    BatteryLevel(u64),
    /// The signal strength.
    RssiLevel(i32),
    /// The bytes read.
    RawData(Vec<u8>),
    /// The message as it came.
    Message(ButtplugCurrentSpecServerMessage),
}

/// The kind of failure that a remote error code stands for. Codes that
/// the vocabulary does not know count as unknown failures.
pub open spec fn error_kind_spec(error_code: u8) -> ButtplugErrorKind {
    if error_code == 1 {
        ButtplugErrorKind::Handshake
    } else if error_code == 2 {
        ButtplugErrorKind::Ping
    } else if error_code == 3 {
        ButtplugErrorKind::Message
    } else if error_code == 4 {
        ButtplugErrorKind::Device
    } else {
        ButtplugErrorKind::Unknown
    }
}

/// The kind of failure that a remote error code stands for.
pub fn error_kind(error_code: u8) -> (kind: ButtplugErrorKind)
    ensures
        kind == error_kind_spec(error_code),
{
    if error_code == 1 {
        ButtplugErrorKind::Handshake
    } else if error_code == 2 {
        ButtplugErrorKind::Ping
    } else if error_code == 3 {
        ButtplugErrorKind::Message
    } else if error_code == 4 {
        ButtplugErrorKind::Device
    } else {
        ButtplugErrorKind::Unknown
    }
}

/// The name of the shape of a message.
pub open spec fn shape_name_spec(message: ButtplugCurrentSpecServerMessage) -> Seq<char> {
    match message {
        ButtplugCurrentSpecServerMessage::Okay => "Ok"@,
        ButtplugCurrentSpecServerMessage::Error { .. } => "Error"@,
        ButtplugCurrentSpecServerMessage::ScanningFinished => "ScanningFinished"@,
        ButtplugCurrentSpecServerMessage::DeviceRemoved { .. } => "DeviceRemoved"@,
        ButtplugCurrentSpecServerMessage::RawReading { .. } => "RawReading"@,
        ButtplugCurrentSpecServerMessage::BatteryLevelReading { .. } => "BatteryLevelReading"@,
        ButtplugCurrentSpecServerMessage::RSSILevelReading { .. } => "RSSILevelReading"@,
    }
}

/// The name of the shape of a message.
pub fn shape_name(message: &ButtplugCurrentSpecServerMessage) -> (name: String)
    ensures
        name@ == shape_name_spec(*message),
{
    match message {
        ButtplugCurrentSpecServerMessage::Okay => "Ok".to_owned(),
        ButtplugCurrentSpecServerMessage::Error { .. } => "Error".to_owned(),
        ButtplugCurrentSpecServerMessage::ScanningFinished => "ScanningFinished".to_owned(),
        ButtplugCurrentSpecServerMessage::DeviceRemoved { .. } => "DeviceRemoved".to_owned(),
        ButtplugCurrentSpecServerMessage::RawReading { .. } => "RawReading".to_owned(),
        ButtplugCurrentSpecServerMessage::BatteryLevelReading { .. } =>
            "BatteryLevelReading".to_owned(),
        ButtplugCurrentSpecServerMessage::RSSILevelReading { .. } => "RSSILevelReading".to_owned(),
    }
}

/// What a message resolves a command to, given the shape it waits for.
///
/// A reported failure resolves to a domain error of the kind its code
/// stands for, with the remote side's words. A message of the expected
/// shape resolves to its payload. Any other message resolves to an error
/// that names the shape that came.
pub open spec fn resolves_to(
    expected: ExpectedAnswer,
    message: ButtplugCurrentSpecServerMessage,
    r: Result<Answer, ButtplugClientError>,
) -> bool {
    match (expected, message) {
        (_, ButtplugCurrentSpecServerMessage::Error { error_code, error_message }) => r
            == Err::<Answer, ButtplugClientError>(
            ButtplugClientError::DomainError(error_kind_spec(error_code), error_message),
        ),
        (ExpectedAnswer::Any, m) => r == Ok::<Answer, ButtplugClientError>(Answer::Message(m)),
        (ExpectedAnswer::Okay, ButtplugCurrentSpecServerMessage::Okay) => r == Ok::<
            Answer,
            ButtplugClientError,
        >(Answer::Okay),
        (
            ExpectedAnswer::BatteryLevel,
            ButtplugCurrentSpecServerMessage::BatteryLevelReading { battery_level_bits, .. },
        ) => r == Ok::<Answer, ButtplugClientError>(Answer::BatteryLevel(battery_level_bits)),
        (
            ExpectedAnswer::RssiLevel,
            ButtplugCurrentSpecServerMessage::RSSILevelReading { rssi_level, .. },
        ) => r == Ok::<Answer, ButtplugClientError>(Answer::RssiLevel(rssi_level)),
        (ExpectedAnswer::RawData, ButtplugCurrentSpecServerMessage::RawReading { data, .. }) => r
            == Ok::<Answer, ButtplugClientError>(Answer::RawData(data)),
        (_, m) => r matches Err(ButtplugClientError::UnexpectedMessageType(description))
            && description@ == shape_name_spec(m),
    }
}

/// Resolves a command with the message that answers it.
pub fn interpret(expected: ExpectedAnswer, message: ButtplugCurrentSpecServerMessage) -> (r: Result<
    Answer,
    ButtplugClientError,
>)
    ensures
        resolves_to(expected, message, r),
{
    match (expected, message) {
        (_, ButtplugCurrentSpecServerMessage::Error { error_code, error_message }) => Err(
            ButtplugClientError::DomainError(error_kind(error_code), error_message),
        ),
        (ExpectedAnswer::Any, m) => Ok(Answer::Message(m)),
        (ExpectedAnswer::Okay, ButtplugCurrentSpecServerMessage::Okay) => Ok(Answer::Okay),
        (
            ExpectedAnswer::BatteryLevel,
            ButtplugCurrentSpecServerMessage::BatteryLevelReading { battery_level_bits, .. },
        ) => Ok(Answer::BatteryLevel(battery_level_bits)),
        (
            ExpectedAnswer::RssiLevel,
            ButtplugCurrentSpecServerMessage::RSSILevelReading { rssi_level, .. },
        ) => Ok(Answer::RssiLevel(rssi_level)),
        (ExpectedAnswer::RawData, ButtplugCurrentSpecServerMessage::RawReading { data, .. }) => Ok(
            Answer::RawData(data),
        ),
        (_, m) => {
            let description = shape_name(&m);
            Err(ButtplugClientError::UnexpectedMessageType(description))
        },
    }
}

/// The table of commands that await an answer. Identifiers are handed out
/// in call order, starting at one, and none is handed out twice.
pub struct RequestResponseCorrelator {
    next_id: u32,
    pending: HashMap<u32, ExpectedAnswer>,
}

impl RequestResponseCorrelator {
    /// The commands that await an answer: identifier to expected shape.
    pub closed spec fn pending(&self) -> Map<u32, ExpectedAnswer> {
        self.pending@
    }

    /// The identifier that the next command will get.
    pub closed spec fn next_id(&self) -> u32 {
        self.next_id
    }

    /// Every pending identifier has been handed out, and zero never is.
    pub open spec fn wf(&self) -> bool {
        &&& self.next_id() >= 1
        &&& forall|id: u32| self.pending().contains_key(id) ==> 1 <= id < self.next_id()
    }

    /// A table with nothing pending.
    pub fn new() -> (table: Self)
        ensures
            table.wf(),
            table.next_id() == 1,
            table.pending() == Map::<u32, ExpectedAnswer>::empty(),
    {
        RequestResponseCorrelator { next_id: 1, pending: HashMap::new() }
    }

    /// Whether an identifier is left for another command.
    pub fn has_identifier_left(&self) -> (b: bool)
        ensures
            b == (self.next_id() < u32::MAX),
    {
        self.next_id < u32::MAX
    }

    /// Whether a command awaits an answer under this identifier.
    pub fn is_pending(&self, id: u32) -> (b: bool)
        ensures
            b == self.pending().contains_key(id),
    {
        broadcast use vstd::std_specs::hash::group_hash_axioms;
        self.pending.contains_key(&id)
    }

    /// The number of commands that await an answer.
    pub fn pending_count(&self) -> (n: usize)
        ensures
            n == self.pending().dom().len(),
    {
        broadcast use vstd::std_specs::hash::group_hash_axioms;
        self.pending.len()
    }

    /// Gates a command and, where it is admitted, gives it a fresh
    /// identifier and an entry in the table.
    ///
    /// A rejected command leaves the table as it was: no identifier is
    /// spent on it.
    pub fn send(
        &mut self,
        client_connected: bool,
        device_connected: bool,
        device_name: &String,
        expected: ExpectedAnswer,
    ) -> (r: Result<u32, ButtplugClientError>)
        requires
            old(self).wf(),
            client_connected && device_connected ==> old(self).next_id() < u32::MAX,
        ensures
            final(self).wf(),
            match r {
                Ok(id) => {
                    &&& client_connected && device_connected
                    &&& id == old(self).next_id()
                    &&& !old(self).pending().contains_key(id)
                    &&& final(self).next_id() == id + 1
                    &&& final(self).pending() == old(self).pending().insert(id, expected)
                },
                Err(e) => {
                    &&& admission(client_connected, device_connected, device_name@, Err(e))
                    &&& final(self).next_id() == old(self).next_id()
                    &&& final(self).pending() == old(self).pending()
                },
            },
    {
        broadcast use vstd::std_specs::hash::group_hash_axioms;
        match admit_command(client_connected, device_connected, device_name) {
            Err(e) => Err(e),
            Ok(()) => {
                let id = self.next_id;
                self.pending.insert(id, expected);
                self.next_id = id + 1;
                assert forall|k: u32| self.pending().contains_key(k) implies 1 <= k
                    < self.next_id() by {
                    assert(k == id || old(self).pending().contains_key(k));
                }
                Ok(id)
            },
        }
    }

    /// Resolves a command that could not be handed to the transport: its
    /// entry leaves the table and it fails with a closed channel. For an
    /// identifier that is not pending nothing happens.
    pub fn fail_handoff(&mut self, id: u32) -> (r: Option<ButtplugClientError>)
        requires
            old(self).wf(),
        ensures
            final(self).wf(),
            final(self).next_id() == old(self).next_id(),
            final(self).pending() == old(self).pending().remove(id),
            match r {
                Some(e) => old(self).pending().contains_key(id) && e
                    == ButtplugClientError::ConnectorChannelClosed,
                None => !old(self).pending().contains_key(id) && final(self).pending() == old(
                    self,
                ).pending(),
            },
    {
        broadcast use vstd::std_specs::hash::group_hash_axioms;
        let removed = self.pending.remove(&id);
        assert forall|k: u32| self.pending().contains_key(k) implies 1 <= k < self.next_id() by {
            assert(old(self).pending().contains_key(k));
        }
        match removed {
            Some(_) => Some(ButtplugClientError::ConnectorChannelClosed),
            None => {
                assert(self.pending@ =~= old(self).pending@);
                None
            },
        }
    }

    /// Settles a command after the attempt to hand it to the transport.
    /// One that the transport took keeps its entry and its identifier is
    /// returned. One that it did not take is resolved at once: its entry
    /// leaves the table and it fails with a closed channel.
    pub fn settle_handoff(&mut self, id: u32, accepted: bool) -> (r: Result<
        u32,
        ButtplugClientError,
    >)
        requires
            old(self).wf(),
        ensures
            final(self).wf(),
            final(self).next_id() == old(self).next_id(),
            accepted ==> r == Ok::<u32, ButtplugClientError>(id) && final(self).pending() == old(
                self,
            ).pending(),
            !accepted ==> r == Err::<u32, ButtplugClientError>(
                ButtplugClientError::ConnectorChannelClosed,
            ) && final(self).pending() == old(self).pending().remove(id),
    {
        if accepted {
            Ok(id)
        } else {
            let _ = self.fail_handoff(id);
            Err(ButtplugClientError::ConnectorChannelClosed)
        }
    }

    /// Hands an incoming message to the command that waits under its
    /// identifier.
    ///
    /// Where a command waits, its entry leaves the table and the message
    /// resolves it. Where none does, the message is discarded and the
    /// table stays as it was. Either way every other entry stays.
    pub fn deliver(&mut self, id: u32, message: ButtplugCurrentSpecServerMessage) -> (r: Option<
        Result<Answer, ButtplugClientError>,
    >)
        requires
            old(self).wf(),
        ensures
            final(self).wf(),
            final(self).next_id() == old(self).next_id(),
            final(self).pending() == old(self).pending().remove(id),
            match r {
                Some(resolution) => old(self).pending().contains_key(id) && resolves_to(
                    old(self).pending()[id],
                    message,
                    resolution,
                ),
                None => !old(self).pending().contains_key(id) && final(self).pending() == old(
                    self,
                ).pending(),
            },
    {
        broadcast use vstd::std_specs::hash::group_hash_axioms;
        let removed = self.pending.remove(&id);
        assert forall|k: u32| self.pending().contains_key(k) implies 1 <= k < self.next_id() by {
            assert(old(self).pending().contains_key(k));
        }
        match removed {
            Some(expected) => Some(interpret(expected, message)),
            None => {
                assert(self.pending@ =~= old(self).pending@);
                None
            },
        }
    }
}

/// An answer for an identifier that is not pending changes no entry, and
/// an answer for one that is changes no other: each of the others stays
/// pending, with the shape it waits for.
pub proof fn lemma_delivery_keeps_other_entries(
    pending: Map<u32, ExpectedAnswer>,
    id: u32,
    other: u32,
)
    requires
        other != id,
    ensures
        !pending.contains_key(id) ==> pending.remove(id) == pending,
        pending.remove(id).contains_key(other) == pending.contains_key(other),
        pending.contains_key(other) ==> pending.remove(id)[other] == pending[other],
{
    if !pending.contains_key(id) {
        assert(pending.remove(id) =~= pending);
    }
}

} // verus!
