//! The protocol of a vibrator with two motors and five speed steps: one
//! write of two bytes, a pattern and a speed, says what both motors do.

use vstd::prelude::*;
use crate::error::ButtplugClientError;
use crate::message::{ButtplugCurrentSpecClientMessage, Endpoint};
use crate::protocol::{
    forward_raw,
    forwards,
    message_type,
    message_type_spec,
    DeviceAction,
    DeviceWriteCmd,
};
use crate::state::{
    all_neutral,
    cache_after,
    in_range,
    refuses,
    update_result,
    CommandStateManager,
};

verus! {

/// The number of speed steps of a motor.
pub const JEJOUE_STEP_COUNT: u32 = 5;

/// Both motors run at the speed given.
pub const PATTERN_BOTH: u8 = 1;

/// Only the first motor runs.
pub const PATTERN_FIRST_ONLY: u8 = 2;

/// Only the second motor runs.
pub const PATTERN_SECOND_ONLY: u8 = 3;

/// The speed step for a speed in percent: the percentage of the five
/// steps, rounded up, so that any speed above zero turns the motor.
pub open spec fn speed_step_spec(percent: u32) -> u8 {
    if percent >= 100 {
        5
    } else {
        ((percent * 5 + 99) / 100) as u8
    }
}

/// The speed step for a speed in percent.
pub fn speed_step(percent: u32) -> (step: u8)
    ensures
        step == speed_step_spec(percent),
        step <= JEJOUE_STEP_COUNT,
        step == 0 <==> percent == 0,
{
    if percent >= 100 {
        5
    } else {
        ((percent * JEJOUE_STEP_COUNT + 99) / 100) as u8
    }
}

/// The speed of a feature in a state, zero where the state is too short
/// to have it.
pub open spec fn speed_of(state: Seq<u32>, feature: int) -> u32 {
    if 0 <= feature < state.len() {
        state[feature]
    } else {
        0
    }
}

/// The two bytes for a state. The first motor gives the speed where it
/// runs, alone or with the second; else the second does; with both at
/// rest the device is told to run both at speed zero.
pub open spec fn jejoue_payload(state: Seq<u32>) -> Seq<u8> {
    let first = speed_step_spec(speed_of(state, 0));
    let second = speed_step_spec(speed_of(state, 1));
    if first != 0 && second == 0 {
        seq![PATTERN_FIRST_ONLY, first]
    } else if first != 0 {
        seq![PATTERN_BOTH, first]
    } else if second != 0 {
        seq![PATTERN_SECOND_ONLY, second]
    } else {
        seq![PATTERN_BOTH, 0u8]
    }
}

/// What is written for a state: the two bytes, to the transmit endpoint,
/// without acknowledgement.
pub open spec fn is_jejoue_write(state: Seq<u32>, cmd: DeviceWriteCmd) -> bool {
    &&& cmd.endpoint == Endpoint::Tx
    &&& cmd.data@ == jejoue_payload(state)
    &&& !cmd.write_with_response
}

/// Encodes a state of the vibration features as one write. Features that
/// the state lacks count as at rest; features beyond the second are not
/// looked at.
pub fn encode_vibration(state: &Vec<u32>) -> (cmd: DeviceWriteCmd)
    ensures
        is_jejoue_write(state@, cmd),
{
    let first = if state.len() > 0 {
        speed_step(state[0])
    } else {
        speed_step(0)
    };
    let second = if state.len() > 1 {
        speed_step(state[1])
    } else {
        speed_step(0)
    };
    let mut data: Vec<u8> = Vec::new();
    if first != 0 && second == 0 {
        data.push(PATTERN_FIRST_ONLY);
        data.push(first);
    } else if first != 0 {
        data.push(PATTERN_BOTH);
        data.push(first);
    } else if second != 0 {
        data.push(PATTERN_SECOND_ONLY);
        data.push(second);
    } else {
        data.push(PATTERN_BOTH);
        data.push(0);
    }
    assert(data@ =~= jejoue_payload(state@));
    DeviceWriteCmd { endpoint: Endpoint::Tx, data, write_with_response: false }
}

/// What a handler does with the outcome of an update: a refusal is
/// passed on, no update means no write, and a merged state is encoded.
pub open spec fn write_for_update(
    r: Result<Option<Vec<u32>>, ButtplugClientError>,
    w: Result<Option<DeviceWriteCmd>, ButtplugClientError>,
) -> bool {
    match (r, w) {
        (Ok(Some(state)), Ok(Some(cmd))) => is_jejoue_write(state@, cmd),
        (Ok(None), Ok(None)) => true,
        (Err(e), Err(passed)) => passed == e,
        _ => false,
    }
}

/// Turns the outcome of an update into the write to perform, if any.
pub fn write_for(r: Result<Option<Vec<u32>>, ButtplugClientError>) -> (w: Result<
    Option<DeviceWriteCmd>,
    ButtplugClientError,
>)
    ensures
        write_for_update(r, w),
{
    match r {
        Ok(Some(state)) => Ok(Some(encode_vibration(&state))),
        Ok(None) => Ok(None),
        Err(e) => Err(e),
    }
}

/// What the vibration handler returns and leaves behind. A command with
/// an index out of range is refused and the cache stays. Any other is
/// merged into the cache; where that changes what the device shows, the
/// write is the encoding of the merged state, and where not, there is none.
pub open spec fn handler_outcome(
    before: Seq<Option<u32>>,
    after: Seq<Option<u32>>,
    speeds: Seq<(u32, u32)>,
    is_partial: bool,
    w: Result<Option<DeviceWriteCmd>, ButtplugClientError>,
) -> bool {
    match w {
        Ok(write) => {
            &&& in_range(speeds, before.len())
            &&& after == cache_after(before, speeds, is_partial)
            &&& match write {
                Some(cmd) => update_result(before, speeds, is_partial) matches Some(state)
                    && is_jejoue_write(state, cmd),
                None => update_result(before, speeds, is_partial) is None,
            }
        },
        Err(e) => after == before && refuses(before.len(), speeds, e),
    }
}

/// The handler of one such device: its cached state.
pub struct JeJoue {
    /// The cached feature state of the device.
    pub manager: CommandStateManager,
}

impl JeJoue {
    /// A handler for a device with two vibration features, before any
    /// command.
    pub fn new() -> (handler: Self)
        ensures
            handler.manager.vibration@ == Seq::new(2, |i: int| None::<u32>),
            handler.manager.rotation@ == Seq::<Option<(u32, bool)>>::empty(),
            handler.manager.linear@ == Seq::<Option<(u32, u32)>>::empty(),
    {
        let handler = JeJoue { manager: CommandStateManager::new(2, 0, 0) };
        assert(handler.manager.rotation@ =~= Seq::<Option<(u32, bool)>>::empty());
        assert(handler.manager.linear@ =~= Seq::<Option<(u32, u32)>>::empty());
        handler
    }

    /// Handles a vibration command: a partial update of the cache, and
    /// one write where that changed what the device shows.
    pub fn handle_vibrate_cmd(&mut self, speeds: &Vec<(u32, u32)>) -> (w: Result<
        Option<DeviceWriteCmd>,
        ButtplugClientError,
    >)
        ensures
            handler_outcome(
                old(self).manager.vibration@,
                final(self).manager.vibration@,
                speeds@,
                true,
                w,
            ),
            final(self).manager.rotation == old(self).manager.rotation,
            final(self).manager.linear == old(self).manager.linear,
    {
        let r = self.manager.update_vibration(speeds, true);
        write_for(r)
    }

    /// Handles a stop: every vibration feature goes to rest, and one
    /// write is made where any was running.
    pub fn handle_stop_device_cmd(&mut self) -> (w: Option<DeviceWriteCmd>)
        ensures
            match w {
                Some(cmd) => {
                    &&& update_result(old(self).manager.vibration@, Seq::empty(), false) is Some
                    &&& is_jejoue_write(all_neutral::<u32>(old(self).manager.vibration@.len()), cmd)
                },
                None => update_result(old(self).manager.vibration@, Seq::empty(), false) is None,
            },
            final(self).manager.vibration@ == cache_after(
                old(self).manager.vibration@,
                Seq::empty(),
                false,
            ),
            final(self).manager.rotation == old(self).manager.rotation,
            final(self).manager.linear == old(self).manager.linear,
    {
        let nothing: Vec<(u32, u32)> = Vec::new();
        assert(nothing@ =~= Seq::empty());
        match self.manager.update_vibration(&nothing, false) {
            Ok(Some(state)) => Some(encode_vibration(&state)),
            Ok(None) => None,
            Err(_) => {
                assert(false);
                None
            },
        }
    }

    /// Routes a command to its handler and returns what the transport is
    /// to do.
    ///
    /// Vibration and stop go through the cache, so that a command that
    /// changes nothing causes no write. Raw commands bypass it: each is
    /// forwarded as it is, and the cache stays. The device has no other
    /// feature: any other command is refused as not supported.
    pub fn handle_command(&mut self, message: &ButtplugCurrentSpecClientMessage) -> (r: Result<
        DeviceAction,
        ButtplugClientError,
    >)
        ensures
            jejoue_handles(old(self).manager, final(self).manager, *message, r),
    {
        match message {
            ButtplugCurrentSpecClientMessage::VibrateCmd { speeds, .. } => {
                match self.handle_vibrate_cmd(speeds) {
                    Ok(Some(cmd)) => Ok(DeviceAction::Write(cmd)),
                    Ok(None) => Ok(DeviceAction::Nothing),
                    Err(e) => Err(e),
                }
            },
            ButtplugCurrentSpecClientMessage::StopDeviceCmd { .. } => {
                match self.handle_stop_device_cmd() {
                    Some(cmd) => Ok(DeviceAction::Write(cmd)),
                    None => Ok(DeviceAction::Nothing),
                }
            },
            _ => match forward_raw(message) {
                Some(action) => Ok(action),
                None => Err(ButtplugClientError::MessageNotSupported(message_type(message))),
            },
        }
    }
}

/// What the handler of this device does with a command.
///
/// Vibration and stop go through the cache, so that a command that changes
/// nothing causes no write. Raw commands bypass it: each is forwarded as it
/// is, and the cache stays. The device has no other feature: any other
/// command is refused as not supported. Rotation and linear state are never
/// touched.
pub open spec fn jejoue_handles(
    before: CommandStateManager,
    after: CommandStateManager,
    message: ButtplugCurrentSpecClientMessage,
    r: Result<DeviceAction, ButtplugClientError>,
) -> bool {
    &&& match message {
        ButtplugCurrentSpecClientMessage::VibrateCmd { device_index, speeds } => {
            &&& r matches Ok(action) ==> action is Write || action is Nothing
            &&& handler_outcome(
                before.vibration@,
                after.vibration@,
                speeds@,
                true,
                action_as_write(r),
            )
        },
        ButtplugCurrentSpecClientMessage::StopDeviceCmd { .. } => {
            &&& after.vibration@ == cache_after(
                before.vibration@,
                Seq::empty(),
                false,
            )
            &&& match r {
                Ok(DeviceAction::Write(cmd)) => {
                    &&& update_result(before.vibration@, Seq::empty(), false)
                        is Some
                    &&& is_jejoue_write(
                        all_neutral::<u32>(before.vibration@.len()),
                        cmd,
                    )
                },
                Ok(DeviceAction::Nothing) => update_result(
                    before.vibration@,
                    Seq::empty(),
                    false,
                ) is None,
                _ => false,
            }
        },
        ButtplugCurrentSpecClientMessage::RawWriteCmd { .. }
        | ButtplugCurrentSpecClientMessage::RawReadCmd { .. }
        | ButtplugCurrentSpecClientMessage::RawSubscribeCmd { .. }
        | ButtplugCurrentSpecClientMessage::RawUnsubscribeCmd { .. } => {
            &&& after.vibration@ == before.vibration@
            &&& r matches Ok(action)
            &&& forwards(message, action)
        },
        _ => {
            &&& after.vibration@ == before.vibration@
            &&& r == Err::<DeviceAction, ButtplugClientError>(
                ButtplugClientError::MessageNotSupported(message_type_spec(message)),
            )
        },
    }
    &&& after.rotation == before.rotation
    &&& after.linear == before.linear
}

/// The write in an action, for comparison with a handler's result.
pub open spec fn action_as_write(r: Result<DeviceAction, ButtplugClientError>) -> Result<
    Option<DeviceWriteCmd>,
    ButtplugClientError,
> {
    match r {
        Ok(DeviceAction::Write(cmd)) => Ok(Some(cmd)),
        Ok(_) => Ok(None),
        Err(e) => Err(e),
    }
}

} // verus!
