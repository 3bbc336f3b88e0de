//! The messages exchanged with a device, and what a device says it accepts.

use vstd::prelude::*;

verus! {

/// The command categories of the current message vocabulary.
#[derive(Clone, Copy, Debug, PartialEq, Eq, Structural, Hash)]
pub enum ButtplugCurrentSpecDeviceMessageType {
    VibrateCmd,
    LinearCmd,
    RotateCmd,
    StopDeviceCmd,
    RawWriteCmd,
    RawReadCmd,
    RawSubscribeCmd,
    RawUnsubscribeCmd,
    BatteryLevelCmd,
    RSSILevelCmd,
}

/// Every command category a device may announce, those of earlier
/// vocabularies included.
#[derive(Clone, Copy, Debug, PartialEq, Eq, Structural, Hash)]
pub enum ButtplugDeviceMessageType {
    VibrateCmd,
    LinearCmd,
    RotateCmd,
    StopDeviceCmd,
    RawWriteCmd,
    RawReadCmd,
    RawSubscribeCmd,
    RawUnsubscribeCmd,
    BatteryLevelCmd,
    RSSILevelCmd,
    SingleMotorVibrateCmd,
    FleshlightLaunchFW12Cmd,
    LovenseCmd,
    KiirooCmd,
    VorzeA10CycloneCmd,
}

/// The number of current command categories.
pub const CURRENT_MESSAGE_TYPE_COUNT: usize = 10;

/// The number of command categories over all vocabularies.
pub const DEVICE_MESSAGE_TYPE_COUNT: usize = 15;

impl ButtplugCurrentSpecDeviceMessageType {
    /// The position of the category in the list of current categories.
    pub open spec fn ordinal_spec(self) -> nat {
        match self {
            ButtplugCurrentSpecDeviceMessageType::VibrateCmd => 0,
            ButtplugCurrentSpecDeviceMessageType::LinearCmd => 1,
            ButtplugCurrentSpecDeviceMessageType::RotateCmd => 2,
            ButtplugCurrentSpecDeviceMessageType::StopDeviceCmd => 3,
            ButtplugCurrentSpecDeviceMessageType::RawWriteCmd => 4,
            ButtplugCurrentSpecDeviceMessageType::RawReadCmd => 5,
            ButtplugCurrentSpecDeviceMessageType::RawSubscribeCmd => 6,
            ButtplugCurrentSpecDeviceMessageType::RawUnsubscribeCmd => 7,
            ButtplugCurrentSpecDeviceMessageType::BatteryLevelCmd => 8,
            ButtplugCurrentSpecDeviceMessageType::RSSILevelCmd => 9,
        }
    }

    /// The position of the category in the list of current categories.
    pub fn ordinal(self) -> (n: usize)
        ensures
            n == self.ordinal_spec(),
            n < CURRENT_MESSAGE_TYPE_COUNT,
    {
        match self {
            ButtplugCurrentSpecDeviceMessageType::VibrateCmd => 0,
            ButtplugCurrentSpecDeviceMessageType::LinearCmd => 1,
            ButtplugCurrentSpecDeviceMessageType::RotateCmd => 2,
            ButtplugCurrentSpecDeviceMessageType::StopDeviceCmd => 3,
            ButtplugCurrentSpecDeviceMessageType::RawWriteCmd => 4,
            ButtplugCurrentSpecDeviceMessageType::RawReadCmd => 5,
            ButtplugCurrentSpecDeviceMessageType::RawSubscribeCmd => 6,
            ButtplugCurrentSpecDeviceMessageType::RawUnsubscribeCmd => 7,
            ButtplugCurrentSpecDeviceMessageType::BatteryLevelCmd => 8,
            ButtplugCurrentSpecDeviceMessageType::RSSILevelCmd => 9,
        }
    }

    /// The same category among those of all vocabularies.
    pub open spec fn widen_spec(self) -> ButtplugDeviceMessageType {
        match self {
            ButtplugCurrentSpecDeviceMessageType::VibrateCmd =>
                ButtplugDeviceMessageType::VibrateCmd,
            ButtplugCurrentSpecDeviceMessageType::LinearCmd => ButtplugDeviceMessageType::LinearCmd,
            ButtplugCurrentSpecDeviceMessageType::RotateCmd => ButtplugDeviceMessageType::RotateCmd,
            ButtplugCurrentSpecDeviceMessageType::StopDeviceCmd =>
                ButtplugDeviceMessageType::StopDeviceCmd,
            ButtplugCurrentSpecDeviceMessageType::RawWriteCmd =>
                ButtplugDeviceMessageType::RawWriteCmd,
            ButtplugCurrentSpecDeviceMessageType::RawReadCmd =>
                ButtplugDeviceMessageType::RawReadCmd,
            ButtplugCurrentSpecDeviceMessageType::RawSubscribeCmd =>
                ButtplugDeviceMessageType::RawSubscribeCmd,
            ButtplugCurrentSpecDeviceMessageType::RawUnsubscribeCmd =>
                ButtplugDeviceMessageType::RawUnsubscribeCmd,
            ButtplugCurrentSpecDeviceMessageType::BatteryLevelCmd =>
                ButtplugDeviceMessageType::BatteryLevelCmd,
            ButtplugCurrentSpecDeviceMessageType::RSSILevelCmd =>
                ButtplugDeviceMessageType::RSSILevelCmd,
        }
    }
}

impl ButtplugDeviceMessageType {
    /// The position of the category in the list of all categories.
    pub open spec fn ordinal_spec(self) -> nat {
        match self {
            ButtplugDeviceMessageType::VibrateCmd => 0,
            ButtplugDeviceMessageType::LinearCmd => 1,
            ButtplugDeviceMessageType::RotateCmd => 2,
            ButtplugDeviceMessageType::StopDeviceCmd => 3,
            ButtplugDeviceMessageType::RawWriteCmd => 4,
            ButtplugDeviceMessageType::RawReadCmd => 5,
            ButtplugDeviceMessageType::RawSubscribeCmd => 6,
            ButtplugDeviceMessageType::RawUnsubscribeCmd => 7,
            ButtplugDeviceMessageType::BatteryLevelCmd => 8,
            ButtplugDeviceMessageType::RSSILevelCmd => 9,
            ButtplugDeviceMessageType::SingleMotorVibrateCmd => 10,
            ButtplugDeviceMessageType::FleshlightLaunchFW12Cmd => 11,
            ButtplugDeviceMessageType::LovenseCmd => 12,
            ButtplugDeviceMessageType::KiirooCmd => 13,
            ButtplugDeviceMessageType::VorzeA10CycloneCmd => 14,
        }
    }

    /// The position of the category in the list of all categories.
    pub fn ordinal(self) -> (n: usize)
        ensures
            n == self.ordinal_spec(),
            n < DEVICE_MESSAGE_TYPE_COUNT,
    {
        match self {
            ButtplugDeviceMessageType::VibrateCmd => 0,
            ButtplugDeviceMessageType::LinearCmd => 1,
            ButtplugDeviceMessageType::RotateCmd => 2,
            ButtplugDeviceMessageType::StopDeviceCmd => 3,
            ButtplugDeviceMessageType::RawWriteCmd => 4,
            ButtplugDeviceMessageType::RawReadCmd => 5,
            ButtplugDeviceMessageType::RawSubscribeCmd => 6,
            ButtplugDeviceMessageType::RawUnsubscribeCmd => 7,
            ButtplugDeviceMessageType::BatteryLevelCmd => 8,
            ButtplugDeviceMessageType::RSSILevelCmd => 9,
            ButtplugDeviceMessageType::SingleMotorVibrateCmd => 10,
            ButtplugDeviceMessageType::FleshlightLaunchFW12Cmd => 11,
            ButtplugDeviceMessageType::LovenseCmd => 12,
            ButtplugDeviceMessageType::KiirooCmd => 13,
            ButtplugDeviceMessageType::VorzeA10CycloneCmd => 14,
        }
    }

    /// The category among the current ones, where it is one of them.
    pub open spec fn current_spec(self) -> Option<ButtplugCurrentSpecDeviceMessageType> {
        match self {
            ButtplugDeviceMessageType::VibrateCmd =>
                Some(ButtplugCurrentSpecDeviceMessageType::VibrateCmd),
            ButtplugDeviceMessageType::LinearCmd =>
                Some(ButtplugCurrentSpecDeviceMessageType::LinearCmd),
            ButtplugDeviceMessageType::RotateCmd =>
                Some(ButtplugCurrentSpecDeviceMessageType::RotateCmd),
            ButtplugDeviceMessageType::StopDeviceCmd =>
                Some(ButtplugCurrentSpecDeviceMessageType::StopDeviceCmd),
            ButtplugDeviceMessageType::RawWriteCmd =>
                Some(ButtplugCurrentSpecDeviceMessageType::RawWriteCmd),
            ButtplugDeviceMessageType::RawReadCmd =>
                Some(ButtplugCurrentSpecDeviceMessageType::RawReadCmd),
            ButtplugDeviceMessageType::RawSubscribeCmd =>
                Some(ButtplugCurrentSpecDeviceMessageType::RawSubscribeCmd),
            ButtplugDeviceMessageType::RawUnsubscribeCmd =>
                Some(ButtplugCurrentSpecDeviceMessageType::RawUnsubscribeCmd),
            ButtplugDeviceMessageType::BatteryLevelCmd =>
                Some(ButtplugCurrentSpecDeviceMessageType::BatteryLevelCmd),
            ButtplugDeviceMessageType::RSSILevelCmd =>
                Some(ButtplugCurrentSpecDeviceMessageType::RSSILevelCmd),
            _ => None,
        }
    }

    /// The category among the current ones, where it is one of them.
    pub fn current(self) -> (r: Option<ButtplugCurrentSpecDeviceMessageType>)
        ensures
            r == self.current_spec(),
    {
        match self {
            ButtplugDeviceMessageType::VibrateCmd =>
                Some(ButtplugCurrentSpecDeviceMessageType::VibrateCmd),
            ButtplugDeviceMessageType::LinearCmd =>
                Some(ButtplugCurrentSpecDeviceMessageType::LinearCmd),
            ButtplugDeviceMessageType::RotateCmd =>
                Some(ButtplugCurrentSpecDeviceMessageType::RotateCmd),
            ButtplugDeviceMessageType::StopDeviceCmd =>
                Some(ButtplugCurrentSpecDeviceMessageType::StopDeviceCmd),
            ButtplugDeviceMessageType::RawWriteCmd =>
                Some(ButtplugCurrentSpecDeviceMessageType::RawWriteCmd),
            ButtplugDeviceMessageType::RawReadCmd =>
                Some(ButtplugCurrentSpecDeviceMessageType::RawReadCmd),
            ButtplugDeviceMessageType::RawSubscribeCmd =>
                Some(ButtplugCurrentSpecDeviceMessageType::RawSubscribeCmd),
            ButtplugDeviceMessageType::RawUnsubscribeCmd =>
                Some(ButtplugCurrentSpecDeviceMessageType::RawUnsubscribeCmd),
            ButtplugDeviceMessageType::BatteryLevelCmd =>
                Some(ButtplugCurrentSpecDeviceMessageType::BatteryLevelCmd),
            ButtplugDeviceMessageType::RSSILevelCmd =>
                Some(ButtplugCurrentSpecDeviceMessageType::RSSILevelCmd),
            _ => None,
        }
    }

    /// The category at a position in the list of all categories.
    pub fn at(n: usize) -> (t: Self)
        requires
            n < DEVICE_MESSAGE_TYPE_COUNT,
        ensures
            t.ordinal_spec() == n,
    {
        if n == 0 {
            ButtplugDeviceMessageType::VibrateCmd
        } else if n == 1 {
            ButtplugDeviceMessageType::LinearCmd
        } else if n == 2 {
            ButtplugDeviceMessageType::RotateCmd
        } else if n == 3 {
            ButtplugDeviceMessageType::StopDeviceCmd
        } else if n == 4 {
            ButtplugDeviceMessageType::RawWriteCmd
        } else if n == 5 {
            ButtplugDeviceMessageType::RawReadCmd
        } else if n == 6 {
            ButtplugDeviceMessageType::RawSubscribeCmd
        } else if n == 7 {
            ButtplugDeviceMessageType::RawUnsubscribeCmd
        } else if n == 8 {
            ButtplugDeviceMessageType::BatteryLevelCmd
        } else if n == 9 {
            ButtplugDeviceMessageType::RSSILevelCmd
        } else if n == 10 {
            ButtplugDeviceMessageType::SingleMotorVibrateCmd
        } else if n == 11 {
            ButtplugDeviceMessageType::FleshlightLaunchFW12Cmd
        } else if n == 12 {
            ButtplugDeviceMessageType::LovenseCmd
        } else if n == 13 {
            ButtplugDeviceMessageType::KiirooCmd
        } else {
            ButtplugDeviceMessageType::VorzeA10CycloneCmd
        }
    }
}

/// What a device says of one command category.
#[derive(Clone, Copy, Debug, PartialEq, Eq)]
pub struct DeviceMessageAttributes {
    /// How many features of this category can be addressed one by one.
    pub feature_count: Option<u32>,
}

/// What a device announces: attributes by command category, over all
/// vocabularies.
pub struct DeviceMessageAttributesMap {
    slots: Vec<Option<DeviceMessageAttributes>>,
}

/// What a device accepts in the current vocabulary: attributes by command
/// category.
pub struct ClientDeviceMessageAttributesMap {
    slots: Vec<Option<DeviceMessageAttributes>>,
}

/// A table of `count` empty slots.
fn empty_slots(count: usize) -> (slots: Vec<Option<DeviceMessageAttributes>>)
    ensures
        slots@.len() == count,
        forall|i: int| 0 <= i < count ==> slots@[i] is None,
{
    let mut slots: Vec<Option<DeviceMessageAttributes>> = Vec::new();
    let mut i: usize = 0;
    while i < count
        invariant
            i <= count,
            slots@.len() == i,
            forall|j: int| 0 <= j < i ==> slots@[j] is None,
        decreases count - i,
    {
        slots.push(None);
        i = i + 1;
    }
    slots
}

impl View for DeviceMessageAttributesMap {
    type V = Map<ButtplugDeviceMessageType, DeviceMessageAttributes>;

    closed spec fn view(&self) -> Self::V {
        Map::new(
            |t: ButtplugDeviceMessageType|
                t.ordinal_spec() < self.slots@.len() && self.slots@[t.ordinal_spec() as int] is Some,
            |t: ButtplugDeviceMessageType| self.slots@[t.ordinal_spec() as int]->0,
        )
    }
}

impl DeviceMessageAttributesMap {
    /// The table has a slot for every category.
    #[verifier::type_invariant]
    closed spec fn wf(&self) -> bool {
        self.slots@.len() == DEVICE_MESSAGE_TYPE_COUNT
    }

    /// A map without entries.
    pub fn new() -> (m: Self)
        ensures
            m@ == Map::<ButtplugDeviceMessageType, DeviceMessageAttributes>::empty(),
    {
        let m = DeviceMessageAttributesMap { slots: empty_slots(DEVICE_MESSAGE_TYPE_COUNT) };
        assert(m@ =~= Map::<ButtplugDeviceMessageType, DeviceMessageAttributes>::empty());
        m
    }

    /// The map with the attributes of one more category, or with new
    /// attributes for a category it has.
    pub fn insert(self, message_type: ButtplugDeviceMessageType, attributes: DeviceMessageAttributes) -> (m: Self)
        ensures
            m@ == self@.insert(message_type, attributes),
    {
        proof {
            use_type_invariant(&self);
        }
        let mut slots = self.slots;
        slots.set(message_type.ordinal(), Some(attributes));
        let m = DeviceMessageAttributesMap { slots };
        assert(m@ =~= self@.insert(message_type, attributes));
        m
    }

    /// The attributes of a category, where the device announces it.
    pub fn get(&self, message_type: ButtplugDeviceMessageType) -> (r: Option<DeviceMessageAttributes>)
        ensures
            r == (if self@.contains_key(message_type) {
                Some(self@[message_type])
            } else {
                None
            }),
    {
        proof {
            use_type_invariant(self);
        }
        self.slots[message_type.ordinal()]
    }
}

impl View for ClientDeviceMessageAttributesMap {
    type V = Map<ButtplugCurrentSpecDeviceMessageType, DeviceMessageAttributes>;

    closed spec fn view(&self) -> Self::V {
        Map::new(
            |t: ButtplugCurrentSpecDeviceMessageType|
                t.ordinal_spec() < self.slots@.len() && self.slots@[t.ordinal_spec() as int] is Some,
            |t: ButtplugCurrentSpecDeviceMessageType| self.slots@[t.ordinal_spec() as int]->0,
        )
    }
}

impl ClientDeviceMessageAttributesMap {
    /// The table has a slot for every category.
    #[verifier::type_invariant]
    closed spec fn wf(&self) -> bool {
        self.slots@.len() == CURRENT_MESSAGE_TYPE_COUNT
    }

    /// A map without entries.
    pub fn new() -> (m: Self)
        ensures
            m@ == Map::<ButtplugCurrentSpecDeviceMessageType, DeviceMessageAttributes>::empty(),
    {
        let m = ClientDeviceMessageAttributesMap { slots: empty_slots(CURRENT_MESSAGE_TYPE_COUNT) };
        assert(m@ =~= Map::<ButtplugCurrentSpecDeviceMessageType, DeviceMessageAttributes>::empty());
        m
    }

    /// The map with the attributes of one more category, or with new
    /// attributes for a category it has.
    pub fn insert(
        self,
        message_type: ButtplugCurrentSpecDeviceMessageType,
        attributes: DeviceMessageAttributes,
    ) -> (m: Self)
        ensures
            m@ == self@.insert(message_type, attributes),
    {
        proof {
            use_type_invariant(&self);
        }
        let mut slots = self.slots;
        slots.set(message_type.ordinal(), Some(attributes));
        let m = ClientDeviceMessageAttributesMap { slots };
        assert(m@ =~= self@.insert(message_type, attributes));
        m
    }

    /// The attributes of a category, where the device accepts it.
    pub fn get(&self, message_type: ButtplugCurrentSpecDeviceMessageType) -> (r: Option<
        DeviceMessageAttributes,
    >)
        ensures
            r == (if self@.contains_key(message_type) {
                Some(self@[message_type])
            } else {
                None
            }),
    {
        proof {
            use_type_invariant(self);
        }
        self.slots[message_type.ordinal()]
    }

    /// Whether the device accepts a category.
    pub fn contains_key(&self, message_type: ButtplugCurrentSpecDeviceMessageType) -> (b: bool)
        ensures
            b == self@.contains_key(message_type),
    {
        self.get(message_type).is_some()
    }
}

/// What a device announces, cut down to the current vocabulary: a current
/// category is in the result exactly if the device announces it, with the
/// same attributes. Categories of earlier vocabularies are left out.
pub open spec fn client_device_map(
    device_map: Map<ButtplugDeviceMessageType, DeviceMessageAttributes>,
) -> Map<ButtplugCurrentSpecDeviceMessageType, DeviceMessageAttributes> {
    Map::new(
        |t: ButtplugCurrentSpecDeviceMessageType| device_map.contains_key(t.widen_spec()),
        |t: ButtplugCurrentSpecDeviceMessageType| device_map[t.widen_spec()],
    )
}

/// Keeps of a device's announcement what the current vocabulary knows.
pub fn convert_to_client_device_map(device_map: &DeviceMessageAttributesMap) -> (current_map:
    ClientDeviceMessageAttributesMap)
    ensures
        current_map@ == client_device_map(device_map@),
{
    let mut current_map = ClientDeviceMessageAttributesMap::new();
    let mut n: usize = 0;
    while n < DEVICE_MESSAGE_TYPE_COUNT
        invariant
            n <= DEVICE_MESSAGE_TYPE_COUNT,
            forall|t: ButtplugCurrentSpecDeviceMessageType|
                current_map@.contains_key(t) <==> (t.widen_spec().ordinal_spec() < n
                    && device_map@.contains_key(#[trigger] t.widen_spec())),
            forall|t: ButtplugCurrentSpecDeviceMessageType|
                current_map@.contains_key(t) ==> current_map@[t] == device_map@[
                #[trigger] t.widen_spec()],
        decreases DEVICE_MESSAGE_TYPE_COUNT - n,
    {
        let message_type = ButtplugDeviceMessageType::at(n);
        if let Some(attributes) = device_map.get(message_type) {
            if let Some(current_type) = message_type.current() {
                current_map = current_map.insert(current_type, attributes);
            }
        }
        n = n + 1;
    }
    assert(current_map@ =~= client_device_map(device_map@));
    current_map
}

/// A named channel of a piece of hardware.
#[derive(Clone, Copy, Debug, PartialEq, Eq, Structural, Hash)]
pub enum Endpoint {
    Command,
    Firmware,
    Rx,
    RxAccel,
    RxBLEBattery,
    RxPressure,
    RxTouch,
    Tx,
    TxMode,
    TxShock,
    TxVibrate,
    TxVendorControl,
    Whitelist,
}

/// A command for one device.
#[derive(Clone, Debug, PartialEq, Eq)]
pub enum ButtplugCurrentSpecClientMessage {
    /// Speeds for vibration features, by feature index.
    VibrateCmd { device_index: u32, speeds: Vec<(u32, u32)> },
    /// Speed and direction for rotation features, by feature index.
    RotateCmd { device_index: u32, rotations: Vec<(u32, (u32, bool))> },
    /// Duration and position for linear features, by feature index.
    LinearCmd { device_index: u32, vectors: Vec<(u32, (u32, u32))> },
    /// Stop everything the device does.
    StopDeviceCmd { device_index: u32 },
    /// Write bytes to an endpoint.
    RawWriteCmd { device_index: u32, endpoint: Endpoint, data: Vec<u8>, write_with_response: bool },
    /// Read bytes from an endpoint.
    RawReadCmd { device_index: u32, endpoint: Endpoint, expected_length: u32, timeout: u32 },
    /// Have an endpoint report what it receives.
    RawSubscribeCmd { device_index: u32, endpoint: Endpoint },
    /// End the reports of an endpoint.
    RawUnsubscribeCmd { device_index: u32, endpoint: Endpoint },
    /// Ask for the battery level.
    BatteryLevelCmd { device_index: u32 },
    /// Ask for the signal strength.
    RSSILevelCmd { device_index: u32 },
}

/// What the remote side sends.
#[derive(Clone, Debug, PartialEq, Eq)]
pub enum ButtplugCurrentSpecServerMessage {
    /// The command was carried out.
    Okay,
    /// The command failed: the remote side's error code and its words.
    Error { error_code: u8, error_message: String },
    /// A scan for devices has ended.
    ScanningFinished,
    /// A device has gone.
    DeviceRemoved { device_index: u32 },
    /// Bytes read from an endpoint.
    RawReading { device_index: u32, endpoint: Endpoint, data: Vec<u8> },
    /// The battery level, as the bits of a double-precision number
    /// between zero and one.
    BatteryLevelReading { device_index: u32, battery_level_bits: u64 },
    /// The signal strength.
    RSSILevelReading { device_index: u32, rssi_level: i32 },
}

} // verus!
