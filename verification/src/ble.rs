//! The session with the logger over Bluetooth Low Energy: which steps lead to
//! a connection, what makes a device acceptable, and what is written to it and
//! subscribed to once it is connected.
//!
//! The radio belongs to the caller. Connecting is a conversation: the caller
//! does what the current `ConnectStep` asks, reports the outcome as a
//! `ConnectReply`, and `BleClient::connect` names the next step, until a step
//! is final. Services and characteristics are told apart by the 128 bits of
//! their identifier.

use crate::text::{trim, trimmed};
use crate::trusted::string_from_utf8;
use vstd::prelude::*;
use vstd::string::StringExecFns;
use vstd::utf8::{encode_utf8, valid_utf8};

verus! {

/// The service that carries the telemetry stream.
pub const SERIAL_SERVICE_UUID: u128 = 0x6E400001_B5A3_F393_E0A9_E50E24DCCA9E;

/// The service that carries configuration and status.
pub const CONFIG_SERVICE_UUID: u128 = 0x12345678_1234_1234_1234_123456789ABC;

/// The characteristic of the serial service that the logger reads from.
pub const CHARACTERISTIC_UUID_RX: u128 = 0x6E400002_B5A3_F393_E0A9_E50E24DCCA9E;

/// The characteristic of the serial service on which telemetry arrives.
pub const CHARACTERISTIC_UUID_TX: u128 = 0x6E400003_B5A3_F393_E0A9_E50E24DCCA9E;

/// The characteristic to which configuration commands are written.
pub const CHARACTERISTIC_UUID_CONFIG: u128 = 0x12345678_1234_1234_1234_123456789ABD;

/// The characteristic on which status texts arrive.
pub const CHARACTERISTIC_UUID_STATUS: u128 = 0x12345678_1234_1234_1234_123456789ABE;

/// How long the scan for devices lasts, in seconds.
pub const SCAN_SECONDS: u64 = 3;

/// A characteristic of the connected device: its identifier, and whether it
/// offers notifications.
#[derive(Debug, Clone, Copy, PartialEq, Eq, Structural)]
pub struct Characteristic {
    pub uuid: u128,
    pub notify: bool,
}

/// Why the session refuses to go on.
#[derive(Debug, Clone, Copy, PartialEq, Eq, Structural)]
pub enum BleError {
    /// The machine has no Bluetooth adapter.
    AdapterUnavailable,
    /// No device that the scan found advertises the wanted name.
    DeviceNotFound,
    /// The device lacks the serial or the configuration service.
    IncompleteDevice,
    /// The device has no characteristic to write commands to.
    NotReady,
    /// The device has no characteristic for telemetry.
    TelemetryMissing,
    /// The device has no characteristic for status texts.
    StatusMissing,
}

/// A connected logger: which of the scanned devices it is, and the
/// characteristics that it offers.
#[derive(Debug, Clone, PartialEq, Eq)]
pub struct BleClient {
    pub peripheral: usize,
    pub characteristics: Vec<Characteristic>,
}

/// What the caller is to do next on the way to a connection. `Connected`,
/// `Failed` and `Aborted` are final.
#[derive(Debug, PartialEq, Eq)]
pub enum ConnectStep {
    /// Open the Bluetooth manager and count its adapters.
    ListAdapters,
    /// Start an unfiltered scan on the adapter with this index.
    StartScan { adapter: usize },
    /// Let the scan run for this many seconds.
    Wait { seconds: u64 },
    /// Count the devices that the scan has found.
    ListPeripherals,
    /// Read the name that device `index` of `count` advertises.
    ReadName { index: usize, count: usize },
    /// Stop the scan; device `index` is the wanted one.
    StopScan { index: usize },
    /// Connect to device `index`.
    Connect { index: usize },
    /// Have device `index` list its services.
    DiscoverServices { index: usize },
    /// Read the services and characteristics that device `index` has listed.
    ReadServices { index: usize },
    /// The device is connected and has what the session needs.
    Connected(BleClient),
    /// The session refuses to go on.
    Failed(BleError),
    /// The transport failed or answered out of turn; the caller has its error.
    Aborted,
}

/// What the caller reports back.
#[derive(Debug, PartialEq, Eq)]
pub enum ConnectReply {
    /// The manager has this many adapters.
    Adapters { count: usize },
    /// What was asked is done.
    Done,
    /// The scan has found this many devices.
    Peripherals { count: usize },
    /// The name that the device advertises, or none where it advertises none
    /// or could not be asked.
    Name(Option<String>),
    /// The identifiers of the services of the device, and its characteristics.
    Services { services: Vec<u128>, characteristics: Vec<Characteristic> },
    /// The transport reported an error.
    Failed,
}

/// What is to be written for a configuration command: to which of the
/// client's characteristics, what text, and whether an answer to the write is
/// to be awaited.
#[derive(Debug, PartialEq, Eq)]
pub struct ConfigWrite {
    pub characteristic: usize,
    pub payload: String,
    pub with_response: bool,
}

/// One step of subscribing to the device.
#[derive(Debug, Clone, Copy, PartialEq, Eq, Structural)]
pub enum SubscribeStep {
    /// Turn on notifications for the client's characteristic with this index.
    Enable { characteristic: usize },
    /// Open the stream of notifications and hand each one on.
    Listen,
    /// Stop here with this error.
    Fail(BleError),
}

/// Whether `i` is the index of the first of `characteristics` that has the
/// identifier `uuid`.
pub open spec fn is_first_with(characteristics: Seq<Characteristic>, uuid: u128, i: int) -> bool {
    &&& 0 <= i < characteristics.len()
    &&& characteristics[i].uuid == uuid
    &&& forall|j: int| 0 <= j < i ==> (#[trigger] characteristics[j]).uuid != uuid
}

/// The index of the first of `characteristics` that has the identifier
/// `uuid`, if one has it.
pub open spec fn first_with(characteristics: Seq<Characteristic>, uuid: u128) -> Option<int> {
    if exists|i: int| is_first_with(characteristics, uuid, i) {
        Some(choose|i: int| is_first_with(characteristics, uuid, i))
    } else {
        None
    }
}

/// Whether a device with these services has both that the session needs.
pub open spec fn has_required_services(services: Seq<u128>) -> bool {
    services.contains(SERIAL_SERVICE_UUID) && services.contains(CONFIG_SERVICE_UUID)
}

/// Whether `step` is final.
pub open spec fn is_final(step: ConnectStep) -> bool {
    step is Connected || step is Failed || step is Aborted
}

/// The step that follows `step` once the caller has answered it with `reply`,
/// on the way to the device that advertises `device_name`.
///
/// The first adapter is used, and the lack of one is an error. After the scan
/// the devices are asked for their names in order; the first whose name is
/// exactly `device_name` is the wanted one, and if there is none the device
/// is not found. The scan is then stopped, the device connected and its
/// services discovered; it is accepted if it has both required services. A
/// final step stays as it is. A reported failure, and a reply that does not
/// belong to the step, abort.
pub open spec fn connect_step_after(
    step: ConnectStep,
    device_name: Seq<char>,
    reply: ConnectReply,
) -> ConnectStep {
    if is_final(step) {
        step
    } else {
        match (step, reply) {
            (ConnectStep::ListAdapters, ConnectReply::Adapters { count }) => if count > 0 {
                ConnectStep::StartScan { adapter: 0 }
            } else {
                ConnectStep::Failed(BleError::AdapterUnavailable)
            },
            (ConnectStep::StartScan { .. }, ConnectReply::Done) => ConnectStep::Wait {
                seconds: SCAN_SECONDS,
            },
            (ConnectStep::Wait { .. }, ConnectReply::Done) => ConnectStep::ListPeripherals,
            (ConnectStep::ListPeripherals, ConnectReply::Peripherals { count }) => if count > 0 {
                ConnectStep::ReadName { index: 0, count }
            } else {
                ConnectStep::Failed(BleError::DeviceNotFound)
            },
            (ConnectStep::ReadName { index, count }, ConnectReply::Name(name)) => if name is Some
                && name->0@ == device_name {
                ConnectStep::StopScan { index }
            } else if index + 1 < count {
                ConnectStep::ReadName { index: (index + 1) as usize, count }
            } else {
                ConnectStep::Failed(BleError::DeviceNotFound)
            },
            (ConnectStep::StopScan { index }, ConnectReply::Done) => ConnectStep::Connect { index },
            (ConnectStep::Connect { index }, ConnectReply::Done) => ConnectStep::DiscoverServices {
                index,
            },
            (
                ConnectStep::DiscoverServices { index },
                ConnectReply::Done,
            ) => ConnectStep::ReadServices { index },
            (
                ConnectStep::ReadServices { index },
                ConnectReply::Services { services, characteristics },
            ) => if has_required_services(services@) {
                ConnectStep::Connected(BleClient { peripheral: index, characteristics })
            } else {
                ConnectStep::Failed(BleError::IncompleteDevice)
            },
            _ => ConnectStep::Aborted,
        }
    }
}

/// The steps of subscribing to a device with these characteristics, in order.
/// Notifications are turned on for the telemetry characteristic and then for
/// the status characteristic, each only if it offers them, and then the
/// stream is listened to. Where the telemetry characteristic is missing
/// nothing is done; where the status characteristic is missing the steps end
/// in that error.
pub open spec fn subscription_plan(characteristics: Seq<Characteristic>) -> Seq<SubscribeStep> {
    match first_with(characteristics, CHARACTERISTIC_UUID_TX) {
        None => seq![SubscribeStep::Fail(BleError::TelemetryMissing)],
        Some(tx) => enabling(characteristics, tx) + match first_with(
            characteristics,
            CHARACTERISTIC_UUID_STATUS,
        ) {
            None => seq![SubscribeStep::Fail(BleError::StatusMissing)],
            Some(status) => enabling(characteristics, status) + seq![SubscribeStep::Listen],
        },
    }
}

/// The step that turns notifications on for characteristic `i`, where it
/// offers them, and no step where it does not.
pub open spec fn enabling(characteristics: Seq<Characteristic>, i: int) -> Seq<SubscribeStep> {
    if characteristics[i].notify {
        seq![SubscribeStep::Enable { characteristic: i as usize }]
    } else {
        Seq::empty()
    }
}

/// The step that the replies `replies`, given in order, lead to from the
/// first step.
pub open spec fn connect_run(device_name: Seq<char>, replies: Seq<ConnectReply>) -> ConnectStep
    decreases replies.len(),
{
    if replies.len() == 0 {
        ConnectStep::ListAdapters
    } else {
        connect_step_after(
            connect_run(device_name, replies.drop_last()),
            device_name,
            replies.last(),
        )
    }
}

/// Whether `step` is one that is only taken for the wanted device.
pub open spec fn has_chosen(step: ConnectStep) -> bool {
    step is StopScan || step is Connect || step is DiscoverServices || step is ReadServices
        || step is Connected
}

/// Whether `reply` gives exactly the name `device_name`.
pub open spec fn names(reply: ConnectReply, device_name: Seq<char>) -> bool {
    reply matches ConnectReply::Name(Some(name)) && name@ == device_name
}

/// Whether `reply` lists both required services, together with the
/// characteristics of `client`.
pub open spec fn validates(reply: ConnectReply, client: BleClient) -> bool {
    reply matches ConnectReply::Services { services, characteristics } && has_required_services(
        services@,
    ) && characteristics == client.characteristics
}

/// A device that lacks the serial or the configuration service is refused as
/// incomplete, whatever else it has.
pub proof fn theorem_incomplete_device_is_refused(
    device_name: Seq<char>,
    index: usize,
    services: Vec<u128>,
    characteristics: Vec<Characteristic>,
)
    requires
        !services@.contains(SERIAL_SERVICE_UUID) || !services@.contains(CONFIG_SERVICE_UUID),
    ensures
        connect_step_after(
            ConnectStep::ReadServices { index },
            device_name,
            ConnectReply::Services { services, characteristics },
        ) == ConnectStep::Failed(BleError::IncompleteDevice),
{
}

/// A device is chosen only after it has given exactly the wanted name, and a
/// connection is reported only after the device has listed both required
/// services; the client then holds the characteristics that it listed with
/// them.
pub proof fn theorem_connection_is_validated(device_name: Seq<char>, replies: Seq<ConnectReply>)
    ensures
        has_chosen(connect_run(device_name, replies)) ==> exists|k: int|
            0 <= k < replies.len() && names(#[trigger] replies[k], device_name),
        connect_run(device_name, replies) matches ConnectStep::Connected(client) ==> exists|k: int|
            0 <= k < replies.len() && validates(#[trigger] replies[k], client),
    decreases replies.len(),
{
    if replies.len() > 0 {
        let earlier = replies.drop_last();
        theorem_connection_is_validated(device_name, earlier);
        let before = connect_run(device_name, earlier);
        if has_chosen(before) {
            let k = choose|k: int|
                0 <= k < earlier.len() && names(#[trigger] earlier[k], device_name);
            assert(names(replies[k], device_name));
        }
        if let ConnectStep::Connected(client) = before {
            let k = choose|k: int|
                0 <= k < earlier.len() && validates(#[trigger] earlier[k], client);
            assert(validates(replies[k], client));
        }
    }
}

/// At most one index is the first with a given identifier.
pub proof fn lemma_first_with_unique(characteristics: Seq<Characteristic>, uuid: u128, i: int)
    requires
        is_first_with(characteristics, uuid, i),
    ensures
        first_with(characteristics, uuid) == Some(i),
{
    let chosen = choose|k: int| is_first_with(characteristics, uuid, k);
    assert(chosen == i);
}

/// The index of the first of `characteristics` that has the identifier `uuid`.
fn find(characteristics: &Vec<Characteristic>, uuid: u128) -> (found: Option<usize>)
    ensures
        match found {
            Some(i) => first_with(characteristics@, uuid) == Some(i as int),
            None => first_with(characteristics@, uuid) is None,
        },
{
    let mut i: usize = 0;
    while i < characteristics.len()
        invariant
            i <= characteristics.len(),
            forall|j: int| 0 <= j < i ==> (#[trigger] characteristics@[j]).uuid != uuid,
        decreases characteristics.len() - i,
    {
        if characteristics[i].uuid == uuid {
            proof {
                lemma_first_with_unique(characteristics@, uuid, i as int);
            }
            return Some(i);
        }
        i += 1;
    }
    None
}

/// Whether `wanted` is among `services`.
fn has_service(services: &Vec<u128>, wanted: u128) -> (found: bool)
    ensures
        found == services@.contains(wanted),
{
    let mut i: usize = 0;
    while i < services.len()
        invariant
            i <= services.len(),
            forall|j: int| 0 <= j < i ==> services@[j] != wanted,
        decreases services.len() - i,
    {
        if services[i] == wanted {
            return true;
        }
        i += 1;
    }
    false
}

/// Whether the device advertises exactly the wanted name.
fn name_matches(name: &Option<String>, device_name: &str) -> (same: bool)
    ensures
        same == (name is Some && name->0@ == device_name@),
{
    match name {
        Some(advertised) => {
            let wanted = String::from_str(device_name);
            *advertised == wanted
        },
        None => false,
    }
}

/// Reads the payload of a notification as text. A payload that is not valid
/// UTF-8 is dropped.
pub fn decode_notification(payload: Vec<u8>) -> (text: Option<String>)
    ensures
        text is Some <==> valid_utf8(payload@),
        text matches Some(decoded) ==> encode_utf8(decoded@) == payload@,
{
    string_from_utf8(payload)
}

impl BleError {
    /// The text of the error as it is shown to the operator. `device_name` is
    /// the name that was looked for.
    pub open spec fn text(self, device_name: Seq<char>) -> Seq<char> {
        match self {
            BleError::AdapterUnavailable => "No BLE adapter found"@,
            BleError::DeviceNotFound => "Device '"@ + device_name + "' not found"@,
            BleError::IncompleteDevice => "Required services not found on device"@,
            BleError::NotReady => "Config characteristic not found"@,
            BleError::TelemetryMissing => "TX characteristic not found"@,
            BleError::StatusMissing => "Status characteristic not found"@,
        }
    }

    /// The text of the error as it is shown to the operator.
    pub fn message(&self, device_name: &str) -> (shown: String)
        ensures
            shown@ == self.text(device_name@),
    {
        match self {
            BleError::AdapterUnavailable => String::from_str("No BLE adapter found"),
            BleError::DeviceNotFound => {
                let mut shown = String::from_str("Device '");
                shown.append(device_name);
                shown.append("' not found");
                shown
            },
            BleError::IncompleteDevice => String::from_str("Required services not found on device"),
            BleError::NotReady => String::from_str("Config characteristic not found"),
            BleError::TelemetryMissing => String::from_str("TX characteristic not found"),
            BleError::StatusMissing => String::from_str("Status characteristic not found"),
        }
    }
}

impl BleClient {
    /// The step with which connecting starts.
    pub fn start_connect() -> (step: ConnectStep)
        ensures
            step == ConnectStep::ListAdapters,
    {
        ConnectStep::ListAdapters
    }

    /// Takes the caller's answer to `step` on the way to the device that
    /// advertises `device_name`, and returns the next step.
    pub fn connect(device_name: &str, step: ConnectStep, reply: ConnectReply) -> (next:
        ConnectStep)
        ensures
            next == connect_step_after(step, device_name@, reply),
    {
        match step {
            ConnectStep::Connected(client) => ConnectStep::Connected(client),
            ConnectStep::Failed(error) => ConnectStep::Failed(error),
            ConnectStep::Aborted => ConnectStep::Aborted,
            ConnectStep::ListAdapters => match reply {
                ConnectReply::Adapters { count } => if count > 0 {
                    ConnectStep::StartScan { adapter: 0 }
                } else {
                    ConnectStep::Failed(BleError::AdapterUnavailable)
                },
                _ => ConnectStep::Aborted,
            },
            ConnectStep::StartScan { .. } => match reply {
                ConnectReply::Done => ConnectStep::Wait { seconds: SCAN_SECONDS },
                _ => ConnectStep::Aborted,
            },
            ConnectStep::Wait { .. } => match reply {
                ConnectReply::Done => ConnectStep::ListPeripherals,
                _ => ConnectStep::Aborted,
            },
            ConnectStep::ListPeripherals => match reply {
                ConnectReply::Peripherals { count } => if count > 0 {
                    ConnectStep::ReadName { index: 0, count }
                } else {
                    ConnectStep::Failed(BleError::DeviceNotFound)
                },
                _ => ConnectStep::Aborted,
            },
            ConnectStep::ReadName { index, count } => match reply {
                ConnectReply::Name(name) => if name_matches(&name, device_name) {
                    ConnectStep::StopScan { index }
                } else if index < count && index + 1 < count {
                    ConnectStep::ReadName { index: index + 1, count }
                } else {
                    ConnectStep::Failed(BleError::DeviceNotFound)
                },
                _ => ConnectStep::Aborted,
            },
            ConnectStep::StopScan { index } => match reply {
                ConnectReply::Done => ConnectStep::Connect { index },
                _ => ConnectStep::Aborted,
            },
            ConnectStep::Connect { index } => match reply {
                ConnectReply::Done => ConnectStep::DiscoverServices { index },
                _ => ConnectStep::Aborted,
            },
            ConnectStep::DiscoverServices { index } => match reply {
                ConnectReply::Done => ConnectStep::ReadServices { index },
                _ => ConnectStep::Aborted,
            },
            ConnectStep::ReadServices { index } => match reply {
                ConnectReply::Services { services, characteristics } => {
                    let has_serial = has_service(&services, SERIAL_SERVICE_UUID);
                    let has_config = has_service(&services, CONFIG_SERVICE_UUID);
                    if !has_serial || !has_config {
                        ConnectStep::Failed(BleError::IncompleteDevice)
                    } else {
                        ConnectStep::Connected(BleClient { peripheral: index, characteristics })
                    }
                },
                _ => ConnectStep::Aborted,
            },
        }
    }

    /// What to write to the device for `command`: the command without the
    /// white space at its ends, to the first configuration characteristic,
    /// with no answer awaited. Without such a characteristic the device is
    /// not ready.
    pub fn send_config_command(&self, command: &str) -> (request: Result<ConfigWrite, BleError>)
        ensures
            match first_with(self.characteristics@, CHARACTERISTIC_UUID_CONFIG) {
                Some(i) => request matches Ok(write) && write.characteristic == i
                    && write.payload@ == trimmed(command@) && !write.with_response,
                None => request == Err::<ConfigWrite, BleError>(BleError::NotReady),
            },
    {
        match find(&self.characteristics, CHARACTERISTIC_UUID_CONFIG) {
            Some(characteristic) => Ok(
                ConfigWrite {
                    characteristic,
                    payload: trim(command).to_owned(),
                    with_response: false,
                },
            ),
            None => Err(BleError::NotReady),
        }
    }

    /// The steps of subscribing to the telemetry and the status of the
    /// device, in order.
    pub fn subscribe_to_data(&self) -> (plan: Vec<SubscribeStep>)
        ensures
            plan@ == subscription_plan(self.characteristics@),
    {
        let mut plan: Vec<SubscribeStep> = Vec::new();
        match find(&self.characteristics, CHARACTERISTIC_UUID_TX) {
            None => {
                plan.push(SubscribeStep::Fail(BleError::TelemetryMissing));
            },
            Some(tx) => {
                if self.characteristics[tx].notify {
                    plan.push(SubscribeStep::Enable { characteristic: tx });
                }
                match find(&self.characteristics, CHARACTERISTIC_UUID_STATUS) {
                    None => {
                        plan.push(SubscribeStep::Fail(BleError::StatusMissing));
                    },
                    Some(status) => {
                        if self.characteristics[status].notify {
                            plan.push(SubscribeStep::Enable { characteristic: status });
                        }
                        plan.push(SubscribeStep::Listen);
                    },
                }
            },
        }
        plan
    }

    /// Whether the device counts as connected, given what asking it came to:
    /// its answer, or none where asking failed. A device that cannot be asked
    /// counts as disconnected.
    pub fn is_connected(&self, answer: Option<bool>) -> (connected: bool)
        ensures
            connected == (answer == Some(true)),
    {
        match answer {
            Some(connected) => connected,
            None => false,
        }
    }
}

} // verus!
