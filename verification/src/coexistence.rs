use vstd::prelude::*;
use vstd::string::StringSliceAdditionalSpecFns;

use crate::text::{hex_field, push_hex_field, push_str};

verus! {

/// The BLE advertising data: flags (LE general discoverable, no BR/EDR) and
/// the complete local name `HISICOEX`.
pub const BLE_ADVERTISING_DATA: [u8; 13] = [2, 0x01, 0x06, 9, 0x09, 72, 73, 83, 73, 67, 79, 69, 88];

/// The SLE server's local address type.
pub const SLE_SERVER_ADDRESS_TYPE: u8 = 0;

/// The SLE server's local address.
pub const SLE_SERVER_ADDRESS: [u8; 6] = [0x11, 0x22, 0x33, 0x44, 0x55, 0x66];

/// The SLE announce data.
pub const SLE_ANNOUNCE_DATA: [u8; 7] = [1, 1, 1, 3, 2, 0x0b, 0x06];

/// The SLE seek-response data: the local name `HISISLE2`.
pub const SLE_SEEK_RESPONSE_DATA: [u8; 10] = [5, 8, 72, 73, 83, 73, 83, 76, 69, 50];

/// The radio's connection-state code for a connected SLE link.
pub const CONNECTION_STATE_CONNECTED: u32 = 1;

/// The BLE server events the SoftAP's coexistence service reacts to.
#[derive(Clone, Copy, Debug, PartialEq, Eq, Structural)]
pub enum BleServerEvent {
    Enabled { status: u32 },
    AdvertisingData { status: u32 },
    AdvertisingParameters { status: u32 },
    AdvertisingState { status: u32 },
    ConnectionState { connected: bool },
    /// Any other event.
    Other,
}

/// The SLE server events the SoftAP's coexistence service reacts to.
#[derive(Clone, Copy, Debug, PartialEq, Eq, Structural)]
pub enum SleServerEvent {
    Enabled { status: u32 },
    AnnounceEnabled { status: u32 },
    ConnectionStateChanged { connection_state: u32 },
    /// Any other event.
    Other,
}

/// What the coexistence service does about one event.
#[derive(Clone, Copy, Debug, PartialEq, Eq, Structural)]
pub enum CoexAction {
    /// Start advertising (BLE) or announcing (SLE), and remember that it started.
    StartServing,
    /// Report that the server is visible.
    ReportReady,
    /// Report that a client connected.
    ReportConnected,
    /// Report the status and stop: the radio refused a step.
    Fail { status: u32 },
    /// Nothing to do.
    Ignore,
}

/// The BLE server policy: start advertising on the first successful enable;
/// report advertising at status 1 and connections; any other enable or
/// advertising outcome is a failure.
pub open spec fn spec_ble_server_action(started: bool, event: BleServerEvent) -> CoexAction {
    match event {
        BleServerEvent::Enabled { status } => if status == 0 && !started {
            CoexAction::StartServing
        } else {
            CoexAction::Fail { status }
        },
        BleServerEvent::AdvertisingState { status } => if status == 1 {
            CoexAction::ReportReady
        } else {
            CoexAction::Fail { status }
        },
        BleServerEvent::ConnectionState { connected } => if connected {
            CoexAction::ReportConnected
        } else {
            CoexAction::Ignore
        },
        BleServerEvent::AdvertisingData { status } => CoexAction::Fail { status },
        BleServerEvent::AdvertisingParameters { status } => CoexAction::Fail { status },
        BleServerEvent::Other => CoexAction::Ignore,
    }
}

/// Decide what the BLE server does about `event`; `started` tells whether
/// advertising was already started.
pub fn ble_server_action(started: bool, event: BleServerEvent) -> (action: CoexAction)
    ensures
        action == spec_ble_server_action(started, event),
{
    match event {
        BleServerEvent::Enabled { status: 0 } if !started => CoexAction::StartServing,
        BleServerEvent::AdvertisingState { status: 1 } => CoexAction::ReportReady,
        BleServerEvent::ConnectionState { connected: true } => CoexAction::ReportConnected,
        BleServerEvent::Enabled { status }
        | BleServerEvent::AdvertisingData { status }
        | BleServerEvent::AdvertisingParameters { status }
        | BleServerEvent::AdvertisingState { status } => CoexAction::Fail { status },
        _ => CoexAction::Ignore,
    }
}

/// The SLE server policy: start announcing on the first successful enable;
/// report a successful announce and connections; any other enable or announce
/// outcome is a failure.
pub open spec fn spec_sle_server_action(started: bool, event: SleServerEvent) -> CoexAction {
    match event {
        SleServerEvent::Enabled { status } => if status == 0 && !started {
            CoexAction::StartServing
        } else {
            CoexAction::Fail { status }
        },
        SleServerEvent::AnnounceEnabled { status } => if status == 0 {
            CoexAction::ReportReady
        } else {
            CoexAction::Fail { status }
        },
        SleServerEvent::ConnectionStateChanged { connection_state } => if connection_state == CONNECTION_STATE_CONNECTED {
            CoexAction::ReportConnected
        } else {
            CoexAction::Ignore
        },
        SleServerEvent::Other => CoexAction::Ignore,
    }
}

/// Decide what the SLE server does about `event`; `started` tells whether
/// announcing was already started.
pub fn sle_server_action(started: bool, event: SleServerEvent) -> (action: CoexAction)
    ensures
        action == spec_sle_server_action(started, event),
{
    match event {
        SleServerEvent::Enabled { status: 0 } if !started => CoexAction::StartServing,
        SleServerEvent::AnnounceEnabled { status: 0 } => CoexAction::ReportReady,
        SleServerEvent::ConnectionStateChanged { connection_state } => {
            if connection_state == CONNECTION_STATE_CONNECTED {
                CoexAction::ReportConnected
            } else {
                CoexAction::Ignore
            }
        },
        SleServerEvent::Enabled { status } | SleServerEvent::AnnounceEnabled { status } => {
            CoexAction::Fail { status }
        },
        _ => CoexAction::Ignore,
    }
}

/// The two coexistence servers.
#[derive(Clone, Copy, Debug, PartialEq, Eq, Structural)]
pub enum CoexRadio {
    Ble,
    Sle,
}

/// The prefix of every report line of `radio`'s server.
pub open spec fn coex_prefix(radio: CoexRadio) -> Seq<u8> {
    match radio {
        CoexRadio::Ble => "RFDBG_COEX_BLE_SERVER_".spec_bytes(),
        CoexRadio::Sle => "RFDBG_COEX_SLE_SERVER_".spec_bytes(),
    }
}

fn push_coex_prefix(out: &mut Vec<u8>, radio: CoexRadio)
    ensures
        final(out)@ == old(out)@ + coex_prefix(radio),
{
    match radio {
        CoexRadio::Ble => push_str(out, "RFDBG_COEX_BLE_SERVER_"),
        CoexRadio::Sle => push_str(out, "RFDBG_COEX_SLE_SERVER_"),
    }
}

/// `s` followed by the line that reports `action` of `radio`'s server: ready,
/// connected, or the failing status; starting and ignoring print nothing.
pub open spec fn append_coex_report(s: Seq<u8>, radio: CoexRadio, action: CoexAction) -> Seq<u8> {
    match action {
        CoexAction::ReportReady => s + coex_prefix(radio) + "READY\r\n".spec_bytes(),
        CoexAction::ReportConnected => s + coex_prefix(radio) + "CONNECTED\r\n".spec_bytes(),
        CoexAction::Fail { status } => s + coex_prefix(radio) + hex_field("ERR status=0x", status)
            + "\r\n".spec_bytes(),
        _ => s,
    }
}

/// Append the line that reports `action` of `radio`'s server, if it has one.
pub fn write_coex_report(out: &mut Vec<u8>, radio: CoexRadio, action: CoexAction)
    ensures
        final(out)@ == append_coex_report(old(out)@, radio, action),
{
    match action {
        CoexAction::ReportReady => {
            push_coex_prefix(out, radio);
            push_str(out, "READY\r\n");
        },
        CoexAction::ReportConnected => {
            push_coex_prefix(out, radio);
            push_str(out, "CONNECTED\r\n");
        },
        CoexAction::Fail { status } => {
            push_coex_prefix(out, radio);
            push_hex_field(out, "ERR status=0x", status);
            push_str(out, "\r\n");
        },
        _ => {},
    }
}

/// Append the line that reports that `radio`'s server lost events.
pub fn write_coex_events_dropped(out: &mut Vec<u8>, radio: CoexRadio)
    ensures
        final(out)@ == old(out)@ + coex_prefix(radio) + "EVENT_DROP\r\n".spec_bytes(),
{
    push_coex_prefix(out, radio);
    push_str(out, "EVENT_DROP\r\n");
}

/// Advertising or announcing is started at most once: once started, an
/// enable event is never answered by starting again.
pub proof fn lemma_serving_starts_once(ble: BleServerEvent, sle: SleServerEvent)
    ensures
        spec_ble_server_action(true, ble) != CoexAction::StartServing,
        spec_sle_server_action(true, sle) != CoexAction::StartServing,
{
}

} // verus!
