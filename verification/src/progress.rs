use vstd::prelude::*;
use vstd::string::StringSliceAdditionalSpecFns;

use crate::scan::Security;
use crate::text::{hex_field, push_hex_field, push_str};

verus! {

/// The milestones and failures the station image reports on its way from
/// boot to a connection.
#[derive(Clone, Copy, Debug, PartialEq, Eq, Structural)]
pub enum StationReport {
    /// The image started.
    Begin,
    /// The optional start delay began.
    StartDelayBegin,
    /// The optional start delay ended.
    StartDelayEnd,
    /// The scheduler runs and the radio is about to be set up.
    ImageOk,
    /// One step of the radio runner took this long.
    RunnerElapsed { elapsed_ms: u32 },
    /// Initialization did not finish in time.
    InitializeTimeout,
    /// Initialization finished, taking this long.
    InitializeOk { elapsed_ms: u32 },
    /// Station power save was switched off after association.
    PowerSaveOff,
    /// The vendor layer refused to switch power save off.
    PowerSaveVendorError { code: u32 },
    /// This target cannot switch power save off.
    PowerSaveUnsupported,
    /// A scan did not finish in time.
    ScanTimeout,
    /// No scan found the wanted network.
    NetworkNotFound,
    /// The passphrase is not valid ASCII of an allowed length.
    InvalidCredentials,
    /// The network's security does not fit the station's profile.
    SecurityMismatch,
    /// A connection attempt begins, after this many reconnects.
    ConnectBegin { reconnects: u32 },
    /// A connection attempt did not finish in time.
    ConnectTimeout,
    /// A connection was made, taking this long, after this many reconnects.
    ConnectOk { elapsed_ms: u32, reconnects: u32 },
    /// The WPA2 profile connected.
    Wpa2Connected,
    /// The WPA3 profile connected to a network of this security.
    Wpa3Connected { security: Security },
    /// No radio event came in time.
    EventTimeout,
}

/// The text of one station report.
pub open spec fn station_report_text(report: StationReport) -> Seq<u8> {
    match report {
        StationReport::Begin => "\r\nRFDBG_CONNECTIVITY_BEGIN facade=hisi-rf\r\n".spec_bytes(),
        StationReport::StartDelayBegin => "RFDBG_HIL_START_DELAY_BEGIN\r\n".spec_bytes(),
        StationReport::StartDelayEnd => "RFDBG_HIL_START_DELAY_END\r\n".spec_bytes(),
        StationReport::ImageOk => "RF1_IMAGE_OK\r\n".spec_bytes(),
        StationReport::RunnerElapsed { elapsed_ms } => hex_field(
            "RFDBG_A5B_RUNNER_ELAPSED_MS value=0x",
            elapsed_ms,
        ) + "\r\n".spec_bytes(),
        StationReport::InitializeTimeout => "RF2_INIT_ERR:timeout\r\n".spec_bytes(),
        StationReport::InitializeOk { elapsed_ms } => hex_field(
            "RFDBG_A5B_INITIALIZE_OK elapsed_ms=0x",
            elapsed_ms,
        ) + "\r\n".spec_bytes() + "RF2_INIT_OK ifname=hisi-rf\r\n".spec_bytes(),
        StationReport::PowerSaveOff => "RFDBG_STA_PM_DIAG phase=post-association mode=off status=ok\r\n".spec_bytes(),
        StationReport::PowerSaveVendorError { code } => hex_field(
            "RFDBG_STA_PM_DIAG phase=post-association mode=off status=vendor-error code=0x",
            code,
        ) + "\r\n".spec_bytes(),
        StationReport::PowerSaveUnsupported => "RFDBG_STA_PM_DIAG phase=post-association mode=off status=unsupported-target\r\n".spec_bytes(),
        StationReport::ScanTimeout => "RF3_SCAN_ERR reason=outer_timeout\r\n".spec_bytes(),
        StationReport::NetworkNotFound => "RF5B_AP_NOT_FOUND\r\n".spec_bytes(),
        StationReport::InvalidCredentials => "RF5B_CONNECT_ERR:invalid_credentials\r\n".spec_bytes(),
        StationReport::SecurityMismatch => "RF5B_CONNECT_ERR:security_mismatch\r\n".spec_bytes(),
        StationReport::ConnectBegin { reconnects } => hex_field(
            "RF5B_CONNECT_BEGIN reconnect=0x",
            reconnects,
        ) + "\r\n".spec_bytes(),
        StationReport::ConnectTimeout => "RF5B_CONNECT_ERR:outer_timeout\r\n".spec_bytes(),
        StationReport::ConnectOk { elapsed_ms, reconnects } => hex_field(
            "RFDBG_A5B_CONNECT_OK elapsed_ms=0x",
            elapsed_ms,
        ) + hex_field(" reconnect=0x", reconnects) + "\r\n".spec_bytes(),
        StationReport::Wpa2Connected => "W2D_WPA2_CONNECT_OK\r\n".spec_bytes(),
        StationReport::Wpa3Connected { security } => "W2E_WPA3_CONNECT_OK pmf=required\r\n".spec_bytes()
            + wpa3_mode_line(security),
        StationReport::EventTimeout => "RFDBG_A4_EVENT_ERR reason=timeout\r\n".spec_bytes(),
    }
}

/// The line naming the access point's WPA3 mode: pure WPA3 or transition;
/// nothing for any other security.
pub open spec fn wpa3_mode_line(security: Security) -> Seq<u8> {
    match security {
        Security::Wpa3Personal => "W2E_AP_SECURITY mode=pure-wpa3\r\n".spec_bytes(),
        Security::Wpa2Wpa3PersonalTransition => "W2E_AP_SECURITY mode=transition\r\n".spec_bytes(),
        _ => Seq::empty(),
    }
}

fn push_wpa3_mode_line(out: &mut Vec<u8>, security: Security)
    ensures
        final(out)@ == old(out)@ + wpa3_mode_line(security),
{
    match security {
        Security::Wpa3Personal => push_str(out, "W2E_AP_SECURITY mode=pure-wpa3\r\n"),
        Security::Wpa2Wpa3PersonalTransition => push_str(out, "W2E_AP_SECURITY mode=transition\r\n"),
        _ => {
            assert(out@ =~= old(out)@ + wpa3_mode_line(security));
        },
    }
}

/// Append one station report.
pub fn write_station_report(out: &mut Vec<u8>, report: StationReport)
    ensures
        final(out)@ == old(out)@ + station_report_text(report),
{
    let ghost start = out@;
    match report {
        StationReport::Begin => push_str(out, "\r\nRFDBG_CONNECTIVITY_BEGIN facade=hisi-rf\r\n"),
        StationReport::StartDelayBegin => push_str(out, "RFDBG_HIL_START_DELAY_BEGIN\r\n"),
        StationReport::StartDelayEnd => push_str(out, "RFDBG_HIL_START_DELAY_END\r\n"),
        StationReport::ImageOk => push_str(out, "RF1_IMAGE_OK\r\n"),
        StationReport::RunnerElapsed { elapsed_ms } => {
            push_hex_field(out, "RFDBG_A5B_RUNNER_ELAPSED_MS value=0x", elapsed_ms);
            push_str(out, "\r\n");
        },
        StationReport::InitializeTimeout => push_str(out, "RF2_INIT_ERR:timeout\r\n"),
        StationReport::InitializeOk { elapsed_ms } => {
            push_hex_field(out, "RFDBG_A5B_INITIALIZE_OK elapsed_ms=0x", elapsed_ms);
            push_str(out, "\r\n");
            push_str(out, "RF2_INIT_OK ifname=hisi-rf\r\n");
            assert(out@ =~= start + station_report_text(report));
        },
        StationReport::PowerSaveOff => push_str(
            out,
            "RFDBG_STA_PM_DIAG phase=post-association mode=off status=ok\r\n",
        ),
        StationReport::PowerSaveVendorError { code } => {
            push_hex_field(
                out,
                "RFDBG_STA_PM_DIAG phase=post-association mode=off status=vendor-error code=0x",
                code,
            );
            push_str(out, "\r\n");
        },
        StationReport::PowerSaveUnsupported => push_str(
            out,
            "RFDBG_STA_PM_DIAG phase=post-association mode=off status=unsupported-target\r\n",
        ),
        StationReport::ScanTimeout => push_str(out, "RF3_SCAN_ERR reason=outer_timeout\r\n"),
        StationReport::NetworkNotFound => push_str(out, "RF5B_AP_NOT_FOUND\r\n"),
        StationReport::InvalidCredentials => push_str(out, "RF5B_CONNECT_ERR:invalid_credentials\r\n"),
        StationReport::SecurityMismatch => push_str(out, "RF5B_CONNECT_ERR:security_mismatch\r\n"),
        StationReport::ConnectBegin { reconnects } => {
            push_hex_field(out, "RF5B_CONNECT_BEGIN reconnect=0x", reconnects);
            push_str(out, "\r\n");
        },
        StationReport::ConnectTimeout => push_str(out, "RF5B_CONNECT_ERR:outer_timeout\r\n"),
        StationReport::ConnectOk { elapsed_ms, reconnects } => {
            push_hex_field(out, "RFDBG_A5B_CONNECT_OK elapsed_ms=0x", elapsed_ms);
            push_hex_field(out, " reconnect=0x", reconnects);
            push_str(out, "\r\n");
            assert(out@ =~= start + station_report_text(report));
        },
        StationReport::Wpa2Connected => push_str(out, "W2D_WPA2_CONNECT_OK\r\n"),
        StationReport::Wpa3Connected { security } => {
            push_str(out, "W2E_WPA3_CONNECT_OK pmf=required\r\n");
            push_wpa3_mode_line(out, security);
            assert(out@ =~= start + station_report_text(report));
        },
        StationReport::EventTimeout => push_str(out, "RFDBG_A4_EVENT_ERR reason=timeout\r\n"),
    }
}

/// The step of the connection sequence that a radio error is reported for.
#[derive(Clone, Copy, Debug, PartialEq, Eq, Structural)]
pub enum FailedStep {
    Initialize,
    Scan,
    Connect,
}

/// The prefix of the error line of a failed step.
pub open spec fn spec_failure_prefix(step: FailedStep) -> Seq<char> {
    match step {
        FailedStep::Initialize => "RF2_INIT_ERR:"@,
        FailedStep::Scan => "RF3_SCAN_ERR"@,
        FailedStep::Connect => "RF5B_CONNECT_ERR:"@,
    }
}

/// The prefix of the error line of a failed step.
pub fn failure_prefix(step: FailedStep) -> (prefix: &'static str)
    ensures
        prefix@ == spec_failure_prefix(step),
{
    match step {
        FailedStep::Initialize => "RF2_INIT_ERR:",
        FailedStep::Scan => "RF3_SCAN_ERR",
        FailedStep::Connect => "RF5B_CONNECT_ERR:",
    }
}

} // verus!
