//! The command vocabulary of the two instruments, and command framing.
//!
//! The current source (CLD1015) takes SCPI commands; the power meter (MPM210H)
//! takes its own short commands. Both expect each command terminated by a
//! newline.

use vstd::prelude::*;
use vstd::string::*;

use crate::text::{decimal, dec, fixed_point, fixed_point_text};

verus! {

/// Identification query, understood by both instruments.
pub const IDN_QUERY: &'static str = "*IDN?";

/// Current source: state of the thermoelectric cooler output.
pub const TEC_STATE_QUERY: &'static str = "OUTPut2:STATe?";

/// Current source: selects constant-current operation.
pub const CURRENT_MODE_COMMAND: &'static str = "SOURce:FUNCtion:MODE CURRent";

/// Current source: the current setpoint, in amperes.
pub const CURRENT_QUERY: &'static str = "SOURce:CURRent:LEVel:IMMediate:AMPLitude?";

/// Current source: state of the laser output.
pub const LASER_OUTPUT_QUERY: &'static str = "OUTPut:STATe?";

/// Current source: the oldest entry of the error queue.
pub const CLD_ERROR_QUERY: &'static str = "SYSTem:ERRor?";

/// Power meter: the mask of recognised modules.
pub const MODULES_QUERY: &'static str = "IDIS?";

/// Power meter: the calibration wavelength, in nanometres.
pub const WAVELENGTH_QUERY: &'static str = "WAV?";

/// Power meter: the oldest entry of the error queue.
pub const MPM_ERROR_QUERY: &'static str = "ERR?";

/// Power meter: offset zeroing of all modules.
pub const ZERO_COMMAND: &'static str = "ZERO";

/// The text of the command that sets the current setpoint to `micro_amps`
/// microamperes; the instrument takes amperes.
pub open spec fn set_current_text(micro_amps: int) -> Seq<char> {
    "SOURce:CURRent:LEVel:IMMediate:AMPLitude "@ + fixed_point_text(micro_amps, 6)
}

/// The text of the command that switches the laser output on or off.
pub open spec fn laser_output_text(enabled: bool) -> Seq<char> {
    if enabled {
        "OUTPut:STATe ON"@
    } else {
        "OUTPut:STATe OFF"@
    }
}

/// The text of the command that switches the thermoelectric cooler on or off.
pub open spec fn tec_output_text(enabled: bool) -> Seq<char> {
    if enabled {
        "OUTPut2:STATe ON"@
    } else {
        "OUTPut2:STATe OFF"@
    }
}

/// The text of the query for the power reading of one module.
pub open spec fn read_power_text(module: nat) -> Seq<char> {
    "READ? "@ + dec(module)
}

/// The text of the command that sets the calibration wavelength.
pub open spec fn set_wavelength_text(nanometres: nat) -> Seq<char> {
    "WAV "@ + dec(nanometres)
}

/// Current source: sets the current setpoint, given in microamperes.
pub fn set_current_command(micro_amps: i64) -> (r: String)
    ensures
        r@ == set_current_text(micro_amps as int),
{
    String::from_str("SOURce:CURRent:LEVel:IMMediate:AMPLitude ").concat(
        fixed_point(micro_amps, 6).as_str(),
    )
}

/// Current source: switches the laser output on or off.
pub fn laser_output_command(enabled: bool) -> (r: String)
    ensures
        r@ == laser_output_text(enabled),
{
    if enabled {
        String::from_str("OUTPut:STATe ON")
    } else {
        String::from_str("OUTPut:STATe OFF")
    }
}

/// Current source: switches the thermoelectric cooler on or off.
pub fn tec_output_command(enabled: bool) -> (r: String)
    ensures
        r@ == tec_output_text(enabled),
{
    if enabled {
        String::from_str("OUTPut2:STATe ON")
    } else {
        String::from_str("OUTPut2:STATe OFF")
    }
}

/// Power meter: queries the reading of one module.
pub fn read_power_command(module: u8) -> (r: String)
    ensures
        r@ == read_power_text(module as nat),
{
    String::from_str("READ? ").concat(decimal(module as u64).as_str())
}

/// Power meter: sets the calibration wavelength in nanometres.
pub fn set_wavelength_command(nanometres: u32) -> (r: String)
    ensures
        r@ == set_wavelength_text(nanometres as nat),
{
    String::from_str("WAV ").concat(decimal(nanometres as u64).as_str())
}

/// The `host:port` text of a socket address.
pub fn socket_address(host: &str, port: u16) -> (r: String)
    ensures
        r@ == host@ + ":"@ + dec(port as nat),
{
    String::from_str(host).concat(":").concat(decimal(port as u64).as_str())
}

/// The bytes put on the wire for a command: its text and a newline.
pub fn frame_command(command: &str) -> (r: String)
    ensures
        r@ == command@ + "\n"@,
{
    String::from_str(command).concat("\n")
}

} // verus!
