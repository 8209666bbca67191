//! Control of a laser-diode current source and an optical power meter, and a
//! verified state machine for the current-sweep characterisation experiment.
//!
//! The library holds everything that decides or computes: the instrument
//! command vocabulary, the interpretation of instrument replies, the draining
//! of instrument error queues, the sweep sequencing with its safety rules, and
//! the encoding of measurement records. The byte transports themselves (a
//! message-bus session and a TCP socket) are driven by the host program.

pub mod command;
pub mod drain;
pub mod error;
pub mod record;
pub mod reply;
pub mod sweep;
pub mod text;

pub use command::{
    frame_command, laser_output_command, read_power_command, set_current_command,
    set_wavelength_command, socket_address, tec_output_command, CLD_ERROR_QUERY, CURRENT_MODE_COMMAND,
    CURRENT_QUERY, IDN_QUERY, LASER_OUTPUT_QUERY, MODULES_QUERY, MPM_ERROR_QUERY,
    TEC_STATE_QUERY, WAVELENGTH_QUERY, ZERO_COMMAND,
};
pub use drain::{DrainStatus, ErrorQueueDrain};
pub use error::MPM210HError;
pub use record::{encode_records, header_to_fields, record_to_fields, MeasurementRecord};
pub use reply::{contains, is_no_error_reply, parse_on_state, sentinel_parts};
pub use sweep::{
    SweepAction, SweepError, SweepEvent, SweepParameters, SweepPhase, SweepRun,
    OPERATING_WAVELENGTH_NM, ZEROING_SETTLE_MS,
};
pub use text::{decimal, fixed_point};
