use vstd::prelude::*;

verus! {

/// Razer's USB vendor identifier.
pub const RAZER_VID: u16 = 0x1532;

/// Product identifier of the mouse on a cable.
pub const PID_BASILISK_V3_WIRED: u16 = 0x00AA;

/// Product identifier of the mouse through its wireless dongle.
pub const PID_BASILISK_V3_WIRELESS: u16 = 0x00AB;

/// The HID interface that answers the feature reports.
pub const DEVICE_INTERFACE: i32 = 0;

/// The report index byte that leads every feature report buffer.
pub const REPORT_INDEX: u8 = 0x00;

/// Command class of the miscellaneous commands (battery, charging).
pub const COMMAND_CLASS_MISC: u8 = 0x07;

/// The transaction id put in every request of a run.
pub const TRANSACTION_ID: u8 = 0x1F;

/// Size of a report structure.
pub const REPORT_SIZE: usize = 90;

/// Size of a feature report on the wire: the report index, then the report.
pub const WIRE_SIZE: usize = 91;

/// Number of argument bytes in a report.
pub const ARGUMENTS_SIZE: usize = 80;

/// Delay between sending a request and reading its response, in milliseconds.
pub const SETTLE_MILLIS: u64 = 50;

/// Offset within the response arguments of the result byte of both commands.
pub const RESULT_ARGUMENT: usize = 1;

/// The two commands this program issues.
#[derive(Clone, Copy, Debug, PartialEq, Eq, Structural)]
pub enum RazerCommand {
    GetBattery,
    GetChargingStatus,
}

impl RazerCommand {
    pub open spec fn id_spec(self) -> u8 {
        match self {
            RazerCommand::GetBattery => 0x80,
            RazerCommand::GetChargingStatus => 0x84,
        }
    }

    /// The command id byte of the command.
    pub fn id(self) -> (r: u8)
        ensures
            r == self.id_spec(),
    {
        match self {
            RazerCommand::GetBattery => 0x80,
            RazerCommand::GetChargingStatus => 0x84,
        }
    }
}

} // verus!
