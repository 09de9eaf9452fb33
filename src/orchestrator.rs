use vstd::prelude::*;
use crate::protocol::RESULT_ARGUMENT;
use crate::report::{RazerReport, ReportStatus, ReportView};

verus! {

/// What the program shows.
#[derive(Clone, Copy, Debug, PartialEq, Eq, Structural)]
pub enum BatteryReading {
    /// No device, or the device did not answer in time.
    Unavailable,
    /// The charge in percent, and whether the mouse is charging.
    Level { percent: u8, charging: bool },
}

/// The raw battery byte, from 0 to 255, scaled to a percentage with the
/// fraction discarded.
pub open spec fn percent_spec(raw: u8) -> int {
    raw * 100 / 255
}

/// The reading that a battery response and a charging response give.
pub open spec fn reading_spec(battery: ReportView, charging: ReportView) -> BatteryReading {
    if battery.status == ReportStatus::Timeout || charging.status == ReportStatus::Timeout {
        BatteryReading::Unavailable
    } else {
        BatteryReading::Level {
            percent: percent_spec(battery.arguments[RESULT_ARGUMENT as int]) as u8,
            charging: charging.arguments[RESULT_ARGUMENT as int] == 1,
        }
    }
}

/// Scales a raw battery byte to a percentage.
pub fn battery_percent(raw: u8) -> (p: u8)
    ensures
        p == percent_spec(raw),
        p <= 100,
{
    ((raw as u16) * 100 / 255) as u8
}

/// The mouse charges exactly when the charging byte is 1.
pub fn is_charging(raw: u8) -> (r: bool)
    ensures
        r == (raw == 1),
{
    raw == 1
}

impl RazerReport {
    /// The raw battery level in a battery response: argument byte 1.
    pub fn battery_raw(&self) -> (r: u8)
        requires
            self.wf(),
        ensures
            r == self@.arguments[RESULT_ARGUMENT as int],
    {
        self.arguments[RESULT_ARGUMENT]
    }

    /// The raw charging flag in a charging response: argument byte 1.
    pub fn charging_raw(&self) -> (r: u8)
        requires
            self.wf(),
        ensures
            r == self@.arguments[RESULT_ARGUMENT as int],
    {
        self.arguments[RESULT_ARGUMENT]
    }
}

/// Combines the responses of the battery and the charging commands.
pub fn interpret(battery: &RazerReport, charging: &RazerReport) -> (r: BatteryReading)
    requires
        battery.wf(),
        charging.wf(),
    ensures
        r == reading_spec(battery@, charging@),
        (r == BatteryReading::Unavailable) <==> (battery.status == ReportStatus::Timeout
            || charging.status == ReportStatus::Timeout),
{
    if battery.status == ReportStatus::Timeout || charging.status == ReportStatus::Timeout {
        return BatteryReading::Unavailable;
    }
    BatteryReading::Level {
        percent: battery_percent(battery.battery_raw()),
        charging: is_charging(charging.charging_raw()),
    }
}

/// The decimal digits of a number, in ASCII.
pub open spec fn decimal(n: nat) -> Seq<u8>
    decreases n,
{
    if n < 10 {
        seq![(48 + n) as u8]
    } else {
        decimal(n / 10) + seq![(48 + n % 10) as u8]
    }
}

/// The UTF-8 text shown for a reading: "N/A", or the percentage and a "%",
/// followed by " ⚡" while charging.
pub open spec fn render_spec(reading: BatteryReading) -> Seq<u8> {
    match reading {
        BatteryReading::Unavailable => seq![78u8, 47u8, 65u8],
        BatteryReading::Level { percent, charging } => decimal(percent as nat) + seq![37u8] + (
        if charging {
            seq![32u8, 0xE2u8, 0x9Au8, 0xA1u8]
        } else {
            Seq::empty()
        }),
    }
}

/// Writes the text of a reading as UTF-8 bytes.
pub fn render(reading: BatteryReading) -> (r: Vec<u8>)
    ensures
        r@ == render_spec(reading),
{
    let mut out: Vec<u8> = Vec::new();
    match reading {
        BatteryReading::Unavailable => {
            out.push(78u8);
            out.push(47u8);
            out.push(65u8);
            assert(out@ =~= render_spec(reading));
        },
        BatteryReading::Level { percent, charging } => {
            proof {
                reveal_with_fuel(decimal, 3);
            }
            if percent >= 100 {
                out.push(48 + percent / 100);
                out.push(48 + percent / 10 % 10);
                out.push(48 + percent % 10);
                assert((percent / 10) as nat / 10 == percent / 100);
            } else if percent >= 10 {
                out.push(48 + percent / 10);
                out.push(48 + percent % 10);
            } else {
                out.push(48 + percent);
            }
            assert(out@ =~= decimal(percent as nat));
            out.push(37u8);
            if charging {
                out.push(32u8);
                out.push(0xE2u8);
                out.push(0x9Au8);
                out.push(0xA1u8);
            }
            assert(out@ =~= render_spec(reading));
        },
    }
    out
}

} // verus!
