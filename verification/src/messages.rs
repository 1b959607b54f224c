//! The user-visible text of the program: the notification body, the two
//! standard-output lines, and one diagnostic line per failure.

use vstd::prelude::*;
use vstd::string::StringExecFns;

use crate::extract::ExtractedReading;
use crate::status::BatteryError;

verus! {

/// The notification body: `🔋 <percentage>% (<time>)`.
pub fn notification_message(reading: &ExtractedReading) -> (m: String)
    ensures
        m@ == "🔋 "@ + reading.percentage@ + "% ("@ + reading.remaining@ + ")"@,
{
    let m = "🔋 ".to_owned();
    let m = m.concat(reading.percentage.as_str());
    let m = m.concat("% (");
    let m = m.concat(reading.remaining.as_str());
    m.concat(")")
}

/// The first line printed on success: `Battery Percentage: <percentage>%`.
pub fn percentage_line(reading: &ExtractedReading) -> (m: String)
    ensures
        m@ == "Battery Percentage: "@ + reading.percentage@ + "%"@,
{
    let m = "Battery Percentage: ".to_owned();
    let m = m.concat(reading.percentage.as_str());
    m.concat("%")
}

/// The second line printed on success: `Time Remaining: <time>`.
pub fn time_line(reading: &ExtractedReading) -> (m: String)
    ensures
        m@ == "Time Remaining: "@ + reading.remaining@,
{
    let m = "Time Remaining: ".to_owned();
    m.concat(reading.remaining.as_str())
}

impl BatteryError {
    /// The diagnostic line for this failure, exactly as the program prints it
    /// on its error stream.
    pub fn message(&self) -> (m: String)
        ensures
            (match self {
                BatteryError::ToolMissing(tool, package) => m@ == "Error: '"@ + tool@
                    + "' command not found. Please install "@ + package@ + " package."@,
                BatteryError::StartFailed(detail) => m@ == "Failed to execute `acpi` command: "@
                    + detail@,
                BatteryError::CommandFailed(detail) => m@ == "acpi command failed: "@ + detail@,
                BatteryError::NoBatteryInfo => m@ == "No battery information found."@,
                BatteryError::ParseFailed => m@ == "Failed to parse battery info."@,
                BatteryError::NotifyFailed(detail) => m@ == "Failed to send notification: "@
                    + detail@,
            }),
    {
        match self {
            BatteryError::ToolMissing(tool, package) => {
                let m = "Error: '".to_owned();
                let m = m.concat(tool.as_str());
                let m = m.concat("' command not found. Please install ");
                let m = m.concat(package.as_str());
                m.concat(" package.")
            },
            BatteryError::StartFailed(detail) => {
                let m = "Failed to execute `acpi` command: ".to_owned();
                m.concat(detail.as_str())
            },
            BatteryError::CommandFailed(detail) => {
                let m = "acpi command failed: ".to_owned();
                m.concat(detail.as_str())
            },
            BatteryError::NoBatteryInfo => "No battery information found.".to_owned(),
            BatteryError::ParseFailed => "Failed to parse battery info.".to_owned(),
            BatteryError::NotifyFailed(detail) => {
                let m = "Failed to send notification: ".to_owned();
                m.concat(detail.as_str())
            },
        }
    }
}

} // verus!
