use battery_notify::extract::ExtractedReading;
use battery_notify::messages::notification_message;
use battery_notify::messages::percentage_line;
use battery_notify::messages::time_line;
use battery_notify::status::BatteryError;

fn sample_reading() -> ExtractedReading {
    ExtractedReading { percentage: "75".to_string(), remaining: "02:30:45".to_string() }
}

#[test]
fn notification_body_is_emoji_percentage_and_time() {
    assert_eq!(notification_message(&sample_reading()), "🔋 75% (02:30:45)");
}

#[test]
fn stdout_lines_name_both_readings() {
    assert_eq!(percentage_line(&sample_reading()), "Battery Percentage: 75%");
    assert_eq!(time_line(&sample_reading()), "Time Remaining: 02:30:45");
}

#[test]
fn each_failure_has_its_diagnostic_line() {
    assert_eq!(
        BatteryError::ToolMissing("acpi".to_string(), "acpi".to_string()).message(),
        "Error: 'acpi' command not found. Please install acpi package."
    );
    assert_eq!(
        BatteryError::ToolMissing("notify-send".to_string(), "libnotify-bin".to_string()).message(),
        "Error: 'notify-send' command not found. Please install libnotify-bin package."
    );
    assert_eq!(
        BatteryError::StartFailed("permission denied".to_string()).message(),
        "Failed to execute `acpi` command: permission denied"
    );
    assert_eq!(
        BatteryError::CommandFailed("battery absent".to_string()).message(),
        "acpi command failed: battery absent"
    );
    assert_eq!(BatteryError::NoBatteryInfo.message(), "No battery information found.");
    assert_eq!(BatteryError::ParseFailed.message(), "Failed to parse battery info.");
    assert_eq!(
        BatteryError::NotifyFailed("spawn refused".to_string()).message(),
        "Failed to send notification: spawn refused"
    );
}
