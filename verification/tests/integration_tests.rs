use lock_4_me::errors::BluetoothError;
use lock_4_me::lock::{get_lock_screen_command, Platform};
use lock_4_me::monitor::{is_in_range, rssi_diff};
use lock_4_me::settings::Settings;
use lock_4_me::supervisor::{plan_monitoring, BluetoothListenerHandle};

#[test]
fn test_bluetooth_error_handling() {
    // A too-short identifier is rejected as a UUID parse error
    let bluetooth_error = plan_monitoring(Some("12345".to_string()), None)
        .expect_err("a short identifier must be rejected");

    match bluetooth_error {
        BluetoothError::UuidParse(_) => {
            let error_string = bluetooth_error.message();
            assert!(error_string.contains("UUID parsing error"));
        }
        _ => panic!("Should be a UUID parse error"),
    }

    // Test discovery error
    let discovery_error = BluetoothError::Discovery("Connection failed".to_string());
    let error_string = discovery_error.message();
    assert!(error_string.contains("Bluetooth discovery error"));
    assert!(error_string.contains("Connection failed"));
}

#[test]
fn test_uuid_validation_integration() {
    let test_cases = [
        ("12345678-1234-1234-1234-123456789012", true),
        ("invalid-uuid", false),
        ("", false),
        ("12345678-1234-1234-1234-12345678901", false), // Too short
        ("12345678-1234-1234-1234-123456789012x", false), // Too long
    ];

    for (uuid_str, should_be_valid) in test_cases {
        let result = plan_monitoring(Some(uuid_str.to_string()), None);
        assert_eq!(
            result.is_ok(),
            should_be_valid,
            "UUID '{}' validation should be {}",
            uuid_str,
            should_be_valid
        );
    }
}

#[test]
fn test_cross_module_compatibility() {
    // Create settings with a valid UUID
    let settings = Settings {
        target_uuid: "12345678-1234-1234-1234-123456789012".to_string(),
        rssi_delta_max: -50,
        theme: "light".to_string(),
        language: "fr".to_string(),
    };

    // Test that the UUID in settings can be parsed by the Bluetooth module
    let planned = plan_monitoring(Some(settings.target_uuid.clone()), Some(settings.rssi_delta_max));
    assert!(planned.is_ok(), "Settings UUID should be parseable by Bluetooth module");
    assert_eq!(planned.unwrap().target_uuid, Some(settings.target_uuid));
}

#[test]
fn test_bluetooth_listener_handle_lifecycle() {
    let mut handle: BluetoothListenerHandle<u32> = BluetoothListenerHandle::new();

    // Initially should be empty
    assert!(handle.active.is_none());

    // Simulate storing a task handle, as a begin-monitoring call would
    let previous = handle.replace(7);
    assert!(previous.is_none());
    assert!(handle.is_active());

    // Test that we can take the handle out (for cleanup)
    let taken_handle = handle.take();
    assert_eq!(taken_handle, Some(7));

    // After taking, should be empty again
    assert!(handle.active.is_none());
}

#[test]
fn starting_twice_leaves_one_active_task() {
    let mut handle: BluetoothListenerHandle<u32> = BluetoothListenerHandle::new();

    let first_previous = handle.replace(1);
    assert!(first_previous.is_none());

    // The second start hands the first task back so it can be cancelled
    let second_previous = handle.replace(2);
    assert_eq!(second_previous, Some(1));

    // Exactly one task remains registered: the second
    assert_eq!(handle.active, Some(2));
}

#[test]
fn rejected_identifier_disturbs_no_running_task() {
    let mut handle: BluetoothListenerHandle<u32> = BluetoothListenerHandle::new();
    handle.replace(1);

    // Planning fails before any slot manipulation would happen
    let planned = plan_monitoring(Some("invalid-uuid".to_string()), None);
    assert!(planned.is_err());

    assert_eq!(handle.active, Some(1));
}

#[test]
fn test_error_message_consistency() {
    // Settings errors
    let settings_error = "Error creating settings file '/invalid/path': Permission denied";
    assert!(settings_error.contains("Error"));
    assert!(settings_error.contains(":"));

    // Bluetooth errors
    let bt_error = BluetoothError::Discovery("Device not found".to_string()).message();
    assert_eq!(bt_error, "Bluetooth discovery error: Device not found");
    assert!(bt_error.contains("error:"));

    // Lock screen errors
    let lock_error = "Failed to lock screen on Linux: Command not found";
    assert!(lock_error.contains("Failed to"));
    assert!(lock_error.contains(":"));

    // All follow similar pattern: [Context]: [Details]
}

#[test]
fn test_rssi_calculation_integration() {
    // Test realistic RSSI values and calculations
    let test_cases = [
        (-30, -25, 5),   // Device moved closer
        (-50, -60, -10), // Device moved away
        (-40, -40, 0),   // Device didn't move
    ];

    for (initial, current, expected_diff) in test_cases {
        let calculated_diff = rssi_diff(current, initial);
        assert_eq!(
            calculated_diff, expected_diff,
            "RSSI diff calculation incorrect for {} -> {}",
            initial, current
        );

        // Test delta logic (as used by classification)
        let delta_max = -15i16;
        let within_threshold = is_in_range(Some(delta_max), calculated_diff);

        // Verify the logic makes sense
        if calculated_diff > -(delta_max as i32) {
            assert!(!within_threshold, "Device should be considered too close");
        }
    }
}

#[test]
fn test_command_registration_consistency() {
    let commands = [
        "listen_bluetooth",
        "read_settings",
        "write_settings",
        "lock_screen",
    ];

    for command in commands {
        // All commands should use snake_case
        assert!(command.contains('_'), "Command '{}' should use snake_case", command);

        // No commands should start or end with underscore
        assert!(
            !command.starts_with('_'),
            "Command '{}' should not start with underscore",
            command
        );
        assert!(!command.ends_with('_'), "Command '{}' should not end with underscore", command);

        // Should be all lowercase
        assert_eq!(command, command.to_lowercase(), "Command '{}' should be lowercase", command);
    }
}

#[test]
fn test_platform_specific_functionality() {
    for platform in [Platform::Linux, Platform::MacOs, Platform::Windows] {
        let (command, args) = get_lock_screen_command(platform);

        // Verify command is appropriate for the platform
        assert!(!command.is_empty(), "Lock screen command should not be empty");
        assert!(!args.is_empty(), "Lock screen command should have arguments");

        match platform {
            Platform::Linux => {
                assert_eq!(command, "loginctl");
                assert!(args.contains(&"lock-session"));
            }
            Platform::MacOs => {
                assert_eq!(command, "osascript");
                assert!(args.len() >= 2);
            }
            Platform::Windows => {
                assert_eq!(command, "rundll32.exe");
                assert!(args[0].contains("user32.dll"));
            }
        }
    }
}

#[test]
fn settings_constructor_keeps_fields() {
    let settings = Settings::new(
        "12345678-1234-1234-1234-123456789012".to_string(),
        -40,
        "dark".to_string(),
        "en".to_string(),
    );
    assert_eq!(settings.target_uuid, "12345678-1234-1234-1234-123456789012");
    assert_eq!(settings.rssi_delta_max, -40);
    assert_eq!(settings.theme, "dark");
    assert_eq!(settings.language, "en");
}

#[test]
fn plan_monitoring_keeps_threshold() {
    let planned = plan_monitoring(None, Some(15)).expect("no target is always accepted");
    assert_eq!(planned.target_uuid, None);
    assert_eq!(planned.rssi_delta_max, Some(15));

    let planned = plan_monitoring(None, None).expect("no target is always accepted");
    assert_eq!(planned.rssi_delta_max, None);
}
