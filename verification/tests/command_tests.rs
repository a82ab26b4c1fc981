//! Cross-device command protocol behaviour.

use sync15::clients::{
    command_eq, dedupe_commands, process_incoming_commands, Command, CommandProcessor,
    CommandStatus, CommandTracker, DeviceType, Settings,
};
use sync15::error::ErrorKind;

#[test]
fn wipe_applied_then_ignored() {
    // Applying the same wipe twice is Applied then Ignored, never a
    // duplicate destructive side effect.
    let mut tracker = CommandTracker::new(vec!["tabs".to_string(), "bookmarks".to_string()]);
    assert_eq!(tracker.apply(Command::Wipe("tabs".to_string())), CommandStatus::Applied);
    assert_eq!(tracker.apply(Command::Wipe("tabs".to_string())), CommandStatus::Ignored);
    // A different wipe is its own command.
    assert_eq!(tracker.apply(Command::Wipe("bookmarks".to_string())), CommandStatus::Applied);
}

#[test]
fn command_for_unknown_engine_is_unsupported_and_retried() {
    let mut tracker = CommandTracker::new(vec!["tabs".to_string()]);
    assert_eq!(
        tracker.apply(Command::Wipe("passwords".to_string())),
        CommandStatus::Unsupported
    );
    // Unsupported commands are not recorded, so they are seen again.
    assert_eq!(
        tracker.apply(Command::Wipe("passwords".to_string())),
        CommandStatus::Unsupported
    );
}

#[test]
fn account_wide_commands_are_always_supported() {
    let mut tracker = CommandTracker::new(Vec::new());
    assert_eq!(tracker.apply(Command::WipeAll), CommandStatus::Applied);
    assert_eq!(tracker.apply(Command::WipeAll), CommandStatus::Ignored);
    assert_eq!(tracker.apply(Command::ResetAll), CommandStatus::Applied);
}

#[test]
fn reset_and_wipe_are_distinct_commands() {
    let mut tracker = CommandTracker::new(vec!["tabs".to_string()]);
    assert_eq!(tracker.apply(Command::Wipe("tabs".to_string())), CommandStatus::Applied);
    assert_eq!(tracker.apply(Command::Reset("tabs".to_string())), CommandStatus::Applied);
}

#[test]
fn outgoing_commands_deduplicate_by_identity() {
    let commands = vec![
        Command::Wipe("tabs".to_string()),
        Command::WipeAll,
        Command::Wipe("tabs".to_string()),
        Command::Reset("tabs".to_string()),
        Command::WipeAll,
    ];
    let deduped = dedupe_commands(&commands);
    assert_eq!(deduped.len(), 3);
    assert!(command_eq(&deduped[0], &Command::Wipe("tabs".to_string())));
    assert!(command_eq(&deduped[1], &Command::WipeAll));
    assert!(command_eq(&deduped[2], &Command::Reset("tabs".to_string())));
}

#[test]
fn command_identity_is_by_variant_and_collection() {
    assert!(command_eq(
        &Command::Wipe("tabs".to_string()),
        &Command::Wipe("tabs".to_string())
    ));
    assert!(!command_eq(
        &Command::Wipe("tabs".to_string()),
        &Command::Reset("tabs".to_string())
    ));
    assert!(!command_eq(
        &Command::Wipe("tabs".to_string()),
        &Command::Wipe("bookmarks".to_string())
    ));
    assert!(command_eq(&Command::ResetAll, &Command::ResetAll));
}

#[test]
fn device_types_have_wire_names() {
    assert_eq!(DeviceType::Desktop.as_str(), "desktop");
    assert_eq!(DeviceType::Mobile.as_str(), "mobile");
    assert_eq!(DeviceType::Tablet.as_str(), "tablet");
}

/// A processor over a tracker, which can be told to fail outright.
struct TrackerProcessor {
    settings: Settings,
    tracker: CommandTracker,
    fail: bool,
}

impl CommandProcessor for TrackerProcessor {
    fn settings(&self) -> &Settings {
        &self.settings
    }

    fn fetch_outgoing_commands(&self) -> Result<Vec<Command>, ErrorKind> {
        Ok(Vec::new())
    }

    fn apply_incoming_command(&mut self, command: Command) -> Result<CommandStatus, ErrorKind> {
        if self.fail {
            return Err(ErrorKind::CommandProcessingFailed);
        }
        Ok(self.tracker.apply(command))
    }
}

fn processor(fail: bool) -> TrackerProcessor {
    TrackerProcessor {
        settings: Settings {
            fxa_device_id: "device-1".to_string(),
            device_name: "Laptop".to_string(),
            device_type: DeviceType::Desktop,
        },
        tracker: CommandTracker::new(vec!["tabs".to_string()]),
        fail,
    }
}

#[test]
fn only_unsupported_commands_are_kept_for_retry() {
    let mut p = processor(false);
    let (outcome, _log) = process_incoming_commands(
        &mut p,
        vec![
            Command::Wipe("tabs".to_string()),
            Command::Wipe("passwords".to_string()),
            Command::Wipe("tabs".to_string()),
            Command::WipeAll,
        ],
    );
    let kept = outcome.unwrap();
    // Applied and ignored commands are removed; the unsupported one stays.
    assert_eq!(kept.len(), 1);
    assert!(command_eq(&kept[0], &Command::Wipe("passwords".to_string())));
}

#[test]
fn a_command_processing_error_halts_at_once() {
    let mut p = processor(true);
    let (outcome, _log) = process_incoming_commands(&mut p, vec![Command::WipeAll]);
    assert!(matches!(outcome, Err(ErrorKind::CommandProcessingFailed)));
}
