use cotton_os::animation::{
    debug_welcome_flag, disable_welcome_screen, display_welcome_screen, get_timer,
    increment_timer, reset_welcome_screen, sleep, BootFlags, Timer,
};
use cotton_os::devices::{
    detect_all_devices, detect_display_devices, detect_ps2_devices, detect_storage_devices,
    Device, DeviceCollection, DeviceRegistry, DeviceType, ProbeOutcome,
};
use cotton_os::keyboard::{KeyboardState, Poll, PollSource, SCAN_SPACE};
use cotton_os::vga_buffer::{Cell, Color, Console};
use cotton_os::{debug_status, exit_code_value, BumpAllocator, QemuExitCode, HEAP_SIZE};

fn press(code: u8) -> Poll {
    Poll { status: 0x01, data: code }
}

#[test]
fn timer_counts_ticks() {
    let mut t = Timer::new();
    assert_eq!(get_timer(&t), 0);
    increment_timer(&mut t);
    increment_timer(&mut t);
    increment_timer(&mut t);
    assert_eq!(get_timer(&t), 3);
}

#[test]
fn timer_wraps_at_the_limit() {
    let mut t = Timer { count: u64::MAX };
    increment_timer(&mut t);
    assert_eq!(get_timer(&t), 0);
}

#[test]
fn sleep_advances_by_the_requested_ticks() {
    let mut t = Timer { count: 5 };
    sleep(&mut t, 10);
    assert_eq!(get_timer(&t), 15);
    sleep(&mut t, 0);
    assert_eq!(get_timer(&t), 15);
}

#[test]
fn welcome_flags_reset_and_disable() {
    let mut flags = BootFlags::new();
    disable_welcome_screen(&mut flags);
    assert!(flags.welcome_shown);
    assert!(flags.bypass_welcome);
    assert_eq!(flags.attempt_count, 0);
    assert!(debug_welcome_flag(&flags));
    assert!(debug_status(&flags));
    reset_welcome_screen(&mut flags);
    assert!(!flags.welcome_shown);
    assert!(!flags.bypass_welcome);
    assert!(!debug_status(&flags));
}

#[test]
fn welcome_screen_blocks_once_then_returns_immediately() {
    let mut flags = BootFlags::new();
    reset_welcome_screen(&mut flags);
    let mut console = Console::new();
    let mut kb = KeyboardState::new();

    // first call: draws the splash and blocks until the space press
    let mut src = PollSource::new(vec![press(0x1E), press(SCAN_SPACE), press(0x30)]);
    display_welcome_screen(&mut flags, &mut console, &mut kb, &mut src);
    assert!(flags.welcome_shown);
    assert_eq!(flags.attempt_count, 1);
    assert_eq!(src.remaining(), 1); // consumed through the space, no further
    assert_eq!(
        console.read_cell(12, 20),
        Cell { ch: 'W', fg: Color::White, bg: Color::Black }
    );
    assert_eq!(console.read_cell(19, 20).ch, 'P');

    // second call: returns at once, touching nothing
    let mut src2 = PollSource::new(vec![press(SCAN_SPACE)]);
    display_welcome_screen(&mut flags, &mut console, &mut kb, &mut src2);
    assert!(flags.welcome_shown);
    assert_eq!(flags.attempt_count, 1);
    assert_eq!(src2.remaining(), 1); // no key was read
    assert_eq!(console.read_cell(12, 20).ch, 'W'); // splash still there
}

#[test]
fn welcome_screen_attempt_guard_forces_shown() {
    let mut flags = BootFlags { welcome_shown: false, bypass_welcome: false, attempt_count: 1 };
    let mut console = Console::new();
    let mut kb = KeyboardState::new();
    let mut src = PollSource::new(vec![press(SCAN_SPACE)]);
    display_welcome_screen(&mut flags, &mut console, &mut kb, &mut src);
    assert!(flags.welcome_shown);
    assert_eq!(flags.attempt_count, 2);
    assert_eq!(src.remaining(), 1); // nothing drawn, nothing read
    assert_eq!(console.read_cell(12, 20).ch, ' ');
}

#[test]
fn welcome_screen_bypass_skips_everything() {
    let mut flags = BootFlags { welcome_shown: false, bypass_welcome: true, attempt_count: 0 };
    let mut console = Console::new();
    let mut kb = KeyboardState::new();
    let mut src = PollSource::new(vec![press(SCAN_SPACE)]);
    display_welcome_screen(&mut flags, &mut console, &mut kb, &mut src);
    assert!(!flags.welcome_shown);
    assert_eq!(flags.attempt_count, 0);
    assert_eq!(src.remaining(), 1);
}

fn assert_same_device(a: &Device, b: &Device) {
    assert_eq!(a.device_type, b.device_type);
    assert_eq!(a.name(), b.name());
    assert_eq!(a.status(), b.status());
    assert_eq!(a.is_active(), b.is_active());
    assert_eq!(a.driver(), b.driver());
    assert_eq!(a.additional_info(), b.additional_info());
    assert_eq!(a.size(), b.size());
}

#[test]
fn registry_first_call_records_the_probe() {
    let mut registry = DeviceRegistry::new();
    let probe = ProbeOutcome { controller_present: true, keyboard_responded: true };
    let devices = detect_all_devices(&mut registry, probe);

    let input = devices.input_devices();
    assert_eq!(input.len(), 2);
    assert_eq!(input[0].device_type, DeviceType::Input);
    assert_eq!(input[0].name(), "PS/2 Keyboard");
    assert_eq!(input[0].status(), "Connected");
    assert!(input[0].is_active());
    assert_eq!(input[0].driver(), Some("Basic PS/2 driver"));
    assert_eq!(input[0].additional_info(), Some("Supports standard keystrokes"));
    assert_eq!(input[0].size(), None);
    assert_eq!(input[1].name(), "PS/2 Mouse");
    assert_eq!(input[1].driver(), Some("Basic PS/2 mouse driver"));

    let output = devices.output_devices();
    assert_eq!(output.len(), 1);
    assert_eq!(output[0].device_type, DeviceType::Output);
    assert_eq!(output[0].name(), "VGA Text Mode Display");
    assert_eq!(output[0].status(), "Active");
    assert_eq!(output[0].additional_info(), Some("Resolution: 80x25 characters"));

    let storage = devices.storage_devices();
    assert_eq!(storage.len(), 1);
    assert_eq!(storage[0].device_type, DeviceType::Storage);
    assert_eq!(storage[0].name(), "Boot Medium (QEMU virtual)");
    assert_eq!(storage[0].status(), "Read-only");
    assert_eq!(storage[0].additional_info(), Some("Storage device"));
    assert_eq!(storage[0].size(), Some("Unknown"));
}

#[test]
fn registry_without_controller_records_no_input() {
    let mut registry = DeviceRegistry::new();
    let probe = ProbeOutcome { controller_present: false, keyboard_responded: false };
    let devices = detect_all_devices(&mut registry, probe);
    assert_eq!(devices.input_devices().len(), 0);
    assert_eq!(devices.output_devices().len(), 1);
    assert_eq!(devices.storage_devices().len(), 1);
}

#[test]
fn registry_without_keyboard_answer_still_assumes_mouse() {
    let mut registry = DeviceRegistry::new();
    let probe = ProbeOutcome { controller_present: true, keyboard_responded: false };
    let devices = detect_all_devices(&mut registry, probe);
    let input = devices.input_devices();
    assert_eq!(input.len(), 1);
    assert_eq!(input[0].name(), "PS/2 Mouse");
}

#[test]
fn registry_is_idempotent_and_ignores_later_probes() {
    let mut registry = DeviceRegistry::new();
    let first = detect_all_devices(
        &mut registry,
        ProbeOutcome { controller_present: true, keyboard_responded: true },
    );
    // a second call with a contradictory probe outcome changes nothing:
    // the probe is not consulted again
    let second = detect_all_devices(
        &mut registry,
        ProbeOutcome { controller_present: false, keyboard_responded: false },
    );
    assert_eq!(first.input_devices().len(), second.input_devices().len());
    assert_eq!(first.output_devices().len(), second.output_devices().len());
    assert_eq!(first.storage_devices().len(), second.storage_devices().len());
    for (a, b) in first.input_devices().iter().zip(second.input_devices().iter()) {
        assert_same_device(a, b);
    }
    for (a, b) in first.output_devices().iter().zip(second.output_devices().iter()) {
        assert_same_device(a, b);
    }
    for (a, b) in first.storage_devices().iter().zip(second.storage_devices().iter()) {
        assert_same_device(a, b);
    }
}

#[test]
fn allocator_hands_out_aligned_offsets_until_exhaustion() {
    let mut a = BumpAllocator::new();
    assert_eq!(a.allocate(4096, 1), Some(0));
    assert_eq!(a.allocate(4096, 1), Some(4096));
    // the region is now full: the next request reports exhaustion
    assert_eq!(a.allocate(1, 1), None);
}

#[test]
fn allocator_rounds_the_cursor_up_to_the_alignment() {
    let mut a = BumpAllocator::new();
    assert_eq!(a.allocate(10, 1), Some(0));
    assert_eq!(a.allocate(4, 8), Some(16));
    assert_eq!(a.allocate(1, 2), Some(20));
    assert_eq!(a.allocate(3, 16), Some(32));
}

#[test]
fn allocator_failure_leaves_the_cursor_alone() {
    let mut a = BumpAllocator::new();
    assert_eq!(a.allocate(5, 1), Some(0));
    assert_eq!(a.allocate(HEAP_SIZE, 1), None);
    // the failed request did not move the cursor
    assert_eq!(a.allocate(5, 1), Some(5));
}

#[test]
fn allocator_cumulative_requests_fail_exactly_at_the_boundary() {
    let mut a = BumpAllocator::new();
    let mut expected_cursor = 0usize;
    for _ in 0..(HEAP_SIZE / 16) {
        let off = a.allocate(16, 16).expect("within the region");
        assert_eq!(off % 16, 0);
        assert_eq!(off, expected_cursor);
        assert!(off + 16 <= HEAP_SIZE);
        expected_cursor += 16;
    }
    // every byte is spoken for now
    assert_eq!(a.allocate(1, 1), None);
    assert_eq!(a.allocate(16, 16), None);
}

#[test]
fn allocator_deallocate_reclaims_nothing() {
    let mut a = BumpAllocator::new();
    assert_eq!(a.allocate(HEAP_SIZE, 1), Some(0));
    a.deallocate();
    assert_eq!(a.allocate(1, 1), None);
}

#[test]
fn device_records_keep_their_parts() {
    let d = Device::new(
        DeviceType::Storage,
        "Tape",
        "Idle",
        false,
        None,
        Some("Rarely used"),
        Some("1 GB"),
    );
    assert_eq!(d.device_type, DeviceType::Storage);
    assert_eq!(d.name(), "Tape");
    assert_eq!(d.status(), "Idle");
    assert!(!d.is_active());
    assert_eq!(d.driver(), None);
    assert_eq!(d.additional_info(), Some("Rarely used"));
    assert_eq!(d.size(), Some("1 GB"));
    let copy = d.clone();
    assert_same_device(&d, &copy);
}

#[test]
fn collection_builders_append_to_their_category() {
    let mut devices = DeviceCollection::new();
    assert_eq!(devices.input_devices().len(), 0);
    detect_ps2_devices(
        &mut devices,
        ProbeOutcome { controller_present: true, keyboard_responded: true },
    );
    detect_display_devices(&mut devices);
    detect_storage_devices(&mut devices);
    devices.add_output_device("Serial Console", "Active", true, None, None);
    assert_eq!(devices.input_devices().len(), 2);
    assert_eq!(devices.output_devices().len(), 2);
    assert_eq!(devices.storage_devices().len(), 1);
    assert_eq!(devices.output_devices()[1].name(), "Serial Console");
    // a storage record always carries the generic descriptive line
    assert_eq!(devices.storage_devices()[0].additional_info(), Some("Storage device"));
}

#[test]
fn exit_codes_match_the_port_protocol() {
    assert_eq!(exit_code_value(QemuExitCode::Success), 0x10);
    assert_eq!(exit_code_value(QemuExitCode::Failed), 0x11);
    assert_ne!(QemuExitCode::Success, QemuExitCode::Failed);
}
