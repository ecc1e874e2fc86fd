use candela::brightness::{BrightnessCommand, BrightnessController, BrightnessMode};
use candela::ramp::GammaRampTable;
use candela::strategy::{plan_gamma_apply, plan_vcp_apply};
use candela::display::gamma_target_from_buffer;

fn expected_level(i: u32, percent: u32) -> u16 {
    ((i * percent * 255 + 50) / 100) as u16
}

fn assert_table_scaled(table: &GammaRampTable, percent: u32) {
    assert_eq!(table.red.len(), 256);
    assert_eq!(table.green.len(), 256);
    assert_eq!(table.blue.len(), 256);
    for i in 0..256u32 {
        let level = expected_level(i, percent);
        assert_eq!(table.red[i as usize], level);
        assert_eq!(table.green[i as usize], level);
        assert_eq!(table.blue[i as usize], level);
    }
}

#[test]
fn controller_starts_in_given_mode() {
    let software = BrightnessController::new(BrightnessMode::Software);
    assert_eq!(software.mode, BrightnessMode::Software);
    let hardware = BrightnessController::new(BrightnessMode::Hardware);
    assert_eq!(hardware.mode, BrightnessMode::Hardware);
}

#[test]
fn software_mode_sets_half_brightness_on_every_target() {
    // Scenario: mode = Software, set_brightness(50) applies the half ramp.
    let controller = BrightnessController::new(BrightnessMode::Software);
    let command = controller.set_brightness(50);
    let table = match command {
        BrightnessCommand::Gamma { table } => table,
        BrightnessCommand::Vcp { .. } => panic!("software mode must not plan a VCP write"),
    };
    assert_table_scaled(&table, 50);
    // Rounding is half up: index 1 at 50 percent is round(127.5) = 128.
    assert_eq!(table.red[1], 128);

    // Every enumerated gamma target receives the same half ramp.
    let targets = vec![
        gamma_target_from_buffer(&vec![68u16, 73, 83, 80, 49, 0, 0, 0]),
        gamma_target_from_buffer(&vec![68u16, 73, 83, 80, 50, 0, 0, 0]),
    ];
    let writes = plan_gamma_apply(&targets, &table);
    assert_eq!(writes.len(), 2);
    for (k, write) in writes.iter().enumerate() {
        assert_eq!(write.target.device_name, targets[k].device_name);
        assert_table_scaled(&write.table, 50);
    }
}

#[test]
fn hardware_mode_writes_vcp_feature() {
    // Scenario: mode = Hardware, set_brightness(75) writes feature 0x10.
    let controller = BrightnessController::new(BrightnessMode::Hardware);
    let command = controller.set_brightness(75);
    match command {
        BrightnessCommand::Vcp { command } => {
            assert_eq!(command.feature_code, 0x10);
            assert_eq!(command.value, 75);
        }
        BrightnessCommand::Gamma { .. } => panic!("hardware mode must not plan a gamma write"),
    }
}

#[test]
fn mode_exclusivity() {
    // A software controller never plans a VCP write, and vice versa.
    let software = BrightnessController::new(BrightnessMode::Software);
    for percent in [0u32, 25, 50, 75, 100] {
        assert!(matches!(software.set_brightness(percent), BrightnessCommand::Gamma { .. }));
    }
    let hardware = BrightnessController::new(BrightnessMode::Hardware);
    for percent in [0u32, 25, 50, 75, 100] {
        assert!(matches!(hardware.set_brightness(percent), BrightnessCommand::Vcp { .. }));
    }
}

#[test]
fn toggle_from_software_resets_gamma_to_full() {
    // Scenario: mode = Software, toggle_mode() resets the gamma strategy to
    // the full-brightness identity ramp, then the mode is Hardware.
    let mut controller = BrightnessController::new(BrightnessMode::Software);
    let reset = controller.toggle_mode();
    let table = match reset {
        BrightnessCommand::Gamma { table } => table,
        BrightnessCommand::Vcp { .. } => panic!("the outgoing strategy was the gamma strategy"),
    };
    assert_table_scaled(&table, 100);
    for i in 0..256usize {
        assert_eq!(table.red[i] as usize, i * 255);
    }
    assert_eq!(controller.mode, BrightnessMode::Hardware);
}

#[test]
fn toggle_from_hardware_resets_vcp_to_full() {
    let mut controller = BrightnessController::new(BrightnessMode::Hardware);
    let reset = controller.toggle_mode();
    match reset {
        BrightnessCommand::Vcp { command } => {
            assert_eq!(command.feature_code, 0x10);
            assert_eq!(command.value, 100);
        }
        BrightnessCommand::Gamma { .. } => panic!("the outgoing strategy was the VCP strategy"),
    }
    assert_eq!(controller.mode, BrightnessMode::Software);
}

#[test]
fn toggling_twice_restores_the_mode() {
    let mut controller = BrightnessController::new(BrightnessMode::Software);
    let _ = controller.toggle_mode();
    let _ = controller.toggle_mode();
    assert_eq!(controller.mode, BrightnessMode::Software);
    let _ = controller.toggle_mode();
    assert_eq!(controller.mode, BrightnessMode::Hardware);
}

#[test]
fn zero_displays_apply_is_a_no_op() {
    // Enumeration returning zero displays yields an empty plan: nothing to
    // carry out, and no error raised.
    let targets: Vec<candela::display::GammaTarget> = Vec::new();
    let writes = plan_gamma_apply(&targets, &GammaRampTable::build(60));
    assert!(writes.is_empty());
}

#[test]
fn failing_display_does_not_affect_the_other() {
    // Scenario: two enumerated displays, the first one's context is
    // unavailable mid-apply; the second still receives its full write.
    let targets = vec![
        gamma_target_from_buffer(&vec![66u16, 65, 68, 0]),
        gamma_target_from_buffer(&vec![71u16, 79, 79, 68, 0]),
    ];
    let writes = plan_gamma_apply(&targets, &GammaRampTable::build(40));
    let mut applied: Vec<Vec<u16>> = Vec::new();
    for write in &writes {
        let context_available = write.target.device_name != vec![66u16, 65, 68];
        if !context_available {
            continue; // skipped, not retried; the rest still processed
        }
        assert_table_scaled(&write.table, 40);
        applied.push(write.target.device_name.clone());
    }
    assert_eq!(applied, vec![vec![71u16, 79, 79, 68]]);
}

#[test]
fn vcp_plan_truncates_to_protocol_width() {
    let command = plan_vcp_apply(100);
    assert_eq!(command.feature_code, 0x10);
    assert_eq!(command.value, 100u16);
    let zero = plan_vcp_apply(0);
    assert_eq!(zero.value, 0u16);
}
