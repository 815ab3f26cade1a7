use baru::error::Error;
use baru::{date_time, get_battery_icon, Bar};

#[test]
fn new_bar_holds_the_fixed_tokens() {
    let bar = Bar::new();
    assert_eq!(bar.default_font, "+@fn=0;");
    assert_eq!(bar.icon, "+@fn=1;");
    assert_eq!(bar.default_color, "+@fg=0;");
    assert_eq!(bar.red, "+@fg=1;");
    assert_eq!(bar.green, "+@fg=2;");
    assert_eq!(bar.prev_idle, 0);
    assert_eq!(bar.prev_total, 0);
}

#[test]
fn battery_discharging_mid_level() {
    let bar = Bar::new();
    let s = bar.battery(100, 87, "Discharging").unwrap();
    assert_eq!(s, "+@fg=0;+@fn=1;\u{f0081}+@fn=0;+@fg=0; 87%");
}

#[test]
fn battery_full_is_green_with_full_glyph() {
    let bar = Bar::new();
    let s = bar.battery(100, 100, "Full").unwrap();
    assert_eq!(s, "+@fg=2;+@fn=1;\u{f0079}+@fn=0;+@fg=0; 100%");
}

#[test]
fn battery_low_is_red() {
    let bar = Bar::new();
    let s = bar.battery(100, 5, "Discharging").unwrap();
    assert_eq!(s, "+@fg=1;+@fn=1;\u{f008e}+@fn=0;+@fg=0; 5%");
}

#[test]
fn battery_level_beyond_u32_is_out_of_range() {
    let bar = Bar::new();
    let r = bar.battery(1, i32::MAX, "Full");
    assert_eq!(r, Err(Error::OutOfRange));
}

#[test]
fn battery_icon_table() {
    assert_eq!(get_battery_icon("Full", 42), "\u{f0079}");
    assert_eq!(get_battery_icon("Discharging", 0), "\u{f008e}");
    assert_eq!(get_battery_icon("Discharging", 55), "\u{f007e}");
    assert_eq!(get_battery_icon("Discharging", 100), "\u{f0079}");
    assert_eq!(get_battery_icon("Discharging", 150), "\u{f10cd}");
    assert_eq!(get_battery_icon("Charging", 9), "\u{f089f}");
    assert_eq!(get_battery_icon("Charging", 55), "\u{f089d}");
    assert_eq!(get_battery_icon("Charging", 100), "\u{f0085}");
    assert_eq!(get_battery_icon("Unknown", 50), "\u{f10cd}");
}

#[test]
fn cpu_usage_from_counter_differences() {
    let mut bar = Bar::new();
    let times = vec![10, 20, 30, 40, 50, 0, 0];
    let (frag, usage) = bar.cpu(&times);
    // idle = 40 + 50 = 90, total = 150: busy 60 of 150 is 40%.
    assert_eq!(frag, "eheh");
    assert_eq!(usage, 40);
    assert_eq!(bar.prev_idle, 90);
    assert_eq!(bar.prev_total, 150);
    let times2 = vec![20, 40, 60, 80, 100, 0, 0];
    let (_, usage2) = bar.cpu(&times2);
    // diff idle = 90, diff total = 150: again 40%.
    assert_eq!(usage2, 40);
    assert_eq!(bar.prev_idle, 180);
    assert_eq!(bar.prev_total, 300);
}

#[test]
fn core_temperature_rounds_the_average() {
    let bar = Bar::new();
    // 200000 millidegrees over four cores: 50.5 degrees, rounds down to 50.
    let s = bar.core_temperature(50000, 50000, 50000, 50000);
    assert_eq!(s, "+@fg=0;+@fn=1;\u{f10c3}+@fn=0;+@fg=0; 50°");
    // 81 degrees: hot glyph and red colour.
    let s = bar.core_temperature(81000, 81000, 81000, 81000);
    assert_eq!(s, "+@fg=1;+@fn=1;\u{f10c2}+@fn=0;+@fg=0; 81°");
    // 60 degrees: warm glyph.
    let s = bar.core_temperature(60000, 60000, 60000, 60000);
    assert_eq!(s, "+@fg=0;+@fn=1;\u{f050f}+@fn=0;+@fg=0; 60°");
    // Above 100: overheated glyph, red.
    let s = bar.core_temperature(101000, 101000, 101000, 101000);
    assert_eq!(s, "+@fg=1;+@fn=1;\u{f0e01}+@fn=0;+@fg=0; 101°");
}

#[test]
fn brightness_percentage() {
    let bar = Bar::new();
    let s = bar.brightness(50, 100);
    assert_eq!(s, "+@fn=1;\u{f00df}+@fn=0; 50%");
    let s = bar.brightness(1, 3);
    assert_eq!(s, "+@fn=1;\u{f00df}+@fn=0; 33%");
}

#[test]
fn update_composes_with_fixed_separators() {
    let bar = Bar::new();
    let line = bar.update("T", "B", "BAT", "D");
    assert_eq!(line, "T  B  BAT   D");
}

#[test]
fn date_time_is_never_empty() {
    assert!(!date_time().is_empty());
}
