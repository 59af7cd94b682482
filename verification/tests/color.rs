use saswatch::app::App;
use saswatch::color::{
    ChannelRange, Color, Constraints, Okhsl, Sample, Srgb, HUE_END, UNIT_END,
};
use saswatch::export::{render_export, render_file_name};

fn okhsl() -> Okhsl {
    Okhsl { hue: 0x4316_0000, saturation: 0x3F00_0000, lightness: 0x3E80_0000 }
}

fn rgb(red: u8, green: u8, blue: u8) -> Sample {
    Sample { okhsl: okhsl(), srgb: Srgb { red, green, blue } }
}

#[test]
fn constraints_cover_the_full_ranges() {
    let constraints = Constraints::new();
    assert_eq!(constraints.hue, ChannelRange { start: 0.0f32.to_bits(), end: 360.0f32.to_bits() });
    assert_eq!(
        constraints.saturation,
        ChannelRange { start: 0.0f32.to_bits(), end: 1.0f32.to_bits() }
    );
    assert_eq!(
        constraints.lightness,
        ChannelRange { start: 0.0f32.to_bits(), end: 1.0f32.to_bits() }
    );
    assert_eq!(HUE_END, 360.0f32.to_bits());
    assert_eq!(UNIT_END, 1.0f32.to_bits());
}

#[test]
fn random_new_is_unlocked() {
    let color = Color::random_new(rgb(1, 2, 3));
    assert_eq!(color, Color { okhsl: okhsl(), srgb: Srgb { red: 1, green: 2, blue: 3 }, locked: false });
}

#[test]
fn regen_replaces_the_colour_and_keeps_the_lock() {
    let mut color = Color { okhsl: okhsl(), srgb: Srgb { red: 1, green: 2, blue: 3 }, locked: true };
    let fresh = Sample {
        okhsl: Okhsl { hue: 1, saturation: 2, lightness: 3 },
        srgb: Srgb { red: 9, green: 8, blue: 7 },
    };
    color.regen(fresh);
    assert_eq!(color, Color { okhsl: fresh.okhsl, srgb: fresh.srgb, locked: true });
}

#[test]
fn hex_string_has_two_lower_case_digits_per_channel() {
    assert_eq!(Color::random_new(rgb(0x11, 0x22, 0x33)).hex_string(), "#112233");
    assert_eq!(Color::random_new(rgb(0, 0, 0)).hex_string(), "#000000");
    assert_eq!(Color::random_new(rgb(255, 255, 255)).hex_string(), "#ffffff");
    assert_eq!(Color::random_new(rgb(0x0a, 0xb0, 0x0c)).hex_string(), "#0ab00c");
    assert_eq!(Color::random_new(rgb(0xAB, 0xCD, 0xEF)).hex_string(), "#abcdef");
}

#[test]
fn hex_string_is_stable() {
    let color = Color::random_new(rgb(18, 52, 86));
    assert_eq!(color.hex_string(), color.hex_string());
    assert_eq!(color.hex_string(), "#123456");
}

#[test]
fn copy_hex_gives_the_selected_entry() {
    let mut app = App::new(rgb(0x11, 0x22, 0x33));
    app.insert_color(rgb(0x44, 0x55, 0x66));
    assert_eq!(app.copy_hex(), "#112233");
    app.inc_select();
    assert_eq!(app.copy_hex(), "#445566");
}

#[test]
fn export_writes_one_line_per_entry() {
    let mut app = App::new(rgb(0x11, 0x22, 0x33));
    app.insert_color(rgb(0x44, 0x55, 0x66));
    app.input_buffer = String::from("foo");
    let export = app.export_to_sh();
    assert_eq!(export.content, "color0=\"#112233\"\ncolor1=\"#445566\"\n");
    assert_eq!(export.file_name, "foo.sh");
}

#[test]
fn export_follows_the_display_order() {
    let mut app = App::new(rgb(0x11, 0x22, 0x33));
    app.insert_color(rgb(0x44, 0x55, 0x66));
    app.shift_down();
    assert_eq!(app.export_to_sh().content, "color0=\"#445566\"\ncolor1=\"#112233\"\n");
}

#[test]
fn export_numbers_lines_in_decimal() {
    let colors: Vec<Color> = (0..12u8).map(|n| Color::random_new(rgb(n, n, n))).collect();
    let text = render_export(&colors);
    let lines: Vec<&str> = text.lines().collect();
    assert_eq!(lines.len(), 12);
    assert_eq!(lines[0], "color0=\"#000000\"");
    assert_eq!(lines[9], "color9=\"#090909\"");
    assert_eq!(lines[10], "color10=\"#0a0a0a\"");
    assert_eq!(lines[11], "color11=\"#0b0b0b\"");
    assert!(text.ends_with("\"\n"));
}

#[test]
fn export_numbers_past_one_hundred() {
    let colors: Vec<Color> = (0..=120u8).map(|n| Color::random_new(rgb(n, 0, 0))).collect();
    let text = render_export(&colors);
    let lines: Vec<&str> = text.lines().collect();
    assert_eq!(lines[100], "color100=\"#640000\"");
    assert_eq!(lines[120], "color120=\"#780000\"");
}

#[test]
fn export_of_no_entries_is_empty() {
    assert_eq!(render_export(&Vec::new()), "");
}

#[test]
fn export_file_name_appends_the_extension() {
    assert_eq!(render_file_name(&String::from("foo")), "foo.sh");
    assert_eq!(render_file_name(&String::new()), ".sh");
    assert_eq!(render_file_name(&String::from("my palette")), "my palette.sh");
}
