use saswatch::app::{App, Mode};
use saswatch::color::{Color, Okhsl, Sample, Srgb};
use saswatch::scroll::ScrollIndicator;

fn sample(n: u8) -> Sample {
    Sample {
        okhsl: Okhsl { hue: 1000 + n as u32, saturation: 2000 + n as u32, lightness: 3000 + n as u32 },
        srgb: Srgb { red: n, green: n.wrapping_add(1), blue: n.wrapping_add(2) },
    }
}

fn entry(n: u8, locked: bool) -> Color {
    Color { okhsl: sample(n).okhsl, srgb: sample(n).srgb, locked }
}

/// An editor whose entries hold the samples 0, 1, .., n - 1, with the first selected.
fn editor(n: u8) -> App {
    let mut app = App::new(sample(0));
    for i in 1..n {
        app.insert_color(sample(i));
    }
    app
}

fn mirrors(app: &App) -> bool {
    let indicator = app.get_scrollbar_state();
    indicator.position == app.get_table_state()
        && indicator.content_length == app.get_colors().len()
        && app.get_table_state() < app.get_colors().len()
}

#[test]
fn new_editor_holds_one_unlocked_entry() {
    let app = App::new(sample(7));
    assert_eq!(app.get_colors(), vec![entry(7, false)]);
    assert_eq!(app.get_table_state(), 0);
    assert_eq!(app.get_scrollbar_state(), ScrollIndicator { content_length: 1, position: 0 });
    assert_eq!(*app.get_mode(), Mode::Generating);
    assert_eq!(app.input_buffer, "");
}

#[test]
fn remove_on_single_entry_changes_nothing() {
    let mut app = App::new(sample(3));
    app.remove_color();
    assert_eq!(app.get_colors(), vec![entry(3, false)]);
    assert_eq!(app.get_table_state(), 0);
    assert_eq!(app.get_scrollbar_state(), ScrollIndicator { content_length: 1, position: 0 });
}

#[test]
fn swap_up_from_first_entry_wraps_to_bottom() {
    let mut app = editor(3);
    app.shift_up();
    assert_eq!(app.get_colors(), vec![entry(2, false), entry(1, false), entry(0, false)]);
    assert_eq!(app.get_table_state(), 2);
    assert!(mirrors(&app));
}

#[test]
fn swap_down_from_last_entry_wraps_to_top() {
    let mut app = editor(3);
    app.inc_select();
    app.inc_select();
    assert_eq!(app.get_table_state(), 2);
    app.shift_down();
    assert_eq!(app.get_colors(), vec![entry(2, false), entry(1, false), entry(0, false)]);
    assert_eq!(app.get_table_state(), 0);
    assert!(mirrors(&app));
}

#[test]
fn swap_up_in_the_middle_moves_entry_and_selection() {
    let mut app = editor(4);
    app.inc_select();
    app.inc_select();
    app.shift_up();
    assert_eq!(
        app.get_colors(),
        vec![entry(0, false), entry(2, false), entry(1, false), entry(3, false)]
    );
    assert_eq!(app.get_table_state(), 1);
    assert!(mirrors(&app));
}

#[test]
fn swap_down_in_the_middle_moves_entry_and_selection() {
    let mut app = editor(4);
    app.inc_select();
    app.shift_down();
    assert_eq!(
        app.get_colors(),
        vec![entry(0, false), entry(2, false), entry(1, false), entry(3, false)]
    );
    assert_eq!(app.get_table_state(), 2);
    assert!(mirrors(&app));
}

#[test]
fn swaps_on_single_entry_change_nothing() {
    let mut app = App::new(sample(5));
    app.shift_up();
    assert_eq!(app.get_colors(), vec![entry(5, false)]);
    assert_eq!(app.get_table_state(), 0);
    app.shift_down();
    assert_eq!(app.get_colors(), vec![entry(5, false)]);
    assert_eq!(app.get_table_state(), 0);
    assert!(mirrors(&app));
}

#[test]
fn swap_up_then_swap_down_restores_palette() {
    for start in 0..5usize {
        let mut app = editor(5);
        for _ in 0..start {
            app.inc_select();
        }
        let before = app.get_colors();
        app.shift_up();
        app.shift_down();
        assert_eq!(app.get_colors(), before);
        assert_eq!(app.get_table_state(), start);
        assert!(mirrors(&app));
    }
}

#[test]
fn select_next_wraps_at_the_end() {
    let mut app = editor(3);
    app.inc_select();
    assert_eq!(app.get_table_state(), 1);
    app.inc_select();
    assert_eq!(app.get_table_state(), 2);
    app.inc_select();
    assert_eq!(app.get_table_state(), 0);
    assert_eq!(app.get_scrollbar_state(), ScrollIndicator { content_length: 3, position: 0 });
}

#[test]
fn select_prev_wraps_at_the_start() {
    let mut app = editor(3);
    app.dec_select();
    assert_eq!(app.get_table_state(), 2);
    assert_eq!(app.get_scrollbar_state(), ScrollIndicator { content_length: 3, position: 2 });
    app.dec_select();
    assert_eq!(app.get_table_state(), 1);
    assert_eq!(app.get_scrollbar_state(), ScrollIndicator { content_length: 3, position: 1 });
}

#[test]
fn select_next_length_times_comes_back() {
    for len in 1..6u8 {
        for start in 0..len as usize {
            let mut app = editor(len);
            for _ in 0..start {
                app.inc_select();
            }
            for _ in 0..len {
                app.inc_select();
            }
            assert_eq!(app.get_table_state(), start);
            assert!(mirrors(&app));
        }
    }
}

#[test]
fn select_on_single_entry_stays() {
    let mut app = App::new(sample(1));
    app.inc_select();
    assert_eq!(app.get_table_state(), 0);
    app.dec_select();
    assert_eq!(app.get_table_state(), 0);
    assert!(mirrors(&app));
}

#[test]
fn insert_appends_unlocked_and_keeps_selection() {
    let mut app = editor(2);
    app.inc_select();
    app.insert_color(sample(9));
    assert_eq!(app.get_colors(), vec![entry(0, false), entry(1, false), entry(9, false)]);
    assert_eq!(app.get_table_state(), 1);
    assert_eq!(app.get_scrollbar_state(), ScrollIndicator { content_length: 3, position: 1 });
}

#[test]
fn remove_in_the_middle_keeps_the_index() {
    let mut app = editor(4);
    app.inc_select();
    app.remove_color();
    assert_eq!(app.get_colors(), vec![entry(0, false), entry(2, false), entry(3, false)]);
    assert_eq!(app.get_table_state(), 1);
    assert_eq!(app.get_scrollbar_state(), ScrollIndicator { content_length: 3, position: 1 });
}

#[test]
fn remove_of_last_entry_steps_back() {
    let mut app = editor(3);
    app.dec_select();
    assert_eq!(app.get_table_state(), 2);
    app.remove_color();
    assert_eq!(app.get_colors(), vec![entry(0, false), entry(1, false)]);
    assert_eq!(app.get_table_state(), 1);
    assert_eq!(app.get_scrollbar_state(), ScrollIndicator { content_length: 2, position: 1 });
}

#[test]
fn remove_down_to_one_entry() {
    let mut app = editor(2);
    app.inc_select();
    app.remove_color();
    assert_eq!(app.get_colors(), vec![entry(0, false)]);
    assert_eq!(app.get_table_state(), 0);
    app.remove_color();
    assert_eq!(app.get_colors(), vec![entry(0, false)]);
    assert!(mirrors(&app));
}

#[test]
fn toggle_lock_flips_only_the_selected_entry() {
    let mut app = editor(3);
    app.inc_select();
    app.toggle_lock();
    assert_eq!(app.get_colors(), vec![entry(0, false), entry(1, true), entry(2, false)]);
    app.toggle_lock();
    assert_eq!(app.get_colors(), vec![entry(0, false), entry(1, false), entry(2, false)]);
    assert_eq!(app.get_table_state(), 1);
}

#[test]
fn regenerate_leaves_locked_entry_alone() {
    let mut app = editor(2);
    app.toggle_lock();
    let before = app.get_colors();
    app.regen_unlocked(&vec![sample(100), sample(101)]);
    let after = app.get_colors();
    assert_eq!(after[0], before[0]);
    assert!(after[0].locked);
    assert_ne!(after[1].okhsl, before[1].okhsl);
    assert_eq!(after[1], entry(101, false));
    assert_eq!(app.get_table_state(), 0);
    assert!(mirrors(&app));
}

#[test]
fn regenerate_changes_no_lock_and_no_order() {
    let mut app = editor(4);
    app.inc_select();
    app.toggle_lock();
    app.inc_select();
    app.inc_select();
    app.toggle_lock();
    app.regen_unlocked(&vec![sample(50), sample(51), sample(52), sample(53)]);
    assert_eq!(
        app.get_colors(),
        vec![entry(50, false), entry(1, true), entry(52, false), entry(3, true)]
    );
    assert_eq!(app.get_table_state(), 3);
}

#[test]
fn regenerate_with_too_few_samples_serves_the_first_entries() {
    let mut app = editor(3);
    app.regen_unlocked(&vec![sample(70)]);
    assert_eq!(app.get_colors(), vec![entry(70, false), entry(1, false), entry(2, false)]);
}

#[test]
fn get_colors_is_a_snapshot() {
    let mut app = editor(2);
    let snapshot = app.get_colors();
    app.shift_down();
    app.insert_color(sample(4));
    assert_eq!(snapshot, vec![entry(0, false), entry(1, false)]);
}

#[test]
fn invariant_holds_after_every_call() {
    let mut app = App::new(sample(0));
    let mut seed: u32 = 12345;
    for step in 0..2000u32 {
        seed = seed.wrapping_mul(1664525).wrapping_add(1013904223);
        match (seed >> 16) % 8 {
            0 => app.inc_select(),
            1 => app.dec_select(),
            2 => app.insert_color(sample((step % 251) as u8)),
            3 => app.remove_color(),
            4 => app.shift_up(),
            5 => app.shift_down(),
            6 => app.toggle_lock(),
            _ => {
                let n = app.get_colors().len();
                let samples: Vec<Sample> = (0..n).map(|i| sample((i % 200) as u8)).collect();
                app.regen_unlocked(&samples)
            }
        }
        assert!(mirrors(&app), "after step {}", step);
    }
}
