use ksfx::controller::{init_state, next_pack_index, previous_pack_index, tick, LoopState};
use ksfx::settings::{get_name, Settings, SoundPackSettings};

fn keys(names: &[&str]) -> Vec<String> {
    names.iter().map(|n| n.to_string()).collect()
}

/// Two bare packs "a" and "b", all four bindings one key each.
fn two_pack_settings() -> Settings {
    Settings {
        sound_packs: vec![
            SoundPackSettings::Basic("a".to_string()),
            SoundPackSettings::Basic("b".to_string()),
        ],
        previous_sound_pack: Some(keys(&["F4"])),
        next_sound_pack: Some(keys(&["F5"])),
        terminate: Some(keys(&["F2"])),
        toggle: Some(keys(&["F3"])),
        volume: None,
        pitch_start: None,
        pitch_range: None,
        pitch_steps: None,
        fast_threshold: None,
    }
}

fn fresh(settings: &Settings) -> (Vec<usize>, LoopState) {
    let pack_sizes = vec![1; settings.sound_packs.len()];
    let state = init_state(settings, 0);
    (pack_sizes, state)
}

#[test]
fn next_index_wraps_after_pack_count_steps() {
    for start in 0..5usize {
        let mut i = start;
        for _ in 0..5 {
            i = next_pack_index(i, 5);
        }
        assert_eq!(i, start);
    }
    assert_eq!(next_pack_index(4, 5), 0);
}

#[test]
fn previous_index_is_the_inverse_of_next() {
    for i in 0..5usize {
        assert_eq!(previous_pack_index(next_pack_index(i, 5), 5), i);
        assert_eq!(next_pack_index(previous_pack_index(i, 5), 5), i);
    }
    assert_eq!(previous_pack_index(0, 5), 4);
}

#[test]
fn next_binding_switches_and_wraps() {
    let settings = two_pack_settings();
    let (pack_sizes, mut state) = fresh(&settings);

    let outcome = tick(&settings, &pack_sizes, &mut state, &keys(&["F5"]), 1);
    assert_eq!(outcome.switched_to, Some(1));
    assert_eq!(state.current_pack_index, 1);
    assert_eq!(get_name(&settings.sound_packs[1]), "b");

    // release, then press "next" again: wraps back to pack 0
    tick(&settings, &pack_sizes, &mut state, &keys(&[]), 2);
    let outcome = tick(&settings, &pack_sizes, &mut state, &keys(&["F5"]), 3);
    assert_eq!(outcome.switched_to, Some(0));
    assert_eq!(state.current_pack_index, 0);
}

#[test]
fn previous_binding_wraps_backwards() {
    let settings = two_pack_settings();
    let (pack_sizes, mut state) = fresh(&settings);

    let outcome = tick(&settings, &pack_sizes, &mut state, &keys(&["F4"]), 1);
    assert_eq!(outcome.switched_to, Some(1));
    assert_eq!(state.current_pack_index, 1);
}

#[test]
fn pack_switch_fires_once_per_hold() {
    let settings = two_pack_settings();
    let (pack_sizes, mut state) = fresh(&settings);

    let outcome = tick(&settings, &pack_sizes, &mut state, &keys(&["F5"]), 1);
    assert_eq!(outcome.switched_to, Some(1));
    for t in 2..5u64 {
        let outcome = tick(&settings, &pack_sizes, &mut state, &keys(&["F5"]), t);
        assert_eq!(outcome.switched_to, None);
        assert_eq!(state.current_pack_index, 1);
    }
}

#[test]
fn toggle_held_three_ticks_flips_once() {
    let settings = two_pack_settings();
    let (pack_sizes, mut state) = fresh(&settings);
    assert!(state.active);

    let mut flips = 0;
    for t in 1..=3u64 {
        let outcome = tick(&settings, &pack_sizes, &mut state, &keys(&["F3"]), t);
        if outcome.toggled {
            flips += 1;
        }
    }
    assert_eq!(flips, 1);
    assert!(!state.active);

    // released, then pressed again: flips again
    tick(&settings, &pack_sizes, &mut state, &keys(&[]), 4);
    let outcome = tick(&settings, &pack_sizes, &mut state, &keys(&["F3"]), 5);
    assert!(outcome.toggled);
    assert!(state.active);
}

#[test]
fn terminate_binding_reports_and_changes_nothing() {
    let settings = two_pack_settings();
    let (pack_sizes, mut state) = fresh(&settings);

    let outcome = tick(&settings, &pack_sizes, &mut state, &keys(&["F2"]), 1);
    assert!(outcome.terminate);
    assert!(!outcome.toggled);
    assert_eq!(outcome.switched_to, None);
    assert!(outcome.play.is_none());
    assert_eq!(state.current_pack_index, 0);
    assert_eq!(state.previous_held_key_count, 0);
}

#[test]
fn new_press_fires_once_per_count_growth() {
    let settings = two_pack_settings();
    let (pack_sizes, mut state) = fresh(&settings);

    // one key down: one press
    let outcome = tick(&settings, &pack_sizes, &mut state, &keys(&["A"]), 1);
    assert!(outcome.play.is_some());

    // a second key joins: exactly one further press, not one per held key
    let outcome = tick(&settings, &pack_sizes, &mut state, &keys(&["A", "B"]), 2);
    assert!(outcome.play.is_some());

    // same keys still held: no new press
    let outcome = tick(&settings, &pack_sizes, &mut state, &keys(&["A", "B"]), 3);
    assert!(outcome.play.is_none());

    // one key released, the other still held: no new press either
    let outcome = tick(&settings, &pack_sizes, &mut state, &keys(&["B"]), 4);
    assert!(outcome.play.is_none());
}

#[test]
fn inactive_controller_never_plays() {
    let settings = two_pack_settings();
    let (pack_sizes, mut state) = fresh(&settings);

    let outcome = tick(&settings, &pack_sizes, &mut state, &keys(&["F3"]), 1);
    assert!(outcome.toggled);
    assert!(!state.active);
    tick(&settings, &pack_sizes, &mut state, &keys(&[]), 2);

    let outcome = tick(&settings, &pack_sizes, &mut state, &keys(&["A"]), 3);
    assert!(outcome.play.is_none());
}

#[test]
fn clip_index_is_within_the_pack() {
    let settings = two_pack_settings();
    let pack_sizes = vec![1, 1];
    let mut state = init_state(&settings, 0);

    let outcome = tick(&settings, &pack_sizes, &mut state, &keys(&["A"]), 1);
    let play = outcome.play.expect("a press must play");
    // with a single clip, any in-range draw is index 0
    assert_eq!(play.clip_index, 0);
}

#[test]
fn pitch_climbs_on_fast_presses_and_resets_on_slow_ones() {
    // fast_threshold 1.0 s, pitch_start 0.5, pitch_range 0.5, pitch_steps 0.1
    let mut settings = two_pack_settings();
    settings.pitch_start = Some(500);
    settings.pitch_range = Some(500);
    settings.pitch_steps = Some(100);
    settings.fast_threshold = Some(1000);
    let (pack_sizes, mut state) = fresh(&settings);
    assert_eq!(state.current_pitch, 500);

    // fast press at pitch 0.5 yields 0.6
    let outcome = tick(&settings, &pack_sizes, &mut state, &keys(&["A"]), 500);
    assert_eq!(outcome.play.expect("plays").pitch, 600);

    // climb to 0.9 with more fast presses (release in between)
    let mut t = 501;
    while state.current_pitch < 900 {
        tick(&settings, &pack_sizes, &mut state, &keys(&[]), t);
        t += 1;
        tick(&settings, &pack_sizes, &mut state, &keys(&["A"]), t);
        t += 1;
    }
    assert_eq!(state.current_pitch, 900);

    // at 0.9 (= ceiling - steps) a fast press still applies: 1.0
    tick(&settings, &pack_sizes, &mut state, &keys(&[]), t);
    let outcome = tick(&settings, &pack_sizes, &mut state, &keys(&["A"]), t + 1);
    assert_eq!(outcome.play.expect("plays").pitch, 1000);

    // at the ceiling a fast press leaves the pitch unchanged
    tick(&settings, &pack_sizes, &mut state, &keys(&[]), t + 2);
    let outcome = tick(&settings, &pack_sizes, &mut state, &keys(&["A"]), t + 3);
    assert_eq!(outcome.play.expect("plays").pitch, 1000);

    // a slow press (>= 1.0 s later) always resets to exactly 0.5
    tick(&settings, &pack_sizes, &mut state, &keys(&[]), t + 4);
    let outcome = tick(&settings, &pack_sizes, &mut state, &keys(&["A"]), t + 3 + 1000);
    assert_eq!(outcome.play.expect("plays").pitch, 500);
}

#[test]
fn pitch_may_overshoot_the_ceiling_by_one_step() {
    // start 0.5, range 0.3 (ceiling 0.8), steps 0.25: 0.75 -> 1.0, one step past
    let mut settings = two_pack_settings();
    settings.pitch_start = Some(500);
    settings.pitch_range = Some(300);
    settings.pitch_steps = Some(250);
    settings.fast_threshold = Some(1000);
    let (pack_sizes, mut state) = fresh(&settings);

    let outcome = tick(&settings, &pack_sizes, &mut state, &keys(&["A"]), 100);
    assert_eq!(outcome.play.expect("plays").pitch, 750);
    tick(&settings, &pack_sizes, &mut state, &keys(&[]), 101);
    let outcome = tick(&settings, &pack_sizes, &mut state, &keys(&["A"]), 102);
    assert_eq!(outcome.play.expect("plays").pitch, 1000);
    // 1.0 is past the 0.8 ceiling, so the next fast press leaves it there
    tick(&settings, &pack_sizes, &mut state, &keys(&[]), 103);
    let outcome = tick(&settings, &pack_sizes, &mut state, &keys(&["A"]), 104);
    assert_eq!(outcome.play.expect("plays").pitch, 1000);
}

#[test]
fn volume_of_play_follows_effective_params() {
    let mut settings = two_pack_settings();
    settings.volume = Some(800);
    let (pack_sizes, mut state) = fresh(&settings);

    let outcome = tick(&settings, &pack_sizes, &mut state, &keys(&["A"]), 1);
    assert_eq!(outcome.play.expect("plays").volume, 800);
}

#[test]
fn default_settings_drive_the_controller() {
    let settings = ksfx::settings::default_settings();
    let pack_sizes = vec![3];
    let mut state = init_state(&settings, 0);
    assert_eq!(state.current_pitch, 500);

    // F3 is the default toggle binding
    let outcome = tick(&settings, &pack_sizes, &mut state, &keys(&["F3"]), 1);
    assert!(outcome.toggled);
    assert!(!state.active);

    // F5 is the default "next" binding; a single pack wraps onto itself
    tick(&settings, &pack_sizes, &mut state, &keys(&[]), 2);
    let outcome = tick(&settings, &pack_sizes, &mut state, &keys(&["F5"]), 3);
    assert_eq!(outcome.switched_to, Some(0));

    // F2 is the default terminate binding
    let outcome = tick(&settings, &pack_sizes, &mut state, &keys(&["F2"]), 4);
    assert!(outcome.terminate);
}

#[test]
fn duplicated_binding_key_never_fires_on_a_chord() {
    // a toggle binding listing one key twice names the set {A}: holding
    // {A, B} must not fire it, holding {A} must
    let mut settings = two_pack_settings();
    settings.toggle = Some(keys(&["A", "A"]));
    let (pack_sizes, mut state) = fresh(&settings);

    let outcome = tick(&settings, &pack_sizes, &mut state, &keys(&["A", "B"]), 1);
    assert!(!outcome.toggled);
    assert!(state.active);

    tick(&settings, &pack_sizes, &mut state, &keys(&[]), 2);
    let outcome = tick(&settings, &pack_sizes, &mut state, &keys(&["A"]), 3);
    assert!(outcome.toggled);
    assert!(!state.active);
}
