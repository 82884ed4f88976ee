//! Tests of the command dispatcher: the state mutation and collaborator
//! action of every command variant, and the decode-then-dispatch round
//! trip.

use ledmatrix::command::{Command, PatternVals};
use ledmatrix::decode::{encode_command, parse_command};
use ledmatrix::dispatch::{handle_command, Effect, GridImage, State};

fn base_state() -> State {
    State {
        brightness: 10,
        grid: GridImage::Pattern(PatternVals::Gradient),
        animate: false,
    }
}

#[test]
fn brightness_stores_level_and_asks_for_scaling() {
    let mut st = base_state();
    let effect = handle_command(&Command::Brightness(0xC8), &mut st);
    assert_eq!(effect, Effect::SetScaling(0xC8));
    assert_eq!(st.brightness, 0xC8);
    assert_eq!(st.grid, base_state().grid);
    assert_eq!(st.animate, base_state().animate);
}

#[test]
fn percentage_replaces_grid_only() {
    let mut st = base_state();
    let effect = handle_command(&Command::Percentage(55), &mut st);
    assert_eq!(effect, Effect::NoAction);
    assert_eq!(st.grid, GridImage::Percentage(55));
    assert_eq!(st.brightness, base_state().brightness);
    assert_eq!(st.animate, base_state().animate);
}

#[test]
fn buffered_patterns_replace_grid_only() {
    for kind in [
        PatternVals::Gradient,
        PatternVals::DoubleGradient,
        PatternVals::DisplayLotus,
        PatternVals::ZigZag,
        PatternVals::DisplayPanic,
        PatternVals::DisplayLotus2,
    ] {
        let mut st = base_state();
        st.grid = GridImage::Percentage(1);
        let effect = handle_command(&Command::Pattern(kind), &mut st);
        assert_eq!(effect, Effect::NoAction);
        assert_eq!(st.grid, GridImage::Pattern(kind));
        assert_eq!(st.brightness, base_state().brightness);
    }
}

#[test]
fn full_brightness_drives_display_directly() {
    let mut st = base_state();
    let effect = handle_command(&Command::Pattern(PatternVals::FullBrightness), &mut st);
    assert_eq!(effect, Effect::FullBrightness);
    assert_eq!(st, base_state());
}

#[test]
fn bootloader_reset_is_a_terminal_effect() {
    let mut st = base_state();
    let effect = handle_command(&Command::BootloaderReset, &mut st);
    assert_eq!(effect, Effect::BootloaderReset);
    assert_eq!(st, base_state());
}

#[test]
fn panic_is_a_terminal_effect() {
    let mut st = base_state();
    let effect = handle_command(&Command::Panic, &mut st);
    assert_eq!(effect, Effect::Panic);
    assert_eq!(st, base_state());
}

#[test]
fn sleep_is_a_deliberate_no_op() {
    for flag in [true, false] {
        let mut st = base_state();
        let effect = handle_command(&Command::Sleep(flag), &mut st);
        assert_eq!(effect, Effect::NoAction);
        assert_eq!(st, base_state());
    }
}

#[test]
fn animate_stores_flag_only() {
    let mut st = base_state();
    let effect = handle_command(&Command::Animate(true), &mut st);
    assert_eq!(effect, Effect::NoAction);
    assert!(st.animate);
    assert_eq!(st.brightness, base_state().brightness);
    assert_eq!(st.grid, base_state().grid);
}

#[test]
fn draw_replaces_grid_with_raw_payload() {
    let mut st = base_state();
    let payload = [0xABu8; 39];
    let effect = handle_command(&Command::Draw(payload), &mut st);
    assert_eq!(effect, Effect::NoAction);
    assert_eq!(st.grid, GridImage::Raw(payload));
    assert_eq!(st.brightness, base_state().brightness);
    assert_eq!(st.animate, base_state().animate);
}

#[test]
fn encode_decode_dispatch_applies_the_documented_mutation() {
    let mut st = base_state();

    let bytes = encode_command(&Command::Brightness(33));
    let cmd = parse_command(bytes.len(), &bytes).unwrap();
    let effect = handle_command(&cmd, &mut st);
    assert_eq!(effect, Effect::SetScaling(33));
    assert_eq!(
        st,
        State {
            brightness: 33,
            ..base_state()
        }
    );

    let bytes = encode_command(&Command::Animate(true));
    let cmd = parse_command(bytes.len(), &bytes).unwrap();
    let effect = handle_command(&cmd, &mut st);
    assert_eq!(effect, Effect::NoAction);
    assert_eq!(
        st,
        State {
            brightness: 33,
            animate: true,
            ..base_state()
        }
    );

    let bytes = encode_command(&Command::Draw([3u8; 39]));
    let cmd = parse_command(bytes.len(), &bytes).unwrap();
    let effect = handle_command(&cmd, &mut st);
    assert_eq!(effect, Effect::NoAction);
    assert_eq!(
        st,
        State {
            brightness: 33,
            animate: true,
            grid: GridImage::Raw([3u8; 39]),
        }
    );
}
