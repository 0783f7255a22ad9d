//! The control path: the token, the input state machine, brightness
//! stepping, and the two decoders.

use arclib::config::{Config, ShowSelect};
use arclib::fix::Fix32;
use arclib::input::{color_from_action, input_task, next_show, number_from_action, InputState, InputTask};
use arclib::remote::{NadRc512, RemoteAction};
use arclib::token::ShowCancellationToken;
use arclib::uart::uart_action;

fn run_input(
    state: InputState,
    action: RemoteAction,
    config: &mut Config,
    token: &mut ShowCancellationToken,
) -> (InputTask, Option<RemoteAction>) {
    let mut task = InputTask { state };
    let mut mailbox = Some(action);
    input_task(&mut task, &mut mailbox, config, token);
    (task, mailbox)
}

#[test]
fn token_reset_then_request() {
    let mut token = ShowCancellationToken::default();
    assert!(!token.is_requested());
    token.request();
    assert!(token.is_requested());
    token.request();
    assert!(token.is_requested());
    token.reset();
    assert!(!token.is_requested());
    token.request();
    assert!(token.is_requested());
    token.reset();
    assert!(!token.is_requested());
}

#[test]
fn digit_three_in_selection_mode_picks_palette_index_two() {
    let mut config = Config::default();
    let mut token = ShowCancellationToken::default();
    let (task, mailbox) = run_input(
        InputState::ShowSelection,
        RemoteAction::Three,
        &mut config,
        &mut token,
    );
    let expected = arclib::color::standard_palette(2);
    assert!(matches!(config.show, Some(ShowSelect::Uniform(c)) if c == expected));
    assert!(token.is_requested());
    assert!(matches!(task.state, InputState::Waiting));
    assert!(mailbox.is_none());
}

#[test]
fn stop_in_plain_mode_selects_the_off_show() {
    let mut config = Config::default();
    let mut token = ShowCancellationToken::default();
    let (task, mailbox) = run_input(
        InputState::Waiting,
        RemoteAction::Stop,
        &mut config,
        &mut token,
    );
    assert!(matches!(config.show, Some(ShowSelect::Null)));
    assert!(token.is_requested());
    assert!(matches!(task.state, InputState::Waiting));
    assert!(mailbox.is_none());
}

#[test]
fn unhandled_action_returns_to_the_mailbox() {
    let mut config = Config::default();
    let mut token = ShowCancellationToken::default();
    let (_, mailbox) = run_input(
        InputState::Waiting,
        RemoteAction::Nine,
        &mut config,
        &mut token,
    );
    assert_eq!(mailbox, Some(RemoteAction::Nine));
    assert!(config.show.is_none());
    assert!(!token.is_requested());
}

#[test]
fn ten_increases_from_zero_reach_exactly_half() {
    let mut config = Config::default();
    config.brightness = Fix32 { bits: 0 };
    let mut token = ShowCancellationToken::default();
    for _ in 0..10 {
        run_input(
            InputState::Waiting,
            RemoteAction::Forward,
            &mut config,
            &mut token,
        );
    }
    assert_eq!(config.brightness.bits, 32768);
    for _ in 0..10 {
        run_input(
            InputState::Waiting,
            RemoteAction::Forward,
            &mut config,
            &mut token,
        );
    }
    assert_eq!(config.brightness.bits, 65536);
    // saturated at full scale
    run_input(
        InputState::Waiting,
        RemoteAction::Forward,
        &mut config,
        &mut token,
    );
    assert_eq!(config.brightness.bits, 65536);
}

#[test]
fn decreases_saturate_at_zero() {
    let mut config = Config::default();
    config.brightness = Fix32 { bits: 3277 };
    let mut token = ShowCancellationToken::default();
    run_input(
        InputState::Waiting,
        RemoteAction::Rewind,
        &mut config,
        &mut token,
    );
    assert_eq!(config.brightness.bits, 0);
    run_input(
        InputState::Waiting,
        RemoteAction::Rewind,
        &mut config,
        &mut token,
    );
    assert_eq!(config.brightness.bits, 0);
}

#[test]
fn brightness_selection_sets_ninths() {
    let mut config = Config::default();
    let mut token = ShowCancellationToken::default();
    let (task, _) = run_input(
        InputState::Waiting,
        RemoteAction::Time,
        &mut config,
        &mut token,
    );
    assert!(matches!(task.state, InputState::BrightnessSelection));
    let (task, _) = run_input(
        InputState::BrightnessSelection,
        RemoteAction::Nine,
        &mut config,
        &mut token,
    );
    assert_eq!(config.brightness.bits, 65536);
    assert!(matches!(task.state, InputState::Waiting));
    run_input(
        InputState::BrightnessSelection,
        RemoteAction::Three,
        &mut config,
        &mut token,
    );
    assert_eq!(config.brightness.bits, 3 * 65536 / 9);
}

#[test]
fn play_pause_opens_show_selection() {
    let mut config = Config::default();
    let mut token = ShowCancellationToken::default();
    let (task, _) = run_input(
        InputState::Waiting,
        RemoteAction::PlayPause,
        &mut config,
        &mut token,
    );
    assert!(matches!(task.state, InputState::ShowSelection));
    assert!(config.show.is_none());
}

#[test]
fn selection_ignores_unmapped_actions() {
    let mut config = Config::default();
    let mut token = ShowCancellationToken::default();
    let (task, _) = run_input(
        InputState::ShowSelection,
        RemoteAction::Next,
        &mut config,
        &mut token,
    );
    assert!(config.show.is_none());
    assert!(!token.is_requested());
    assert!(matches!(task.state, InputState::ShowSelection));
}

#[test]
fn next_show_maps_the_named_keys() {
    assert!(matches!(next_show(RemoteAction::Stop), Some(ShowSelect::Null)));
    assert!(matches!(next_show(RemoteAction::Prog), Some(ShowSelect::Demo)));
    assert!(matches!(
        next_show(RemoteAction::Time),
        Some(ShowSelect::SeparatedClock)
    ));
    assert!(matches!(next_show(RemoteAction::Random), Some(ShowSelect::Random)));
    assert!(matches!(next_show(RemoteAction::Teletext), Some(ShowSelect::Snake)));
    assert!(matches!(next_show(RemoteAction::Repeat), Some(ShowSelect::Byte)));
    assert!(next_show(RemoteAction::Next).is_none());
    assert!(next_show(RemoteAction::Rewind).is_none());
}

#[test]
fn digit_zero_selects_darkness() {
    let dark = arclib::color::color_none();
    assert!(matches!(
        next_show(RemoteAction::Zero),
        Some(ShowSelect::Uniform(c)) if c == dark
    ));
    assert_eq!(color_from_action(RemoteAction::Zero), Some(dark));
}

#[test]
fn numbers_map_to_digits() {
    assert_eq!(number_from_action(RemoteAction::Zero), Some(0));
    assert_eq!(number_from_action(RemoteAction::Five), Some(5));
    assert_eq!(number_from_action(RemoteAction::Nine), Some(9));
    assert_eq!(number_from_action(RemoteAction::Stop), None);
}

#[test]
fn handset_table_decodes_known_commands() {
    assert_eq!(NadRc512::action_for(135, 2), Some(RemoteAction::Stop));
    assert_eq!(NadRc512::action_for(135, 1), Some(RemoteAction::PlayPause));
    assert_eq!(NadRc512::action_for(135, 14), Some(RemoteAction::Three));
    assert_eq!(NadRc512::action_for(135, 76), Some(RemoteAction::Zero));
    assert_eq!(NadRc512::action_for(135, 77), Some(RemoteAction::Teletext));
    assert_eq!(NadRc512::action_for(135, 99), None);
    // frames for another device are not ours
    assert_eq!(NadRc512::action_for(1, 2), None);
}

#[test]
fn uart_bytes_stand_in_for_buttons() {
    assert_eq!(uart_action(b'1'), Some(RemoteAction::One));
    assert_eq!(uart_action(b'0'), Some(RemoteAction::Zero));
    assert_eq!(uart_action(b's'), Some(RemoteAction::Stop));
    assert_eq!(uart_action(b'p'), Some(RemoteAction::PlayPause));
    assert_eq!(uart_action(b'?'), Some(RemoteAction::Random));
    assert_eq!(uart_action(b']'), Some(RemoteAction::Forward));
    assert_eq!(uart_action(b'z'), None);
}
