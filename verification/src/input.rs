//! The input-interpretation state machine.
//!
//! A decoded remote action arrives from the capture path; depending on the
//! current mode it adjusts the brightness, opens show or brightness
//! selection, picks the next show and cancels the running one, or is left
//! in the mailbox for the running show to consume.

use vstd::prelude::*;

verus! {

use crate::color::{palette_spec, standard_palette, NormRgbw};
use crate::config::{
    brightness_down,
    brightness_up,
    step_down_spec,
    step_up_spec,
    Config,
    ShowSelect,
};
use crate::fix::Fix32;
use crate::remote::RemoteAction;
use crate::token::ShowCancellationToken;

/// What the input task is waiting for.
#[derive(Clone, Copy, Debug, PartialEq, Eq, Structural)]
pub enum InputState {
    /// Plain operation: transport keys act directly.
    Waiting,
    /// The next digit or named key picks a show.
    ShowSelection,
    /// The next digit sets the brightness.
    BrightnessSelection,
}

impl Default for InputState {
    fn default() -> (s: Self)
        ensures
            s == InputState::Waiting,
    {
        InputState::Waiting
    }
}

/// The input task's private mode state.
#[derive(Debug)]
pub struct InputTask {
    pub state: InputState,
}

impl Default for InputTask {
    fn default() -> (t: Self)
        ensures
            t.state == InputState::Waiting,
    {
        InputTask { state: InputState::Waiting }
    }
}

/// The digit a numeric action stands for.
pub open spec fn action_number_spec(action: RemoteAction) -> Option<usize> {
    match action {
        RemoteAction::Zero => Some(0usize),
        RemoteAction::One => Some(1usize),
        RemoteAction::Two => Some(2usize),
        RemoteAction::Three => Some(3usize),
        RemoteAction::Four => Some(4usize),
        RemoteAction::Five => Some(5usize),
        RemoteAction::Six => Some(6usize),
        RemoteAction::Seven => Some(7usize),
        RemoteAction::Eight => Some(8usize),
        RemoteAction::Nine => Some(9usize),
        _ => None,
    }
}

/// Maps a numeric action to a digit, 0 through 9.
pub fn number_from_action(action: RemoteAction) -> (r: Option<usize>)
    ensures
        r == action_number_spec(action),
{
    match action {
        RemoteAction::Zero => Some(0),
        RemoteAction::One => Some(1),
        RemoteAction::Two => Some(2),
        RemoteAction::Three => Some(3),
        RemoteAction::Four => Some(4),
        RemoteAction::Five => Some(5),
        RemoteAction::Six => Some(6),
        RemoteAction::Seven => Some(7),
        RemoteAction::Eight => Some(8),
        RemoteAction::Nine => Some(9),
        _ => None,
    }
}

/// The color a digit stands for: zero is the dark color, one through nine
/// index the standard palette.
pub open spec fn action_color_spec(action: RemoteAction) -> Option<NormRgbw> {
    match action_number_spec(action) {
        Some(n) => Some(
            if n == 0 {
                NormRgbw {
                    r: Fix32 { bits: 0 },
                    g: Fix32 { bits: 0 },
                    b: Fix32 { bits: 0 },
                    w: Fix32 { bits: 0 },
                }
            } else {
                palette_spec(n - 1)
            },
        ),
        None => None,
    }
}

/// Maps a numeric action to its fixed color.
pub fn color_from_action(action: RemoteAction) -> (r: Option<NormRgbw>)
    ensures
        r == action_color_spec(action),
{
    match number_from_action(action) {
        Some(n) => {
            if n == 0 {
                Some(crate::color::color_none())
            } else {
                Some(standard_palette(n - 1))
            }
        },
        None => None,
    }
}

/// The show a selection-mode action picks, if any.
pub open spec fn show_for_action_spec(action: RemoteAction) -> Option<ShowSelect> {
    match action_color_spec(action) {
        Some(color) => Some(ShowSelect::Uniform(color)),
        None => match action {
            RemoteAction::Stop => Some(ShowSelect::Null),
            RemoteAction::Prog => Some(ShowSelect::Demo),
            RemoteAction::Time => Some(ShowSelect::SeparatedClock),
            RemoteAction::Random => Some(ShowSelect::Random),
            RemoteAction::Teletext => Some(ShowSelect::Snake),
            RemoteAction::Repeat => Some(ShowSelect::Byte),
            _ => None,
        },
    }
}

/// Picks the next show for a selection-mode action: a digit gives a solid
/// fill over the standard palette, the named keys give the named effects.
pub fn next_show(action: RemoteAction) -> (r: Option<ShowSelect>)
    ensures
        r == show_for_action_spec(action),
{
    if let Some(color) = color_from_action(action) {
        Some(ShowSelect::Uniform(color))
    } else {
        match action {
            RemoteAction::Stop => Some(ShowSelect::Null),
            RemoteAction::Prog => Some(ShowSelect::Demo),
            RemoteAction::Time => Some(ShowSelect::SeparatedClock),
            RemoteAction::Random => Some(ShowSelect::Random),
            RemoteAction::Teletext => Some(ShowSelect::Snake),
            RemoteAction::Repeat => Some(ShowSelect::Byte),
            _ => None,
        }
    }
}

/// Everything one input step decides: the next mode, the configuration
/// after the step, whether cancellation stands requested, and what is left
/// in the mailbox for the running show.
pub open spec fn input_transition(
    state: InputState,
    action: RemoteAction,
    show: Option<ShowSelect>,
    brightness: int,
    requested: bool,
) -> (InputState, Option<ShowSelect>, int, bool, Option<RemoteAction>) {
    match state {
        InputState::Waiting => match action {
            RemoteAction::Stop => (
                InputState::Waiting,
                Some(ShowSelect::Null),
                brightness,
                true,
                None,
            ),
            RemoteAction::PlayPause => (InputState::ShowSelection, show, brightness, requested, None),
            RemoteAction::Time => (
                InputState::BrightnessSelection,
                show,
                brightness,
                requested,
                None,
            ),
            RemoteAction::Rewind => (
                InputState::Waiting,
                show,
                step_down_spec(brightness),
                requested,
                None,
            ),
            RemoteAction::Forward => (
                InputState::Waiting,
                show,
                step_up_spec(brightness),
                requested,
                None,
            ),
            _ => (InputState::Waiting, show, brightness, requested, Some(action)),
        },
        InputState::ShowSelection => match show_for_action_spec(action) {
            Some(sel) => (InputState::Waiting, Some(sel), brightness, true, None),
            None => (InputState::ShowSelection, show, brightness, requested, None),
        },
        InputState::BrightnessSelection => match action_number_spec(action) {
            Some(n) => (
                InputState::Waiting,
                show,
                n * 65536 / 9,
                requested,
                None,
            ),
            None => (InputState::BrightnessSelection, show, brightness, requested, None),
        },
    }
}

/// Consumes the pending remote action and applies one input step.
///
/// In plain mode, stop selects the dark show and cancels the running one;
/// play/pause opens show selection; the time key opens brightness
/// selection; rewind and forward step the brightness one twentieth down or
/// up, saturating at zero and one; any other action is left in the mailbox
/// for the running show.  In show selection, a recognized action stores the
/// chosen show and requests cancellation exactly once.  In brightness
/// selection, a digit `n` sets the brightness to `n/9` of full scale.
pub fn input_task(
    task: &mut InputTask,
    remote_input: &mut Option<RemoteAction>,
    config: &mut Config,
    token: &mut ShowCancellationToken,
)
    requires
        old(remote_input).is_some(),
        old(config).wf(),
    ensures
        ({
            let t = input_transition(
                old(task).state,
                old(remote_input).unwrap(),
                old(config).show,
                old(config).brightness.bits as int,
                old(token).spec_requested(),
            );
            &&& final(task).state == t.0
            &&& final(config).show == t.1
            &&& final(config).brightness.bits == t.2
            &&& final(token).spec_requested() == t.3
            &&& *final(remote_input) == t.4
        }),
        final(config).wf(),
{
    let action = (*remote_input).unwrap();
    *remote_input = None;
    match task.state {
        InputState::Waiting => match action {
            RemoteAction::Stop => {
                config.show = Some(ShowSelect::Null);
                token.request();
            },
            RemoteAction::PlayPause => {
                task.state = InputState::ShowSelection;
            },
            RemoteAction::Time => {
                task.state = InputState::BrightnessSelection;
            },
            RemoteAction::Rewind => {
                config.brightness = brightness_down(config.brightness);
            },
            RemoteAction::Forward => {
                config.brightness = brightness_up(config.brightness);
            },
            _ => {
                *remote_input = Some(action);
            },
        },
        InputState::ShowSelection => {
            if let Some(sel) = next_show(action) {
                config.show = Some(sel);
                token.request();
                task.state = InputState::Waiting;
            }
        },
        InputState::BrightnessSelection => {
            if let Some(n) = number_from_action(action) {
                assert(n <= 9);
                let bits: i32 = ((n as i32) * 65536) / 9;
                config.brightness = Fix32 { bits };
                task.state = InputState::Waiting;
            }
        },
    }
}

} // verus!
