//! The show execution engine and the fixed-priority dispatch model.
//!
//! The engine owns the closed set of running shows.  One engine step takes
//! a pending selection if there is one (resetting the cancellation token),
//! drives the active show one unit of work, turns the frame buffer into
//! wire words under the configured brightness, and then — after the frame,
//! never mid-frame — observes cancellation and completion.  At most one
//! show is ever mid-render: the engine holds at most one instance, and it
//! owns the token from the reset until input requests cancellation.
//!
//! Dispatch follows three fixed priority bands: raw remote capture above
//! input interpretation above show rendering, run to completion on one
//! core.  The two shared resources, the configuration and the token, carry
//! priority ceilings that dominate every task sharing them, which bounds
//! priority inversion and gives mutual exclusion without masking all
//! interrupts.

use vstd::prelude::*;

verus! {

use crate::clock::{clock_pixel_spec, SeparatedClockShow};
use crate::color::{exp_bits, palette_spec, NormRgbw};
use crate::config::{Config, ShowSelect};
use crate::controller::{lit_word_spec, ColorMemoryController, STRIP_LEN};
use crate::demo::{demo_delay_spec, demo_next_spec, DemoShow, DemoState};
use crate::hsv::is_full_hue;
use crate::input::{input_task, input_transition, InputTask};
use crate::random::RandomShow;
use crate::remote::{NadRc512, RemoteAction, NAD_RC512_ADDRESS};
use crate::show::{dark_spec, gradient_pixel_spec, segment_color_spec, ByteShow, NullShow, State, UniformShow};
use crate::snake::SnakeShow;
use crate::token::ShowCancellationToken;

/// A running show instance: the closed set of effects.
pub enum ActiveShow {
    Uniform(UniformShow),
    Null(NullShow),
    Snake(SnakeShow),
    Random(RandomShow),
    SeparatedClock(SeparatedClockShow),
    Byte(ByteShow),
    Demo(DemoShow),
}

impl ActiveShow {
    pub open spec fn wf(&self) -> bool {
        match self {
            ActiveShow::Uniform(s) => s.wf(),
            ActiveShow::Null(_) => true,
            ActiveShow::Snake(s) => s.wf(),
            ActiveShow::Random(_) => true,
            ActiveShow::SeparatedClock(s) => s.wf(),
            ActiveShow::Byte(s) => s.wf() && s.spec_ispace() < s.spec_nspace(),
            ActiveShow::Demo(s) => s.wf(),
        }
    }

    /// One unit of work of whichever effect is running; the frame, the
    /// show's own advance, the reported state and the pause all follow the
    /// dispatched effect's step relation.
    fn update(&mut self, ctrl: &mut ColorMemoryController) -> (r: (State, u32))
        requires
            old(self).wf(),
            old(ctrl).wf(),
        ensures
            final(ctrl).wf(),
            r.0 == State::Running ==> final(self).wf(),
            show_step_spec(
                *old(self),
                old(ctrl).view(),
                *final(self),
                final(ctrl).view(),
                r.0,
                r.1,
            ),
    {
        match self {
            ActiveShow::Uniform(s) => s.update(ctrl),
            ActiveShow::Null(s) => s.update(ctrl),
            ActiveShow::Snake(s) => s.update(ctrl),
            ActiveShow::Random(s) => s.update(ctrl),
            ActiveShow::SeparatedClock(s) => s.update(ctrl),
            ActiveShow::Byte(s) => s.update(ctrl),
            ActiveShow::Demo(s) => s.update(ctrl),
        }
    }
}

/// What one unit of work of each effect does: how the frame buffer and the
/// show's own state before and after one `ActiveShow::update` relate, and
/// what state and pause the step reports.
pub open spec fn show_step_spec(
    pre: ActiveShow,
    pre_view: Seq<NormRgbw>,
    post: ActiveShow,
    post_view: Seq<NormRgbw>,
    st: State,
    delay: u32,
) -> bool {
    match pre {
        ActiveShow::Uniform(s) => {
            &&& post == ActiveShow::Uniform(s)
            &&& (forall|j: int| 0 <= j < STRIP_LEN ==> #[trigger] post_view[j] == s.spec_color())
            &&& st == State::Finished
            &&& delay == 0
        },
        ActiveShow::Null(_) => {
            &&& post is Null
            &&& post_view == pre_view
            &&& st == State::Finished
            &&& delay == 0
        },
        ActiveShow::Snake(s) => {
            &&& (post matches ActiveShow::Snake(s2) && {
                &&& s2.spec_tail().len() == s.spec_tail().len() + (
                if s.spec_head() == s.spec_fruit_pos() {
                    1int
                } else {
                    0int
                })
                &&& post_view[s2.spec_fruit_pos()] == s2.spec_fruit_color()
                &&& s2.spec_head() == (s.spec_head() + STRIP_LEN - 1) % (STRIP_LEN as int)
                &&& (s2.spec_tail().len() <= STRIP_LEN ==> forall|k: int|
                    0 <= k < s2.spec_tail().len() && (s.spec_head() + k) % (STRIP_LEN as int)
                        != s2.spec_fruit_pos() ==> post_view[(s.spec_head() + k) % (
                    STRIP_LEN as int)] == #[trigger] s2.spec_tail()[k])
            })
            &&& st == State::Running
            &&& delay == 0
        },
        ActiveShow::Random(_) => {
            &&& post is Random
            &&& (forall|j: int| 0 <= j < STRIP_LEN ==> is_full_hue(#[trigger] post_view[j]))
            &&& st == State::Running
            &&& delay == 0
        },
        ActiveShow::SeparatedClock(s) => {
            &&& (post matches ActiveShow::SeparatedClock(s2) && {
                &&& (forall|j: int|
                    0 <= j < STRIP_LEN ==> #[trigger] post_view[j] == clock_pixel_spec(
                        s.spec_hour(),
                        s.spec_minute(),
                        j,
                    ))
                &&& s2.spec_minute() == (s.spec_minute() + 1) % 60
                &&& s2.spec_hour() == s.spec_hour() + (s.spec_minute() + 1) / 60
                &&& st == (if s2.spec_hour() == 12 {
                    State::Finished
                } else {
                    State::Running
                })
            })
            &&& delay == 100
        },
        ActiveShow::Byte(s) => {
            &&& (post matches ActiveShow::Byte(s2) && {
                let lper = STRIP_LEN as int / (9 * s.spec_data().len() as int);
                let lo = s.spec_ispace() * lper;
                let hi = (s.spec_ispace() + 1) * lper;
                &&& s2.spec_data() == s.spec_data()
                &&& s2.spec_ispace() == s.spec_ispace() + 1
                &&& (forall|j: int|
                    0 <= j < STRIP_LEN ==> #[trigger] post_view[j] == (if lo <= j < hi {
                        segment_color_spec(s.spec_data(), s.spec_ispace())
                    } else if s.spec_ispace() == 0 {
                        dark_spec()
                    } else {
                        pre_view[j]
                    }))
                &&& st == (if s2.spec_ispace() == s2.spec_nspace() {
                    State::Finished
                } else {
                    State::Running
                })
            })
            &&& delay == 0
        },
        ActiveShow::Demo(s) => {
            &&& (post matches ActiveShow::Demo(s2) && {
                &&& s2.spec_state() == demo_next_spec(s.spec_state())
                &&& (s.spec_state() matches DemoState::Bar { idx, l } ==> post_view
                    == pre_view.update(l as int, palette_spec(idx as int)))
                &&& (s.spec_state() matches DemoState::Unbar { l, .. } ==> post_view
                    == pre_view.update(l as int, dark_spec()))
                &&& (s.spec_state() matches DemoState::Clear { .. } ==> forall|j: int|
                    0 <= j < STRIP_LEN ==> #[trigger] post_view[j] == dark_spec())
                &&& (s.spec_state() matches DemoState::Rainbow { .. } ==> forall|j: int|
                    0 <= j < STRIP_LEN ==> is_full_hue(#[trigger] post_view[j]))
                &&& (s.spec_state() == DemoState::Sweep ==> forall|j: int|
                    0 <= j < STRIP_LEN ==> #[trigger] post_view[j] == gradient_pixel_spec(
                        palette_spec(0),
                        palette_spec(6),
                        j,
                    ))
            })
            &&& st == State::Running
            &&& delay == demo_delay_spec(s.spec_state())
        },
    }
}

/// The byte pattern the diagnostic show displays, as a specification value.
pub open spec fn standard_pattern_spec() -> Seq<u8> {
    seq![0b1010_1010u8, 0b1111_1111u8, 0b0000_0000u8, 0b1100_1100u8]
}

/// The byte pattern the diagnostic show displays.
fn standard_byte_pattern() -> (v: Vec<u8>)
    ensures
        v@ == standard_pattern_spec(),
{
    let v = vec![0b1010_1010u8, 0b1111_1111u8, 0b0000_0000u8, 0b1100_1100u8];
    proof {
        assert(v@ =~= standard_pattern_spec());
    }
    v
}

/// Builds the running instance a selection stands for.  The seed feeds the
/// effects that draw random numbers.
pub fn instantiate(sel: ShowSelect, seed: u64) -> (s: ActiveShow)
    requires
        sel matches ShowSelect::Uniform(c) ==> c.in_range(),
    ensures
        s.wf(),
        sel matches ShowSelect::Uniform(c) ==> (s matches ActiveShow::Uniform(u)
            && u.spec_color() == c),
        sel == ShowSelect::Null ==> s is Null,
        sel == ShowSelect::Snake ==> (s matches ActiveShow::Snake(k) && k.spec_tail().len()
            == 0),
        sel == ShowSelect::Random ==> s is Random,
        sel == ShowSelect::SeparatedClock ==> (s matches ActiveShow::SeparatedClock(c2)
            && c2.spec_hour() == 0 && c2.spec_minute() == 0),
        sel == ShowSelect::Byte ==> (s matches ActiveShow::Byte(b) && b.spec_data()
            == standard_pattern_spec() && b.spec_ispace() == 0),
        sel == ShowSelect::Demo ==> (s matches ActiveShow::Demo(d) && d.spec_state() == (
        DemoState::Bar { idx: 0usize, l: 0usize })),
{
    match sel {
        ShowSelect::Null => ActiveShow::Null(NullShow),
        ShowSelect::Uniform(c) => ActiveShow::Uniform(UniformShow::new(c)),
        ShowSelect::Snake => ActiveShow::Snake(SnakeShow::new(seed)),
        ShowSelect::Random => ActiveShow::Random(RandomShow::new(seed)),
        ShowSelect::SeparatedClock => ActiveShow::SeparatedClock(SeparatedClockShow::new()),
        ShowSelect::Byte => ActiveShow::Byte(ByteShow::new(standard_byte_pattern())),
        ShowSelect::Demo => ActiveShow::Demo(DemoShow::new()),
    }
}

/// What the hardware layer must do after one engine step: transmit a frame,
/// then pause.
pub struct RenderOutput {
    pub frame: Option<Vec<u32>>,
    pub delay_ms: u32,
}

/// The render task's state: the show mid-render, if any, and its frame
/// buffer.
pub struct ShowTask {
    pub active: Option<ActiveShow>,
    pub ctrl: ColorMemoryController,
}

/// How many shows are mid-render; never more than one.
pub open spec fn renderers(t: &ShowTask) -> int {
    if t.active is Some {
        1
    } else {
        0
    }
}

impl ShowTask {
    pub open spec fn wf(&self) -> bool {
        &&& (self.active matches Some(s) ==> s.wf())
        &&& self.ctrl.wf()
    }

    /// A fresh engine with nothing running.
    pub fn init() -> (t: ShowTask)
        ensures
            t.wf(),
            t.active is None,
    {
        ShowTask { active: None, ctrl: ColorMemoryController::new() }
    }
}

/// One engine step.
///
/// A pending selection replaces whatever ran before: the token is reset and
/// the new show starts on a fresh dark buffer, so selecting while a show is
/// mid-render leaves exactly one renderer.  If a show ran, its frame comes
/// back as wire words under the configured brightness, and the engine then
/// observes completion and cancellation — after the frame, never during
/// it.  A show that stays active still owns a quiet token: between its
/// reset and the next outside request, nothing else renders.
pub fn show_task(
    task: &mut ShowTask,
    config: &mut Config,
    token: &mut ShowCancellationToken,
    seed: u64,
) -> (out: RenderOutput)
    requires
        old(task).wf(),
        old(config).wf(),
    ensures
        final(task).wf(),
        renderers(final(task)) <= 1,
        final(config).show is None,
        final(config).brightness == old(config).brightness,
        final(config).wf(),
        old(config).show is Some ==> !final(token).spec_requested(),
        old(config).show is None ==> *final(token) == *old(token),
        old(config).show is None && old(task).active is None ==> *final(task) == *old(task)
            && out.frame is None && out.delay_ms == 0,
        old(config).show is None && old(task).active is Some && old(token).spec_requested()
            ==> final(task).active is None,
        (out.frame is Some) <==> (old(config).show is Some || old(task).active is Some),
        final(task).active is Some ==> !final(token).spec_requested(),
        out.frame matches Some(words) ==> words@.len() == STRIP_LEN,
        // the frame is exactly the rendered buffer, word by word, under the
        // configured brightness
        out.frame matches Some(words) ==> forall|i: int|
            0 <= i < STRIP_LEN ==> #[trigger] words@[i] == lit_word_spec(
                final(task).ctrl.view()[i],
                exp_bits(old(config).brightness.bits as int),
            ),
        // a pending selection starts at once and renders its first unit
        old(config).show matches Some(ShowSelect::Uniform(c)) ==> (forall|j: int|
            0 <= j < STRIP_LEN ==> #[trigger] final(task).ctrl.view()[j] == c)
            && final(task).active is None && out.delay_ms == 0,
        old(config).show == Some(ShowSelect::Null) ==> (forall|j: int|
            0 <= j < STRIP_LEN ==> #[trigger] final(task).ctrl.view()[j] == dark_spec())
            && final(task).active is None && out.delay_ms == 0,
        old(config).show == Some(ShowSelect::SeparatedClock) ==> (forall|j: int|
            0 <= j < STRIP_LEN ==> #[trigger] final(task).ctrl.view()[j] == clock_pixel_spec(
                0,
                0,
                j,
            )) && final(task).active is Some && out.delay_ms == 100,
        old(config).show == Some(ShowSelect::Byte) ==> (forall|j: int|
            0 <= j < STRIP_LEN ==> #[trigger] final(task).ctrl.view()[j] == (if 0 <= j < 6 {
                segment_color_spec(standard_pattern_spec(), 0)
            } else {
                dark_spec()
            })) && final(task).active is Some && out.delay_ms == 0,
        old(config).show == Some(ShowSelect::Demo) ==> (forall|j: int|
            0 <= j < STRIP_LEN ==> #[trigger] final(task).ctrl.view()[j] == (if j == 0 {
                palette_spec(0)
            } else {
                dark_spec()
            })) && final(task).active is Some && out.delay_ms == 2,
        old(config).show == Some(ShowSelect::Random) ==> (forall|j: int|
            0 <= j < STRIP_LEN ==> is_full_hue(#[trigger] final(task).ctrl.view()[j]))
            && final(task).active is Some && out.delay_ms == 0,
        old(config).show == Some(ShowSelect::Snake) ==> (final(task).active matches Some(
            ActiveShow::Snake(s2),
        ) && final(task).ctrl.view()[s2.spec_fruit_pos()] == s2.spec_fruit_color())
            && out.delay_ms == 0,
        // a held show advances by exactly one unit of its own step relation
        old(config).show is None && old(task).active is Some ==> exists|
            post: ActiveShow,
            st: State,
        |
            #[trigger] show_step_spec(
                old(task).active.unwrap(),
                old(task).ctrl.view(),
                post,
                final(task).ctrl.view(),
                st,
                out.delay_ms,
            ) && final(task).active == (if st == State::Running && !old(
                token,
            ).spec_requested() {
                Some(post)
            } else {
                None::<ActiveShow>
            }),
{
    let sel = config.show;
    config.show = None;
    if let Some(s) = sel {
        token.reset();
        task.active = Some(instantiate(s, seed));
        task.ctrl = ColorMemoryController::new();
    }
    let ghost pre_show = task.active;
    let ghost pre_view = task.ctrl.view();
    let step: (State, u32);
    match &mut task.active {
        Some(show) => {
            step = show.update(&mut task.ctrl);
        },
        None => {
            return RenderOutput { frame: None, delay_ms: 0 };
        },
    }
    let ghost post_show = task.active.unwrap();
    let words = task.ctrl.words(config.brightness);
    if token.is_requested() || matches!(step.0, State::Finished) {
        task.active = None;
    }
    let out = RenderOutput { frame: Some(words), delay_ms: step.1 };
    proof {
        assert(show_step_spec(
            pre_show.unwrap(),
            pre_view,
            post_show,
            task.ctrl.view(),
            step.0,
            step.1,
        ));
        if sel == Some(ShowSelect::Byte) {
            assert(standard_pattern_spec().len() == 4);
            assert(STRIP_LEN as int / (9 * standard_pattern_spec().len() as int) == 6)
                by (nonlinear_arith)
                requires
                    standard_pattern_spec().len() == 4,
            ;
        }
        if old(config).show is None {
            let pre = old(task).active.unwrap();
            assert(pre_show.unwrap() == pre);
            assert(pre_view == old(task).ctrl.view());
            assert(task.active == (if step.0 == State::Running && !old(
                token,
            ).spec_requested() {
                Some(post_show)
            } else {
                None::<ActiveShow>
            }));
            assert(show_step_spec(
                old(task).active.unwrap(),
                old(task).ctrl.view(),
                post_show,
                task.ctrl.view(),
                step.0,
                out.delay_ms,
            ));
            assert(exists|post: ActiveShow, st: State|
                #[trigger] show_step_spec(
                    old(task).active.unwrap(),
                    old(task).ctrl.view(),
                    post,
                    task.ctrl.view(),
                    st,
                    out.delay_ms,
                ) && task.active == (if st == State::Running && !old(token).spec_requested() {
                    Some(post)
                } else {
                    None::<ActiveShow>
                }));
        }
    }
    out
}

/// The three tasks, one per priority band.
#[derive(Clone, Copy, Debug, PartialEq, Eq, Structural)]
pub enum TaskId {
    /// Show rendering, the lowest band: runs whenever nothing else is due.
    Show,
    /// Input interpretation.
    Input,
    /// Raw remote capture, the highest band: bound to the GPIO edge
    /// interrupt.
    Remote,
}

/// The fixed priority of each task; higher preempts lower.
pub open spec fn priority_spec(t: TaskId) -> int {
    match t {
        TaskId::Show => 1,
        TaskId::Input => 2,
        TaskId::Remote => 3,
    }
}

pub fn priority(t: TaskId) -> (p: u8)
    ensures
        p == priority_spec(t),
{
    match t {
        TaskId::Show => 1,
        TaskId::Input => 2,
        TaskId::Remote => 3,
    }
}

/// The two-and-a-half pieces of cross-task state.
#[derive(Clone, Copy, Debug, PartialEq, Eq, Structural)]
pub enum ResourceId {
    /// The shared configuration store.
    Config,
    /// The decoded-action mailbox.
    RemoteInput,
    /// The cancellation token.
    Token,
}

/// Which tasks touch which shared resource, as the task table declares.
pub open spec fn shares_spec(t: TaskId, r: ResourceId) -> bool {
    match r {
        ResourceId::Config => t == TaskId::Show || t == TaskId::Input,
        ResourceId::RemoteInput => true,
        ResourceId::Token => t == TaskId::Show || t == TaskId::Input,
    }
}

/// The priority ceiling of each shared resource: the highest priority among
/// the tasks sharing it.
pub open spec fn ceiling_spec(r: ResourceId) -> int {
    match r {
        ResourceId::Config => 2,
        ResourceId::RemoteInput => 3,
        ResourceId::Token => 2,
    }
}

pub fn ceiling(r: ResourceId) -> (c: u8)
    ensures
        c == ceiling_spec(r),
{
    match r {
        ResourceId::Config => 2,
        ResourceId::RemoteInput => 3,
        ResourceId::Token => 2,
    }
}

/// Every resource's ceiling dominates every task that shares it, and is
/// itself held by some sharer: while a holder runs at the ceiling, no other
/// sharer can preempt it, so access is mutually exclusive without masking
/// all interrupts, and the ceiling is no higher than it must be.
pub proof fn lemma_ceiling_exact(r: ResourceId)
    ensures
        forall|t: TaskId| shares_spec(t, r) ==> priority_spec(t) <= ceiling_spec(r),
        exists|t: TaskId| shares_spec(t, r) && priority_spec(t) == ceiling_spec(r),
{
    match r {
        ResourceId::Config => {
            assert(shares_spec(TaskId::Input, r) && priority_spec(TaskId::Input) == 2);
        },
        ResourceId::RemoteInput => {
            assert(shares_spec(TaskId::Remote, r) && priority_spec(TaskId::Remote) == 3);
        },
        ResourceId::Token => {
            assert(shares_spec(TaskId::Input, r) && priority_spec(TaskId::Input) == 2);
        },
    }
}

/// The dispatcher's pending set.  The show task is always ready (it
/// re-spawns itself after each unit); the input task is pended by the
/// capture path; capture itself runs directly off the interrupt.
#[derive(Clone, Copy, Debug, PartialEq, Eq, Structural)]
pub struct Scheduler {
    pub pend_input: bool,
}

/// Which tasks are ready to dispatch.
pub open spec fn ready_spec(s: Scheduler, t: TaskId) -> bool {
    match t {
        TaskId::Show => true,
        TaskId::Input => s.pend_input,
        TaskId::Remote => false,
    }
}

impl Scheduler {
    pub fn init() -> (s: Scheduler)
        ensures
            !s.pend_input,
    {
        Scheduler { pend_input: false }
    }

    /// Picks the highest-priority ready task; the show task backstops.
    pub fn pick_next(&self) -> (t: TaskId)
        ensures
            ready_spec(*self, t),
            forall|u: TaskId| ready_spec(*self, u) ==> priority_spec(u) <= priority_spec(t),
    {
        if self.pend_input {
            TaskId::Input
        } else {
            TaskId::Show
        }
    }
}

/// The whole controller: shared state, task-local state, and the pending
/// set, advanced one dispatched task at a time.
pub struct System {
    pub config: Config,
    pub remote_input: Option<RemoteAction>,
    pub token: ShowCancellationToken,
    pub input: InputTask,
    pub show: ShowTask,
    pub sched: Scheduler,
}

impl System {
    pub open spec fn wf(&self) -> bool {
        &&& self.config.wf()
        &&& self.show.wf()
        &&& (self.sched.pend_input ==> self.remote_input is Some)
    }

    /// A fresh controller: full brightness, nothing selected, nothing
    /// running, no input pending.
    pub fn init() -> (s: System)
        ensures
            s.wf(),
            s.show.active is None,
            s.config.show is None,
            !s.token.spec_requested(),
    {
        System {
            config: Config::default(),
            remote_input: None,
            token: ShowCancellationToken::default(),
            input: InputTask::default(),
            show: ShowTask::init(),
            sched: Scheduler::init(),
        }
    }

    /// The capture task, run straight off the edge interrupt: looks the
    /// decoded frame up in the handset table and, on a hit, fills the
    /// mailbox and pends input interpretation.
    pub fn remote_task(&mut self, address: u32, command: u32)
        requires
            old(self).wf(),
        ensures
            final(self).wf(),
            ({
                let decoded = if address == NAD_RC512_ADDRESS {
                    crate::remote::nad_rc512_action_spec(command)
                } else {
                    None
                };
                match decoded {
                    Some(a) => final(self).remote_input == Some(a)
                        && final(self).sched.pend_input,
                    None => *final(self) == *old(self),
                }
            }),
            final(self).config == old(self).config,
            final(self).token == old(self).token,
            final(self).show == old(self).show,
    {
        match NadRc512::action_for(address, command) {
            Some(action) => {
                self.remote_input = Some(action);
                self.sched.pend_input = true;
            },
            None => {},
        }
    }

    /// One dispatch: runs the highest-priority ready task to completion.
    /// Input interpretation, when pended, runs before rendering; otherwise
    /// the engine renders one unit.  However the step goes, at most one
    /// show is mid-render afterwards.
    pub fn tick(&mut self, seed: u64) -> (out: RenderOutput)
        requires
            old(self).wf(),
        ensures
            final(self).wf(),
            renderers(&final(self).show) <= 1,
            !final(self).sched.pend_input,
            old(self).sched.pend_input ==> out.frame is None && final(self).show == old(
                self,
            ).show && ({
                let t = input_transition(
                    old(self).input.state,
                    old(self).remote_input.unwrap(),
                    old(self).config.show,
                    old(self).config.brightness.bits as int,
                    old(self).token.spec_requested(),
                );
                &&& final(self).input.state == t.0
                &&& final(self).config.show == t.1
                &&& final(self).config.brightness.bits == t.2
                &&& final(self).token.spec_requested() == t.3
                &&& final(self).remote_input == t.4
            }),
            !old(self).sched.pend_input ==> ({
                &&& final(self).config.show is None
                &&& final(self).config.brightness == old(self).config.brightness
                &&& ((out.frame is Some) <==> (old(self).config.show is Some || old(
                    self,
                ).show.active is Some))
                &&& (final(self).show.active is Some ==> !final(self).token.spec_requested())
                &&& (old(self).config.show is None && old(self).show.active is Some && old(
                    self,
                ).token.spec_requested() ==> final(self).show.active is None)
                &&& (out.frame matches Some(words) ==> words@.len() == STRIP_LEN)
                &&& (out.frame matches Some(words) ==> forall|i: int|
                    0 <= i < STRIP_LEN ==> #[trigger] words@[i] == lit_word_spec(
                        final(self).show.ctrl.view()[i],
                        exp_bits(old(self).config.brightness.bits as int),
                    ))
                &&& (old(self).config.show matches Some(ShowSelect::Uniform(c)) ==> (forall|
                    j: int,
                |
                    0 <= j < STRIP_LEN ==> #[trigger] final(self).show.ctrl.view()[j] == c)
                    && final(self).show.active is None)
                &&& (old(self).config.show is None && old(self).show.active is Some ==> exists|
                    post: ActiveShow,
                    st: State,
                |
                    #[trigger] show_step_spec(
                        old(self).show.active.unwrap(),
                        old(self).show.ctrl.view(),
                        post,
                        final(self).show.ctrl.view(),
                        st,
                        out.delay_ms,
                    ) && final(self).show.active == (if st == State::Running && !old(
                        self,
                    ).token.spec_requested() {
                        Some(post)
                    } else {
                        None::<ActiveShow>
                    }))
            }),
    {
        let next = self.sched.pick_next();
        match next {
            TaskId::Input => {
                self.sched.pend_input = false;
                input_task(
                    &mut self.input,
                    &mut self.remote_input,
                    &mut self.config,
                    &mut self.token,
                );
                RenderOutput { frame: None, delay_ms: 0 }
            },
            _ => {
                proof {
                    if self.sched.pend_input {
                        assert(ready_spec(self.sched, TaskId::Input));
                        assert(priority_spec(TaskId::Input) <= priority_spec(next));
                    }
                }
                show_task(&mut self.show, &mut self.config, &mut self.token, seed)
            },
        }
    }
}

} // verus!
