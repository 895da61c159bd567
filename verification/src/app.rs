//! The controller of the dashboard.
//!
//! The controller owns the snapshot and the state of the screen. It takes
//! one event at a time, changes its state, and is then ready to be painted:
//! nothing else ever changes it.

use vstd::prelude::*;
use crate::activity::{ActivityData, ActivityProgressBar, ActivityView, GaugeColor, GaugeView};
use crate::color::HighlightColor;
use crate::event::{clamp_progress, clamped, Event, FULL_PROGRESS};
use crate::key::{KeyCode, KeyEvent};
use crate::task_data::{fresh_id, next_id, task_views, TaskData, TaskView};
use crate::task_pop_up::{Command, PopUpState, TaskPopUp};
use crate::user_data::UserView;

verus! {

/// How many tabs the dashboard has.
pub const TAB_COUNT: usize = 2;

/// The controller as a plain value.
pub ghost struct AppState {
    pub exit: bool,
    pub progress_bar_color: HighlightColor,
    pub background_progress: u8,
    pub data: ActivityView,
    pub active_tab: usize,
    pub popup: PopUpState,
}

impl AppState {
    /// The controller at start-up, over the snapshot `data`.
    pub open spec fn initial(data: ActivityView) -> AppState {
        AppState {
            exit: false,
            progress_bar_color: HighlightColor::Green,
            background_progress: 0,
            data,
            active_tab: 0,
            popup: PopUpState::initial(),
        }
    }

    /// The operator's own tasks.
    pub open spec fn tasks(self) -> Seq<TaskView> {
        self.data.profile.tasks
    }

    /// How many tasks the operator has.
    pub open spec fn task_count(self) -> usize {
        self.tasks().len() as usize
    }

    /// The invariant of the controller: the tab is one of those there are,
    /// the background progress is a ratio, the snapshot is well formed, and
    /// the popup fits the operator's tasks.
    pub open spec fn wf(self) -> bool {
        &&& self.active_tab < TAB_COUNT
        &&& self.background_progress <= FULL_PROGRESS
        &&& self.data.wf()
        &&& self.popup.wf(self.task_count())
    }

    /// The same controller over other tasks of the operator.
    pub open spec fn with_tasks(self, tasks: Seq<TaskView>) -> AppState {
        AppState {
            data: ActivityView {
                profile: UserView { tasks, ..self.data.profile },
                ..self.data
            },
            ..self
        }
    }

    /// The tab after the one that is shown, counting round.
    pub open spec fn next_tab(self) -> usize {
        ((self.active_tab + 1) % (TAB_COUNT as int)) as usize
    }

    /// The popup opened or closed.
    pub open spec fn popup_toggled(self) -> AppState {
        AppState { popup: self.popup.toggled(), ..self }
    }

    /// The controller after it carried out `command` of the popup.
    ///
    /// `Create` appends a fresh task named by the popup's buffer. `Update`
    /// gives the task at its index that name. `Delete` removes the task at
    /// its index and brings the popup's cursor and selection back into the
    /// shorter list. An index outside the list changes nothing. `Nothing`
    /// closes the popup.
    pub open spec fn applied(self, command: Command) -> AppState {
        match command {
            Command::Create => self.with_tasks(
                self.tasks().push(TaskView::fresh(self.popup.input, next_id(self.tasks()))),
            ),
            Command::Update(index) => if index < self.tasks().len() {
                self.with_tasks(
                    self.tasks().update(
                        index as int,
                        self.tasks()[index as int].renamed(self.popup.input),
                    ),
                )
            } else {
                self
            },
            Command::Delete(index) => if index < self.tasks().len() {
                AppState {
                    popup: self.popup.after_removal((self.tasks().len() - 1) as usize),
                    ..self.with_tasks(self.tasks().remove(index as int))
                }
            } else {
                self
            },
            Command::Nothing => if self.popup.active {
                self.popup_toggled()
            } else {
                self
            },
        }
    }

    /// The controller after a key was pressed while the popup is closed:
    /// `q` asks to quit, `c` moves the highlight colour one step on, Tab
    /// shows the next tab, the popup key opens the popup, and every other
    /// key does nothing.
    pub open spec fn after_dashboard_key(self, code: KeyCode) -> AppState {
        match code {
            KeyCode::Char(c) => if c == 'q' {
                AppState { exit: true, ..self }
            } else if c == 'c' {
                AppState { progress_bar_color: self.progress_bar_color.successor(), ..self }
            } else {
                self
            },
            KeyCode::Tab => AppState { active_tab: self.next_tab(), ..self },
            KeyCode::Popup => self.popup_toggled(),
            _ => self,
        }
    }

    /// The controller after a key was pressed while the popup is open: the
    /// popup gets the key, and what it hands back is carried out at once.
    pub open spec fn after_popup_key(self, code: KeyCode) -> AppState {
        let heard = AppState { popup: self.popup.after_key(code, self.task_count()), ..self };
        match self.popup.emitted(code) {
            Some(command) => heard.applied(command),
            None => heard,
        }
    }

    /// The controller after one event of the keyboard. Only a key that
    /// went down counts; an open popup gets every such key.
    pub open spec fn after_key_event(self, key_event: KeyEvent) -> AppState {
        if !key_event.pressed() {
            self
        } else if self.popup.active {
            self.after_popup_key(key_event.code)
        } else {
            self.after_dashboard_key(key_event.code)
        }
    }

    /// The controller after one event. A report of the ticker becomes the
    /// background progress, cut off at a full gauge.
    pub open spec fn after_event(self, event: Event) -> AppState {
        match event {
            Event::Input(key_event) => self.after_key_event(key_event),
            Event::Progress(progress) => AppState {
                background_progress: clamped(progress as int) as u8,
                ..self
            },
        }
    }

    /// The controller after it consumed the events of `events` one by one
    /// until it was asked to quit or none was left.
    pub open spec fn after_run(self, events: Seq<Event>) -> AppState
        decreases events.len(),
    {
        if self.exit || events.len() == 0 {
            self
        } else {
            self.after_event(events[0]).after_run(events.drop_first())
        }
    }

    /// How many of `events` the controller consumes until it is asked to
    /// quit or none is left. It is painted once after each of them.
    pub open spec fn consumed(self, events: Seq<Event>) -> nat
        decreases events.len(),
    {
        if self.exit || events.len() == 0 {
            0
        } else {
            1 + self.after_event(events[0]).consumed(events.drop_first())
        }
    }

    /// The operator's own gauge: the background progress in the highlight
    /// colour, the seconds that are left of a hundred, and the name of the
    /// operator's first task.
    pub open spec fn profile_gauge(self) -> GaugeView {
        GaugeView {
            progress: self.background_progress,
            timer: (FULL_PROGRESS - clamped(self.background_progress as int)) as u64,
            color: GaugeColor::Highlight(self.progress_bar_color),
            user_name: Seq::empty(),
            task_name: match self.data.profile.current_task() {
                Some(task) => task.task_name,
                None => "No task"@,
            },
        }
    }
}

/// The controller of the dashboard.
pub struct App {
    exit: bool,
    progress_bar_color: HighlightColor,
    background_progress: u8,
    data: ActivityData,
    active_tab: usize,
    popup: TaskPopUp,
}

impl View for App {
    type V = AppState;

    closed spec fn view(&self) -> AppState {
        AppState {
            exit: self.exit,
            progress_bar_color: self.progress_bar_color,
            background_progress: self.background_progress,
            data: self.data@,
            active_tab: self.active_tab,
            popup: self.popup@,
        }
    }
}

impl App {
    /// The controller at start-up: not asked to quit, Green, an empty
    /// gauge, the first tab, and a closed popup.
    pub fn new(data: ActivityData) -> (app: App)
        ensures
            app@ == AppState::initial(data@),
            data@.wf() ==> app@.wf(),
    {
        App {
            exit: false,
            progress_bar_color: HighlightColor::first(),
            background_progress: 0,
            data,
            active_tab: 0,
            popup: TaskPopUp::new(),
        }
    }

    /// Whether the controller was asked to quit.
    pub fn should_exit(&self) -> (b: bool)
        ensures
            b == self@.exit,
    {
        self.exit
    }

    /// The highlight colour.
    pub fn progress_bar_color(&self) -> (color: HighlightColor)
        ensures
            color == self@.progress_bar_color,
    {
        self.progress_bar_color
    }

    /// The background progress, in hundredths.
    pub fn background_progress(&self) -> (progress: u8)
        ensures
            progress == self@.background_progress,
    {
        self.background_progress
    }

    /// The tab that is shown.
    pub fn active_tab(&self) -> (tab: usize)
        ensures
            tab == self@.active_tab,
    {
        self.active_tab
    }

    /// The snapshot.
    pub fn data(&self) -> (data: &ActivityData)
        ensures
            data@ == self@.data,
    {
        &self.data
    }

    /// The popup.
    pub fn popup(&self) -> (popup: &TaskPopUp)
        ensures
            popup@ == self@.popup,
    {
        &self.popup
    }

    /// Opens the popup, or closes it.
    pub fn toggle_popup(&mut self)
        ensures
            final(self)@ == old(self)@.popup_toggled(),
    {
        self.popup.toggle();
    }

    /// Carries out a command of the popup on the operator's tasks.
    pub fn apply_command(&mut self, command: Command)
        ensures
            final(self)@ == old(self)@.applied(command),
    {
        match command {
            Command::Create => {
                let id = fresh_id(&self.data.profile.tasks);
                let name = self.popup.input().to_owned();
                let task = TaskData::fresh(name, id);
                self.data.profile.tasks.push(task);
                assert(task_views(self.data.profile.tasks@) == task_views(
                    old(self).data.profile.tasks@,
                ).push(task@));
            },
            Command::Update(index) => {
                if index < self.data.profile.tasks.len() {
                    let name = self.popup.input().to_owned();
                    self.data.profile.tasks[index].rename(name);
                    assert(task_views(self.data.profile.tasks@) == task_views(
                        old(self).data.profile.tasks@,
                    ).update(index as int, old(self).data.profile.tasks@[index as int]@.renamed(name@)));
                }
            },
            Command::Delete(index) => {
                if index < self.data.profile.tasks.len() {
                    let _ = self.data.profile.tasks.remove(index);
                    self.popup.task_removed(self.data.profile.tasks.len());
                    assert(task_views(self.data.profile.tasks@) == task_views(
                        old(self).data.profile.tasks@,
                    ).remove(index as int));
                }
            },
            Command::Nothing => {
                if self.popup.is_active() {
                    self.popup.toggle();
                }
            },
        }
    }

    /// Handles one event of the keyboard.
    pub fn handle_key_event(&mut self, key_event: KeyEvent)
        ensures
            final(self)@ == old(self)@.after_key_event(key_event),
    {
        if !key_event.is_press() {
            return ;
        }
        if self.popup.is_active() {
            let emitted = self.popup.handle_input(key_event, self.data.profile.tasks.len());
            if let Some(command) = emitted {
                self.apply_command(command);
            }
        } else {
            match key_event.code {
                KeyCode::Char(c) => {
                    if c == 'q' {
                        self.exit = true;
                    } else if c == 'c' {
                        self.progress_bar_color = self.progress_bar_color.next();
                    }
                },
                KeyCode::Tab => {
                    self.active_tab = (self.active_tab % TAB_COUNT + 1) % TAB_COUNT;
                },
                KeyCode::Popup => {
                    self.popup.toggle();
                },
                _ => {},
            }
        }
    }

    /// Handles one event of the queue.
    pub fn handle_event(&mut self, event: Event)
        ensures
            final(self)@ == old(self)@.after_event(event),
    {
        match event {
            Event::Input(key_event) => self.handle_key_event(key_event),
            Event::Progress(progress) => {
                self.background_progress = clamp_progress(progress);
            },
        }
    }

    /// Consumes `events` in their order, each of them wholly before the
    /// next, until the controller is asked to quit or none is left, and
    /// returns how many it consumed: the screen is due once after each.
    pub fn run(&mut self, events: &Vec<Event>) -> (consumed: usize)
        ensures
            final(self)@ == old(self)@.after_run(events@),
            consumed == old(self)@.consumed(events@),
            consumed <= events@.len(),
            consumed < events@.len() ==> final(self)@.exit,
    {
        let mut i: usize = 0;
        proof {
            assert(events@.skip(0) == events@);
        }
        while i < events.len() && !self.exit
            invariant
                i <= events@.len(),
                self@.after_run(events@.skip(i as int)) == old(self)@.after_run(events@),
                i + self@.consumed(events@.skip(i as int)) == old(self)@.consumed(events@),
            decreases events@.len() - i,
        {
            proof {
                assert(events@.skip(i as int).drop_first() == events@.skip(i + 1));
            }
            self.handle_event(events[i]);
            i += 1;
        }
        i
    }

    /// The operator's own gauge.
    pub fn profile_bar(&self) -> (bar: ActivityProgressBar)
        ensures
            bar@ == self@.profile_gauge(),
    {
        let task_name = match self.data.profile.current_task() {
            Some(task) => task.task_name.clone(),
            None => "No task".to_owned(),
        };
        ActivityProgressBar {
            progress: self.background_progress,
            timer: (FULL_PROGRESS - clamp_progress(self.background_progress)) as u64,
            color: GaugeColor::Highlight(self.progress_bar_color),
            user_name: String::new(),
            task_name,
        }
    }
}

/// The controller after the key `code` went down `times` times.
pub open spec fn after_presses(state: AppState, code: KeyCode, times: nat) -> AppState
    decreases times,
{
    if times == 0 {
        state
    } else {
        after_presses(state, code, (times - 1) as nat).after_key_event(
            KeyEvent { code, kind: crate::key::KeyEventKind::Press },
        )
    }
}

/// A key that did not go down changes nothing.
pub proof fn lemma_only_presses_count(state: AppState, key_event: KeyEvent)
    requires
        !key_event.pressed(),
    ensures
        state.after_key_event(key_event) == state,
{
}

/// With the popup closed, `c` moves the highlight colour one step on and
/// changes nothing else; four presses lead every colour back to itself,
/// and no fewer do.
pub proof fn lemma_color_key_cycles(state: AppState)
    requires
        !state.popup.active,
    ensures
        after_presses(state, KeyCode::Char('c'), 1) == (AppState {
            progress_bar_color: state.progress_bar_color.successor(),
            ..state
        }),
        after_presses(state, KeyCode::Char('c'), 4) == state,
        after_presses(state, KeyCode::Char('c'), 1) != state,
        after_presses(state, KeyCode::Char('c'), 2) != state,
        after_presses(state, KeyCode::Char('c'), 3) != state,
{
    reveal_with_fuel(after_presses, 5);
    crate::color::lemma_cycle_has_length_four(state.progress_bar_color);
}

/// With the popup closed, Tab changes the tab and nothing else. The tab
/// it leads to is always one of those there are, and from such a tab two
/// presses lead back to it.
pub proof fn lemma_tab_key_toggles(state: AppState)
    requires
        !state.popup.active,
    ensures
        after_presses(state, KeyCode::Tab, 1) == (AppState {
            active_tab: state.next_tab(),
            ..state
        }),
        state.next_tab() < TAB_COUNT,
        state.active_tab < TAB_COUNT ==> state.next_tab() == 1 - state.active_tab,
        state.active_tab < TAB_COUNT ==> after_presses(state, KeyCode::Tab, 2) == state,
{
    reveal_with_fuel(after_presses, 3);
}

/// With the popup closed, `q` asks to quit and changes nothing else, and
/// the popup key opens the popup in normal mode over an empty buffer.
pub proof fn lemma_quit_and_popup_keys(state: AppState)
    requires
        !state.popup.active,
    ensures
        after_presses(state, KeyCode::Char('q'), 1) == (AppState { exit: true, ..state }),
        after_presses(state, KeyCode::Popup, 1) == (AppState {
            popup: PopUpState {
                active: true,
                input_mode: crate::task_pop_up::InputMode::Normal,
                input: Seq::empty(),
                ..state.popup
            },
            ..state
        }),
{
    reveal_with_fuel(after_presses, 2);
}

/// With the popup closed, a key other than `q`, `c`, Tab and the popup
/// key changes nothing.
pub proof fn lemma_other_keys_do_nothing(state: AppState, code: KeyCode)
    requires
        !state.popup.active,
        code != KeyCode::Char('q'),
        code != KeyCode::Char('c'),
        code != KeyCode::Tab,
        code != KeyCode::Popup,
    ensures
        after_presses(state, code, 1) == state,
{
    reveal_with_fuel(after_presses, 2);
}

/// A report of the ticker sets the background progress and nothing else:
/// to what was reported, if that is a ratio, and to a full gauge if not.
pub proof fn lemma_progress_is_assigned(state: AppState, progress: u8)
    ensures
        progress <= FULL_PROGRESS ==> state.after_event(Event::Progress(progress)) == (AppState {
            background_progress: progress,
            ..state
        }),
        progress > FULL_PROGRESS ==> state.after_event(Event::Progress(progress)) == (AppState {
            background_progress: FULL_PROGRESS,
            ..state
        }),
{
}

/// With the popup open in normal mode over a selected task, `d` removes
/// that task from the operator's list and no other, and clears the
/// selection; the cursor is left inside the shorter list, or unset if
/// the list is empty, and the controller keeps its invariant.
pub proof fn lemma_delete_key_removes_selected(state: AppState, index: usize)
    requires
        state.wf(),
        state.popup.active,
        state.popup.input_mode == crate::task_pop_up::InputMode::Normal,
        state.popup.selected_task == Some(index),
    ensures
        index < state.tasks().len(),
        after_presses(state, KeyCode::Char('d'), 1).tasks() == state.tasks().remove(index as int),
        after_presses(state, KeyCode::Char('d'), 1).tasks().len() == state.tasks().len() - 1,
        after_presses(state, KeyCode::Char('d'), 1).popup.selected_task.is_none(),
        after_presses(state, KeyCode::Char('d'), 1).popup.list_cursor matches Some(i) ==> i
            < state.tasks().len() - 1,
        after_presses(state, KeyCode::Char('d'), 1).wf(),
{
    reveal_with_fuel(after_presses, 2);
    lemma_command_keeps_invariant(state, Command::Delete(index));
}

/// Carrying out a command of the popup keeps the invariant of the
/// controller, as long as the list has room for the task that `Create`
/// adds.
pub proof fn lemma_command_keeps_invariant(state: AppState, command: Command)
    requires
        state.wf(),
        command == Command::Create ==> state.tasks().len() < usize::MAX,
    ensures
        state.applied(command).wf(),
{
    let after = state.applied(command);
    match command {
        Command::Create => {
            crate::task_pop_up::lemma_invariant_survives_growth(
                state.popup,
                state.task_count(),
                after.task_count(),
            );
        },
        Command::Delete(index) => {
            if index < state.tasks().len() {
                crate::task_pop_up::lemma_removal_keeps_invariant(state.popup, state.task_count());
            }
        },
        _ => {},
    }
}

/// No event breaks the invariant of the controller, as long as the list
/// has room for one more task.
pub proof fn lemma_event_keeps_invariant(state: AppState, event: Event)
    requires
        state.wf(),
        state.tasks().len() < usize::MAX,
    ensures
        state.after_event(event).wf(),
        state.after_event(event).tasks().len() <= state.tasks().len() + 1,
{
    if let Event::Input(key_event) = event {
        if key_event.pressed() && state.popup.active {
            let code = key_event.code;
            crate::task_pop_up::lemma_key_keeps_invariant(state.popup, code, state.task_count());
            let heard = AppState {
                popup: state.popup.after_key(code, state.task_count()),
                ..state
            };
            if let Some(command) = state.popup.emitted(code) {
                lemma_command_keeps_invariant(heard, command);
            }
        }
    }
}

/// A run keeps the invariant of the controller, as long as the list has
/// room for a task for every event.
pub proof fn lemma_run_keeps_invariant(state: AppState, events: Seq<Event>)
    requires
        state.wf(),
        state.tasks().len() + events.len() <= usize::MAX,
    ensures
        state.after_run(events).wf(),
    decreases events.len(),
{
    if !state.exit && events.len() > 0 {
        lemma_event_keeps_invariant(state, events[0]);
        lemma_run_keeps_invariant(state.after_event(events[0]), events.drop_first());
    }
}

/// A run consumes the events before the one at which the controller is
/// asked to quit, that one too, and none after it: a controller that was
/// asked to quit consumes nothing, and one that was not asked by the end
/// has consumed every event.
pub proof fn lemma_run_stops_at_quit(state: AppState, events: Seq<Event>)
    ensures
        state.consumed(events) <= events.len(),
        state.exit ==> state.consumed(events) == 0 && state.after_run(events) == state,
        state.consumed(events) < events.len() ==> state.after_run(events).exit,
        !state.after_run(events).exit ==> state.consumed(events) == events.len(),
    decreases events.len(),
{
    if !state.exit && events.len() > 0 {
        lemma_run_stops_at_quit(state.after_event(events[0]), events.drop_first());
    }
}

} // verus!
