//! The task popup: a modal editor for the operator's own tasks.
//!
//! The popup never touches the task list. It moves a cursor over the list,
//! stages a command, collects the text that goes with it, and hands the
//! command to its caller, who applies it.

use vstd::prelude::*;
use crate::key::{KeyCode, KeyEvent};

verus! {

/// Whether keys are commands or text.
#[derive(Clone, Copy, Debug, PartialEq, Eq, Structural)]
pub enum InputMode {
    Normal,
    Editing,
}

/// What the popup asks its caller to do with the task list.
#[derive(Clone, Copy, Debug, PartialEq, Eq, Structural)]
pub enum Command {
    /// Append a task named by the input buffer.
    Create,
    /// Rename the task at this index to the input buffer.
    Update(usize),
    /// Remove the task at this index.
    Delete(usize),
    /// Nothing is staged; as an emitted command: close the popup.
    Nothing,
}

impl Command {
    /// Whether the command takes its text from the input buffer.
    pub open spec fn takes_text(self) -> bool {
        self is Create || self is Update
    }

    /// Whether the command takes its text from the input buffer.
    pub fn needs_text(&self) -> (b: bool)
        ensures
            b == self.takes_text(),
    {
        match self {
            Command::Create => true,
            Command::Update(_) => true,
            _ => false,
        }
    }
}

/// The popup as a plain value.
pub ghost struct PopUpState {
    pub active: bool,
    pub input_mode: InputMode,
    pub input: Seq<char>,
    pub command: Command,
    pub selected_task: Option<usize>,
    pub list_cursor: Option<usize>,
}

/// The place of the cursor after a step towards the end of a list of
/// `task_count > 0` entries: the first entry follows the last, and an
/// unset cursor starts at the first.
pub open spec fn cursor_forward(cursor: Option<usize>, task_count: usize) -> usize {
    match cursor {
        Some(i) => if i + 1 < task_count {
            (i + 1) as usize
        } else {
            0
        },
        None => 0,
    }
}

/// The place of the cursor after a step towards the start of a list of
/// `task_count > 0` entries: the last entry precedes the first, an unset
/// cursor starts at the first, and a cursor beyond the list falls back to
/// its last entry.
pub open spec fn cursor_backward(cursor: Option<usize>, task_count: usize) -> usize {
    match cursor {
        Some(i) => if 0 < i <= task_count {
            (i - 1) as usize
        } else {
            (task_count - 1) as usize
        },
        None => 0,
    }
}

/// The place of a cursor after the list under it shrank to `remaining`
/// entries: where it was if that entry exists, else on the last entry,
/// and unset over an empty list.
pub open spec fn cursor_clamped(cursor: Option<usize>, remaining: usize) -> Option<usize> {
    match cursor {
        Some(i) => if remaining == 0 {
            None
        } else if i < remaining {
            Some(i)
        } else {
            Some((remaining - 1) as usize)
        },
        None => None,
    }
}

impl PopUpState {
    /// The popup before any key: closed, in normal mode, with nothing
    /// typed, staged or selected.
    pub open spec fn initial() -> PopUpState {
        PopUpState {
            active: false,
            input_mode: InputMode::Normal,
            input: Seq::empty(),
            command: Command::Nothing,
            selected_task: None,
            list_cursor: None,
        }
    }

    /// The invariant of a popup over a list of `task_count` tasks: cursor
    /// and selection point into the list, and whoever edits, edits for a
    /// staged command that takes text.
    pub open spec fn wf(self, task_count: usize) -> bool {
        &&& self.selected_task matches Some(i) ==> i < task_count
        &&& self.list_cursor matches Some(i) ==> i < task_count
        &&& self.input_mode == InputMode::Editing ==> self.command.takes_text()
    }

    /// Opening and closing. A popup that opens starts in normal mode with
    /// an empty buffer.
    pub open spec fn toggled(self) -> PopUpState {
        if self.active {
            PopUpState { active: false, ..self }
        } else {
            PopUpState { active: true, input_mode: InputMode::Normal, input: Seq::empty(), ..self }
        }
    }

    /// Cursor and selection moved to `index`.
    pub open spec fn pointing_at(self, index: usize) -> PopUpState {
        PopUpState { list_cursor: Some(index), selected_task: Some(index), ..self }
    }

    /// One step towards the end of the list; nothing over an empty list.
    pub open spec fn after_next(self, task_count: usize) -> PopUpState {
        if task_count == 0 {
            self
        } else {
            self.pointing_at(cursor_forward(self.list_cursor, task_count))
        }
    }

    /// One step towards the start of the list; nothing over an empty list.
    pub open spec fn after_previous(self, task_count: usize) -> PopUpState {
        if task_count == 0 {
            self
        } else {
            self.pointing_at(cursor_backward(self.list_cursor, task_count))
        }
    }

    /// Editing begins for a staged command that takes text, and only for
    /// such a command.
    pub open spec fn editing_started(self) -> PopUpState {
        if self.command.takes_text() {
            PopUpState { input_mode: InputMode::Editing, ..self }
        } else {
            self
        }
    }

    /// Back to normal mode, with buffer and staged command kept.
    pub open spec fn editing_stopped(self) -> PopUpState {
        PopUpState { input_mode: InputMode::Normal, ..self }
    }

    /// `command` staged over an empty buffer, in editing mode.
    pub open spec fn staged(self, command: Command) -> PopUpState {
        PopUpState { command, input: Seq::empty(), ..self }.editing_started()
    }

    /// An edit given up: normal mode, nothing typed, nothing staged.
    pub open spec fn edit_aborted(self) -> PopUpState {
        PopUpState {
            input_mode: InputMode::Normal,
            input: Seq::empty(),
            command: Command::Nothing,
            ..self
        }
    }

    /// Whether Enter completes the edit: some text was typed for a staged
    /// command that takes it.
    pub open spec fn can_finalize(self) -> bool {
        self.input.len() > 0 && self.command.takes_text()
    }

    /// The popup after the key `code`, over a list of `task_count` tasks.
    pub open spec fn after_key(self, code: KeyCode, task_count: usize) -> PopUpState {
        match self.input_mode {
            InputMode::Normal => match code {
                KeyCode::Down => self.after_next(task_count),
                KeyCode::Up => self.after_previous(task_count),
                KeyCode::Char(c) => if c == 'e' {
                    match self.selected_task {
                        Some(index) => self.staged(Command::Update(index)),
                        None => self,
                    }
                } else if c == 'c' {
                    self.staged(Command::Create)
                } else {
                    self
                },
                _ => self,
            },
            InputMode::Editing => match code {
                KeyCode::Char(c) => PopUpState { input: self.input.push(c), ..self },
                KeyCode::Backspace => if self.input.len() > 0 {
                    PopUpState { input: self.input.drop_last(), ..self }
                } else {
                    self
                },
                KeyCode::Esc => self.edit_aborted(),
                KeyCode::Enter => if self.can_finalize() {
                    self.editing_stopped()
                } else {
                    self
                },
                _ => self,
            },
        }
    }

    /// The command that the popup hands to its caller at the key `code`,
    /// if it hands over any: the deletion of the selected task, the request
    /// to close, or the staged command once its text is complete.
    pub open spec fn emitted(self, code: KeyCode) -> Option<Command> {
        match self.input_mode {
            InputMode::Normal => match code {
                KeyCode::Char(c) => if c == 'd' {
                    match self.selected_task {
                        Some(index) => Some(Command::Delete(index)),
                        None => None,
                    }
                } else {
                    None
                },
                KeyCode::Esc => Some(Command::Nothing),
                _ => None,
            },
            InputMode::Editing => match code {
                KeyCode::Enter => if self.can_finalize() {
                    Some(self.command)
                } else {
                    None
                },
                _ => None,
            },
        }
    }

    /// The popup after a task left the list, which now has `remaining`
    /// entries: nothing is selected, and the cursor is back inside the list.
    pub open spec fn after_removal(self, remaining: usize) -> PopUpState {
        PopUpState {
            selected_task: None,
            list_cursor: cursor_clamped(self.list_cursor, remaining),
            ..self
        }
    }
}

/// The popup of the dashboard.
pub struct TaskPopUp {
    active: bool,
    input: String,
    input_mode: InputMode,
    command: Command,
    selected_task: Option<usize>,
    list_cursor: Option<usize>,
}

impl View for TaskPopUp {
    type V = PopUpState;

    closed spec fn view(&self) -> PopUpState {
        PopUpState {
            active: self.active,
            input_mode: self.input_mode,
            input: self.input@,
            command: self.command,
            selected_task: self.selected_task,
            list_cursor: self.list_cursor,
        }
    }
}

impl TaskPopUp {
    /// A closed popup with nothing typed, staged or selected.
    pub fn new() -> (popup: TaskPopUp)
        ensures
            popup@ == PopUpState::initial(),
            forall|n: usize| popup@.wf(n),
    {
        TaskPopUp {
            active: false,
            input: String::new(),
            input_mode: InputMode::Normal,
            command: Command::Nothing,
            selected_task: None,
            list_cursor: None,
        }
    }

    /// Whether the popup is open.
    pub fn is_active(&self) -> (b: bool)
        ensures
            b == self@.active,
    {
        self.active
    }

    /// Whether keys are read as commands or as text.
    pub fn input_mode(&self) -> (mode: InputMode)
        ensures
            mode == self@.input_mode,
    {
        self.input_mode
    }

    /// The text typed so far.
    pub fn input(&self) -> (text: &str)
        ensures
            text@ == self@.input,
    {
        self.input.as_str()
    }

    /// The staged command.
    pub fn command(&self) -> (command: Command)
        ensures
            command == self@.command,
    {
        self.command
    }

    /// The index of the selected task.
    pub fn selected_task(&self) -> (index: Option<usize>)
        ensures
            index == self@.selected_task,
    {
        self.selected_task
    }

    /// The index of the list entry under the cursor.
    pub fn list_cursor(&self) -> (index: Option<usize>)
        ensures
            index == self@.list_cursor,
    {
        self.list_cursor
    }

    /// Opens a closed popup, in normal mode with an empty buffer, and
    /// closes an open one.
    pub fn toggle(&mut self)
        ensures
            final(self)@ == old(self)@.toggled(),
    {
        self.active = !self.active;
        if self.active {
            self.input_mode = InputMode::Normal;
            self.input = String::new();
        }
    }

    /// Moves cursor and selection one task towards the end of a list of
    /// `task_count` tasks, from the last task to the first. Over an empty
    /// list nothing moves.
    pub fn select_next(&mut self, task_count: usize)
        ensures
            final(self)@ == old(self)@.after_next(task_count),
            task_count > 0 ==> final(self)@.list_cursor == Some(
                cursor_forward(old(self)@.list_cursor, task_count),
            ) && cursor_forward(old(self)@.list_cursor, task_count) < task_count,
    {
        if task_count == 0 {
            return ;
        }
        let i: usize = match self.list_cursor {
            Some(i) => {
                if i >= task_count - 1 {
                    0
                } else {
                    i + 1
                }
            },
            None => 0,
        };
        self.list_cursor = Some(i);
        self.selected_task = Some(i);
    }

    /// Moves cursor and selection one task towards the start of a list of
    /// `task_count` tasks, from the first task to the last. Over an empty
    /// list nothing moves.
    pub fn select_previous(&mut self, task_count: usize)
        ensures
            final(self)@ == old(self)@.after_previous(task_count),
            task_count > 0 ==> final(self)@.list_cursor == Some(
                cursor_backward(old(self)@.list_cursor, task_count),
            ) && cursor_backward(old(self)@.list_cursor, task_count) < task_count,
    {
        if task_count == 0 {
            return ;
        }
        let i: usize = match self.list_cursor {
            Some(i) => {
                if i == 0 || i > task_count {
                    task_count - 1
                } else {
                    i - 1
                }
            },
            None => 0,
        };
        self.list_cursor = Some(i);
        self.selected_task = Some(i);
    }

    /// Enters editing mode for the staged command. Without a staged
    /// command that takes text there is nothing to edit, and the popup
    /// stays as it is.
    pub fn start_editing(&mut self)
        ensures
            final(self)@ == old(self)@.editing_started(),
    {
        if self.command.needs_text() {
            self.input_mode = InputMode::Editing;
        }
    }

    /// Returns to normal mode. Buffer and staged command stay.
    pub fn stop_editing(&mut self)
        ensures
            final(self)@ == old(self)@.editing_stopped(),
    {
        self.input_mode = InputMode::Normal;
    }

    /// Stages `command` over an empty buffer and starts editing.
    fn stage(&mut self, command: Command)
        ensures
            final(self)@ == old(self)@.staged(command),
    {
        self.command = command;
        self.input = String::new();
        self.start_editing();
    }

    /// Gives the edit up: normal mode, empty buffer, nothing staged.
    fn abort_editing(&mut self)
        ensures
            final(self)@ == old(self)@.edit_aborted(),
    {
        self.stop_editing();
        self.input = String::new();
        self.command = Command::Nothing;
    }

    /// Handles one key over a list of `task_count` tasks and returns the
    /// command that the caller is to carry out, if the key completed one.
    ///
    /// In normal mode the arrows move the cursor, `e` starts renaming the
    /// selected task, `c` starts a new task, `d` asks for the selected task
    /// to be deleted and Esc asks for the popup to be closed. In editing
    /// mode characters and Backspace edit the buffer, Esc gives the edit up
    /// and Enter, once something is typed, completes it. Every other key
    /// does nothing.
    pub fn handle_input(&mut self, key_event: KeyEvent, task_count: usize) -> (emitted: Option<
        Command,
    >)
        ensures
            final(self)@ == old(self)@.after_key(key_event.code, task_count),
            emitted == old(self)@.emitted(key_event.code),
            old(self)@.wf(task_count) ==> final(self)@.wf(task_count),
    {
        match self.input_mode {
            InputMode::Normal => match key_event.code {
                KeyCode::Down => {
                    self.select_next(task_count);
                    None
                },
                KeyCode::Up => {
                    self.select_previous(task_count);
                    None
                },
                KeyCode::Char(c) => {
                    if c == 'e' {
                        if let Some(index) = self.selected_task {
                            self.stage(Command::Update(index));
                        }
                        None
                    } else if c == 'c' {
                        self.stage(Command::Create);
                        None
                    } else if c == 'd' {
                        match self.selected_task {
                            Some(index) => Some(Command::Delete(index)),
                            None => None,
                        }
                    } else {
                        None
                    }
                },
                KeyCode::Esc => Some(Command::Nothing),
                _ => None,
            },
            InputMode::Editing => match key_event.code {
                KeyCode::Char(c) => {
                    self.input.push(c);
                    None
                },
                KeyCode::Backspace => {
                    let _ = self.input.pop();
                    None
                },
                KeyCode::Esc => {
                    self.abort_editing();
                    None
                },
                KeyCode::Enter => {
                    if !self.input.as_str().is_empty() && self.command.needs_text() {
                        self.stop_editing();
                        Some(self.command)
                    } else {
                        None
                    }
                },
                _ => None,
            },
        }
    }

    /// Brings cursor and selection back into a list that lost a task and
    /// now holds `remaining` tasks: the selection is cleared, and the cursor
    /// stays where it was or falls back to the last task.
    pub fn task_removed(&mut self, remaining: usize)
        ensures
            final(self)@ == old(self)@.after_removal(remaining),
            final(self)@.selected_task.is_none(),
            final(self)@.list_cursor matches Some(i) ==> i < remaining,
    {
        self.selected_task = None;
        self.list_cursor = match self.list_cursor {
            Some(i) => {
                if remaining == 0 {
                    None
                } else if i < remaining {
                    Some(i)
                } else {
                    Some(remaining - 1)
                }
            },
            None => None,
        };
    }
}

/// One navigation key.
pub ghost enum Direction {
    Next,
    Previous,
}

impl PopUpState {
    /// The popup after one navigation key.
    pub open spec fn moved(self, direction: Direction, task_count: usize) -> PopUpState {
        match direction {
            Direction::Next => self.after_next(task_count),
            Direction::Previous => self.after_previous(task_count),
        }
    }

    /// The popup after the navigation keys `moves`, in their order.
    pub open spec fn after_moves(self, moves: Seq<Direction>, task_count: usize) -> PopUpState
        decreases moves.len(),
    {
        if moves.len() == 0 {
            self
        } else {
            self.after_moves(moves.drop_last(), task_count).moved(moves.last(), task_count)
        }
    }
}

/// Whatever navigation keys are pressed, in whatever order: over an empty
/// list the popup does not change, so an unset cursor stays unset; over a
/// list of `task_count > 0` tasks the first key puts the cursor on a task
/// and every later key leaves it on one. Cursor and selection that were
/// inside the list stay inside it.
pub proof fn lemma_navigation_stays_in_list(
    state: PopUpState,
    moves: Seq<Direction>,
    task_count: usize,
)
    ensures
        task_count == 0 ==> state.after_moves(moves, task_count) == state,
        task_count > 0 && moves.len() > 0 ==> (state.after_moves(
            moves,
            task_count,
        ).list_cursor matches Some(i) && i < task_count),
        state.wf(task_count) ==> state.after_moves(moves, task_count).wf(task_count),
    decreases moves.len(),
{
    if moves.len() > 0 {
        lemma_navigation_stays_in_list(state, moves.drop_last(), task_count);
    }
}

/// The cursor wraps at both ends of a list of `task_count > 0` tasks: a
/// step forward from the last task leads to the first, a step back from
/// the first leads to the last, and everywhere else a step moves the cursor
/// by one.
pub proof fn lemma_cursor_wraps(index: usize, task_count: usize)
    requires
        index < task_count,
    ensures
        cursor_forward(Some(index), task_count) == (index + 1) % (task_count as int),
        cursor_backward(Some(index), task_count) == (index + task_count - 1) % (task_count as int),
        cursor_forward(Some((task_count - 1) as usize), task_count) == 0,
        cursor_backward(Some(0), task_count) == task_count - 1,
{
    let n = task_count as int;
    let i = index as int;
    if i + 1 < n {
        vstd::arithmetic::div_mod::lemma_small_mod((i + 1) as nat, n as nat);
    } else {
        vstd::arithmetic::div_mod::lemma_mod_self_0(n);
    }
    if i > 0 {
        vstd::arithmetic::div_mod::lemma_small_mod((i - 1) as nat, n as nat);
        vstd::arithmetic::div_mod::lemma_mod_add_multiples_vanish(i - 1, n);
    } else {
        vstd::arithmetic::div_mod::lemma_small_mod((n - 1) as nat, n as nat);
    }
}

/// Inside the list a step forward and a step back undo each other.
pub proof fn lemma_steps_are_inverse(index: usize, task_count: usize)
    requires
        index < task_count,
    ensures
        cursor_backward(Some(cursor_forward(Some(index), task_count)), task_count) == index,
        cursor_forward(Some(cursor_backward(Some(index), task_count)), task_count) == index,
{
}

/// In normal mode `c` always starts an edit for a new task: editing mode,
/// an empty buffer, `Create` staged, and nothing handed to the caller.
pub proof fn lemma_create_key_starts_empty_edit(state: PopUpState, task_count: usize)
    requires
        state.input_mode == InputMode::Normal,
    ensures
        state.after_key(KeyCode::Char('c'), task_count) == (PopUpState {
            input_mode: InputMode::Editing,
            input: Seq::empty(),
            command: Command::Create,
            ..state
        }),
        state.emitted(KeyCode::Char('c')).is_none(),
{
}

/// In normal mode `e` starts an edit only for a selected task, and then
/// stages the update of that very task over an empty buffer; with nothing
/// selected it changes nothing. It hands nothing to the caller.
pub proof fn lemma_edit_key_needs_selection(state: PopUpState, task_count: usize)
    requires
        state.input_mode == InputMode::Normal,
    ensures
        state.selected_task matches Some(index) ==> state.after_key(
            KeyCode::Char('e'),
            task_count,
        ) == (PopUpState {
            input_mode: InputMode::Editing,
            input: Seq::empty(),
            command: Command::Update(index),
            ..state
        }),
        state.selected_task.is_none() ==> state.after_key(KeyCode::Char('e'), task_count)
            == state,
        state.emitted(KeyCode::Char('e')).is_none(),
{
}

/// In normal mode `d` changes nothing in the popup and asks for the
/// selected task, if there is one, to be deleted.
pub proof fn lemma_delete_key_names_selection(state: PopUpState, task_count: usize)
    requires
        state.input_mode == InputMode::Normal,
    ensures
        state.after_key(KeyCode::Char('d'), task_count) == state,
        state.emitted(KeyCode::Char('d')) == match state.selected_task {
            Some(index) => Some(Command::Delete(index)),
            None => None,
        },
{
}

/// In editing mode Enter over an empty buffer does nothing: mode, buffer
/// and staged command stay, and nothing is handed to the caller.
pub proof fn lemma_enter_needs_text(state: PopUpState, task_count: usize)
    requires
        state.input_mode == InputMode::Editing,
        state.input.len() == 0,
    ensures
        state.after_key(KeyCode::Enter, task_count) == state,
        state.emitted(KeyCode::Enter).is_none(),
{
}

/// In editing mode Enter over a buffer that holds text hands the staged
/// `Create` or `Update` to the caller and returns to normal mode, with the
/// text still in the buffer.
pub proof fn lemma_enter_completes_edit(state: PopUpState, task_count: usize)
    requires
        state.input_mode == InputMode::Editing,
        state.input.len() > 0,
        state.command.takes_text(),
    ensures
        state.after_key(KeyCode::Enter, task_count) == (PopUpState {
            input_mode: InputMode::Normal,
            ..state
        }),
        state.emitted(KeyCode::Enter) == Some(state.command),
{
}

/// In editing mode Esc always gives the edit up, whatever was typed or
/// staged: normal mode, an empty buffer, nothing staged, and nothing handed
/// to the caller.
pub proof fn lemma_esc_aborts_edit(state: PopUpState, task_count: usize)
    requires
        state.input_mode == InputMode::Editing,
    ensures
        state.after_key(KeyCode::Esc, task_count) == (PopUpState {
            input_mode: InputMode::Normal,
            input: Seq::empty(),
            command: Command::Nothing,
            ..state
        }),
        state.emitted(KeyCode::Esc).is_none(),
{
}

/// No key breaks the invariant of the popup, and whoever edits has a
/// command staged.
pub proof fn lemma_key_keeps_invariant(state: PopUpState, code: KeyCode, task_count: usize)
    requires
        state.wf(task_count),
    ensures
        state.after_key(code, task_count).wf(task_count),
        state.after_key(code, task_count).input_mode == InputMode::Editing ==> state.after_key(
            code,
            task_count,
        ).command != Command::Nothing,
{
}

/// What the popup hands to its caller for the task list points into the
/// list: a deletion names the selected task.
pub proof fn lemma_emitted_deletion_is_in_list(state: PopUpState, code: KeyCode, task_count: usize)
    requires
        state.wf(task_count),
    ensures
        state.emitted(code) matches Some(Command::Delete(index)) ==> index < task_count
            && state.selected_task == Some(index),
{
}

/// Opening, closing, starting and stopping an edit, and moving the cursor
/// keep the invariant of the popup.
pub proof fn lemma_methods_keep_invariant(state: PopUpState, task_count: usize)
    requires
        state.wf(task_count),
    ensures
        state.toggled().wf(task_count),
        state.editing_started().wf(task_count),
        state.editing_stopped().wf(task_count),
        state.after_next(task_count).wf(task_count),
        state.after_previous(task_count).wf(task_count),
{
}

/// After a task left the list, the popup fits the shorter list.
pub proof fn lemma_removal_keeps_invariant(state: PopUpState, task_count: usize)
    requires
        state.wf(task_count),
        task_count > 0,
    ensures
        state.after_removal((task_count - 1) as usize).wf((task_count - 1) as usize),
{
}

/// A popup that fits a list fits every longer list.
pub proof fn lemma_invariant_survives_growth(state: PopUpState, task_count: usize, longer: usize)
    requires
        state.wf(task_count),
        task_count <= longer,
    ensures
        state.wf(longer),
{
}

} // verus!
