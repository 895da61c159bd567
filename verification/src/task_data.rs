//! A task of a user.

use vstd::prelude::*;
use crate::event::{clamp_progress, clamped, FULL_PROGRESS};

verus! {

/// One task: what it is called, how far it has come, in hundredths, how
/// many seconds remain, and the number it is known by.
#[derive(Debug)]
pub struct TaskData {
    pub task_name: String,
    pub progress: u8,
    pub timer: u64,
    pub id: u64,
}

/// A task as a plain value.
pub ghost struct TaskView {
    pub task_name: Seq<char>,
    pub progress: u8,
    pub timer: u64,
    pub id: u64,
}

impl TaskView {
    /// The progress of a task is a ratio: at most a full gauge.
    pub open spec fn wf(self) -> bool {
        self.progress <= FULL_PROGRESS
    }

    /// The task under another name.
    pub open spec fn renamed(self, task_name: Seq<char>) -> TaskView {
        TaskView { task_name, ..self }
    }

    /// A task that has just been created: no progress yet, no time set.
    pub open spec fn fresh(task_name: Seq<char>, id: u64) -> TaskView {
        TaskView { task_name, progress: 0, timer: 0, id }
    }
}

impl View for TaskData {
    type V = TaskView;

    open spec fn view(&self) -> TaskView {
        TaskView {
            task_name: self.task_name@,
            progress: self.progress,
            timer: self.timer,
            id: self.id,
        }
    }
}

impl Clone for TaskData {
    fn clone(&self) -> (task: TaskData)
        ensures
            task@ == self@,
    {
        TaskData {
            task_name: self.task_name.clone(),
            progress: self.progress,
            timer: self.timer,
            id: self.id,
        }
    }
}

impl TaskData {
    /// A task with the given fields. Progress beyond a full gauge is cut
    /// off there.
    pub fn new(task_name: String, progress: u8, timer: u64, id: u64) -> (task: TaskData)
        ensures
            task@ == (TaskView {
                task_name: task_name@,
                progress: clamped(progress as int) as u8,
                timer,
                id,
            }),
            task@.wf(),
    {
        TaskData { task_name, progress: clamp_progress(progress), timer, id }
    }

    /// A task that has just been created under `task_name`.
    pub fn fresh(task_name: String, id: u64) -> (task: TaskData)
        ensures
            task@ == TaskView::fresh(task_name@, id),
            task@.wf(),
    {
        TaskData { task_name, progress: 0, timer: 0, id }
    }

    /// Gives the task another name and leaves the rest of it alone.
    pub fn rename(&mut self, task_name: String)
        ensures
            final(self)@ == old(self)@.renamed(task_name@),
    {
        self.task_name = task_name;
    }
}

/// The tasks of a list as plain values.
pub open spec fn task_views(tasks: Seq<TaskData>) -> Seq<TaskView> {
    tasks.map_values(|task: TaskData| task@)
}

/// Whether every task of a list holds a ratio as its progress.
pub open spec fn tasks_wf(tasks: Seq<TaskView>) -> bool {
    forall|i: int| 0 <= i < tasks.len() ==> (#[trigger] tasks[i]).wf()
}

/// The least number above the numbers of all the tasks of a list.
pub open spec fn id_bound(tasks: Seq<TaskView>) -> nat
    decreases tasks.len(),
{
    if tasks.len() == 0 {
        0
    } else {
        let before = id_bound(tasks.drop_last());
        if tasks.last().id < before {
            before
        } else {
            (tasks.last().id + 1) as nat
        }
    }
}

/// The number that the next task of a list gets: one above every number
/// in use, as far as such a number exists.
pub open spec fn next_id(tasks: Seq<TaskView>) -> u64 {
    if id_bound(tasks) <= u64::MAX {
        id_bound(tasks) as u64
    } else {
        u64::MAX
    }
}

/// Every number in use lies below the bound of its list.
pub proof fn lemma_id_bound_is_above(tasks: Seq<TaskView>, i: int)
    requires
        0 <= i < tasks.len(),
    ensures
        tasks[i].id < id_bound(tasks),
    decreases tasks.len(),
{
    if i < tasks.len() - 1 {
        lemma_id_bound_is_above(tasks.drop_last(), i);
    }
}

/// Unless the largest number there is is taken, the number that the next
/// task gets is borne by no task of the list.
pub proof fn lemma_next_id_is_unused(tasks: Seq<TaskView>, i: int)
    requires
        0 <= i < tasks.len(),
        id_bound(tasks) <= u64::MAX,
    ensures
        tasks[i].id != next_id(tasks),
{
    lemma_id_bound_is_above(tasks, i);
}

/// Computes the number that the next task of `tasks` gets.
pub fn fresh_id(tasks: &Vec<TaskData>) -> (id: u64)
    ensures
        id == next_id(task_views(tasks@)),
{
    let ghost views = task_views(tasks@);
    let mut bound: u64 = 0;
    let mut overflow = false;
    let mut i: usize = 0;
    while i < tasks.len()
        invariant
            i <= tasks.len(),
            views == task_views(tasks@),
            !overflow ==> bound == id_bound(views.take(i as int)),
            overflow ==> id_bound(views.take(i as int)) > u64::MAX,
        decreases tasks.len() - i,
    {
        proof {
            assert(views.take(i + 1).drop_last() == views.take(i as int));
            assert(views.take(i + 1).last() == tasks@[i as int]@);
        }
        let id = tasks[i].id;
        if !overflow && id >= bound {
            if id == u64::MAX {
                overflow = true;
            } else {
                bound = id + 1;
            }
        }
        i += 1;
    }
    proof {
        assert(views.take(i as int) == views);
    }
    if overflow {
        u64::MAX
    } else {
        bound
    }
}

} // verus!
