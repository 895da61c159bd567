//! A user and the tasks that belong to them.

use vstd::prelude::*;
use crate::task_data::{task_views, tasks_wf, TaskData, TaskView};

verus! {

/// A user: a name and the tasks of that user, in their order.
#[derive(Debug)]
pub struct UserData {
    pub user_name: String,
    pub tasks: Vec<TaskData>,
}

/// A user as a plain value.
pub ghost struct UserView {
    pub user_name: Seq<char>,
    pub tasks: Seq<TaskView>,
}

impl UserView {
    /// Every task of the user holds a ratio as its progress, and the list
    /// is one that a machine can hold.
    pub open spec fn wf(self) -> bool {
        tasks_wf(self.tasks) && self.tasks.len() <= usize::MAX
    }

    /// The task that the user is working on: the first of the list.
    pub open spec fn current_task(self) -> Option<TaskView> {
        if self.tasks.len() > 0 {
            Some(self.tasks[0])
        } else {
            None
        }
    }
}

impl View for UserData {
    type V = UserView;

    open spec fn view(&self) -> UserView {
        UserView { user_name: self.user_name@, tasks: task_views(self.tasks@) }
    }
}

impl UserData {
    /// A user with the given name and tasks.
    pub fn new(user_name: String, tasks: Vec<TaskData>) -> (user: UserData)
        ensures
            user@ == (UserView { user_name: user_name@, tasks: task_views(tasks@) }),
    {
        UserData { user_name, tasks }
    }

    /// The task that the user is working on: the first of the list, if the
    /// list has any.
    pub fn current_task(&self) -> (task: Option<&TaskData>)
        ensures
            match task {
                Some(t) => self@.current_task() == Some(t@),
                None => self@.current_task().is_none(),
            },
    {
        if self.tasks.len() > 0 {
            Some(&self.tasks[0])
        } else {
            None
        }
    }
}

} // verus!
