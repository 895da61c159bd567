//! The snapshot that the dashboard shows, and the gauges it is shown in.

use vstd::prelude::*;
use crate::color::HighlightColor;
use crate::event::FULL_PROGRESS;
use crate::task_data::TaskView;
use crate::user_data::{UserData, UserView};

verus! {

/// The least ratio that the gauge of a friend shows, in hundredths, so
/// that a task just begun is still seen.
pub const LEAST_SHOWN_PROGRESS: u8 = 10;

/// The snapshot: the operator's own profile and the friends whose
/// activity is shown beside it, in their order.
#[derive(Debug)]
pub struct ActivityData {
    pub friends: Vec<UserData>,
    pub profile: UserData,
}

/// The snapshot as a plain value.
pub ghost struct ActivityView {
    pub friends: Seq<UserView>,
    pub profile: UserView,
}

/// The users of a list as plain values.
pub open spec fn user_views(users: Seq<UserData>) -> Seq<UserView> {
    users.map_values(|user: UserData| user@)
}

impl ActivityView {
    /// Every user of the snapshot is well formed.
    pub open spec fn wf(self) -> bool {
        &&& self.profile.wf()
        &&& forall|i: int| 0 <= i < self.friends.len() ==> (#[trigger] self.friends[i]).wf()
    }
}

impl View for ActivityData {
    type V = ActivityView;

    open spec fn view(&self) -> ActivityView {
        ActivityView { friends: user_views(self.friends@), profile: self.profile@ }
    }
}

impl ActivityData {
    /// The snapshot of `profile` and `friends`.
    pub fn new(profile: UserData, friends: Vec<UserData>) -> (data: ActivityData)
        ensures
            data@ == (ActivityView { friends: user_views(friends@), profile: profile@ }),
    {
        ActivityData { friends, profile }
    }
}

/// The colour that a gauge is painted in.
#[derive(Clone, Copy, Debug, PartialEq, Eq, Structural)]
pub enum GaugeColor {
    /// The highlight colour that the operator chose.
    Highlight(HighlightColor),
    /// The subdued colour of everything that is not the operator's own.
    Muted,
}

/// One gauge of the dashboard: a ratio in hundredths, the seconds that
/// remain, the colour, and whose task it shows. The operator's own gauge
/// names no user.
#[derive(Debug)]
pub struct ActivityProgressBar {
    pub progress: u8,
    pub timer: u64,
    pub color: GaugeColor,
    pub user_name: String,
    pub task_name: String,
}

/// A gauge as a plain value.
pub ghost struct GaugeView {
    pub progress: u8,
    pub timer: u64,
    pub color: GaugeColor,
    pub user_name: Seq<char>,
    pub task_name: Seq<char>,
}

impl View for ActivityProgressBar {
    type V = GaugeView;

    open spec fn view(&self) -> GaugeView {
        GaugeView {
            progress: self.progress,
            timer: self.timer,
            color: self.color,
            user_name: self.user_name@,
            task_name: self.task_name@,
        }
    }
}

/// The ratio that the gauge of a friend shows for a task that has come
/// `progress` hundredths: no less than the least that is shown, no more
/// than a full gauge.
pub open spec fn shown_progress(progress: u8) -> u8 {
    if progress < LEAST_SHOWN_PROGRESS {
        LEAST_SHOWN_PROGRESS
    } else if progress > FULL_PROGRESS {
        FULL_PROGRESS
    } else {
        progress
    }
}

/// The gauge that shows `task` as the activity of the friend `user_name`.
pub open spec fn gauge_of(user_name: Seq<char>, task: TaskView) -> GaugeView {
    GaugeView {
        progress: shown_progress(task.progress),
        timer: task.timer,
        color: GaugeColor::Muted,
        user_name,
        task_name: task.task_name,
    }
}

impl UserView {
    /// What a friend adds to the dashboard: a gauge for the task they are
    /// working on, and nothing without such a task.
    pub open spec fn activity(self) -> Option<GaugeView> {
        match self.current_task() {
            Some(task) => Some(gauge_of(self.user_name, task)),
            None => None,
        }
    }
}

/// The gauge of an optional row as a plain value.
pub open spec fn row_view(row: Option<ActivityProgressBar>) -> Option<GaugeView> {
    match row {
        Some(bar) => Some(bar@),
        None => None,
    }
}

impl UserData {
    /// The gauge that shows this user's activity to their friends: their
    /// first task, and no other. A user without tasks shows none.
    pub fn activity(&self) -> (row: Option<ActivityProgressBar>)
        ensures
            row_view(row) == self@.activity(),
    {
        match self.current_task() {
            Some(task) => {
                let progress: u8 = if task.progress < LEAST_SHOWN_PROGRESS {
                    LEAST_SHOWN_PROGRESS
                } else if task.progress > FULL_PROGRESS {
                    FULL_PROGRESS
                } else {
                    task.progress
                };
                Some(
                    ActivityProgressBar {
                        progress,
                        timer: task.timer,
                        color: GaugeColor::Muted,
                        user_name: self.user_name.clone(),
                        task_name: task.task_name.clone(),
                    },
                )
            },
            None => None,
        }
    }
}

impl ActivityData {
    /// The rows of the friends' feed, one for each friend in the order of
    /// the snapshot: the gauge of the friend's first task, or an empty row
    /// for a friend without tasks.
    pub fn friend_rows(&self) -> (rows: Vec<Option<ActivityProgressBar>>)
        ensures
            rows@.len() == self@.friends.len(),
            forall|i: int|
                0 <= i < rows@.len() ==> row_view(#[trigger] rows@[i]) == self@.friends[i].activity(),
    {
        let mut rows: Vec<Option<ActivityProgressBar>> = Vec::new();
        let mut i: usize = 0;
        while i < self.friends.len()
            invariant
                i <= self.friends.len(),
                rows@.len() == i,
                forall|j: int|
                    0 <= j < i ==> row_view(#[trigger] rows@[j]) == self@.friends[j].activity(),
            decreases self.friends.len() - i,
        {
            let row = self.friends[i].activity();
            rows.push(row);
            i += 1;
        }
        rows
    }
}

/// The gauge of a friend stays within what is shown, whatever the task
/// holds.
pub proof fn lemma_shown_progress_bounds(progress: u8)
    ensures
        LEAST_SHOWN_PROGRESS <= shown_progress(progress) <= FULL_PROGRESS,
        LEAST_SHOWN_PROGRESS <= progress <= FULL_PROGRESS ==> shown_progress(progress) == progress,
{
}

} // verus!
