//! The per-user task record and its tick state machine: every scheduler
//! tick advances the step counter by one and decides between staying
//! active, completing on a terminal decision, and failing past the ceiling.

use vstd::prelude::*;

verus! {

/// Step ceiling: an active task whose counter would pass this bound is
/// forced to the `Failed` status instead of running forever.
pub const STEP_LIMIT: u32 = 20;

#[derive(Clone, Copy, Debug, PartialEq, Eq, Structural)]
pub enum TaskStatus {
    Pending,
    Active,
    Completed,
    Failed,
}

impl TaskStatus {
    pub open spec fn is_terminal(self) -> bool {
        self == TaskStatus::Completed || self == TaskStatus::Failed
    }

    pub open spec fn spec_name(self) -> Seq<char> {
        match self {
            TaskStatus::Pending => "Pending"@,
            TaskStatus::Active => "Active"@,
            TaskStatus::Completed => "Completed"@,
            TaskStatus::Failed => "Failed"@,
        }
    }

    /// The display name of the status, as task queries report it.
    pub fn name(&self) -> (s: &'static str)
        ensures
            s@ == self.spec_name(),
    {
        match self {
            TaskStatus::Pending => "Pending",
            TaskStatus::Active => "Active",
            TaskStatus::Completed => "Completed",
            TaskStatus::Failed => "Failed",
        }
    }
}

/// One user's task: the user id it is keyed under, the goal text, how many
/// ticks have acted on it, and where it stands in its lifecycle.
pub struct Task {
    pub id: String,
    pub description: String,
    pub step: u32,
    pub status: TaskStatus,
}

/// The mathematical value of a task: its text fields as character
/// sequences.
pub struct TaskView {
    pub id: Seq<char>,
    pub description: Seq<char>,
    pub step: u32,
    pub status: TaskStatus,
}

impl TaskView {
    /// The well-formedness of the underlying task: active means the step
    /// ceiling has not been passed.
    pub open spec fn wf(self) -> bool {
        self.status == TaskStatus::Active ==> self.step <= STEP_LIMIT
    }
}

impl View for Task {
    type V = TaskView;

    open spec fn view(&self) -> TaskView {
        TaskView {
            id: self.id@,
            description: self.description@,
            step: self.step,
            status: self.status,
        }
    }
}

impl Task {
    /// An active task has not yet passed the step ceiling; terminal and
    /// pending tasks are unconstrained.
    pub open spec fn wf(self) -> bool {
        self.status == TaskStatus::Active ==> self.step <= STEP_LIMIT
    }

    /// The record a goal assignment creates: step zero, immediately active.
    pub open spec fn spec_fresh(id: String, description: String) -> Task {
        Task { id, description, step: 0u32, status: TaskStatus::Active }
    }

    pub fn fresh(id: String, description: String) -> (t: Task)
        ensures
            t == Task::spec_fresh(id, description),
            t.wf(),
    {
        Task { id, description, step: 0, status: TaskStatus::Active }
    }

    /// A deep copy; `String` contents are preserved exactly.
    pub fn duplicate(&self) -> (t: Task)
        ensures
            t == *self,
    {
        Task {
            id: self.id.clone(),
            description: self.description.clone(),
            step: self.step,
            status: self.status,
        }
    }
}

/// What one tick does to an active task once the decision for this tick is
/// known: the step advances by one; a "done" decision completes the task;
/// a step past the ceiling fails it; otherwise it stays active.
pub open spec fn spec_tick(t: Task, done: bool) -> Task {
    Task {
        id: t.id,
        description: t.description,
        step: (t.step + 1) as u32,
        status: if done {
            TaskStatus::Completed
        } else if t.step + 1 > STEP_LIMIT {
            TaskStatus::Failed
        } else {
            TaskStatus::Active
        },
    }
}

pub fn tick(t: &Task, done: bool) -> (r: Task)
    requires
        t.status == TaskStatus::Active,
        t.wf(),
    ensures
        r == spec_tick(*t, done),
        r.wf(),
{
    let step = t.step + 1;
    let status = if done {
        TaskStatus::Completed
    } else if step > STEP_LIMIT {
        TaskStatus::Failed
    } else {
        TaskStatus::Active
    };
    Task { id: t.id.clone(), description: t.description.clone(), step, status }
}

/// A tick never decreases the step counter.
pub proof fn lemma_tick_monotone(t: Task, done: bool)
    requires
        t.status == TaskStatus::Active,
        t.wf(),
    ensures
        spec_tick(t, done).step >= t.step,
{
}

/// A tick that carries no terminal decision and pushes the counter past
/// the ceiling forces the `Failed` status.
pub proof fn lemma_step_limit_failure(t: Task, done: bool)
    requires
        t.status == TaskStatus::Active,
        t.wf(),
        !done,
        spec_tick(t, done).step > STEP_LIMIT,
    ensures
        spec_tick(t, done).status == TaskStatus::Failed,
{
}

/// A well-formed task past the ceiling is never active, so the
/// scheduler's active-task filter excludes it from every future tick.
pub proof fn lemma_past_limit_not_active(t: Task)
    requires
        t.wf(),
        t.step > STEP_LIMIT,
    ensures
        t.status != TaskStatus::Active,
{
}

} // verus!
