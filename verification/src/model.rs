//! The application state machine: an in-memory task list plus a filter
//! selection, driven by messages in an Elm-style update loop. The update
//! function maps a message to the next state and tells the hosting UI layer
//! whether a redraw is needed; the view helpers derive what is displayed
//! from the current state.

use vstd::prelude::*;
use crate::task::{Task, TaskView};

verus! {

/// Filter selection: every task is shown.
pub const FILTER_ALL: usize = 0;

/// Filter selection: only tasks that are not done are shown.
pub const FILTER_ACTIVE: usize = 1;

/// Filter selection: only tasks that are done are shown.
pub const FILTER_COMPLETED: usize = 2;

/// Number of filter selections; a filter value is always below this.
pub const FILTER_COUNT: usize = 3;

/// Whether a task is visible under a filter selection.
pub open spec fn task_visible(filter: usize, t: TaskView) -> bool {
    if filter == FILTER_ACTIVE {
        !t.done
    } else if filter == FILTER_COMPLETED {
        t.done
    } else {
        true
    }
}

/// The mathematical values of a list of tasks.
pub open spec fn views_of(tasks: Seq<Task>) -> Seq<TaskView> {
    tasks.map_values(|t: Task| t@)
}

/// The tasks visible under a filter selection, in their original order.
pub open spec fn visible_spec(tasks: Seq<TaskView>, filter: usize) -> Seq<TaskView> {
    tasks.filter(|t: TaskView| task_visible(filter, t))
}

/// Effect of a toggle: the done flag of the task at `i` is flipped, the
/// text and every other task stay as they were.
pub open spec fn toggle_spec(tasks: Seq<TaskView>, i: int) -> Seq<TaskView> {
    tasks.update(i, TaskView { text: tasks[i].text, done: !tasks[i].done })
}

/// Effect of an addition: a task with the given text, not yet done, is
/// appended at the end.
pub open spec fn add_spec(tasks: Seq<TaskView>, text: Seq<char>) -> Seq<TaskView> {
    tasks.push(TaskView { text, done: false })
}

/// Effect of a deletion: the task at `i` is removed and every later task
/// shifts left by one.
pub open spec fn delete_spec(tasks: Seq<TaskView>, i: int) -> Seq<TaskView> {
    tasks.remove(i)
}

/// The four demo tasks every fresh state is seeded with, in display order.
pub open spec fn seeded_tasks() -> Seq<TaskView> {
    seq![
        TaskView { text: "Call Joe"@, done: true },
        TaskView { text: "Call Mike"@, done: true },
        TaskView { text: "Call Robert"@, done: false },
        TaskView { text: "Get Robert to fix the bug"@, done: false },
    ]
}

/// A discrete, immutable description of an intended state change,
/// originating from a user interaction or a system signal.
#[derive(Clone, Debug)]
pub enum Message {
    /// Request process-wide shutdown.
    Exit,
    /// Flip the done flag of the task at `index`.
    Toggle { index: usize },
    /// Append a new task with the given text (the empty string is allowed).
    Add { task: String },
    /// Remove the task at `index`.
    Delete { index: usize },
    /// Select which tasks are visible.
    Filter { filter: usize },
}

/// Instruction to the hosting UI layer on whether a redraw is needed after
/// a message was processed.
#[derive(Clone, Copy, Debug, PartialEq, Eq, Structural)]
pub enum RenderDirective {
    Rerender,
    NoOp,
}

/// Mathematical value of the application state.
#[verifier::ext_equal]
pub ghost struct ModelView {
    pub tasks: Seq<TaskView>,
    pub filter: usize,
}

/// The sole mutable state of the application: the task list and the
/// current filter selection.
#[derive(Clone, Debug)]
pub struct Model {
    pub tasks: Vec<Task>,
    pub filter: usize,
}

impl View for Model {
    type V = ModelView;

    open spec fn view(&self) -> ModelView {
        ModelView { tasks: views_of(self.tasks@), filter: self.filter }
    }
}

impl Default for Model {
    /// The initial state: exactly the four seeded demo tasks, in order,
    /// under the all-tasks filter.
    fn default() -> (m: Model)
        ensures
            m@.tasks == seeded_tasks(),
            m@.tasks.len() == 4,
            m@.filter == FILTER_ALL,
            m.wf(),
    {
        let mut tasks: Vec<Task> = Vec::new();
        tasks.push(Task::new("Call Joe", true));
        tasks.push(Task::new("Call Mike", true));
        tasks.push(Task::new("Call Robert", false));
        tasks.push(Task::new("Get Robert to fix the bug", false));
        let m = Model { tasks, filter: FILTER_ALL };
        proof {
            assert(m@.tasks =~= seeded_tasks());
        }
        m
    }
}

impl Model {
    /// The filter selection always denotes one of the three predicates.
    pub open spec fn wf(&self) -> bool {
        self.filter < FILTER_COUNT
    }

    /// Whether `task` is visible under the current filter selection.
    pub fn filter_task(&self, task: &Task) -> (r: bool)
        requires
            self.wf(),
        ensures
            r == task_visible(self.filter, task@),
    {
        if self.filter == FILTER_ACTIVE {
            !task.done
        } else if self.filter == FILTER_COMPLETED {
            task.done
        } else {
            true
        }
    }

    /// The update function of the state machine: one message in, the next
    /// state and a render directive out. Index messages must be in bounds
    /// of the full task list and a filter message must name one of the
    /// three selections.
    pub fn update(&mut self, msg: Message) -> (d: RenderDirective)
        requires
            old(self).wf(),
            msg matches Message::Toggle { index } ==> index < old(self)@.tasks.len(),
            msg matches Message::Delete { index } ==> index < old(self)@.tasks.len(),
            msg matches Message::Filter { filter } ==> filter < FILTER_COUNT,
        ensures
            final(self).wf(),
            match msg {
                Message::Exit => final(self)@ == old(self)@ && d == RenderDirective::NoOp,
                Message::Toggle { index } => final(self)@.tasks == toggle_spec(
                    old(self)@.tasks,
                    index as int,
                ) && final(self)@.filter == old(self)@.filter && d == RenderDirective::Rerender,
                Message::Add { task } => final(self)@.tasks == add_spec(old(self)@.tasks, task@)
                    && final(self)@.filter == old(self)@.filter && d == RenderDirective::Rerender,
                Message::Delete { index } => final(self)@.tasks == delete_spec(
                    old(self)@.tasks,
                    index as int,
                ) && final(self)@.filter == old(self)@.filter && d == RenderDirective::Rerender,
                Message::Filter { filter } => final(self)@.tasks == old(self)@.tasks
                    && final(self)@.filter == filter && d == RenderDirective::Rerender,
            },
    {
        match msg {
            Message::Exit => RenderDirective::NoOp,
            Message::Toggle { index } => {
                let done = self.tasks[index].done;
                self.tasks[index].done = !done;
                proof {
                    assert(self@.tasks =~= toggle_spec(old(self)@.tasks, index as int));
                }
                RenderDirective::Rerender
            },
            Message::Add { task } => {
                let ghost text = task@;
                self.tasks.push(Task { text: task, done: false });
                proof {
                    assert(self@.tasks =~= add_spec(old(self)@.tasks, text));
                }
                RenderDirective::Rerender
            },
            Message::Delete { index } => {
                self.tasks.remove(index);
                proof {
                    assert(self@.tasks =~= delete_spec(old(self)@.tasks, index as int));
                }
                RenderDirective::Rerender
            },
            Message::Filter { filter } => {
                self.filter = filter;
                RenderDirective::Rerender
            },
        }
    }

    /// The tasks to display: the full list narrowed to the current filter
    /// selection, in their original relative order.
    pub fn visible_tasks(&self) -> (v: Vec<Task>)
        requires
            self.wf(),
        ensures
            views_of(v@) == visible_spec(self@.tasks, self.filter),
    {
        let ghost all = self@.tasks;
        let mut v: Vec<Task> = Vec::new();
        let mut i: usize = 0;
        while i < self.tasks.len()
            invariant
                self.wf(),
                all == self@.tasks,
                i <= self.tasks.len(),
                views_of(v@) == visible_spec(all.take(i as int), self.filter),
            decreases self.tasks.len() - i,
        {
            let t = &self.tasks[i];
            let ghost prev = v@;
            if self.filter_task(t) {
                v.push(t.clone());
            }
            proof {
                broadcast use vstd::prelude::Seq::lemma_filter_push;
                broadcast use vstd::prelude::Seq::lemma_take_succ_push;

                assert(all[i as int] == t@);
                assert(all.take(i as int + 1) == all.take(i as int).push(all[i as int]));
                if task_visible(self.filter, t@) {
                    assert(views_of(v@) =~= views_of(prev).push(t@));
                } else {
                    assert(views_of(v@) == views_of(prev));
                }
            }
            i = i + 1;
        }
        proof {
            broadcast use vstd::prelude::Seq::lemma_take_len;

            assert(all.take(all.len() as int) == all);
        }
        v
    }
}

/// Law: toggling the same index twice restores the task list, for any index
/// within bounds.
pub proof fn lemma_toggle_involution(tasks: Seq<TaskView>, i: int)
    requires
        0 <= i < tasks.len(),
    ensures
        toggle_spec(toggle_spec(tasks, i), i) == tasks,
{
    assert(toggle_spec(toggle_spec(tasks, i), i) =~= tasks);
}

/// Law: an addition grows the list by exactly one, the new task stands
/// last with its text and an unset done flag, and every task that was
/// there keeps its place.
pub proof fn lemma_add_appends(tasks: Seq<TaskView>, text: Seq<char>)
    ensures
        add_spec(tasks, text).len() == tasks.len() + 1,
        add_spec(tasks, text).last() == (TaskView { text, done: false }),
        forall|j: int| 0 <= j < tasks.len() ==> add_spec(tasks, text)[j] == tasks[j],
{
}

/// Law: a deletion shrinks the list by exactly one; tasks before the
/// removed index keep their place and every later task shifts left by
/// one, so the relative order of the remaining tasks is preserved.
pub proof fn lemma_delete_shifts(tasks: Seq<TaskView>, i: int)
    requires
        0 <= i < tasks.len(),
    ensures
        delete_spec(tasks, i).len() == tasks.len() - 1,
        forall|j: int| 0 <= j < i ==> delete_spec(tasks, i)[j] == tasks[j],
        forall|j: int| i <= j < tasks.len() - 1 ==> delete_spec(tasks, i)[j] == tasks[j + 1],
{
}

/// Membership in a filtered view: a task value appears among the visible
/// tasks exactly when it appears in the list and satisfies the filter.
proof fn lemma_visible_membership(tasks: Seq<TaskView>, filter: usize, x: TaskView)
    ensures
        visible_spec(tasks, filter).contains(x) <==> tasks.contains(x) && task_visible(filter, x),
    decreases tasks.len(),
{
    broadcast use vstd::seq_lib::group_seq_properties;
    broadcast use vstd::prelude::Seq::lemma_filter_push;

    if tasks.len() == 0 {
        reveal(Seq::filter);
    } else {
        let prefix = tasks.drop_last();
        lemma_visible_membership(prefix, filter, x);
        assert(tasks =~= prefix.push(tasks.last()));
    }
}

/// Law: a filter selection only narrows what is visible, it never changes
/// the list. The all-tasks view is the list itself; the completed view
/// holds exactly the task values whose done flag is set, and the active
/// view exactly those whose done flag is unset.
pub proof fn lemma_filter_views(tasks: Seq<TaskView>)
    ensures
        visible_spec(tasks, FILTER_ALL) == tasks,
        forall|x: TaskView|
            #[trigger] visible_spec(tasks, FILTER_COMPLETED).contains(x) <==> tasks.contains(x)
                && x.done,
        forall|x: TaskView|
            #[trigger] visible_spec(tasks, FILTER_ACTIVE).contains(x) <==> tasks.contains(x)
                && !x.done,
{
    assert forall|x: TaskView|
        #[trigger] visible_spec(tasks, FILTER_COMPLETED).contains(x) <==> tasks.contains(x)
            && x.done by {
        lemma_visible_membership(tasks, FILTER_COMPLETED, x);
    }
    assert forall|x: TaskView|
        #[trigger] visible_spec(tasks, FILTER_ACTIVE).contains(x) <==> tasks.contains(x)
            && !x.done by {
        lemma_visible_membership(tasks, FILTER_ACTIVE, x);
    }
    lemma_visible_all(tasks);
}

/// Under the all-tasks selection the visible view is the list itself.
proof fn lemma_visible_all(tasks: Seq<TaskView>)
    ensures
        visible_spec(tasks, FILTER_ALL) == tasks,
    decreases tasks.len(),
{
    broadcast use vstd::prelude::Seq::lemma_filter_push;

    if tasks.len() == 0 {
        reveal(Seq::filter);
        assert(visible_spec(tasks, FILTER_ALL) =~= tasks);
    } else {
        let prefix = tasks.drop_last();
        lemma_visible_all(prefix);
        assert(tasks =~= prefix.push(tasks.last()));
        assert(visible_spec(tasks, FILTER_ALL) =~= tasks);
    }
}

} // verus!
