//! A single to-do entry: a text and a completion flag, with the derivation
//! of its display label (done tasks are struck through and dimmed).

use vstd::prelude::*;
use vstd::string::StringExecFns;

verus! {

/// Mathematical value of a task: its text as a sequence of characters and
/// its completion flag.
#[verifier::ext_equal]
pub ghost struct TaskView {
    pub text: Seq<char>,
    pub done: bool,
}

/// A to-do entry. Identity is positional: a task is addressed by its index
/// in the owning list.
#[derive(Debug)]
pub struct Task {
    pub text: String,
    pub done: bool,
}

impl View for Task {
    type V = TaskView;

    open spec fn view(&self) -> TaskView {
        TaskView { text: self.text@, done: self.done }
    }
}

impl Clone for Task {
    fn clone(&self) -> (t: Task)
        ensures
            t@ == self@,
    {
        Task { text: self.text.clone(), done: self.done }
    }
}

/// Markup wrapped around the text of a completed task: strikethrough at
/// half opacity.
pub open spec fn done_markup_prefix() -> Seq<char> {
    "<span strikethrough=\"true\" alpha=\"50%\">"@
}

pub open spec fn done_markup_suffix() -> Seq<char> {
    "</span>"@
}

/// Display label of a task: the text unmodified while the task is open,
/// the text wrapped in de-emphasising markup once it is done.
pub open spec fn spec_label(t: TaskView) -> Seq<char> {
    if t.done {
        done_markup_prefix() + t.text + done_markup_suffix()
    } else {
        t.text
    }
}

impl Task {
    pub fn new(text: &str, done: bool) -> (t: Task)
        ensures
            t@ == (TaskView { text: text@, done }),
    {
        Task { text: text.to_owned(), done }
    }

    pub fn label(&self) -> (r: String)
        ensures
            r@ == spec_label(self@),
    {
        if self.done {
            let mut s = String::from_str("<span strikethrough=\"true\" alpha=\"50%\">");
            s.append(self.text.as_str());
            s.append("</span>");
            s
        } else {
            self.text.clone()
        }
    }
}

} // verus!
