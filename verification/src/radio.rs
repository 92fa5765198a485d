//! A reusable radio-group widget model: a row of mutually exclusive toggle
//! options. The parent hands down the labels and the active index; a user
//! activation is reported back upward as a plain index, carried in the
//! return value of `update` so the caller owns the notification channel.

use vstd::prelude::*;
use crate::model::RenderDirective;

verus! {

/// Mathematical value of the radio group: the option labels as character
/// sequences and the index of the active option.
#[verifier::ext_equal]
pub ghost struct RadioView {
    pub labels: Seq<Seq<char>>,
    pub active: usize,
}

/// Configuration and state of the radio group. The parent owns it and
/// recreates it on every re-render; the group itself only mirrors what it
/// was given.
#[derive(Clone, Debug)]
pub struct Radio {
    pub labels: Vec<String>,
    pub active: usize,
}

/// A message raised by the radio group itself: the user activated the
/// option at the carried index.
#[derive(Clone, Debug)]
pub enum RadioMessage {
    Changed(usize),
}

impl View for Radio {
    type V = RadioView;

    open spec fn view(&self) -> RadioView {
        RadioView { labels: self.labels@.map_values(|s: String| s@), active: self.active }
    }
}

impl PartialEq for Radio {
    fn eq(&self, other: &Radio) -> (r: bool) {
        if self.active != other.active {
            proof {
                assert(self@.active != other@.active);
            }
            return false;
        }
        if self.labels.len() != other.labels.len() {
            proof {
                assert(self@.labels.len() != other@.labels.len());
            }
            return false;
        }
        let mut i: usize = 0;
        while i < self.labels.len()
            invariant
                i <= self.labels@.len(),
                self.labels@.len() == other.labels@.len(),
                self.active == other.active,
                forall|j: int| 0 <= j < i ==> self.labels@[j]@ == other.labels@[j]@,
            decreases self.labels@.len() - i,
        {
            if !(self.labels[i] == other.labels[i]) {
                proof {
                    assert(self@.labels[i as int] == self.labels@[i as int]@);
                    assert(other@.labels[i as int] == other.labels@[i as int]@);
                }
                return false;
            }
            i = i + 1;
        }
        proof {
            assert(self@ =~= other@);
        }
        true
    }
}

impl vstd::std_specs::cmp::PartialEqSpecImpl for Radio {
    open spec fn obeys_eq_spec() -> bool {
        true
    }

    open spec fn eq_spec(&self, other: &Radio) -> bool {
        self@ == other@
    }
}

impl Radio {
    /// Construction adopts the configuration handed down by the parent.
    pub fn create(props: Radio) -> (r: Radio)
        ensures
            r == props,
    {
        props
    }

    /// New configuration from the parent: if it equals the current one,
    /// keep everything and skip the redraw; otherwise adopt it and redraw.
    pub fn change(&mut self, props: Radio) -> (d: RenderDirective)
        ensures
            old(self)@ == props@ ==> *final(self) == *old(self) && d == RenderDirective::NoOp,
            old(self)@ != props@ ==> *final(self) == props && d == RenderDirective::Rerender,
    {
        if *self == props {
            RenderDirective::NoOp
        } else {
            *self = props;
            RenderDirective::Rerender
        }
    }

    /// A user activation: report the chosen index upward and redraw the
    /// group so the pressed option shows at once. The caller delivers the
    /// returned index to the parent.
    pub fn update(&mut self, msg: RadioMessage) -> (r: (usize, RenderDirective))
        ensures
            *final(self) == *old(self),
            msg matches RadioMessage::Changed(idx) ==> r.0 == idx && r.1
                == RenderDirective::Rerender,
    {
        match msg {
            RadioMessage::Changed(idx) => (idx, RenderDirective::Rerender),
        }
    }

    /// The pressed state of each rendered toggle: one per label, pressed
    /// exactly at the active index.
    pub fn toggle_states(&self) -> (states: Vec<bool>)
        ensures
            states@.len() == self@.labels.len(),
            forall|i: int| 0 <= i < states@.len() ==> states@[i] == (i == self@.active as int),
    {
        let mut states: Vec<bool> = Vec::new();
        let mut i: usize = 0;
        while i < self.labels.len()
            invariant
                i <= self.labels@.len(),
                states@.len() == i,
                forall|j: int| 0 <= j < i ==> states@[j] == (j == self.active as int),
            decreases self.labels@.len() - i,
        {
            states.push(i == self.active);
            i = i + 1;
        }
        states
    }
}

} // verus!
