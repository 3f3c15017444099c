//! What the host tells a link, and what the link asks of the host in return.

use crate::geometry::{Point, Size};
use vstd::prelude::*;

verus! {

/// A change in a widget's circumstances that the host announces to it.
#[derive(Clone, Copy, PartialEq, Eq, Structural, Debug)]
pub enum LifeCycle {
    /// The widget was added to the tree.
    WidgetAdded,
    /// The widget was given a new size.
    Size,
    /// The widget was disabled or enabled.
    DisabledChanged(bool),
    /// The pointer came over the widget or left it.
    HotChanged(bool),
    /// The host collects the widgets that can take the focus.
    BuildFocusChain,
    /// The widget gained or lost the focus.
    FocusChanged(bool),
    /// The widget's place in its window changed.
    ViewContextChanged,
    /// A signal the host uses for its own routing.
    Internal,
}

/// One thing a link asks of the host in answer to a signal, in the order in
/// which the host performs them.
#[derive(Clone, Copy, PartialEq, Eq, Structural, Debug)]
pub enum Action {
    /// Repaint the link.
    RequestPaint,
    /// Hand the signal to the child as it came.
    Forward,
}

/// Where a link puts its child, and the size it reports for itself.
#[derive(Clone, Copy, PartialEq, Eq, Structural, Debug)]
pub struct Layout {
    /// The size of the link.
    pub size: Size,
    /// The position of the child's top-left corner within the link.
    pub child_origin: Point,
}

impl LifeCycle {
    /// Whether the signal says that the pointer came over the widget or left
    /// it.
    pub open spec fn hot_changed(self) -> bool {
        self is HotChanged
    }

    /// Whether the signal says that the pointer came over the widget or left
    /// it.
    pub fn is_hot_changed(&self) -> (b: bool)
        ensures
            b == self.hot_changed(),
    {
        match self {
            LifeCycle::HotChanged(_) => true,
            _ => false,
        }
    }
}

/// The number of repaints that a list of actions requests.
pub open spec fn paint_requests(actions: Seq<Action>) -> nat
    decreases actions.len(),
{
    if actions.len() == 0 {
        0
    } else {
        paint_requests(actions.drop_last()) + if actions.last() == Action::RequestPaint {
            1nat
        } else {
            0nat
        }
    }
}

/// The number of times that a list of actions hands the signal to the child.
pub open spec fn forwards(actions: Seq<Action>) -> nat
    decreases actions.len(),
{
    if actions.len() == 0 {
        0
    } else {
        forwards(actions.drop_last()) + if actions.last() == Action::Forward {
            1nat
        } else {
            0nat
        }
    }
}

/// The answer to a signal that the link has no use for: the child gets it, and
/// nothing else happens.
pub open spec fn forwarded() -> Seq<Action> {
    seq![Action::Forward]
}

/// The answer to a life-cycle signal.  How a link looks depends on whether the
/// pointer is over it, and the child may not repaint on that account, so the
/// link requests one repaint when the hover state has changed.  The child
/// gets every signal.
pub open spec fn lifecycle_actions(event: LifeCycle) -> Seq<Action> {
    if event.hot_changed() {
        seq![Action::RequestPaint, Action::Forward]
    } else {
        seq![Action::Forward]
    }
}

/// A change of the hover state requests exactly one repaint, no other
/// life-cycle signal requests any, and each signal reaches the child once.
pub proof fn lemma_repaint_on_hot_changed_only(event: LifeCycle)
    ensures
        event.hot_changed() ==> paint_requests(lifecycle_actions(event)) == 1,
        !event.hot_changed() ==> paint_requests(lifecycle_actions(event)) == 0,
        forwards(lifecycle_actions(event)) == 1,
{
    reveal_with_fuel(paint_requests, 3);
    reveal_with_fuel(forwards, 3);
    let actions = lifecycle_actions(event);
    if event.hot_changed() {
        assert(actions.drop_last() == seq![Action::RequestPaint]);
        assert(actions.drop_last().drop_last() == Seq::<Action>::empty());
    } else {
        assert(actions.drop_last() == Seq::<Action>::empty());
    }
}

} // verus!
