//! The selection list: an ordered sequence of items paired with an optional
//! cursor, used for every browsable list in the client (tickets, boards,
//! branches, transitions).
//!
//! Invariant: the cursor, when present, is a valid index; an empty sequence
//! forces the cursor to be absent. Navigation is cyclic: advancing past the
//! last index wraps to the first, retreating past the first wraps to the
//! last. Advancing or retreating with an absent cursor selects the first or
//! last element respectively; on an empty list both are no-ops.

use vstd::prelude::*;

verus! {

/// Mathematical model of a [`SelectionList`]: the item sequence and the
/// cursor, as an optional index into it.
#[verifier::ext_equal]
pub ghost struct SelView<A> {
    pub items: Seq<A>,
    pub cursor: Option<int>,
}

impl<A> SelView<A> {
    /// Well-formed: the cursor is absent or a valid index.
    pub open spec fn wf(self) -> bool {
        match self.cursor {
            Some(i) => 0 <= i < self.items.len(),
            None => true,
        }
    }

    /// The list that holds `items` with the cursor reset to the first
    /// element, or absent when `items` is empty.
    pub open spec fn of_items(items: Seq<A>) -> SelView<A> {
        SelView { items, cursor: if items.len() > 0 { Some(0int) } else { None } }
    }

    /// The item under the cursor, if any.
    pub open spec fn selected_item(self) -> Option<A> {
        match self.cursor {
            Some(i) => if 0 <= i < self.items.len() {
                Some(self.items[i])
            } else {
                None
            },
            None => None,
        }
    }

    /// Cursor moved one step forward, wrapping at the end; from an absent
    /// cursor the first element is selected; no-op on an empty list.
    pub open spec fn advanced(self) -> SelView<A> {
        if self.items.len() == 0 {
            self
        } else {
            match self.cursor {
                None => SelView { cursor: Some(0int), ..self },
                Some(i) => SelView {
                    cursor: Some(if i + 1 >= self.items.len() {
                        0int
                    } else {
                        i + 1
                    }),
                    ..self
                },
            }
        }
    }

    /// Cursor moved one step backward, wrapping at the start; from an absent
    /// cursor the last element is selected; no-op on an empty list.
    pub open spec fn retreated(self) -> SelView<A> {
        if self.items.len() == 0 {
            self
        } else {
            match self.cursor {
                None => SelView { cursor: Some((self.items.len() - 1) as int), ..self },
                Some(i) => SelView {
                    cursor: Some(if i == 0 {
                        (self.items.len() - 1) as int
                    } else {
                        i - 1
                    }),
                    ..self
                },
            }
        }
    }

    /// Cursor set to absent; the sequence is untouched.
    pub open spec fn cleared(self) -> SelView<A> {
        SelView { cursor: None, ..self }
    }
}

/// One navigation request against a selection list.
pub ghost enum NavEvent {
    Advance,
    Retreat,
    ClearSelection,
}

/// The model after one navigation event.
pub open spec fn nav_step<A>(s: SelView<A>, n: NavEvent) -> SelView<A> {
    match n {
        NavEvent::Advance => s.advanced(),
        NavEvent::Retreat => s.retreated(),
        NavEvent::ClearSelection => s.cleared(),
    }
}

/// The model after a whole sequence of navigation events, applied in order.
pub open spec fn nav_run<A>(s: SelView<A>, ns: Seq<NavEvent>) -> SelView<A>
    decreases ns.len(),
{
    if ns.len() == 0 {
        s
    } else {
        nav_run(nav_step(s, ns[0]), ns.drop_first())
    }
}

/// Law: for any sequence of navigation events, the cursor of a well-formed
/// selection list stays either absent or a valid index into the sequence.
pub proof fn lemma_navigation_preserves_wf<A>(s: SelView<A>, ns: Seq<NavEvent>)
    requires
        s.wf(),
    ensures
        nav_run(s, ns).wf(),
    decreases ns.len(),
{
    if ns.len() > 0 {
        lemma_navigation_preserves_wf(nav_step(s, ns[0]), ns.drop_first());
    }
}

/// Law: navigation is cyclic. Advancing from the last index yields index 0,
/// and retreating from index 0 yields the last index.
pub proof fn lemma_cyclic_wraparound<A>(s: SelView<A>)
    requires
        s.wf(),
        s.items.len() > 0,
    ensures
        s.cursor == Some((s.items.len() - 1) as int) ==> s.advanced().cursor == Some(0int),
        s.cursor == Some(0int) ==> s.retreated().cursor == Some((s.items.len() - 1) as int),
{
}

/// An ordered sequence of `T` plus an optional cursor into it. Constructed
/// empty or filled wholesale; every mutation keeps the cursor valid.
#[derive(Clone)]
pub struct SelectionList<T> {
    items: Vec<T>,
    cursor: Option<usize>,
}

impl<T: DeepView> View for SelectionList<T> {
    type V = SelView<T::V>;

    closed spec fn view(&self) -> SelView<T::V> {
        SelView {
            items: self.items.deep_view(),
            cursor: match self.cursor {
                Some(i) => Some(i as int),
                None => None,
            },
        }
    }
}

impl<T: DeepView> SelectionList<T> {
    /// An empty list with no selection.
    pub fn new() -> (r: SelectionList<T>)
        ensures
            r@ == SelView::<T::V>::of_items(Seq::<T::V>::empty()),
            r@.wf(),
    {
        let r = SelectionList { items: Vec::new(), cursor: None };
        proof {
            assert(r@.items =~= Seq::<T::V>::empty());
            assert(r@ =~= SelView::<T::V>::of_items(Seq::<T::V>::empty()));
        }
        r
    }

    /// Replace the whole sequence; the cursor is reset to the first element,
    /// or to absent when the new sequence is empty.
    pub fn replace(&mut self, items: Vec<T>)
        ensures
            final(self)@ == SelView::<T::V>::of_items(items.deep_view()),
            final(self)@.wf(),
    {
        let is_empty = items.len() == 0;
        self.items = items;
        self.cursor = if is_empty {
            None
        } else {
            Some(0)
        };
        proof {
            assert(final(self)@ =~= SelView::<T::V>::of_items(final(self).items.deep_view()));
        }
    }

    /// Empty the sequence and drop the selection.
    pub fn clear(&mut self)
        ensures
            final(self)@ == SelView::<T::V>::of_items(Seq::<T::V>::empty()),
            final(self)@.wf(),
    {
        self.items = Vec::new();
        self.cursor = None;
        proof {
            assert(final(self)@.items =~= Seq::<T::V>::empty());
            assert(final(self)@ =~= SelView::<T::V>::of_items(Seq::<T::V>::empty()));
        }
    }

    /// Move the cursor one step forward, cyclically.
    pub fn advance(&mut self)
        requires
            old(self)@.wf(),
        ensures
            final(self)@ == old(self)@.advanced(),
            final(self)@.wf(),
    {
        if self.items.len() == 0 {
            return ;
        }
        let last: usize = self.items.len() - 1;
        self.cursor = match self.cursor {
            None => Some(0),
            Some(i) => Some(
                if i >= last {
                    0
                } else {
                    i + 1
                },
            ),
        };
        proof {
            assert(final(self)@ =~= old(self)@.advanced());
        }
    }

    /// Move the cursor one step backward, cyclically.
    pub fn retreat(&mut self)
        requires
            old(self)@.wf(),
        ensures
            final(self)@ == old(self)@.retreated(),
            final(self)@.wf(),
    {
        if self.items.len() == 0 {
            return ;
        }
        let last: usize = self.items.len() - 1;
        self.cursor = match self.cursor {
            None => Some(last),
            Some(i) => Some(
                if i == 0 {
                    last
                } else {
                    i - 1
                },
            ),
        };
        proof {
            assert(final(self)@ =~= old(self)@.retreated());
        }
    }

    /// Set the cursor to absent without altering the sequence.
    pub fn clear_selection(&mut self)
        ensures
            final(self)@ == old(self)@.cleared(),
            final(self)@.wf(),
    {
        self.cursor = None;
        proof {
            assert(final(self)@ =~= old(self)@.cleared());
        }
    }

    /// How many items the list holds.
    pub fn len(&self) -> (r: usize)
        ensures
            r == self@.items.len(),
    {
        self.items.len()
    }

    /// The cursor as an index, if present.
    pub fn selected_index(&self) -> (r: Option<usize>)
        ensures
            (match r {
                Some(i) => self@.cursor == Some(i as int),
                None => self@.cursor is None,
            }),
    {
        self.cursor
    }

    /// The item at index `i`.
    pub fn get(&self, i: usize) -> (r: &T)
        requires
            i < self@.items.len(),
        ensures
            r.deep_view() == self@.items[i as int],
    {
        &self.items[i]
    }

    /// The item under the cursor, if any.
    pub fn selected(&self) -> (r: Option<&T>)
        requires
            self@.wf(),
        ensures
            (match (r, self@.selected_item()) {
                (Some(t), Some(v)) => t.deep_view() == v,
                (None, None) => true,
                _ => false,
            }),
    {
        match self.cursor {
            Some(i) => Some(&self.items[i]),
            None => None,
        }
    }
}

} // verus!
