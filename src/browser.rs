//! The result page on screen: its documents, the selected row and the
//! seen-set.

use vstd::prelude::*;
use crate::results::Response;
use crate::seen::SeenSet;

verus! {

/// Last row of a list of `len` rows; 0 stands in for an empty list.
pub open spec fn last_index(len: nat) -> nat {
    if len == 0 {
        0
    } else {
        (len - 1) as nat
    }
}

/// Row reached by stepping `amount` rows down from `cur`, clamped to the
/// last row; the first step from no selection lands on row 0.
pub open spec fn forward(cur: Option<usize>, amount: nat, len: nat) -> nat {
    match cur {
        None => 0,
        Some(i) => if i + amount >= last_index(len) {
            last_index(len)
        } else {
            (i + amount) as nat
        },
    }
}

/// Row reached by stepping `amount` rows up from `cur`, clamped to row 0.
pub open spec fn backward(cur: Option<usize>, amount: nat) -> nat {
    match cur {
        None => 0,
        Some(i) => if amount >= i {
            0
        } else {
            (i - amount) as nat
        },
    }
}

/// The documents of the current page, the selected row and the seen-set.
///
/// The selection is cleared whenever the page's documents are replaced, so
/// it never points at a row of an earlier page.
pub struct App {
    items: Vec<Response>,
    current: Option<usize>,
    ids: SeenSet,
}

impl App {
    /// The documents of the current page.
    pub closed spec fn items_spec(&self) -> Seq<Response> {
        self.items@
    }

    /// The selected row, if any.
    pub closed spec fn current_spec(&self) -> Option<usize> {
        self.current
    }

    /// The seen-set.
    pub closed spec fn ids_spec(&self) -> SeenSet {
        self.ids
    }

    /// The identifiers marked as seen.
    pub open spec fn seen_spec(&self) -> Set<Seq<char>> {
        self.ids_spec()@
    }

    /// The seen-set is well formed and the selection is a row of the page
    /// (row 0 on an empty page).
    pub open spec fn wf(&self) -> bool {
        &&& self.ids_spec().wf()
        &&& match self.current_spec() {
            Some(i) => i <= last_index(self.items_spec().len()),
            None => true,
        }
    }

    /// No documents, no selection, nothing seen.
    pub fn new() -> (r: App)
        ensures
            r.wf(),
            r.items_spec().len() == 0,
            r.current_spec() is None,
            r.seen_spec() == Set::<Seq<char>>::empty(),
    {
        App { items: Vec::new(), current: None, ids: SeenSet::new() }
    }

    /// The documents of the current page.
    pub fn items(&self) -> (r: &Vec<Response>)
        ensures
            r@ == self.items_spec(),
    {
        &self.items
    }

    /// The selected row, if any.
    pub fn current(&self) -> (r: Option<usize>)
        ensures
            r == self.current_spec(),
    {
        self.current
    }

    /// The seen-set.
    pub fn ids(&self) -> (r: &SeenSet)
        ensures
            *r == self.ids_spec(),
    {
        &self.ids
    }

    /// Whether `id` is marked as seen.
    pub fn is_seen(&self, id: &String) -> (r: bool)
        ensures
            r == self.seen_spec().contains(id@),
    {
        self.ids.contains(id)
    }

    /// Replaces the seen-set.
    pub fn set_ids(&mut self, ids: SeenSet)
        requires
            old(self).wf(),
            ids.wf(),
        ensures
            final(self).wf(),
            final(self).seen_spec() == ids@,
            final(self).items_spec() == old(self).items_spec(),
            final(self).current_spec() == old(self).current_spec(),
    {
        self.ids = ids;
    }

    /// Marks `id` as seen.
    pub fn add_id(&mut self, id: String)
        requires
            old(self).wf(),
        ensures
            final(self).wf(),
            final(self).seen_spec() == old(self).seen_spec().insert(id@),
            final(self).items_spec() == old(self).items_spec(),
            final(self).current_spec() == old(self).current_spec(),
    {
        self.ids.mark(id);
    }

    /// Takes the seen mark off `id`.
    pub fn remove_id(&mut self, id: String)
        requires
            old(self).wf(),
        ensures
            final(self).wf(),
            final(self).seen_spec() == old(self).seen_spec().remove(id@),
            final(self).items_spec() == old(self).items_spec(),
            final(self).current_spec() == old(self).current_spec(),
    {
        self.ids.unmark(&id);
    }

    /// Replaces the page's documents and clears the selection.
    pub fn update_items(&mut self, items: Vec<Response>)
        requires
            old(self).wf(),
        ensures
            final(self).wf(),
            final(self).items_spec() == items@,
            final(self).current_spec() is None,
            final(self).seen_spec() == old(self).seen_spec(),
    {
        self.items = items;
        self.current = None;
    }

    /// Selects row 0.
    pub fn first_item(&mut self)
        requires
            old(self).wf(),
        ensures
            final(self).wf(),
            final(self).current_spec() == Some(0usize),
            final(self).items_spec() == old(self).items_spec(),
            final(self).seen_spec() == old(self).seen_spec(),
    {
        self.current = Some(0);
    }

    /// Selects the last row, or row 0 on an empty page.
    pub fn last_item(&mut self)
        requires
            old(self).wf(),
        ensures
            final(self).wf(),
            final(self).current_spec() == Some(last_index(old(self).items_spec().len()) as usize),
            final(self).items_spec() == old(self).items_spec(),
            final(self).seen_spec() == old(self).seen_spec(),
    {
        let last = if self.items.len() == 0 {
            0
        } else {
            self.items.len() - 1
        };
        self.current = Some(last);
    }

    /// Steps the selection `amount` rows down, stopping at the last row.
    pub fn next_by(&mut self, amount: usize)
        requires
            old(self).wf(),
        ensures
            final(self).wf(),
            final(self).current_spec() == Some(
                forward(old(self).current_spec(), amount as nat, old(self).items_spec().len())
                    as usize,
            ),
            final(self).items_spec() == old(self).items_spec(),
            final(self).seen_spec() == old(self).seen_spec(),
    {
        let last: usize = if self.items.len() == 0 {
            0
        } else {
            self.items.len() - 1
        };
        let i: usize = match self.current {
            Some(i) => {
                if i >= last || amount >= last - i {
                    last
                } else {
                    i + amount
                }
            },
            None => 0,
        };
        self.current = Some(i);
    }

    /// Steps the selection `amount` rows up, stopping at row 0.
    pub fn previous_by(&mut self, amount: usize)
        requires
            old(self).wf(),
        ensures
            final(self).wf(),
            final(self).current_spec() == Some(
                backward(old(self).current_spec(), amount as nat) as usize,
            ),
            final(self).items_spec() == old(self).items_spec(),
            final(self).seen_spec() == old(self).seen_spec(),
    {
        let i: usize = match self.current {
            Some(i) => {
                if amount >= i {
                    0
                } else {
                    i - amount
                }
            },
            None => 0,
        };
        self.current = Some(i);
    }

    /// The selected document (row 0 when nothing is selected), or `None`
    /// when the page has no such row.
    pub fn selected(&self) -> (r: Option<&Response>)
        ensures
            ({
                let k = match self.current_spec() {
                    Some(i) => i as int,
                    None => 0,
                };
                match r {
                    Some(d) => k < self.items_spec().len() && *d == self.items_spec()[k],
                    None => k >= self.items_spec().len(),
                }
            }),
    {
        let k: usize = match self.current {
            Some(i) => i,
            None => 0,
        };
        if k < self.items.len() {
            Some(&self.items[k])
        } else {
            None
        }
    }
}

/// Every step keeps the selection within the rows of the page, and no step
/// fails on an empty page, where it lands on row 0.
pub proof fn lemma_steps_in_range(cur: Option<usize>, amount: nat, len: nat)
    requires
        match cur {
            Some(i) => i <= last_index(len),
            None => true,
        },
    ensures
        forward(cur, amount, len) <= last_index(len),
        backward(cur, amount) <= last_index(len),
        len == 0 ==> forward(cur, amount, len) == 0 && backward(cur, amount) == 0,
        len >= 1 ==> forward(cur, amount, len) < len && backward(cur, amount) < len,
{
}

/// Selecting the first row and then the last lands on the last row of a
/// non-empty page and on row 0 of an empty one.
pub proof fn lemma_first_then_last(app: App, first: App, last: App)
    requires
        app.wf(),
        first.current_spec() == Some(0usize),
        first.items_spec() == app.items_spec(),
        last.current_spec() == Some(last_index(first.items_spec().len()) as usize),
    ensures
        app.items_spec().len() >= 1 ==> last.current_spec() == Some((app.items_spec().len() - 1) as usize),
        app.items_spec().len() == 0 ==> last.current_spec() == Some(0usize),
{
}

} // verus!
