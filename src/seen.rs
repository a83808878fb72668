//! The set of document identifiers marked as seen, and its persisted form.

use vstd::prelude::*;
use crate::text::{views, joined, lines_of, is_plain_line, split_lines, join_lines, lemma_lines_of_joined};

verus! {

/// Identifiers of the documents marked as seen; each is held once.
pub struct SeenSet {
    ids: Vec<String>,
}

impl View for SeenSet {
    type V = Set<Seq<char>>;

    open spec fn view(&self) -> Set<Seq<char>> {
        self.entries().to_set()
    }
}

impl SeenSet {
    /// The identifiers in the order in which they are held.
    pub closed spec fn entries(&self) -> Seq<Seq<char>> {
        views(self.ids@)
    }

    /// No identifier is held twice.
    pub open spec fn wf(&self) -> bool {
        self.entries().no_duplicates()
    }

    /// The empty set.
    pub fn new() -> (r: Self)
        ensures
            r.wf(),
            r@ == Set::<Seq<char>>::empty(),
    {
        let r = SeenSet { ids: Vec::new() };
        assert(r@ =~= Set::<Seq<char>>::empty());
        r
    }

    /// Number of identifiers held.
    pub fn len(&self) -> (r: usize)
        requires
            self.wf(),
        ensures
            r == self@.len(),
    {
        proof {
            self.entries().unique_seq_to_set();
        }
        self.ids.len()
    }

    /// Whether `id` is marked as seen.
    pub fn contains(&self, id: &String) -> (r: bool)
        ensures
            r == self@.contains(id@),
    {
        let mut i: usize = 0;
        while i < self.ids.len()
            invariant
                i <= self.ids.len(),
                forall|k: int| 0 <= k < i ==> self.entries()[k] != id@,
            decreases self.ids.len() - i,
        {
            if self.ids[i] == *id {
                assert(self.entries()[i as int] == id@);
                return true;
            }
            i = i + 1;
        }
        false
    }

    /// Marks `id` as seen; marking it again changes nothing.
    pub fn mark(&mut self, id: String)
        requires
            old(self).wf(),
        ensures
            final(self).wf(),
            final(self)@ == old(self)@.insert(id@),
    {
        if !self.contains(&id) {
            let ghost before = self.entries();
            self.ids.push(id);
            assert(self.entries() =~= before.push(id@));
            proof {
                lemma_push_to_set(before, id@);
            }
        } else {
            assert(self@ =~= old(self)@.insert(id@));
        }
    }

    /// Takes the mark off `id`; without a mark nothing changes.
    pub fn unmark(&mut self, id: &String)
        requires
            old(self).wf(),
        ensures
            final(self).wf(),
            final(self)@ == old(self)@.remove(id@),
    {
        let mut i: usize = 0;
        while i < self.ids.len()
            invariant
                i <= self.ids.len(),
                self == old(self),
                self.wf(),
                forall|k: int| 0 <= k < i ==> self.entries()[k] != id@,
            decreases self.ids.len() - i,
        {
            if self.ids[i] == *id {
                let ghost before = self.entries();
                self.ids.remove(i);
                assert(self.entries() =~= before.remove(i as int));
                proof {
                    lemma_remove_to_set(before, i as int);
                }
                return;
            }
            i = i + 1;
        }
        assert(self@ =~= old(self)@.remove(id@));
    }

    /// The persisted form: each identifier followed by a newline.
    pub fn to_text(&self) -> (r: String)
        ensures
            r@ == joined(self.entries()),
    {
        join_lines(&self.ids)
    }

    /// Reads the persisted form back: one identifier per line.
    pub fn from_text(t: &str) -> (r: Self)
        ensures
            r.wf(),
            r@ == lines_of(t@).to_set(),
    {
        let lines = split_lines(t);
        let mut r = SeenSet::new();
        let mut i: usize = 0;
        while i < lines.len()
            invariant
                i <= lines.len(),
                r.wf(),
                r@ == views(lines@).take(i as int).to_set(),
            decreases lines.len() - i,
        {
            let id = lines[i].clone();
            r.mark(id);
            assert(views(lines@).take(i + 1) =~= views(lines@).take(i as int).push(lines@[i as int]@));
            proof {
                lemma_push_to_set(views(lines@).take(i as int), lines@[i as int]@);
            }
            i = i + 1;
        }
        assert(views(lines@).take(lines.len() as int) =~= views(lines@));
        r
    }
}

proof fn lemma_push_to_set(s: Seq<Seq<char>>, x: Seq<char>)
    ensures
        s.push(x).to_set() == s.to_set().insert(x),
{
    assert(s.push(x) =~= s + seq![x]);
    Seq::lemma_to_set_insert_commutes(s, x);
}

proof fn lemma_remove_to_set(s: Seq<Seq<char>>, i: int)
    requires
        0 <= i < s.len(),
        s.no_duplicates(),
    ensures
        s.remove(i).no_duplicates(),
        s.remove(i).to_set() == s.to_set().remove(s[i]),
{
    let r = s.remove(i);
    assert forall|a: int, b: int| 0 <= a < r.len() && 0 <= b < r.len() && a != b implies r[a] != r[b] by {
        let sa = if a < i { a } else { a + 1 };
        let sb = if b < i { b } else { b + 1 };
        assert(r[a] == s[sa] && r[b] == s[sb]);
    }
    assert forall|x: Seq<char>| #[trigger] s.to_set().remove(s[i]).contains(x) implies r.to_set().contains(x) by {
        let k = choose|k: int| 0 <= k < s.len() && s[k] == x;
        if k < i {
            assert(r[k] == x);
        } else {
            assert(r[k - 1] == x);
        }
    }
    assert forall|x: Seq<char>| #[trigger] r.to_set().contains(x) implies s.to_set().remove(s[i]).contains(x) by {
        let k = choose|k: int| 0 <= k < r.len() && r[k] == x;
        let sk = if k < i { k } else { k + 1 };
        assert(s[sk] == x);
    }
    assert(r.to_set() =~= s.to_set().remove(s[i]));
}

/// Marking an identifier makes it seen, taking the mark off makes it unseen,
/// and marking twice is the same as marking once.
pub proof fn lemma_mark_unmark(s: Set<Seq<char>>, id: Seq<char>)
    ensures
        s.insert(id).contains(id),
        !s.remove(id).contains(id),
        s.insert(id).insert(id) == s.insert(id),
{
    assert(s.insert(id).insert(id) =~= s.insert(id));
}

/// Writing a seen-set out and reading it back gives the same set, when no
/// identifier holds a newline or ends in a carriage return.
pub proof fn lemma_seen_round_trip(s: SeenSet)
    requires
        forall|id: Seq<char>| s@.contains(id) ==> is_plain_line(id),
    ensures
        lines_of(joined(s.entries())).to_set() == s@,
{
    let es = s.entries();
    assert forall|i: int| 0 <= i < es.len() implies is_plain_line(#[trigger] es[i]) by {
        assert(s@.contains(es[i]));
    }
    lemma_lines_of_joined(es);
}

} // verus!
