//! The shared status table: a mapping from pod identifier to lifecycle
//! status, the single source of truth consulted and updated by the status
//! poller, the action controller and the orchestrator.
//!
//! The table is modelled as a `Map<Seq<char>, Status>`; the representation
//! keeps one entry per pod identifier. Absence of a key is the terminal /
//! unknown state: there is no third status variant.

use vstd::prelude::*;

verus! {

/// The lifecycle status of one worker pod, as last observed.
#[derive(Clone, Copy, Debug, PartialEq, Eq, Structural)]
pub enum Status {
    /// Pod created, not yet confirmed to be processing work.
    Waiting,
    /// Pod confirmed actively processing work.
    Running,
}

/// The identifiers in `m` whose pod carries status `st`.
pub open spec fn with_status(m: Map<Seq<char>, Status>, st: Status) -> Set<Seq<char>> {
    m.dom().filter(|k: Seq<char>| m[k] == st)
}

/// The table a sequence of entries denotes: later entries win, though the
/// representation below never holds one key twice.
spec fn entries_map(s: Seq<(String, Status)>) -> Map<Seq<char>, Status>
    decreases s.len(),
{
    if s.len() == 0 {
        Map::empty()
    } else {
        entries_map(s.drop_last()).insert(s.last().0@, s.last().1)
    }
}

/// No pod identifier occurs twice among the entries.
spec fn unique_keys(s: Seq<(String, Status)>) -> bool {
    forall|i: int, j: int| 0 <= i < j < s.len() ==> s[i].0@ != s[j].0@
}

/// How many entries carry status `st`.
spec fn count_status(s: Seq<(String, Status)>, st: Status) -> nat
    decreases s.len(),
{
    if s.len() == 0 {
        0
    } else {
        count_status(s.drop_last(), st) + (if s.last().1 == st {
            1nat
        } else {
            0nat
        })
    }
}

/// Shared mapping from pod identifier to [`Status`].
///
/// Entries are added when the action controller records a created pod (or
/// the poller classifies a cluster-listed pod) and removed only on
/// deletion; the poller otherwise just overwrites values.
pub struct StatusTable {
    entries: Vec<(String, Status)>,
}

impl View for StatusTable {
    type V = Map<Seq<char>, Status>;

    closed spec fn view(&self) -> Map<Seq<char>, Status> {
        entries_map(self.entries@)
    }
}

proof fn lemma_entries_map_contains(s: Seq<(String, Status)>)
    ensures
        forall|k: Seq<char>|
            #[trigger] entries_map(s).contains_key(k) <==> exists|i: int|
                0 <= i < s.len() && s[i].0@ == k,
    decreases s.len(),
{
    if s.len() > 0 {
        lemma_entries_map_contains(s.drop_last());
        assert forall|k: Seq<char>| #[trigger] entries_map(s).contains_key(k) implies exists|i: int|
            0 <= i < s.len() && s[i].0@ == k by {
            if k == s.last().0@ {
                assert(s[s.len() - 1].0@ == k);
            } else {
                assert(entries_map(s.drop_last()).contains_key(k));
                let i = choose|i: int| 0 <= i < s.drop_last().len() && s.drop_last()[i].0@ == k;
                assert(s[i].0@ == k);
            }
        }
        assert forall|k: Seq<char>|
            exists|i: int| 0 <= i < s.len() && s[i].0@ == k implies #[trigger] entries_map(
            s,
        ).contains_key(k) by {
            let i = choose|i: int| 0 <= i < s.len() && s[i].0@ == k;
            if i < s.len() - 1 {
                assert(s.drop_last()[i].0@ == k);
                assert(exists|j: int| 0 <= j < s.drop_last().len() && s.drop_last()[j].0@ == k);
                assert(entries_map(s.drop_last()).contains_key(k));
            }
        }
    }
}

proof fn lemma_entries_map_finite(s: Seq<(String, Status)>)
    ensures
        entries_map(s).dom().finite(),
    decreases s.len(),
{
    if s.len() > 0 {
        lemma_entries_map_finite(s.drop_last());
    }
}

proof fn lemma_entries_map_index(s: Seq<(String, Status)>, i: int)
    requires
        unique_keys(s),
        0 <= i < s.len(),
    ensures
        entries_map(s).contains_key(s[i].0@),
        entries_map(s)[s[i].0@] == s[i].1,
    decreases s.len(),
{
    if i == s.len() - 1 {
    } else {
        assert(unique_keys(s.drop_last()));
        lemma_entries_map_index(s.drop_last(), i);
        assert(s.drop_last()[i] == s[i]);
        assert(s[i].0@ != s.last().0@);
    }
}

proof fn lemma_entries_map_len(s: Seq<(String, Status)>)
    requires
        unique_keys(s),
    ensures
        entries_map(s).dom().len() == s.len(),
    decreases s.len(),
{
    if s.len() > 0 {
        assert(unique_keys(s.drop_last()));
        lemma_entries_map_len(s.drop_last());
        lemma_entries_map_finite(s.drop_last());
        lemma_entries_map_contains(s.drop_last());
        assert(!entries_map(s.drop_last()).contains_key(s.last().0@));
    }
}

proof fn lemma_count_status_filter(s: Seq<(String, Status)>, st: Status)
    requires
        unique_keys(s),
    ensures
        with_status(entries_map(s), st).finite(),
        with_status(entries_map(s), st).len() == count_status(s, st),
    decreases s.len(),
{
    if s.len() == 0 {
        assert(with_status(entries_map(s), st) =~= Set::empty());
    } else {
        let prev = entries_map(s.drop_last());
        let k = s.last().0@;
        let v = s.last().1;
        assert(unique_keys(s.drop_last()));
        lemma_count_status_filter(s.drop_last(), st);
        lemma_entries_map_contains(s.drop_last());
        assert(!prev.contains_key(k));
        if v == st {
            assert(with_status(entries_map(s), st) =~= with_status(prev, st).insert(k));
            assert(!with_status(prev, st).contains(k));
        } else {
            assert(with_status(entries_map(s), st) =~= with_status(prev, st));
        }
    }
}

/// Every pod in a status table is either running or waiting, so the running
/// and waiting counts partition the total: for any finite table state,
/// `running + waiting == total`.
pub proof fn lemma_counts_partition(m: Map<Seq<char>, Status>)
    requires
        m.dom().finite(),
    ensures
        with_status(m, Status::Running).finite(),
        with_status(m, Status::Waiting).finite(),
        with_status(m, Status::Running).len() + with_status(m, Status::Waiting).len()
            == m.dom().len(),
    decreases m.dom().len(),
{
    m.dom().lemma_len_filter(|k: Seq<char>| m[k] == Status::Running);
    m.dom().lemma_len_filter(|k: Seq<char>| m[k] == Status::Waiting);
    if m.dom().len() == 0 {
        m.dom().lemma_len0_is_empty();
        assert(with_status(m, Status::Running) =~= Set::empty());
        assert(with_status(m, Status::Waiting) =~= Set::empty());
    } else {
        let k = m.dom().choose();
        assert(m.dom().contains(k));
        let m2 = m.remove(k);
        assert(m2.dom() =~= m.dom().remove(k));
        lemma_counts_partition(m2);
        if m[k] == Status::Running {
            assert(with_status(m, Status::Running) =~= with_status(m2, Status::Running).insert(k));
            assert(with_status(m, Status::Waiting) =~= with_status(m2, Status::Waiting));
            assert(!with_status(m2, Status::Running).contains(k));
        } else {
            assert(with_status(m, Status::Waiting) =~= with_status(m2, Status::Waiting).insert(k));
            assert(with_status(m, Status::Running) =~= with_status(m2, Status::Running));
            assert(!with_status(m2, Status::Waiting).contains(k));
        }
    }
}

impl StatusTable {
    /// The table's internal well-formedness: no identifier occurs twice.
    /// Constructors establish it and every method preserves it.
    pub closed spec fn wf(&self) -> bool {
        unique_keys(self.entries@)
    }

    /// An empty table.
    pub fn new() -> (t: Self)
        ensures
            t.wf(),
            t@ == Map::<Seq<char>, Status>::empty(),
    {
        Self { entries: Vec::new() }
    }

    /// The index of `id` among the entries, if present.
    fn find_index(&self, id: &str) -> (r: Option<usize>)
        ensures
            match r {
                Some(i) => i < self.entries@.len() && self.entries@[i as int].0@ == id@,
                None => forall|j: int| 0 <= j < self.entries@.len() ==> self.entries@[j].0@ != id@,
            },
    {
        let n = self.entries.len();
        let mut i: usize = 0;
        while i < n
            invariant
                i <= n,
                n == self.entries@.len(),
                forall|j: int| 0 <= j < i ==> self.entries@[j].0@ != id@,
            decreases n - i,
        {
            if crate::text::str_eq(self.entries[i].0.as_str(), id) {
                return Some(i);
            }
            i = i + 1;
        }
        None
    }

    /// Record `st` for pod `id`, adding the entry or overwriting the old
    /// status.
    pub fn set(&mut self, id: String, st: Status)
        requires
            old(self).wf(),
        ensures
            final(self).wf(),
            final(self)@ == old(self)@.insert(id@, st),
    {
        self.remove(id.as_str());
        proof {
            lemma_entries_map_contains(self.entries@);
            assert(!entries_map(self.entries@).contains_key(id@));
        }
        let ghost before = self.entries@;
        self.entries.push((id, st));
        proof {
            assert(self.entries@.drop_last() =~= before);
            assert(forall|j: int| 0 <= j < before.len() ==> before[j].0@ != id@);
            assert(unique_keys(self.entries@));
        }
    }

    /// Remove pod `id` from the table; a missing id leaves the table as it
    /// was.
    pub fn remove(&mut self, id: &str)
        requires
            old(self).wf(),
        ensures
            final(self).wf(),
            final(self)@ == old(self)@.remove(id@),
    {
        match self.find_index(id) {
            Some(i) => {
                let ghost before = self.entries@;
                self.entries.remove(i);
                proof {
                    lemma_unique_keys_remove(before, i as int);
                    lemma_entries_map_remove(before, i as int);
                }
            },
            None => {
                proof {
                    lemma_entries_map_contains(self.entries@);
                    assert(!self@.contains_key(id@));
                    assert(self@.remove(id@) =~= self@);
                }
            },
        }
    }

    /// Read the aggregate counts `(total, running, waiting)` in one atomic
    /// step. The two partial counts always sum to the total.
    pub fn get_counts(&self) -> (c: (usize, usize, usize))
        requires
            self.wf(),
        ensures
            c.0 as nat == self@.dom().len(),
            c.1 as nat == with_status(self@, Status::Running).len(),
            c.2 as nat == with_status(self@, Status::Waiting).len(),
            c.0 == c.1 + c.2,
            c.1 <= c.0,
    {
        let n = self.entries.len();
        let mut running: usize = 0;
        let mut waiting: usize = 0;
        let mut i: usize = 0;
        while i < n
            invariant
                i <= n,
                n == self.entries@.len(),
                running as nat == count_status(self.entries@.subrange(0, i as int), Status::Running),
                waiting as nat == count_status(self.entries@.subrange(0, i as int), Status::Waiting),
                running + waiting == i,
            decreases n - i,
        {
            let ghost pre = self.entries@.subrange(0, i as int);
            let ghost post = self.entries@.subrange(0, i as int + 1);
            proof {
                assert(post.drop_last() =~= pre);
                assert(post.last() == self.entries@[i as int]);
            }
            if self.entries[i].1 == Status::Running {
                running = running + 1;
            } else {
                waiting = waiting + 1;
            }
            i = i + 1;
        }
        proof {
            assert(self.entries@.subrange(0, n as int) =~= self.entries@);
            lemma_entries_map_finite(self.entries@);
            lemma_entries_map_len(self.entries@);
            lemma_count_status_filter(self.entries@, Status::Running);
            lemma_count_status_filter(self.entries@, Status::Waiting);
            lemma_counts_partition(self@);
        }
        (n, running, waiting)
    }

    /// An arbitrary pod currently recorded as waiting, if any. Ties are
    /// broken arbitrarily by design: any waiting pod suffices for deletion.
    pub fn list_waiting_one(&self) -> (r: Option<String>)
        requires
            self.wf(),
        ensures
            match r {
                Some(id) => self@.contains_key(id@) && self@[id@] == Status::Waiting,
                None => forall|k: Seq<char>|
                    self@.contains_key(k) ==> self@[k] == Status::Running,
            },
            with_status(self@, Status::Waiting).len() > 0 ==> r is Some,
    {
        proof {
            lemma_entries_map_contains(self.entries@);
        }
        let n = self.entries.len();
        let mut i: usize = 0;
        while i < n
            invariant
                i <= n,
                n == self.entries@.len(),
                unique_keys(self.entries@),
                forall|j: int| 0 <= j < i ==> self.entries@[j].1 != Status::Waiting,
            decreases n - i,
        {
            if self.entries[i].1 == Status::Waiting {
                proof {
                    lemma_entries_map_index(self.entries@, i as int);
                }
                return Some(self.entries[i].0.clone());
            }
            i = i + 1;
        }
        proof {
            assert forall|k: Seq<char>| self@.contains_key(k) implies self@[k] == Status::Running by {
                let j = choose|j: int| 0 <= j < self.entries@.len() && self.entries@[j].0@ == k;
                lemma_entries_map_index(self.entries@, j);
            }
            lemma_entries_map_finite(self.entries@);
            lemma_counts_partition(self@);
            assert(with_status(self@, Status::Waiting) =~= Set::empty());
        }
        None
    }

    /// All pod identifiers currently in the table, without duplicates.
    pub fn keys(&self) -> (r: Vec<String>)
        requires
            self.wf(),
        ensures
            r@.len() == self@.dom().len(),
            forall|i: int| 0 <= i < r@.len() ==> self@.contains_key(#[trigger] r@[i]@),
            forall|k: Seq<char>|
                self@.contains_key(k) ==> exists|i: int| 0 <= i < r@.len() && r@[i]@ == k,
    {
        proof {
            lemma_entries_map_contains(self.entries@);
            lemma_entries_map_len(self.entries@);
        }
        let n = self.entries.len();
        let mut r: Vec<String> = Vec::new();
        let mut i: usize = 0;
        while i < n
            invariant
                i <= n,
                n == self.entries@.len(),
                r@.len() == i,
                forall|j: int| 0 <= j < i ==> r@[j]@ == self.entries@[j].0@,
            decreases n - i,
        {
            r.push(self.entries[i].0.clone());
            i = i + 1;
        }
        proof {
            assert forall|i: int| 0 <= i < r@.len() implies self@.contains_key(
                #[trigger] r@[i]@,
            ) by {
                assert(self.entries@[i].0@ == r@[i]@);
            }
            assert forall|k: Seq<char>| self@.contains_key(k) implies exists|i: int|
                0 <= i < r@.len() && r@[i]@ == k by {
                let j = choose|j: int| 0 <= j < self.entries@.len() && self.entries@[j].0@ == k;
                assert(r@[j]@ == k);
            }
        }
        r
    }

    /// Empty the table: used when a deletion event tears a generation down.
    pub fn clear(&mut self)
        ensures
            final(self).wf(),
            final(self)@ == Map::<Seq<char>, Status>::empty(),
    {
        self.entries.clear();
        proof {
            assert(final(self)@ =~= Map::<Seq<char>, Status>::empty());
        }
    }
}

proof fn lemma_unique_keys_remove(s: Seq<(String, Status)>, i: int)
    requires
        unique_keys(s),
        0 <= i < s.len(),
    ensures
        unique_keys(s.remove(i)),
{
    assert forall|a: int, b: int| 0 <= a < b < s.remove(i).len() implies s.remove(i)[a].0@
        != s.remove(i)[b].0@ by {
        let a0 = if a < i { a } else { a + 1 };
        let b0 = if b < i { b } else { b + 1 };
        assert(s.remove(i)[a] == s[a0]);
        assert(s.remove(i)[b] == s[b0]);
    }
}

proof fn lemma_entries_map_remove(s: Seq<(String, Status)>, i: int)
    requires
        unique_keys(s),
        0 <= i < s.len(),
    ensures
        entries_map(s.remove(i)) == entries_map(s).remove(s[i].0@),
    decreases s.len(),
{
    let k = s[i].0@;
    if i == s.len() - 1 {
        assert(s.remove(i) =~= s.drop_last());
        lemma_entries_map_contains(s.drop_last());
        assert(!entries_map(s.drop_last()).contains_key(k));
        assert(entries_map(s.drop_last()).insert(k, s.last().1).remove(k) =~= entries_map(
            s.drop_last(),
        ));
    } else {
        let d = s.drop_last();
        assert(unique_keys(d));
        lemma_entries_map_remove(d, i);
        assert(s.remove(i).drop_last() =~= d.remove(i));
        assert(s.remove(i).last() == s.last());
        assert(s.remove(i).len() > 0);
        // entries_map(s.remove(i)) == entries_map(d.remove(i)).insert(last)
        //                          == entries_map(d).remove(k).insert(last)
        // and the insert of the last entry commutes with removing k, since
        // the last entry's key differs from k by uniqueness.
        assert(s.last().0@ != k);
        assert(entries_map(d).remove(k).insert(s.last().0@, s.last().1) =~= entries_map(d).insert(
            s.last().0@,
            s.last().1,
        ).remove(k));
    }
}

} // verus!
