use vstd::prelude::*;

verus! {

/// A one-time-creation memo from topic names to owned resources: at most one
/// entry per topic, entries kept in order of creation.
pub struct TopicMemo<T> {
    entries: Vec<(String, T)>,
}

/// Whether no topic occurs twice in `keys`.
pub open spec fn distinct_keys(keys: Seq<Seq<char>>) -> bool {
    forall|i: int, j: int|
        0 <= i < keys.len() && 0 <= j < keys.len() && #[trigger] keys[i] == #[trigger] keys[j]
            ==> i == j
}

impl<T> TopicMemo<T> {
    /// The topics that have an entry, in order of creation.
    pub closed spec fn keys(&self) -> Seq<Seq<char>> {
        self.entries@.map_values(|e: (String, T)| e.0@)
    }

    /// The resources, in the order of `keys`.
    pub closed spec fn values(&self) -> Seq<T> {
        self.entries@.map_values(|e: (String, T)| e.1)
    }

    pub open spec fn wf(&self) -> bool {
        &&& distinct_keys(self.keys())
        &&& self.values().len() == self.keys().len()
    }

    /// Whether `topic` has an entry.
    pub open spec fn has(&self, topic: Seq<char>) -> bool {
        self.keys().contains(topic)
    }

    pub fn new() -> (r: Self)
        ensures
            r.wf(),
            r.keys() == Seq::<Seq<char>>::empty(),
    {
        let r = TopicMemo { entries: Vec::new() };
        assert(r.keys() =~= Seq::<Seq<char>>::empty());
        r
    }

    pub fn len(&self) -> (r: usize)
        requires
            self.wf(),
        ensures
            r == self.keys().len(),
    {
        self.entries.len()
    }

    /// The position of `topic`'s entry, or `None` when it has none.
    pub fn find(&self, topic: &String) -> (r: Option<usize>)
        requires
            self.wf(),
        ensures
            match r {
                Some(i) => i < self.keys().len() && self.keys()[i as int] == topic@,
                None => !self.has(topic@),
            },
    {
        let mut i: usize = 0;
        while i < self.entries.len()
            invariant
                i <= self.entries@.len(),
                self.keys().len() == self.entries@.len(),
                forall|k: int| 0 <= k < i ==> self.keys()[k] != topic@,
            decreases self.entries@.len() - i,
        {
            if self.entries[i].0 == *topic {
                return Some(i);
            }
            i = i + 1;
        }
        proof {
            if self.has(topic@) {
                let k = self.keys().index_of(topic@);
                assert(self.keys()[k] == topic@);
            }
        }
        None
    }

    /// Adds an entry for a topic that has none; returns its position.
    pub fn insert_new(&mut self, topic: String, value: T) -> (r: usize)
        requires
            old(self).wf(),
            !old(self).has(topic@),
        ensures
            final(self).wf(),
            final(self).keys() == old(self).keys().push(topic@),
            final(self).values() == old(self).values().push(value),
            r == old(self).keys().len(),
    {
        let ghost t = topic@;
        let r = self.entries.len();
        self.entries.push((topic, value));
        assert(self.keys() =~= old(self).keys().push(t));
        assert(self.values() =~= old(self).values().push(value));
        assert forall|i: int, j: int|
            0 <= i < self.keys().len() && 0 <= j < self.keys().len()
                && #[trigger] self.keys()[i] == #[trigger] self.keys()[j] implies i == j by {
            if i < r && j == r {
                assert(old(self).keys().contains(t));
            }
            if j < r && i == r {
                assert(old(self).keys().contains(t));
            }
        }
        r
    }

    /// The resource at position `i`.
    pub fn get(&self, i: usize) -> (r: &T)
        requires
            self.wf(),
            i < self.keys().len(),
        ensures
            *r == self.values()[i as int],
    {
        &self.entries[i].1
    }

    /// Mutable access to the resource at position `i`; the topics stay as they are.
    pub fn get_mut(&mut self, i: usize) -> (r: &mut T)
        requires
            old(self).wf(),
            i < old(self).keys().len(),
        ensures
            *r == old(self).values()[i as int],
            final(self).keys() == old(self).keys(),
            final(self).values() == old(self).values().update(i as int, *final(r)),
    {
        &mut self.entries[i].1
    }
}

/// A memo holds at most one entry per topic.
pub proof fn lemma_one_entry_per_topic<T>(m: TopicMemo<T>, i: int, j: int)
    requires
        m.wf(),
        0 <= i < m.keys().len(),
        0 <= j < m.keys().len(),
        m.keys()[i] == m.keys()[j],
    ensures
        i == j,
{
}

} // verus!
