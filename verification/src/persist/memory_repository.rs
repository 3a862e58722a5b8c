//! An in-memory view repository, useful for application development and
//! testing purposes.

use vstd::prelude::*;

use core::marker::PhantomData;

use crate::aggregate::Aggregate;
use crate::persist::PersistenceError;
use crate::persist::ViewContext;
use crate::persist::ViewRepository;
use crate::query::Projection;

verus! {

/// The stored views modelled over an append-only update journal: for each
/// view id, the latest appended entry wins.
pub open spec fn journal_views<V: Projection<A>, A: Aggregate>(entries: Seq<(String, V, u64)>) -> Map<
    Seq<char>,
    (V::V, int),
>
    decreases entries.len(),
{
    if entries.len() == 0 {
        Map::empty()
    } else {
        journal_views::<V, A>(entries.drop_last()).insert(
            entries.last().0@,
            (entries.last().1@, entries.last().2 as int),
        )
    }
}

proof fn lemma_journal_views_contains<V: Projection<A>, A: Aggregate>(
    entries: Seq<(String, V, u64)>,
    key: Seq<char>,
)
    ensures
        journal_views::<V, A>(entries).contains_key(key) <==> exists|i: int|
            0 <= i < entries.len() && (#[trigger] entries[i].0@) == key,
    decreases entries.len(),
{
    if entries.len() == 0 {
    } else {
        lemma_journal_views_contains::<V, A>(entries.drop_last(), key);
        let last = entries.len() - 1;
        if entries[last].0@ == key {
            assert(journal_views::<V, A>(entries).contains_key(key));
        } else {
            if exists|i: int| 0 <= i < entries.len() && (#[trigger] entries[i].0@) == key {
                let i = choose|i: int| 0 <= i < entries.len() && (#[trigger] entries[i].0@) == key;
                assert(entries.drop_last()[i].0@ == key);
            }
            if exists|i: int|
                0 <= i < entries.drop_last().len() && (#[trigger] entries.drop_last()[i].0@)
                    == key {
                let i = choose|i: int|
                    0 <= i < entries.drop_last().len() && (#[trigger] entries.drop_last()[i].0@)
                        == key;
                assert(entries[i].0@ == key);
            }
        }
    }
}

proof fn lemma_journal_views_last_match<V: Projection<A>, A: Aggregate>(
    entries: Seq<(String, V, u64)>,
    i: int,
)
    requires
        0 <= i < entries.len(),
        forall|j: int| i < j < entries.len() ==> (#[trigger] entries[j].0@) != entries[i].0@,
    ensures
        journal_views::<V, A>(entries).contains_key(entries[i].0@),
        journal_views::<V, A>(entries)[entries[i].0@] == (entries[i].1@, entries[i].2 as int),
    decreases entries.len(),
{
    let last = entries.len() - 1;
    if i == last {
    } else {
        assert(entries.drop_last()[i] == entries[i]);
        lemma_journal_views_last_match::<V, A>(entries.drop_last(), i);
        assert(entries[last].0@ != entries[i].0@);
    }
}

proof fn lemma_journal_views_push<V: Projection<A>, A: Aggregate>(
    entries: Seq<(String, V, u64)>,
    entry: (String, V, u64),
)
    ensures
        journal_views::<V, A>(entries.push(entry)) == journal_views::<V, A>(entries).insert(
            entry.0@,
            (entry.1@, entry.2 as int),
        ),
{
    assert(entries.push(entry).drop_last() =~= entries);
    assert(entries.push(entry).last() == entry);
}

/// A view repository backed by an in-process, append-only update journal:
/// each update appends the persisted (view, context) pair, and a load
/// returns the latest entry for the view id. Nothing survives the process.
pub struct MemoryViewRepository<V, A> where V: Projection<A>, A: Aggregate {
    entries: Vec<(String, V, u64)>,
    phantom: PhantomData<A>,
}

impl<V, A> MemoryViewRepository<V, A> where V: Projection<A>, A: Aggregate {
    /// An empty repository: no view is stored yet.
    pub fn new() -> (r: Self)
        ensures
            r.views() == Map::<Seq<char>, (V::V, int)>::empty(),
    {
        MemoryViewRepository { entries: Vec::new(), phantom: PhantomData }
    }

    /// The index of the latest entry for `view_id`, if any.
    fn find_latest(&self, view_id: &String) -> (r: Option<usize>)
        ensures
            match r {
                Some(i) => i < self.entries@.len() && self.entries@[i as int].0@ == view_id@
                    && forall|j: int|
                    i < j < self.entries@.len() ==> (#[trigger] self.entries@[j].0@) != view_id@,
                None => forall|j: int|
                    0 <= j < self.entries@.len() ==> (#[trigger] self.entries@[j].0@) != view_id@,
            },
    {
        let mut i: usize = self.entries.len();
        while i > 0
            invariant
                i <= self.entries@.len(),
                forall|j: int|
                    i <= j < self.entries@.len() ==> (#[trigger] self.entries@[j].0@) != view_id@,
            decreases i,
        {
            i -= 1;
            if self.entries[i].0 == *view_id {
                return Some(i);
            }
        }
        None
    }
}

impl<V, A> ViewRepository<V, A> for MemoryViewRepository<V, A> where
    V: Projection<A>,
    A: Aggregate,
 {
    closed spec fn views(&self) -> Map<Seq<char>, (V::V, int)> {
        journal_views::<V, A>(self.entries@)
    }

    fn load_with_context(&self, view_id: &str) -> (r: Result<
        Option<(V, ViewContext)>,
        PersistenceError,
    >) {
        let key = String::from_str(view_id);
        match self.find_latest(&key) {
            Some(i) => {
                proof {
                    lemma_journal_views_last_match::<V, A>(self.entries@, i as int);
                }
                let entry = &self.entries[i];
                let view = entry.1.clone_view();
                let context = ViewContext::new(String::from_str(view_id), entry.2);
                Ok(Some((view, context)))
            },
            None => {
                proof {
                    lemma_journal_views_contains::<V, A>(self.entries@, view_id@);
                }
                Ok(None)
            },
        }
    }

    fn update_view(&mut self, view: V, context: ViewContext) -> (r: Result<(), PersistenceError>) {
        proof {
            lemma_journal_views_push::<V, A>(
                self.entries@,
                (context.view_instance_id, view, context.version),
            );
        }
        let ViewContext { view_instance_id, version } = context;
        self.entries.push((view_instance_id, view, version));
        Ok(())
    }
}

} // verus!
