//! Content items and the shared, read-only set of them that one pipeline
//! run attaches to every message.

use std::sync::Arc;
use vstd::prelude::*;

verus! {

/// One resolved piece of content.
#[derive(Clone, Debug, PartialEq, Eq)]
pub struct ContentItem {
    pub id: u32,
    pub name: String,
    pub url: String,
}

/// What a [`ContentItem`] holds, as mathematical values.
pub struct ContentView {
    pub id: u32,
    pub name: Seq<char>,
    pub url: Seq<char>,
}

impl View for ContentItem {
    type V = ContentView;

    open spec fn view(&self) -> ContentView {
        ContentView { id: self.id, name: self.name@, url: self.url@ }
    }
}

/// The views of a sequence of items, in the same order.
pub open spec fn item_views(items: Seq<ContentItem>) -> Seq<ContentView> {
    items.map_values(|c: ContentItem| c@)
}

/// The items among `outcomes` that were resolved, in the order in which
/// they came; the failed ones leave no trace.
pub open spec fn resolved<E>(outcomes: Seq<Result<ContentItem, E>>) -> Seq<ContentView> {
    outcomes.filter(|o: Result<ContentItem, E>| o is Ok).map_values(
        |o: Result<ContentItem, E>| o->Ok_0@,
    )
}

/// Appending one outcome appends its item if it was resolved and nothing
/// otherwise.
pub proof fn lemma_resolved_push<E>(outcomes: Seq<Result<ContentItem, E>>, next: Result<ContentItem, E>)
    ensures
        resolved(outcomes.push(next)) == match next {
            Ok(item) => resolved(outcomes).push(item@),
            Err(_) => resolved(outcomes),
        },
{
    let keep = |o: Result<ContentItem, E>| o is Ok;
    let grown = outcomes.push(next);
    reveal(Seq::filter);
    assert(grown.drop_last() == outcomes);
    assert(grown.filter(keep) == if keep(next) {
        outcomes.filter(keep).push(next)
    } else {
        outcomes.filter(keep)
    });
    match next {
        Ok(item) => {
            assert(resolved(grown) =~= resolved(outcomes).push(item@));
        },
        Err(_) => {},
    }
}

/// Whether every resolved item among `outcomes` answers one of the
/// requested identifiers.
pub open spec fn answers_only<E>(ids: Seq<u32>, outcomes: Seq<Result<ContentItem, E>>) -> bool {
    forall|i: int| 0 <= i < outcomes.len() && (#[trigger] outcomes[i]) is Ok ==> ids.contains(outcomes[i]->Ok_0.id)
}

/// Where nothing was resolved, the resolved items are none.
pub proof fn lemma_nothing_resolved<E>(outcomes: Seq<Result<ContentItem, E>>)
    requires
        forall|i: int| 0 <= i < outcomes.len() ==> (#[trigger] outcomes[i]) is Err,
    ensures
        resolved(outcomes) == Seq::<ContentView>::empty(),
    decreases outcomes.len(),
{
    if outcomes.len() == 0 {
        assert(resolved(outcomes) =~= Seq::<ContentView>::empty());
    } else {
        let front = outcomes.drop_last();
        assert forall|i: int| 0 <= i < front.len() implies (#[trigger] front[i]) is Err by {
            assert(front[i] == outcomes[i]);
        }
        lemma_nothing_resolved(front);
        assert(outcomes.last() is Err);
        lemma_resolved_push(front, outcomes.last());
        assert(outcomes =~= front.push(outcomes.last()));
    }
}

/// When no identifier was requested, and the materializer answers only
/// what was requested, nothing is resolved.
pub proof fn lemma_no_identifiers_no_content<E>(ids: Seq<u32>, outcomes: Seq<Result<ContentItem, E>>)
    requires
        ids.len() == 0,
        answers_only(ids, outcomes),
    ensures
        resolved(outcomes) == Seq::<ContentView>::empty(),
{
    assert forall|i: int| 0 <= i < outcomes.len() implies (#[trigger] outcomes[i]) is Err by {
        if outcomes[i] is Ok {
            assert(ids.contains(outcomes[i]->Ok_0.id));
        }
    }
    lemma_nothing_resolved(outcomes);
}

/// The content snapshot of one pipeline run. It is built once and never
/// changed; handing it on shares the allocation instead of copying it.
#[derive(Clone, Debug, PartialEq, Eq)]
pub struct ContentSet {
    items: Arc<Vec<ContentItem>>,
}

impl View for ContentSet {
    type V = Seq<ContentView>;

    closed spec fn view(&self) -> Seq<ContentView> {
        item_views((*self.items)@)
    }
}

/// `Arc::clone`: another handle to the same allocation, so the value
/// behind it is the one behind `items`.
#[verifier::external_body]
fn share_items(items: &Arc<Vec<ContentItem>>) -> (shared: Arc<Vec<ContentItem>>)
    ensures
        shared == *items,
{
    Arc::clone(items)
}

impl ContentSet {
    /// The set without any item.
    pub fn empty() -> (set: ContentSet)
        ensures
            set@ == Seq::<ContentView>::empty(),
    {
        let set = ContentSet { items: Arc::new(Vec::new()) };
        assert(set@ =~= Seq::<ContentView>::empty());
        set
    }

    /// The set of the given items, in their order.
    pub fn from_items(items: Vec<ContentItem>) -> (set: ContentSet)
        ensures
            set@ == item_views(items@),
    {
        ContentSet { items: Arc::new(items) }
    }

    /// Collects what a materializer answered for the requested
    /// identifiers: the resolved items stay, in their order, and every
    /// failed one is dropped without a report.
    pub fn gather<E>(outcomes: Vec<Result<ContentItem, E>>) -> (set: ContentSet)
        ensures
            set@ == resolved(outcomes@),
    {
        let ghost all = outcomes@;
        let mut kept: Vec<ContentItem> = Vec::new();
        proof {
            assert(resolved(all.take(0)) =~= Seq::<ContentView>::empty());
            assert(item_views(kept@) =~= Seq::<ContentView>::empty());
        }
        for outcome in it: outcomes
            invariant
                it.seq() == all,
                item_views(kept@) == resolved(all.take(it.index() as int)),
        {
            proof {
                let seen = all.take(it.index() as int);
                lemma_resolved_push(seen, outcome);
                assert(all.take(it.index() + 1) =~= seen.push(outcome));
            }
            match outcome {
                Ok(item) => {
                    proof {
                        assert(item_views(kept@.push(item)) =~= item_views(kept@).push(item@));
                    }
                    kept.push(item);
                },
                Err(_) => {},
            }
        }
        proof {
            assert(all.take(all.len() as int) =~= all);
        }
        ContentSet { items: Arc::new(kept) }
    }

    /// Another handle to the same snapshot.
    pub fn share(&self) -> (shared: ContentSet)
        ensures
            shared@ == self@,
    {
        ContentSet { items: share_items(&self.items) }
    }

    /// The number of items in the set.
    pub fn len(&self) -> (n: usize)
        ensures
            n == self@.len(),
    {
        self.items.len()
    }

    /// Whether the set holds no item.
    pub fn is_empty(&self) -> (b: bool)
        ensures
            b == (self@.len() == 0),
    {
        self.items.len() == 0
    }

    /// The items, in order.
    pub fn items(&self) -> (items: &Vec<ContentItem>)
        ensures
            item_views(items@) == self@,
    {
        &*self.items
    }
}

} // verus!
