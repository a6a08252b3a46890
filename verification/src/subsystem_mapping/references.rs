//! Deferred links: a reference names its target and, once the whole graph is
//! known, carries the position of that target in the owning collection.

use std::marker::PhantomData;
use vstd::prelude::*;

verus! {

/// What a reference says, apart from the kind of entity it points to.
pub struct ReferenceModel {
    pub id: Seq<char>,
    pub index: Option<usize>,
}

/// A link to an entity of type `T`, stored as the target's identifier and,
/// after resolution, its position in the collection of all `T`.
#[derive(Debug)]
pub struct ReferenceByIndex<T> {
    id: String,
    index: Option<usize>,
    phantom: PhantomData<T>,
}

impl<T> View for ReferenceByIndex<T> {
    type V = ReferenceModel;

    closed spec fn view(&self) -> ReferenceModel {
        ReferenceModel { id: self.id@, index: self.index }
    }
}

/// `found` is the answer to "where is `id` in `ids`": the last position that
/// holds `id`, or nothing when no position does.
pub open spec fn resolves_to(ids: Seq<Seq<char>>, id: Seq<char>, found: Option<usize>) -> bool {
    match found {
        Some(i) => {
            &&& i < ids.len()
            &&& ids[i as int] == id
            &&& forall|j: int| i < j < ids.len() ==> ids[j] != id
        },
        None => forall|j: int| 0 <= j < ids.len() ==> ids[j] != id,
    }
}

/// At most one answer satisfies [`resolves_to`].
pub proof fn lemma_resolution_is_unique(
    ids: Seq<Seq<char>>,
    id: Seq<char>,
    a: Option<usize>,
    b: Option<usize>,
)
    requires
        resolves_to(ids, id, a),
        resolves_to(ids, id, b),
    ensures
        a == b,
{
}

/// The last position of `ids` that holds `id`, if any does.
pub open spec fn position_of(ids: Seq<Seq<char>>, id: Seq<char>) -> Option<usize>
    decreases ids.len(),
{
    if ids.len() == 0 {
        None
    } else if ids.last() == id {
        Some((ids.len() - 1) as usize)
    } else {
        position_of(ids.drop_last(), id)
    }
}

/// [`position_of`] answers as [`resolves_to`] asks: with the last position
/// that holds `id`, and with nothing only when no position holds it.
pub proof fn lemma_position_of_resolves(ids: Seq<Seq<char>>, id: Seq<char>)
    requires
        ids.len() <= usize::MAX,
    ensures
        resolves_to(ids, id, position_of(ids, id)),
    decreases ids.len(),
{
    if ids.len() > 0 && ids.last() != id {
        let rest = ids.drop_last();
        lemma_position_of_resolves(rest, id);
        match position_of(rest, id) {
            Some(i) => {
                assert(ids[i as int] == rest[i as int]);
                assert forall|j: int| i < j < ids.len() implies ids[j] != id by {
                    if j < rest.len() {
                        assert(rest[j] == ids[j]);
                    }
                }
            },
            None => {
                assert forall|j: int| 0 <= j < ids.len() implies ids[j] != id by {
                    if j < rest.len() {
                        assert(rest[j] == ids[j]);
                    }
                }
            },
        }
    }
}

/// The positions at which identifiers were last recorded.
///
/// Recording an identifier again replaces its position: of several entities
/// with one identifier, only the one recorded last can be found.
///
/// This is a list searched from its end, not a hash map: vstd specifies
/// `HashMap` only for keys whose hashing it models (`obeys_key_model`), and
/// text is not among them, so nothing could be proved of a map keyed by
/// `String`. A lookup takes time in the number of entries.
pub struct IndexById {
    entries: Vec<(String, usize)>,
}

/// The position recorded last for `id` among `entries`.
pub closed spec fn recorded(entries: Seq<(String, usize)>, id: Seq<char>) -> Option<usize>
    decreases entries.len(),
{
    if entries.len() == 0 {
        None
    } else if entries.last().0@ == id {
        Some(entries.last().1)
    } else {
        recorded(entries.drop_last(), id)
    }
}

impl View for IndexById {
    type V = Map<Seq<char>, usize>;

    closed spec fn view(&self) -> Map<Seq<char>, usize> {
        Map::new(
            |id: Seq<char>| recorded(self.entries@, id) is Some,
            |id: Seq<char>| recorded(self.entries@, id).unwrap(),
        )
    }
}

/// The position that `index` holds for `id`.
pub open spec fn lookup(index: Map<Seq<char>, usize>, id: Seq<char>) -> Option<usize> {
    if index.contains_key(id) {
        Some(index[id])
    } else {
        None
    }
}

impl IndexById {
    /// An index that knows no identifier.
    pub fn new() -> (index: IndexById)
        ensures
            index@ == Map::<Seq<char>, usize>::empty(),
    {
        let index = IndexById { entries: Vec::new() };
        assert(index@ =~= Map::<Seq<char>, usize>::empty());
        index
    }

    /// Records that `id` stands at `position`, replacing what was recorded
    /// for `id` before.
    pub fn insert(&mut self, id: String, position: usize)
        ensures
            final(self)@ == old(self)@.insert(id@, position),
    {
        self.entries.push((id, position));
        assert(self.entries@.drop_last() =~= old(self).entries@);
        assert(self@ =~= old(self)@.insert(id@, position));
    }

    /// The position recorded last for `id`, if any was.
    pub fn get(&self, id: &String) -> (position: Option<usize>)
        ensures
            position == lookup(self@, id@),
    {
        let mut i: usize = self.entries.len();
        assert(self.entries@.take(i as int) =~= self.entries@);
        while i > 0
            invariant
                i <= self.entries.len(),
                recorded(self.entries@, id@) == recorded(self.entries@.take(i as int), id@),
            decreases i,
        {
            i -= 1;
            assert(self.entries@.take(i + 1).drop_last() =~= self.entries@.take(i as int));
            if self.entries[i].0 == *id {
                return Some(self.entries[i].1);
            }
        }
        None
    }
}

impl<T> ReferenceByIndex<T> {
    /// An unresolved reference to the entity called `id`.
    pub fn new(id: &String) -> (reference: ReferenceByIndex<T>)
        ensures
            reference@ == (ReferenceModel { id: id@, index: None }),
    {
        ReferenceByIndex { id: id.clone(), index: None, phantom: PhantomData }
    }

    /// The position of the target, or `None` while unresolved or when the
    /// target does not exist.
    pub fn index(&self) -> (index: Option<usize>)
        ensures
            index == self@.index,
    {
        self.index
    }

    /// Looks the target up in `indexes` and keeps what is found there: its
    /// position, or `None` when `indexes` does not know the identifier.
    pub fn find_index_in(&mut self, indexes: &IndexById)
        ensures
            final(self)@ == (ReferenceModel { id: old(self)@.id, index: lookup(indexes@, old(self)@.id) }),
    {
        self.index = indexes.get(&self.id);
    }

    /// The identifier of the target.
    pub fn id(&self) -> (id: &String)
        ensures
            id@ == self@.id,
    {
        &self.id
    }
}

} // verus!
