//! The registry of live jobs: a map from job identifier to the handle of the
//! job's worker, in which an identifier is present exactly while the worker is
//! believed to be running and nobody has claimed it yet.

use vstd::prelude::*;

verus! {

/// The identifiers of the live jobs and, at the same positions, their handles.
struct Table<H> {
    ids: Vec<String>,
    handles: Vec<H>,
}

/// The live jobs, keyed by identifier. `H` is the handle of a worker; the
/// registry never looks inside it.
pub struct JobRegistry<H> {
    table: Table<H>,
}

/// Whether `id` is one of `ids`.
spec fn holds(ids: Seq<String>, id: Seq<char>) -> bool {
    exists|i: int| 0 <= i < ids.len() && (#[trigger] ids[i])@ == id
}

/// A position at which `id` stands among `ids`, where there is one.
spec fn position(ids: Seq<String>, id: Seq<char>) -> int {
    choose|i: int| 0 <= i < ids.len() && (#[trigger] ids[i])@ == id
}

/// No identifier occurs twice.
spec fn distinct(ids: Seq<String>) -> bool {
    forall|i: int, j: int|
        0 <= i < ids.len() && 0 <= j < ids.len() && (#[trigger] ids[i])@ == (#[trigger] ids[j])@
            ==> i == j
}

/// The map that identifiers and handles at equal positions stand for.
spec fn as_map<H>(ids: Seq<String>, handles: Seq<H>) -> Map<Seq<char>, H> {
    Map::new(|id: Seq<char>| holds(ids, id), |id: Seq<char>| handles[position(ids, id)])
}

/// What claiming `id` leaves of the jobs, and what it hands out.
pub open spec fn claim<H>(jobs: Map<Seq<char>, H>, id: Seq<char>) -> (Map<Seq<char>, H>, Option<H>) {
    (
        jobs.remove(id),
        if jobs.contains_key(id) {
            Some(jobs[id])
        } else {
            None
        },
    )
}

/// Whoever claims a job is its only owner: a second claim of the same
/// identifier, by anyone, finds nothing, and the first claim took nothing
/// else away.
pub proof fn law_claim_is_exclusive<H>(jobs: Map<Seq<char>, H>, id: Seq<char>)
    ensures
        claim(claim(jobs, id).0, id).1 is None,
        claim(claim(jobs, id).0, id).0 == claim(jobs, id).0,
        forall|other: Seq<char>|
            other != id ==> (#[trigger] claim(jobs, id).0.contains_key(other)
                <==> jobs.contains_key(other)),
{
    assert(jobs.remove(id).remove(id) =~= jobs.remove(id));
}

/// A job that was registered is there to be claimed, once.
pub proof fn law_register_then_claim<H>(jobs: Map<Seq<char>, H>, id: Seq<char>, handle: H)
    requires
        !jobs.contains_key(id),
    ensures
        claim(jobs.insert(id, handle), id).1 == Some(handle),
        claim(jobs.insert(id, handle), id).0 == jobs,
{
    assert(jobs.insert(id, handle).remove(id) =~= jobs);
}

impl<H> JobRegistry<H> {
    #[verifier::type_invariant]
    spec fn well_formed(&self) -> bool {
        &&& distinct(self.table.ids@)
        &&& self.table.ids@.len() == self.table.handles@.len()
    }

    /// The registry as a map from identifier to handle.
    pub closed spec fn view(&self) -> Map<Seq<char>, H> {
        as_map(self.table.ids@, self.table.handles@)
    }

    /// A registry with no live job.
    pub fn new() -> (registry: Self)
        ensures
            registry@ == Map::<Seq<char>, H>::empty(),
    {
        let registry = JobRegistry { table: Table { ids: Vec::new(), handles: Vec::new() } };
        assert(registry@ =~= Map::<Seq<char>, H>::empty());
        registry
    }

    /// The position of `id` among the identifiers, if it is live.
    fn find(&self, id: &String) -> (found: Option<usize>)
        ensures
            found is None <==> !holds(self.table.ids@, id@),
            found matches Some(i) ==> i < self.table.ids@.len() && self.table.ids@[i as int]@
                == id@,
    {
        let mut i: usize = 0;
        while i < self.table.ids.len()
            invariant
                i <= self.table.ids@.len(),
                forall|j: int| 0 <= j < i ==> (#[trigger] self.table.ids@[j])@ != id@,
            decreases self.table.ids@.len() - i,
        {
            if self.table.ids[i] == *id {
                return Some(i);
            }
            i += 1;
        }
        None
    }

    /// How many jobs are live.
    pub fn len(&self) -> (count: usize)
        ensures
            self@.dom().finite(),
            count == self@.len(),
    {
        proof {
            use_type_invariant(self);
            lemma_size(self.table.ids@, self.table.handles@);
        }
        self.table.ids.len()
    }

    /// Whether `id` is live.
    pub fn contains(&self, id: &String) -> (live: bool)
        ensures
            live == self@.contains_key(id@),
    {
        self.find(id).is_some()
    }

    /// Enters a new live job. It fails only where `id` is already live: the
    /// registry is then left as it was and the handle is given back.
    pub fn register(&mut self, id: String, handle: H) -> (outcome: Result<(), H>)
        ensures
            outcome is Ok <==> !old(self)@.contains_key(id@),
            outcome is Ok ==> final(self)@ == old(self)@.insert(id@, handle),
            outcome matches Err(back) ==> back == handle && final(self)@ == old(self)@,
    {
        proof {
            use_type_invariant(&*self);
        }
        match self.find(&id) {
            Some(_) => Err(handle),
            None => {
                let mut table: Table<H> = Table { ids: Vec::new(), handles: Vec::new() };
                std::mem::swap(&mut self.table, &mut table);
                proof {
                    lemma_push(table.ids@, table.handles@, id, handle);
                }
                table.ids.push(id);
                table.handles.push(handle);
                std::mem::swap(&mut self.table, &mut table);
                Ok(())
            },
        }
    }

    /// The handle of `id`, to be examined or changed in place. The set of live
    /// jobs stays as it is.
    pub fn handle_mut(&mut self, id: &String) -> (found: Option<&mut H>)
        ensures
            found is Some <==> old(self)@.contains_key(id@),
            found matches Some(handle) ==> *handle == old(self)@[id@] && final(self)@ == old(
                self,
            )@.insert(id@, *final(handle)),
            found is None ==> final(self)@ == old(self)@,
    {
        proof {
            use_type_invariant(&*self);
        }
        match self.find(id) {
            None => None,
            Some(i) => {
                proof {
                    let ids = self.table.ids@;
                    let handles = self.table.handles@;
                    assert forall|h: H| #[trigger]
                        as_map(ids, handles.update(i as int, h)) == as_map(ids, handles).insert(
                            id@,
                            h,
                        ) by {
                        lemma_update(ids, handles, i as int, h);
                    }
                    lemma_at(ids, handles, i as int);
                }
                Some(&mut self.table.handles[i])
            },
        }
    }

    /// Removes `id` and hands its handle to the caller, who from then on is
    /// the only owner of the job. Where `id` is not live nothing changes.
    pub fn take(&mut self, id: &String) -> (claimed: Option<H>)
        ensures
            (final(self)@, claimed) == claim(old(self)@, id@),
            !final(self)@.contains_key(id@),
    {
        proof {
            use_type_invariant(&*self);
        }
        match self.find(id) {
            None => {
                assert(self@ =~= self@.remove(id@));
                None
            },
            Some(i) => {
                let mut table: Table<H> = Table { ids: Vec::new(), handles: Vec::new() };
                std::mem::swap(&mut self.table, &mut table);
                proof {
                    lemma_at(table.ids@, table.handles@, i as int);
                    lemma_remove(table.ids@, table.handles@, i as int);
                }
                let _ = table.ids.remove(i);
                let handle = table.handles.remove(i);
                std::mem::swap(&mut self.table, &mut table);
                Some(handle)
            },
        }
    }
}

/// The identifier at a position is a key, and its value is the handle there.
proof fn lemma_at<H>(ids: Seq<String>, handles: Seq<H>, at: int)
    requires
        distinct(ids),
        0 <= at < ids.len(),
    ensures
        holds(ids, ids[at]@),
        position(ids, ids[at]@) == at,
        as_map(ids, handles).contains_key(ids[at]@),
        as_map(ids, handles)[ids[at]@] == handles[at],
{
    assert(holds(ids, ids[at]@));
}

/// As many keys as identifiers.
proof fn lemma_size<H>(ids: Seq<String>, handles: Seq<H>)
    requires
        distinct(ids),
        ids.len() == handles.len(),
    ensures
        as_map(ids, handles).dom().finite(),
        as_map(ids, handles).dom().len() == ids.len(),
    decreases ids.len(),
{
    if ids.len() == 0 {
        assert(as_map(ids, handles).dom() =~= Set::<Seq<char>>::empty());
    } else {
        let fewer = ids.drop_last();
        let rest = handles.drop_last();
        let id = ids.last();
        assert forall|i: int, j: int|
            0 <= i < fewer.len() && 0 <= j < fewer.len() && (#[trigger] fewer[i])@ == (
            #[trigger] fewer[j])@ implies i == j by {
            assert(fewer[i] == ids[i]);
            assert(fewer[j] == ids[j]);
        }
        if holds(fewer, id@) {
            let at = position(fewer, id@);
            assert(ids[at] == fewer[at]);
            assert(ids[at]@ == ids[ids.len() - 1]@);
        }
        lemma_size(fewer, rest);
        lemma_push(fewer, rest, id, handles.last());
        assert(fewer.push(id) =~= ids);
        assert(rest.push(handles.last()) =~= handles);
        assert(!as_map(fewer, rest).dom().contains(id@));
        assert(as_map(ids, handles).dom() =~= as_map(fewer, rest).dom().insert(id@));
    }
}

/// Appending a fresh identifier with its handle inserts the pair into the map.
proof fn lemma_push<H>(ids: Seq<String>, handles: Seq<H>, id: String, handle: H)
    requires
        distinct(ids),
        ids.len() == handles.len(),
        !holds(ids, id@),
    ensures
        distinct(ids.push(id)),
        as_map(ids.push(id), handles.push(handle)) == as_map(ids, handles).insert(id@, handle),
{
    let after = ids.push(id);
    assert forall|i: int, j: int|
        0 <= i < after.len() && 0 <= j < after.len() && (#[trigger] after[i])@ == (
        #[trigger] after[j])@ implies i == j by {
        if i < ids.len() {
            assert(after[i] == ids[i]);
        }
        if j < ids.len() {
            assert(after[j] == ids[j]);
        }
    }
    assert forall|k: Seq<char>| holds(after, k) <==> (holds(ids, k) || k == id@) by {
        if holds(after, k) {
            let i = position(after, k);
            if i < ids.len() {
                assert(ids[i]@ == k);
            }
        }
        if holds(ids, k) {
            let i = position(ids, k);
            assert(after[i]@ == k);
        }
        if k == id@ {
            assert(after[ids.len() as int]@ == k);
        }
    }
    assert forall|k: Seq<char>| holds(after, k) implies #[trigger] as_map(
        after,
        handles.push(handle),
    )[k] == as_map(ids, handles).insert(id@, handle)[k] by {
        let i = position(after, k);
        if k == id@ {
            assert(after[ids.len() as int]@ == k);
            assert(i == ids.len());
        } else {
            let j = position(ids, k);
            assert(after[j] == ids[j]);
            assert(i == j);
        }
    }
    assert(as_map(after, handles.push(handle)) =~= as_map(ids, handles).insert(id@, handle));
}

/// Replacing the handle at a position replaces it in the map and nothing else.
proof fn lemma_update<H>(ids: Seq<String>, handles: Seq<H>, at: int, handle: H)
    requires
        distinct(ids),
        ids.len() == handles.len(),
        0 <= at < ids.len(),
    ensures
        as_map(ids, handles.update(at, handle)) == as_map(ids, handles).insert(ids[at]@, handle),
{
    lemma_at(ids, handles, at);
    assert(as_map(ids, handles.update(at, handle)) =~= as_map(ids, handles).insert(
        ids[at]@,
        handle,
    ));
}

/// Taking a position out removes its identifier from the map and nothing else.
proof fn lemma_remove<H>(ids: Seq<String>, handles: Seq<H>, at: int)
    requires
        distinct(ids),
        ids.len() == handles.len(),
        0 <= at < ids.len(),
    ensures
        distinct(ids.remove(at)),
        as_map(ids.remove(at), handles.remove(at)) == as_map(ids, handles).remove(ids[at]@),
{
    let after = ids.remove(at);
    let gone = ids[at]@;
    lemma_at(ids, handles, at);
    assert forall|i: int, j: int|
        0 <= i < after.len() && 0 <= j < after.len() && (#[trigger] after[i])@ == (
        #[trigger] after[j])@ implies i == j by {
        let si = if i < at { i } else { i + 1 };
        let sj = if j < at { j } else { j + 1 };
        assert(after[i] == ids[si]);
        assert(after[j] == ids[sj]);
        assert(si == sj);
    }
    assert forall|k: Seq<char>| holds(after, k) <==> (holds(ids, k) && k != gone) by {
        if holds(after, k) {
            let i = position(after, k);
            let si = if i < at { i } else { i + 1 };
            assert(after[i] == ids[si]);
            assert(ids[si]@ == k);
            if k == gone {
                assert(si == at);
            }
        }
        if holds(ids, k) && k != gone {
            let s = position(ids, k);
            let i = if s < at { s } else { s - 1 };
            assert(after[i] == ids[s]);
        }
    }
    assert forall|k: Seq<char>| holds(after, k) implies #[trigger] as_map(
        after,
        handles.remove(at),
    )[k] == as_map(ids, handles)[k] by {
        let i = position(after, k);
        let si = if i < at { i } else { i + 1 };
        assert(after[i] == ids[si]);
        assert(ids[si]@ == k);
        assert(position(ids, k) == si);
    }
    assert(as_map(after, handles.remove(at)) =~= as_map(ids, handles).remove(gone));
}

} // verus!
