//! The worker registry: at most one worker per device.
//!
//! A worker is the single owner of the protocol session with one device. The
//! registry maps a device's identifier to its worker, creates a worker only
//! where there is none, and hands the worker out again when the device has
//! left. Two sessions with one device can therefore never be open at once, as
//! long as every worker is made through [`WorkerRegistry::get_or_create`].

use vstd::prelude::*;
use vstd::string::StringExecFns;

verus! {

/// The workers after a call for the worker of the device `id`, where `fresh`
/// is the worker that the call makes if the device has none.
pub open spec fn with_worker<H>(workers: Map<Seq<char>, H>, id: Seq<char>, fresh: H) -> Map<
    Seq<char>,
    H,
> {
    if workers.contains_key(id) {
        workers
    } else {
        workers.insert(id, fresh)
    }
}

/// The workers after one call for the worker of the device `id` for each
/// element of `offered`, in order: the element is the worker that the call
/// makes if the device has none.
pub open spec fn with_workers<H>(workers: Map<Seq<char>, H>, id: Seq<char>, offered: Seq<H>) -> Map<
    Seq<char>,
    H,
>
    decreases offered.len(),
{
    if offered.len() == 0 {
        workers
    } else {
        with_worker(with_workers(workers, id, offered.drop_last()), id, offered.last())
    }
}

/// The worker that leaves the registry when the device `id` is released, if
/// the device has one.
pub open spec fn released<H>(workers: Map<Seq<char>, H>, id: Seq<char>) -> Option<H> {
    if workers.contains_key(id) {
        Some(workers[id])
    } else {
        None
    }
}

/// How many of the calls for the worker of the device `id`, one for each
/// element of `offered`, call their maker: those that find the device without
/// a worker.
pub open spec fn makers_called<H>(workers: Map<Seq<char>, H>, id: Seq<char>, offered: Seq<H>) -> nat
    decreases offered.len(),
{
    if offered.len() == 0 {
        0
    } else {
        makers_called(workers, id, offered.drop_last()) + if with_workers(
            workers,
            id,
            offered.drop_last(),
        ).contains_key(id) {
            0nat
        } else {
            1nat
        }
    }
}

/// However many calls ask for the worker of one device, and whatever worker
/// each of them would make, the registry after any number of them is the
/// registry after the first. So every call finds the same worker under the
/// device, and of all the makers one is called where the device had no worker
/// at the start, and none where it had one.
pub proof fn lemma_single_worker_per_device<H>(
    workers: Map<Seq<char>, H>,
    id: Seq<char>,
    offered: Seq<H>,
    calls: int,
)
    requires
        1 <= calls <= offered.len(),
    ensures
        with_workers(workers, id, offered.take(calls)) == with_worker(workers, id, offered[0]),
        with_workers(workers, id, offered.take(calls)).contains_key(id),
        with_workers(workers, id, offered.take(calls))[id] == with_worker(workers, id, offered[0])[id],
        makers_called(workers, id, offered.take(calls)) == if workers.contains_key(id) {
            0nat
        } else {
            1nat
        },
    decreases calls,
{
    let made = offered.take(calls);
    assert(made.drop_last() =~= offered.take(calls - 1));
    if calls == 1 {
        assert(with_workers(workers, id, offered.take(0)) == workers);
        assert(makers_called(workers, id, offered.take(0)) == 0);
    } else {
        lemma_single_worker_per_device(workers, id, offered, calls - 1);
    }
}

/// Once the worker of a device has been released, the device has no worker,
/// and releasing it again hands out nothing and changes nothing. A worker
/// therefore leaves the registry, to be shut down, at most once.
pub proof fn lemma_released_once<H>(workers: Map<Seq<char>, H>, id: Seq<char>)
    ensures
        !workers.remove(id).contains_key(id),
        released(workers.remove(id), id) == None::<H>,
        workers.remove(id).remove(id) == workers.remove(id),
{
    assert(workers.remove(id).remove(id) =~= workers.remove(id));
}

/// One worker and the identifier of the device that it serves.
struct WorkerEntry<H> {
    device_id: String,
    handle: H,
}

/// The workers of the attached devices, by device identifier. `H` is the
/// caller's handle to a worker.
pub struct WorkerRegistry<H> {
    entries: Vec<WorkerEntry<H>>,
}

/// The answer to a call for the worker of a device.
pub struct Acquired<'a, H, F> {
    /// The worker of the device.
    pub handle: &'a H,
    /// The maker that came with the call, where it was not called because the
    /// device had a worker already.
    pub unused: Option<F>,
}

/// Whether one of the entries serves the device `id`.
spec fn serves<H>(entries: Seq<WorkerEntry<H>>, id: Seq<char>) -> bool {
    exists|i: int| 0 <= i < entries.len() && (#[trigger] entries[i]).device_id@ == id
}

/// The place of an entry that serves the device `id`.
spec fn place_of<H>(entries: Seq<WorkerEntry<H>>, id: Seq<char>) -> int {
    choose|i: int| 0 <= i < entries.len() && (#[trigger] entries[i]).device_id@ == id
}

/// No two entries serve the same device.
spec fn one_worker_each<H>(entries: Seq<WorkerEntry<H>>) -> bool {
    forall|i: int, j: int|
        0 <= i < j < entries.len() ==> (#[trigger] entries[i]).device_id@ != (
        #[trigger] entries[j]).device_id@
}

/// The entries as a map from device identifier to worker.
spec fn as_map<H>(entries: Seq<WorkerEntry<H>>) -> Map<Seq<char>, H> {
    Map::new(
        |id: Seq<char>| serves(entries, id),
        |id: Seq<char>| entries[place_of(entries, id)].handle,
    )
}

/// Where no two entries serve the same device, the map holds each entry's
/// worker under its device.
proof fn lemma_entry_is_mapped<H>(entries: Seq<WorkerEntry<H>>, i: int)
    requires
        one_worker_each(entries),
        0 <= i < entries.len(),
    ensures
        as_map(entries).contains_key(entries[i].device_id@),
        as_map(entries)[entries[i].device_id@] == entries[i].handle,
{
    let id = entries[i].device_id@;
    assert(serves(entries, id));
    let k = place_of(entries, id);
    assert(k == i) by {
        if k < i {
            assert(entries[k].device_id@ != entries[i].device_id@);
        } else if i < k {
            assert(entries[i].device_id@ != entries[k].device_id@);
        }
    }
}

/// An entry for a device that has no worker yet adds that device to the map
/// and changes nothing else.
proof fn lemma_push_is_insert<H>(entries: Seq<WorkerEntry<H>>, entry: WorkerEntry<H>)
    requires
        one_worker_each(entries),
        !serves(entries, entry.device_id@),
    ensures
        one_worker_each(entries.push(entry)),
        as_map(entries.push(entry)) == as_map(entries).insert(entry.device_id@, entry.handle),
{
    let longer = entries.push(entry);
    let last = entries.len() as int;
    assert forall|i: int, j: int| 0 <= i < j < longer.len() implies (#[trigger] longer[i]).device_id@
        != (#[trigger] longer[j]).device_id@ by {
        if j == last {
            assert(entries[i].device_id@ != entry.device_id@);
        } else {
            assert(entries[i].device_id@ != entries[j].device_id@);
        }
    }
    assert forall|id: Seq<char>| as_map(longer).contains_key(id) <==> as_map(entries).insert(
        entry.device_id@,
        entry.handle,
    ).contains_key(id) by {
        if serves(longer, id) {
            let k = place_of(longer, id);
            if k < last {
                assert(entries[k].device_id@ == id);
            }
        }
        if serves(entries, id) {
            let k = place_of(entries, id);
            assert(longer[k].device_id@ == id);
        }
        if id == entry.device_id@ {
            assert(longer[last].device_id@ == id);
        }
    }
    assert forall|id: Seq<char>| as_map(longer).contains_key(id) implies as_map(longer)[id]
        == as_map(entries).insert(entry.device_id@, entry.handle)[id] by {
        let k = place_of(longer, id);
        lemma_entry_is_mapped(longer, k);
        if k < last {
            assert(entries[k].device_id@ == id);
            lemma_entry_is_mapped(entries, k);
        }
    }
    assert(as_map(longer) =~= as_map(entries).insert(entry.device_id@, entry.handle));
}

/// Taking an entry out takes its device out of the map and changes nothing
/// else.
proof fn lemma_remove_is_remove<H>(entries: Seq<WorkerEntry<H>>, i: int)
    requires
        one_worker_each(entries),
        0 <= i < entries.len(),
    ensures
        one_worker_each(entries.remove(i)),
        as_map(entries.remove(i)) == as_map(entries).remove(entries[i].device_id@),
{
    let shorter = entries.remove(i);
    let gone = entries[i].device_id@;
    assert forall|a: int, b: int| 0 <= a < b < shorter.len() implies (#[trigger] shorter[a]).device_id@
        != (#[trigger] shorter[b]).device_id@ by {
        let a0 = if a < i { a } else { a + 1 };
        let b0 = if b < i { b } else { b + 1 };
        assert(entries[a0].device_id@ != entries[b0].device_id@);
    }
    assert forall|id: Seq<char>| as_map(shorter).contains_key(id) <==> as_map(entries).remove(
        gone,
    ).contains_key(id) by {
        if serves(shorter, id) {
            let k = place_of(shorter, id);
            let k0 = if k < i { k } else { k + 1 };
            assert(entries[k0].device_id@ == id);
            if k0 < i {
                assert(entries[k0].device_id@ != entries[i].device_id@);
            } else {
                assert(entries[i].device_id@ != entries[k0].device_id@);
            }
        }
        if serves(entries, id) && id != gone {
            let k = place_of(entries, id);
            let k1 = if k < i { k } else { k - 1 };
            assert(shorter[k1].device_id@ == id);
        }
    }
    assert forall|id: Seq<char>| as_map(shorter).contains_key(id) implies as_map(shorter)[id]
        == as_map(entries).remove(gone)[id] by {
        let k = place_of(shorter, id);
        let k0 = if k < i { k } else { k + 1 };
        lemma_entry_is_mapped(shorter, k);
        assert(entries[k0].device_id@ == id);
        lemma_entry_is_mapped(entries, k0);
    }
    assert(as_map(shorter) =~= as_map(entries).remove(gone));
}

impl<H> View for WorkerRegistry<H> {
    type V = Map<Seq<char>, H>;

    closed spec fn view(&self) -> Map<Seq<char>, H> {
        as_map(self.entries@)
    }
}

impl<H> WorkerRegistry<H> {
    #[verifier::type_invariant]
    spec fn well_formed(&self) -> bool {
        one_worker_each(self.entries@)
    }

    /// A registry without workers.
    pub fn new() -> (registry: WorkerRegistry<H>)
        ensures
            registry@ == Map::<Seq<char>, H>::empty(),
    {
        let registry = WorkerRegistry { entries: Vec::new() };
        assert(registry@ =~= Map::<Seq<char>, H>::empty());
        registry
    }

    /// The place of the worker of the device `device_id`, if it has one.
    fn position(&self, device_id: &String) -> (place: Option<usize>)
        ensures
            match place {
                Some(i) => i < self.entries@.len() && self.entries@[i as int].device_id@
                    == device_id@,
                None => !serves(self.entries@, device_id@),
            },
    {
        let mut i: usize = 0;
        while i < self.entries.len()
            invariant
                i <= self.entries@.len(),
                forall|k: int|
                    0 <= k < i ==> (#[trigger] self.entries@[k]).device_id@ != device_id@,
            decreases self.entries@.len() - i,
        {
            if self.entries[i].device_id == *device_id {
                return Some(i);
            }
            i += 1;
        }
        None
    }

    /// Whether the device `device_id` has a worker.
    pub fn contains(&self, device_id: &str) -> (present: bool)
        ensures
            present == self@.contains_key(device_id@),
    {
        let id = String::from_str(device_id);
        self.position(&id).is_some()
    }

    /// The worker of the device `device_id`, if it has one.
    pub fn get(&self, device_id: &str) -> (handle: Option<&H>)
        ensures
            match handle {
                Some(h) => self@.contains_key(device_id@) && *h == self@[device_id@],
                None => !self@.contains_key(device_id@),
            },
    {
        let id = String::from_str(device_id);
        proof {
            use_type_invariant(self);
        }
        match self.position(&id) {
            Some(i) => {
                proof {
                    lemma_entry_is_mapped(self.entries@, i as int);
                }
                Some(&self.entries[i].handle)
            },
            None => None,
        }
    }

    /// The worker of the device `device_id`. Where the device has none yet,
    /// `create` is called once, and what it makes is entered for the device.
    /// Where the device has one, the registry stays as it is and `create`
    /// comes back in the answer, not called.
    pub fn get_or_create<F: FnOnce() -> H>(&mut self, device_id: &str, create: F) -> (found:
        Acquired<'_, H, F>)
        requires
            create.requires(()),
        ensures
            final(self)@ == with_worker(old(self)@, device_id@, *found.handle),
            final(self)@.contains_key(device_id@),
            *found.handle == final(self)@[device_id@],
            match found.unused {
                Some(maker) => old(self)@.contains_key(device_id@) && maker == create,
                None => !old(self)@.contains_key(device_id@) && create.ensures((), *found.handle),
            },
    {
        let id = String::from_str(device_id);
        proof {
            use_type_invariant(&*self);
        }
        let (place, unused) = match self.position(&id) {
            Some(i) => (i, Some(create)),
            None => {
                let entry = WorkerEntry { device_id: id, handle: create() };
                proof {
                    lemma_push_is_insert(self.entries@, entry);
                }
                let mut entries: Vec<WorkerEntry<H>> = Vec::new();
                core::mem::swap(&mut self.entries, &mut entries);
                entries.push(entry);
                core::mem::swap(&mut self.entries, &mut entries);
                (self.entries.len() - 1, None)
            },
        };
        proof {
            lemma_entry_is_mapped(self.entries@, place as int);
        }
        Acquired { handle: &self.entries[place].handle, unused }
    }

    /// Takes the worker of the device `device_id` out of the registry and
    /// returns it, for the caller to shut it down. Returns nothing where the
    /// device has no worker.
    pub fn remove(&mut self, device_id: &str) -> (handle: Option<H>)
        ensures
            final(self)@ == old(self)@.remove(device_id@),
            handle == released(old(self)@, device_id@),
    {
        let id = String::from_str(device_id);
        proof {
            use_type_invariant(&*self);
        }
        match self.position(&id) {
            Some(i) => {
                proof {
                    lemma_entry_is_mapped(self.entries@, i as int);
                    lemma_remove_is_remove(self.entries@, i as int);
                }
                let mut entries: Vec<WorkerEntry<H>> = Vec::new();
                core::mem::swap(&mut self.entries, &mut entries);
                let entry = entries.remove(i);
                core::mem::swap(&mut self.entries, &mut entries);
                Some(entry.handle)
            },
            None => {
                assert(self@ =~= old(self)@.remove(device_id@));
                None
            },
        }
    }
}

} // verus!
