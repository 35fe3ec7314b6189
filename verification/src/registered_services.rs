//! The services that a process holds open through one node, counted by
//! their users.

use vstd::prelude::*;

verus! {

/// What the table holds: for each identifier of an open service its handle
/// and the number of its users.
pub type ServiceTable<H> = Map<Seq<char>, (H, nat)>;

/// The number of users that `table` counts for `uuid`; none for a service
/// that it does not hold.
pub open spec fn refcount_of<H>(table: ServiceTable<H>, uuid: Seq<char>) -> nat {
    if table.dom().contains(uuid) {
        table[uuid].1
    } else {
        0
    }
}

/// The table after one more user opened `uuid`. The first user brings the
/// handle; later ones share it.
pub open spec fn after_open<H>(table: ServiceTable<H>, uuid: Seq<char>, handle: H)
    -> ServiceTable<H> {
    if table.dom().contains(uuid) {
        table.insert(uuid, (table[uuid].0, table[uuid].1 + 1))
    } else {
        table.insert(uuid, (handle, 1))
    }
}

/// The table after one user closed `uuid`. With the last user the entry
/// leaves.
pub open spec fn after_close<H>(table: ServiceTable<H>, uuid: Seq<char>) -> ServiceTable<H> {
    if table.dom().contains(uuid) && table[uuid].1 > 1 {
        table.insert(uuid, (table[uuid].0, (table[uuid].1 - 1) as nat))
    } else {
        table.remove(uuid)
    }
}

/// No entry of the table counts zero users.
pub open spec fn counts_are_positive<H>(table: ServiceTable<H>) -> bool {
    forall|uuid: Seq<char>| table.dom().contains(uuid) ==> (#[trigger] table[uuid]).1 >= 1
}

/// One call on the table that succeeded.
pub enum ServiceCall<H> {
    /// A user opened the service; the first one brought `handle`.
    Open { uuid: Seq<char>, handle: H },
    /// A user closed the service.
    Close { uuid: Seq<char> },
}

/// The table that a sequence of calls leaves behind, starting empty.
pub open spec fn table_after<H>(calls: Seq<ServiceCall<H>>) -> ServiceTable<H>
    decreases calls.len(),
{
    if calls.len() == 0 {
        Map::empty()
    } else {
        let before = table_after(calls.drop_last());
        match calls.last() {
            ServiceCall::Open { uuid, handle } => after_open(before, uuid, handle),
            ServiceCall::Close { uuid } => after_close(before, uuid),
        }
    }
}

/// A sequence of calls in which nobody closes a service that the table
/// does not hold at that moment.
pub open spec fn closes_only_open_services<H>(calls: Seq<ServiceCall<H>>) -> bool
    decreases calls.len(),
{
    if calls.len() == 0 {
        true
    } else {
        &&& closes_only_open_services(calls.drop_last())
        &&& match calls.last() {
            ServiceCall::Open { .. } => true,
            ServiceCall::Close { uuid } => table_after(calls.drop_last()).dom().contains(uuid),
        }
    }
}

/// How often `uuid` was opened in `calls`, less how often it was closed.
pub open spec fn open_balance<H>(calls: Seq<ServiceCall<H>>, uuid: Seq<char>) -> int
    decreases calls.len(),
{
    if calls.len() == 0 {
        0
    } else {
        open_balance(calls.drop_last(), uuid) + match calls.last() {
            ServiceCall::Open { uuid: other, .. } => if other == uuid {
                1int
            } else {
                0int
            },
            ServiceCall::Close { uuid: other } => if other == uuid {
                -1int
            } else {
                0int
            },
        }
    }
}

/// After any sequence of calls the count of a service is the number of
/// times it was opened less the number of times it was closed, and the
/// table holds the service exactly if that number is not zero.
pub proof fn lemma_refcount_balances<H>(calls: Seq<ServiceCall<H>>, uuid: Seq<char>)
    requires
        closes_only_open_services(calls),
    ensures
        refcount_of(table_after(calls), uuid) == open_balance(calls, uuid),
        table_after(calls).dom().contains(uuid) <==> open_balance(calls, uuid) != 0,
        counts_are_positive(table_after(calls)),
    decreases calls.len(),
{
    if calls.len() > 0 {
        let earlier = calls.drop_last();
        lemma_refcount_balances(earlier, uuid);
        let before = table_after(earlier);
        match calls.last() {
            ServiceCall::Open { uuid: other, handle } => {
                assert(counts_are_positive(after_open(before, other, handle)));
            },
            ServiceCall::Close { uuid: other } => {
                lemma_refcount_balances(earlier, other);
                assert(counts_are_positive(after_close(before, other)));
            },
        }
    }
}

struct ServiceEntry<H> {
    uuid: String,
    handle: H,
    count: u64,
}

/// The table of the services that are open through a node.
pub struct RegisteredServices<H> {
    data: Vec<ServiceEntry<H>>,
}

spec fn position<H>(entries: Seq<ServiceEntry<H>>, uuid: Seq<char>) -> int {
    choose|i: int| 0 <= i < entries.len() && (#[trigger] entries[i]).uuid@ == uuid
}

spec fn holds<H>(entries: Seq<ServiceEntry<H>>, uuid: Seq<char>) -> bool {
    exists|i: int| 0 <= i < entries.len() && (#[trigger] entries[i]).uuid@ == uuid
}

spec fn table_of<H>(entries: Seq<ServiceEntry<H>>) -> ServiceTable<H> {
    Map::new(
        |uuid: Seq<char>| holds(entries, uuid),
        |uuid: Seq<char>|
            (entries[position(entries, uuid)].handle, entries[position(entries, uuid)].count as nat),
    )
}

spec fn distinct<H>(entries: Seq<ServiceEntry<H>>) -> bool {
    forall|i: int, j: int|
        0 <= i < j < entries.len() ==> (#[trigger] entries[i]).uuid@ != (#[trigger] entries[j]).uuid@
}

proof fn lemma_position<H>(entries: Seq<ServiceEntry<H>>, i: int)
    requires
        distinct(entries),
        0 <= i < entries.len(),
    ensures
        holds(entries, entries[i].uuid@),
        position(entries, entries[i].uuid@) == i,
        table_of(entries)[entries[i].uuid@] == (entries[i].handle, entries[i].count as nat),
{
    let uuid = entries[i].uuid@;
    let p = position(entries, uuid);
    assert(0 <= p < entries.len() && entries[p].uuid@ == uuid);
    if p < i {
        assert(entries[p].uuid@ != entries[i].uuid@);
    } else if i < p {
        assert(entries[i].uuid@ != entries[p].uuid@);
    }
}

impl<H> View for RegisteredServices<H> {
    type V = ServiceTable<H>;

    closed spec fn view(&self) -> ServiceTable<H> {
        table_of(self.data@)
    }
}

impl<H: Copy> RegisteredServices<H> {
    /// What holds of every table: no service is entered twice, and every
    /// entry counts at least one user.
    pub closed spec fn wf(&self) -> bool {
        &&& distinct(self.data@)
        &&& forall|i: int| 0 <= i < self.data@.len() ==> (#[trigger] self.data@[i]).count >= 1
    }

    /// A well-formed table counts no entry with zero users.
    pub proof fn lemma_counts_are_positive(&self)
        requires
            self.wf(),
        ensures
            counts_are_positive(self@),
            self@.dom().finite(),
    {
        let entries = self.data@;
        assert forall|uuid: Seq<char>| self@.dom().contains(uuid) implies (#[trigger] self@[uuid]).1
            >= 1 by {
            let p = position(entries, uuid);
            assert(0 <= p < entries.len() && entries[p].uuid@ == uuid);
        }
        lemma_table_is_finite(entries);
    }

    /// The empty table.
    pub fn new() -> (table: RegisteredServices<H>)
        ensures
            table.wf(),
            table@ == Map::<Seq<char>, (H, nat)>::empty(),
    {
        let table = RegisteredServices { data: Vec::new() };
        assert(table@ =~= Map::<Seq<char>, (H, nat)>::empty());
        table
    }

    fn find(&self, key: &String) -> (found: Option<usize>)
        requires
            self.wf(),
        ensures
            match found {
                Some(i) => i < self.data@.len() && self.data@[i as int].uuid@ == key@,
                None => !holds(self.data@, key@),
            },
    {
        let mut i: usize = 0;
        while i < self.data.len()
            invariant
                i <= self.data@.len(),
                forall|j: int| 0 <= j < i ==> (#[trigger] self.data@[j]).uuid@ != key@,
            decreases self.data@.len() - i,
        {
            if self.data[i].uuid == *key {
                return Some(i);
            }
            i = i + 1;
        }
        None
    }

    /// The number of users that hold `uuid` open; zero if none does.
    pub fn refcount(&self, uuid: &str) -> (count: u64)
        requires
            self.wf(),
        ensures
            count == refcount_of(self@, uuid@),
    {
        let key = uuid.to_owned();
        match self.find(&key) {
            Some(i) => {
                proof {
                    lemma_position(self.data@, i as int);
                }
                self.data[i].count
            },
            None => 0,
        }
    }

    /// The handle under which `uuid` is open, if it is.
    pub fn handle(&self, uuid: &str) -> (handle: Option<H>)
        requires
            self.wf(),
        ensures
            handle.is_some() == self@.dom().contains(uuid@),
            handle matches Some(h) ==> h == self@[uuid@].0,
    {
        let key = uuid.to_owned();
        match self.find(&key) {
            Some(i) => {
                proof {
                    lemma_position(self.data@, i as int);
                }
                Some(self.data[i].handle)
            },
            None => None,
        }
    }

    /// Enters the service `uuid`, opened under `handle`, with one user.
    /// The service must not be in the table yet.
    pub fn add(&mut self, uuid: &str, handle: H)
        requires
            old(self).wf(),
            !old(self)@.dom().contains(uuid@),
        ensures
            final(self).wf(),
            final(self)@ == after_open(old(self)@, uuid@, handle),
            final(self)@ == old(self)@.insert(uuid@, (handle, 1nat)),
    {
        let ghost before = self.data@;
        self.data.push(ServiceEntry { uuid: uuid.to_owned(), handle, count: 1 });
        proof {
            let after = self.data@;
            let last = before.len() as int;
            assert(after[last].uuid@ == uuid@);
            assert forall|i: int, j: int| 0 <= i < j < after.len() implies (#[trigger] after[i]).uuid@
                != (#[trigger] after[j]).uuid@ by {
                if j == last {
                    assert(after[i] == before[i]);
                    assert(!holds(before, uuid@));
                } else {
                    assert(after[i] == before[i] && after[j] == before[j]);
                }
            }
            lemma_table_after_push(before, after);
        }
    }

    /// Counts one more user of `uuid` if the service is in the table;
    /// otherwise opens it with `or_callback` and enters what that gives.
    /// A failure of `or_callback` is handed on and leaves the table as it
    /// was.
    pub fn add_or<E, F: FnOnce() -> Result<H, E>>(
        &mut self,
        uuid: &str,
        or_callback: F,
    ) -> (result: Result<(), E>)
        requires
            old(self).wf(),
            refcount_of(old(self)@, uuid@) < u64::MAX,
            !old(self)@.dom().contains(uuid@) ==> call_requires(or_callback, ()),
        ensures
            final(self).wf(),
            old(self)@.dom().contains(uuid@) ==> result is Ok && final(self)@ == after_open(
                old(self)@,
                uuid@,
                old(self)@[uuid@].0,
            ),
            !old(self)@.dom().contains(uuid@) ==> match result {
                Ok(_) => exists|handle: H|
                    #[trigger] call_ensures(or_callback, (), Ok(handle)) && final(self)@ == after_open(
                        old(self)@,
                        uuid@,
                        handle,
                    ),
                Err(e) => call_ensures(or_callback, (), Err(e)) && final(self)@ == old(self)@,
            },
    {
        let key = uuid.to_owned();
        match self.find(&key) {
            Some(i) => {
                let ghost before = self.data@;
                proof {
                    lemma_position(before, i as int);
                }
                let entry = &self.data[i];
                let raised = ServiceEntry {
                    uuid: entry.uuid.clone(),
                    handle: entry.handle,
                    count: entry.count + 1,
                };
                self.data.set(i, raised);
                proof {
                    lemma_table_after_set(before, self.data@, i as int);
                }
                Ok(())
            },
            None => {
                match or_callback() {
                    Ok(handle) => {
                        self.add(uuid, handle);
                        Ok(())
                    },
                    Err(e) => Err(e),
                }
            },
        }
    }

    /// Takes one user of `uuid` away. When it was the last, the service
    /// leaves the table and `cleanup_call` gets its handle. The service
    /// must be in the table.
    pub fn remove<F: FnOnce(H)>(&mut self, uuid: &str, cleanup_call: F)
        requires
            old(self).wf(),
            old(self)@.dom().contains(uuid@),
            old(self)@[uuid@].1 == 1 ==> call_requires(cleanup_call, (old(self)@[uuid@].0,)),
        ensures
            final(self).wf(),
            final(self)@ == after_close(old(self)@, uuid@),
            old(self)@[uuid@].1 == 1 ==> call_ensures(cleanup_call, (old(self)@[uuid@].0,), ()),
    {
        let key = uuid.to_owned();
        let ghost before = self.data@;
        match self.find(&key) {
            Some(i) => {
                proof {
                    lemma_position(before, i as int);
                }
                let entry = &self.data[i];
                if entry.count == 1 {
                    let handle = entry.handle;
                    cleanup_call(handle);
                    self.data.remove(i);
                    proof {
                        lemma_table_after_remove(before, self.data@, i as int);
                    }
                } else {
                    let lowered = ServiceEntry {
                        uuid: entry.uuid.clone(),
                        handle: entry.handle,
                        count: entry.count - 1,
                    };
                    self.data.set(i, lowered);
                    proof {
                        lemma_table_after_set(before, self.data@, i as int);
                    }
                }
            },
            None => {
                assert(false);
            },
        }
    }
}

proof fn lemma_table_is_finite<H>(entries: Seq<ServiceEntry<H>>)
    ensures
        table_of(entries).dom().finite(),
    decreases entries.len(),
{
    if entries.len() == 0 {
        assert(table_of(entries).dom() =~= Set::<Seq<char>>::empty());
    } else {
        let head = entries.drop_last();
        lemma_table_is_finite(head);
        let last = entries.last();
        assert forall|uuid: Seq<char>|
            table_of(entries).dom().contains(uuid) <==> table_of(head).dom().insert(
                last.uuid@,
            ).contains(uuid) by {
            if holds(entries, uuid) {
                let p = position(entries, uuid);
                if p < head.len() {
                    assert(head[p].uuid@ == uuid);
                }
            }
            if holds(head, uuid) {
                let p = position(head, uuid);
                assert(entries[p].uuid@ == uuid);
            }
            if uuid == last.uuid@ {
                assert(entries[entries.len() - 1].uuid@ == uuid);
            }
        }
        assert(table_of(entries).dom() =~= table_of(head).dom().insert(last.uuid@));
    }
}

proof fn lemma_table_after_push<H>(before: Seq<ServiceEntry<H>>, after: Seq<ServiceEntry<H>>)
    requires
        distinct(after),
        after.len() == before.len() + 1,
        forall|i: int| 0 <= i < before.len() ==> after[i] == before[i],
    ensures
        table_of(after) == table_of(before).insert(
            after.last().uuid@,
            (after.last().handle, after.last().count as nat),
        ),
{
    let last = after.last();
    let expected = table_of(before).insert(last.uuid@, (last.handle, last.count as nat));
    assert(distinct(before)) by {
        assert forall|i: int, j: int| 0 <= i < j < before.len() implies (#[trigger] before[i]).uuid@
            != (#[trigger] before[j]).uuid@ by {
            assert(after[i].uuid@ != after[j].uuid@);
        }
    }
    assert forall|uuid: Seq<char>| table_of(after).dom().contains(uuid) <==> expected.dom().contains(
        uuid,
    ) by {
        if holds(after, uuid) {
            let p = position(after, uuid);
            if p < before.len() {
                assert(before[p].uuid@ == uuid);
            }
        }
        if holds(before, uuid) {
            let p = position(before, uuid);
            assert(after[p].uuid@ == uuid);
        }
        if uuid == last.uuid@ {
            assert(after[after.len() - 1].uuid@ == uuid);
        }
    }
    assert forall|uuid: Seq<char>| table_of(after).dom().contains(uuid) implies table_of(after)[uuid]
        == expected[uuid] by {
        let p = position(after, uuid);
        lemma_position(after, p);
        if p < before.len() {
            assert(before[p] == after[p]);
            lemma_position(before, p);
        }
    }
    assert(table_of(after) =~= expected);
}

proof fn lemma_table_after_set<H>(before: Seq<ServiceEntry<H>>, after: Seq<ServiceEntry<H>>, at: int)
    requires
        distinct(before),
        0 <= at < before.len(),
        after.len() == before.len(),
        after[at].uuid@ == before[at].uuid@,
        forall|i: int| 0 <= i < before.len() && i != at ==> after[i] == before[i],
    ensures
        distinct(after),
        table_of(after) == table_of(before).insert(
            before[at].uuid@,
            (after[at].handle, after[at].count as nat),
        ),
{
    let expected = table_of(before).insert(
        before[at].uuid@,
        (after[at].handle, after[at].count as nat),
    );
    assert forall|i: int| 0 <= i < before.len() implies (#[trigger] after[i]).uuid@
        == before[i].uuid@ by {}
    assert forall|i: int, j: int| 0 <= i < j < after.len() implies (#[trigger] after[i]).uuid@
        != (#[trigger] after[j]).uuid@ by {
        assert(before[i].uuid@ != before[j].uuid@);
    }
    assert forall|uuid: Seq<char>| table_of(after).dom().contains(uuid) <==> expected.dom().contains(
        uuid,
    ) by {
        if holds(after, uuid) {
            let p = position(after, uuid);
            assert(before[p].uuid@ == uuid);
        }
        if holds(before, uuid) {
            let p = position(before, uuid);
            assert(after[p].uuid@ == uuid);
        }
        if uuid == before[at].uuid@ {
            assert(after[at].uuid@ == uuid);
        }
    }
    assert forall|uuid: Seq<char>| table_of(after).dom().contains(uuid) implies table_of(after)[uuid]
        == expected[uuid] by {
        let p = position(after, uuid);
        lemma_position(after, p);
        if p != at {
            assert(before[p] == after[p]);
            lemma_position(before, p);
            assert(before[p].uuid@ != before[at].uuid@) by {
                if p < at {
                    assert(before[p].uuid@ != before[at].uuid@);
                } else {
                    assert(before[at].uuid@ != before[p].uuid@);
                }
            }
        }
    }
    assert(table_of(after) =~= expected);
}

proof fn lemma_table_after_remove<H>(before: Seq<ServiceEntry<H>>, after: Seq<ServiceEntry<H>>, at: int)
    requires
        distinct(before),
        0 <= at < before.len(),
        after == before.remove(at),
    ensures
        distinct(after),
        table_of(after) == table_of(before).remove(before[at].uuid@),
{
    let expected = table_of(before).remove(before[at].uuid@);
    let source = |i: int| if i < at { i } else { i + 1 };
    assert forall|i: int| 0 <= i < after.len() implies #[trigger] after[i] == before[source(i)] by {}
    assert forall|i: int, j: int| 0 <= i < j < after.len() implies (#[trigger] after[i]).uuid@
        != (#[trigger] after[j]).uuid@ by {
        assert(after[i] == before[source(i)]);
        assert(after[j] == before[source(j)]);
        assert(before[source(i)].uuid@ != before[source(j)].uuid@);
    }
    assert forall|uuid: Seq<char>| table_of(after).dom().contains(uuid) <==> expected.dom().contains(
        uuid,
    ) by {
        if holds(after, uuid) {
            let p = position(after, uuid);
            assert(after[p] == before[source(p)]);
            assert(before[source(p)].uuid@ == uuid);
            if uuid == before[at].uuid@ {
                lemma_position(before, at);
                lemma_position(before, source(p));
            }
        }
        if holds(before, uuid) && uuid != before[at].uuid@ {
            let p = position(before, uuid);
            let q = if p < at { p } else { p - 1 };
            assert(after[q] == before[source(q)]);
            assert(after[q].uuid@ == uuid);
        }
    }
    assert forall|uuid: Seq<char>| table_of(after).dom().contains(uuid) implies table_of(after)[uuid]
        == expected[uuid] by {
        let p = position(after, uuid);
        lemma_position(after, p);
        assert(after[p] == before[source(p)]);
        lemma_position(before, source(p));
    }
    assert(table_of(after) =~= expected);
}

} // verus!
