use vstd::prelude::*;

use crate::access::{read_of, AccessError, Bus, Call, DeviceAccess};

verus! {

/// A read-modify-write result: the bits under `mask` come from `value`, the
/// others from `old`.
pub open spec fn merge(old: u8, mask: u8, value: u8) -> u8 {
    (old & !mask) | (value & mask)
}

/// One register program: a full write of a word, or a read-modify-write that
/// replaces only the bits under `mask`.
#[derive(Clone, Copy, Debug, PartialEq, Eq, Structural)]
pub enum Transaction {
    Write { address: u16, value: u8 },
    Modify { address: u16, mask: u8, value: u8 },
}

impl Transaction {
    pub open spec fn address(self) -> u16 {
        match self {
            Transaction::Write { address, .. } => address,
            Transaction::Modify { address, .. } => address,
        }
    }

    /// How many bus calls a completed transaction makes.
    pub open spec fn call_count(self) -> nat {
        match self {
            Transaction::Write { .. } => 1,
            Transaction::Modify { .. } => 2,
        }
    }

    /// `calls` is the transaction carried out in full.
    pub open spec fn performed_by(self, calls: Seq<Call>) -> bool {
        match self {
            Transaction::Write { address, value } => calls == seq![Call::Write { address, value }],
            Transaction::Modify { address, mask, value } => calls.len() == 2 && match read_of(
                calls[0],
                address,
            ) {
                Some(old) => calls[1] == Call::Write { address, value: merge(old, mask, value) },
                None => false,
            },
        }
    }

    /// `calls` is the transaction cut short by a failing call, which is its last.
    pub open spec fn failed_by(self, calls: Seq<Call>) -> bool {
        match self {
            Transaction::Write { address, value } => calls == seq![
                Call::WriteFailed { address, value },
            ],
            Transaction::Modify { address, mask, value } => calls == seq![
                Call::ReadFailed { address },
            ] || (calls.len() == 2 && match read_of(calls[0], address) {
                Some(old) => calls[1] == Call::WriteFailed {
                    address,
                    value: merge(old, mask, value),
                },
                None => false,
            }),
        }
    }
}

/// `calls` carries out every transaction of `plan`, in order, and nothing else.
pub open spec fn performs_all(plan: Seq<Transaction>, calls: Seq<Call>) -> bool
    decreases plan.len(),
{
    if plan.len() == 0 {
        calls.len() == 0
    } else {
        let t = plan.last();
        let n = t.call_count() as int;
        calls.len() >= n && t.performed_by(calls.subrange(calls.len() - n, calls.len() as int))
            && performs_all(plan.drop_last(), calls.subrange(0, calls.len() - n))
    }
}

/// The calls made since `before`, when `after` extends it.
pub open spec fn since(before: Seq<Call>, after: Seq<Call>) -> Seq<Call> {
    after.subrange(before.len() as int, after.len() as int)
}

pub open spec fn extends(before: Seq<Call>, after: Seq<Call>) -> bool {
    before.len() <= after.len() && after.subrange(0, before.len() as int) == before
}

/// The word a read-modify-write stores, computed.
pub fn merged(old: u8, mask: u8, value: u8) -> (r: u8)
    ensures
        r == merge(old, mask, value),
        r & !mask == old & !mask,
        r & mask == value & mask,
{
    let r = (old & !mask) | (value & mask);
    assert(r & !mask == old & !mask && r & mask == value & mask) by (bit_vector)
        requires
            r == (old & !mask) | (value & mask),
    ;
    r
}

/// Carries out one transaction: a write issues one write; a modify reads the
/// register, merges, and writes the result back. A failing call ends it.
pub fn apply<A: DeviceAccess>(bus: &mut Bus<A>, t: Transaction) -> (r: Result<(), AccessError>)
    ensures
        extends(old(bus).calls(), final(bus).calls()),
        r is Ok ==> t.performed_by(since(old(bus).calls(), final(bus).calls())),
        r is Err ==> t.failed_by(since(old(bus).calls(), final(bus).calls())),
{
    let ghost start = bus.calls();
    match t {
        Transaction::Write { address, value } => {
            let r = bus.write(address, value);
            assert(since(start, bus.calls()) =~= seq![bus.calls().last()]);
            assert(bus.calls().subrange(0, start.len() as int) =~= start);
            r
        },
        Transaction::Modify { address, mask, value } => {
            match bus.read(address) {
                Ok(old) => {
                    let ghost mid = bus.calls();
                    let r = bus.write(address, merged(old, mask, value));
                    assert(since(start, bus.calls()) =~= seq![mid.last(), bus.calls().last()]);
                    assert(bus.calls().subrange(0, start.len() as int) =~= start);
                    r
                },
                Err(e) => {
                    assert(since(start, bus.calls()) =~= seq![bus.calls().last()]);
                    assert(bus.calls().subrange(0, start.len() as int) =~= start);
                    Err(e)
                },
            }
        },
    }
}

proof fn lemma_performs_push(plan: Seq<Transaction>, done: Seq<Call>, t: Transaction, more: Seq<Call>)
    requires
        performs_all(plan, done),
        t.performed_by(more),
    ensures
        performs_all(plan.push(t), done + more),
{
    let all = done + more;
    assert(more.len() == t.call_count());
    assert(plan.push(t).drop_last() =~= plan);
    assert(all.subrange(all.len() - more.len(), all.len() as int) =~= more);
    assert(all.subrange(0, all.len() - more.len()) =~= done);
}

/// Carries out `plan` in order and stops at the first failing call: on
/// success every transaction was done; on failure, a prefix of the plan was
/// done, the next transaction failed, and no call came after the failing one.
pub fn execute<A: DeviceAccess>(bus: &mut Bus<A>, plan: &Vec<Transaction>) -> (r: Result<
    (),
    AccessError,
>)
    ensures
        extends(old(bus).calls(), final(bus).calls()),
        r is Ok ==> performs_all(plan@, since(old(bus).calls(), final(bus).calls())),
        r is Err ==> exists|k: int, j: int|
            0 <= k < plan@.len() && 0 <= j <= since(old(bus).calls(), final(bus).calls()).len()
                && #[trigger] performs_all(
                plan@.take(k),
                since(old(bus).calls(), final(bus).calls()).take(j),
            ) && plan@[k].failed_by(since(old(bus).calls(), final(bus).calls()).skip(j)),
{
    let ghost start = bus.calls();
    let mut i: usize = 0;
    assert(plan@.take(0) =~= Seq::<Transaction>::empty());
    assert(since(start, bus.calls()) =~= Seq::<Call>::empty());
    assert(bus.calls().subrange(0, start.len() as int) =~= start);
    while i < plan.len()
        invariant
            i <= plan@.len(),
            start == old(bus).calls(),
            extends(start, bus.calls()),
            performs_all(plan@.take(i as int), since(start, bus.calls())),
        decreases plan@.len() - i,
    {
        let ghost before = bus.calls();
        let t = plan[i];
        let r = apply(bus, t);
        let ghost piece = since(before, bus.calls());
        assert(since(start, bus.calls()) =~= since(start, before) + piece);
        assert(bus.calls().subrange(0, start.len() as int) =~= start) by {
            assert(bus.calls().subrange(0, before.len() as int) == before);
            assert(bus.calls().subrange(0, start.len() as int) =~= before.subrange(
                0,
                start.len() as int,
            ));
        }
        match r {
            Ok(()) => {
                proof {
                    lemma_performs_push(plan@.take(i as int), since(start, before), t, piece);
                    assert(plan@.take(i as int).push(t) =~= plan@.take(i + 1));
                }
            },
            Err(e) => {
                let ghost all = since(start, bus.calls());
                let ghost j = since(start, before).len() as int;
                assert(all.take(j) =~= since(start, before));
                assert(all.skip(j) =~= piece);
                assert(performs_all(plan@.take(i as int), all.take(j)));
                assert(plan@[i as int].failed_by(all.skip(j)));
                assert(extends(start, bus.calls()));
                return Err(e);
            },
        }
        i = i + 1;
    }
    assert(plan@.take(plan@.len() as int) =~= plan@);
    Ok(())
}

proof fn lemma_performed_no_failure(plan: Seq<Transaction>, calls: Seq<Call>)
    requires
        performs_all(plan, calls),
    ensures
        forall|i: int| 0 <= i < calls.len() ==> !(#[trigger] calls[i]).failed(),
    decreases plan.len(),
{
    if plan.len() > 0 {
        let n = plan.last().call_count() as int;
        let head = calls.subrange(0, calls.len() - n);
        let tail = calls.subrange(calls.len() - n, calls.len() as int);
        lemma_performed_no_failure(plan.drop_last(), head);
        assert forall|i: int| 0 <= i < calls.len() implies !(#[trigger] calls[i]).failed() by {
            if i < calls.len() - n {
                assert(calls[i] == head[i]);
            } else {
                assert(calls[i] == tail[i - (calls.len() - n)]);
            }
        }
    }
}

/// A run cut short by a failure: when a prefix of a plan was carried out
/// and the next transaction failed, the failing call is the last call made
/// and no call before it failed, so no transaction after the failing one
/// was started.
pub proof fn lemma_failure_is_last(plan: Seq<Transaction>, calls: Seq<Call>, k: int, j: int)
    requires
        0 <= k < plan.len(),
        0 <= j <= calls.len(),
        performs_all(plan.take(k), calls.take(j)),
        plan[k].failed_by(calls.skip(j)),
    ensures
        calls.len() > 0,
        calls.last().failed(),
        forall|i: int| 0 <= i < calls.len() - 1 ==> !(#[trigger] calls[i]).failed(),
{
    lemma_performed_no_failure(plan.take(k), calls.take(j));
    let rest = calls.skip(j);
    assert(rest.len() >= 1);
    assert(calls.last() == rest.last());
    assert forall|i: int| 0 <= i < calls.len() - 1 implies !(#[trigger] calls[i]).failed() by {
        if i < j {
            assert(calls[i] == calls.take(j)[i]);
        } else {
            assert(calls[i] == rest[i - j]);
        }
    }
}

} // verus!
