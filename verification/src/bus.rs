//! The bus that carries frames to the chain, and the record of what was sent.

use vstd::prelude::*;

verus! {

/// The bus refused or lost a transaction. Nothing more is known about it.
#[derive(Debug, Clone, Copy, PartialEq, Eq, Structural)]
pub struct BusFault;

/// One transaction handed to the bus: the bytes, and whether the bus took them.
pub struct Transfer {
    pub bytes: Seq<u8>,
    pub accepted: bool,
}

/// A synchronous serial bus on which the chain of displays hangs.
///
/// `write` sends the given bytes as one atomic transaction, first byte first.
/// Whether it succeeds is up to the transport, so nothing is promised here.
pub trait Bus {
    fn write(&mut self, bytes: &[u8]) -> Result<(), BusFault>;
}

/// A bus together with the record of what it was handed.
///
/// The driver reaches its bus through a port and in no other way, so the
/// record of the port is the record of everything the driver sent.
pub struct Port<B> {
    bus: B,
    record: Ghost<Seq<Transfer>>,
}

impl<B: Bus> Port<B> {
    /// Every transaction handed to the bus through this port, oldest first.
    pub closed spec fn log(self) -> Seq<Transfer> {
        self.record@
    }

    /// The bus behind the port.
    pub closed spec fn inner(self) -> B {
        self.bus
    }

    /// A port to `bus` through which nothing has gone yet.
    pub(crate) fn new(bus: B) -> (port: Self)
        ensures
            port.log() == Seq::<Transfer>::empty(),
            port.inner() == bus,
    {
        Port { bus, record: Ghost(Seq::empty()) }
    }

    /// Hands `bytes` to the bus as one transaction and gives its answer back.
    ///
    /// This is the one place where the bus is called. The record gains one
    /// entry per call: the bytes as they were handed over, and whether the
    /// bus took them.
    pub(crate) fn write(&mut self, bytes: &[u8]) -> (r: Result<(), BusFault>)
        ensures
            final(self).log() == old(self).log().push(
                (Transfer { bytes: bytes@, accepted: r is Ok }),
            ),
    {
        let r = self.bus.write(bytes);
        self.record = Ghost(self.record@.push(Transfer { bytes: bytes@, accepted: r is Ok }));
        r
    }
}

/// The transfers made while working through `plan` when `count` of its frames
/// were handed over: every one but the last was accepted, and the last was
/// accepted exactly if `ok`.
pub open spec fn attempted(plan: Seq<Seq<u8>>, count: nat, ok: bool) -> Seq<Transfer> {
    Seq::new(count, |j: int| (Transfer { bytes: plan[j], accepted: j + 1 < count || ok }))
}

/// An operation that sends the frames of `plan` in order and stops at the first
/// one the bus refuses took the history from `before` to `after` and returned
/// `ok`: at least one frame was tried, all frames were tried if it succeeded.
pub open spec fn ran(before: Seq<Transfer>, after: Seq<Transfer>, plan: Seq<Seq<u8>>, ok: bool) -> bool {
    let count = after.len() - before.len();
    &&& 1 <= count <= plan.len()
    &&& ok ==> count == plan.len()
    &&& after == before + attempted(plan, count as nat, ok)
}

/// Two operations in a row, the second started only after the first succeeded,
/// are one run of the two plans joined.
pub proof fn lemma_ran_then(
    before: Seq<Transfer>,
    between: Seq<Transfer>,
    after: Seq<Transfer>,
    first: Seq<Seq<u8>>,
    second: Seq<Seq<u8>>,
    ok: bool,
)
    requires
        ran(before, between, first, true),
        ran(between, after, second, ok),
    ensures
        ran(before, after, first + second, ok),
{
    let count = (after.len() - before.len()) as nat;
    assert(after =~= before + attempted(first + second, count, ok));
}

/// A run that failed is also a failed run of any longer plan that starts the
/// same way: what follows the refused frame is never sent.
pub proof fn lemma_ran_stopped(
    before: Seq<Transfer>,
    after: Seq<Transfer>,
    first: Seq<Seq<u8>>,
    second: Seq<Seq<u8>>,
)
    requires
        ran(before, after, first, false),
    ensures
        ran(before, after, first + second, false),
{
    let count = (after.len() - before.len()) as nat;
    assert(after =~= before + attempted(first + second, count, false));
}

/// One more step of a longer operation: after `done` went through, the frames
/// of `step` were tried. If they went through too, `done + step` went through;
/// if not, the whole operation stopped there, whatever `rest` it still had.
pub proof fn lemma_ran_step(
    before: Seq<Transfer>,
    between: Seq<Transfer>,
    after: Seq<Transfer>,
    done: Seq<Seq<u8>>,
    step: Seq<Seq<u8>>,
    rest: Seq<Seq<u8>>,
    ok: bool,
)
    requires
        ran(before, between, done, true),
        ran(between, after, step, ok),
    ensures
        ok ==> ran(before, after, done + step, true),
        !ok ==> ran(before, after, done + step + rest, false),
{
    lemma_ran_then(before, between, after, done, step, ok);
    if !ok {
        lemma_ran_stopped(before, after, done + step, rest);
    }
}

/// A run hands the bus a prefix of its plan, frame by frame, and only the last
/// frame handed over can have been refused.
pub proof fn lemma_ran_prefix(
    before: Seq<Transfer>,
    after: Seq<Transfer>,
    plan: Seq<Seq<u8>>,
    ok: bool,
)
    requires
        ran(before, after, plan, ok),
    ensures
        before.len() < after.len() <= before.len() + plan.len(),
        forall|j: int| 0 <= j < before.len() ==> after[j] == before[j],
        forall|j: int|
            before.len() <= j < after.len() ==> (#[trigger] after[j]).bytes == plan[j
                - before.len()],
        forall|j: int| before.len() <= j < after.len() - 1 ==> (#[trigger] after[j]).accepted,
        after.last().accepted == ok,
{
}

} // verus!
