use vstd::prelude::*;

verus! {

/// The event behaviour that a callback object implements for the host.
#[derive(Clone, Copy, Debug, PartialEq, Eq, Structural)]
pub enum HandlerKind {
    FocusChanged,
    PropertyChanged,
    AutomationEvent,
}

/// An interface that the host may ask a callback object for.
#[derive(Clone, Copy, Debug, PartialEq, Eq, Structural)]
pub enum InterfaceId {
    /// The base lifetime interface every object supports.
    Unknown,
    FocusChangedHandler,
    PropertyChangedHandler,
    AutomationEventHandler,
    /// Any interface that no callback object supports.
    Other,
}

/// Outcome of a capability query.
#[derive(Clone, Copy, Debug, PartialEq, Eq, Structural)]
pub enum QueryOutcome {
    /// The object hands itself out; the count after the implied increment.
    Supported(u32),
    NotSupported,
}

/// One lifetime operation that the host issues on an object.
#[derive(Clone, Copy, Debug, PartialEq, Eq, Structural)]
pub enum RefOp {
    Increment,
    Decrement,
}

/// The behaviour interface that objects of `kind` implement.
pub open spec fn behaviour_interface(kind: HandlerKind) -> InterfaceId {
    match kind {
        HandlerKind::FocusChanged => InterfaceId::FocusChangedHandler,
        HandlerKind::PropertyChanged => InterfaceId::PropertyChangedHandler,
        HandlerKind::AutomationEvent => InterfaceId::AutomationEventHandler,
    }
}

/// Whether an object of `kind` answers a query for `iid`.
pub open spec fn supports(kind: HandlerKind, iid: InterfaceId) -> bool {
    iid == InterfaceId::Unknown || iid == behaviour_interface(kind)
}

/// The reference count after one operation.
pub open spec fn step(count: int, op: RefOp) -> int {
    match op {
        RefOp::Increment => count + 1,
        RefOp::Decrement => count - 1,
    }
}

/// The reference count after `ops`, starting from the count of a new object.
pub open spec fn count_after(ops: Seq<RefOp>) -> int
    decreases ops.len(),
{
    if ops.len() == 0 {
        1
    } else {
        step(count_after(ops.drop_last()), ops.last())
    }
}

/// No operation in `ops` is issued on an object that was already destroyed.
pub open spec fn issued_while_alive(ops: Seq<RefOp>) -> bool {
    forall|i: int| 0 <= i < ops.len() ==> count_after(#[trigger] ops.take(i)) > 0
}

/// How many operations of `ops` bring the count to zero, destroying the object.
pub open spec fn destructions(ops: Seq<RefOp>) -> nat
    decreases ops.len(),
{
    if ops.len() == 0 {
        0
    } else {
        destructions(ops.drop_last()) + if count_after(ops) == 0 {
            1nat
        } else {
            0nat
        }
    }
}

/// A host-facing callback object: the behaviour it implements and its
/// reference count. The object is destroyed when the count falls to zero.
pub struct CallbackObject {
    kind: HandlerKind,
    ref_count: u32,
}

impl CallbackObject {
    pub closed spec fn kind_spec(&self) -> HandlerKind {
        self.kind
    }

    pub closed spec fn count(&self) -> nat {
        self.ref_count as nat
    }

    /// A new object, owned by one counted reference.
    pub fn create(kind: HandlerKind) -> (r: CallbackObject)
        ensures
            r.kind_spec() == kind,
            r.count() == 1,
    {
        CallbackObject { kind, ref_count: 1 }
    }

    pub fn kind(&self) -> (r: HandlerKind)
        ensures
            r == self.kind_spec(),
    {
        self.kind
    }

    pub fn ref_count(&self) -> (r: u32)
        ensures
            r == self.count(),
    {
        self.ref_count
    }

    /// Takes one more counted reference and returns the new count.
    pub fn add_ref(&mut self) -> (r: u32)
        requires
            old(self).count() < u32::MAX,
        ensures
            final(self).kind_spec() == old(self).kind_spec(),
            final(self).count() == step(old(self).count() as int, RefOp::Increment),
            r == final(self).count(),
    {
        self.ref_count = self.ref_count + 1;
        self.ref_count
    }

    /// Drops one counted reference and returns the new count; at zero the
    /// caller must destroy the object and use it no more.
    pub fn release(&mut self) -> (r: u32)
        requires
            old(self).count() > 0,
        ensures
            final(self).kind_spec() == old(self).kind_spec(),
            final(self).count() == step(old(self).count() as int, RefOp::Decrement),
            r == final(self).count(),
    {
        self.ref_count = self.ref_count - 1;
        self.ref_count
    }

    /// Answers the host's request for `iid`: the base interface and this
    /// object's own behaviour interface are handed out, with one more counted
    /// reference; any other leaves the object untouched.
    pub fn query_capability(&mut self, iid: InterfaceId) -> (r: QueryOutcome)
        requires
            old(self).count() < u32::MAX,
        ensures
            final(self).kind_spec() == old(self).kind_spec(),
            supports(old(self).kind_spec(), iid) ==> final(self).count() == old(self).count() + 1
                && r == QueryOutcome::Supported(final(self).count() as u32),
            !supports(old(self).kind_spec(), iid) ==> final(self).count() == old(self).count()
                && r == QueryOutcome::NotSupported,
    {
        let own = match self.kind {
            HandlerKind::FocusChanged => InterfaceId::FocusChangedHandler,
            HandlerKind::PropertyChanged => InterfaceId::PropertyChangedHandler,
            HandlerKind::AutomationEvent => InterfaceId::AutomationEventHandler,
        };
        if iid == InterfaceId::Unknown || iid == own {
            let n = self.add_ref();
            QueryOutcome::Supported(n)
        } else {
            QueryOutcome::NotSupported
        }
    }
}

/// Creates an object of `kind`, issues `ops` on it in order, and returns how
/// many times it was destroyed.
pub fn run_lifetime(kind: HandlerKind, ops: &Vec<RefOp>) -> (r: u32)
    requires
        ops.len() < u32::MAX,
        issued_while_alive(ops@),
    ensures
        r == destructions(ops@),
{
    let mut obj = CallbackObject::create(kind);
    let mut destroyed: u32 = 0;
    let mut i: usize = 0;
    while i < ops.len()
        invariant
            0 <= i <= ops.len(),
            ops.len() < u32::MAX,
            issued_while_alive(ops@),
            obj.count() == count_after(ops@.take(i as int)),
            destroyed == destructions(ops@.take(i as int)),
            destroyed <= i,
            obj.count() <= i + 1,
        decreases ops.len() - i,
    {
        assert(ops@.take(i as int + 1).drop_last() == ops@.take(i as int));
        assert(ops@.take(i as int + 1).last() == ops@[i as int]);
        assert(count_after(ops@.take(i as int)) > 0);
        match ops[i] {
            RefOp::Increment => {
                obj.add_ref();
            },
            RefOp::Decrement => {
                let n = obj.release();
                if n == 0 {
                    destroyed = destroyed + 1;
                }
            },
        }
        i = i + 1;
    }
    assert(ops@.take(ops.len() as int) == ops@);
    destroyed
}

/// Over any run of operations issued while the object is alive, the object is
/// destroyed exactly once if the net count reaches zero, and never otherwise.
pub proof fn lemma_destroyed_once_iff_net_zero(ops: Seq<RefOp>)
    requires
        issued_while_alive(ops),
    ensures
        destructions(ops) == if count_after(ops) == 0 {
            1nat
        } else {
            0nat
        },
        count_after(ops) >= 0,
    decreases ops.len(),
{
    if ops.len() > 0 {
        let prev = ops.drop_last();
        assert forall|i: int| 0 <= i < prev.len() implies count_after(#[trigger] prev.take(i)) > 0 by {
            assert(prev.take(i) == ops.take(i));
        }
        lemma_destroyed_once_iff_net_zero(prev);
        assert(ops.take(ops.len() - 1) == prev);
        assert(count_after(prev) > 0);
    }
}

} // verus!
