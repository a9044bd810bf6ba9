//! The library's general laws, proved once and for all over the model.
//!
//! Each proof function here states one property that ties several of the
//! adapter's operations together; the per-operation contracts live on the
//! operations themselves in [`crate::bio`].

use vstd::prelude::*;

use crate::bio::{Bio, bread_transition, bwrite_transition, detach_spec, take_error_spec,
    write_step};
use crate::error::is_retriable;
use crate::stream::Stream;

verus! {

/// The bytes a run of writes asks the stream to observe: for each step,
/// the accepted prefix of its buffer, concatenated in order.
pub open spec fn written_parts(bufs: Seq<Seq<u8>>, ns: Seq<int>) -> Seq<u8>
    recommends
        bufs.len() == ns.len(),
    decreases bufs.len(),
{
    if bufs.len() == 0 {
        Seq::empty()
    } else {
        bufs[0].take(ns[0]) + written_parts(bufs.drop_first(), ns.drop_first())
    }
}

/// Over any run of individually successful writes, the stream observes
/// exactly the bytes the callers handed in, in order, each write
/// contributing the prefix whose length it reported.
pub proof fn lemma_successful_writes_accumulate(
    states: Seq<Seq<u8>>,
    bufs: Seq<Seq<u8>>,
    ns: Seq<int>,
)
    requires
        states.len() == bufs.len() + 1,
        ns.len() == bufs.len(),
        forall|i: int|
            0 <= i < bufs.len() ==> write_step(states[i], bufs[i], #[trigger] ns[i], states[i + 1]),
    ensures
        states[states.len() - 1] == states[0] + written_parts(bufs, ns),
    decreases bufs.len(),
{
    if bufs.len() == 0 {
        assert(states[0] + written_parts(bufs, ns) =~= states[0]);
    } else {
        assert(ns[0] == ns[0]);
        assert(write_step(states[0], bufs[0], ns[0], states[1]));
        let states1 = states.drop_first();
        let bufs1 = bufs.drop_first();
        let ns1 = ns.drop_first();
        assert forall|i: int|
            0 <= i < bufs1.len() implies write_step(
            states1[i],
            bufs1[i],
            #[trigger] ns1[i],
            states1[i + 1],
        ) by {
            assert(ns[i + 1] == ns[i + 1]);
            assert(write_step(states[i + 1], bufs[i + 1], ns[i + 1], states[i + 2]));
        }
        lemma_successful_writes_accumulate(states1, bufs1, ns1);
        assert(states1[states1.len() - 1] == states[states.len() - 1]);
        assert(states[states.len() - 1] =~= states[0] + written_parts(bufs, ns)) by {
            assert(states1[0] == states[0] + bufs[0].take(ns[0]));
            assert(states[states.len() - 1] == (states[0] + bufs[0].take(ns[0]))
                + written_parts(bufs1, ns1));
        }
    }
}

/// The same accumulation, stated over the write callback's own contract:
/// for any run of the adapter in which every write succeeds, the wrapped
/// stream observes exactly the callers' bytes, in order, each call
/// contributing the prefix whose length it answered.
pub proof fn lemma_adapter_writes_accumulate<S: Stream>(
    bios: Seq<Bio<S>>,
    bufs: Seq<Seq<u8>>,
    rs: Seq<int>,
)
    requires
        bios.len() == bufs.len() + 1,
        rs.len() == bufs.len(),
        forall|i: int|
            0 <= i < bufs.len() ==> bwrite_transition::<S>(
                bios[i],
                bios[i + 1],
                bufs[i],
                #[trigger] rs[i],
            ) && rs[i] >= 0,
    ensures
        bios[bios.len() - 1].stream().written() == bios[0].stream().written() + written_parts(
            bufs,
            rs,
        ),
{
    let states = Seq::new(bios.len(), |i: int| bios[i].stream().written());
    assert forall|i: int|
        0 <= i < bufs.len() implies write_step(
        states[i],
        bufs[i],
        #[trigger] rs[i],
        states[i + 1],
    ) by {
        assert(bwrite_transition::<S>(bios[i], bios[i + 1], bufs[i], rs[i]));
    }
    lemma_successful_writes_accumulate(states, bufs, rs);
}

/// A failed write leaves the retry flag set exactly for the retriable
/// error kinds, and the failure itself sitting in the error slot, where
/// the error query will surface it.
pub proof fn lemma_failed_write_classified<S: Stream>(
    pre: Bio<S>,
    post: Bio<S>,
    buf: Seq<u8>,
    r: int,
)
    requires
        pre.attached(),
        post.attached(),
        bwrite_transition::<S>(pre, post, buf, r),
        r < 0,
    ensures
        post.error() is Some,
        post.retry_write == is_retriable(post.error().unwrap().kind),
        !post.retry_read,
        take_error_spec(post).1 == post.error(),
        post.stream().written() == pre.stream().written(),
{
}

/// A failed read leaves the retry flag set exactly for the retriable
/// error kinds, and the failure retrievable through the error query.
pub proof fn lemma_failed_read_classified<S: Stream>(
    pre: Bio<S>,
    post: Bio<S>,
    limit: int,
    r: int,
    data: Seq<u8>,
)
    requires
        pre.attached(),
        post.attached(),
        bread_transition::<S>(pre, post, limit, r, data),
        r < 0,
    ensures
        post.error() is Some,
        post.retry_read == is_retriable(post.error().unwrap().kind),
        !post.retry_write,
        take_error_spec(post).1 == post.error(),
        post.stream().readable() == pre.stream().readable(),
{
}

/// The error query clears as it reads: querying twice in a row yields the
/// pending failure once, then nothing, and the second query moves nothing.
pub proof fn lemma_error_query_idempotent<S>(b: Bio<S>)
    requires
        b.attached(),
    ensures
        ({
            let (b1, e1) = take_error_spec(b);
            let (b2, e2) = take_error_spec(b1);
            &&& e1 == b.error()
            &&& e2 is None
            &&& b2 == b1
            &&& b1.stream() == b.stream()
        }),
{
}

/// The two lifecycle states both satisfy the pairing invariant — a
/// populated opaque slot only ever goes with the active descriptor, the
/// inert descriptor only with an empty one — and exclude each other.
pub proof fn lemma_lifecycle_states_well_formed<S>(b: Bio<S>)
    ensures
        b.attached() ==> b.wf(),
        b.detached() ==> b.wf(),
        !(b.attached() && b.detached()),
{
    crate::method::lemma_active_not_inert(b.method);
}

/// Detachment leaves the object inert and safe to destroy: its opaque
/// slot is empty (the destroy callback's precondition), the inert
/// descriptor is installed, the destroy callback then reports success,
/// and the object is no longer attached, so no read, write, puts or
/// control callback admits it again.
pub proof fn lemma_detached_object_is_inert<S>(b: Bio<S>)
    requires
        b.attached(),
    ensures
        ({
            let d = detach_spec(b);
            &&& d.detached()
            &&& d.wf()
            &&& !d.attached()
            &&& d.state is None
        }),
{
    let d = detach_spec(b);
    crate::method::lemma_active_not_inert(d.method);
}

} // verus!
