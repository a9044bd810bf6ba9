//! The channel object model and the adapter's operations on it.
//!
//! [`Bio`] stands for the foreign channel object as the adapter sees it:
//! the descriptor its method pointer designates, the opaque per-object
//! slot (holding the [`StreamState`] while attached), the initialised
//! mark, a numeric bookkeeping field, and the two retry-flag bits.
//!
//! The lifecycle is a two-state machine.  While *attached* the object
//! carries the active descriptor and owns a `StreamState`; callbacks
//! ([`bwrite`], [`bread`], [`bputs`], [`ctrl`]) borrow that state to drive
//! one stream operation each.  [`take_stream`] is the only transition to
//! *detached*: it hands the stream back, empties the opaque slot and
//! installs the inert descriptor, after which the generic teardown path
//! ([`destroy`]) finds nothing left to free.

use vstd::prelude::*;
use vstd::slice::slice_subrange;

use crate::error::{StreamError, is_retriable, retriable_error};
use crate::method::{BIO_CTRL_FLUSH, BioMethod, active_method, inert_method, inert_method_spec,
    is_active, is_inert};
use crate::stream::Stream;

verus! {

/// The per-object record owned by the channel object's opaque slot: the
/// wrapped stream and the last captured stream failure, if any.
pub struct StreamState<S> {
    pub stream: S,
    pub error: Option<StreamError>,
}

/// The foreign channel object, as far as the adapter reads and writes it.
pub struct Bio<S> {
    /// The descriptor the object's method pointer designates.
    pub method: BioMethod,
    /// The opaque per-object slot: holds the adapter state while attached.
    pub state: Option<StreamState<S>>,
    /// The object's initialised mark.
    pub init: bool,
    /// The object's numeric bookkeeping field; this adapter only zeroes it.
    pub num: i32,
    /// Retry flag for reads: set when a read failed retriably.
    pub retry_read: bool,
    /// Retry flag for writes: set when a write failed retriably.
    pub retry_write: bool,
}

impl<S> Bio<S> {
    /// An attached object: it owns a stream state, is marked initialised,
    /// and its descriptor is the active one.
    pub open spec fn attached(self) -> bool {
        &&& self.state is Some
        &&& is_active(self.method)
        &&& self.init
    }

    /// A detached object: the opaque slot is empty, the mark is cleared,
    /// and the descriptor is the inert, destroy-only one.
    pub open spec fn detached(self) -> bool {
        &&& self.state is None
        &&& is_inert(self.method)
        &&& !self.init
    }

    /// The pairing invariant: a populated opaque slot goes only with the
    /// active descriptor, and the inert descriptor only with an empty one.
    pub open spec fn wf(self) -> bool {
        &&& (self.state is Some ==> is_active(self.method) && self.init)
        &&& (is_inert(self.method) ==> self.state is None && !self.init)
    }

    /// The wrapped stream, for an object whose slot is populated.
    pub open spec fn stream(self) -> S
        recommends
            self.state is Some,
    {
        self.state.unwrap().stream
    }

    /// The last captured failure, for an object whose slot is populated.
    pub open spec fn error(self) -> Option<StreamError>
        recommends
            self.state is Some,
    {
        self.state.unwrap().error
    }

    /// The same object with its wrapped stream replaced by `s`.
    pub open spec fn with_stream(self, s: S) -> Bio<S>
        recommends
            self.state is Some,
    {
        Bio { state: Some(StreamState { stream: s, error: self.error() }), ..self }
    }
}

/// What the create callback leaves behind: a known-empty object, with the
/// descriptor untouched.
pub open spec fn create_spec<S>(b: Bio<S>) -> Bio<S> {
    Bio { state: None, init: false, num: 0, retry_read: false, retry_write: false, ..b }
}

/// What the error query does: the error slot is cleared and its old
/// content is handed out; nothing else moves.
pub open spec fn take_error_spec<S>(b: Bio<S>) -> (Bio<S>, Option<StreamError>)
    recommends
        b.state is Some,
{
    (Bio { state: Some(StreamState { stream: b.stream(), error: None }), ..b }, b.error())
}

/// What detachment leaves behind: an empty opaque slot, a cleared
/// initialised mark, and the inert descriptor.
pub open spec fn detach_spec<S>(b: Bio<S>) -> Bio<S> {
    Bio { method: inert_method_spec(), state: None, init: false, ..b }
}

/// One successful write step: the stream accepted the first `n` bytes of
/// `buf` on top of what it had observed before.
pub open spec fn write_step(pre: Seq<u8>, buf: Seq<u8>, n: int, post: Seq<u8>) -> bool {
    &&& 0 <= n <= buf.len()
    &&& post == pre + buf.take(n)
}

/// The write callback's whole effect, relating the object before and
/// after to the buffer and the returned code.
pub open spec fn bwrite_transition<S: Stream>(
    pre: Bio<S>,
    post: Bio<S>,
    buf: Seq<u8>,
    r: int,
) -> bool {
    &&& post.method == pre.method
    &&& post.init == pre.init
    &&& post.num == pre.num
    &&& post.state is Some
    &&& !post.retry_read
    &&& post.stream().readable() == pre.stream().readable()
    &&& post.stream().flushes() == pre.stream().flushes()
    &&& if r >= 0 {
        &&& write_step(pre.stream().written(), buf, r, post.stream().written())
        &&& post.error() == pre.error()
        &&& !post.retry_write
    } else {
        &&& r == -1
        &&& post.stream().written() == pre.stream().written()
        &&& post.error() is Some
        &&& post.retry_write == is_retriable(post.error().unwrap().kind)
    }
}

/// The read callback's whole effect.
pub open spec fn bread_transition<S: Stream>(
    pre: Bio<S>,
    post: Bio<S>,
    limit: int,
    r: int,
    data: Seq<u8>,
) -> bool {
    &&& post.method == pre.method
    &&& post.init == pre.init
    &&& post.num == pre.num
    &&& post.state is Some
    &&& !post.retry_write
    &&& post.stream().written() == pre.stream().written()
    &&& post.stream().flushes() == pre.stream().flushes()
    &&& if r >= 0 {
        &&& r == data.len()
        &&& data.len() <= limit
        &&& data == pre.stream().readable().take(data.len() as int)
        &&& post.stream().readable() == pre.stream().readable().skip(data.len() as int)
        &&& post.error() == pre.error()
        &&& !post.retry_read
    } else {
        &&& r == -1
        &&& data == Seq::<u8>::empty()
        &&& post.stream().readable() == pre.stream().readable()
        &&& post.error() is Some
        &&& post.retry_read == is_retriable(post.error().unwrap().kind)
    }
}

/// The control callback's whole effect: the flush command drives the
/// stream's flush and reports 1 on success or 0 with the error recorded;
/// every other command is answered 0 with the object untouched.
pub open spec fn ctrl_transition<S: Stream>(pre: Bio<S>, post: Bio<S>, cmd: int, r: int) -> bool {
    if cmd == BIO_CTRL_FLUSH {
        &&& post.method == pre.method
        &&& post.init == pre.init
        &&& post.num == pre.num
        &&& post.retry_read == pre.retry_read
        &&& post.retry_write == pre.retry_write
        &&& post.state is Some
        &&& post.stream().written() == pre.stream().written()
        &&& post.stream().readable() == pre.stream().readable()
        &&& if r == 1 {
            &&& post.stream().flushes() == pre.stream().flushes() + 1
            &&& post.error() == pre.error()
        } else {
            &&& r == 0
            &&& post.stream().flushes() == pre.stream().flushes()
            &&& post.error() is Some
        }
    } else {
        &&& r == 0
        &&& post == pre
    }
}

/// Constructs an adapter over `stream`: a channel object put through the
/// create callback, its opaque slot then loaded with a fresh stream state
/// and the initialised mark set, paired with the active descriptor the
/// object's method pointer designates.
pub fn new<S: Stream>(stream: S) -> (r: (Bio<S>, BioMethod))
    ensures
        r.0.attached(),
        r.0.wf(),
        r.0.stream() == stream,
        r.0.error() is None,
        !r.0.retry_read,
        !r.0.retry_write,
        r.0.num == 0,
        r.0.method == r.1,
        is_active(r.1),
{
    let method = active_method();
    let mut bio = Bio::<S> {
        method,
        state: None,
        init: false,
        num: 0,
        retry_read: false,
        retry_write: false,
    };
    let _rc: i32 = create(&mut bio);
    bio.state = Some(StreamState { stream, error: None });
    bio.init = true;
    (bio, method)
}

/// The error query: returns and clears the last captured failure; the
/// stream and the rest of the object stay as they are.
pub fn take_error<S>(bio: &mut Bio<S>) -> (r: Option<StreamError>)
    requires
        old(bio).attached(),
    ensures
        final(bio).attached(),
        (*final(bio), r) == take_error_spec(*old(bio)),
        r == old(bio).error(),
        final(bio).error() is None,
        final(bio).stream() == old(bio).stream(),
{
    let mut st = bio.state.take().unwrap();
    let r = st.error;
    st.error = None;
    bio.state = Some(st);
    r
}

/// Detachment: reclaims the stream state, hands the wrapped stream back
/// unchanged, empties the opaque slot, clears the initialised mark and
/// installs the inert descriptor, so the generic teardown path never
/// touches the original table or state again.
pub fn take_stream<S>(bio: &mut Bio<S>) -> (s: S)
    requires
        old(bio).attached(),
    ensures
        s == old(bio).stream(),
        *final(bio) == detach_spec(*old(bio)),
        final(bio).detached(),
{
    let st = bio.state.take().unwrap();
    bio.method = inert_method();
    bio.init = false;
    st.stream
}

/// Borrows the wrapped stream of an attached object.
pub fn get_ref<S>(bio: &Bio<S>) -> (s: &S)
    requires
        bio.attached(),
    ensures
        *s == bio.stream(),
{
    match &bio.state {
        Some(st) => &st.stream,
        None => vstd::pervasive::unreached(),
    }
}

/// Mutably borrows the wrapped stream of an attached object; whatever the
/// caller does through the borrow, only the stream changes.
pub fn get_mut<'a, S>(bio: &'a mut Bio<S>) -> (s: &'a mut S)
    requires
        old(bio).attached(),
    ensures
        *s == old(bio).stream(),
        *final(bio) == old(bio).with_stream(*final(s)),
        final(bio).attached(),
{
    match &mut bio.state {
        Some(st) => &mut st.stream,
        None => vstd::pervasive::unreached(),
    }
}

/// What the write callback answers for each possible stream outcome: the
/// code for the foreign library, the retry flag to set, and the new
/// content of the error slot given its prior content.
pub fn write_verdict(res: Result<usize, StreamError>, prior: Option<StreamError>) -> (v: (
    i32,
    bool,
    Option<StreamError>,
))
    requires
        (match res {
            Ok(n) => n <= i32::MAX,
            Err(_) => true,
        }),
    ensures
        (match res {
            Ok(n) => v == (n as i32, false, prior),
            Err(e) => v == (-1i32, is_retriable(e.kind), Some(e)),
        }),
{
    match res {
        Ok(n) => (n as i32, false, prior),
        Err(err) => (-1, retriable_error(&err), Some(err)),
    }
}

/// The write callback: clears both retry flags, asks the stream to write
/// `buf`, and answers the byte count, or -1 with the failure recorded and
/// the write-retry flag set exactly for retriable failures.
pub fn bwrite<S: Stream>(bio: &mut Bio<S>, buf: &[u8]) -> (r: i32)
    requires
        old(bio).attached(),
        buf@.len() <= i32::MAX,
    ensures
        final(bio).attached(),
        bwrite_transition::<S>(*old(bio), *final(bio), buf@, r as int),
{
    bio.retry_read = false;
    bio.retry_write = false;
    let mut st = bio.state.take().unwrap();
    let res = st.stream.write(buf);
    let (r, retry, slot) = write_verdict(res, st.error);
    bio.retry_write = retry;
    st.error = slot;
    bio.state = Some(st);
    r
}

/// The read callback: clears both retry flags, asks the stream for up to
/// `limit` bytes, and answers the bytes with their count, or -1 with the
/// failure recorded and the read-retry flag set exactly for retriable
/// failures.
pub fn bread<S: Stream>(bio: &mut Bio<S>, limit: usize) -> (r: (i32, Vec<u8>))
    requires
        old(bio).attached(),
        limit <= i32::MAX,
    ensures
        final(bio).attached(),
        bread_transition::<S>(*old(bio), *final(bio), limit as int, r.0 as int, r.1@),
{
    bio.retry_read = false;
    bio.retry_write = false;
    let mut st = bio.state.take().unwrap();
    let res = st.stream.read(limit);
    let (code, data, retry, slot) = read_verdict(res, st.error);
    bio.retry_read = retry;
    st.error = slot;
    bio.state = Some(st);
    (code, data)
}

/// What the read callback answers for each possible stream outcome: the
/// code, the bytes to hand out, the retry flag to set, and the new
/// content of the error slot given its prior content.
pub fn read_verdict(res: Result<Vec<u8>, StreamError>, prior: Option<StreamError>) -> (v: (
    i32,
    Vec<u8>,
    bool,
    Option<StreamError>,
))
    requires
        (match res {
            Ok(data) => data@.len() <= i32::MAX,
            Err(_) => true,
        }),
    ensures
        (match res {
            Ok(data) => v.0 == data@.len() && v.1 == data && v.2 == false && v.3 == prior,
            Err(e) => v.0 == -1 && v.1@ == Seq::<u8>::empty() && v.2 == is_retriable(e.kind)
                && v.3 == Some(e),
        }),
{
    match res {
        Ok(data) => (data.len() as i32, data, false, prior),
        Err(err) => (-1, Vec::new(), retriable_error(&err), Some(err)),
    }
}

/// The index of the terminating null in `s`: the length of the
/// null-terminated string held at its front.
pub open spec fn cstr_len(s: Seq<u8>) -> int
    decreases s.len(),
{
    if s.len() == 0 {
        0
    } else if s[0] == 0 {
        0
    } else {
        1 + cstr_len(s.skip(1))
    }
}

/// `cstr_len` finds the first null: everything before it is non-null.
pub proof fn lemma_cstr_len(s: Seq<u8>)
    requires
        s.contains(0u8),
    ensures
        0 <= cstr_len(s) < s.len(),
        s[cstr_len(s)] == 0u8,
        forall|j: int| 0 <= j < cstr_len(s) ==> s[j] != 0u8,
    decreases s.len(),
{
    let i = choose|i: int| 0 <= i < s.len() && s[i] == 0u8;
    if s[0] == 0 {
    } else {
        assert(s.skip(1)[i - 1] == 0u8);
        assert(s.skip(1).contains(0u8));
        lemma_cstr_len(s.skip(1));
        assert forall|j: int| 0 <= j < cstr_len(s) implies s[j] != 0u8 by {
            if j > 0 {
                assert(s.skip(1)[j - 1] != 0u8);
            }
        }
        assert(s[cstr_len(s)] == s.skip(1)[cstr_len(s.skip(1))]);
    }
}

/// The length of the null-terminated string at the front of `s`.
pub fn strlen(s: &[u8]) -> (n: usize)
    requires
        s@.contains(0u8),
    ensures
        n == cstr_len(s@),
        n < s@.len(),
{
    proof {
        lemma_cstr_len(s@);
    }
    let mut i: usize = 0;
    loop
        invariant
            s@.contains(0u8),
            0 <= i <= cstr_len(s@),
            forall|j: int| 0 <= j < i ==> s@[j] != 0u8,
        decreases cstr_len(s@) - i,
    {
        proof {
            lemma_cstr_len(s@);
        }
        if s[i] == 0 {
            proof {
                if i < cstr_len(s@) {
                    assert(s@[i as int] != 0u8);
                }
            }
            return i;
        }
        proof {
            if i == cstr_len(s@) {
                assert(s@[cstr_len(s@)] == 0u8);
            }
        }
        i = i + 1;
    }
}

/// The puts callback: measures the null-terminated string at the front of
/// `s` and delegates to the write callback for exactly those bytes, with
/// all of its error and retry semantics.
pub fn bputs<S: Stream>(bio: &mut Bio<S>, s: &[u8]) -> (r: i32)
    requires
        old(bio).attached(),
        s@.contains(0u8),
        s@.len() <= i32::MAX,
    ensures
        final(bio).attached(),
        bwrite_transition::<S>(*old(bio), *final(bio), s@.take(cstr_len(s@)), r as int),
{
    let n = strlen(s);
    let prefix = slice_subrange(s, 0, n);
    proof {
        assert(prefix@ =~= s@.take(cstr_len(s@)));
    }
    bwrite(bio, prefix)
}

/// The control callback: recognises only the flush command, driving the
/// stream's flush and answering 1 on success or 0 with the error
/// recorded; any other command is answered 0 with nothing touched.
pub fn ctrl<S: Stream>(bio: &mut Bio<S>, cmd: i32, _num: i64) -> (r: i64)
    requires
        old(bio).attached(),
    ensures
        final(bio).attached(),
        ctrl_transition::<S>(*old(bio), *final(bio), cmd as int, r as int),
{
    if cmd == BIO_CTRL_FLUSH {
        let mut st = bio.state.take().unwrap();
        let res = st.stream.flush();
        let (r, slot) = flush_verdict(res, st.error);
        st.error = slot;
        bio.state = Some(st);
        r
    } else {
        0
    }
}

/// What the control callback answers for the flush command, for each
/// possible stream outcome: 1 with the error slot untouched on success,
/// 0 with the failure recorded otherwise.
pub fn flush_verdict(res: Result<(), StreamError>, prior: Option<StreamError>) -> (v: (
    i64,
    Option<StreamError>,
))
    ensures
        (match res {
            Ok(_) => v == (1i64, prior),
            Err(e) => v == (0i64, Some(e)),
        }),
{
    match res {
        Ok(_) => (1, prior),
        Err(err) => (0, Some(err)),
    }
}

/// The create callback: puts the object's bookkeeping fields into the
/// known-empty state and reports success.  It runs before any stream
/// state is installed, so it assumes nothing about the opaque slot.
pub fn create<S>(bio: &mut Bio<S>) -> (r: i32)
    ensures
        r == 1,
        *final(bio) == create_spec(*old(bio)),
{
    bio.init = false;
    bio.num = 0;
    bio.state = None;
    bio.retry_read = false;
    bio.retry_write = false;
    1
}

/// The inert destroy callback: answers 0 for a missing object and 1
/// otherwise.  It is only ever reached on objects whose opaque slot is
/// already empty — a populated slot here would mean the attach/detach
/// protocol was violated, so emptiness is the precondition — and it
/// frees nothing itself.
pub fn destroy<S>(bio: Option<&Bio<S>>) -> (r: i32)
    requires
        (match bio {
            Some(b) => b.state is None,
            None => true,
        }),
    ensures
        r == 1 <==> bio is Some,
        r == 0 <==> bio is None,
{
    match bio {
        Some(_) => 1,
        None => 0,
    }
}

} // verus!
