//! The stream capability the adapter wraps.
//!
//! A stream is anything that can accept bytes, hand bytes out, and flush.
//! Its observable history is given by three spec-level projections: the
//! bytes it has accepted through `write`, the bytes still available to
//! `read`, and how many flushes have completed.  Every implementation must
//! prove that a successful operation changes exactly the projection it is
//! about, and that a failed one changes none of them.

use vstd::prelude::*;

use crate::error::{StreamError, StreamErrorKind};

verus! {

/// A bidirectional byte stream: the capability the adapter consumes.
///
/// An `Err` result must leave every projection unchanged, so that the
/// adapter can promise its caller that a failed callback has no effect on
/// the stream beyond the recorded error.
pub trait Stream: Sized {
    /// All bytes this stream has accepted through `write`, oldest first.
    spec fn written(&self) -> Seq<u8>;

    /// The bytes still available to `read`, in the order they will come.
    spec fn readable(&self) -> Seq<u8>;

    /// How many flushes have completed.
    spec fn flushes(&self) -> nat;

    /// Writes a prefix of `data`, reporting how many bytes were accepted.
    fn write(&mut self, data: &[u8]) -> (r: Result<usize, StreamError>)
        ensures
            (match r {
                Ok(n) => {
                    &&& n <= data@.len()
                    &&& final(self).written() == old(self).written() + data@.take(n as int)
                    &&& final(self).readable() == old(self).readable()
                    &&& final(self).flushes() == old(self).flushes()
                },
                Err(_) => {
                    &&& final(self).written() == old(self).written()
                    &&& final(self).readable() == old(self).readable()
                    &&& final(self).flushes() == old(self).flushes()
                },
            }),
    ;

    /// Reads up to `limit` bytes from the front of the readable sequence.
    fn read(&mut self, limit: usize) -> (r: Result<Vec<u8>, StreamError>)
        ensures
            (match r {
                Ok(data) => {
                    &&& data@.len() <= limit
                    &&& data@ == old(self).readable().take(data@.len() as int)
                    &&& final(self).readable() == old(self).readable().skip(
                        data@.len() as int,
                    )
                    &&& final(self).written() == old(self).written()
                    &&& final(self).flushes() == old(self).flushes()
                },
                Err(_) => {
                    &&& final(self).written() == old(self).written()
                    &&& final(self).readable() == old(self).readable()
                    &&& final(self).flushes() == old(self).flushes()
                },
            }),
    ;

    /// Flushes buffered output.
    fn flush(&mut self) -> (r: Result<(), StreamError>)
        ensures
            (match r {
                Ok(_) => {
                    &&& final(self).flushes() == old(self).flushes() + 1
                    &&& final(self).written() == old(self).written()
                    &&& final(self).readable() == old(self).readable()
                },
                Err(_) => {
                    &&& final(self).written() == old(self).written()
                    &&& final(self).readable() == old(self).readable()
                    &&& final(self).flushes() == old(self).flushes()
                },
            }),
    ;
}

/// An in-memory stream: writes accumulate in `out`, reads consume `input`,
/// and the next operation can be forced to fail by setting `fail_next`.
pub struct MemoryStream {
    /// Bytes accepted so far through `write`.
    pub out: Vec<u8>,
    /// Bytes still available to `read`.
    pub input: Vec<u8>,
    /// When set, the next write/read/flush fails with this kind and the
    /// slot is cleared.
    pub fail_next: Option<StreamErrorKind>,
    /// How many flushes have completed.
    pub flush_tally: Ghost<nat>,
}

impl MemoryStream {
    /// A fresh stream with nothing written, `input` available to read, and
    /// no forced failure pending.
    pub fn new(input: Vec<u8>) -> (s: MemoryStream)
        ensures
            s.written() == Seq::<u8>::empty(),
            s.readable() == input@,
            s.flushes() == 0,
            s.fail_next is None,
    {
        MemoryStream { out: Vec::new(), input, fail_next: None, flush_tally: Ghost(0) }
    }

    /// Forces the next operation to fail with the given kind.
    pub fn force_failure(&mut self, kind: StreamErrorKind)
        ensures
            final(self).fail_next == Some(kind),
            final(self).out == old(self).out,
            final(self).input == old(self).input,
            final(self).flushes() == old(self).flushes(),
    {
        self.fail_next = Some(kind);
    }
}

impl Stream for MemoryStream {
    open spec fn written(&self) -> Seq<u8> {
        self.out@
    }

    open spec fn readable(&self) -> Seq<u8> {
        self.input@
    }

    open spec fn flushes(&self) -> nat {
        self.flush_tally@
    }

    fn write(&mut self, data: &[u8]) -> (r: Result<usize, StreamError>)
        ensures
            (match old(self).fail_next {
                Some(k) => {
                    &&& r == Err::<usize, StreamError>((StreamError { kind: k }))
                    &&& final(self).fail_next is None
                },
                None => (match r {
                    Ok(n) => {
                        &&& n == data@.len()
                        &&& final(self).out@ == old(self).out@ + data@
                        &&& final(self).fail_next is None
                    },
                    Err(_) => false,
                }),
            }),
    {
        match self.fail_next {
            Some(kind) => {
                self.fail_next = None;
                Err(StreamError { kind })
            },
            None => {
                let mut i: usize = 0;
                while i < data.len()
                    invariant
                        i <= data@.len(),
                        self.out@ == old(self).out@ + data@.take(i as int),
                        self.input == old(self).input,
                        self.fail_next == old(self).fail_next,
                        self.flush_tally == old(self).flush_tally,
                    decreases data@.len() - i,
                {
                    self.out.push(data[i]);
                    proof {
                        assert(data@.take(i + 1) =~= data@.take(i as int).push(data@[i as int]));
                    }
                    i = i + 1;
                }
                proof {
                    assert(data@.take(data@.len() as int) =~= data@);
                }
                Ok(data.len())
            },
        }
    }

    fn read(&mut self, limit: usize) -> (r: Result<Vec<u8>, StreamError>)
        ensures
            (match old(self).fail_next {
                Some(k) => {
                    &&& r == Err::<Vec<u8>, StreamError>((StreamError { kind: k }))
                    &&& final(self).fail_next is None
                },
                None => (match r {
                    Ok(data) => ({
                        let n = if limit < old(self).input@.len() {
                            limit as int
                        } else {
                            old(self).input@.len() as int
                        };
                        &&& data@ == old(self).input@.take(n)
                        &&& final(self).fail_next is None
                    }),
                    Err(_) => false,
                }),
            }),
    {
        match self.fail_next {
            Some(kind) => {
                self.fail_next = None;
                Err(StreamError { kind })
            },
            None => {
                let n: usize = if limit < self.input.len() {
                    limit
                } else {
                    self.input.len()
                };
                let mut data: Vec<u8> = Vec::new();
                let mut i: usize = 0;
                while i < n
                    invariant
                        i <= n,
                        n <= self.input@.len(),
                        data@ == self.input@.take(i as int),
                        self == old(self),
                    decreases n - i,
                {
                    let b = self.input[i];
                    data.push(b);
                    proof {
                        assert(self.input@.take(i + 1) =~= self.input@.take(i as int).push(
                            self.input@[i as int],
                        ));
                    }
                    i = i + 1;
                }
                let mut rest: Vec<u8> = Vec::new();
                let mut j: usize = n;
                while j < self.input.len()
                    invariant
                        n <= j <= self.input@.len(),
                        rest@ == self.input@.subrange(n as int, j as int),
                        self == old(self),
                        data@ == self.input@.take(n as int),
                    decreases self.input@.len() - j,
                {
                    let b = self.input[j];
                    rest.push(b);
                    proof {
                        assert(self.input@.subrange(n as int, j + 1) =~= self.input@.subrange(
                            n as int,
                            j as int,
                        ).push(self.input@[j as int]));
                    }
                    j = j + 1;
                }
                proof {
                    assert(rest@ =~= self.input@.skip(n as int));
                }
                self.input = rest;
                Ok(data)
            },
        }
    }

    fn flush(&mut self) -> (r: Result<(), StreamError>)
        ensures
            (match old(self).fail_next {
                Some(k) => {
                    &&& r == Err::<(), StreamError>((StreamError { kind: k }))
                    &&& final(self).fail_next is None
                },
                None => {
                    &&& r == Ok::<(), StreamError>(())
                    &&& final(self).fail_next is None
                },
            }),
    {
        match self.fail_next {
            Some(kind) => {
                self.fail_next = None;
                Err(StreamError { kind })
            },
            None => {
                self.flush_tally = Ghost(self.flush_tally@ + 1);
                Ok(())
            },
        }
    }
}

} // verus!
