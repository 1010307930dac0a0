//! The load-image adapter: the pull interface through which the engine asks
//! the caller for code bytes on demand.

use crate::address::Address;
use crate::DecodeError;
use vstd::prelude::*;

verus! {

/// Caller-implemented byte supply. During a decode the engine requests
/// `size` bytes starting at `addr`, zero or more times, synchronously on
/// the calling thread.
pub trait LoadImage {
    /// Supply exactly `size` bytes of the image starting at `addr`, or
    /// `Err(())` when they cannot be supplied. A buffer of any other
    /// length is treated by the binding layer as a failed fill: an adapter
    /// must never deliver a short read without signalling.
    fn load_fill(&mut self, addr: &Address, size: usize) -> Result<Vec<u8>, ()>;

    /// Re-base subsequent address interpretation. The default does nothing.
    fn adjust_vma(&mut self, _adjust: isize) {
    }
}

/// Judge one adapter response against the request: only a supplied buffer
/// of exactly the requested length passes; everything else is an adapter
/// failure, since a short or garbled fill cannot be recovered
/// mid-instruction.
pub fn check_fill(resp: Result<Vec<u8>, ()>, size: usize) -> (r: Result<Vec<u8>, DecodeError>)
    ensures
        r == (match resp {
            Ok(b) => if b@.len() == size {
                Ok::<Vec<u8>, DecodeError>(b)
            } else {
                Err(DecodeError::AdapterFailure)
            },
            Err(_) => Err(DecodeError::AdapterFailure),
        }),
{
    match resp {
        Ok(b) => {
            if b.len() == size {
                Ok(b)
            } else {
                Err(DecodeError::AdapterFailure)
            }
        },
        Err(_) => Err(DecodeError::AdapterFailure),
    }
}

/// The engine-facing wrapper around a caller's adapter: every fill the
/// engine requests is checked for exact length before any byte reaches the
/// decoder.
pub struct RustLoadImage<L: LoadImage> {
    pub internal: L,
}

impl<L: LoadImage> RustLoadImage<L> {
    /// Wrap a caller's adapter.
    pub fn from_internal(internal: L) -> (r: Self)
        ensures
            r.internal == internal,
    {
        Self { internal }
    }

    /// Request `size` bytes at `addr` from the adapter. Whatever the
    /// adapter does, the result is either exactly `size` bytes or an
    /// adapter failure.
    pub fn load_fill(&mut self, addr: &Address, size: usize) -> (r: Result<Vec<u8>, DecodeError>)
        ensures
            match r {
                Ok(b) => b@.len() == size,
                Err(e) => e == DecodeError::AdapterFailure,
            },
    {
        let resp = self.internal.load_fill(addr, size);
        check_fill(resp, size)
    }

    /// Forward a re-basing request to the adapter.
    pub fn adjust_vma(&mut self, adjust: isize) {
        self.internal.adjust_vma(adjust)
    }
}

} // verus!
