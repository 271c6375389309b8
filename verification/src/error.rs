//! Error model of the driver.
//!
//! The bus transport has two independently typed failure modes, one for each
//! transaction kind. The driver preserves the underlying cause and unifies
//! the two under one tagged error, together with the driver-misuse condition
//! of a channel index beyond the configured channel count.

use vstd::prelude::*;

verus! {

/// A write-then-read bus transaction reported failure; the transport's own
/// error is kept as the cause.
#[derive(Debug)]
pub struct ReadError<T>(pub T);

/// A write bus transaction reported failure; the transport's own error is
/// kept as the cause.
#[derive(Debug)]
pub struct WriteError<W>(pub W);

/// Unified error of every driver operation.
///
/// Bus failures carry their cause; `LedNumberOverflowError` is raised before
/// any bus access when a channel index is not below the configured channel
/// count, so the device is never partially mutated by a misuse.
#[derive(Debug)]
pub enum Error<R, W> {
    ReadError(ReadError<R>),
    WriteError(WriteError<W>),
    LedNumberOverflowError,
}

} // verus!
