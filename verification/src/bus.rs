//! The bus transport interface the driver is written against.
//!
//! A transport carries byte transactions to one device on a byte-addressed
//! command bus. For verification the device's register file is modelled as a
//! ghost sequence of 256 bytes: a transaction that reports success behaves as
//! the command framing prescribes, one that reports failure is modelled as
//! leaving the register file untouched, and reads have no side effect on it.
//! Implementations of this trait are the boundary of the verified code: the
//! contracts here are obligations on every implementor.

use vstd::prelude::*;

verus! {

/// The register file after the bytes of `data` are stored at consecutive
/// addresses starting at `start`; addresses beyond the file are ignored.
pub open spec fn store_seq(regs: Seq<u8>, start: int, data: Seq<u8>) -> Seq<u8>
    decreases data.len(),
{
    if data.len() == 0 {
        regs
    } else {
        let first = if 0 <= start < regs.len() {
            regs.update(start, data[0])
        } else {
            regs
        };
        store_seq(first, start + 1, data.drop_first())
    }
}

/// The `count` bytes read from consecutive addresses starting at `start`;
/// addresses beyond the file read as zero.
pub open spec fn fetch_seq(regs: Seq<u8>, start: int, count: nat) -> Seq<u8> {
    Seq::new(count, |i: int| if 0 <= start + i < regs.len() { regs[start + i] } else { 0u8 })
}

/// Storing a single byte is one register update.
pub proof fn lemma_store_one(regs: Seq<u8>, start: int, value: u8)
    requires
        0 <= start < regs.len(),
    ensures
        store_seq(regs, start, seq![value]) == regs.update(start, value),
{
    let tail = seq![value].drop_first();
    assert(tail =~= Seq::<u8>::empty());
    assert(seq![value][0] == value);
    assert(store_seq(regs.update(start, value), start + 1, tail) == regs.update(start, value));
}

/// Storing one more byte after `data` updates the position right after the
/// stored run, when that position is in range.
pub proof fn lemma_store_snoc(regs: Seq<u8>, start: int, data: Seq<u8>, value: u8)
    ensures
        store_seq(regs, start, data.push(value)) == (if 0 <= start + data.len() < regs.len() {
            store_seq(regs, start, data).update(start + data.len(), value)
        } else {
            store_seq(regs, start, data)
        }),
    decreases data.len(),
{
    if data.len() == 0 {
        let tail = data.push(value).drop_first();
        assert(tail =~= Seq::<u8>::empty());
        assert(data.push(value)[0] == value);
        let first = if 0 <= start < regs.len() {
            regs.update(start, value)
        } else {
            regs
        };
        assert(store_seq(first, start + 1, tail) == first);
    } else {
        let first = if 0 <= start < regs.len() {
            regs.update(start, data[0])
        } else {
            regs
        };
        assert(data.push(value)[0] == data[0]);
        assert(data.push(value).drop_first() =~= data.drop_first().push(value));
        lemma_store_snoc(first, start + 1, data.drop_first(), value);
        assert(first.len() == regs.len());
    }
}

/// A blocking transport to one device on the command bus.
///
/// Both operations address the device (`address`) and move raw bytes; the
/// register-prefix framing of the payload is produced by the driver, and the
/// ghost register file `regs` states what that framing means on the device:
/// a successful write stores `payload[1..]` at consecutive registers starting
/// at `payload[0]`, and a successful write-then-read returns the bytes at
/// consecutive registers starting at `command[0]`.
pub trait Bus: Sized {
    /// Error of a pure write transaction.
    type WriteFault;

    /// Error of a write-then-read transaction.
    type ReadFault;

    /// Ghost model of the addressed device's 256 registers.
    ///
    /// A transport verified against this trait overrides the model with its
    /// own; outside verified code the default stands, the empty file, of
    /// which the contracts below say nothing useful.
    open spec fn regs(&self) -> Seq<u8> {
        Seq::empty()
    }

    /// One write transaction whose payload is a register address followed by
    /// the data bytes for that register onward.
    fn write(&mut self, address: u8, payload: &[u8]) -> (r: Result<(), Self::WriteFault>)
        requires
            payload@.len() >= 1,
        ensures
            final(self).regs().len() == old(self).regs().len(),
            (match r {
                Ok(()) => final(self).regs() == store_seq(
                    old(self).regs(),
                    payload@[0] as int,
                    payload@.drop_first(),
                ),
                Err(_) => final(self).regs() == old(self).regs(),
            }),
    ;

    /// One write-then-read transaction: the single register address in
    /// `command` is sent, then `count` bytes are read back.
    fn write_then_read(&mut self, address: u8, command: &[u8], count: usize) -> (r: Result<
        Vec<u8>,
        Self::ReadFault,
    >)
        requires
            command@.len() == 1,
        ensures
            final(self).regs() == old(self).regs(),
            (match r {
                Ok(data) => data@ == fetch_seq(old(self).regs(), command@[0] as int, count as nat),
                Err(_) => true,
            }),
    ;
}

} // verus!
