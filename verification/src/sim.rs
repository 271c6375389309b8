//! An in-memory bus transport.
//!
//! The simulated bus keeps the device's register file in a vector and
//! implements the transport contract in verified code, which shows the
//! contract is satisfiable. Failure injection switches and transaction
//! counters make it a stand-in for hardware in tests: a test can make one
//! phase of the protocol fail and count the transactions that were attempted.

use vstd::prelude::*;

use crate::bus::{fetch_seq, lemma_store_snoc, store_seq, Bus};

verus! {

/// A bus whose device is a vector of registers held in memory.
pub struct SimBus {
    /// The simulated register file.
    pub regs: Vec<u8>,
    /// When set, every write transaction reports failure and stores nothing.
    pub fail_writes: bool,
    /// When set, every write-then-read transaction reports failure.
    pub fail_reads: bool,
    /// Number of write transactions attempted so far.
    pub write_count: u64,
    /// Number of write-then-read transactions attempted so far.
    pub read_count: u64,
}

impl SimBus {
    /// A bus whose 256 registers all read zero, with no failure injection.
    pub fn new() -> (r: SimBus)
        ensures
            r.regs@.len() == 256,
            forall|i: int| 0 <= i < 256 ==> r.regs@[i] == 0u8,
            !r.fail_writes,
            !r.fail_reads,
            r.write_count == 0,
            r.read_count == 0,
    {
        let mut regs: Vec<u8> = Vec::new();
        let mut i: usize = 0;
        while i < 256
            invariant
                i <= 256,
                regs@.len() == i,
                forall|j: int| 0 <= j < i ==> regs@[j] == 0u8,
            decreases 256 - i,
        {
            regs.push(0);
            i += 1;
        }
        SimBus { regs, fail_writes: false, fail_reads: false, write_count: 0, read_count: 0 }
    }
}

impl Bus for SimBus {
    type WriteFault = u8;

    type ReadFault = u8;

    open spec fn regs(&self) -> Seq<u8> {
        self.regs@
    }

    fn write(&mut self, address: u8, payload: &[u8]) -> (r: Result<(), Self::WriteFault>) {
        self.write_count = self.write_count.wrapping_add(1);
        if self.fail_writes {
            return Err(1u8);
        }
        let ghost pre = self.regs@;
        let reg = payload[0] as usize;
        let mut i: usize = 1;
        proof {
            assert(payload@.subrange(1, 1) =~= Seq::<u8>::empty());
        }
        while i < payload.len()
            invariant
                1 <= i <= payload@.len(),
                reg == payload@[0] as usize,
                self.regs@.len() == pre.len(),
                self.regs@ == store_seq(pre, payload@[0] as int, payload@.subrange(1, i as int)),
            decreases payload@.len() - i,
        {
            let value = payload[i];
            let off = i - 1;
            if off < self.regs.len() && reg < self.regs.len() - off {
                let idx = reg + off;
                self.regs.set(idx, value);
            }
            proof {
                assert(payload@.subrange(1, (i + 1) as int) =~= payload@.subrange(
                    1,
                    i as int,
                ).push(payload@[i as int]));
                lemma_store_snoc(
                    pre,
                    payload@[0] as int,
                    payload@.subrange(1, i as int),
                    payload@[i as int],
                );
            }
            i += 1;
        }
        proof {
            assert(payload@.subrange(1, payload@.len() as int) =~= payload@.drop_first());
        }
        Ok(())
    }

    fn write_then_read(&mut self, address: u8, command: &[u8], count: usize) -> (r: Result<
        Vec<u8>,
        Self::ReadFault,
    >) {
        self.read_count = self.read_count.wrapping_add(1);
        if self.fail_reads {
            return Err(2u8);
        }
        let start = command[0] as usize;
        let rlen = self.regs.len();
        let mut out: Vec<u8> = Vec::new();
        let mut i: usize = 0;
        while i < count
            invariant
                i <= count,
                start == command@[0] as usize,
                rlen == self.regs@.len(),
                out@ == fetch_seq(self.regs@, command@[0] as int, i as nat),
            decreases count - i,
        {
            let value: u8 = if i <= usize::MAX - start {
                let idx = start + i;
                if idx < rlen {
                    self.regs[idx]
                } else {
                    0
                }
            } else {
                0
            };
            out.push(value);
            proof {
                let s = command@[0] as int;
                if i > usize::MAX - start {
                    assert(s + i > usize::MAX >= rlen);
                }
                assert(value == (if 0 <= s + i < self.regs@.len() {
                    self.regs@[s + i]
                } else {
                    0u8
                }));
                assert(out@ =~= fetch_seq(self.regs@, s, (i + 1) as nat));
            }
            i += 1;
        }
        Ok(out)
    }
}

} // verus!
