//! A ghost record of the bus transactions that the driver has issued, so that
//! contracts can say which reads and writes an operation makes and how its
//! result follows from the bytes that came back.

use vstd::prelude::*;

use embedded_hal::i2c::ErrorKind;

verus! {

/// One bus transaction, or a wait.
pub enum Transaction {
    /// The address of `register` was written to the device at `address` and
    /// bytes were read back: `read` holds them if the bus reported success,
    /// and `error` holds the kind of failure if it did not.
    WriteRead { address: u8, register: u8, read: Seq<u8>, error: Option<ErrorKind> },
    /// `written` was written to the device at `address`; `error` holds the
    /// kind of failure if the bus reported one.
    Write { address: u8, written: Seq<u8>, error: Option<ErrorKind> },
    /// The driver waited `ms` milliseconds.
    Delay { ms: u32 },
}

impl Transaction {
    /// The device address that a bus transaction went to (none for a wait).
    pub open spec fn device(self) -> Option<u8> {
        match self {
            Transaction::WriteRead { address, .. } => Some(address),
            Transaction::Write { address, .. } => Some(address),
            Transaction::Delay { .. } => None,
        }
    }

    /// The kind of failure that the bus reported for this transaction, if any.
    pub open spec fn error(self) -> Option<ErrorKind> {
        match self {
            Transaction::WriteRead { error, .. } => error,
            Transaction::Write { error, .. } => error,
            Transaction::Delay { .. } => None,
        }
    }

    /// The bus reported success (a wait always succeeds).
    pub open spec fn ok(self) -> bool {
        self.error() is None
    }
}

/// `after` continues `before`.
pub open spec fn extends(before: Seq<Transaction>, after: Seq<Transaction>) -> bool {
    before.len() <= after.len() && after.subrange(0, before.len() as int) == before
}

/// What `after` holds beyond `before`.
pub open spec fn appended(before: Seq<Transaction>, after: Seq<Transaction>) -> Seq<Transaction> {
    after.subrange(before.len() as int, after.len() as int)
}

/// `after` is `before` with one more transaction.
pub open spec fn one_more(before: Seq<Transaction>, after: Seq<Transaction>) -> bool {
    after.len() == before.len() + 1 && after.drop_last() == before
}

/// A single write-read of `register` on the device at `address`, which read
/// `len` bytes if it succeeded.
pub open spec fn is_read(t: Transaction, address: u8, register: u8, len: nat) -> bool {
    &&& t is WriteRead
    &&& t.device() == Some(address)
    &&& t->register == register
    &&& t.ok() ==> t->read.len() == len
}

/// The bytes written to set a 16-bit register: its address, then the value most
/// significant byte first.
pub open spec fn write_frame(register: u8, value: u16) -> Seq<u8> {
    seq![register, (value / 256) as u8, (value % 256) as u8]
}

} // verus!
