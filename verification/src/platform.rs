//! The conversation between the hooking engine and the address space.
//!
//! The engine never reads or writes memory. It names an [`Action`]; whoever
//! drives it performs that action once and answers with a [`Reply`]. The
//! second half of this module is a mathematical model of an address space
//! that answers truthfully, against which what the engine achieves is stated.

use crate::error::Error;
use vstd::prelude::*;

verus! {

/// The protection that a range of memory is asked to take.
#[derive(Debug, Clone, Copy, PartialEq, Eq, Structural)]
pub enum Protection {
    /// Readable, writable and executable: what a range needs while it is patched.
    ReadWriteExecute,
    /// The protection that the platform reported earlier, given back unchanged.
    Previous(u32),
}

/// One request to the platform.
#[derive(Debug, PartialEq, Eq)]
pub enum Action {
    /// Change the protection of `length` bytes at `address` and report the
    /// protection they had.
    Protect { address: usize, length: usize, protection: Protection },
    /// Copy `length` bytes out of memory at `address`.
    Read { address: usize, length: usize },
    /// Copy `bytes` into memory at `address`.
    Write { address: usize, bytes: Vec<u8> },
    /// Allocate `length` bytes of executable memory.
    Allocate { length: usize },
    /// Release the allocation that starts at `address`.
    Free { address: usize },
}

/// The platform's answer to one request.
#[derive(Debug, PartialEq, Eq)]
pub enum Reply {
    /// The protection was changed; `previous` is what the range had before.
    Protected { previous: u32 },
    /// The bytes that were read.
    Bytes(Vec<u8>),
    /// The bytes were written.
    Written,
    /// Memory was allocated at `address`.
    Allocated { address: usize },
    /// The allocation was released.
    Freed,
    /// The request failed with the platform's error `code`; memory is as it was.
    Failed { code: i32 },
}

/// An [`Action`] as a mathematical value.
pub enum ActionView {
    Protect { address: usize, length: usize, protection: Protection },
    Read { address: usize, length: usize },
    Write { address: usize, bytes: Seq<u8> },
    Allocate { length: usize },
    Free { address: usize },
}

/// A [`Reply`] as a mathematical value.
pub enum ReplyView {
    Protected { previous: u32 },
    Bytes(Seq<u8>),
    Written,
    Allocated { address: usize },
    Freed,
    Failed { code: i32 },
}

impl View for Action {
    type V = ActionView;

    open spec fn view(&self) -> ActionView {
        match *self {
            Action::Protect { address, length, protection } => ActionView::Protect {
                address,
                length,
                protection,
            },
            Action::Read { address, length } => ActionView::Read { address, length },
            Action::Write { address, bytes } => ActionView::Write { address, bytes: bytes@ },
            Action::Allocate { length } => ActionView::Allocate { length },
            Action::Free { address } => ActionView::Free { address },
        }
    }
}

impl View for Reply {
    type V = ReplyView;

    open spec fn view(&self) -> ReplyView {
        match *self {
            Reply::Protected { previous } => ReplyView::Protected { previous },
            Reply::Bytes(bytes) => ReplyView::Bytes(bytes@),
            Reply::Written => ReplyView::Written,
            Reply::Allocated { address } => ReplyView::Allocated { address },
            Reply::Freed => ReplyView::Freed,
            Reply::Failed { code } => ReplyView::Failed { code },
        }
    }
}

impl Clone for Action {
    fn clone(&self) -> (copy: Action)
        ensures
            copy@ == self@,
    {
        match self {
            Action::Protect { address, length, protection } => Action::Protect {
                address: *address,
                length: *length,
                protection: *protection,
            },
            Action::Read { address, length } => Action::Read { address: *address, length: *length },
            Action::Write { address, bytes } => Action::Write {
                address: *address,
                bytes: bytes.clone(),
            },
            Action::Allocate { length } => Action::Allocate { length: *length },
            Action::Free { address } => Action::Free { address: *address },
        }
    }
}

impl Clone for Reply {
    fn clone(&self) -> (copy: Reply)
        ensures
            copy@ == self@,
    {
        match self {
            Reply::Protected { previous } => Reply::Protected { previous: *previous },
            Reply::Bytes(bytes) => Reply::Bytes(bytes.clone()),
            Reply::Written => Reply::Written,
            Reply::Allocated { address } => Reply::Allocated { address: *address },
            Reply::Freed => Reply::Freed,
            Reply::Failed { code } => Reply::Failed { code: *code },
        }
    }
}

/// Whether `reply` is an answer that the platform can give to `action`: the
/// failure, or the success that belongs to the action. A read answers with
/// exactly as many bytes as were asked for, and an allocation with a block
/// that lies inside the address space.
pub open spec fn answers(action: ActionView, reply: ReplyView) -> bool {
    reply is Failed || match action {
        ActionView::Protect { .. } => reply is Protected,
        ActionView::Read { length, .. } => reply is Bytes && reply->Bytes_0.len() == length,
        ActionView::Write { .. } => reply is Written,
        ActionView::Allocate { length } => reply is Allocated && reply->address + length
            <= usize::MAX,
        ActionView::Free { .. } => reply is Freed,
    }
}

/// What the engine reports when `reply` comes in: the platform's failure
/// with its code, or success.
pub open spec fn outcome(reply: ReplyView) -> Result<(), Error> {
    match reply {
        ReplyView::Failed { code } => Err(Error::PlatformFailure { code }),
        _ => Ok(()),
    }
}

/// The addresses from `address` up to, not including, `address + length`.
pub open spec fn range(address: int, length: int) -> Set<int> {
    Set::new(|a: int| address <= a < address + length)
}

/// An address space: the byte at every address, and the addresses that are
/// in use.
pub struct Memory {
    pub bytes: Map<int, u8>,
    pub mapped: Set<int>,
}

impl Memory {
    /// The `length` bytes that start at `address`.
    pub open spec fn read(self, address: int, length: nat) -> Seq<u8> {
        Seq::new(length, |i: int| self.bytes[address + i])
    }

    /// This memory with `data` stored at `address`; every other byte is kept.
    pub open spec fn write(self, address: int, data: Seq<u8>) -> Memory {
        Memory {
            bytes: Map::new(
                |a: int| true,
                |a: int|
                    if address <= a < address + data.len() {
                        data[a - address]
                    } else {
                        self.bytes[a]
                    },
            ),
            ..self
        }
    }

    /// Whether `reply` is what a platform that neither lies nor misbehaves
    /// can answer when it performs `action` on this memory: a read reports
    /// what the memory holds, and an allocation hands out addresses that
    /// were not in use.
    pub open spec fn truthful(self, action: ActionView, reply: ReplyView) -> bool {
        &&& answers(action, reply)
        &&& match (action, reply) {
            (ActionView::Read { address, length }, ReplyView::Bytes(bytes)) => bytes == self.read(
                address as int,
                length as nat,
            ),
            (ActionView::Allocate { length }, ReplyView::Allocated { address }) => range(
                address as int,
                length as int,
            ).disjoint(self.mapped),
            _ => true,
        }
    }

    /// This memory after `action` was performed and answered with `reply`.
    /// A failed action changes nothing. A write stores its bytes, and an
    /// allocation takes its block into use; nothing else changes what the
    /// memory holds.
    pub open spec fn after(self, action: ActionView, reply: ReplyView) -> Memory {
        match (action, reply) {
            (ActionView::Write { address, bytes }, ReplyView::Written) => self.write(
                address as int,
                bytes,
            ),
            (ActionView::Allocate { length }, ReplyView::Allocated { address }) => Memory {
                mapped: self.mapped.union(range(address as int, length as int)),
                ..self
            },
            _ => self,
        }
    }
}

/// Reading inside what was just written yields that part of the written
/// bytes.
pub proof fn lemma_read_written(memory: Memory, address: int, data: Seq<u8>, from: nat, length: nat)
    requires
        from + length <= data.len(),
    ensures
        memory.write(address, data).read(address + from, length) == data.subrange(
            from as int,
            (from + length) as int,
        ),
{
    assert(memory.write(address, data).read(address + from, length) =~= data.subrange(
        from as int,
        (from + length) as int,
    ));
}

/// A write leaves every range that it does not touch as it was.
pub proof fn lemma_read_elsewhere(
    memory: Memory,
    address: int,
    data: Seq<u8>,
    other: int,
    length: nat,
)
    requires
        range(address, data.len() as int).disjoint(range(other, length as int)),
    ensures
        memory.write(address, data).read(other, length) == memory.read(other, length),
{
    let written = memory.write(address, data).read(other, length);
    assert forall|i: int| 0 <= i < length implies #[trigger] written[i] == memory.read(
        other,
        length,
    )[i] by {
        assert(range(other, length as int).contains(other + i));
        assert(!range(address, data.len() as int).contains(other + i));
    }
    assert(written =~= memory.read(other, length));
}

} // verus!
