//! The inline hook: a jump written over the first bytes of a function.

use crate::error::Error;
use crate::jump::{
    encode_jump, jump_encoding, jump_size, lemma_jump_encoding_len, supported, FILLER,
};
use crate::platform::{
    answers, outcome, Action, ActionView, Memory, Protection, Reply, ReplyView,
};
use vstd::prelude::*;

verus! {

/// Where a hook stands in its life.
///
/// Installing runs through the four `Install` stages and ends in
/// `Installed`; removing runs through the three `Remove` stages and ends in
/// `Inactive`. In every stage but `Installed` and `Inactive` one action is
/// waiting for the platform's reply.
#[derive(Debug, Clone, Copy, PartialEq, Eq, Structural)]
pub enum Stage {
    /// Installing: the region is being made writable.
    InstallProtect,
    /// Installing: the original bytes are being copied out.
    InstallRead,
    /// Installing: the jump and the filler are being written.
    InstallWrite,
    /// Installing: the region's protection is being given back.
    InstallRestore,
    /// The jump is in place.
    Installed,
    /// Removing: the region is being made writable.
    RemoveProtect,
    /// Removing: the original bytes are being written back.
    RemoveWrite,
    /// Removing: the region's protection is being given back.
    RemoveRestore,
    /// The hook was removed, or its installation failed. It stays here.
    Inactive,
}

/// A [`Hook`] as a mathematical value.
pub struct HookState {
    /// Address of the first byte of the patch region.
    pub source: usize,
    /// Length of the patch region.
    pub length: usize,
    /// What installing writes over the region: the jump, then filler.
    pub patch: Seq<u8>,
    /// What the region held before it was patched, once that was read.
    pub saved: Seq<u8>,
    /// The protection that the platform last reported for the region.
    pub previous: u32,
    /// Where the hook stands in its life.
    pub stage: Stage,
}

/// What installing writes over a patch region of `length` bytes: the jump
/// to `destination`, followed by filler up to the end of the region.
pub open spec fn patch_bytes(source: int, destination: int, length: nat, width: u32) -> Seq<u8> {
    jump_encoding(source, destination, width) + Seq::new(
        (length - jump_size(width)) as nat,
        |i: int| FILLER,
    )
}

impl HookState {
    /// The state in which a hook starts: nothing has been done yet, and the
    /// first action of the installation is waiting.
    pub open spec fn begin(source: usize, destination: usize, length: usize, width: u32) -> HookState {
        HookState {
            source,
            length,
            patch: patch_bytes(source as int, destination as int, length as nat, width),
            saved: Seq::new(length as nat, |i: int| FILLER),
            previous: 0,
            stage: Stage::InstallProtect,
        }
    }

    /// The patch and the saved bytes are both as long as the region.
    pub open spec fn well_formed(self) -> bool {
        &&& self.patch.len() == self.length
        &&& self.saved.len() == self.length
    }

    /// Whether the jump is in place, as far as the hook knows. A hook that
    /// is being removed counts as active until the removal has succeeded.
    pub open spec fn active(self) -> bool {
        self.stage is Installed || self.removing()
    }

    /// Whether the hook is in the middle of being installed.
    pub open spec fn installing(self) -> bool {
        self.stage is InstallProtect || self.stage is InstallRead || self.stage is InstallWrite
            || self.stage is InstallRestore
    }

    /// Whether the hook is in the middle of being removed.
    pub open spec fn removing(self) -> bool {
        self.stage is RemoveProtect || self.stage is RemoveWrite || self.stage is RemoveRestore
    }

    /// The action that is waiting for the platform's reply, if any.
    pub open spec fn pending(self) -> Option<ActionView> {
        match self.stage {
            Stage::InstallProtect | Stage::RemoveProtect => Some(
                ActionView::Protect {
                    address: self.source,
                    length: self.length,
                    protection: Protection::ReadWriteExecute,
                },
            ),
            Stage::InstallRead => Some(
                ActionView::Read { address: self.source, length: self.length },
            ),
            Stage::InstallWrite => Some(
                ActionView::Write { address: self.source, bytes: self.patch },
            ),
            Stage::RemoveWrite => Some(
                ActionView::Write { address: self.source, bytes: self.saved },
            ),
            Stage::InstallRestore | Stage::RemoveRestore => Some(
                ActionView::Protect {
                    address: self.source,
                    length: self.length,
                    protection: Protection::Previous(self.previous),
                },
            ),
            Stage::Installed | Stage::Inactive => None,
        }
    }

    /// Whether `reply` answers the pending action.
    pub open spec fn accepts(self, reply: ReplyView) -> bool {
        self.pending() matches Some(action) && answers(action, reply)
    }

    /// The state after `reply` came in for the pending action.
    ///
    /// A failure ends the operation at once and asks for nothing more: an
    /// installation is given up, and a removal leaves the hook installed.
    /// A success moves on to the next stage, keeping what the reply reported.
    pub open spec fn resume(self, reply: ReplyView) -> HookState {
        match reply {
            ReplyView::Failed { .. } => HookState {
                stage: if self.removing() {
                    Stage::Installed
                } else {
                    Stage::Inactive
                },
                ..self
            },
            ReplyView::Protected { previous } => match self.stage {
                Stage::InstallProtect => HookState { previous, stage: Stage::InstallRead, ..self },
                Stage::InstallRestore => HookState { stage: Stage::Installed, ..self },
                Stage::RemoveProtect => HookState { previous, stage: Stage::RemoveWrite, ..self },
                Stage::RemoveRestore => HookState { stage: Stage::Inactive, ..self },
                _ => self,
            },
            ReplyView::Bytes(bytes) => match self.stage {
                Stage::InstallRead => HookState { saved: bytes, stage: Stage::InstallWrite, ..self },
                _ => self,
            },
            ReplyView::Written => match self.stage {
                Stage::InstallWrite => HookState { stage: Stage::InstallRestore, ..self },
                Stage::RemoveWrite => HookState { stage: Stage::RemoveRestore, ..self },
                _ => self,
            },
            _ => self,
        }
    }

    /// The state after removal was asked for: an installed hook starts its
    /// removal, any other hook stays as it is.
    pub open spec fn unhook(self) -> HookState {
        if self.stage is Installed {
            HookState { stage: Stage::RemoveProtect, ..self }
        } else {
            self
        }
    }

    /// Where the hook and the memory stand after the platform has answered
    /// with `replies`, one pending action after the other, or `None` if one
    /// of the replies is not a truthful answer to the action that was
    /// pending when it came.
    pub open spec fn run(self, memory: Memory, replies: Seq<ReplyView>) -> Option<
        (HookState, Memory),
    >
        decreases replies.len(),
    {
        if replies.len() == 0 {
            Some((self, memory))
        } else {
            match self.pending() {
                Some(action) => if memory.truthful(action, replies[0]) {
                    self.resume(replies[0]).run(
                        memory.after(action, replies[0]),
                        replies.drop_first(),
                    )
                } else {
                    None
                },
                None => None,
            }
        }
    }
}

/// A 32 or 64 bit inline hook.
///
/// [`Hook::hook`] validates the request and prepares the installation; the
/// hook is active once every action of the installation has been answered
/// with success. [`Hook::unhook`] starts the removal in the same way.
#[derive(Debug)]
pub struct Hook {
    source: usize,
    length: usize,
    patch: Vec<u8>,
    saved: Vec<u8>,
    previous: u32,
    stage: Stage,
}

impl View for Hook {
    type V = HookState;

    closed spec fn view(&self) -> HookState {
        HookState {
            source: self.source,
            length: self.length,
            patch: self.patch@,
            saved: self.saved@,
            previous: self.previous,
            stage: self.stage,
        }
    }
}

impl Hook {
    #[verifier::type_invariant]
    spec fn inv(self) -> bool {
        self@.well_formed()
    }

    /// Prepares a hook that redirects the function at `source` to
    /// `destination` by overwriting its first `length` bytes, in a process
    /// of the running architecture.
    ///
    /// The request is refused with `InvalidTarget` if the pointer width of
    /// the running architecture is neither 32 nor 64 bits, and with
    /// `TooSmall` if the jump does not fit into `length` bytes. No action
    /// has been requested from the platform when either is returned.
    /// Otherwise the hook is returned with the first action of its
    /// installation pending.
    pub fn hook(source: usize, destination: usize, length: usize) -> (result: Result<Hook, Error>)
        ensures
            !supported(usize::BITS) ==> result is Err && result->Err_0 == Error::InvalidTarget,
            supported(usize::BITS) && length < jump_size(usize::BITS) ==> result is Err
                && result->Err_0 == Error::TooSmall,
            supported(usize::BITS) && length >= jump_size(usize::BITS) ==> result is Ok
                && result->Ok_0@ == HookState::begin(source, destination, length, usize::BITS),
    {
        Hook::hook_for(source, destination, length, usize::BITS)
    }

    /// Prepares a hook as [`Hook::hook`] does, for a target whose pointers
    /// are `width` bits wide.
    pub fn hook_for(source: usize, destination: usize, length: usize, width: u32) -> (result:
        Result<Hook, Error>)
        ensures
            !supported(width) ==> result is Err && result->Err_0 == Error::InvalidTarget,
            supported(width) && length < jump_size(width) ==> result is Err && result->Err_0
                == Error::TooSmall,
            supported(width) && length >= jump_size(width) ==> result is Ok && result->Ok_0@
                == HookState::begin(source, destination, length, width),
    {
        let mut patch = match encode_jump(source, destination, width) {
            Ok(code) => code,
            Err(error) => {
                return Err(error);
            },
        };
        proof {
            lemma_jump_encoding_len(source as int, destination as int, width);
        }
        if length < patch.len() {
            return Err(Error::TooSmall);
        }
        let ghost jump = patch@;
        patch.resize(length, FILLER);
        let saved: Vec<u8> = vec![FILLER; length];
        proof {
            assert(patch@ =~= patch_bytes(
                source as int,
                destination as int,
                length as nat,
                width,
            )) by {
                assert(patch@.subrange(0, jump.len() as int) == jump);
                assert forall|i: int| 0 <= i < jump.len() implies patch@[i] == jump[i] by {
                    assert(patch@.subrange(0, jump.len() as int)[i] == patch@[i]);
                }
            }
            assert(saved@ =~= Seq::new(length as nat, |i: int| FILLER));
        }
        Ok(Hook { source, length, patch, saved, previous: 0, stage: Stage::InstallProtect })
    }

    /// The action that the platform has to perform next, or `None` when the
    /// hook is at rest.
    pub fn pending(&self) -> (action: Option<Action>)
        ensures
            match action {
                Some(action) => self@.pending() == Some(action@),
                None => self@.pending() is None,
            },
    {
        match self.stage {
            Stage::InstallProtect | Stage::RemoveProtect => Some(
                Action::Protect {
                    address: self.source,
                    length: self.length,
                    protection: Protection::ReadWriteExecute,
                },
            ),
            Stage::InstallRead => Some(Action::Read { address: self.source, length: self.length }),
            Stage::InstallWrite => Some(
                Action::Write { address: self.source, bytes: self.patch.clone() },
            ),
            Stage::RemoveWrite => Some(
                Action::Write { address: self.source, bytes: self.saved.clone() },
            ),
            Stage::InstallRestore | Stage::RemoveRestore => Some(
                Action::Protect {
                    address: self.source,
                    length: self.length,
                    protection: Protection::Previous(self.previous),
                },
            ),
            Stage::Installed | Stage::Inactive => None,
        }
    }

    /// Whether `reply` answers the pending action, so that it may be handed
    /// to [`Hook::resume`].
    pub fn accepts(&self, reply: &Reply) -> (fits: bool)
        ensures
            fits == self@.accepts(reply@),
    {
        match self.stage {
            Stage::Installed | Stage::Inactive => false,
            Stage::InstallProtect | Stage::RemoveProtect | Stage::InstallRestore
            | Stage::RemoveRestore => match reply {
                Reply::Failed { .. } | Reply::Protected { .. } => true,
                _ => false,
            },
            Stage::InstallRead => match reply {
                Reply::Failed { .. } => true,
                Reply::Bytes(bytes) => bytes.len() == self.length,
                _ => false,
            },
            Stage::InstallWrite | Stage::RemoveWrite => match reply {
                Reply::Failed { .. } | Reply::Written => true,
                _ => false,
            },
        }
    }

    /// Takes the platform's reply to the pending action and moves on.
    ///
    /// A failure is returned as `PlatformFailure` and ends the operation:
    /// nothing more is pending, a hook that was being installed is inactive
    /// for good, and a hook that was being removed is still installed. Any
    /// other reply returns `Ok`; the operation is complete when nothing is
    /// pending any more.
    pub fn resume(&mut self, reply: Reply) -> (result: Result<(), Error>)
        requires
            old(self)@.accepts(reply@),
        ensures
            final(self)@ == old(self)@.resume(reply@),
            result == outcome(reply@),
        no_unwind
    {
        proof {
            use_type_invariant(&*self);
        }
        match reply {
            Reply::Failed { code } => {
                self.stage = match self.stage {
                    Stage::RemoveProtect | Stage::RemoveWrite | Stage::RemoveRestore => {
                        Stage::Installed
                    },
                    _ => Stage::Inactive,
                };
                Err(Error::PlatformFailure { code })
            },
            Reply::Protected { previous } => {
                match self.stage {
                    Stage::InstallProtect => {
                        self.previous = previous;
                        self.stage = Stage::InstallRead;
                    },
                    Stage::InstallRestore => {
                        self.stage = Stage::Installed;
                    },
                    Stage::RemoveProtect => {
                        self.previous = previous;
                        self.stage = Stage::RemoveWrite;
                    },
                    Stage::RemoveRestore => {
                        self.stage = Stage::Inactive;
                    },
                    _ => {},
                }
                Ok(())
            },
            Reply::Bytes(bytes) => {
                self.saved = bytes;
                self.stage = Stage::InstallWrite;
                Ok(())
            },
            Reply::Written => {
                match self.stage {
                    Stage::InstallWrite => {
                        self.stage = Stage::InstallRestore;
                    },
                    Stage::RemoveWrite => {
                        self.stage = Stage::RemoveRestore;
                    },
                    _ => {},
                }
                Ok(())
            },
            _ => Ok(()),
        }
    }

    /// Starts removing the hook: on an installed hook the first action of
    /// the removal is pending afterwards. On a hook that is not installed,
    /// or whose installation or removal is under way, this changes nothing.
    pub fn unhook(&mut self)
        ensures
            final(self)@ == old(self)@.unhook(),
        no_unwind
    {
        proof {
            use_type_invariant(&*self);
        }
        match self.stage {
            Stage::Installed => {
                self.stage = Stage::RemoveProtect;
            },
            _ => {},
        }
    }

    /// Address of the first byte of the patch region.
    pub fn source(&self) -> (source: usize)
        ensures
            source == self@.source,
    {
        self.source
    }

    /// Length of the patch region in bytes.
    pub fn length(&self) -> (length: usize)
        ensures
            length == self@.length,
    {
        self.length
    }

    /// Where the hook stands in its life.
    pub fn stage(&self) -> (stage: Stage)
        ensures
            stage == self@.stage,
    {
        self.stage
    }

    /// Whether the jump is in place, as far as the hook knows.
    pub fn active(&self) -> (active: bool)
        ensures
            active == self@.active(),
    {
        match self.stage {
            Stage::Installed | Stage::RemoveProtect | Stage::RemoveWrite
            | Stage::RemoveRestore => true,
            _ => false,
        }
    }
}

} // verus!
