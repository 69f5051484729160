//! The trampoline hook: an inline hook that keeps the original function
//! callable through a gateway.

use crate::error::Error;
use crate::hook::{Hook, HookState, Stage};
use crate::jump::{encode_supported_jump, jump_encoding, jump_size, minimum_length, supported};
use crate::platform::{answers, outcome, Action, ActionView, Memory, Reply, ReplyView};
use vstd::prelude::*;

verus! {

/// Where a trampoline hook stands in its life.
#[derive(Debug, Clone, Copy, PartialEq, Eq, Structural)]
pub enum TrampolineStage {
    /// The gateway is being allocated.
    Allocate,
    /// The original bytes are being copied out for the gateway.
    Copy,
    /// The gateway is being filled.
    Build,
    /// The gateway stands; what happens next is up to the inline hook.
    Inner,
    /// The gateway is being released.
    Release,
    /// The gateway could not be set up. The hook stays here.
    Failed,
}

/// A [`TrampolineHook`] as a mathematical value.
pub struct TrampolineState {
    /// Pointer width of the target in bits.
    pub width: u32,
    /// Address of the gateway, once it was allocated.
    pub gateway: usize,
    /// What is written into the gateway: first only the jump back, then the
    /// original bytes followed by the jump back.
    pub stub: Seq<u8>,
    /// Where the hook stands in its life.
    pub stage: TrampolineStage,
    /// The inline hook that performs the redirect.
    pub hook: HookState,
}

/// The contents of a gateway at `gateway` for a patch region at `source`
/// that held `original`: those bytes, then a jump from behind them to the
/// first instruction behind the region.
pub open spec fn gateway_bytes(gateway: int, source: int, original: Seq<u8>, width: u32) -> Seq<u8> {
    original + jump_encoding(gateway + original.len(), source + original.len(), width)
}

impl TrampolineState {
    /// The state in which a trampoline hook starts.
    pub open spec fn begin(
        source: usize,
        destination: usize,
        length: usize,
        width: u32,
    ) -> TrampolineState {
        TrampolineState {
            width,
            gateway: 0,
            stub: Seq::empty(),
            stage: TrampolineStage::Allocate,
            hook: HookState::begin(source, destination, length, width),
        }
    }

    /// Size of the gateway: the patch region and one jump.
    pub open spec fn block(self) -> int {
        self.hook.length + jump_size(self.width)
    }

    /// The pointer width is supported, the inline hook is well formed, the
    /// patch region and the gateway's size lie within the address space,
    /// and so does the gateway once it was allocated. Until the gateway
    /// stands the inline hook has not begun its installation, and what is
    /// to be written into the gateway is exactly as large as the gateway.
    pub open spec fn well_formed(self) -> bool {
        &&& supported(self.width)
        &&& self.hook.well_formed()
        &&& self.hook.source + self.hook.length <= usize::MAX
        &&& self.block() <= usize::MAX
        &&& (self.stage is Allocate || self.stage is Failed || self.gateway + self.block()
            <= usize::MAX)
        &&& (self.stage is Inner || self.stage is Release || self.hook.stage is InstallProtect)
        &&& (self.stage is Release ==> self.hook.stage is Installed)
        &&& (self.stage is Copy ==> self.stub.len() == jump_size(self.width))
        &&& (self.stage is Build ==> self.stub.len() == self.block())
    }

    /// Mirrors the inline hook.
    pub open spec fn active(self) -> bool {
        self.hook.active()
    }

    /// The action that is waiting for the platform's reply, if any.
    pub open spec fn pending(self) -> Option<ActionView> {
        match self.stage {
            TrampolineStage::Allocate => Some(
                ActionView::Allocate { length: self.block() as usize },
            ),
            TrampolineStage::Copy => Some(
                ActionView::Read { address: self.hook.source, length: self.hook.length },
            ),
            TrampolineStage::Build => Some(
                ActionView::Write { address: self.gateway, bytes: self.stub },
            ),
            TrampolineStage::Inner => self.hook.pending(),
            TrampolineStage::Release => Some(ActionView::Free { address: self.gateway }),
            TrampolineStage::Failed => None,
        }
    }

    /// Whether `reply` answers the pending action.
    pub open spec fn accepts(self, reply: ReplyView) -> bool {
        self.pending() matches Some(action) && answers(action, reply)
    }

    /// The state after `reply` came in for the pending action.
    ///
    /// While the gateway is set up, a failure gives the hook up. Once the
    /// gateway stands, the reply goes to the inline hook; should its
    /// installation fail, the gateway is not released. A removal releases
    /// the gateway first and only then starts removing the inline hook; if
    /// the release fails, the hook stays installed.
    pub open spec fn resume(self, reply: ReplyView) -> TrampolineState {
        match self.stage {
            TrampolineStage::Allocate => match reply {
                ReplyView::Allocated { address } => TrampolineState {
                    gateway: address,
                    stub: jump_encoding(
                        address + self.hook.length,
                        self.hook.source + self.hook.length,
                        self.width,
                    ),
                    stage: TrampolineStage::Copy,
                    ..self
                },
                ReplyView::Failed { .. } => TrampolineState {
                    stage: TrampolineStage::Failed,
                    ..self
                },
                _ => self,
            },
            TrampolineStage::Copy => match reply {
                ReplyView::Bytes(bytes) => TrampolineState {
                    stub: bytes + self.stub,
                    stage: TrampolineStage::Build,
                    ..self
                },
                ReplyView::Failed { .. } => TrampolineState {
                    stage: TrampolineStage::Failed,
                    ..self
                },
                _ => self,
            },
            TrampolineStage::Build => match reply {
                ReplyView::Written => TrampolineState { stage: TrampolineStage::Inner, ..self },
                ReplyView::Failed { .. } => TrampolineState {
                    stage: TrampolineStage::Failed,
                    ..self
                },
                _ => self,
            },
            TrampolineStage::Inner => TrampolineState { hook: self.hook.resume(reply), ..self },
            TrampolineStage::Release => match reply {
                ReplyView::Freed => TrampolineState {
                    stage: TrampolineStage::Inner,
                    hook: self.hook.unhook(),
                    ..self
                },
                ReplyView::Failed { .. } => TrampolineState {
                    stage: TrampolineStage::Inner,
                    ..self
                },
                _ => self,
            },
            TrampolineStage::Failed => self,
        }
    }

    /// The state after removal was asked for: a hook that is installed and
    /// at rest starts by releasing its gateway, any other hook stays as it
    /// is.
    pub open spec fn unhook(self) -> TrampolineState {
        if self.stage is Inner && self.hook.stage is Installed {
            TrampolineState { stage: TrampolineStage::Release, ..self }
        } else {
            self
        }
    }

    /// Where the hook and the memory stand after the platform has answered
    /// with `replies`, one pending action after the other, or `None` if one
    /// of the replies is not a truthful answer to the action that was
    /// pending when it came.
    pub open spec fn run(self, memory: Memory, replies: Seq<ReplyView>) -> Option<
        (TrampolineState, Memory),
    >
        decreases replies.len(),
    {
        if replies.len() == 0 {
            Some((self, memory))
        } else {
            match self.pending() {
                Some(action) => if memory.truthful(action, replies[0]) {
                    self.resume(replies[0]).run(
                        memory.after(action, replies[0]),
                        replies.drop_first(),
                    )
                } else {
                    None
                },
                None => None,
            }
        }
    }
}

/// A 32 or 64 bit trampoline hook.
///
/// Besides redirecting the function, it keeps a gateway: a block of
/// executable memory that holds the overwritten instructions and a jump
/// back into the function behind them. Calling the gateway runs the
/// function as it was before it was hooked.
///
/// Two limitations are known. If the inline hook cannot be installed, the
/// gateway that was allocated for it is not released. And a removal
/// releases the gateway before it restores the patch region: if restoring
/// then fails, the hook is still installed, but its gateway is gone.
#[derive(Debug)]
pub struct TrampolineHook {
    width: u32,
    gateway: usize,
    block: usize,
    stub: Vec<u8>,
    stage: TrampolineStage,
    hook: Hook,
}

impl View for TrampolineHook {
    type V = TrampolineState;

    closed spec fn view(&self) -> TrampolineState {
        TrampolineState {
            width: self.width,
            gateway: self.gateway,
            stub: self.stub@,
            stage: self.stage,
            hook: self.hook@,
        }
    }
}

impl TrampolineHook {
    #[verifier::type_invariant]
    spec fn inv(self) -> bool {
        &&& supported(self.width)
        &&& self.block == self@.block()
        &&& self@.hook.source + self@.hook.length <= usize::MAX
        &&& (self.stage is Allocate || self.stage is Failed || self.gateway + self.block
            <= usize::MAX)
        &&& (self.stage is Release ==> self@.hook.stage is Installed)
    }

    /// Prepares a hook that redirects the function at `source` to
    /// `destination` by overwriting its first `length` bytes, and that keeps
    /// a gateway to the function as it was, in a process of the running
    /// architecture.
    ///
    /// The request is validated as for [`Hook::hook`]; nothing has been
    /// requested from the platform when it is refused. Otherwise the hook
    /// is returned with the allocation of its gateway pending.
    ///
    /// The patch region has to lie within the address space, and the size
    /// of the gateway, which is `length` and one jump, has to be a size.
    pub fn hook(source: usize, destination: usize, length: usize) -> (result: Result<
        TrampolineHook,
        Error,
    >)
        requires
            source + length <= usize::MAX,
            length + jump_size(usize::BITS) <= usize::MAX,
        ensures
            !supported(usize::BITS) ==> result is Err && result->Err_0 == Error::InvalidTarget,
            supported(usize::BITS) && length < jump_size(usize::BITS) ==> result is Err
                && result->Err_0 == Error::TooSmall,
            supported(usize::BITS) && length >= jump_size(usize::BITS) ==> result is Ok
                && result->Ok_0@ == TrampolineState::begin(
                source,
                destination,
                length,
                usize::BITS,
            ),
    {
        TrampolineHook::hook_for(source, destination, length, usize::BITS)
    }

    /// Prepares a hook as [`TrampolineHook::hook`] does, for a target whose
    /// pointers are `width` bits wide.
    pub fn hook_for(source: usize, destination: usize, length: usize, width: u32) -> (result:
        Result<TrampolineHook, Error>)
        requires
            source + length <= usize::MAX,
            length + jump_size(width) <= usize::MAX,
        ensures
            !supported(width) ==> result is Err && result->Err_0 == Error::InvalidTarget,
            supported(width) && length < jump_size(width) ==> result is Err && result->Err_0
                == Error::TooSmall,
            supported(width) && length >= jump_size(width) ==> result is Ok && result->Ok_0@
                == TrampolineState::begin(source, destination, length, width),
    {
        let minimum = match minimum_length(width) {
            Ok(minimum) => minimum,
            Err(error) => {
                return Err(error);
            },
        };
        let hook = match Hook::hook_for(source, destination, length, width) {
            Ok(hook) => hook,
            Err(error) => {
                return Err(error);
            },
        };
        Ok(
            TrampolineHook {
                width,
                gateway: 0,
                block: length + minimum,
                stub: Vec::new(),
                stage: TrampolineStage::Allocate,
                hook,
            },
        )
    }

    /// The action that the platform has to perform next, or `None` when the
    /// hook is at rest.
    pub fn pending(&self) -> (action: Option<Action>)
        ensures
            match action {
                Some(action) => self@.pending() == Some(action@),
                None => self@.pending() is None,
            },
    {
        proof {
            use_type_invariant(self);
        }
        match self.stage {
            TrampolineStage::Allocate => Some(Action::Allocate { length: self.block }),
            TrampolineStage::Copy => Some(
                Action::Read { address: self.hook.source(), length: self.hook.length() },
            ),
            TrampolineStage::Build => Some(
                Action::Write { address: self.gateway, bytes: self.stub.clone() },
            ),
            TrampolineStage::Inner => self.hook.pending(),
            TrampolineStage::Release => Some(Action::Free { address: self.gateway }),
            TrampolineStage::Failed => None,
        }
    }

    /// Whether `reply` answers the pending action, so that it may be handed
    /// to [`TrampolineHook::resume`].
    pub fn accepts(&self, reply: &Reply) -> (fits: bool)
        ensures
            fits == self@.accepts(reply@),
    {
        proof {
            use_type_invariant(self);
        }
        match self.stage {
            TrampolineStage::Allocate => match reply {
                Reply::Failed { .. } => true,
                Reply::Allocated { address } => *address <= usize::MAX - self.block,
                _ => false,
            },
            TrampolineStage::Copy => match reply {
                Reply::Failed { .. } => true,
                Reply::Bytes(bytes) => bytes.len() == self.hook.length(),
                _ => false,
            },
            TrampolineStage::Build => match reply {
                Reply::Failed { .. } | Reply::Written => true,
                _ => false,
            },
            TrampolineStage::Inner => self.hook.accepts(reply),
            TrampolineStage::Release => match reply {
                Reply::Failed { .. } | Reply::Freed => true,
                _ => false,
            },
            TrampolineStage::Failed => false,
        }
    }

    /// Takes the platform's reply to the pending action and moves on.
    ///
    /// A failure is returned as `PlatformFailure` and ends the operation;
    /// any other reply returns `Ok`. The operation is complete when nothing
    /// is pending any more.
    pub fn resume(&mut self, reply: Reply) -> (result: Result<(), Error>)
        requires
            old(self)@.accepts(reply@),
        ensures
            final(self)@ == old(self)@.resume(reply@),
            result == outcome(reply@),
    {
        proof {
            use_type_invariant(&*self);
        }
        match self.stage {
            TrampolineStage::Allocate => match reply {
                Reply::Allocated { address } => {
                    let behind = self.hook.source() + self.hook.length();
                    self.stub = encode_supported_jump(
                        address + self.hook.length(),
                        behind,
                        self.width,
                    );
                    self.gateway = address;
                    self.stage = TrampolineStage::Copy;
                    Ok(())
                },
                Reply::Failed { code } => {
                    self.stage = TrampolineStage::Failed;
                    Err(Error::PlatformFailure { code })
                },
                _ => Ok(()),
            },
            TrampolineStage::Copy => match reply {
                Reply::Bytes(bytes) => {
                    let mut stub = bytes;
                    stub.extend_from_slice(self.stub.as_slice());
                    proof {
                        assert(stub@ =~= bytes@ + self.stub@);
                    }
                    self.stub = stub;
                    self.stage = TrampolineStage::Build;
                    Ok(())
                },
                Reply::Failed { code } => {
                    self.stage = TrampolineStage::Failed;
                    Err(Error::PlatformFailure { code })
                },
                _ => Ok(()),
            },
            TrampolineStage::Build => match reply {
                Reply::Written => {
                    self.stage = TrampolineStage::Inner;
                    Ok(())
                },
                Reply::Failed { code } => {
                    self.stage = TrampolineStage::Failed;
                    Err(Error::PlatformFailure { code })
                },
                _ => Ok(()),
            },
            TrampolineStage::Inner => self.hook.resume(reply),
            TrampolineStage::Release => match reply {
                Reply::Freed => {
                    self.stage = TrampolineStage::Inner;
                    self.hook.unhook();
                    Ok(())
                },
                Reply::Failed { code } => {
                    self.stage = TrampolineStage::Inner;
                    Err(Error::PlatformFailure { code })
                },
                _ => Ok(()),
            },
            TrampolineStage::Failed => Ok(()),
        }
    }

    /// Starts removing the hook: on an installed hook the release of the
    /// gateway is pending afterwards. On a hook that is not installed, or
    /// whose installation or removal is under way, this changes nothing.
    pub fn unhook(&mut self)
        ensures
            final(self)@ == old(self)@.unhook(),
    {
        proof {
            use_type_invariant(&*self);
        }
        match (self.stage, self.hook.stage()) {
            (TrampolineStage::Inner, Stage::Installed) => {
                self.stage = TrampolineStage::Release;
            },
            _ => {},
        }
    }

    /// Where the hook stands in its life.
    pub fn stage(&self) -> (stage: TrampolineStage)
        ensures
            stage == self@.stage,
    {
        self.stage
    }

    /// Whether the jump is in place, as far as the hook knows.
    pub fn active(&self) -> (active: bool)
        ensures
            active == self@.active(),
    {
        self.hook.active()
    }

    /// Address of the gateway. It is the address that the platform
    /// allocated, and zero as long as none was allocated.
    pub fn gateway(&self) -> (gateway: usize)
        ensures
            gateway == self@.gateway,
    {
        self.gateway
    }
}

} // verus!
