//! What the engine achieves when the platform answers truthfully.
//!
//! The statements here follow a hook through whole operations. They are
//! phrased over [`HookState::run`] and [`TrampolineState::run`], which feed
//! a sequence of truthful replies to the engine and apply each action to a
//! model of the address space.

use crate::hook::{patch_bytes, HookState, Stage};
use crate::jump::{
    absolute_jump, is_jump, jump_encoding, jump_size, jump_target, lemma_jump_encoding_len,
    lemma_little_endian_len, lemma_little_endian_value, little_endian, near_jump, radix, supported, FILLER,
};
use crate::platform::{
    lemma_read_elsewhere, lemma_read_written, outcome, range, ActionView, Memory, Protection,
    ReplyView,
};
use crate::trampoline::{gateway_bytes, TrampolineState};
use vstd::prelude::*;

verus! {

/// The encoding of a jump is a jump instruction, and the address to which
/// that instruction leads is the destination that was encoded. This holds
/// wherever the jump stands, for every destination that the pointer width
/// can address.
pub proof fn law_jump_resolves(source: int, destination: int, width: u32)
    requires
        supported(width),
        0 <= destination,
        width == 32 ==> destination < 0x1_0000_0000,
        width == 64 ==> destination < 0x1_0000_0000_0000_0000,
    ensures
        is_jump(jump_encoding(source, destination, width), width),
        jump_target(jump_encoding(source, destination, width), source, width) == destination,
{
    let code = jump_encoding(source, destination, width);
    lemma_jump_encoding_len(source, destination, width);
    if width == 32 {
        let displacement = destination - source - 5;
        lemma_little_endian_len(displacement, 4);
        lemma_little_endian_value(displacement, 4);
        assert(code.subrange(1, 5) =~= little_endian(displacement, 4));
        assert(radix(4) == 0x1_0000_0000) by {
            reveal_with_fuel(radix, 5);
        }
    } else {
        lemma_little_endian_len(destination, 8);
        lemma_little_endian_value(destination, 8);
        assert(code.subrange(6, 14) =~= little_endian(destination, 8));
        assert(code.subrange(0, 6) =~= seq![0xFFu8, 0x25u8, 0u8, 0u8, 0u8, 0u8]);
        assert(radix(8) == 0x1_0000_0000_0000_0000) by {
            reveal_with_fuel(radix, 9);
        }
    }
}

/// A hook starts well formed whenever its request passes validation.
pub proof fn law_begin_well_formed(source: usize, destination: usize, length: usize, width: u32)
    requires
        supported(width),
        length >= jump_size(width),
    ensures
        HookState::begin(source, destination, length, width).well_formed(),
        !HookState::begin(source, destination, length, width).active(),
{
    lemma_jump_encoding_len(source as int, destination as int, width);
}

/// No reply and no request for removal makes a well-formed hook ill formed,
/// moves its patch region, or changes what it writes over it.
pub proof fn law_well_formed_is_kept(state: HookState, reply: ReplyView)
    requires
        state.well_formed(),
        state.accepts(reply),
    ensures
        state.resume(reply).well_formed(),
        state.unhook().well_formed(),
        state.resume(reply).source == state.source,
        state.resume(reply).length == state.length,
        state.resume(reply).patch == state.patch,
{
}

/// A well-formed hook reads and writes its patch region and nothing else:
/// every read and every write starts at `source` and is exactly `length`
/// bytes long, and every change of protection covers exactly the region.
pub proof fn law_stays_in_bounds(state: HookState)
    requires
        state.well_formed(),
    ensures
        state.pending() matches Some(ActionView::Read { address, length }) ==> address
            == state.source && length == state.length,
        state.pending() matches Some(ActionView::Write { address, bytes }) ==> address
            == state.source && bytes.len() == state.length,
        state.pending() matches Some(ActionView::Protect { address, length, .. }) ==> address
            == state.source && length == state.length,
        !(state.pending() matches Some(ActionView::Allocate { .. })),
        !(state.pending() matches Some(ActionView::Free { .. })),
{
}

/// An installation that brings a hook from its beginning to `Installed`
/// consists of exactly four answers. Afterwards the hook is active, it has
/// saved what the patch region held before, and the memory differs from
/// what it was only in that the region holds the patch.
pub proof fn law_install(
    source: usize,
    destination: usize,
    length: usize,
    width: u32,
    memory: Memory,
    replies: Seq<ReplyView>,
    installed: HookState,
    patched: Memory,
)
    requires
        HookState::begin(source, destination, length, width).run(memory, replies) == Some(
            (installed, patched),
        ),
        installed.stage is Installed,
    ensures
        replies.len() == 4,
        replies[0] is Protected,
        installed.active(),
        installed == (HookState {
            saved: memory.read(source as int, length as nat),
            previous: replies[0]->previous,
            stage: Stage::Installed,
            ..HookState::begin(source, destination, length, width)
        }),
        patched == memory.write(
            source as int,
            HookState::begin(source, destination, length, width).patch,
        ),
{
    reveal_with_fuel(HookState::run, 6);
}

/// After a successful installation the patch region starts with the jump
/// from `source` to `destination`, and holds filler from there to its end.
/// For a 32-bit target the jump is `E9` and the four little-endian bytes of
/// `destination - source - 5`; for a 64-bit target it is
/// `FF 25 00 00 00 00` and the eight little-endian bytes of `destination`.
pub proof fn law_installed_region_holds_jump(
    source: usize,
    destination: usize,
    length: usize,
    width: u32,
    memory: Memory,
    replies: Seq<ReplyView>,
    installed: HookState,
    patched: Memory,
)
    requires
        supported(width),
        length >= jump_size(width),
        HookState::begin(source, destination, length, width).run(memory, replies) == Some(
            (installed, patched),
        ),
        installed.stage is Installed,
    ensures
        patched.read(source as int, jump_size(width)) == jump_encoding(
            source as int,
            destination as int,
            width,
        ),
        width == 32 ==> patched.read(source as int, 5) == near_jump(
            source as int,
            destination as int,
        ),
        width == 64 ==> patched.read(source as int, 14) == absolute_jump(destination as int),
        patched.read(source + jump_size(width), (length - jump_size(width)) as nat)
            == Seq::new((length - jump_size(width)) as nat, |i: int| FILLER),
{
    let size = jump_size(width);
    let patch = patch_bytes(source as int, destination as int, length as nat, width);
    let jump = jump_encoding(source as int, destination as int, width);
    law_install(source, destination, length, width, memory, replies, installed, patched);
    lemma_jump_encoding_len(source as int, destination as int, width);
    lemma_read_written(memory, source as int, patch, 0, size);
    lemma_read_written(memory, source as int, patch, size, (length - size) as nat);
    assert(patch.subrange(0, size as int) =~= jump);
    assert(patch.subrange(size as int, length as int) =~= Seq::new(
        (length - size) as nat,
        |i: int| FILLER,
    ));
}

/// The protection that the platform reported for the patch region when it
/// was made writable is the protection that the hook asks to give back to
/// it as soon as the patch was written.
pub proof fn law_protection_is_given_back(
    source: usize,
    destination: usize,
    length: usize,
    width: u32,
    memory: Memory,
    replies: Seq<ReplyView>,
    written: HookState,
    patched: Memory,
)
    requires
        HookState::begin(source, destination, length, width).run(memory, replies) == Some(
            (written, patched),
        ),
        written.stage is InstallRestore,
    ensures
        replies.len() == 3,
        replies[0] is Protected,
        written.pending() == Some(
            ActionView::Protect {
                address: source,
                length,
                protection: Protection::Previous(replies[0]->previous),
            },
        ),
{
    reveal_with_fuel(HookState::run, 6);
}

/// A removal that brings an installed hook to `Inactive` consists of
/// exactly three answers. Afterwards the hook is inactive, and the memory
/// differs from what it was only in that the patch region holds the saved
/// bytes again.
pub proof fn law_remove(
    installed: HookState,
    memory: Memory,
    replies: Seq<ReplyView>,
    removed: HookState,
    restored: Memory,
)
    requires
        installed.stage is Installed,
        installed.unhook().run(memory, replies) == Some((removed, restored)),
        removed.stage is Inactive,
    ensures
        replies.len() == 3,
        !removed.active(),
        removed.pending() is None,
        restored == memory.write(installed.source as int, installed.saved),
{
    reveal_with_fuel(HookState::run, 5);
}

/// Installing a hook and then removing it leaves the patch region exactly
/// as it was before the hook was installed.
pub proof fn law_hook_unhook_restores(
    source: usize,
    destination: usize,
    length: usize,
    width: u32,
    memory: Memory,
    install: Seq<ReplyView>,
    installed: HookState,
    patched: Memory,
    remove: Seq<ReplyView>,
    removed: HookState,
    restored: Memory,
)
    requires
        HookState::begin(source, destination, length, width).run(memory, install) == Some(
            (installed, patched),
        ),
        installed.stage is Installed,
        installed.unhook().run(patched, remove) == Some((removed, restored)),
        removed.stage is Inactive,
    ensures
        restored.read(source as int, length as nat) == memory.read(source as int, length as nat),
{
    law_install(source, destination, length, width, memory, install, installed, patched);
    law_remove(installed, patched, remove, removed, restored);
    lemma_read_written(patched, source as int, installed.saved, 0, length as nat);
    assert(installed.saved.subrange(0, length as int) =~= installed.saved);
}

/// A hook is inactive before it is installed, active once its installation
/// has succeeded, and inactive again once its removal has succeeded.
pub proof fn law_active_follows_the_hook(
    source: usize,
    destination: usize,
    length: usize,
    width: u32,
    memory: Memory,
    install: Seq<ReplyView>,
    installed: HookState,
    patched: Memory,
    remove: Seq<ReplyView>,
    removed: HookState,
    restored: Memory,
)
    requires
        HookState::begin(source, destination, length, width).run(memory, install) == Some(
            (installed, patched),
        ),
        installed.pending() is None,
        forall|i: int| 0 <= i < install.len() ==> !(#[trigger] install[i] is Failed),
        installed.unhook().run(patched, remove) == Some((removed, restored)),
        removed.pending() is None,
        forall|i: int| 0 <= i < remove.len() ==> !(#[trigger] remove[i] is Failed),
    ensures
        !HookState::begin(source, destination, length, width).active(),
        installed.active(),
        !removed.active(),
{
    reveal_with_fuel(HookState::run, 6);
    assert(install.len() == 4);
    assert(!(install[0] is Failed) && !(install[1] is Failed) && !(install[2] is Failed) && !(
    install[3] is Failed));
    assert(installed.stage is Installed);
    assert(remove.len() == 3);
    assert(!(remove[0] is Failed) && !(remove[1] is Failed) && !(remove[2] is Failed));
}

/// Asking twice for the removal of a hook does no more than asking once:
/// on a hook that is not active the request changes nothing, and on a hook
/// that was removed it leaves nothing for the platform to do.
pub proof fn law_unhook_twice(state: HookState)
    requires
        !state.active(),
    ensures
        state.unhook() == state,
        state.pending() is None ==> state.unhook().pending() is None,
        state.stage is Inactive ==> state.unhook().pending() is None,
{
}

/// An inactive hook stays inactive: it asks for nothing, so no reply can
/// reach it, and a request for removal leaves it as it is.
pub proof fn law_inactive_is_final(state: HookState, reply: ReplyView)
    requires
        state.stage is Inactive,
    ensures
        !state.accepts(reply),
        state.unhook().stage is Inactive,
{
}

/// A failure ends the operation at once. Nothing is pending afterwards; a
/// hook that was being installed is inactive, and a hook that was being
/// removed is still active.
pub proof fn law_failure_ends_the_operation(state: HookState, code: i32)
    requires
        state.pending() is Some,
    ensures
        state.accepts(ReplyView::Failed { code }),
        state.resume(ReplyView::Failed { code }).pending() is None,
        state.resume(ReplyView::Failed { code }).active() == state.removing(),
        outcome(ReplyView::Failed { code }) == Err::<(), crate::error::Error>(
            crate::error::Error::PlatformFailure { code },
        ),
{
}

/// A trampoline hook starts well formed whenever its request passes
/// validation and its patch region and gateway fit into the address space.
pub proof fn law_trampoline_begin_well_formed(source: usize, destination: usize, length: usize, width: u32)
    requires
        supported(width),
        length >= jump_size(width),
        source + length <= usize::MAX,
        length + jump_size(width) <= usize::MAX,
    ensures
        TrampolineState::begin(source, destination, length, width).well_formed(),
        !TrampolineState::begin(source, destination, length, width).active(),
{
    law_begin_well_formed(source, destination, length, width);
}

/// No reply and no request for removal makes a well-formed trampoline hook
/// ill formed or moves its patch region.
pub proof fn law_trampoline_well_formed_is_kept(state: TrampolineState, reply: ReplyView)
    requires
        state.well_formed(),
        state.accepts(reply),
    ensures
        state.resume(reply).well_formed(),
        state.unhook().well_formed(),
        state.resume(reply).hook.source == state.hook.source,
        state.resume(reply).hook.length == state.hook.length,
{
    if state.stage is Allocate && reply is Allocated {
        lemma_jump_encoding_len(
            reply->address + state.hook.length,
            state.hook.source + state.hook.length,
            state.width,
        );
    }
}

/// A well-formed trampoline hook reads only its patch region, and writes
/// only into its patch region and its gateway, never beyond the end of
/// either.
pub proof fn law_trampoline_stays_in_bounds(state: TrampolineState)
    requires
        state.well_formed(),
    ensures
        state.pending() matches Some(ActionView::Read { address, length }) ==> address
            == state.hook.source && length == state.hook.length,
        state.pending() matches Some(ActionView::Write { address, bytes }) ==> {
            ||| address == state.hook.source && bytes.len() == state.hook.length
            ||| address == state.gateway && bytes.len() == state.block() && state.gateway
                + state.block() <= usize::MAX
        },
{
}

/// An installation that brings a trampoline hook from its beginning to an
/// installed inline hook consists of exactly seven answers. Afterwards the
/// hook is active and its gateway is the block that the platform allocated.
/// The gateway starts with the bytes that the patch region held before, and
/// behind them holds the jump to the first instruction behind the region.
/// The region itself holds the patch, and the inline hook has saved what
/// the region held before.
pub proof fn law_trampoline_install(
    source: usize,
    destination: usize,
    length: usize,
    width: u32,
    memory: Memory,
    replies: Seq<ReplyView>,
    installed: TrampolineState,
    patched: Memory,
)
    requires
        supported(width),
        length >= jump_size(width),
        source + length <= usize::MAX,
        length + jump_size(width) <= usize::MAX,
        range(source as int, length as int).subset_of(memory.mapped),
        TrampolineState::begin(source, destination, length, width).run(memory, replies)
            == Some((installed, patched)),
        installed.hook.stage is Installed,
    ensures
        replies.len() == 7,
        replies[0] is Allocated,
        installed.active(),
        installed.stage is Inner,
        installed.gateway == replies[0]->address,
        installed.hook.source == source,
        installed.hook.length == length,
        installed.hook.saved == memory.read(source as int, length as nat),
        patched.read(installed.gateway as int, length as nat) == memory.read(
            source as int,
            length as nat,
        ),
        patched.read(installed.gateway + length, jump_size(width)) == jump_encoding(
            installed.gateway + length,
            source + length,
            width,
        ),
        patched.read(installed.gateway as int, length as nat + jump_size(width)) == gateway_bytes(
            installed.gateway as int,
            source as int,
            memory.read(source as int, length as nat),
            width,
        ),
        patched.read(source as int, length as nat) == patch_bytes(
            source as int,
            destination as int,
            length as nat,
            width,
        ),
{
    reveal_with_fuel(TrampolineState::run, 9);
    reveal_with_fuel(HookState::run, 6);
    let begin = TrampolineState::begin(source, destination, length, width);
    let size = jump_size(width);
    assert(replies.len() == 7);
    let gateway = replies[0]->address;
    let original = memory.read(source as int, length as nat);
    let back = jump_encoding(gateway + length, source + length, width);
    let stub = original + back;
    let patch = begin.hook.patch;
    lemma_jump_encoding_len(gateway + length, source + length, width);
    lemma_jump_encoding_len(source as int, destination as int, width);
    let allocated = Memory {
        mapped: memory.mapped.union(range(gateway as int, length + size)),
        ..memory
    };
    let built = allocated.write(gateway as int, stub);
    assert(range(gateway as int, stub.len() as int).disjoint(range(source as int, length as int)));
    lemma_read_elsewhere(allocated, gateway as int, stub, source as int, length as nat);
    assert(patched == built.write(source as int, patch));
    lemma_read_elsewhere(built, source as int, patch, gateway as int, length as nat);
    lemma_read_elsewhere(built, source as int, patch, gateway + length, size);
    lemma_read_written(allocated, gateway as int, stub, 0, length as nat);
    lemma_read_written(allocated, gateway as int, stub, length as nat, size);
    lemma_read_written(built, source as int, patch, 0, length as nat);
    lemma_read_elsewhere(built, source as int, patch, gateway as int, length as nat + size);
    lemma_read_written(allocated, gateway as int, stub, 0, length as nat + size);
    assert(stub.subrange(0, length + size) =~= stub);
    assert(stub.subrange(0, length as int) =~= original);
    assert(stub.subrange(length as int, length + size) =~= back);
    assert(patch.subrange(0, length as int) =~= patch);
}

/// A removal that brings an installed trampoline hook to an inactive
/// inline hook consists of exactly four answers, the first of which is the
/// release of the gateway. Afterwards the hook is inactive, and the memory
/// differs from what it was only in that the patch region holds the saved
/// bytes again.
pub proof fn law_trampoline_remove(
    installed: TrampolineState,
    memory: Memory,
    replies: Seq<ReplyView>,
    removed: TrampolineState,
    restored: Memory,
)
    requires
        installed.stage is Inner,
        installed.hook.stage is Installed,
        installed.unhook().run(memory, replies) == Some((removed, restored)),
        removed.hook.stage is Inactive,
    ensures
        installed.unhook().pending() == Some(ActionView::Free { address: installed.gateway }),
        replies.len() == 4,
        replies[0] is Freed,
        !removed.active(),
        removed.pending() is None,
        restored == memory.write(installed.hook.source as int, installed.hook.saved),
{
    reveal_with_fuel(TrampolineState::run, 6);
}

/// Installing a trampoline hook and then removing it leaves the patch
/// region exactly as it was before the hook was installed.
pub proof fn law_trampoline_hook_unhook_restores(
    source: usize,
    destination: usize,
    length: usize,
    width: u32,
    memory: Memory,
    install: Seq<ReplyView>,
    installed: TrampolineState,
    patched: Memory,
    remove: Seq<ReplyView>,
    removed: TrampolineState,
    restored: Memory,
)
    requires
        supported(width),
        length >= jump_size(width),
        source + length <= usize::MAX,
        length + jump_size(width) <= usize::MAX,
        range(source as int, length as int).subset_of(memory.mapped),
        TrampolineState::begin(source, destination, length, width).run(memory, install)
            == Some((installed, patched)),
        installed.hook.stage is Installed,
        installed.unhook().run(patched, remove) == Some((removed, restored)),
        removed.hook.stage is Inactive,
    ensures
        restored.read(source as int, length as nat) == memory.read(source as int, length as nat),
{
    law_trampoline_install(
        source,
        destination,
        length,
        width,
        memory,
        install,
        installed,
        patched,
    );
    law_trampoline_remove(installed, patched, remove, removed, restored);
    lemma_read_written(patched, source as int, installed.hook.saved, 0, length as nat);
    assert(installed.hook.saved.subrange(0, length as int) =~= installed.hook.saved);
}

/// Asking twice for the removal of a trampoline hook does no more than
/// asking once: on a hook that is not active the request changes nothing,
/// and on a hook that was removed it leaves nothing for the platform to do.
pub proof fn law_trampoline_unhook_twice(state: TrampolineState)
    requires
        !state.active(),
    ensures
        state.unhook() == state,
        state.pending() is None ==> state.unhook().pending() is None,
        state.stage is Inner && state.hook.stage is Inactive ==> state.unhook().pending() is None,
{
}

/// Should the installation of the inline hook fail, the gateway is not
/// released: the trampoline hook is inactive and asks for nothing more.
pub proof fn law_trampoline_gateway_is_kept_on_failure(state: TrampolineState, code: i32)
    requires
        state.stage is Inner,
        state.hook.installing(),
    ensures
        state.accepts(ReplyView::Failed { code }),
        !state.resume(ReplyView::Failed { code }).active(),
        state.resume(ReplyView::Failed { code }).pending() is None,
        state.resume(ReplyView::Failed { code }).unhook().pending() is None,
{
}

/// A removal releases the gateway before it touches the patch region. If
/// the release fails, the hook is still installed and nothing is pending;
/// if it succeeds, the removal of the inline hook is what comes next.
pub proof fn law_trampoline_release_comes_first(state: TrampolineState, code: i32)
    requires
        state.stage is Inner,
        state.hook.stage is Installed,
    ensures
        state.unhook().pending() == Some(ActionView::Free { address: state.gateway }),
        state.unhook().resume(ReplyView::Failed { code }) == state,
        state.unhook().resume(ReplyView::Freed).stage is Inner,
        state.unhook().resume(ReplyView::Freed).hook == state.hook.unhook(),
{
}

} // verus!
