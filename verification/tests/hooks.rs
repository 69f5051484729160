use trampoline::jump::{encode_jump, minimum_length};
use trampoline::{Action, Error, Hook, Protection, Reply, Stage, TrampolineHook, TrampolineStage};

const READ_WRITE_EXECUTE: u32 = 0x40;
const EXECUTE_READ: u32 = 0x20;

/// A stand-in for the address space: `bytes` holds the memory from `base`
/// on, blocks are handed out from `brk` upwards, and the `fail`-th action
/// that is performed is answered with a failure.
struct Machine {
    base: usize,
    bytes: Vec<u8>,
    protection: u32,
    brk: usize,
    live: Vec<usize>,
    log: Vec<Action>,
    fail: Option<usize>,
}

impl Machine {
    fn new(base: usize, size: usize) -> Machine {
        Machine {
            base,
            bytes: (0..size).map(|i| (i * 7 + 3) as u8).collect(),
            protection: EXECUTE_READ,
            brk: base + size / 2,
            live: Vec::new(),
            log: Vec::new(),
            fail: None,
        }
    }

    fn read(&self, address: usize, length: usize) -> Vec<u8> {
        self.bytes[address - self.base..address - self.base + length].to_vec()
    }

    fn perform(&mut self, action: Action) -> Reply {
        let index = self.log.len();
        self.log.push(action.clone());
        if self.fail == Some(index) {
            return Reply::Failed { code: -2147024891 };
        }
        match action {
            Action::Protect { protection, .. } => {
                let previous = self.protection;
                self.protection = match protection {
                    Protection::ReadWriteExecute => READ_WRITE_EXECUTE,
                    Protection::Previous(flags) => flags,
                };
                Reply::Protected { previous }
            }
            Action::Read { address, length } => Reply::Bytes(self.read(address, length)),
            Action::Write { address, bytes } => {
                let at = address - self.base;
                self.bytes[at..at + bytes.len()].copy_from_slice(&bytes);
                Reply::Written
            }
            Action::Allocate { length } => {
                let address = self.brk;
                self.brk += length;
                self.live.push(address);
                Reply::Allocated { address }
            }
            Action::Free { address } => {
                self.live.retain(|block| *block != address);
                Reply::Freed
            }
        }
    }
}

fn drive(hook: &mut Hook, machine: &mut Machine) -> Result<(), Error> {
    while let Some(action) = hook.pending() {
        let reply = machine.perform(action);
        assert!(hook.accepts(&reply));
        hook.resume(reply)?;
    }
    Ok(())
}

fn drive_trampoline(hook: &mut TrampolineHook, machine: &mut Machine) -> Result<(), Error> {
    while let Some(action) = hook.pending() {
        let reply = machine.perform(action);
        assert!(hook.accepts(&reply));
        hook.resume(reply)?;
    }
    Ok(())
}

fn width() -> u32 {
    usize::BITS
}

fn jump_size() -> usize {
    minimum_length(width()).unwrap()
}

const SOURCE: usize = 0x7000_1000;
const DESTINATION: usize = 0x7100_2000;

#[test]
fn hook_then_unhook_restores_the_original_bytes() {
    let mut machine = Machine::new(0x7000_0000, 0x4000);
    let original = machine.bytes.clone();
    let mut hook = Hook::hook(SOURCE, DESTINATION, 21).unwrap();
    drive(&mut hook, &mut machine).unwrap();
    assert_ne!(machine.read(SOURCE, 21), original[0x1000..0x1015].to_vec());
    hook.unhook();
    drive(&mut hook, &mut machine).unwrap();
    assert_eq!(machine.bytes, original);
}

#[test]
fn scenario_twenty_one_bytes() {
    let mut machine = Machine::new(0x7000_0000, 0x4000);
    let arbitrary: Vec<u8> = vec![
        0x48, 0x89, 0x5C, 0x24, 0x08, 0x57, 0x48, 0x83, 0xEC, 0x20, 0x48, 0x8B, 0xD9, 0xE8, 0x11,
        0x22, 0x33, 0x44, 0x48, 0x8B, 0xC3,
    ];
    machine.bytes[0x1000..0x1015].copy_from_slice(&arbitrary);
    let before = machine.bytes.clone();

    let mut hook = Hook::hook(SOURCE, DESTINATION, 21).unwrap();
    drive(&mut hook, &mut machine).unwrap();
    assert!(hook.active());

    let jump = encode_jump(SOURCE, DESTINATION, width()).unwrap();
    assert_eq!(machine.read(SOURCE, jump.len()), jump);
    assert_eq!(machine.read(SOURCE + jump.len(), 21 - jump.len()), vec![0x90; 21 - jump.len()]);
    if width() == 64 {
        let patched = machine.read(SOURCE, 14);
        assert_eq!(&patched[..6], &[0xFF, 0x25, 0x00, 0x00, 0x00, 0x00]);
        let mut target = [0u8; 8];
        target.copy_from_slice(&patched[6..14]);
        assert_eq!(u64::from_le_bytes(target), DESTINATION as u64);
    }
    assert_eq!(machine.bytes[..0x1000], before[..0x1000]);
    assert_eq!(machine.bytes[0x1015..], before[0x1015..]);

    hook.unhook();
    drive(&mut hook, &mut machine).unwrap();
    assert!(!hook.active());
    assert_eq!(machine.read(SOURCE, 21), arbitrary);
    assert_eq!(machine.bytes, before);
}

#[test]
fn installation_asks_for_four_actions_in_order() {
    let mut machine = Machine::new(0x7000_0000, 0x4000);
    let original = machine.read(SOURCE, 16);
    let mut hook = Hook::hook(SOURCE, DESTINATION, 16).unwrap();
    assert_eq!(hook.stage(), Stage::InstallProtect);
    drive(&mut hook, &mut machine).unwrap();
    assert_eq!(hook.stage(), Stage::Installed);

    let mut patch = encode_jump(SOURCE, DESTINATION, width()).unwrap();
    patch.resize(16, 0x90);
    assert_eq!(
        machine.log,
        vec![
            Action::Protect {
                address: SOURCE,
                length: 16,
                protection: Protection::ReadWriteExecute
            },
            Action::Read { address: SOURCE, length: 16 },
            Action::Write { address: SOURCE, bytes: patch },
            Action::Protect {
                address: SOURCE,
                length: 16,
                protection: Protection::Previous(EXECUTE_READ)
            },
        ]
    );
    assert_eq!(machine.protection, EXECUTE_READ);

    machine.log.clear();
    hook.unhook();
    assert_eq!(hook.stage(), Stage::RemoveProtect);
    drive(&mut hook, &mut machine).unwrap();
    assert_eq!(hook.stage(), Stage::Inactive);
    assert_eq!(
        machine.log,
        vec![
            Action::Protect {
                address: SOURCE,
                length: 16,
                protection: Protection::ReadWriteExecute
            },
            Action::Write { address: SOURCE, bytes: original },
            Action::Protect {
                address: SOURCE,
                length: 16,
                protection: Protection::Previous(EXECUTE_READ)
            },
        ]
    );
    assert_eq!(machine.protection, EXECUTE_READ);
}

#[test]
fn region_of_exactly_the_minimum_length() {
    let mut machine = Machine::new(0x7000_0000, 0x4000);
    let original = machine.bytes.clone();
    let length = jump_size();
    let mut hook = Hook::hook(SOURCE, DESTINATION, length).unwrap();
    assert_eq!(hook.source(), SOURCE);
    assert_eq!(hook.length(), length);
    drive(&mut hook, &mut machine).unwrap();
    assert_eq!(
        machine.read(SOURCE, length),
        encode_jump(SOURCE, DESTINATION, width()).unwrap()
    );
    assert_eq!(machine.bytes[0x1000 + length], original[0x1000 + length]);
    hook.unhook();
    drive(&mut hook, &mut machine).unwrap();
    assert_eq!(machine.bytes, original);
}

#[test]
fn too_small_is_refused_before_anything_happens() {
    for length in 0..jump_size() {
        match Hook::hook(SOURCE, DESTINATION, length) {
            Err(error) => assert_eq!(error, Error::TooSmall),
            Ok(_) => panic!("a region of {} bytes was accepted", length),
        }
        match TrampolineHook::hook(SOURCE, DESTINATION, length) {
            Err(error) => assert_eq!(error, Error::TooSmall),
            Ok(_) => panic!("a region of {} bytes was accepted", length),
        }
    }
    assert!(Hook::hook(SOURCE, DESTINATION, jump_size()).is_ok());
    assert!(TrampolineHook::hook(SOURCE, DESTINATION, jump_size()).is_ok());
}

#[test]
fn active_follows_the_life_of_a_hook() {
    let mut machine = Machine::new(0x7000_0000, 0x4000);
    let mut hook = Hook::hook(SOURCE, DESTINATION, 21).unwrap();
    assert!(!hook.active());
    let mut seen = Vec::new();
    while let Some(action) = hook.pending() {
        seen.push(hook.active());
        hook.resume(machine.perform(action)).unwrap();
    }
    assert_eq!(seen, vec![false, false, false, false]);
    assert!(hook.active());
    hook.unhook();
    let mut seen = Vec::new();
    while let Some(action) = hook.pending() {
        seen.push(hook.active());
        hook.resume(machine.perform(action)).unwrap();
    }
    assert_eq!(seen, vec![true, true, true]);
    assert!(!hook.active());
}

#[test]
fn unhook_twice_is_a_no_op() {
    let mut machine = Machine::new(0x7000_0000, 0x4000);
    let mut hook = Hook::hook(SOURCE, DESTINATION, 21).unwrap();
    drive(&mut hook, &mut machine).unwrap();
    hook.unhook();
    drive(&mut hook, &mut machine).unwrap();
    let actions = machine.log.len();
    let bytes = machine.bytes.clone();

    hook.unhook();
    assert_eq!(hook.pending(), None);
    assert_eq!(drive(&mut hook, &mut machine), Ok(()));
    assert_eq!(hook.stage(), Stage::Inactive);
    assert_eq!(machine.log.len(), actions);
    assert_eq!(machine.bytes, bytes);
}

#[test]
fn unhook_during_installation_changes_nothing() {
    let mut machine = Machine::new(0x7000_0000, 0x4000);
    let mut hook = Hook::hook(SOURCE, DESTINATION, 21).unwrap();
    hook.unhook();
    assert_eq!(hook.stage(), Stage::InstallProtect);
    let action = hook.pending().unwrap();
    hook.resume(machine.perform(action)).unwrap();
    hook.unhook();
    assert_eq!(hook.stage(), Stage::InstallRead);
}

#[test]
fn failure_to_unprotect_gives_the_installation_up() {
    let mut machine = Machine::new(0x7000_0000, 0x4000);
    let original = machine.bytes.clone();
    machine.fail = Some(0);
    let mut hook = Hook::hook(SOURCE, DESTINATION, 21).unwrap();
    assert_eq!(
        drive(&mut hook, &mut machine),
        Err(Error::PlatformFailure { code: -2147024891 })
    );
    assert!(!hook.active());
    assert_eq!(hook.stage(), Stage::Inactive);
    assert_eq!(hook.pending(), None);
    assert_eq!(machine.log.len(), 1);
    assert_eq!(machine.bytes, original);
    hook.unhook();
    assert_eq!(hook.pending(), None);
}

#[test]
fn failure_to_restore_protection_leaves_the_patch_in_place() {
    let mut machine = Machine::new(0x7000_0000, 0x4000);
    machine.fail = Some(3);
    let mut hook = Hook::hook(SOURCE, DESTINATION, 21).unwrap();
    assert_eq!(
        drive(&mut hook, &mut machine),
        Err(Error::PlatformFailure { code: -2147024891 })
    );
    assert!(!hook.active());
    assert_eq!(hook.pending(), None);
    assert_eq!(machine.protection, READ_WRITE_EXECUTE);
    let jump = encode_jump(SOURCE, DESTINATION, width()).unwrap();
    assert_eq!(machine.read(SOURCE, jump.len()), jump);
}

#[test]
fn failed_removal_leaves_the_hook_active() {
    for failing in 0..3 {
        let mut machine = Machine::new(0x7000_0000, 0x4000);
        let original = machine.bytes.clone();
        let mut hook = Hook::hook(SOURCE, DESTINATION, 21).unwrap();
        drive(&mut hook, &mut machine).unwrap();

        machine.fail = Some(machine.log.len() + failing);
        hook.unhook();
        assert_eq!(
            drive(&mut hook, &mut machine),
            Err(Error::PlatformFailure { code: -2147024891 })
        );
        assert!(hook.active());
        assert_eq!(hook.stage(), Stage::Installed);
        assert_eq!(hook.pending(), None);

        machine.fail = None;
        hook.unhook();
        drive(&mut hook, &mut machine).unwrap();
        assert!(!hook.active());
        assert_eq!(machine.bytes, original);
    }
}

#[test]
fn replies_that_do_not_answer_are_not_accepted() {
    let mut hook = Hook::hook(SOURCE, DESTINATION, 21).unwrap();
    assert!(hook.accepts(&Reply::Protected { previous: 2 }));
    assert!(hook.accepts(&Reply::Failed { code: 5 }));
    assert!(!hook.accepts(&Reply::Written));
    assert!(!hook.accepts(&Reply::Freed));
    assert!(!hook.accepts(&Reply::Bytes(vec![0; 21])));
    assert!(!hook.accepts(&Reply::Allocated { address: 0x1000 }));

    hook.resume(Reply::Protected { previous: 2 }).unwrap();
    assert!(hook.accepts(&Reply::Bytes(vec![0; 21])));
    assert!(!hook.accepts(&Reply::Bytes(vec![0; 20])));
    assert!(!hook.accepts(&Reply::Bytes(vec![0; 22])));
    assert!(!hook.accepts(&Reply::Protected { previous: 2 }));

    hook.resume(Reply::Bytes(vec![7; 21])).unwrap();
    assert!(hook.accepts(&Reply::Written));
    assert!(!hook.accepts(&Reply::Bytes(vec![0; 21])));

    hook.resume(Reply::Written).unwrap();
    assert_eq!(
        hook.pending(),
        Some(Action::Protect {
            address: SOURCE,
            length: 21,
            protection: Protection::Previous(2)
        })
    );
    hook.resume(Reply::Protected { previous: READ_WRITE_EXECUTE }).unwrap();
    assert!(!hook.accepts(&Reply::Protected { previous: 2 }));
    assert!(!hook.accepts(&Reply::Failed { code: 5 }));
}

#[test]
fn gateway_holds_the_original_bytes_and_a_jump_back() {
    let mut machine = Machine::new(0x7000_0000, 0x4000);
    let original = machine.read(SOURCE, 21);
    let mut hook = TrampolineHook::hook(SOURCE, DESTINATION, 21).unwrap();
    assert_eq!(hook.gateway(), 0);
    assert!(!hook.active());
    drive_trampoline(&mut hook, &mut machine).unwrap();
    assert!(hook.active());

    let gateway = hook.gateway();
    assert_eq!(gateway, 0x7000_2000);
    assert_eq!(machine.live, vec![gateway]);
    assert_eq!(machine.read(gateway, 21), original);
    let back = encode_jump(gateway + 21, SOURCE + 21, width()).unwrap();
    assert_eq!(machine.read(gateway + 21, back.len()), back);
    if width() == 64 {
        let stub = machine.read(gateway + 21, 14);
        assert_eq!(&stub[..6], &[0xFF, 0x25, 0x00, 0x00, 0x00, 0x00]);
        assert_eq!(&stub[6..], &((SOURCE + 21) as u64).to_le_bytes());
    }
    let jump = encode_jump(SOURCE, DESTINATION, width()).unwrap();
    assert_eq!(machine.read(SOURCE, jump.len()), jump);
}

#[test]
fn trampoline_asks_for_seven_actions_in_order() {
    let mut machine = Machine::new(0x7000_0000, 0x4000);
    let original = machine.read(SOURCE, 21);
    let mut hook = TrampolineHook::hook(SOURCE, DESTINATION, 21).unwrap();
    assert_eq!(hook.stage(), TrampolineStage::Allocate);
    drive_trampoline(&mut hook, &mut machine).unwrap();
    assert_eq!(hook.stage(), TrampolineStage::Inner);

    let gateway = hook.gateway();
    let mut stub = original.clone();
    stub.extend(encode_jump(gateway + 21, SOURCE + 21, width()).unwrap());
    let mut patch = encode_jump(SOURCE, DESTINATION, width()).unwrap();
    patch.resize(21, 0x90);
    assert_eq!(
        machine.log,
        vec![
            Action::Allocate { length: 21 + jump_size() },
            Action::Read { address: SOURCE, length: 21 },
            Action::Write { address: gateway, bytes: stub },
            Action::Protect {
                address: SOURCE,
                length: 21,
                protection: Protection::ReadWriteExecute
            },
            Action::Read { address: SOURCE, length: 21 },
            Action::Write { address: SOURCE, bytes: patch },
            Action::Protect {
                address: SOURCE,
                length: 21,
                protection: Protection::Previous(EXECUTE_READ)
            },
        ]
    );
}

#[test]
fn trampoline_hook_then_unhook_restores_and_releases() {
    let mut machine = Machine::new(0x7000_0000, 0x4000);
    let original = machine.read(SOURCE, 21);
    let mut hook = TrampolineHook::hook(SOURCE, DESTINATION, 21).unwrap();
    drive_trampoline(&mut hook, &mut machine).unwrap();
    let gateway = hook.gateway();

    machine.log.clear();
    hook.unhook();
    assert_eq!(hook.stage(), TrampolineStage::Release);
    assert_eq!(hook.pending(), Some(Action::Free { address: gateway }));
    drive_trampoline(&mut hook, &mut machine).unwrap();
    assert!(!hook.active());
    assert_eq!(machine.read(SOURCE, 21), original);
    assert!(machine.live.is_empty());
    assert_eq!(machine.log.len(), 4);
    assert_eq!(machine.log[0], Action::Free { address: gateway });

    hook.unhook();
    assert_eq!(hook.pending(), None);
    assert_eq!(machine.log.len(), 4);
}

#[test]
fn failed_allocation_gives_the_trampoline_up() {
    let mut machine = Machine::new(0x7000_0000, 0x4000);
    let original = machine.bytes.clone();
    machine.fail = Some(0);
    let mut hook = TrampolineHook::hook(SOURCE, DESTINATION, 21).unwrap();
    assert_eq!(
        drive_trampoline(&mut hook, &mut machine),
        Err(Error::PlatformFailure { code: -2147024891 })
    );
    assert_eq!(hook.stage(), TrampolineStage::Failed);
    assert!(!hook.active());
    assert_eq!(hook.pending(), None);
    assert_eq!(hook.gateway(), 0);
    assert_eq!(machine.bytes, original);
    hook.unhook();
    assert_eq!(hook.pending(), None);
}

#[test]
fn failed_inline_hook_does_not_release_the_gateway() {
    let mut machine = Machine::new(0x7000_0000, 0x4000);
    machine.fail = Some(3);
    let mut hook = TrampolineHook::hook(SOURCE, DESTINATION, 21).unwrap();
    assert_eq!(
        drive_trampoline(&mut hook, &mut machine),
        Err(Error::PlatformFailure { code: -2147024891 })
    );
    assert!(!hook.active());
    assert_eq!(hook.pending(), None);
    assert_eq!(machine.live, vec![hook.gateway()]);
    hook.unhook();
    assert_eq!(hook.pending(), None);
    assert_eq!(machine.live, vec![hook.gateway()]);
}

#[test]
fn failed_release_leaves_the_trampoline_installed() {
    let mut machine = Machine::new(0x7000_0000, 0x4000);
    let mut hook = TrampolineHook::hook(SOURCE, DESTINATION, 21).unwrap();
    drive_trampoline(&mut hook, &mut machine).unwrap();
    let patched = machine.bytes.clone();

    machine.fail = Some(machine.log.len());
    hook.unhook();
    assert_eq!(
        drive_trampoline(&mut hook, &mut machine),
        Err(Error::PlatformFailure { code: -2147024891 })
    );
    assert!(hook.active());
    assert_eq!(hook.stage(), TrampolineStage::Inner);
    assert_eq!(hook.pending(), None);
    assert_eq!(machine.bytes, patched);
}

#[test]
fn gateway_is_released_before_the_region_is_restored() {
    let mut machine = Machine::new(0x7000_0000, 0x4000);
    let mut hook = TrampolineHook::hook(SOURCE, DESTINATION, 21).unwrap();
    drive_trampoline(&mut hook, &mut machine).unwrap();

    machine.fail = Some(machine.log.len() + 1);
    hook.unhook();
    assert_eq!(
        drive_trampoline(&mut hook, &mut machine),
        Err(Error::PlatformFailure { code: -2147024891 })
    );
    assert!(hook.active());
    assert!(machine.live.is_empty());
}

#[test]
fn trampoline_accepts_only_blocks_inside_the_address_space() {
    let hook = TrampolineHook::hook(SOURCE, DESTINATION, 21).unwrap();
    let block = 21 + jump_size();
    assert!(hook.accepts(&Reply::Allocated { address: 0x1000 }));
    assert!(hook.accepts(&Reply::Allocated { address: usize::MAX - block }));
    assert!(!hook.accepts(&Reply::Allocated { address: usize::MAX - block + 1 }));
    assert!(hook.accepts(&Reply::Failed { code: 8 }));
    assert!(!hook.accepts(&Reply::Protected { previous: 2 }));
    assert!(!hook.accepts(&Reply::Written));
}

#[test]
fn every_error_can_be_told_apart() {
    assert_ne!(Error::TooSmall, Error::InvalidTarget);
    assert_ne!(Error::TooSmall, Error::PlatformFailure { code: 0 });
    assert_ne!(Error::PlatformFailure { code: 1 }, Error::PlatformFailure { code: 2 });
    assert_eq!(Error::PlatformFailure { code: 5 }, Error::PlatformFailure { code: 5 });
}

#[test]
fn thirty_two_bit_target_gets_a_near_jump() {
    let mut machine = Machine::new(0x7000_0000, 0x4000);
    let original = machine.bytes.clone();
    let mut hook = Hook::hook_for(SOURCE, DESTINATION, 7, 32).unwrap();
    drive(&mut hook, &mut machine).unwrap();
    assert!(hook.active());
    // 0x7100_2000 - 0x7000_1000 - 5 = 0x0100_0FFB
    assert_eq!(machine.read(SOURCE, 7), vec![0xE9, 0xFB, 0x0F, 0x00, 0x01, 0x90, 0x90]);
    hook.unhook();
    drive(&mut hook, &mut machine).unwrap();
    assert_eq!(machine.bytes, original);
}

#[test]
fn sixty_four_bit_target_gets_an_absolute_jump() {
    let mut machine = Machine::new(0x7000_0000, 0x4000);
    let original = machine.bytes.clone();
    let mut hook = Hook::hook_for(SOURCE, DESTINATION, 16, 64).unwrap();
    drive(&mut hook, &mut machine).unwrap();
    assert_eq!(
        machine.read(SOURCE, 16),
        vec![
            0xFF, 0x25, 0x00, 0x00, 0x00, 0x00, 0x00, 0x20, 0x00, 0x71, 0x00, 0x00, 0x00, 0x00,
            0x90, 0x90
        ]
    );
    hook.unhook();
    drive(&mut hook, &mut machine).unwrap();
    assert_eq!(machine.bytes, original);
}

#[test]
fn minimum_length_depends_on_the_target() {
    assert!(matches!(Hook::hook_for(SOURCE, DESTINATION, 4, 32), Err(Error::TooSmall)));
    assert!(Hook::hook_for(SOURCE, DESTINATION, 5, 32).is_ok());
    assert!(matches!(Hook::hook_for(SOURCE, DESTINATION, 13, 64), Err(Error::TooSmall)));
    assert!(Hook::hook_for(SOURCE, DESTINATION, 14, 64).is_ok());
    assert!(matches!(
        TrampolineHook::hook_for(SOURCE, DESTINATION, 4, 32),
        Err(Error::TooSmall)
    ));
    assert!(TrampolineHook::hook_for(SOURCE, DESTINATION, 5, 32).is_ok());
    assert!(matches!(
        TrampolineHook::hook_for(SOURCE, DESTINATION, 13, 64),
        Err(Error::TooSmall)
    ));
    assert!(TrampolineHook::hook_for(SOURCE, DESTINATION, 14, 64).is_ok());
}

#[test]
fn unsupported_target_is_refused_whatever_the_length() {
    for width in [0, 8, 16, 31, 33, 48, 63, 65, 128] {
        for length in [0, 5, 14, 21, 4096] {
            assert!(matches!(
                Hook::hook_for(SOURCE, DESTINATION, length, width),
                Err(Error::InvalidTarget)
            ));
            assert!(matches!(
                TrampolineHook::hook_for(SOURCE, DESTINATION, length, width),
                Err(Error::InvalidTarget)
            ));
        }
    }
}

#[test]
fn thirty_two_bit_gateway_jumps_back_relatively() {
    let mut machine = Machine::new(0x7000_0000, 0x4000);
    let original = machine.read(SOURCE, 8);
    let mut hook = TrampolineHook::hook_for(SOURCE, DESTINATION, 8, 32).unwrap();
    drive_trampoline(&mut hook, &mut machine).unwrap();
    let gateway = hook.gateway();
    assert_eq!(gateway, 0x7000_2000);
    assert_eq!(machine.log[0], Action::Allocate { length: 13 });
    assert_eq!(machine.read(gateway, 8), original);
    // from 0x7000_2008 to 0x7000_1008: 0x7000_1008 - 0x7000_2008 - 5 = -0x1005
    assert_eq!(machine.read(gateway + 8, 5), vec![0xE9, 0xFB, 0xEF, 0xFF, 0xFF]);
    assert_eq!(
        machine.read(SOURCE, 8),
        vec![0xE9, 0xFB, 0x0F, 0x00, 0x01, 0x90, 0x90, 0x90]
    );
    hook.unhook();
    drive_trampoline(&mut hook, &mut machine).unwrap();
    assert_eq!(machine.read(SOURCE, 8), original);
}

/// Owns a hook on a machine and removes it when it goes out of scope, as a
/// handle on real memory does.
struct Guard<'a> {
    hook: Hook,
    machine: &'a mut Machine,
}

impl Drop for Guard<'_> {
    fn drop(&mut self) {
        self.hook.unhook();
        let _ = drive(&mut self.hook, self.machine);
    }
}

#[test]
fn dropping_an_active_hook_restores_the_original_bytes() {
    let mut machine = Machine::new(0x7000_0000, 0x4000);
    let original = machine.bytes.clone();
    {
        let mut hook = Hook::hook(SOURCE, DESTINATION, 21).unwrap();
        drive(&mut hook, &mut machine).unwrap();
        let guard = Guard { hook, machine: &mut machine };
        assert!(guard.hook.active());
        assert_ne!(guard.machine.bytes, original);
    }
    assert_eq!(machine.bytes, original);
    assert_eq!(machine.protection, EXECUTE_READ);
}

#[test]
fn dropping_swallows_a_failed_removal() {
    let mut machine = Machine::new(0x7000_0000, 0x4000);
    let original = machine.bytes.clone();
    {
        let mut hook = Hook::hook(SOURCE, DESTINATION, 21).unwrap();
        drive(&mut hook, &mut machine).unwrap();
        machine.fail = Some(machine.log.len());
        let _guard = Guard { hook, machine: &mut machine };
    }
    assert_ne!(machine.bytes, original);
}

fn sendable<T: Send + Sync>() {}

#[test]
fn hooks_can_cross_threads() {
    sendable::<Hook>();
    sendable::<TrampolineHook>();
}

#[test]
fn saved_bytes_are_exactly_what_the_region_held() {
    let mut machine = Machine::new(0x7000_0000, 0x4000);
    for (i, byte) in machine.bytes[0x1000..0x1100].iter_mut().enumerate() {
        *byte = 0xFF - i as u8;
    }
    let original = machine.read(SOURCE, 0x100);
    let mut hook = Hook::hook(SOURCE, DESTINATION, 0x100).unwrap();
    drive(&mut hook, &mut machine).unwrap();
    machine.log.clear();
    hook.unhook();
    drive(&mut hook, &mut machine).unwrap();
    assert_eq!(machine.log[1], Action::Write { address: SOURCE, bytes: original });
}
