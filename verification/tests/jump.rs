use trampoline::jump::{encode_jump, minimum_length, ABSOLUTE_JUMP_SIZE, FILLER, NEAR_JUMP_SIZE};
use trampoline::Error;

#[test]
fn near_jump_forward() {
    let code = encode_jump(0x1000, 0x2000, 32).unwrap();
    assert_eq!(code, vec![0xE9, 0xFB, 0x0F, 0x00, 0x00]);
}

#[test]
fn near_jump_backward_is_twos_complement() {
    let code = encode_jump(0x2000, 0x1000, 32).unwrap();
    assert_eq!(code, vec![0xE9, 0xFB, 0xEF, 0xFF, 0xFF]);
}

#[test]
fn near_jump_to_next_instruction_has_zero_displacement() {
    let code = encode_jump(0x40_0000, 0x40_0005, 32).unwrap();
    assert_eq!(code, vec![0xE9, 0x00, 0x00, 0x00, 0x00]);
}

#[test]
fn near_jump_to_itself() {
    let code = encode_jump(0x40_0000, 0x40_0000, 32).unwrap();
    assert_eq!(code, vec![0xE9, 0xFB, 0xFF, 0xFF, 0xFF]);
}

#[test]
fn near_jump_displacement_is_little_endian() {
    let source: usize = 0x0040_1000;
    let destination: usize = 0x1234_5678;
    let code = encode_jump(source, destination, 32).unwrap();
    let displacement = (destination as u32).wrapping_sub(source as u32).wrapping_sub(5);
    assert_eq!(displacement, 0x11F4_4673);
    assert_eq!(code, vec![0xE9, 0x73, 0x46, 0xF4, 0x11]);
}

#[test]
fn near_jump_wraps_around_the_address_space() {
    let code = encode_jump(0xFFFF_FFF0, 0x10, 32).unwrap();
    assert_eq!(code, vec![0xE9, 0x1B, 0x00, 0x00, 0x00]);
}

#[test]
fn absolute_jump_holds_the_destination() {
    let code = encode_jump(0x1000, 0x1122_3344_5566_7788, 64).unwrap();
    assert_eq!(
        code,
        vec![
            0xFF, 0x25, 0x00, 0x00, 0x00, 0x00, 0x88, 0x77, 0x66, 0x55, 0x44, 0x33, 0x22, 0x11
        ]
    );
}

#[test]
fn absolute_jump_does_not_depend_on_the_source() {
    let near = encode_jump(0x10, 0x7FFF_0000_1234, 64).unwrap();
    let far = encode_jump(0xFFFF_FFFF_0000, 0x7FFF_0000_1234, 64).unwrap();
    assert_eq!(near, far);
    assert_eq!(&near[..6], &[0xFF, 0x25, 0x00, 0x00, 0x00, 0x00]);
    assert_eq!(&near[6..], &0x7FFF_0000_1234u64.to_le_bytes());
}

#[test]
fn absolute_jump_to_address_zero() {
    let code = encode_jump(0x1000, 0, 64).unwrap();
    assert_eq!(code, vec![0xFF, 0x25, 0, 0, 0, 0, 0, 0, 0, 0, 0, 0, 0, 0]);
}

#[test]
fn encodings_have_the_minimum_length() {
    assert_eq!(encode_jump(1, 2, 32).unwrap().len(), NEAR_JUMP_SIZE);
    assert_eq!(encode_jump(1, 2, 64).unwrap().len(), ABSOLUTE_JUMP_SIZE);
    assert_eq!(NEAR_JUMP_SIZE, 5);
    assert_eq!(ABSOLUTE_JUMP_SIZE, 14);
}

#[test]
fn unsupported_widths_are_refused() {
    assert_eq!(encode_jump(0x1000, 0x2000, 16), Err(Error::InvalidTarget));
    assert_eq!(encode_jump(0x1000, 0x2000, 0), Err(Error::InvalidTarget));
    assert_eq!(encode_jump(0x1000, 0x2000, 128), Err(Error::InvalidTarget));
    assert_eq!(encode_jump(0x1000, 0x2000, 33), Err(Error::InvalidTarget));
}

#[test]
fn minimum_length_by_width() {
    assert_eq!(minimum_length(32), Ok(5));
    assert_eq!(minimum_length(64), Ok(14));
    assert_eq!(minimum_length(16), Err(Error::InvalidTarget));
    assert_eq!(minimum_length(8), Err(Error::InvalidTarget));
}

#[test]
fn filler_is_a_nop() {
    assert_eq!(FILLER, 0x90);
}
