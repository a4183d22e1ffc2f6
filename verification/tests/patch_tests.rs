use minidbg::patch::patched_word;
use minidbg::patch::TRAP_OPCODE;

#[test]
fn low_byte_is_replaced_and_the_rest_is_preserved() {
    assert_eq!(patched_word(0x0000000000401157), 0x00000000004011CC);
}

#[test]
fn patching_keeps_all_high_bytes_bit_for_bit() {
    assert_eq!(patched_word(0xFFFF_FFFF_FFFF_FFFF), 0xFFFF_FFFF_FFFF_FFCC);
    assert_eq!(patched_word(0x0123_4567_89AB_CDEF), 0x0123_4567_89AB_CDCC);
    assert_eq!(patched_word(0), 0xCC);
}

#[test]
fn patching_an_already_patched_word_changes_nothing() {
    let once = patched_word(0x0000000000401157);
    assert_eq!(patched_word(once), once);
}

#[test]
fn trap_opcode_is_int3() {
    assert_eq!(TRAP_OPCODE, 0xCC);
    assert_eq!(patched_word(0x1234) & 0xFF, TRAP_OPCODE as u64);
}
