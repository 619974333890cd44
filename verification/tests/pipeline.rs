use safewinapi::bootstrap::make_c_str;
use safewinapi::bootstrap::resolve_fnaddr_from_iat;
use safewinapi::bootstrap::stub_pattern_bytes;
use safewinapi::bootstrap::SafeWinapi;
use safewinapi::decoder::absolute_target;
use safewinapi::decoder::decode_displacement;
use safewinapi::reinterpret::reinterpret_i64_as_u64;
use safewinapi::reinterpret::reinterpret_u64_as_i64;
use safewinapi::scanner::find_needle;
use safewinapi::slot::read_slot;
use safewinapi::widen::expand;
use safewinapi::widen::expand_mut;
use safewinapi::widen::lifetime_translator;

#[test]
fn find_needle_returns_leftmost_offset() {
    let region = [9u8, 1, 2, 3, 1, 2, 3, 7];
    assert_eq!(find_needle(&region, &[1, 2, 3]), Some(1));
}

#[test]
fn find_needle_at_offset_zero() {
    let region = [5u8, 6, 7, 8];
    assert_eq!(find_needle(&region, &[5, 6]), Some(0));
}

#[test]
fn find_needle_reports_not_found() {
    let region = [9u8, 1, 2, 3, 1, 2, 3, 7];
    assert_eq!(find_needle(&region, &[3, 2]), None);
}

#[test]
fn find_needle_longer_than_region() {
    let region = [1u8, 2];
    assert_eq!(find_needle(&region, &[1, 2, 3]), None);
}

#[test]
fn decode_positive_displacement() {
    // 4-byte little-endian field d = 16 at offset 2 of the buffer.
    let buf = [0u8, 0, 16, 0, 0, 0, 0];
    let base: u64 = 0x1000;
    let d = decode_displacement(&buf, 2);
    assert_eq!(d, 16);
    assert_eq!(absolute_target(base, 2, d), base + 2 + 4 + 16);
}

#[test]
fn decode_negative_displacement() {
    // d = -16, little-endian two's complement.
    let buf = [0u8, 0, 0xF0, 0xFF, 0xFF, 0xFF];
    let base: u64 = 0x1000;
    let d = decode_displacement(&buf, 2);
    assert_eq!(d, -16);
    assert_eq!(absolute_target(base, 2, d), base + 2 + 4 - 16);
}

#[test]
fn read_slot_is_little_endian() {
    let buf = [0xEFu8, 0xBE, 0xAD, 0xDE, 0, 0, 0, 0];
    assert_eq!(read_slot(&buf, 0), 0xDEADBEEF);
}

#[test]
fn end_to_end_resolution() {
    // Anchor at offset 0, displacement field 9 bytes past its end, and a
    // table slot holding 0xDEADBEEF that the decoded target names.
    let needle = stub_pattern_bytes();
    let base: u64 = 0x4000_0000;
    let mut buf = vec![0u8; 40];
    buf[..11].copy_from_slice(&needle);
    // Field at 20..24: target = base + 20 + 4 + 8 = base + 32.
    buf[20] = 8;
    // Slot at 32..40.
    buf[32] = 0xEF;
    buf[33] = 0xBE;
    buf[34] = 0xAD;
    buf[35] = 0xDE;
    assert_eq!(resolve_fnaddr_from_iat(&buf, base, &needle, 9), 0xDEADBEEF);
}

#[test]
fn sentinel_when_anchor_missing() {
    let needle = stub_pattern_bytes();
    let buf = vec![0u8; 64];
    assert_eq!(resolve_fnaddr_from_iat(&buf, 0x4000_0000, &needle, 9), 0);
}

#[test]
fn sentinel_when_field_leaves_region() {
    // Anchor present, but the displacement field would sit past the end.
    let needle = [1u8, 2, 3];
    let mut buf = vec![0u8; 16];
    buf[13] = 1;
    buf[14] = 2;
    buf[15] = 3;
    assert_eq!(resolve_fnaddr_from_iat(&buf, 0x1000, &needle, 9), 0);
}

#[test]
fn sentinel_when_target_before_region() {
    // Valid field, but the decoded target lies below the base address.
    let needle = [1u8, 2, 3];
    let mut buf = vec![0u8; 32];
    buf[0] = 1;
    buf[1] = 2;
    buf[2] = 3;
    // Field at 3..7: d = -256 aims far below base + 7.
    buf[3] = 0x00;
    buf[4] = 0xFF;
    buf[5] = 0xFF;
    buf[6] = 0xFF;
    assert_eq!(resolve_fnaddr_from_iat(&buf, 0x1000, &needle, 0), 0);
}

#[test]
fn sentinel_when_slot_past_region() {
    // Valid field, but the named slot sticks out past the region's end.
    let needle = [1u8, 2, 3];
    let mut buf = vec![0u8; 32];
    buf[0] = 1;
    buf[1] = 2;
    buf[2] = 3;
    // Field at 3..7: target = base + 3 + 4 + 21 = base + 28; 28 + 8 > 32.
    buf[3] = 21;
    assert_eq!(resolve_fnaddr_from_iat(&buf, 0x1000, &needle, 0), 0);
}

#[test]
fn sentinel_refuses_downstream_calls() {
    // A bootstrap over a region without the anchor leaves every routine
    // at the zero sentinel, and no call is planned through it.
    let buf = vec![0u8; 128];
    let mut winapi = SafeWinapi::new();
    winapi.locate_core_routines(&buf, 0x1000);
    assert_eq!(winapi.p_get_proc_address, 0);
    assert_eq!(winapi.p_get_module_handle_a, 0);
    assert!(winapi.get_module_handle_call("kernel32").is_none());
    assert!(winapi.get_proc_address_call(7, "LoadLibraryA").is_none());
    assert!(winapi.load_library_call("kernel32").is_none());
}

#[test]
fn locate_recovers_both_routines() {
    // One anchor, two displacement fields at the two fixed distances (30
    // and 9 bytes past the anchor's end), each leading to its own slot.
    let needle = stub_pattern_bytes();
    let base: u64 = 0x1000;
    let mut buf = vec![0u8; 64];
    buf[..11].copy_from_slice(&needle);
    // Module-handle field at 20..24: target = base + 20 + 4 + 24 = base + 48.
    buf[20] = 24;
    // Proc-address field at 41..45: target = base + 41 + 4 + 11 = base + 56.
    buf[41] = 11;
    // Slot at 48..56 holds 0x1111; slot at 56..64 holds 0x2222.
    buf[48] = 0x11;
    buf[49] = 0x11;
    buf[56] = 0x22;
    buf[57] = 0x22;
    let mut winapi = SafeWinapi::new();
    winapi.locate_core_routines(&buf, base);
    assert_eq!(winapi.p_get_module_handle_a, 0x1111);
    assert_eq!(winapi.p_get_proc_address, 0x2222);
}

#[test]
fn planned_calls_carry_target_and_name() {
    let mut winapi = SafeWinapi::new();
    winapi.record_loader(0x5000);
    let (target, name) = winapi.load_library_call("kernel32").unwrap();
    assert_eq!(target, 0x5000);
    assert_eq!(name, b"kernel32\0");

    winapi.p_get_proc_address = 0x6000;
    let (target, handle, name) = winapi.get_proc_address_call(0x77, "WriteConsoleA").unwrap();
    assert_eq!(target, 0x6000);
    assert_eq!(handle, 0x77);
    assert_eq!(name, b"WriteConsoleA\0");

    winapi.p_get_module_handle_a = 0x7000;
    let (target, name) = winapi.get_module_handle_call("kernel32").unwrap();
    assert_eq!(target, 0x7000);
    assert_eq!(name, b"kernel32\0");
}

#[test]
fn record_steps_update_one_field_each() {
    let mut winapi = SafeWinapi::new();
    winapi.record_this_module(1);
    winapi.record_kernel32(2);
    winapi.record_loader(3);
    assert_eq!(winapi.h_thismodule, 1);
    assert_eq!(winapi.h_kernel32, 2);
    assert_eq!(winapi.p_load_library_a, 3);
    assert_eq!(winapi.p_get_module_handle_a, 0);
    assert_eq!(winapi.p_get_proc_address, 0);
    winapi.record_kernel32(4);
    assert_eq!(winapi.h_kernel32, 4);
    assert_eq!(winapi.h_thismodule, 1);
}

#[test]
fn make_c_str_appends_nul() {
    assert_eq!(make_c_str("Hello WINAPI!\n"), b"Hello WINAPI!\n\0");
    assert_eq!(make_c_str(""), b"\0");
}

#[test]
fn reinterpret_round_trip_is_bit_for_bit() {
    for x in [0u64, 1, 0x7FFF_FFFF_FFFF_FFFF, 0x8000_0000_0000_0000, u64::MAX, 0xDEADBEEF] {
        assert_eq!(reinterpret_i64_as_u64(reinterpret_u64_as_i64(x)), x);
    }
    for y in [0i64, -1, -16, i64::MIN, i64::MAX] {
        assert_eq!(reinterpret_u64_as_i64(reinterpret_i64_as_u64(y)), y);
    }
    // The signed reading is the two's-complement one.
    assert_eq!(reinterpret_u64_as_i64(u64::MAX), -1);
    assert_eq!(reinterpret_i64_as_u64(-16), 0xFFFF_FFFF_FFFF_FFF0);
}

#[test]
fn widened_references_keep_their_value() {
    let x: u64 = 0xDEAD;
    assert_eq!(*lifetime_translator(&&(), &x), 0xDEAD);
    assert_eq!(*expand(&x), 0xDEAD);

    let mut y: u64 = 1;
    let r = expand_mut(&mut y);
    *r = 2;
    assert_eq!(y, 2);
}
