use wabt::binary::{ModuleBinary, ModuleStore};
use wabt::bits::{
    canonicalize_f32_bits, canonicalize_f64_bits, to_signed_32, to_signed_64, to_unsigned_32,
    to_unsigned_64,
};
use wabt::decimal::{decimal_text, parse_decimal};
use wabt::text::{contains_char, ends_with, jstring_to_rstring, narrow_bytes, same_text};
use wabt::Features;

#[test]
fn signed_and_unsigned_patterns() {
    assert_eq!(to_signed_32(0), 0);
    assert_eq!(to_signed_32(0x7fff_ffff), i32::MAX);
    assert_eq!(to_signed_32(0x8000_0000), i32::MIN);
    assert_eq!(to_signed_32(0xffff_ffff), -1);
    assert_eq!(to_signed_64(0x8000_0000_0000_0000), i64::MIN);
    assert_eq!(to_signed_64(u64::MAX), -1);
    assert_eq!(to_signed_64(0x7fff_ffff_ffff_ffff), i64::MAX);
    assert_eq!(to_unsigned_32(-1), 0xffff_ffff);
    assert_eq!(to_unsigned_32(i32::MIN), 0x8000_0000);
    assert_eq!(to_unsigned_32(5), 5);
    assert_eq!(to_unsigned_64(-2), 0xffff_ffff_ffff_fffe);
    assert_eq!(to_unsigned_64(i64::MIN), 0x8000_0000_0000_0000);
    for bits in [0u32, 1, 0x7fff_ffff, 0x8000_0000, 0xdead_beef, u32::MAX] {
        assert_eq!(to_signed_32(bits), bits as i32);
        assert_eq!(to_unsigned_32(to_signed_32(bits)), bits);
    }
    for bits in [0u64, 1, 0x8000_0000_0000_0000, 0xdead_beef_dead_beef, u64::MAX] {
        assert_eq!(to_signed_64(bits), bits as i64);
        assert_eq!(to_unsigned_64(to_signed_64(bits)), bits);
    }
}

#[test]
fn nan_quieting_matches_native_floats() {
    assert_eq!(canonicalize_f32_bits(0x7f80_0001), 0x7fc0_0001);
    assert_eq!(canonicalize_f32_bits(0xff80_0001), 0xffc0_0001);
    assert_eq!(canonicalize_f32_bits(0x7fc0_0000), 0x7fc0_0000);
    assert_eq!(canonicalize_f32_bits(0x7f80_0000), 0x7f80_0000);
    assert_eq!(canonicalize_f32_bits(0xff80_0000), 0xff80_0000);
    assert_eq!(canonicalize_f32_bits(0x0000_0001), 0x0000_0001);
    assert_eq!(canonicalize_f64_bits(0x7ff0_0000_0000_0001), 0x7ff8_0000_0000_0001);
    assert_eq!(canonicalize_f64_bits(0x7ff8_0000_0000_0000), 0x7ff8_0000_0000_0000);
    assert_eq!(canonicalize_f64_bits(0x7ff0_0000_0000_0000), 0x7ff0_0000_0000_0000);
    assert_eq!(canonicalize_f64_bits(0x000f_ffff_ffff_ffff), 0x000f_ffff_ffff_ffff);
    for bits in [0x7f80_0001u32, 0x7fa0_0000, 0xffbf_ffff, 0x7fc0_0000, 0x3f80_0000, 0] {
        let quiet = canonicalize_f32_bits(bits);
        assert_eq!(canonicalize_f32_bits(quiet), quiet);
        assert_eq!(f32::from_bits(quiet).to_bits(), quiet);
        assert_eq!(f32::from_bits(bits).is_nan(), f32::from_bits(quiet).is_nan());
    }
    for bits in [0x7ff0_0000_0000_0001u64, 0xfff4_0000_0000_0000, 0x7ff8_0000_0000_0000, 0] {
        let quiet = canonicalize_f64_bits(bits);
        assert_eq!(canonicalize_f64_bits(quiet), quiet);
        assert_eq!(f64::from_bits(quiet).to_bits(), quiet);
        assert_eq!(f64::from_bits(bits).is_nan(), f64::from_bits(quiet).is_nan());
    }
}

#[test]
fn decimal_reading_agrees_with_the_standard_parsers() {
    for text in [
        "0", "7", "+7", "007", "4294967295", "4294967296", "18446744073709551615",
        "18446744073709551616", "", "+", "-", "-0", "++1", "1+", " 1", "1_000", "0x1", "१",
        "99999999999999999999", "00000000000000000000000000000000001",
    ] {
        assert_eq!(parse_decimal(text, u64::MAX), text.parse::<u64>().ok(), "{:?}", text);
        assert_eq!(
            parse_decimal(text, 0xffff_ffff),
            text.parse::<u32>().ok().map(u64::from),
            "{:?}",
            text
        );
    }
    assert_eq!(parse_decimal("10", 9), None);
    assert_eq!(parse_decimal("9", 9), Some(9));
    assert_eq!(parse_decimal("0", 0), Some(0));
}

#[test]
fn decimal_writing_reads_back() {
    assert_eq!(decimal_text(0), "0");
    assert_eq!(decimal_text(9), "9");
    assert_eq!(decimal_text(10), "10");
    assert_eq!(decimal_text(1234567890), "1234567890");
    assert_eq!(decimal_text(u64::MAX), "18446744073709551615");
    for n in [0u64, 1, 9, 10, 99, 100, 4294967295, 4294967296, u64::MAX - 1, u64::MAX] {
        assert_eq!(decimal_text(n), n.to_string());
        assert_eq!(parse_decimal(&decimal_text(n), u64::MAX), Some(n));
    }
}

#[test]
fn field_name_decoding_narrows_then_reads_utf8() {
    assert_eq!(jstring_to_rstring(""), Some(String::new()));
    assert_eq!(jstring_to_rstring("plain_name"), Some("plain_name".to_string()));
    assert_eq!(jstring_to_rstring("\u{ef}\u{bb}\u{bf}"), Some("\u{feff}".to_string()));
    assert_eq!(jstring_to_rstring("\u{c3}\u{a9}t\u{c3}\u{a9}"), Some("\u{e9}t\u{e9}".to_string()));
    assert_eq!(
        jstring_to_rstring("\u{f0}\u{9f}\u{98}\u{80}"),
        Some("\u{1f600}".to_string())
    );
    assert_eq!(jstring_to_rstring("\u{141}"), Some("A".to_string()));
    assert_eq!(jstring_to_rstring("\u{ff}"), None);
    assert_eq!(jstring_to_rstring("\u{c3}"), None);
    assert_eq!(jstring_to_rstring("a\u{80}"), None);
    assert_eq!(narrow_bytes("a\u{e9}\u{141}\u{1f600}"), vec![0x61, 0xe9, 0x41, 0x00]);
    assert_eq!(narrow_bytes(""), Vec::<u8>::new());
}

#[test]
fn text_helpers() {
    assert!(same_text("", ""));
    assert!(same_text("i32", "i32"));
    assert!(!same_text("i32", "i64"));
    assert!(!same_text("i32", "i3"));
    assert!(!same_text("i3", "i32"));
    assert!(same_text("\u{e9}", "\u{e9}"));
    assert!(ends_with("a.wast", ".wast"));
    assert!(ends_with(".wast", ".wast"));
    assert!(ends_with("anything", ""));
    assert!(!ends_with("wast", ".wast"));
    assert!(!ends_with("a.wasT", ".wast"));
    assert!(ends_with("\u{e9}\u{e9}.wast", ".wast"));
    assert!(contains_char("a\0b", '\0'));
    assert!(!contains_char("ab", '\0'));
    assert!(!contains_char("", 'a'));
    assert!(contains_char("xyz", 'z'));
}

#[test]
fn store_keeps_the_last_binary_under_a_name() {
    let mut store = ModuleStore::new();
    assert_eq!(store.get("a.wasm"), None);
    store.insert("a.wasm".to_string(), vec![1]);
    store.insert("b.wasm".to_string(), vec![2, 2]);
    assert_eq!(store.get("a.wasm"), Some(ModuleBinary::from_vec(vec![1])));
    assert_eq!(store.get("b.wasm"), Some(ModuleBinary::from_vec(vec![2, 2])));
    assert_eq!(store.get("c.wasm"), None);
    assert_eq!(store.get(""), None);
    store.insert("a.wasm".to_string(), vec![3, 3, 3]);
    assert_eq!(store.get("a.wasm").unwrap().into_vec(), vec![3, 3, 3]);
    assert_eq!(store.get("b.wasm").unwrap().into_vec(), vec![2, 2]);
}

#[test]
fn binaries_are_equal_when_their_bytes_are() {
    let a = ModuleBinary::from_vec(vec![0, 97, 115, 109]);
    let b = ModuleBinary::from_vec(vec![0, 97, 115, 109]);
    let c = ModuleBinary::from_vec(vec![0, 97, 115]);
    let d = ModuleBinary::from_vec(vec![0, 97, 115, 110]);
    assert!(a == b);
    assert!(a.same_bytes(&b));
    assert!(a != c);
    assert!(a != d);
    assert!(!c.same_bytes(&a));
    assert_eq!(a.clone(), a);
    assert_eq!(a.as_slice(), &[0, 97, 115, 109]);
    assert_eq!(ModuleBinary::from_vec(Vec::new()).into_vec(), Vec::<u8>::new());
}

fn flags(f: &Features) -> [bool; 9] {
    [
        f.exceptions_enabled(),
        f.mutable_globals_enabled(),
        f.sat_float_to_int_enabled(),
        f.sign_extension_enabled(),
        f.simd_enabled(),
        f.threads_enabled(),
        f.multi_value_enabled(),
        f.tail_call_enabled(),
        f.bulk_memory_enabled(),
    ]
}

#[test]
fn feature_flags_are_set_one_at_a_time() {
    let start = [false, true, false, false, false, false, false, false, false];
    assert_eq!(flags(&Features::new()), start);
    let enable: [fn(&mut Features); 9] = [
        Features::enable_exceptions,
        Features::enable_mutable_globals,
        Features::enable_sat_float_to_int,
        Features::enable_sign_extension,
        Features::enable_simd,
        Features::enable_threads,
        Features::enable_multi_value,
        Features::enable_tail_call,
        Features::enable_bulk_memory,
    ];
    let disable: [fn(&mut Features); 9] = [
        Features::disable_exceptions,
        Features::disable_mutable_globals,
        Features::disable_sat_float_to_int,
        Features::disable_sign_extension,
        Features::disable_simd,
        Features::disable_threads,
        Features::disable_multi_value,
        Features::disable_tail_call,
        Features::disable_bulk_memory,
    ];
    let set: [fn(&mut Features, bool); 9] = [
        Features::set_exceptions_enabled,
        Features::set_mutable_globals_enabled,
        Features::set_sat_float_to_int_enabled,
        Features::set_sign_extension_enabled,
        Features::set_simd_enabled,
        Features::set_threads_enabled,
        Features::set_multi_value_enabled,
        Features::set_tail_call_enabled,
        Features::set_bulk_memory_enabled,
    ];
    for i in 0..9 {
        let mut features = Features::new();
        let mut expected = start;
        enable[i](&mut features);
        expected[i] = true;
        assert_eq!(flags(&features), expected);
        disable[i](&mut features);
        expected[i] = false;
        assert_eq!(flags(&features), expected);
        set[i](&mut features, true);
        expected[i] = true;
        assert_eq!(flags(&features), expected);
        assert_eq!(flags(&features.clone()), expected);
        set[i](&mut features, false);
        expected[i] = false;
        assert_eq!(flags(&features), expected);
    }
    let mut features = Features::new();
    features.enable_all();
    assert_eq!(flags(&features), [true; 9]);
    features.disable_simd();
    assert!(!features.simd_enabled());
    assert!(features.threads_enabled());
}
