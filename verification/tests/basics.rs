use dplay_launcher::guid::{Guid, DPAID_INET, DPAID_PHONE, DPAID_SERVICE_PROVIDER, SESSION_GUID};
use dplay_launcher::text::{c_string_bytes, chars_of, contains_run, str_contains};

#[test]
fn guid_memory_bytes_follow_the_field_layout() {
    let g = Guid::from_u128(0x01020304_0506_0708_090A_0B0C0D0E0F10);
    assert_eq!(
        g.memory_bytes(),
        vec![0x04, 0x03, 0x02, 0x01, 0x06, 0x05, 0x08, 0x07, 0x09, 0x0A, 0x0B, 0x0C, 0x0D, 0x0E, 0x0F, 0x10]
    );
}

#[test]
fn service_provider_type_bytes() {
    let g = Guid::from_u128(DPAID_SERVICE_PROVIDER);
    assert_eq!(
        g.memory_bytes(),
        vec![0xC0, 0x16, 0xD9, 0x07, 0xAF, 0xE0, 0xCF, 0x11, 0x9C, 0x4E, 0x00, 0xA0, 0xC9, 0x05, 0x42, 0x5E]
    );
}

#[test]
fn guid_constants_are_distinct() {
    let all = [DPAID_SERVICE_PROVIDER, DPAID_INET, DPAID_PHONE, SESSION_GUID];
    for i in 0..all.len() {
        for j in 0..all.len() {
            assert_eq!(i == j, all[i] == all[j]);
        }
    }
    assert_eq!(Guid::from_u128(DPAID_INET).value, 0xC4A54DA0_E0AF_11CF_9C4E_00A0C905425E);
}

#[test]
fn chars_of_keeps_every_character() {
    assert_eq!(chars_of("aé✓"), vec!['a', 'é', '✓']);
    assert_eq!(chars_of(""), Vec::<char>::new());
}

#[test]
fn contains_finds_runs() {
    assert!(str_contains("internet tcp/ip", "tcp"));
    assert!(str_contains("tcp", "tcp"));
    assert!(!str_contains("tc", "tcp"));
    assert!(!str_contains("t c p", "tcp"));
    assert!(str_contains("anything", ""));
    assert!(str_contains("", ""));
    assert!(str_contains("serial port", "port"));
    assert!(!contains_run(&vec!['a'], &vec!['a', 'b']));
}

#[test]
fn c_string_bytes_appends_one_nul() {
    assert_eq!(c_string_bytes("10.0.0.1"), Some(b"10.0.0.1\0".to_vec()));
    assert_eq!(c_string_bytes(""), Some(vec![0u8]));
    assert_eq!(c_string_bytes("é"), Some(vec![0xC3, 0xA9, 0]));
}

#[test]
fn c_string_bytes_refuses_an_inner_nul() {
    assert_eq!(c_string_bytes("10.0\0.0.1"), None);
    assert_eq!(c_string_bytes("\0"), None);
}
