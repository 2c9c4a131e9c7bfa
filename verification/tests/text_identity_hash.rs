use mxlite::agent::identity::{
    machine_id_step, IdStep,
    dmi_entry_uuid, dmi_table_uuid, get_random_uuid, get_uuid_string_from_buf, id_from_picks,
    push_hex, random_str, systemd_id_usable, systemd_machine_uuid, uuid_from_random_tail,
    DmiTableError,
};
use mxlite::hash::{
    assemble_hashes, digest_hex, digests_for_bytes, hash_kinds, md5_hex, push_hex_min, sha1_hex,
    sha256_hex, sha512_hex, sha_for_bytes, xxh3_hex, xxh3_hex_chunks, HashKind, StreamHash,
};
use mxlite::text::{
    find_value, key_values, parse_u64_text, push_decimal, push_str, same_text, split_key_value,
    split_words, trimmed,
};

const UUID_BYTES: [u8; 16] = [
    0x33, 0x22, 0x11, 0x00, 0x55, 0x44, 0x77, 0x66, 0x88, 0x99, 0xaa, 0xbb, 0xcc, 0xdd, 0xee, 0xff,
];

#[test]
fn uuid_fields_follow_smbios_byte_order() {
    let uuid = get_uuid_string_from_buf(&UUID_BYTES, 0);
    assert_eq!(uuid, "00112233-4455-6677-8899-aabbccddeeff");
}

#[test]
fn uuid_read_at_an_offset() {
    let mut buf = vec![0u8; 8];
    buf.extend_from_slice(&UUID_BYTES);
    assert_eq!(dmi_entry_uuid(&buf), "00112233-4455-6677-8899-aabbccddeeff");
    assert_eq!(get_uuid_string_from_buf(&buf, 8), "00112233-4455-6677-8899-aabbccddeeff");
}

#[test]
fn dmi_table_uuid_after_marker() {
    let mut table = vec![0xffu8; 3];
    table.extend_from_slice(&[0x00, 0x01, 0x1b, 0x01, 0x00]);
    table.extend_from_slice(&[0u8; 4]);
    table.extend_from_slice(&UUID_BYTES);
    table.extend_from_slice(&[0u8; 8]);
    let n = table.len();
    assert_eq!(dmi_table_uuid(&table, n).unwrap(), "00112233-4455-6677-8899-aabbccddeeff");
}

#[test]
fn dmi_table_short_read_and_missing_entry() {
    let table = vec![7u8; 64];
    assert_eq!(dmi_table_uuid(&table, 24), Err(DmiTableError::TooShort));
    assert_eq!(dmi_table_uuid(&table, 64), Err(DmiTableError::NoSystemEntry));
}

#[test]
fn systemd_machine_id_in_uuid_form() {
    let uuid = systemd_machine_uuid("  0123456789abcdef0123456789abcdef\n");
    assert_eq!(uuid, "01234567-89ab-cdef-0123-456789abcdef");
}

#[test]
fn systemd_machine_id_is_cut_by_bytes() {
    let contents = "\u{e9}\u{e9}\u{e9}\u{e9}89abcdef0123456789abcdef\n";
    assert!(systemd_id_usable(contents));
    assert_eq!(systemd_machine_uuid(contents), "\u{e9}\u{e9}\u{e9}\u{e9}-89ab-cdef-0123-456789abcdef");
    assert!(!systemd_id_usable("a\u{e9}\u{e9}\u{e9}\u{e9}89abcdef0123456789abcdef"));
    assert!(!systemd_id_usable("0123456789abcdef0123456789abcde"));
    assert!(systemd_id_usable("0123456789abcdef0123456789abcdef"));
}

#[test]
fn random_uuid_has_zero_fields() {
    let uuid = get_random_uuid();
    assert!(uuid.starts_with("00000000-0000-0000-0000-"));
    assert_eq!(uuid.len(), 36);
    assert!(uuid[24..].chars().all(|c| c.is_ascii_hexdigit() && !c.is_ascii_uppercase()));
    assert_eq!(uuid_from_random_tail(&[0, 1, 0xab, 0xcd, 0xef, 0xff]), "00000000-0000-0000-0000-0001abcdefff");
}

#[test]
fn random_ids_use_the_alphabet() {
    let id = random_str(32);
    assert_eq!(id.chars().count(), 32);
    assert!(id.chars().all(|c| c.is_ascii_alphanumeric()));
    assert_eq!(random_str(0), "");
    assert_eq!(id_from_picks(&vec![0, 25, 26, 51, 52, 61]), "azAZ09");
}

#[test]
fn hex_helpers() {
    let mut s = String::new();
    push_hex(&mut s, 0xabc, 6);
    assert_eq!(s, "000abc");
    let mut s = String::new();
    push_hex(&mut s, 0x12345, 4);
    assert_eq!(s, "2345");
    let mut s = String::new();
    push_hex_min(&mut s, 0);
    assert_eq!(s, "0");
    let mut s = "x".to_string();
    push_hex_min(&mut s, 0xdead_beef);
    assert_eq!(s, "xdeadbeef");
}

#[test]
fn text_trim_and_words() {
    assert_eq!(trimmed("  a b \n"), "a b");
    assert_eq!(trimmed(""), "");
    assert_eq!(split_words(" sda  sdb\tsdc\n"), vec!["sda", "sdb", "sdc"]);
    assert!(split_words("   ").is_empty());
}

#[test]
fn text_key_values() {
    assert_eq!(split_key_value("MAJOR=8"), Some(("MAJOR".to_string(), "8".to_string())));
    assert_eq!(split_key_value("A=b=c"), Some(("A".to_string(), "b".to_string())));
    assert_eq!(split_key_value("novalue"), None);
    assert_eq!(split_key_value("K="), Some(("K".to_string(), String::new())));
    let words = split_words("MAJOR=8 MINOR=0 DEVNAME=sda junk");
    let pairs = key_values(&words);
    assert_eq!(pairs.len(), 3);
    assert_eq!(find_value(&pairs, "DEVNAME"), Some("sda".to_string()));
    assert_eq!(find_value(&pairs, "DEVTYPE"), None);
}

#[test]
fn text_numbers() {
    assert_eq!(parse_u64_text("0"), Some(0));
    assert_eq!(parse_u64_text("+42"), Some(42));
    assert_eq!(parse_u64_text("18446744073709551615"), Some(u64::MAX));
    assert_eq!(parse_u64_text("18446744073709551616"), None);
    assert_eq!(parse_u64_text(""), None);
    assert_eq!(parse_u64_text("+"), None);
    assert_eq!(parse_u64_text("12a"), None);
    assert_eq!(parse_u64_text(" 1"), None);
    let mut s = String::new();
    push_decimal(&mut s, 1024);
    assert_eq!(s, "1024");
    let mut s = "x=".to_string();
    push_decimal(&mut s, 0);
    assert_eq!(s, "x=0");
}

#[test]
fn text_small_helpers() {
    assert!(same_text("abc", "abc"));
    assert!(!same_text("abc", "abd"));
    assert!(!same_text("abc", "ab"));
    let mut s = "ab".to_string();
    push_str(&mut s, "cdé");
    assert_eq!(s, "abcdé");
}

#[test]
fn digest_known_vectors() {
    assert_eq!(md5_hex(b""), "d41d8cd98f00b204e9800998ecf8427e");
    assert_eq!(md5_hex(b"abc"), "900150983cd24fb0d6963f7d28e17f72");
    assert_eq!(sha1_hex(b"abc"), "a9993e364706816aba3e25717850c26c9cd0d89d");
    assert_eq!(sha256_hex(b"abc"), "ba7816bf8f01cfea414140de5dae2223b00361a396177a9cb410ff61f20015ad");
    assert_eq!(
        sha512_hex(b"abc"),
        "b751850b1a57168a5693cd924b6b096e08f621827444f70d884f5d0240d2712e10e116e9192af3c91a7ec57647e3934057340b4cf408d5a56592f8274eec53f0"
    );
    assert_eq!(digest_hex(HashKind::Md5, b"abc"), md5_hex(b"abc"));
}

#[test]
fn xxh3_known_vector_and_streaming() {
    assert_eq!(xxh3_hex(b""), "2d06800538d394c2");
    let data: Vec<u8> = (0..5000u32).map(|i| (i % 251) as u8).collect();
    let mut h = StreamHash::new();
    h.write(&data[..1000]);
    h.write(&data[1000..4096]);
    h.write(&data[4096..]);
    assert_eq!(h.finish_hex(), xxh3_hex(&data));
    assert_eq!(StreamHash::new().finish_hex(), "2d06800538d394c2");
}

#[test]
fn digests_in_the_order_asked() {
    let kinds = hash_kinds(true, false, true, false);
    assert_eq!(kinds, vec![HashKind::Md5, HashKind::Sha256]);
    let texts = digests_for_bytes(b"abc", &kinds);
    assert_eq!(texts, vec![md5_hex(b"abc"), sha256_hex(b"abc")]);
    assert!(hash_kinds(false, false, false, false).is_empty());
}

#[test]
fn hash_slots_put_sha1_over_md5_and_leave_the_last_empty() {
    let r = assemble_hashes(true, true, true, true, vec!["m".into(), "s1".into(), "s2".into(), "s3".into()]);
    assert_eq!(r, (Some("s1".to_string()), Some("s2".to_string()), Some("s3".to_string()), None));
    let r = assemble_hashes(true, false, false, true, vec!["m".into(), "s3".into()]);
    assert_eq!(r, (Some("m".to_string()), None, Some("s3".to_string()), None));
    let r = sha_for_bytes(b"abc", true, false, true, false);
    assert_eq!(r, (Some(md5_hex(b"abc")), Some(sha256_hex(b"abc")), None, None));
}

#[test]
fn digest_texts_have_two_digits_per_byte() {
    assert_eq!(md5_hex(b"").len(), 32);
    assert_eq!(sha1_hex(b"").len(), 40);
    assert_eq!(sha1_hex(b""), "da39a3ee5e6b4b0d3255bfef95601890afd80709");
    assert_eq!(sha256_hex(b""), "e3b0c44298fc1c149afbf4c8996fb92427ae41e4649b934ca495991b7852b855");
    assert_eq!(
        sha512_hex(b""),
        "a69f73cca23a9ac5c8b567dc185a756e97c982164fe25859e0d1dcc1475c80a615b2123af1f5f94c11e3e9402c3ac558f500199d95b6d3e301758586281dcd26"
    );
    let texts = digests_for_bytes(b"x", &vec![HashKind::Sha512, HashKind::Sha1]);
    assert_eq!(texts[0].len(), 128);
    assert_eq!(texts[1].len(), 40);
}

#[test]
fn chunked_xxh3_equals_whole() {
    let data: Vec<u8> = (0..10000u32).map(|i| (i * 7 % 256) as u8).collect();
    let chunks = vec![data[..1].to_vec(), Vec::new(), data[1..4096].to_vec(), data[4096..].to_vec()];
    assert_eq!(xxh3_hex_chunks(&chunks), xxh3_hex(&data));
    assert_eq!(xxh3_hex_chunks(&vec![]), "2d06800538d394c2");
}

#[test]
fn machine_id_sources_in_order() {
    assert!(matches!(machine_id_step(0, Some("id".to_string())), IdStep::Found(id) if id == "id"));
    assert!(matches!(machine_id_step(0, None), IdStep::Next(1)));
    assert!(matches!(machine_id_step(2, None), IdStep::Next(3)));
    assert!(matches!(machine_id_step(3, None), IdStep::GiveUp));
}
