//! How the agent names its host and its session: machine UUIDs read from
//! firmware tables or system files, and random identifiers.
use vstd::prelude::*;
use vstd::string::{StrSliceExecFns, StringExecFns, StringSliceAdditionalSpecFns};
use vstd::utf8::{
    decode_utf8, encode_utf8, encode_utf8_decode_utf8, encode_utf8_valid_utf8, is_char_boundary,
    is_char_boundary_iff_not_is_continuation_byte, is_char_boundary_start_end_of_seq,
    valid_utf8, valid_utf8_split,
};

use crate::text::{push_char, trim};

verus! {

/// The lowercase hexadecimal digit for `v` (below 16).
pub open spec fn hex_digit(v: nat) -> char {
    if v < 10 {
        ((v + 0x30) as u8) as char
    } else {
        ((v - 10 + 0x61) as u8) as char
    }
}

/// `n` in lowercase hexadecimal, zero-padded or cut to `width` digits.
pub open spec fn hex_fixed(n: nat, width: nat) -> Seq<char>
    decreases width,
{
    if width == 0 {
        Seq::empty()
    } else {
        hex_fixed(n / 16, (width - 1) as nat).push(hex_digit(n % 16))
    }
}

/// Appends the last `width` hexadecimal digits of `n` to `s`.
pub fn push_hex(s: &mut String, n: u64, width: u64)
    ensures
        final(s)@ == old(s)@ + hex_fixed(n as nat, width as nat),
    decreases width,
{
    if width > 0 {
        push_hex(s, n / 16, width - 1);
        let d = (n % 16) as u8;
        let c = if d < 10 {
            (0x30u8 + d) as char
        } else {
            (0x61u8 + (d - 10)) as char
        };
        push_char(s, c);
    }
    assert(final(s)@ =~= old(s)@ + hex_fixed(n as nat, width as nat));
}

/// Two bytes read as a little-endian number.
pub open spec fn le16(b: Seq<u8>, at: int) -> nat {
    (b[at] + b[at + 1] * 256) as nat
}

/// Four bytes read as a little-endian number.
pub open spec fn le32(b: Seq<u8>, at: int) -> nat {
    (b[at] + b[at + 1] * 256 + b[at + 2] * 65536 + b[at + 3] * 16777216) as nat
}

/// Two bytes read as a big-endian number.
pub open spec fn be16(b: Seq<u8>, at: int) -> nat {
    (b[at] * 256 + b[at + 1]) as nat
}

/// Each byte of `b` as two lowercase hexadecimal digits.
pub open spec fn hex_bytes(b: Seq<u8>) -> Seq<char>
    decreases b.len(),
{
    if b.len() == 0 {
        Seq::empty()
    } else {
        hex_bytes(b.drop_last()) + hex_fixed(b.last() as nat, 2)
    }
}

/// The UUID text of the SMBIOS system UUID stored at `at`: its first three
/// fields little-endian, the rest as stored.
pub open spec fn uuid_text(b: Seq<u8>, at: int) -> Seq<char> {
    hex_fixed(le32(b, at), 8) + seq!['-'] + hex_fixed(le16(b, at + 4), 4) + seq!['-'] + hex_fixed(
        le16(b, at + 6),
        4,
    ) + seq!['-'] + hex_fixed(be16(b, at + 8), 4) + seq!['-'] + hex_bytes(
        b.subrange(at + 10, at + 16),
    )
}

fn push_hex_bytes(s: &mut String, b: &[u8], from: usize, to: usize)
    requires
        from <= to <= b@.len(),
    ensures
        final(s)@ == old(s)@ + hex_bytes(b@.subrange(from as int, to as int)),
{
    let mut i = from;
    assert(hex_bytes(b@.subrange(from as int, from as int)) =~= Seq::<char>::empty());
    assert(s@ =~= old(s)@ + hex_bytes(b@.subrange(from as int, from as int)));
    while i < to
        invariant
            from <= i <= to <= b@.len(),
            s@ == old(s)@ + hex_bytes(b@.subrange(from as int, i as int)),
        decreases to - i,
    {
        push_hex(s, b[i] as u64, 2);
        assert(b@.subrange(from as int, i + 1).drop_last() =~= b@.subrange(from as int, i as int));
        assert(s@ =~= old(s)@ + hex_bytes(b@.subrange(from as int, i + 1)));
        i = i + 1;
    }
}

/// The UUID text of the SMBIOS system UUID whose 16 bytes start at `offset`.
pub fn get_uuid_string_from_buf(buf: &[u8], offset: usize) -> (uuid: String)
    requires
        offset + 16 <= buf@.len(),
    ensures
        uuid@ == uuid_text(buf@, offset as int),
{
    let p1 = buf[offset] as u64 + buf[offset + 1] as u64 * 256 + buf[offset + 2] as u64 * 65536
        + buf[offset + 3] as u64 * 16777216;
    let p2 = buf[offset + 4] as u64 + buf[offset + 5] as u64 * 256;
    let p3 = buf[offset + 6] as u64 + buf[offset + 7] as u64 * 256;
    let p4 = buf[offset + 8] as u64 * 256 + buf[offset + 9] as u64;
    let mut s = String::new();
    push_hex(&mut s, p1, 8);
    push_char(&mut s, '-');
    push_hex(&mut s, p2, 4);
    push_char(&mut s, '-');
    push_hex(&mut s, p3, 4);
    push_char(&mut s, '-');
    push_hex(&mut s, p4, 4);
    push_char(&mut s, '-');
    push_hex_bytes(&mut s, buf, offset + 10, offset + 16);
    assert(s@ =~= uuid_text(buf@, offset as int));
    s
}

/// The machine UUID from the raw SMBIOS system entry, whose UUID starts at byte 8.
pub fn dmi_entry_uuid(entry: &[u8]) -> (uuid: String)
    requires
        entry@.len() >= 24,
    ensures
        uuid@ == uuid_text(entry@, 8),
{
    get_uuid_string_from_buf(entry, 8)
}

/// The bytes that open the SMBIOS system-information structure in the DMI table.
pub open spec fn system_entry_marker() -> Seq<u8> {
    seq![0x00u8, 0x01u8, 0x1bu8, 0x01u8, 0x00u8]
}

/// Whether the marker starts at `at` in `b`.
pub open spec fn marker_at(b: Seq<u8>, at: int) -> bool {
    0 <= at && at + 5 <= b.len() && b.subrange(at, at + 5) == system_entry_marker()
}

/// The first position of the marker in `b`.
pub open spec fn first_marker(b: Seq<u8>) -> Option<int> {
    if exists|p: int| marker_at(b, p) {
        Some(choose|p: int| marker_at(b, p) && forall|q: int| 0 <= q < p ==> !marker_at(b, q))
    } else {
        None
    }
}

/// Why the DMI table held no machine UUID.
#[derive(Debug, Clone, Copy, PartialEq, Eq)]
pub enum DmiTableError {
    /// Fewer than 25 bytes could be read.
    TooShort,
    /// No system-information structure was found.
    NoSystemEntry,
}

/// The first position of the system-information marker in `b`, if any.
pub fn first_marker_position(b: &[u8]) -> (pos: Option<usize>)
    ensures
        match pos {
            Some(p) => marker_at(b@, p as int) && forall|q: int| 0 <= q < p ==> !marker_at(b@, q),
            None => forall|q: int| !marker_at(b@, q),
        },
{
    let n = b.len();
    if n < 5 {
        return None;
    }
    let mut i: usize = 0;
    while i <= n - 5
        invariant
            n == b@.len(),
            5 <= n,
            0 <= i <= n - 4,
            forall|q: int| 0 <= q < i ==> !marker_at(b@, q),
        decreases n - i,
    {
        if b[i] == 0x00 && b[i + 1] == 0x01 && b[i + 2] == 0x1b && b[i + 3] == 0x01 && b[i + 4]
            == 0x00 {
            assert(b@.subrange(i as int, i + 5) =~= system_entry_marker());
            return Some(i);
        }
        assert(!marker_at(b@, i as int)) by {
            if marker_at(b@, i as int) {
                assert(b@.subrange(i as int, i + 5)[0] == b@[i as int]);
                assert(b@.subrange(i as int, i + 5)[1] == b@[i + 1]);
                assert(b@.subrange(i as int, i + 5)[2] == b@[i + 2]);
                assert(b@.subrange(i as int, i + 5)[3] == b@[i + 3]);
                assert(b@.subrange(i as int, i + 5)[4] == b@[i + 4]);
            }
        }
        i = i + 1;
    }
    None
}

/// The machine UUID from the start of the DMI table: `table` holds what was
/// read into the buffer, `read` how many bytes the read filled. The UUID
/// sits 9 bytes past the first system-information marker anywhere in the
/// buffer.
pub fn dmi_table_uuid(table: &[u8], read: usize) -> (uuid: Result<String, DmiTableError>)
    requires
        read >= 25 ==> match first_marker(table@) {
            Some(p) => p + 25 <= table@.len(),
            None => true,
        },
    ensures
        read < 25 ==> uuid == Err::<String, DmiTableError>(DmiTableError::TooShort),
        read >= 25 ==> match first_marker(table@) {
            Some(p) => uuid matches Ok(u) && u@ == uuid_text(table@, p + 9),
            None => uuid == Err::<String, DmiTableError>(DmiTableError::NoSystemEntry),
        },
{
    if read < 25 {
        return Err(DmiTableError::TooShort);
    }
    let n = table.len();
    match first_marker_position(table) {
        Some(p) => {
            proof {
                assert(marker_at(table@, p as int));
                let c = first_marker(table@)->0;
                assert(marker_at(table@, c));
                assert(c == p as int);

            }
            Ok(get_uuid_string_from_buf(table, p + 9))
        },
        None => Err(DmiTableError::NoSystemEntry),
    }
}

/// The UTF-8 bytes of the trimmed systemd machine id can be cut at bytes 8,
/// 12, 16, 20 and 32: it has at least 32 bytes and each cut falls between
/// two characters.
pub open spec fn systemd_id_cuttable(id: Seq<char>) -> bool {
    let b = encode_utf8(id);
    &&& b.len() >= 32
    &&& is_char_boundary(b, 8)
    &&& is_char_boundary(b, 12)
    &&& is_char_boundary(b, 16)
    &&& is_char_boundary(b, 20)
    &&& is_char_boundary(b, 32)
}

/// The systemd machine id, read from `/etc/machine-id`, in UUID form: its
/// first 32 bytes cut 8-4-4-4-12 and joined by hyphens.
pub open spec fn systemd_uuid_text(id: Seq<char>) -> Seq<char> {
    let b = encode_utf8(id);
    decode_utf8(b.subrange(0, 8)) + seq!['-'] + decode_utf8(b.subrange(8, 12)) + seq!['-']
        + decode_utf8(b.subrange(12, 16)) + seq!['-'] + decode_utf8(b.subrange(16, 20)) + seq![
        '-',
    ] + decode_utf8(b.subrange(20, 32))
}

/// Whether the contents of `/etc/machine-id` can be put in UUID form.
pub fn systemd_id_usable(contents: &str) -> (usable: bool)
    ensures
        usable == systemd_id_cuttable(trim(contents@)),
{
    let id = crate::text::trimmed(contents);
    let s = id.as_str();
    s.as_bytes().len() >= 32 && s.is_char_boundary(8) && s.is_char_boundary(12) && s.is_char_boundary(16)
        && s.is_char_boundary(20) && s.is_char_boundary(32)
}

/// A boundary of `b` past `k` is a boundary of what follows `k`.
proof fn lemma_boundary_in_rest(b: Seq<u8>, k: int, i: int)
    requires
        valid_utf8(b),
        0 <= k,
        0 <= i,
        k + i <= b.len(),
        is_char_boundary(b, k),
        is_char_boundary(b, k + i),
    ensures
        valid_utf8(b.subrange(k, b.len() as int)),
        is_char_boundary(b.subrange(k, b.len() as int), i),
{
    let r = b.subrange(k, b.len() as int);
    valid_utf8_split(b, k);
    is_char_boundary_start_end_of_seq(r);
    if 0 < i < r.len() {
        is_char_boundary_iff_not_is_continuation_byte(b, k + i);
        is_char_boundary_iff_not_is_continuation_byte(r, i);
        assert(r[i] == b[k + i]);
    }
}

/// The characters of a piece of text are what its bytes decode to.
proof fn lemma_piece(piece: Seq<char>, bytes: Seq<u8>)
    requires
        encode_utf8(piece) == bytes,
    ensures
        piece == decode_utf8(bytes),
{
    encode_utf8_decode_utf8(piece);
}

/// The systemd machine id in UUID form, from the contents of `/etc/machine-id`.
pub fn systemd_machine_uuid(contents: &str) -> (uuid: String)
    requires
        systemd_id_cuttable(trim(contents@)),
    ensures
        uuid@ == systemd_uuid_text(trim(contents@)),
{
    let id = crate::text::trimmed(contents);
    let s = id.as_str();
    let ghost b = s.spec_bytes();
    proof {
        encode_utf8_valid_utf8(s@);
        is_char_boundary_start_end_of_seq(b);
        lemma_boundary_in_rest(b, 8, 4);
        lemma_boundary_in_rest(b, 12, 4);
        lemma_boundary_in_rest(b, 16, 4);
        lemma_boundary_in_rest(b, 20, 12);
        assert(b.subrange(8, b.len() as int).subrange(4, b.len() - 8) =~= b.subrange(12, b.len() as int));
        assert(b.subrange(12, b.len() as int).subrange(4, b.len() - 12) =~= b.subrange(16, b.len() as int));
        assert(b.subrange(16, b.len() as int).subrange(4, b.len() - 16) =~= b.subrange(20, b.len() as int));
    }
    let (p1, r1) = s.split_at(8);
    let (p2, r2) = r1.split_at(4);
    let (p3, r3) = r2.split_at(4);
    let (p4, r4) = r3.split_at(4);
    let (p5, _) = r4.split_at(12);
    proof {
        assert(b.subrange(8, b.len() as int).subrange(0, 4) =~= b.subrange(8, 12));
        assert(b.subrange(12, b.len() as int).subrange(0, 4) =~= b.subrange(12, 16));
        assert(b.subrange(16, b.len() as int).subrange(0, 4) =~= b.subrange(16, 20));
        assert(b.subrange(20, b.len() as int).subrange(0, 12) =~= b.subrange(20, 32));
        lemma_piece(p1@, b.subrange(0, 8));
        lemma_piece(p2@, b.subrange(8, 12));
        lemma_piece(p3@, b.subrange(12, 16));
        lemma_piece(p4@, b.subrange(16, 20));
        lemma_piece(p5@, b.subrange(20, 32));
    }
    let mut u = p1.to_owned();
    push_char(&mut u, '-');
    u.append(p2);
    push_char(&mut u, '-');
    u.append(p3);
    push_char(&mut u, '-');
    u.append(p4);
    push_char(&mut u, '-');
    u.append(p5);
    u
}

/// How many sources the agent reads its machine id from, in order: sysfs,
/// the DMI entry, the DMI table and the systemd machine id.
pub const MACHINE_ID_SOURCES: u32 = 4;

/// What the agent does after reading one machine-id source.
#[derive(Debug, Clone)]
pub enum IdStep {
    /// The source gave this id: use it.
    Found(String),
    /// Try the source with this index next.
    Next(u32),
    /// No source gave an id.
    GiveUp,
}

/// The next step after source `tried` (counted from 0) gave `outcome`: its
/// id if it gave one, else the next source, until all four were tried.
pub fn machine_id_step(tried: u32, outcome: Option<String>) -> (step: IdStep)
    requires
        tried < MACHINE_ID_SOURCES,
    ensures
        match outcome {
            Some(id) => step == IdStep::Found(id),
            None => if tried + 1 < MACHINE_ID_SOURCES {
                step == IdStep::Next((tried + 1) as u32)
            } else {
                step == IdStep::GiveUp
            },
        },
{
    match outcome {
        Some(id) => IdStep::Found(id),
        None => if tried + 1 < MACHINE_ID_SOURCES {
            IdStep::Next(tried + 1)
        } else {
            IdStep::GiveUp
        },
    }
}

/// Six random bytes.
///
/// Calls `rand::random::<[u8; 6]>()`, which draws from the thread-local
/// generator; the contract states only the count, which every outcome has.
#[verifier::external_body]
fn random_tail_bytes() -> (bytes: Vec<u8>)
    ensures
        bytes@.len() == 6,
{
    rand::random::<[u8; 6]>().to_vec()
}

/// A random index below `bound`.
///
/// Calls `Rng::random_range(0..bound)` on `rand::rng()`, the thread-local
/// generator; it panics on an empty range, which `requires` excludes, and
/// every outcome lies in the range.
#[verifier::external_body]
fn random_index(bound: usize) -> (i: usize)
    requires
        bound > 0,
    ensures
        i < bound,
{
    rand::Rng::random_range(&mut rand::rng(), 0..bound)
}

/// A UUID whose first fields are zero and whose last field is `tail` in hexadecimal.
pub open spec fn random_uuid_text(tail: Seq<u8>) -> Seq<char> {
    "00000000-0000-0000-0000-"@ + hex_bytes(tail)
}

/// The placeholder UUID built from six random bytes.
pub fn uuid_from_random_tail(tail: &[u8]) -> (uuid: String)
    requires
        tail@.len() == 6,
    ensures
        uuid@ == random_uuid_text(tail@),
{
    let mut s = String::from_str("00000000-0000-0000-0000-");
    push_hex_bytes(&mut s, tail, 0, 6);
    assert(tail@.subrange(0, 6) =~= tail@);
    s
}

/// A placeholder machine UUID: zero fields, then six random bytes.
pub fn get_random_uuid() -> (uuid: String)
    ensures
        exists|tail: Seq<u8>| tail.len() == 6 && uuid@ == random_uuid_text(tail),
{
    let tail = random_tail_bytes();
    uuid_from_random_tail(tail.as_slice())
}

/// The characters random identifiers are made of.
pub open spec fn id_alphabet() -> Seq<char> {
    "abcdefghijklmnopqrstuvwxyzABCDEFGHIJKLMNOPQRSTUVWXYZ0123456789"@
}

/// The identifier whose characters are the alphabet's characters at `picks`.
pub fn id_from_picks(picks: &Vec<usize>) -> (id: String)
    requires
        forall|k: int| 0 <= k < picks.len() ==> picks@[k] < 62,
    ensures
        id@.len() == picks.len(),
        forall|k: int| 0 <= k < picks.len() ==> id@[k] == id_alphabet()[picks@[k] as int],
{
    let alphabet = "abcdefghijklmnopqrstuvwxyzABCDEFGHIJKLMNOPQRSTUVWXYZ0123456789";
    proof {
        reveal_strlit("abcdefghijklmnopqrstuvwxyzABCDEFGHIJKLMNOPQRSTUVWXYZ0123456789");
    }
    let mut id = String::new();
    let mut k: usize = 0;
    while k < picks.len()
        invariant
            0 <= k <= picks.len(),
            alphabet@ == id_alphabet(),
            alphabet@.len() == 62,
            forall|j: int| 0 <= j < picks.len() ==> picks@[j] < 62,
            id@.len() == k,
            forall|j: int| 0 <= j < k ==> id@[j] == id_alphabet()[picks@[j] as int],
        decreases picks.len() - k,
    {
        let c = alphabet.get_char(picks[k]);
        push_char(&mut id, c);
        k = k + 1;
    }
    id
}

/// A random identifier of `len` characters drawn from letters and digits.
pub fn random_str(len: usize) -> (id: String)
    ensures
        id@.len() == len,
        forall|k: int| 0 <= k < len ==> id_alphabet().contains(#[trigger] id@[k]),
{
    let mut picks: Vec<usize> = Vec::new();
    let mut k: usize = 0;
    while k < len
        invariant
            0 <= k <= len,
            picks.len() == k,
            forall|j: int| 0 <= j < k ==> picks@[j] < 62,
        decreases len - k,
    {
        picks.push(random_index(62));
        k = k + 1;
    }
    let id = id_from_picks(&picks);
    proof {
        reveal_strlit("abcdefghijklmnopqrstuvwxyzABCDEFGHIJKLMNOPQRSTUVWXYZ0123456789");
    }
    assert forall|j: int| 0 <= j < len implies id_alphabet().contains(#[trigger] id@[j]) by {
        assert(id@[j] == id_alphabet()[picks@[j] as int]);
    }
    id
}

} // verus!
