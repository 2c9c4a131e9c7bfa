//! File hashes: xxh3 for transfers, and MD5, SHA-1, SHA-256 and SHA3-512
//! digests written in lowercase hexadecimal. The bytes come from the
//! caller, which reads the file.
use vstd::prelude::*;

use crate::agent::identity::{hex_bytes, hex_digit, hex_fixed};
use crate::text::push_char;

verus! {

/// The MD5 digest of `data`.
pub uninterp spec fn md5_digest(data: Seq<u8>) -> Seq<u8>;

/// The SHA-1 digest of `data`.
pub uninterp spec fn sha1_digest(data: Seq<u8>) -> Seq<u8>;

/// The SHA-256 digest of `data`.
pub uninterp spec fn sha256_digest(data: Seq<u8>) -> Seq<u8>;

/// The SHA3-512 digest of `data`.
pub uninterp spec fn sha3_512_digest(data: Seq<u8>) -> Seq<u8>;

/// The 64-bit xxh3 hash of `data` (seed 0, default secret).
pub uninterp spec fn xxh3_64_of(data: Seq<u8>) -> u64;

/// The MD5 digest of `data`.
///
/// Calls `<md5::Md5 as digest::Digest>::digest` (crate `md-5`); the contract
/// names the digest and states its documented 16-byte length.
#[verifier::external_body]
fn md5_bytes(data: &[u8]) -> (d: Vec<u8>)
    ensures
        d@ == md5_digest(data@),
        d@.len() == 16,
{
    <md5::Md5 as digest::Digest>::digest(data).to_vec()
}

/// The SHA-1 digest of `data`.
///
/// Calls `<sha1::Sha1 as digest::Digest>::digest`; the contract names the
/// digest and states its 20-byte length.
#[verifier::external_body]
fn sha1_bytes(data: &[u8]) -> (d: Vec<u8>)
    ensures
        d@ == sha1_digest(data@),
        d@.len() == 20,
{
    <sha1::Sha1 as digest::Digest>::digest(data).to_vec()
}

/// The SHA-256 digest of `data`.
///
/// Calls `<sha2::Sha256 as digest::Digest>::digest`; the contract names the
/// digest and states its 32-byte length.
#[verifier::external_body]
fn sha256_bytes(data: &[u8]) -> (d: Vec<u8>)
    ensures
        d@ == sha256_digest(data@),
        d@.len() == 32,
{
    <sha2::Sha256 as digest::Digest>::digest(data).to_vec()
}

/// The SHA3-512 digest of `data`.
///
/// Calls `<sha3::Sha3_512 as digest::Digest>::digest`; the contract names
/// the digest and states its 64-byte length.
#[verifier::external_body]
fn sha3_512_bytes(data: &[u8]) -> (d: Vec<u8>)
    ensures
        d@ == sha3_512_digest(data@),
        d@.len() == 64,
{
    <sha3::Sha3_512 as digest::Digest>::digest(data).to_vec()
}

/// `bytes` in lowercase hexadecimal.
///
/// Calls `base16ct::lower::encode_string`, which writes each byte as two
/// lowercase hexadecimal digits, high nibble first; it panics only on
/// inputs longer than `usize::MAX / 2`, which `requires` excludes.
#[verifier::external_body]
fn lower_hex(bytes: &[u8]) -> (text: String)
    requires
        bytes@.len() <= usize::MAX / 2,
    ensures
        text@ == hex_bytes(bytes@),
{
    base16ct::lower::encode_string(bytes)
}

/// The xxh3 hash of `data`.
///
/// Calls `xxhash_rust::xxh3::xxh3_64`; the contract names its result.
#[verifier::external_body]
fn xxh3_64(data: &[u8]) -> (h: u64)
    ensures
        h == xxh3_64_of(data@),
{
    xxhash_rust::xxh3::xxh3_64(data)
}

#[verifier::external_type_specification]
#[verifier::external_body]
pub struct ExXxh3(xxhash_rust::xxh3::Xxh3);

/// The bytes a streaming xxh3 hasher has taken in.
pub uninterp spec fn xxh3_absorbed(h: xxhash_rust::xxh3::Xxh3) -> Seq<u8>;

/// A streaming xxh3 hasher that has taken in nothing.
///
/// Calls `Xxh3::new`, which makes a hasher with seed 0 and the default secret.
#[verifier::external_body]
fn xxh3_new() -> (h: xxhash_rust::xxh3::Xxh3)
    ensures
        xxh3_absorbed(h) == Seq::<u8>::empty(),
{
    xxhash_rust::xxh3::Xxh3::new()
}

/// Feeds `chunk` to a streaming xxh3 hasher.
///
/// Calls `Xxh3::update`, which hashes the chunk as the continuation of
/// what the hasher took in before.
#[verifier::external_body]
fn xxh3_update(h: &mut xxhash_rust::xxh3::Xxh3, chunk: &[u8])
    ensures
        xxh3_absorbed(*final(h)) == xxh3_absorbed(*old(h)) + chunk@,
{
    h.update(chunk);
}

/// The hash of what a streaming xxh3 hasher took in.
///
/// Calls `Xxh3::digest`, which gives the same hash as the one-shot
/// `xxh3_64` of everything the hasher took in.
#[verifier::external_body]
fn xxh3_digest(h: &xxhash_rust::xxh3::Xxh3) -> (d: u64)
    ensures
        d == xxh3_64_of(xxh3_absorbed(*h)),
{
    h.digest()
}

/// `n` in lowercase hexadecimal without leading zeros (what `{:x}` writes).
pub open spec fn hex_min(n: nat) -> Seq<char>
    decreases n,
{
    if n < 16 {
        seq![hex_digit(n)]
    } else {
        hex_min(n / 16).push(hex_digit(n % 16))
    }
}

/// Appends `n` in lowercase hexadecimal without leading zeros.
pub fn push_hex_min(s: &mut String, n: u64)
    ensures
        final(s)@ == old(s)@ + hex_min(n as nat),
    decreases n,
{
    if n >= 16 {
        push_hex_min(s, n / 16);
    }
    let d = (n % 16) as u8;
    let c = if d < 10 {
        (0x30u8 + d) as char
    } else {
        (0x61u8 + (d - 10)) as char
    };
    push_char(s, c);
    assert(final(s)@ =~= old(s)@ + hex_min(n as nat));
}

/// The xxh3 hash of a file's bytes, as the agent reports it: lowercase
/// hexadecimal without leading zeros.
pub fn xxh3_hex(data: &[u8]) -> (text: String)
    ensures
        text@ == hex_min(xxh3_64_of(data@) as nat),
{
    let mut s = String::new();
    push_hex_min(&mut s, xxh3_64(data));
    assert(s@ =~= hex_min(xxh3_64_of(data@) as nat));
    s
}

/// A running xxh3 hash of data that arrives in chunks.
pub struct StreamHash {
    state: xxhash_rust::xxh3::Xxh3,
}

impl StreamHash {
    /// The bytes taken in so far.
    pub closed spec fn absorbed(&self) -> Seq<u8> {
        xxh3_absorbed(self.state)
    }

    /// A hash of nothing yet.
    pub fn new() -> (h: Self)
        ensures
            h.absorbed() == Seq::<u8>::empty(),
    {
        StreamHash { state: xxh3_new() }
    }

    /// Takes in the next chunk.
    pub fn write(&mut self, chunk: &[u8])
        ensures
            final(self).absorbed() == old(self).absorbed() + chunk@,
    {
        xxh3_update(&mut self.state, chunk);
    }

    /// The hash of everything taken in, as the agent reports it.
    pub fn finish_hex(&self) -> (text: String)
        ensures
            text@ == hex_min(xxh3_64_of(self.absorbed()) as nat),
    {
        let mut s = String::new();
        push_hex_min(&mut s, xxh3_digest(&self.state));
        assert(s@ =~= hex_min(xxh3_64_of(self.absorbed()) as nat));
        s
    }
}

/// The bytes of `chunks`, one after another.
pub open spec fn joined(chunks: Seq<Seq<u8>>) -> Seq<u8>
    decreases chunks.len(),
{
    if chunks.len() == 0 {
        Seq::empty()
    } else {
        joined(chunks.drop_last()) + chunks.last()
    }
}

/// What a stream hash has taken in after starting from `start` and taking
/// in `chunks`, first to last, one write each.
pub open spec fn fed(start: Seq<u8>, chunks: Seq<Seq<u8>>) -> Seq<u8>
    decreases chunks.len(),
{
    if chunks.len() == 0 {
        start
    } else {
        fed(start + chunks[0], chunks.drop_first())
    }
}

/// Writing chunks one by one to a stream hash takes in their concatenation,
/// so its hash is the hash of the whole content: a file hashed chunk by chunk
/// as it arrives has the hash it has when read back whole.
pub proof fn law_chunks_hash_as_whole(start: Seq<u8>, chunks: Seq<Seq<u8>>)
    ensures
        fed(start, chunks) == start + joined(chunks),
        hex_min(xxh3_64_of(fed(Seq::empty(), chunks)) as nat) == hex_min(
            xxh3_64_of(joined(chunks)) as nat,
        ),
{
    lemma_fed_from(start, chunks);
    lemma_fed_empty(chunks);
}

/// The concatenation of chunks is the first chunk followed by the rest's.
proof fn lemma_joined_front(chunks: Seq<Seq<u8>>)
    requires
        chunks.len() > 0,
    ensures
        joined(chunks) == chunks[0] + joined(chunks.drop_first()),
    decreases chunks.len(),
{
    if chunks.len() == 1 {
        assert(chunks.drop_first() =~= Seq::<Seq<u8>>::empty());
        assert(chunks.drop_last() =~= Seq::<Seq<u8>>::empty());
        assert(joined(chunks.drop_last()) =~= Seq::<u8>::empty());
        assert(chunks.last() == chunks[0]);
        assert(joined(chunks.drop_first()) =~= Seq::<u8>::empty());
        assert(joined(chunks) =~= chunks[0]);
    } else {
        let init = chunks.drop_last();
        lemma_joined_front(init);
        assert(init.drop_first() =~= chunks.drop_first().drop_last());
        assert(chunks.drop_first().last() == chunks.last());
        assert(joined(chunks) =~= chunks[0] + joined(chunks.drop_first()));
    }
}

/// Starting from nothing, what is fed is the concatenation.
proof fn lemma_fed_empty(chunks: Seq<Seq<u8>>)
    ensures
        fed(Seq::empty(), chunks) == joined(chunks),
{
    lemma_fed_from(Seq::empty(), chunks);
    assert(Seq::<u8>::empty() + joined(chunks) =~= joined(chunks));
}

/// What is fed from `start` is `start` followed by the concatenation.
proof fn lemma_fed_from(start: Seq<u8>, chunks: Seq<Seq<u8>>)
    ensures
        fed(start, chunks) == start + joined(chunks),
    decreases chunks.len(),
{
    if chunks.len() > 0 {
        lemma_fed_from(start + chunks[0], chunks.drop_first());
        lemma_joined_front(chunks);
        assert(start + chunks[0] + joined(chunks.drop_first()) =~= start + joined(chunks));
    } else {
        assert(start + joined(chunks) =~= start);
    }
}

/// The views of a list of byte vectors.
pub open spec fn chunk_views(chunks: Seq<Vec<u8>>) -> Seq<Seq<u8>> {
    chunks.map_values(|c: Vec<u8>| c@)
}

/// The xxh3 hash of content that arrives in chunks, as the agent reports it.
pub fn xxh3_hex_chunks(chunks: &Vec<Vec<u8>>) -> (text: String)
    ensures
        text@ == hex_min(xxh3_64_of(joined(chunk_views(chunks@))) as nat),
{
    let mut h = StreamHash::new();
    let mut i: usize = 0;
    while i < chunks.len()
        invariant
            0 <= i <= chunks.len(),
            h.absorbed() == joined(chunk_views(chunks@).take(i as int)),
        decreases chunks.len() - i,
    {
        assert(chunk_views(chunks@).take(i + 1).drop_last() =~= chunk_views(chunks@).take(i as int));
        h.write(chunks[i].as_slice());
        i = i + 1;
    }
    assert(chunk_views(chunks@).take(chunks.len() as int) =~= chunk_views(chunks@));
    h.finish_hex()
}

/// A digest algorithm.
#[derive(Debug, Clone, Copy, PartialEq, Eq)]
pub enum HashKind {
    Md5,
    Sha1,
    Sha256,
    /// SHA3-512.
    Sha512,
}

/// The digest of `data` under `kind`.
pub open spec fn digest_of(kind: HashKind, data: Seq<u8>) -> Seq<u8> {
    match kind {
        HashKind::Md5 => md5_digest(data),
        HashKind::Sha1 => sha1_digest(data),
        HashKind::Sha256 => sha256_digest(data),
        HashKind::Sha512 => sha3_512_digest(data),
    }
}

/// Why a file could not be hashed.
#[derive(Debug, Clone, Copy, PartialEq, Eq)]
pub enum HashError {
    /// The digest could not be written in hexadecimal.
    Base16Error,
    /// The file could not be read.
    IoError,
}

/// How many bytes a digest under `kind` has.
pub open spec fn digest_size(kind: HashKind) -> nat {
    match kind {
        HashKind::Md5 => 16,
        HashKind::Sha1 => 20,
        HashKind::Sha256 => 32,
        HashKind::Sha512 => 64,
    }
}

/// `n` written with `width` digits has `width` characters.
proof fn lemma_hex_fixed_len(n: nat, width: nat)
    ensures
        hex_fixed(n, width).len() == width,
    decreases width,
{
    if width > 0 {
        lemma_hex_fixed_len(n / 16, (width - 1) as nat);
    }
}

/// Bytes in hexadecimal take two characters each.
pub proof fn lemma_hex_bytes_len(b: Seq<u8>)
    ensures
        hex_bytes(b).len() == 2 * b.len(),
    decreases b.len(),
{
    if b.len() > 0 {
        lemma_hex_bytes_len(b.drop_last());
        lemma_hex_fixed_len(b.last() as nat, 2);
    }
}

/// The digest of `data` under `kind`, in lowercase hexadecimal: two digits
/// for each byte of the digest.
pub fn digest_hex(kind: HashKind, data: &[u8]) -> (text: String)
    ensures
        text@ == hex_bytes(digest_of(kind, data@)),
        text@.len() == 2 * digest_size(kind),
{
    let d = match kind {
        HashKind::Md5 => md5_bytes(data),
        HashKind::Sha1 => sha1_bytes(data),
        HashKind::Sha256 => sha256_bytes(data),
        HashKind::Sha512 => sha3_512_bytes(data),
    };
    proof {
        lemma_hex_bytes_len(d@);
    }
    lower_hex(d.as_slice())
}

/// The MD5 digest of a file's bytes, in lowercase hexadecimal.
pub fn md5_hex(data: &[u8]) -> (text: String)
    ensures
        text@ == hex_bytes(md5_digest(data@)),
        text@.len() == 32,
{
    digest_hex(HashKind::Md5, data)
}

/// The SHA-1 digest of a file's bytes, in lowercase hexadecimal.
pub fn sha1_hex(data: &[u8]) -> (text: String)
    ensures
        text@ == hex_bytes(sha1_digest(data@)),
        text@.len() == 40,
{
    digest_hex(HashKind::Sha1, data)
}

/// The SHA-256 digest of a file's bytes, in lowercase hexadecimal.
pub fn sha256_hex(data: &[u8]) -> (text: String)
    ensures
        text@ == hex_bytes(sha256_digest(data@)),
        text@.len() == 64,
{
    digest_hex(HashKind::Sha256, data)
}

/// The SHA3-512 digest of a file's bytes, in lowercase hexadecimal.
pub fn sha512_hex(data: &[u8]) -> (text: String)
    ensures
        text@ == hex_bytes(sha3_512_digest(data@)),
        text@.len() == 128,
{
    digest_hex(HashKind::Sha512, data)
}

/// The digests of `data` under each of `kinds`, in order, in lowercase hexadecimal.
pub fn digests_for_bytes(data: &[u8], kinds: &Vec<HashKind>) -> (texts: Vec<String>)
    ensures
        texts.len() == kinds.len(),
        forall|i: int|
            0 <= i < kinds.len() ==> #[trigger] texts@[i]@ == hex_bytes(digest_of(kinds@[i], data@)),
        forall|i: int|
            0 <= i < kinds.len() ==> #[trigger] texts@[i]@.len() == 2 * digest_size(kinds@[i]),
{
    let mut texts: Vec<String> = Vec::new();
    let mut i: usize = 0;
    while i < kinds.len()
        invariant
            0 <= i <= kinds.len(),
            texts.len() == i,
            forall|j: int|
                0 <= j < i ==> #[trigger] texts@[j]@ == hex_bytes(digest_of(kinds@[j], data@)),
            forall|j: int|
                0 <= j < i ==> #[trigger] texts@[j]@.len() == 2 * digest_size(kinds@[j]),
        decreases kinds.len() - i,
    {
        texts.push(digest_hex(kinds[i], data));
        i = i + 1;
    }
    texts
}

/// The digests asked for, in the order md5, sha1, sha256, sha512.
pub open spec fn kinds_asked(md5: bool, sha1: bool, sha256: bool, sha512: bool) -> Seq<HashKind> {
    (if md5 {
        seq![HashKind::Md5]
    } else {
        Seq::empty()
    }) + (if sha1 {
        seq![HashKind::Sha1]
    } else {
        Seq::empty()
    }) + (if sha256 {
        seq![HashKind::Sha256]
    } else {
        Seq::empty()
    }) + (if sha512 {
        seq![HashKind::Sha512]
    } else {
        Seq::empty()
    })
}

/// The digests asked for, in the order md5, sha1, sha256, sha512.
pub fn hash_kinds(md5: bool, sha1: bool, sha256: bool, sha512: bool) -> (kinds: Vec<HashKind>)
    ensures
        kinds@ == kinds_asked(md5, sha1, sha256, sha512),
{
    let mut kinds: Vec<HashKind> = Vec::new();
    if md5 {
        kinds.push(HashKind::Md5);
    }
    if sha1 {
        kinds.push(HashKind::Sha1);
    }
    if sha256 {
        kinds.push(HashKind::Sha256);
    }
    if sha512 {
        kinds.push(HashKind::Sha512);
    }
    assert(kinds@ =~= kinds_asked(md5, sha1, sha256, sha512));
    kinds
}

/// The slots of the hash tuple, filled from `hashes` in the order the
/// digests were asked for: the MD5 digest in the first slot, the SHA-1
/// digest in the first slot too (over the MD5 digest), the SHA-256 digest
/// in the second and the SHA3-512 digest in the third; the fourth is never
/// filled.
pub open spec fn hash_slots(
    md5: bool,
    sha1: bool,
    sha256: bool,
    sha512: bool,
    hashes: Seq<String>,
) -> (Option<String>, Option<String>, Option<String>, Option<String>) {
    let i_sha1: int = if md5 {
        1
    } else {
        0
    };
    let i_sha256: int = i_sha1 + if sha1 {
        1int
    } else {
        0
    };
    let i_sha512: int = i_sha256 + if sha256 {
        1int
    } else {
        0
    };
    let first = if sha1 {
        Some(hashes[i_sha1])
    } else if md5 {
        Some(hashes[0])
    } else {
        None
    };
    let second = if sha256 {
        Some(hashes[i_sha256])
    } else {
        None
    };
    let third = if sha512 {
        Some(hashes[i_sha512])
    } else {
        None
    };
    (first, second, third, None)
}

/// Fills the hash tuple from the digests computed for the flags.
pub fn assemble_hashes(
    md5: bool,
    sha1: bool,
    sha256: bool,
    sha512: bool,
    hashes: Vec<String>,
) -> (r: (Option<String>, Option<String>, Option<String>, Option<String>))
    requires
        hashes.len() == kinds_asked(md5, sha1, sha256, sha512).len(),
    ensures
        r == hash_slots(md5, sha1, sha256, sha512, hashes@),
{
    let ghost all = hashes@;
    let mut hashes = hashes;
    let mut result: (Option<String>, Option<String>, Option<String>, Option<String>) = (
        None,
        None,
        None,
        None,
    );
    let ghost mut taken: int = 0;
    if md5 {
        let hash = hashes.remove(0);
        result.0 = Some(hash);
        proof {
            taken = taken + 1;
        }
    }
    assert(hashes@ =~= all.subrange(taken, all.len() as int));
    if sha1 {
        let hash = hashes.remove(0);
        result.0 = Some(hash);
        proof {
            taken = taken + 1;
        }
    }
    assert(hashes@ =~= all.subrange(taken, all.len() as int));
    if sha256 {
        let hash = hashes.remove(0);
        result.1 = Some(hash);
        proof {
            taken = taken + 1;
        }
    }
    assert(hashes@ =~= all.subrange(taken, all.len() as int));
    if sha512 {
        let hash = hashes.remove(0);
        result.2 = Some(hash);
    }
    result
}

/// The hashes of a file's bytes for the flags, as the agent reports them.
pub fn sha_for_bytes(
    data: &[u8],
    md5: bool,
    sha1: bool,
    sha256: bool,
    sha512: bool,
) -> (r: (Option<String>, Option<String>, Option<String>, Option<String>))
    ensures
        ({
            let kinds = kinds_asked(md5, sha1, sha256, sha512);
            exists|hashes: Seq<String>|
                {
                    &&& hashes.len() == kinds.len()
                    &&& (forall|i: int|
                        0 <= i < kinds.len() ==> #[trigger] hashes[i]@ == hex_bytes(
                            digest_of(kinds[i], data@),
                        ))
                    &&& r == hash_slots(md5, sha1, sha256, sha512, hashes)
                }
        }),
        slots_hold_digests(r, data@, md5, sha1, sha256, sha512),
{
    let kinds = hash_kinds(md5, sha1, sha256, sha512);
    let hashes = digests_for_bytes(data, &kinds);
    proof {
        law_slots_hold_their_digests(data@, md5, sha1, sha256, sha512, hashes@);
    }
    assemble_hashes(md5, sha1, sha256, sha512, hashes)
}

/// A slot that holds the lowercase hexadecimal text of `digest`.
pub open spec fn holds_hex(slot: Option<String>, digest: Seq<u8>) -> bool {
    slot matches Some(h) && h@ == hex_bytes(digest)
}

/// What the hash tuple of `data` holds for the flags: the first slot the
/// SHA-1 digest if asked, else the MD5 digest if asked, else nothing; the
/// second the SHA-256 digest exactly when asked; the third the SHA3-512
/// digest exactly when asked; the fourth nothing.
pub open spec fn slots_hold_digests(
    r: (Option<String>, Option<String>, Option<String>, Option<String>),
    data: Seq<u8>,
    md5: bool,
    sha1: bool,
    sha256: bool,
    sha512: bool,
) -> bool {
    &&& sha1 ==> holds_hex(r.0, sha1_digest(data))
    &&& !sha1 && md5 ==> holds_hex(r.0, md5_digest(data))
    &&& !sha1 && !md5 ==> r.0 is None
    &&& sha256 ==> holds_hex(r.1, sha256_digest(data))
    &&& !sha256 ==> r.1 is None
    &&& sha512 ==> holds_hex(r.2, sha3_512_digest(data))
    &&& !sha512 ==> r.2 is None
    &&& r.3 is None
}

/// Each digest asked for lands in its own slot of the hash tuple: given the
/// digests computed for the kinds the flags ask for, the tuple holds the
/// SHA-256 digest in the second slot, the SHA3-512 digest in the third, and
/// SHA-1 (or, without it, MD5) in the first.
pub proof fn law_slots_hold_their_digests(
    data: Seq<u8>,
    md5: bool,
    sha1: bool,
    sha256: bool,
    sha512: bool,
    hashes: Seq<String>,
)
    requires
        hashes.len() == kinds_asked(md5, sha1, sha256, sha512).len(),
        forall|i: int|
            0 <= i < hashes.len() ==> #[trigger] hashes[i]@ == hex_bytes(
                digest_of(kinds_asked(md5, sha1, sha256, sha512)[i], data),
            ),
    ensures
        slots_hold_digests(hash_slots(md5, sha1, sha256, sha512, hashes), data, md5, sha1, sha256, sha512),
{
    let k = kinds_asked(md5, sha1, sha256, sha512);
    let a: int = if md5 { 1 } else { 0 };
    let b: int = a + if sha1 { 1int } else { 0 };
    let c: int = b + if sha256 { 1int } else { 0 };
    if md5 {
        assert(k[0] == HashKind::Md5);
        assert(hashes[0]@ == hex_bytes(md5_digest(data)));
    }
    if sha1 {
        assert(k[a] == HashKind::Sha1);
        assert(hashes[a]@ == hex_bytes(sha1_digest(data)));
    }
    if sha256 {
        assert(k[b] == HashKind::Sha256);
        assert(hashes[b]@ == hex_bytes(sha256_digest(data)));
    }
    if sha512 {
        assert(k[c] == HashKind::Sha512);
        assert(hashes[c]@ == hex_bytes(sha3_512_digest(data)));
    }
}

/// The fourth slot of the hash tuple is never filled, and the first holds
/// the SHA-1 digest whenever it was asked for, even with MD5.
pub proof fn law_hash_slots(
    md5: bool,
    sha1: bool,
    sha256: bool,
    sha512: bool,
    hashes: Seq<String>,
)
    requires
        hashes.len() == kinds_asked(md5, sha1, sha256, sha512).len(),
    ensures
        hash_slots(md5, sha1, sha256, sha512, hashes).3 is None,
        sha1 ==> hash_slots(md5, sha1, sha256, sha512, hashes).0 == Some(
            hashes[if md5 {
                1int
            } else {
                0
            }],
        ),
{
}

} // verus!
