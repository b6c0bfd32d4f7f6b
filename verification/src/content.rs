//! Test-data generation: pseudo-random printable content, produced in fixed
//! blocks and digested as it streams, with a size-match short-circuit that
//! reuses a file already at the target size.
use vstd::prelude::*;
use crate::hashing::{digest_bytes, digest_hex, StreamingDigest};
use rand::Rng;

verus! {

/// The block size, in bytes, in which generated content is produced and fed
/// to the streaming digest.
pub const BLOCK_SIZE: usize = 1024;

/// Whether a byte is one of the 62 printable ASCII alphanumerics that
/// generated content is made of.
pub open spec fn is_alnum_byte(b: u8) -> bool {
    (48 <= b <= 57) || (65 <= b <= 90) || (97 <= b <= 122)
}

/// Whether every byte of a sequence is ASCII alphanumeric.
pub open spec fn all_alphanumeric(s: Seq<u8>) -> bool {
    forall|i: int| 0 <= i < s.len() ==> is_alnum_byte(#[trigger] s[i])
}

/// Relies on rand's thread_rng with the Alphanumeric distribution: each
/// sampled byte is one of the 62 ASCII alphanumerics, so the block has the
/// requested length and only such bytes. Which bytes come is up to the
/// generator, and nothing more is claimed.
#[verifier::external_body]
fn random_alphanumeric_block(len: usize) -> (r: Vec<u8>)
    ensures
        r@.len() == len,
        all_alphanumeric(r@),
{
    let block: Vec<u8> = rand::thread_rng()
        .sample_iter(&rand::distributions::Alphanumeric)
        .take(len)
        .collect();
    block
}

/// Produces pseudo-random alphanumeric content block by block, feeding each
/// block to a streaming digest, so a caller can write the blocks out as they
/// come while holding only one block in memory.
pub struct ContentGenerator {
    target: usize,
    produced: usize,
    digest: StreamingDigest,
}

impl ContentGenerator {
    /// The byte size the generator was asked for.
    pub closed spec fn target_size(self) -> nat {
        self.target as nat
    }

    /// The bytes handed out so far, oldest first.
    pub closed spec fn content(self) -> Seq<u8> {
        self.digest.bytes_fed()
    }

    /// The generator's bookkeeping agrees with the bytes handed out.
    pub closed spec fn wf(self) -> bool {
        self.produced == self.content().len() && self.produced <= self.target
    }

    pub fn new(target: usize) -> (r: Self)
        ensures
            r.wf(),
            r.target_size() == target,
            r.content() == Seq::<u8>::empty(),
    {
        ContentGenerator { target, produced: 0, digest: StreamingDigest::new() }
    }

    /// The next block of content: the lesser of `BLOCK_SIZE` and the bytes
    /// still owed, or `None` once the target size has been reached.
    pub fn next_block(&mut self) -> (r: Option<Vec<u8>>)
        requires
            old(self).wf(),
        ensures
            final(self).wf(),
            final(self).target_size() == old(self).target_size(),
            match r {
                None => old(self).content().len() == old(self).target_size() && *final(self)
                    == *old(self),
                Some(block) => {
                    &&& old(self).content().len() < old(self).target_size()
                    &&& block@.len() == if old(self).target_size() - old(self).content().len()
                        < BLOCK_SIZE {
                        old(self).target_size() - old(self).content().len()
                    } else {
                        BLOCK_SIZE as int
                    }
                    &&& all_alphanumeric(block@)
                    &&& final(self).content() == old(self).content() + block@
                },
            },
    {
        if self.produced == self.target {
            return None;
        }
        let remaining = self.target - self.produced;
        let n = if remaining < BLOCK_SIZE {
            remaining
        } else {
            BLOCK_SIZE
        };
        let block = random_alphanumeric_block(n);
        self.digest.update(block.as_slice());
        self.produced = self.produced + n;
        Some(block)
    }

    /// The digest of everything handed out, as lowercase hexadecimal.
    pub fn finish(self) -> (d: String)
        ensures
            d@ == digest_hex(self.content()),
    {
        let raw = self.digest.finalize();
        crate::hashing::hex_encode(&raw)
    }
}

/// A local file as the generator sees it: whether anything is at the path,
/// and the bytes there. The caller keeps it in step with real storage.
pub struct FileModel {
    pub exists: bool,
    pub content: Vec<u8>,
}

/// The size-match short-circuit: an existing file of exactly the target size
/// is reused, and nothing is written.
pub open spec fn generate_skips(exists: bool, content: Seq<u8>, size: nat) -> bool {
    exists && content.len() == size
}

/// The reuse decision on what storage reports about the target path: reuse
/// exactly when an entry is there and its byte size equals the target. Size
/// is all that is trusted; the bytes themselves are not inspected.
pub fn should_reuse(exists: bool, actual_size: u64, target_size: usize) -> (r: bool)
    ensures
        r == (exists && actual_size == target_size as u64),
{
    exists && actual_size == (target_size as u64)
}

/// What `generate` promises: on a size match the file is untouched and the
/// digest of its existing bytes is returned; otherwise the file ends up
/// existing with exactly `size` alphanumeric bytes, and the digest returned
/// is the digest of those final bytes.
pub open spec fn generate_post(
    pre_exists: bool,
    pre: Seq<u8>,
    post_exists: bool,
    post: Seq<u8>,
    size: nat,
    d: Seq<char>,
) -> bool {
    if generate_skips(pre_exists, pre, size) {
        post_exists == pre_exists && post == pre && d == digest_hex(pre)
    } else {
        post_exists && post.len() == size && all_alphanumeric(post) && d == digest_hex(post)
    }
}

/// Generate a file of `size` pseudo-random alphanumeric bytes, unless one of
/// exactly that size is already there, and return the lowercase hexadecimal
/// SHA-256 digest of the file's final content.
pub fn generate(file: &mut FileModel, size: usize) -> (d: String)
    ensures
        generate_post(
            old(file).exists,
            old(file).content@,
            final(file).exists,
            final(file).content@,
            size as nat,
            d@,
        ),
{
    if file.exists && file.content.len() == size {
        return digest_bytes(&file.content);
    }
    let mut gen = ContentGenerator::new(size);
    let mut content: Vec<u8> = Vec::new();
    while content.len() < size
        invariant
            gen.wf(),
            gen.target_size() == size as nat,
            content@ == gen.content(),
            all_alphanumeric(content@),
            content@.len() <= size,
        decreases size - content.len(),
    {
        match gen.next_block() {
            Some(mut block) => {
                content.append(&mut block);
            },
            None => {
                proof {
                    assert(false);
                }
            },
        }
    }
    file.exists = true;
    file.content = content;
    gen.finish()
}

/// Law: generation is idempotent. A file left behind by one generation of a
/// given size makes the next generation of that size skip: the file is
/// unchanged and the digest returned is the same.
pub proof fn lemma_generate_idempotent(
    e0: bool,
    c0: Seq<u8>,
    e1: bool,
    c1: Seq<u8>,
    e2: bool,
    c2: Seq<u8>,
    size: nat,
    d1: Seq<char>,
    d2: Seq<char>,
)
    requires
        generate_post(e0, c0, e1, c1, size, d1),
        generate_post(e1, c1, e2, c2, size, d2),
    ensures
        e2 == e1,
        c2 == c1,
        d2 == d1,
{
    assert(generate_skips(e1, c1, size));
}

} // verus!
