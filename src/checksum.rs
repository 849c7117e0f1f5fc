//! A running checksum: bytes are fed in order, then the digest is taken once.
use vstd::prelude::*;
use crate::algorithm::ChecksumAlgorithm;
use crate::digests::{
    base64_encode, base64_len, base64_of, is_base64_byte, crc32_finalize, crc32_input, crc32_new, crc32_of, crc32_update,
    crc32c_finish, crc32c_input, crc32c_new, crc32c_of, crc32c_update, sha1_finalize, sha1_input,
    sha1_new, sha1_of, sha1_update, sha256_finalize, sha256_input, sha256_new, sha256_of,
    sha256_update, md5_finalize, md5_input, md5_new, md5_of, md5_update, Md5State, Sha1State,
    Sha256State,
};

verus! {

/// The four bytes of `x`, most significant first.
pub open spec fn be_bytes(x: u32) -> Seq<u8> {
    seq![(x >> 24) as u8, (x >> 16) as u8, (x >> 8) as u8, x as u8]
}

/// The digest of `bytes` under `alg`, as raw bytes.
pub open spec fn digest_of(alg: ChecksumAlgorithm, bytes: Seq<u8>) -> Seq<u8> {
    match alg {
        ChecksumAlgorithm::Crc32 => be_bytes(crc32_of(bytes)),
        ChecksumAlgorithm::Crc32c => be_bytes(crc32c_of(bytes)),
        ChecksumAlgorithm::Sha1 => sha1_of(bytes),
        ChecksumAlgorithm::Sha256 => sha256_of(bytes),
        ChecksumAlgorithm::Md5 => md5_of(bytes),
    }
}

/// The value of the checksum header or trailer for `bytes` under `alg`.
pub open spec fn header_value_of(alg: ChecksumAlgorithm, bytes: Seq<u8>) -> Seq<u8> {
    base64_of(digest_of(alg, bytes))
}

fn u32_be_bytes(x: u32) -> (r: Vec<u8>)
    ensures
        r@ == be_bytes(x),
{
    let r = vec![(x >> 24) as u8, (x >> 16) as u8, (x >> 8) as u8, x as u8];
    assert(r@ =~= be_bytes(x));
    r
}

enum Accumulator {
    Crc32(crc32fast::Hasher),
    Crc32c(crc32c::Crc32cHasher),
    Sha1(Sha1State),
    Sha256(Sha256State),
    Md5(Md5State),
}

/// A checksum in progress.
pub struct Checksum {
    acc: Accumulator,
}

impl Checksum {
    /// The algorithm this checksum computes.
    pub closed spec fn algorithm(&self) -> ChecksumAlgorithm {
        match self.acc {
            Accumulator::Crc32(_) => ChecksumAlgorithm::Crc32,
            Accumulator::Crc32c(_) => ChecksumAlgorithm::Crc32c,
            Accumulator::Sha1(_) => ChecksumAlgorithm::Sha1,
            Accumulator::Sha256(_) => ChecksumAlgorithm::Sha256,
            Accumulator::Md5(_) => ChecksumAlgorithm::Md5,
        }
    }

    /// Every byte fed so far, in order.
    pub closed spec fn input(&self) -> Seq<u8> {
        match self.acc {
            Accumulator::Crc32(h) => crc32_input(h),
            Accumulator::Crc32c(h) => crc32c_input(h),
            Accumulator::Sha1(h) => sha1_input(h),
            Accumulator::Sha256(h) => sha256_input(h),
            Accumulator::Md5(h) => md5_input(h),
        }
    }

    pub fn new(alg: ChecksumAlgorithm) -> (r: Self)
        ensures
            r.algorithm() == alg,
            r.input() == Seq::<u8>::empty(),
    {
        let acc = match alg {
            ChecksumAlgorithm::Crc32 => Accumulator::Crc32(crc32_new()),
            ChecksumAlgorithm::Crc32c => Accumulator::Crc32c(crc32c_new()),
            ChecksumAlgorithm::Sha1 => Accumulator::Sha1(sha1_new()),
            ChecksumAlgorithm::Sha256 => Accumulator::Sha256(sha256_new()),
            ChecksumAlgorithm::Md5 => Accumulator::Md5(md5_new()),
        };
        Checksum { acc }
    }

    /// The algorithm this checksum computes.
    pub fn checksum_algorithm(&self) -> (r: ChecksumAlgorithm)
        ensures
            r == self.algorithm(),
    {
        match &self.acc {
            Accumulator::Crc32(_) => ChecksumAlgorithm::Crc32,
            Accumulator::Crc32c(_) => ChecksumAlgorithm::Crc32c,
            Accumulator::Sha1(_) => ChecksumAlgorithm::Sha1,
            Accumulator::Sha256(_) => ChecksumAlgorithm::Sha256,
            Accumulator::Md5(_) => ChecksumAlgorithm::Md5,
        }
    }

    /// Feeds `data` into the checksum.
    pub fn update(&mut self, data: &[u8])
        ensures
            final(self).algorithm() == old(self).algorithm(),
            final(self).input() == old(self).input() + data@,
    {
        match &mut self.acc {
            Accumulator::Crc32(h) => crc32_update(h, data),
            Accumulator::Crc32c(h) => crc32c_update(h, data),
            Accumulator::Sha1(h) => sha1_update(h, data),
            Accumulator::Sha256(h) => sha256_update(h, data),
            Accumulator::Md5(h) => md5_update(h, data),
        }
    }

    /// The digest of every byte fed, as raw bytes.
    pub fn finalize(self) -> (r: Vec<u8>)
        ensures
            r@ == digest_of(self.algorithm(), self.input()),
            r@.len() == self.algorithm().digest_len(),
    {
        match self.acc {
            Accumulator::Crc32(h) => u32_be_bytes(crc32_finalize(h)),
            Accumulator::Crc32c(h) => {
                let x = crc32c_finish(&h);
                u32_be_bytes(x as u32)
            },
            Accumulator::Sha1(h) => sha1_finalize(h),
            Accumulator::Sha256(h) => sha256_finalize(h),
            Accumulator::Md5(h) => md5_finalize(h),
        }
    }

    /// The name of the header or trailer this checksum is sent in.
    pub fn header_name(&self) -> (r: Vec<u8>)
        ensures
            r@ == self.algorithm().spec_header_name(),
    {
        self.checksum_algorithm().header_name()
    }

    /// The header or trailer value: the base64 rendering of the digest.
    pub fn header_value(self) -> (r: Vec<u8>)
        ensures
            r@ == header_value_of(self.algorithm(), self.input()),
            r@.len() == base64_len(self.algorithm().digest_len()),
            forall|i: int| 0 <= i < r@.len() ==> is_base64_byte(#[trigger] r@[i]),
    {
        let d = self.finalize();
        base64_encode(d.as_slice())
    }

    /// The length of the rendered trailer `<name>:<value>`.
    pub fn size(&self) -> (r: u64)
        ensures
            r == self.algorithm().trailer_size(),
    {
        self.checksum_algorithm().checksum_header_size()
    }
}

} // verus!
