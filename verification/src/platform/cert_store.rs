//! The certificate stores of the SPDM responder: a stand-in that holds
//! nothing, and a store that hands out a certificate chain piece by piece
//! and signs with a P-384 key.

use vstd::prelude::*;

use crate::hashers::{sha384_digest, sha384_finalize, sha384_new, sha384_update};
use crate::output::write_prefix;
use crate::platform::signing::{
    lemma_leading_one_in_range, p384_key_scalar, p384_sign, p384_signature, p384_signing_key,
    P384SigningKey,
};

verus! {

/// The largest certificate chain a store holds, in bytes.
pub const MAX_CERT_CHAIN_SIZE: usize = 16_384;

/// What a certificate store reports when it cannot do what it was asked.
#[derive(Copy, Clone, Debug, PartialEq, Eq, Structural)]
pub enum CertStoreError {
    InvalidSlotId,
    PlatformError,
    BufferTooSmall,
}

/// A certificate store with one provisioned slot, an empty chain, and a
/// signature of zeros.
pub struct DemoCertStore {}

impl DemoCertStore {
    pub fn new() -> (store: Self) {
        DemoCertStore {  }
    }

    /// The number of certificate slots: one.
    pub fn slot_count(&self) -> (n: u8)
        ensures
            n == 1,
    {
        1
    }

    /// Every slot counts as provisioned.
    pub fn is_provisioned(&self, _slot: u8) -> (provisioned: bool)
        ensures
            provisioned,
    {
        true
    }

    /// The length of the certificate chain of a slot: 0.
    pub fn cert_chain_len(&mut self, _slot: u8) -> (r: Result<usize, CertStoreError>)
        ensures
            r == Ok::<usize, CertStoreError>(0),
    {
        Ok(0)
    }

    /// Copies the certificate chain from `offset` on into `out` and reports
    /// how many bytes were written: none, as the chain is empty.
    pub fn get_cert_chain(&mut self, _slot: u8, _offset: usize, out: &mut [u8]) -> (r: Result<
        usize,
        CertStoreError,
    >)
        ensures
            r == Ok::<usize, CertStoreError>(0),
            final(out)@ == old(out)@,
    {
        Ok(0)
    }

    /// Writes the hash of the root certificate into `out`: nothing, as
    /// there is no certificate.
    pub fn root_cert_hash(&mut self, _slot: u8, out: &mut [u8; 48]) -> (r: Result<(), CertStoreError>)
        ensures
            r is Ok,
            final(out)@ == old(out)@,
    {
        Ok(())
    }

    /// Signs a hash: the signature is 96 zero bytes.
    pub fn sign_hash(&self, _slot: u8, _hash: &[u8; 48], out: &mut [u8; 96]) -> (r: Result<
        (),
        CertStoreError,
    >)
        ensures
            r is Ok,
            forall|i: int| 0 <= i < 96 ==> final(out)@[i] == 0u8,
    {
        let mut i: usize = 0;
        while i < 96
            invariant
                i <= 96,
                forall|j: int| 0 <= j < i ==> out@[j] == 0u8,
            decreases 96 - i,
        {
            out[i] = 0;
            i += 1;
        }
        Ok(())
    }

    /// The key pair of a slot: number 0.
    pub fn key_pair_id(&self, _slot: u8) -> (id: Option<u8>)
        ensures
            id == Some(0u8),
    {
        Some(0)
    }
}

/// How many bytes of a chain of `chain_len` bytes a request for the part
/// from `offset` on gets, into a buffer of `room` bytes: what is left of
/// the chain, as far as the buffer has room for it.
pub open spec fn chain_portion_len(chain_len: nat, offset: nat, room: nat) -> nat {
    if offset >= chain_len {
        0
    } else if chain_len - offset <= room {
        (chain_len - offset) as nat
    } else {
        room
    }
}

/// The `len` bytes of a chain from `offset` on; nothing beyond its end.
pub open spec fn chain_portion(chain: Seq<u8>, offset: nat, len: nat) -> Seq<u8> {
    if offset >= chain.len() {
        Seq::empty()
    } else {
        chain.subrange(offset as int, (offset + len) as int)
    }
}

/// The scalar of the key that a store signs with until it is given
/// another: the bytes 1, 2, and so on up to 48. It is known to everybody
/// and protects nothing.
pub open spec fn demo_scalar() -> Seq<u8> {
    Seq::new(48, |i: int| (i + 1) as u8)
}

/// What signing came to: where a signature was made and fits, it is
/// written over the front of `out` and the rest of `out` is set to zero;
/// a signature that does not fit is refused with `BufferTooSmall`; where
/// none was made the answer is `PlatformError`. A refusal leaves `out` as
/// it was.
pub fn place_signature(signature: Option<Vec<u8>>, out: &mut [u8; 96]) -> (r: Result<
    (),
    CertStoreError,
>)
    ensures
        match signature {
            None => r == Err::<(), CertStoreError>(CertStoreError::PlatformError) && final(out)@
                == old(out)@,
            Some(sig) => if sig@.len() <= 96 {
                r is Ok && final(out)@ == sig@ + Seq::new(
                    (96 - sig@.len()) as nat,
                    |i: int| 0u8,
                )
            } else {
                r == Err::<(), CertStoreError>(CertStoreError::BufferTooSmall) && final(out)@
                    == old(out)@
            },
        },
{
    let sig_bytes = match signature {
        Some(sig_bytes) => sig_bytes,
        None => {
            return Err(CertStoreError::PlatformError);
        },
    };
    let n: usize = sig_bytes.len();
    if n > 96 {
        return Err(CertStoreError::BufferTooSmall);
    }
    let mut i: usize = 0;
    while i < 96
        invariant
            i <= 96,
            n == sig_bytes@.len(),
            n <= 96,
            forall|j: int| 0 <= j < i && j < n ==> out@[j] == sig_bytes@[j],
            forall|j: int| n <= j < i ==> out@[j] == 0u8,
        decreases 96 - i,
    {
        if i < n {
            out[i] = sig_bytes[i];
        } else {
            out[i] = 0;
        }
        i += 1;
    }
    assert(out@ =~= sig_bytes@ + Seq::new((96 - sig_bytes@.len()) as nat, |i: int| 0u8));
    Ok(())
}

/// A certificate store that holds one certificate chain, in slot 0, the
/// root certificate of that chain, and the key it signs with.
pub struct ChainCertStore {
    chain: Vec<u8>,
    root_cert: Vec<u8>,
    signing_key: Option<P384SigningKey>,
}

impl ChainCertStore {
    /// The certificate chain.
    pub closed spec fn chain(&self) -> Seq<u8> {
        self.chain@
    }

    /// The root certificate.
    pub closed spec fn root_cert(&self) -> Seq<u8> {
        self.root_cert@
    }

    /// The scalar of the key that the store signs with, if it has a key.
    pub closed spec fn key_scalar(&self) -> Option<Seq<u8>> {
        match self.signing_key {
            Some(key) => Some(p384_key_scalar(key)),
            None => None,
        }
    }

    /// The chain is never longer than a store may hold.
    #[verifier::type_invariant]
    closed spec fn bounded(&self) -> bool {
        self.chain@.len() <= MAX_CERT_CHAIN_SIZE
    }

    /// The key that a store signs with until it is given another: the key
    /// of the demonstration scalar, which is in range.
    fn generate_demo_key() -> (key: Option<P384SigningKey>)
        ensures
            key is Some,
            p384_key_scalar(key->Some_0) == demo_scalar(),
    {
        proof {
            lemma_leading_one_in_range(demo_scalar());
        }
        let mut demo_key_bytes = [0u8; 48];
        let mut i: usize = 0;
        while i < 48
            invariant
                i <= 48,
                forall|j: int| 0 <= j < i ==> demo_key_bytes@[j] == (j + 1) as u8,
            decreases 48 - i,
        {
            demo_key_bytes[i] = (i + 1) as u8;
            i += 1;
        }
        assert(demo_key_bytes@ =~= demo_scalar());
        p384_signing_key(&demo_key_bytes)
    }

    /// A store of the given chain and root certificate, which signs with
    /// the demonstration key. A chain of more than `MAX_CERT_CHAIN_SIZE`
    /// bytes is refused with `BufferTooSmall`.
    pub fn new(chain: Vec<u8>, root_cert: Vec<u8>) -> (r: Result<Self, CertStoreError>)
        ensures
            match r {
                Ok(store) => chain@.len() <= MAX_CERT_CHAIN_SIZE && store.chain() == chain@
                    && store.root_cert() == root_cert@ && store.key_scalar() == Some(demo_scalar()),
                Err(e) => chain@.len() > MAX_CERT_CHAIN_SIZE && e == CertStoreError::BufferTooSmall,
            },
    {
        if chain.len() > MAX_CERT_CHAIN_SIZE {
            return Err(CertStoreError::BufferTooSmall);
        }
        Ok(ChainCertStore { chain, root_cert, signing_key: Self::generate_demo_key() })
    }

    /// Signs a hash with the key of the store and writes the signature,
    /// `r` then `s`, into `out`. Without a key, and where the key yields no
    /// signature, the answer is `PlatformError` and `out` is as it was.
    pub fn sign_hash(&self, _slot: u8, hash: &[u8; 48], out: &mut [u8; 96]) -> (r: Result<
        (),
        CertStoreError,
    >)
        ensures
            r is Ok <==> self.key_scalar() is Some && p384_signature(
                self.key_scalar()->Some_0,
                hash@,
            ) is Some,
            r is Ok ==> final(out)@ == p384_signature(self.key_scalar()->Some_0, hash@)->Some_0,
            r is Err ==> r->Err_0 == CertStoreError::PlatformError && final(out)@ == old(out)@,
    {
        let signature = match &self.signing_key {
            Some(signing_key) => p384_sign(signing_key, hash.as_slice()),
            None => None,
        };
        proof {
            if signature is Some {
                assert(signature->Some_0@ + Seq::new(0nat, |i: int| 0u8) =~= signature->Some_0@);
            }
        }
        place_signature(signature, out)
    }

    /// The number of certificate slots: one.
    pub fn slot_count(&self) -> (n: u8)
        ensures
            n == 1,
    {
        1
    }

    /// Every slot counts as provisioned.
    pub fn is_provisioned(&self, _slot: u8) -> (provisioned: bool)
        ensures
            provisioned,
    {
        true
    }

    /// The length of the certificate chain, whatever slot is asked for.
    pub fn cert_chain_len(&mut self, _slot: u8) -> (r: Result<usize, CertStoreError>)
        ensures
            *final(self) == *old(self),
            r == Ok::<usize, CertStoreError>(old(self).chain().len() as usize),
    {
        proof {
            use_type_invariant(&*self);
        }
        Ok(self.chain.len())
    }

    /// Copies the part of the chain that starts at `offset` into the front
    /// of `cert_portion`, as far as there is room, and reports how many
    /// bytes were written. Beyond the end of the chain there is nothing to
    /// copy. Only slot 0 holds a chain.
    pub fn get_cert_chain(&mut self, slot_id: u8, offset: usize, cert_portion: &mut [u8]) -> (r: Result<
        usize,
        CertStoreError,
    >)
        ensures
            *final(self) == *old(self),
            match r {
                Ok(n) => slot_id == 0 && n == chain_portion_len(
                    old(self).chain().len(),
                    offset as nat,
                    old(cert_portion)@.len(),
                ) && final(cert_portion)@ == chain_portion(old(self).chain(), offset as nat, n as nat)
                    + old(cert_portion)@.skip(n as int),
                Err(e) => slot_id != 0 && e == CertStoreError::InvalidSlotId && final(cert_portion)@
                    == old(cert_portion)@,
            },
    {
        proof {
            use_type_invariant(&*self);
        }
        if slot_id != 0 {
            return Err(CertStoreError::InvalidSlotId);
        }
        let chain_len: usize = self.chain.len();
        if offset >= chain_len {
            assert(cert_portion@ =~= Seq::<u8>::empty() + cert_portion@.skip(0));
            return Ok(0);
        }
        let remaining: usize = chain_len - offset;
        let copy_len: usize = if remaining <= cert_portion.len() {
            remaining
        } else {
            cert_portion.len()
        };
        let part = vstd::slice::slice_subrange(self.chain.as_slice(), offset, offset + copy_len);
        write_prefix(cert_portion, part);
        Ok(copy_len)
    }

    /// Writes the SHA-384 hash of the root certificate into `cert_hash`.
    /// Only slot 0 holds a certificate.
    pub fn root_cert_hash(&mut self, slot: u8, cert_hash: &mut [u8; 48]) -> (r: Result<
        (),
        CertStoreError,
    >)
        ensures
            *final(self) == *old(self),
            match r {
                Ok(_) => slot == 0 && final(cert_hash)@ == sha384_digest(old(self).root_cert()),
                Err(e) => slot != 0 && e == CertStoreError::InvalidSlotId && final(cert_hash)@
                    == old(cert_hash)@,
            },
    {
        if slot != 0 {
            return Err(CertStoreError::InvalidSlotId);
        }
        let mut hasher = sha384_new();
        sha384_update(&mut hasher, self.root_cert.as_slice());
        let hash_result = sha384_finalize(hasher);
        assert(Seq::<u8>::empty() + self.root_cert@ =~= self.root_cert@);
        let mut i: usize = 0;
        while i < 48
            invariant
                i <= 48,
                hash_result@.len() == 48,
                forall|j: int| 0 <= j < i ==> cert_hash@[j] == hash_result@[j],
            decreases 48 - i,
        {
            cert_hash[i] = hash_result[i];
            i += 1;
        }
        assert(cert_hash@ =~= hash_result@);
        Ok(())
    }

    /// The key pair of a slot: number 1 for slot 0, none for any other.
    pub fn key_pair_id(&self, slot_id: u8) -> (id: Option<u8>)
        ensures
            id == (if slot_id == 0 {
                Some(1u8)
            } else {
                None
            }),
    {
        if slot_id == 0 {
            Some(1)
        } else {
            None
        }
    }
}

} // verus!
