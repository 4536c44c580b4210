use vstd::prelude::*;

use crate::error::VerifyError;
use crate::marshal::{contents, copy_range, read_slice, readable};
use crate::KEY_ENCODING_SIZE;

verus! {

/// The plain fields of a foreign-layout epoch record.
///
/// The record's key-buffer pointer is not held here: the caller hands the
/// buffer it designates to [`build_epoch_block`] separately.
#[derive(Clone, Copy, Debug, PartialEq, Eq, Structural)]
pub struct EpochDescriptor {
    /// Epoch sequence number.
    pub index: u64,
    /// Largest number of validators allowed not to have signed.
    pub maximum_non_signers: u32,
    /// Number of public keys in this epoch's validator set.
    pub pubkeys_count: u32,
}

/// A validated epoch: its number, threshold and the ordered key encodings.
#[derive(Debug)]
pub struct EpochBlock {
    pub index: u64,
    pub maximum_non_signers: u32,
    /// One fixed-size compressed encoding per validator, in set order.
    pub pubkeys: Vec<Vec<u8>>,
}

/// Bytes that `count` packed key encodings occupy.
pub open spec fn keys_len(count: u32) -> nat {
    count as nat * KEY_ENCODING_SIZE as nat
}

/// The `i`-th fixed-size chunk of a packed key buffer.
pub open spec fn key_chunk(s: Seq<u8>, i: int) -> Seq<u8> {
    s.subrange(i * KEY_ENCODING_SIZE as int, (i + 1) * KEY_ENCODING_SIZE as int)
}

/// A packed key buffer split into `n` fixed-size chunks, in buffer order.
pub open spec fn key_chunks(s: Seq<u8>, n: nat) -> Seq<Seq<u8>> {
    Seq::new(n, |i: int| key_chunk(s, i))
}

/// A descriptor and its key buffer make a valid epoch: the buffer is
/// present and holds exactly `pubkeys_count` encodings, at least one.
pub open spec fn epoch_ok(desc: EpochDescriptor, mem: Option<&[u8]>) -> bool {
    readable(mem) && contents(mem).len() == keys_len(desc.pubkeys_count)
}

impl EpochBlock {
    /// This block is the one that `desc` and its key buffer describe.
    pub open spec fn built_from(&self, desc: EpochDescriptor, mem: Option<&[u8]>) -> bool {
        &&& self.index == desc.index
        &&& self.maximum_non_signers == desc.maximum_non_signers
        &&& self.keys() == key_chunks(contents(mem), desc.pubkeys_count as nat)
    }

    /// The key encodings as sequences of bytes.
    pub open spec fn keys(&self) -> Seq<Seq<u8>> {
        self.pubkeys@.map_values(|k: Vec<u8>| k@)
    }

    /// Every key encoding has the fixed size.
    pub open spec fn wf(&self) -> bool {
        forall|i: int| 0 <= i < self.keys().len() ==> (#[trigger] self.keys()[i]).len() == KEY_ENCODING_SIZE
    }

    /// Number of keys in the validator set.
    pub fn pubkeys_count(&self) -> (r: usize)
        ensures
            r == self.keys().len(),
    {
        self.pubkeys.len()
    }

    /// The key encodings packed back together, in set order.
    pub fn key_bytes(&self) -> (r: Vec<u8>)
        ensures
            r@ == self.keys().flatten(),
    {
        let mut r: Vec<u8> = Vec::new();
        let mut i: usize = 0;
        while i < self.pubkeys.len()
            invariant
                i <= self.pubkeys@.len(),
                r@ == self.keys().take(i as int).flatten(),
            decreases self.pubkeys@.len() - i,
        {
            let key = &self.pubkeys[i];
            let ghost before = r@;
            let mut j: usize = 0;
            while j < key.len()
                invariant
                    j <= key@.len(),
                    r@ == before + key@.take(j as int),
                decreases key@.len() - j,
            {
                r.push(key[j]);
                j = j + 1;
                assert(r@ =~= before + key@.take(j as int));
            }
            proof {
                assert(key@.take(j as int) =~= key@);
                assert(self.keys().take(i + 1) =~= self.keys().take(i as int).push(key@));
                self.keys().take(i as int).lemma_flatten_push(key@);
            }
            i = i + 1;
        }
        assert(self.keys().take(i as int) =~= self.keys());
        r
    }
}

/// Bytes that `count` packed key encodings occupy, as the caller must
/// provide them.
pub fn pubkeys_byte_len(count: u32) -> (r: u64)
    ensures
        r == keys_len(count),
{
    count as u64 * KEY_ENCODING_SIZE as u64
}

/// Builds a validated epoch from a descriptor and the key buffer it points to.
///
/// The buffer must be present, non-empty and exactly `pubkeys_count`
/// encodings long; it is neither truncated nor padded. It is split into
/// fixed-size chunks whose order is the validator-set order. The threshold
/// is carried over unchecked.
pub fn build_epoch_block(desc: &EpochDescriptor, mem: Option<&[u8]>) -> (r: Result<EpochBlock, VerifyError>)
    ensures
        r is Ok <==> epoch_ok(*desc, mem),
        r is Err ==> r == Err::<EpochBlock, VerifyError>(VerifyError::InvalidInput),
        r is Ok ==> r->Ok_0.built_from(*desc, mem) && r->Ok_0.wf(),
{
    let bytes = match read_slice(mem) {
        Ok(v) => v,
        Err(e) => return Err(e),
    };
    if bytes.len() as u64 != pubkeys_byte_len(desc.pubkeys_count) {
        return Err(VerifyError::InvalidInput);
    }
    let ghost s = bytes@;
    let len = bytes.len();
    let n = desc.pubkeys_count as usize;
    let mut pubkeys: Vec<Vec<u8>> = Vec::with_capacity(n);
    let mut i: usize = 0;
    while i < n
        invariant
            n == desc.pubkeys_count,
            s == bytes@,
            bytes@.len() == n * KEY_ENCODING_SIZE,
            len == bytes@.len(),
            i <= n,
            pubkeys@.len() == i,
            forall|k: int| 0 <= k < i ==> (#[trigger] pubkeys@[k])@ == key_chunk(s, k),
        decreases n - i,
    {
        assert(i * KEY_ENCODING_SIZE + KEY_ENCODING_SIZE <= n * KEY_ENCODING_SIZE) by (nonlinear_arith)
            requires
                i < n,
        ;
        let start = i * KEY_ENCODING_SIZE;
        let key = copy_range(bytes.as_slice(), start, start + KEY_ENCODING_SIZE);
        pubkeys.push(key);
        i = i + 1;
    }
    let b = EpochBlock { index: desc.index, maximum_non_signers: desc.maximum_non_signers, pubkeys };
    assert(b.keys() =~= key_chunks(s, desc.pubkeys_count as nat));
    Ok(b)
}

/// Splitting a well-sized key buffer and packing the chunks back together
/// gives the buffer again, so the packed length is `count` encodings.
pub proof fn lemma_key_round_trip(s: Seq<u8>, count: u32)
    requires
        s.len() == keys_len(count),
    ensures
        key_chunks(s, count as nat).flatten() == s,
        key_chunks(s, count as nat).flatten().len() == keys_len(count),
{
    lemma_chunks_prefix(s, count as nat, count as nat);
    assert(key_chunks(s, count as nat).take(count as int) =~= key_chunks(s, count as nat));
    assert(s.subrange(0, s.len() as int) =~= s);
}

proof fn lemma_chunks_prefix(s: Seq<u8>, n: nat, i: nat)
    requires
        s.len() == n * KEY_ENCODING_SIZE,
        i <= n,
    ensures
        key_chunks(s, n).take(i as int).flatten() == s.subrange(0, i * KEY_ENCODING_SIZE),
    decreases i,
{
    let c = key_chunks(s, n);
    if i == 0 {
        assert(c.take(0) =~= Seq::<Seq<u8>>::empty());
        assert(s.subrange(0, 0) =~= Seq::<u8>::empty());
    } else {
        lemma_chunks_prefix(s, n, (i - 1) as nat);
        assert(i * KEY_ENCODING_SIZE <= n * KEY_ENCODING_SIZE) by (nonlinear_arith)
            requires
                i <= n,
        ;
        assert(c.take(i as int) =~= c.take(i - 1).push(c[i - 1]));
        c.take(i - 1).lemma_flatten_push(c[i - 1]);
        assert(s.subrange(0, i * KEY_ENCODING_SIZE) =~= s.subrange(0, (i - 1) * KEY_ENCODING_SIZE) + key_chunk(s, i - 1));
    }
}

} // verus!
