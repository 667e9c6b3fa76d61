//! Deterministic sub-account derivation.
//!
//! The escrow record's address and the custody vault's address are pure
//! functions of the escrow's identity — the id bytes and the two parties —
//! so any party can recompute them without a registry. The derivation is a
//! keyed 64-bit polynomial hash with a domain tag for each role; the host
//! may substitute its own derivation by keying a lookup table on the same
//! triple.

use vstd::prelude::*;

verus! {

/// The key the derivation starts from.
pub const DERIVE_SEED: u64 = 0xcbf29ce484222325;

/// Domain tag for the escrow record's own address.
pub const RECORD_TAG: u64 = 1;

/// Domain tag for the custody vault's address.
pub const VAULT_TAG: u64 = 2;

/// The multiplier of the polynomial hash.
pub const DERIVE_PRIME: u64 = 0x100000001b3;

/// One mixing step: multiply the state by the prime, add the value, keep the
/// low 64 bits.
pub open spec fn mix(h: u64, v: u64) -> u64 {
    (((h * DERIVE_PRIME) + v) % 0x10000000000000000) as u64
}

/// The state after mixing in every byte of `s`, in order.
pub open spec fn mix_bytes(h: u64, s: Seq<u8>) -> u64
    decreases s.len(),
{
    if s.len() == 0 {
        h
    } else {
        mix(mix_bytes(h, s.drop_last()), s.last() as u64)
    }
}

/// The escrow record's derived address, from the identity triple.
pub open spec fn record_address_spec(id: Seq<u8>, buyer: u64, seller: u64) -> u64 {
    mix(mix(mix_bytes(mix(DERIVE_SEED, RECORD_TAG), id), buyer), seller)
}

/// The custody vault's derived address, from the record's address.
pub open spec fn vault_address_spec(record: u64) -> u64 {
    mix(mix(DERIVE_SEED, VAULT_TAG), record)
}

/// One mixing step, executably.
fn mix_step(h: u64, v: u64) -> (r: u64)
    ensures
        r == mix(h, v),
{
    proof {
        assert((h as u128) * (DERIVE_PRIME as u128) <= (u64::MAX as u128) * (DERIVE_PRIME as u128))
            by (nonlinear_arith)
            requires
                h <= u64::MAX,
        ;
    }
    let wide: u128 = (h as u128) * (DERIVE_PRIME as u128) + (v as u128);
    (wide % 0x10000000000000000u128) as u64
}

/// The derived address of the escrow record keyed by `(id, buyer, seller)`.
pub fn derive_record_address(id: &Vec<u8>, buyer: u64, seller: u64) -> (r: u64)
    ensures
        r == record_address_spec(id@, buyer, seller),
{
    let mut h: u64 = mix_step(DERIVE_SEED, RECORD_TAG);
    let mut i: usize = 0;
    while i < id.len()
        invariant
            i <= id.len(),
            h == mix_bytes(mix(DERIVE_SEED, RECORD_TAG), id@.take(i as int)),
        decreases id.len() - i,
    {
        h = mix_step(h, id[i] as u64);
        proof {
            let t = id@.take(i + 1 as int);
            assert(t.drop_last() =~= id@.take(i as int));
            assert(t.last() == id@[i as int]);
        }
        i = i + 1;
    }
    proof {
        assert(id@.take(id@.len() as int) =~= id@);
    }
    let h2 = mix_step(h, buyer);
    mix_step(h2, seller)
}

/// The derived address of the custody vault scoped to one escrow record.
pub fn derive_vault_address(record: u64) -> (r: u64)
    ensures
        r == vault_address_spec(record),
{
    let h = mix_step(DERIVE_SEED, VAULT_TAG);
    mix_step(h, record)
}

} // verus!
