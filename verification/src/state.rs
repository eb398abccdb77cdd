//! Venue registry, pool records, and the two-phase pool setup.
//!
//! Account and token-type identities are opaque values handed out by the
//! surrounding ledger host; the engine only stores and compares them, so
//! they are carried here as plain integers.

use vstd::prelude::*;

use crate::errors::AmmError;

verus! {

/// Fees are quoted in basis points: 10000 is 100%.
pub const FEE_DENOMINATOR: u16 = 10000;

/// A trading venue: one fee policy under an identifying seed.  Both
/// fields are immutable after creation; there is deliberately no update
/// path for the fee.
#[derive(Clone, Copy, Debug, PartialEq, Eq, Structural)]
pub struct Amm {
    /// Opaque identifying seed of the venue.
    pub id: u64,
    /// Swap fee in basis points, always below [`FEE_DENOMINATOR`].
    pub fee: u16,
}

impl Amm {
    /// The registry invariant: the fee is a proper fraction.
    pub open spec fn wf(self) -> bool {
        self.fee < 10000
    }
}

/// Creates a venue record.  Succeeds exactly when the fee is below
/// 100%; the fee can never be changed afterwards.
pub fn create_amm(id: u64, fee: u16) -> (r: Result<Amm, AmmError>)
    ensures
        r is Ok <==> fee < 10000,
        r matches Ok(amm) ==> amm == (Amm { id, fee }) && amm.wf(),
        r is Err ==> r == Err::<Amm, AmmError>(AmmError::CalculationError),
{
    if fee >= FEE_DENOMINATOR {
        return Err(AmmError::CalculationError);
    }
    Ok(Amm { id, fee })
}

/// One (token A, token B) trading pair under a venue.  The triple
/// `(amm, mint_a, mint_b)` is the pool's unique key; reserves are not
/// stored here — they live in the two vault accounts and are re-read on
/// every operation.
#[derive(Clone, Copy, Debug, PartialEq, Eq, Structural)]
pub struct Pool {
    /// Seed of the owning venue.
    pub amm: u64,
    /// Identity of the first traded token type.
    pub mint_a: u64,
    /// Identity of the second traded token type.
    pub mint_b: u64,
}

impl Pool {
    /// The pool invariant: a pair never trades a token against itself.
    pub open spec fn wf(self) -> bool {
        self.mint_a != self.mint_b
    }

    /// The signing capability this pool's vault debits and LP-mint
    /// operations must present.
    pub open spec fn spec_authority(self) -> PoolAuthority {
        PoolAuthority { amm: self.amm, mint_a: self.mint_a, mint_b: self.mint_b }
    }

    /// Re-derives the pool authority from the pool's own key material.
    pub fn authority(&self) -> (r: PoolAuthority)
        ensures
            r == self.spec_authority(),
    {
        PoolAuthority { amm: self.amm, mint_a: self.mint_a, mint_b: self.mint_b }
    }
}

/// A delegated signing capability scoped to one pool.  It carries no
/// key material: anyone can re-derive it from the pool's public key
/// fields, and the ledger host accepts it only for debits of that
/// pool's vaults and for its LP mint.
#[derive(Clone, Copy, Debug, PartialEq, Eq, Structural)]
pub struct PoolAuthority {
    /// Seed of the owning venue.
    pub amm: u64,
    /// Identity of the first traded token type.
    pub mint_a: u64,
    /// Identity of the second traded token type.
    pub mint_b: u64,
}

impl PoolAuthority {
    /// Whether this capability is the one derived from `pool`'s key
    /// material, and so may sign for `pool`'s vaults and LP mint.
    pub fn authorizes(&self, pool: &Pool) -> (r: bool)
        ensures
            r <==> *self == pool.spec_authority(),
    {
        self.amm == pool.amm && self.mint_a == pool.mint_a && self.mint_b == pool.mint_b
    }
}

/// The vault and LP-mint state a freshly initialized pool starts from.
#[derive(Clone, Copy, Debug, PartialEq, Eq, Structural)]
pub struct PoolInit {
    /// Decimal places of the LP mint, fixed at creation.
    pub lp_decimals: u8,
    /// Balance of the token-A reserve vault.
    pub reserve_a: u64,
    /// Balance of the token-B reserve vault.
    pub reserve_b: u64,
    /// Total supply of the LP mint.
    pub lp_supply: u64,
}

/// First phase of pool setup: records the pairing under its venue.
/// Succeeds exactly when the two token types differ; the record is
/// never mutated afterwards.
pub fn create_pool_step1(amm: &Amm, mint_a: u64, mint_b: u64) -> (r: Result<Pool, AmmError>)
    requires
        amm.wf(),
    ensures
        r is Ok <==> mint_a != mint_b,
        r matches Ok(pool) ==> pool == (Pool { amm: amm.id, mint_a, mint_b }) && pool.wf(),
        r is Err ==> r == Err::<Pool, AmmError>(AmmError::InvalidPair),
{
    if mint_a == mint_b {
        return Err(AmmError::InvalidPair);
    }
    Ok(Pool { amm: amm.id, mint_a, mint_b })
}

/// Second phase of pool setup: initializes the LP mint (six decimals,
/// minting right held by the pool authority) and the two empty reserve
/// vaults.  The phase is split from the first purely because the host
/// caps how much account initialization fits in one call; it re-checks
/// that it is enriching exactly the pool the first phase recorded, and
/// fails cleanly with `PoolMismatch` against any other record.
pub fn create_pool_step2(amm: &Amm, pool: &Pool, mint_a: u64, mint_b: u64) -> (r: Result<
    PoolInit,
    AmmError,
>)
    requires
        amm.wf(),
        pool.wf(),
    ensures
        r is Ok <==> pool.amm == amm.id && pool.mint_a == mint_a && pool.mint_b == mint_b,
        r matches Ok(init) ==> init == (PoolInit {
            lp_decimals: 6,
            reserve_a: 0,
            reserve_b: 0,
            lp_supply: 0,
        }),
        r is Err ==> r == Err::<PoolInit, AmmError>(AmmError::PoolMismatch),
{
    if pool.amm != amm.id || pool.mint_a != mint_a || pool.mint_b != mint_b {
        return Err(AmmError::PoolMismatch);
    }
    Ok(PoolInit { lp_decimals: 6, reserve_a: 0, reserve_b: 0, lp_supply: 0 })
}

} // verus!
