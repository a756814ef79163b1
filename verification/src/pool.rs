//! The pool record: which pair it trades, what it charges, who may lock it.
//!
//! A pool holds no balances. Its reserves are whatever its two vaults hold
//! when an operation runs, and the share supply is whatever the share ledger
//! reports; both reach the engine as a [`Reserves`] snapshot.

use crate::error::AmmError;
use vstd::prelude::*;

verus! {

/// The highest fee a pool may charge, in basis points: all of the input.
pub const MAX_FEE_BPS: u16 = 10000;

/// An opaque 256-bit name: of an asset, or of whoever signs a call.
#[derive(Clone, Copy, Debug, PartialEq, Eq, Hash, Structural)]
pub struct AccountId {
    pub hi: u128,
    pub lo: u128,
}

/// The key under which a pool is stored. Two pools share a key exactly when
/// they share the seed and both assets.
#[derive(Clone, Copy, Debug, PartialEq, Eq, Hash, Structural)]
pub struct PoolId {
    pub seed: u64,
    pub asset_x_id: AccountId,
    pub asset_y_id: AccountId,
}

/// What a [`Pool`] stands for in contracts.
pub struct PoolView {
    pub seed: u64,
    pub asset_x_id: AccountId,
    pub asset_y_id: AccountId,
    pub fee_bps: nat,
    pub authority: Option<AccountId>,
    pub locked: bool,
}

impl PoolView {
    /// The fee is a share of the input, the two assets differ, and only a
    /// pool with an authority can be locked.
    pub open spec fn wf(self) -> bool {
        &&& self.fee_bps <= MAX_FEE_BPS
        &&& self.asset_x_id != self.asset_y_id
        &&& self.locked ==> self.authority is Some
    }
}

/// One tradable pair with its fee and lock.
#[derive(Clone, Copy, Debug, PartialEq, Eq, Structural)]
pub struct Pool {
    seed: u64,
    asset_x_id: AccountId,
    asset_y_id: AccountId,
    fee_bps: u16,
    authority: Option<AccountId>,
    locked: bool,
}

impl View for Pool {
    type V = PoolView;

    closed spec fn view(&self) -> PoolView {
        PoolView {
            seed: self.seed,
            asset_x_id: self.asset_x_id,
            asset_y_id: self.asset_y_id,
            fee_bps: self.fee_bps as nat,
            authority: self.authority,
            locked: self.locked,
        }
    }
}

/// The balances an operation starts from: what the two vaults hold and how
/// many shares are outstanding.
#[derive(Clone, Copy, Debug, PartialEq, Eq, Structural)]
pub struct Reserves {
    pub reserve_x: u64,
    pub reserve_y: u64,
    pub total_supply: u64,
}

impl Reserves {
    /// No reserves that belong to nobody: where no share is outstanding, both
    /// vaults are empty.
    pub open spec fn no_orphans(self) -> bool {
        self.total_supply == 0 ==> self.reserve_x == 0 && self.reserve_y == 0
    }

    /// No reserves without shares, and no shares without reserves of both
    /// assets behind them. Every accepted operation keeps this.
    pub open spec fn wf(self) -> bool {
        &&& self.no_orphans()
        &&& self.total_supply > 0 ==> self.reserve_x > 0 && self.reserve_y > 0
    }

    /// The product of the two reserves.
    pub open spec fn product(self) -> int {
        self.reserve_x * self.reserve_y
    }

    /// The balances of a pool that nobody has provisioned yet.
    pub fn empty() -> (r: Reserves)
        ensures
            r == (Reserves { reserve_x: 0, reserve_y: 0, total_supply: 0 }),
            r.wf(),
    {
        Reserves { reserve_x: 0, reserve_y: 0, total_supply: 0 }
    }
}

impl Pool {
    /// Holds of every pool that exists.
    #[verifier::type_invariant]
    pub open spec fn wf(&self) -> bool {
        self@.wf()
    }

    /// The stored form of a pool, checked: `None` unless the fields make a
    /// well-formed pool.
    pub fn restore(
        asset_x_id: AccountId,
        asset_y_id: AccountId,
        seed: u64,
        fee_bps: u16,
        authority: Option<AccountId>,
        locked: bool,
    ) -> (r: Option<Pool>)
        ensures
            ({
                let v = PoolView {
                    seed,
                    asset_x_id,
                    asset_y_id,
                    fee_bps: fee_bps as nat,
                    authority,
                    locked,
                };
                match r {
                    Some(pool) => v.wf() && pool@ == v,
                    None => !v.wf(),
                }
            }),
    {
        if fee_bps > MAX_FEE_BPS || asset_x_id == asset_y_id || (locked && authority.is_none()) {
            None
        } else {
            Some(Pool { seed, asset_x_id, asset_y_id, fee_bps, authority, locked })
        }
    }

    /// The key under which this pool is stored.
    pub fn id(&self) -> (id: PoolId)
        ensures
            id == (PoolId {
                seed: self@.seed,
                asset_x_id: self@.asset_x_id,
                asset_y_id: self@.asset_y_id,
            }),
    {
        PoolId { seed: self.seed, asset_x_id: self.asset_x_id, asset_y_id: self.asset_y_id }
    }

    pub fn seed(&self) -> (r: u64)
        ensures
            r == self@.seed,
    {
        self.seed
    }

    pub fn asset_x_id(&self) -> (r: AccountId)
        ensures
            r == self@.asset_x_id,
    {
        self.asset_x_id
    }

    pub fn asset_y_id(&self) -> (r: AccountId)
        ensures
            r == self@.asset_y_id,
    {
        self.asset_y_id
    }

    /// The fee on swap input, in basis points; never above [`MAX_FEE_BPS`].
    pub fn fee_bps(&self) -> (r: u16)
        ensures
            r == self@.fee_bps,
            r <= MAX_FEE_BPS,
    {
        proof {
            use_type_invariant(self);
        }
        self.fee_bps
    }

    pub fn authority(&self) -> (r: Option<AccountId>)
        ensures
            r == self@.authority,
    {
        self.authority
    }

    pub fn is_locked(&self) -> (r: bool)
        ensures
            r == self@.locked,
    {
        self.locked
    }
}

/// Creates the record of a new pool for the pair `asset_x_id`, `asset_y_id`.
/// The pool starts unlocked; its reserves are [`Reserves::empty`] until the
/// first deposit.
pub fn initialize(
    asset_x_id: AccountId,
    asset_y_id: AccountId,
    seed: u64,
    fee_bps: u16,
    authority: Option<AccountId>,
) -> (r: Result<Pool, AmmError>)
    requires
        asset_x_id != asset_y_id,
    ensures
        fee_bps > MAX_FEE_BPS ==> r == Err::<Pool, AmmError>(AmmError::InvalidFee),
        fee_bps <= MAX_FEE_BPS ==> r is Ok && r->Ok_0.wf() && r->Ok_0@ == (PoolView {
            seed,
            asset_x_id,
            asset_y_id,
            fee_bps: fee_bps as nat,
            authority,
            locked: false,
        }),
{
    if fee_bps > MAX_FEE_BPS {
        Err(AmmError::InvalidFee)
    } else {
        Ok(Pool { seed, asset_x_id, asset_y_id, fee_bps, authority, locked: false })
    }
}

/// Locks or unlocks the pool on behalf of `caller`. Only the pool's
/// authority may do so; a pool created without one stays as it is for good.
pub fn set_locked(pool: &Pool, caller: AccountId, locked: bool) -> (r: Option<Pool>)
    ensures
        pool@.authority == Some(caller) ==> r is Some && r->Some_0.wf() && r->Some_0@ == (PoolView {
            locked,
            ..pool@
        }),
        pool@.authority != Some(caller) ==> r is None,
{
    proof {
        use_type_invariant(pool);
    }
    match pool.authority {
        Some(authority) => {
            if authority == caller {
                Some(
                    Pool {
                        seed: pool.seed,
                        asset_x_id: pool.asset_x_id,
                        asset_y_id: pool.asset_y_id,
                        fee_bps: pool.fee_bps,
                        authority: pool.authority,
                        locked,
                    },
                )
            } else {
                None
            }
        },
        None => None,
    }
}

} // verus!
