//! The default proportional basket policy.
use crate::error::PoolError;
use vstd::arithmetic::div_mod::{lemma_fundamental_div_mod, lemma_mod_pos_bound};
use vstd::prelude::*;

verus! {

/// Quantities of the pool's assets, one per asset, in the order of the pool's
/// asset list.
#[derive(Clone, Debug, PartialEq, Eq)]
pub struct Basket {
    pub quantities: Vec<u64>,
}

impl View for Basket {
    type V = Seq<u64>;

    open spec fn view(&self) -> Seq<u64> {
        self.quantities@
    }
}

/// What a basket computation yields, seen as a sequence of quantities.
pub open spec fn basket_result_view(r: Result<Basket, PoolError>) -> Result<Seq<u64>, PoolError> {
    match r {
        Ok(b) => Ok(b@),
        Err(e) => Err(e),
    }
}

/// `reserve * size / supply`, rounded up when `round_up` holds and down otherwise.
pub open spec fn proportional(reserve: int, size: int, supply: int, round_up: bool) -> int {
    if round_up {
        (reserve * size + (supply - 1)) / supply
    } else {
        reserve * size / supply
    }
}

/// The quantity of asset `i` in the proportional basket.
pub open spec fn share_of(reserves: Seq<u64>, i: int, supply: u64, size: u64, round_up: bool) -> int {
    proportional(reserves[i] as int, size as int, supply as int, round_up)
}

/// The basket that scales `reserves` by `size / supply`: rounded up for a
/// creation (the depositor never delivers too little), down for a redemption
/// (the withdrawer never receives too much). With no shares outstanding there
/// is no proportion to scale by.
pub open spec fn simple_basket_spec(
    reserves: Seq<u64>,
    supply: u64,
    size: u64,
    round_up: bool,
) -> Result<Seq<u64>, PoolError> {
    if supply == 0 {
        Err(PoolError::InvalidArgument)
    } else if exists|i: int|
        0 <= i < reserves.len() && share_of(reserves, i, supply, size, round_up) > u64::MAX {
        Err(PoolError::ArithmeticOverflow)
    } else {
        Ok(Seq::new(reserves.len(), |i: int| share_of(reserves, i, supply, size, round_up) as u64))
    }
}

proof fn lemma_floor_bounds(p: int, s: int)
    requires
        p >= 0,
        s > 0,
    ensures
        (p / s) * s <= p,
        p < (p / s + 1) * s,
{
    lemma_fundamental_div_mod(p, s);
    lemma_mod_pos_bound(p, s);
    assert((p / s) * s <= p && p < (p / s + 1) * s) by (nonlinear_arith)
        requires
            p == s * (p / s) + p % s,
            0 <= p % s < s,
    ;
}

/// Rounding is in the pool's favour: every quantity of a proportional creation
/// basket is the ceiling of the exact amount `reserve * size / supply`, and
/// every quantity of a proportional redemption basket is its floor.
pub proof fn lemma_simple_basket_rounding(reserves: Seq<u64>, supply: u64, size: u64, round_up: bool)
    requires
        simple_basket_spec(reserves, supply, size, round_up) is Ok,
    ensures
        forall|i: int|
            #![trigger reserves[i]]
            0 <= i < reserves.len() ==> {
                let q = simple_basket_spec(reserves, supply, size, round_up)->Ok_0[i] as int;
                let exact = (reserves[i] as int) * (size as int);
                if round_up {
                    exact <= q * supply && (q - 1) * supply < exact
                } else {
                    q * supply <= exact && exact < (q + 1) * supply
                }
            },
{
    assert forall|i: int| #![trigger reserves[i]] 0 <= i < reserves.len() implies {
        let q = simple_basket_spec(reserves, supply, size, round_up)->Ok_0[i] as int;
        let exact = (reserves[i] as int) * (size as int);
        if round_up {
            exact <= q * supply && (q - 1) * supply < exact
        } else {
            q * supply <= exact && exact < (q + 1) * supply
        }
    } by {
        let exact = (reserves[i] as int) * (size as int);
        assert(exact >= 0) by (nonlinear_arith)
            requires
                reserves[i] >= 0,
                size >= 0,
                exact == (reserves[i] as int) * (size as int),
        ;
        assert(share_of(reserves, i, supply, size, round_up) <= u64::MAX);
        let b = simple_basket_spec(reserves, supply, size, round_up)->Ok_0;
        assert(b[i] == share_of(reserves, i, supply, size, round_up) as u64);
        if round_up {
            let q = (exact + (supply - 1)) / (supply as int);
            assert(b[i] as int == q);
            lemma_floor_bounds(exact + (supply - 1), supply as int);
            assert(exact <= q * supply && (q - 1) * supply < exact) by (nonlinear_arith)
                requires
                    q * supply <= exact + (supply - 1),
                    exact + (supply - 1) < (q + 1) * supply,
            ;
        } else {
            let q = exact / (supply as int);
            assert(b[i] as int == q);
            lemma_floor_bounds(exact, supply as int);
        }
    }
}

/// Computes the proportional basket of `simple_basket_spec`.
pub fn simple_basket(reserves: &Vec<u64>, supply: u64, size: u64, round_up: bool) -> (r: Result<
    Basket,
    PoolError,
>)
    ensures
        basket_result_view(r) == simple_basket_spec(reserves@, supply, size, round_up),
{
    if supply == 0 {
        return Err(PoolError::InvalidArgument);
    }
    let mut q: Vec<u64> = Vec::new();
    let mut i: usize = 0;
    while i < reserves.len()
        invariant
            0 <= i <= reserves.len(),
            supply > 0,
            q@.len() == i,
            forall|j: int|
                0 <= j < i ==> q@[j] as int == share_of(reserves@, j, supply, size, round_up),
        decreases reserves.len() - i,
    {
        let r: u64 = reserves[i];
        proof {
            assert((r as int) * (size as int) <= (u64::MAX as int) * (u64::MAX as int))
                by (nonlinear_arith)
                requires
                    r <= u64::MAX,
                    size <= u64::MAX,
            ;
        }
        let p: u128 = (r as u128) * (size as u128);
        let v: u128 = if round_up {
            (p + (supply as u128 - 1)) / (supply as u128)
        } else {
            p / (supply as u128)
        };
        assert(v as int == share_of(reserves@, i as int, supply, size, round_up));
        if v > u64::MAX as u128 {
            assert(share_of(reserves@, i as int, supply, size, round_up) > u64::MAX);
            return Err(PoolError::ArithmeticOverflow);
        }
        q.push(v as u64);
        i += 1;
    }
    assert forall|j: int| 0 <= j < reserves@.len() implies share_of(
        reserves@,
        j,
        supply,
        size,
        round_up,
    ) <= u64::MAX by {
        assert(q@[j] <= u64::MAX);
    }
    let b = Basket { quantities: q };
    assert(b@ =~= Seq::new(
        reserves@.len(),
        |j: int| share_of(reserves@, j, supply, size, round_up) as u64,
    ));
    Ok(b)
}

} // verus!
