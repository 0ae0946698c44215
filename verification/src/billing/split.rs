//! Multi-party revenue split. Each party holds a ratio in basis points
//! (ten-thousandths, adding up to 10000); amounts are in cents and any
//! rounding remainder goes to the last party.
use vstd::prelude::*;

verus! {

#[derive(Debug, Clone)]
pub struct Party {
    pub id: u64,
    pub party_code: String,
    /// Basis points; the parties of one template add up to 10000.
    pub ratio_bp: u32,
}

/// Integer division truncated toward zero, as Rust's `/` does.
pub open spec fn div_trunc(a: int, b: int) -> int
    recommends
        b > 0,
{
    if a >= 0 {
        a / b
    } else {
        -((-a) / b)
    }
}

/// The share of `pool` that a ratio of `bp` basis points earns.
pub open spec fn share(pool: int, bp: int) -> int {
    div_trunc(pool * bp, 10000)
}

/// Sum of the proportional shares of the first `k` parties.
pub open spec fn shares_before(pool: int, parties: Seq<Party>, k: int) -> int
    decreases k,
{
    if k <= 0 {
        0
    } else {
        shares_before(pool, parties, k - 1) + share(pool, parties[k - 1].ratio_bp as int)
    }
}

/// Amount allocated to party `i`: its proportional share, except that the
/// last party takes whatever remains.
pub open spec fn allocation(pool: int, parties: Seq<Party>, i: int) -> int {
    if i + 1 == parties.len() {
        pool - shares_before(pool, parties, i)
    } else {
        share(pool, parties[i].ratio_bp as int)
    }
}

/// Sum of the amounts allocated to the first `k` parties.
pub open spec fn allocated_before(pool: int, parties: Seq<Party>, k: int) -> int
    decreases k,
{
    if k <= 0 {
        0
    } else {
        allocated_before(pool, parties, k - 1) + allocation(pool, parties, k - 1)
    }
}

/// Every running total of the allocation fits in an `i64`: the inputs on
/// which the computation neither overflows nor truncates.
pub open spec fn split_fits(pool: int, parties: Seq<Party>) -> bool {
    &&& forall|i: int|
        0 <= i < parties.len() ==> i64::MIN <= #[trigger] share(pool, parties[i].ratio_bp as int)
            <= i64::MAX
    &&& forall|k: int|
        0 <= k <= parties.len() ==> i64::MIN <= #[trigger] shares_before(pool, parties, k)
            <= i64::MAX
    &&& (parties.len() > 0 ==> i64::MIN <= allocation(pool, parties, parties.len() - 1)
        <= i64::MAX)
}

proof fn lemma_allocated_is_shares(pool: int, parties: Seq<Party>, k: int)
    requires
        0 <= k < parties.len(),
    ensures
        allocated_before(pool, parties, k) == shares_before(pool, parties, k),
    decreases k,
{
    if k > 0 {
        lemma_allocated_is_shares(pool, parties, k - 1);
    }
}

/// The allocations add up to the whole pool whenever there is at least one
/// party: nothing is lost to rounding.
pub proof fn lemma_split_conserves_pool(pool: int, parties: Seq<Party>)
    requires
        parties.len() > 0,
    ensures
        allocated_before(pool, parties, parties.len() as int) == pool,
{
    lemma_allocated_is_shares(pool, parties, parties.len() - 1);
}

proof fn lemma_shares_bounded(pool: int, parties: Seq<Party>, k: int)
    requires
        pool >= 0,
        0 <= k <= parties.len(),
    ensures
        0 <= shares_before(pool, parties, k) * 10000 <= pool * bp_sum(parties, k),
    decreases k,
{
    if k > 0 {
        lemma_shares_bounded(pool, parties, k - 1);
        let bp = parties[k - 1].ratio_bp as int;
        let x = pool * bp;
        assert(x >= 0) by (nonlinear_arith)
            requires
                pool >= 0,
                bp >= 0,
                x == pool * bp,
        ;
        assert((x / 10000) * 10000 <= x) by (nonlinear_arith)
            requires
                x >= 0,
        ;
        assert(x / 10000 >= 0);
        assert(pool * bp_sum(parties, k) == pool * bp_sum(parties, k - 1) + x) by (
        nonlinear_arith)
            requires
                bp_sum(parties, k) == bp_sum(parties, k - 1) + bp,
                x == pool * bp,
        ;
    }
}

/// Sum of the ratios of the first `k` parties.
pub open spec fn bp_sum(parties: Seq<Party>, k: int) -> int
    decreases k,
{
    if k <= 0 {
        0
    } else {
        bp_sum(parties, k - 1) + parties[k - 1].ratio_bp as int
    }
}

/// With ratios adding up to 10000, a non-negative pool leaves the last party
/// at least its own proportional share, and every party a non-negative amount.
pub proof fn lemma_split_last_gets_its_share(pool: int, parties: Seq<Party>)
    requires
        pool >= 0,
        parties.len() > 0,
        bp_sum(parties, parties.len() as int) == 10000,
    ensures
        allocation(pool, parties, parties.len() - 1) >= share(
            pool,
            parties[parties.len() - 1].ratio_bp as int,
        ),
        forall|i: int| 0 <= i < parties.len() ==> #[trigger] allocation(pool, parties, i) >= 0,
{
    let n = parties.len() as int;
    lemma_shares_bounded(pool, parties, n - 1);
    let bp = parties[n - 1].ratio_bp as int;
    let s = shares_before(pool, parties, n - 1);
    assert(bp_sum(parties, n - 1) == 10000 - bp);
    assert(s * 10000 <= pool * (10000 - bp));
    assert((pool * bp / 10000) * 10000 <= pool * bp) by (nonlinear_arith)
        requires
            pool >= 0,
            bp >= 0,
    ;
    assert(pool * (10000 - bp) + pool * bp == pool * 10000) by (nonlinear_arith);
    assert((pool - s) * 10000 >= pool * bp) by (nonlinear_arith)
        requires
            s * 10000 <= pool * (10000 - bp),
            pool * (10000 - bp) + pool * bp == pool * 10000,
    ;
    assert(pool - s >= pool * bp / 10000) by (nonlinear_arith)
        requires
            (pool - s) * 10000 >= pool * bp,
            (pool * bp / 10000) * 10000 <= pool * bp,
    ;
    assert(pool * bp >= 0) by (nonlinear_arith)
        requires
            pool >= 0,
            bp >= 0,
    ;
    assert forall|i: int| 0 <= i < parties.len() implies #[trigger] allocation(
        pool,
        parties,
        i,
    ) >= 0 by {
        if i + 1 != n {
            let b = parties[i].ratio_bp as int;
            assert(pool * b >= 0) by (nonlinear_arith)
                requires
                    pool >= 0,
                    b >= 0,
            ;
        }
    }
}

fn copy_party(p: &Party) -> (r: Party)
    ensures
        r == *p,
{
    Party { id: p.id, party_code: p.party_code.clone(), ratio_bp: p.ratio_bp }
}

fn share_of(pool: i64, bp: u32) -> (r: i128)
    ensures
        r == share(pool as int, bp as int),
{
    let p = pool as i128;
    let b = bp as i128;
    assert(-0x8000_0000_0000_0000 * 0xffff_ffff <= p * b <= 0x7fff_ffff_ffff_ffff * 0xffff_ffff)
        by (nonlinear_arith)
        requires
            -0x8000_0000_0000_0000 <= p <= 0x7fff_ffff_ffff_ffff,
            0 <= b <= 0xffff_ffff,
    ;
    let prod = p * b;
    if prod >= 0 {
        prod / 10000
    } else {
        let m = -prod;
        -(m / 10000)
    }
}

/// Split `pool_cents` among `parties` by their ratios; the rounding
/// remainder goes to the last party.
pub fn split_pool(pool_cents: i64, parties: &[Party]) -> (out: Vec<(Party, i64)>)
    requires
        split_fits(pool_cents as int, parties@),
    ensures
        out@.len() == parties@.len(),
        forall|i: int|
            0 <= i < parties@.len() ==> (#[trigger] out@[i]).0 == parties@[i] && out@[i].1
                == allocation(pool_cents as int, parties@, i),
{
    let ghost pool = pool_cents as int;
    let mut allocated: i64 = 0;
    let mut out: Vec<(Party, i64)> = Vec::new();
    let n = parties.len();
    let mut i: usize = 0;
    while i < n
        invariant
            n == parties@.len(),
            i <= n,
            split_fits(pool, parties@),
            pool == pool_cents,
            out@.len() == i,
            i < n ==> allocated == shares_before(pool, parties@, i as int),
            forall|j: int|
                0 <= j < i ==> (#[trigger] out@[j]).0 == parties@[j] && out@[j].1 == allocation(
                    pool,
                    parties@,
                    j,
                ),
        decreases n - i,
    {
        let p = &parties[i];
        let amt: i64;
        if i + 1 == n {
            assert(allocation(pool, parties@, i as int) == pool - allocated);
            amt = pool_cents - allocated;
        } else {
            let s = share_of(pool_cents, p.ratio_bp);
            assert(i64::MIN <= share(pool, parties@[i as int].ratio_bp as int) <= i64::MAX);
            amt = s as i64;
            assert(shares_before(pool, parties@, i + 1) == allocated + amt);
            assert(i64::MIN <= shares_before(pool, parties@, i + 1) <= i64::MAX);
            allocated = allocated + amt;
        }
        out.push((copy_party(p), amt));
        i = i + 1;
    }
    out
}

/// Whether the split of `pool_cents` among `parties` stays within `i64`.
pub fn split_fits_exec(pool_cents: i64, parties: &[Party]) -> (r: bool)
    ensures
        r == split_fits(pool_cents as int, parties@),
{
    let ghost pool = pool_cents as int;
    let n = parties.len();
    let mut before: i128 = 0;
    let mut i: usize = 0;
    while i < n
        invariant
            n == parties@.len(),
            i <= n,
            pool == pool_cents,
            before == shares_before(pool, parties@, i as int),
            forall|j: int|
                0 <= j < i ==> i64::MIN <= #[trigger] share(pool, parties@[j].ratio_bp as int)
                    <= i64::MAX,
            forall|k: int|
                0 <= k <= i ==> i64::MIN <= #[trigger] shares_before(pool, parties@, k)
                    <= i64::MAX,
            i == n && n > 0 ==> i64::MIN <= allocation(pool, parties@, n - 1) <= i64::MAX,
        decreases n - i,
    {
        if i + 1 == n {
            let last = pool_cents as i128 - before;
            if last < i64::MIN as i128 || last > i64::MAX as i128 {
                assert(allocation(pool, parties@, parties@.len() - 1) == last);
                return false;
            }
            assert(allocation(pool, parties@, n - 1) == last);
        }
        let s = share_of(pool_cents, parties[i].ratio_bp);
        if s < i64::MIN as i128 || s > i64::MAX as i128 {
            assert(!(i64::MIN <= share(pool, parties@[i as int].ratio_bp as int) <= i64::MAX));
            return false;
        }
        let next = before + s;
        assert(next == shares_before(pool, parties@, i + 1));
        if next < i64::MIN as i128 || next > i64::MAX as i128 {
            assert(!(i64::MIN <= shares_before(pool, parties@, i + 1) <= i64::MAX));
            return false;
        }
        before = next;
        i = i + 1;
    }
    proof {
        if n > 0 {
            assert(i64::MIN <= shares_before(pool, parties@, n - 1) <= i64::MAX);
        }
    }
    true
}

/// The split of `pool_cents` among `parties`, or `None` where a share or a
/// running total would leave the `i64` range.
pub fn split_checked(pool_cents: i64, parties: &[Party]) -> (r: Option<Vec<(Party, i64)>>)
    ensures
        r is Some <==> split_fits(pool_cents as int, parties@),
        r matches Some(out) ==> out@.len() == parties@.len() && forall|i: int|
            0 <= i < parties@.len() ==> (#[trigger] out@[i]).0 == parties@[i] && out@[i].1
                == allocation(pool_cents as int, parties@, i),
{
    if split_fits_exec(pool_cents, parties) {
        Some(split_pool(pool_cents, parties))
    } else {
        None
    }
}

} // verus!
