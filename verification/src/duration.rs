//! The staking-duration engine: how many seconds a holder's current stake
//! composition needs to accrue one whole reward credit.
//!
//! For a single token the duration is its kind's base duration. For `n >= 2`
//! tokens with `a` of the first kind and `b` of the second, the ledger forms
//! the count-weighted average base duration `t1`, divides once more by `n`
//! (`t2`), and applies the linear discount `k = 1 - (n-1)/10`; once the
//! discount reaches zero (`n >= 11`) the duration saturates at one day. All
//! intermediate values are carried in `10^-18` fixed-point units and only
//! the final result is truncated to whole seconds.

use vstd::prelude::*;
use crate::credit::CREDIT_SCALE;
use crate::error::ContractError;
use crate::state::{TokenInfo, KIND_MONKEEZ, KIND_KONGZ};

verus! {

/// Base duration of a kind-0 token: 84 days of seconds.
pub const MONKEEZ_STAKE_SECONDS: u64 = 7_257_600;

/// Base duration of a kind-1 token: 126 days of seconds.
pub const KONGZ_STAKE_SECONDS: u64 = 10_886_400;

/// The floor the duration saturates at once the discount is used up: one day.
pub const SATURATED_STAKE_SECONDS: u64 = 86_400;

/// How many tokens of the given kind a list holds.
pub open spec fn count_kind(tokens: Seq<TokenInfo>, kind: u64) -> int
    decreases tokens.len(),
{
    if tokens.len() == 0 {
        0
    } else {
        count_kind(tokens.drop_last(), kind) + if tokens.last().token_kind == kind {
            1int
        } else {
            0int
        }
    }
}

/// The duration, in whole seconds, for `n` staked tokens of which `a` are
/// kind 0 and `b` are kind 1, as the multi-token rule set gives it.
/// Intermediate values are numerators over `10^18`.
pub open spec fn duration_formula(n: int, a: int, b: int) -> int
    recommends
        n >= 1,
        0 <= a,
        0 <= b,
        a + b <= n,
{
    if n >= 11 {
        SATURATED_STAKE_SECONDS as int
    } else {
        let scale = CREDIT_SCALE as int;
        let t1 = ((MONKEEZ_STAKE_SECONDS as int) * a * scale) / n
            + ((KONGZ_STAKE_SECONDS as int) * b * scale) / n;
        let t2 = t1 / n;
        let k = (11 - n) * (scale / 10);
        let t3 = (t2 * k) / scale;
        t3 / scale
    }
}

/// Whether the duration is defined for this list: it is not for an empty
/// list, nor for a single token of an unknown kind.
pub open spec fn duration_defined(tokens: Seq<TokenInfo>) -> bool {
    tokens.len() >= 2 || (tokens.len() == 1 && tokens[0].token_kind < 2)
}

/// The duration for a token list: the base duration of a lone token, the
/// multi-token formula otherwise.
pub open spec fn duration_of(tokens: Seq<TokenInfo>) -> int
    recommends
        duration_defined(tokens),
{
    if tokens.len() == 1 {
        if tokens[0].token_kind == KIND_MONKEEZ {
            MONKEEZ_STAKE_SECONDS as int
        } else {
            KONGZ_STAKE_SECONDS as int
        }
    } else {
        duration_formula(
            tokens.len() as int,
            count_kind(tokens, KIND_MONKEEZ),
            count_kind(tokens, KIND_KONGZ),
        )
    }
}

/// A kind count is between zero and the list length.
pub proof fn lemma_count_kind_bounds(tokens: Seq<TokenInfo>, kind: u64)
    ensures
        0 <= count_kind(tokens, kind) <= tokens.len(),
    decreases tokens.len(),
{
    if tokens.len() > 0 {
        lemma_count_kind_bounds(tokens.drop_last(), kind);
    }
}

/// When every token has a known kind, the two kind counts partition the list.
pub proof fn lemma_count_kinds_total(tokens: Seq<TokenInfo>)
    requires
        forall|i: int| 0 <= i < tokens.len() ==> (#[trigger] tokens[i]).token_kind < 2,
    ensures
        count_kind(tokens, KIND_MONKEEZ) + count_kind(tokens, KIND_KONGZ) == tokens.len(),
    decreases tokens.len(),
{
    if tokens.len() > 0 {
        assert forall|i: int| 0 <= i < tokens.drop_last().len() implies
            (#[trigger] tokens.drop_last()[i]).token_kind < 2 by {
            assert(tokens.drop_last()[i] == tokens[i]);
        }
        lemma_count_kinds_total(tokens.drop_last());
        assert(tokens.last() == tokens[tokens.len() - 1]);
    }
}

/// For `2 <= n <= 10` tokens all of known kind, the formula never collapses
/// to zero: the result stays above a fifth of a day.
proof fn lemma_formula_positive(n: int, a: int, b: int)
    requires
        2 <= n <= 10,
        0 <= a,
        0 <= b,
        a + b == n,
    ensures
        duration_formula(n, a, b) >= 72575,
{
    let scale = CREDIT_SCALE as int;
    let mas = (MONKEEZ_STAKE_SECONDS as int) * a * scale;
    let kbs = (KONGZ_STAKE_SECONDS as int) * b * scale;
    let q1 = mas / n;
    let q2 = kbs / n;
    let t1 = q1 + q2;
    let t2 = t1 / n;
    let k = (11 - n) * (scale / 10);
    let prod = t2 * k;
    let t3 = prod / scale;
    vstd::arithmetic::div_mod::lemma_fundamental_div_mod(mas, n);
    vstd::arithmetic::div_mod::lemma_fundamental_div_mod(kbs, n);
    vstd::arithmetic::div_mod::lemma_mod_bound(mas, n);
    vstd::arithmetic::div_mod::lemma_mod_bound(kbs, n);
    vstd::arithmetic::mul::lemma_mul_is_distributive_add(n, q1, q2);
    assert(n * t1 >= (7_257_600_000_000_000_000_000_000 - 2) * n + 2);
    assert(t1 >= 7_257_600_000_000_000_000_000_000 - 1) by (nonlinear_arith)
        requires
            n * t1 >= (7_257_600_000_000_000_000_000_000 - 2) * n + 2,
            2 <= n <= 10;
    vstd::arithmetic::div_mod::lemma_div_is_ordered(7_257_599_999_999_999_999_999_999, t1, n);
    vstd::arithmetic::div_mod::lemma_div_is_ordered_by_denominator(
        7_257_599_999_999_999_999_999_999,
        n,
        10,
    );
    assert(t2 >= 725_759_999_999_999_999_999_999);
    assert(k >= 100_000_000_000_000_000);
    let big: int = 725_759_999_999_999_999_999_999int * 100_000_000_000_000_000int;
    vstd::arithmetic::mul::lemma_mul_inequality(725_759_999_999_999_999_999_999, t2, k);
    assert(prod >= big);
    vstd::arithmetic::div_mod::lemma_div_is_ordered(big, prod, scale);
    assert(big / scale == 72_575_999_999_999_999_999_999);
    vstd::arithmetic::div_mod::lemma_div_is_ordered(72_575_999_999_999_999_999_999, t3, scale);
}

/// A defined, well-formed composition always needs at least one second
/// per credit: the elapsed-time division is never by zero.
pub proof fn lemma_duration_positive(tokens: Seq<TokenInfo>)
    requires
        tokens.len() >= 1,
        forall|i: int| 0 <= i < tokens.len() ==> (#[trigger] tokens[i]).token_kind < 2,
    ensures
        duration_of(tokens) >= 1,
{
    if tokens.len() >= 2 && tokens.len() <= 10 {
        lemma_count_kind_bounds(tokens, KIND_MONKEEZ);
        lemma_count_kind_bounds(tokens, KIND_KONGZ);
        lemma_count_kinds_total(tokens);
        lemma_formula_positive(
            tokens.len() as int,
            count_kind(tokens, KIND_MONKEEZ),
            count_kind(tokens, KIND_KONGZ),
        );
    }
}

/// From eleven staked tokens on the discount is used up: the duration is
/// pinned at one day whatever the composition.
pub proof fn lemma_duration_saturates(tokens: Seq<TokenInfo>)
    requires
        tokens.len() >= 11,
    ensures
        duration_of(tokens) == SATURATED_STAKE_SECONDS,
{
}

/// Scaling a composition by a common factor leaves `t1`, the count-weighted
/// average base duration, exactly unchanged: the factor cancels out of both
/// truncated divisions.
proof fn lemma_t1_scale_invariant(a: int, b: int, c: int)
    requires
        0 <= a,
        0 <= b,
        a + b >= 1,
        c >= 1,
    ensures
        ({
            let scale = CREDIT_SCALE as int;
            let n0 = a + b;
            ((MONKEEZ_STAKE_SECONDS as int) * (c * a) * scale) / (c * n0)
                + ((KONGZ_STAKE_SECONDS as int) * (c * b) * scale) / (c * n0)
                == ((MONKEEZ_STAKE_SECONDS as int) * a * scale) / n0
                + ((KONGZ_STAKE_SECONDS as int) * b * scale) / n0
        }),
{
    let scale = CREDIT_SCALE as int;
    let n0 = a + b;
    let x = (MONKEEZ_STAKE_SECONDS as int) * a * scale;
    let z = (KONGZ_STAKE_SECONDS as int) * b * scale;
    assert((MONKEEZ_STAKE_SECONDS as int) * (c * a) * scale == c * x) by (nonlinear_arith)
        requires
            x == (MONKEEZ_STAKE_SECONDS as int) * a * scale;
    assert((KONGZ_STAKE_SECONDS as int) * (c * b) * scale == c * z) by (nonlinear_arith)
        requires
            z == (KONGZ_STAKE_SECONDS as int) * b * scale;
    vstd::arithmetic::div_mod::lemma_div_multiples_vanish_quotient(c, x, n0);
    vstd::arithmetic::div_mod::lemma_div_multiples_vanish_quotient(c, z, n0);
}

/// Holding the kind composition proportional, the duration never grows as
/// the stake count rises, as long as the larger stake stays within the
/// discount's range (at most ten tokens; at eleven the formula jumps back
/// up to its one-day floor).
pub proof fn lemma_duration_proportional_nonincreasing(a: int, b: int, c1: int, c2: int)
    requires
        0 <= a,
        0 <= b,
        a + b >= 1,
        1 <= c1 <= c2,
        c2 * (a + b) <= 10,
    ensures
        duration_formula(c2 * (a + b), c2 * a, c2 * b) <= duration_formula(
            c1 * (a + b),
            c1 * a,
            c1 * b,
        ),
{
    let scale = CREDIT_SCALE as int;
    let n0 = a + b;
    let n1 = c1 * n0;
    let n2 = c2 * n0;
    vstd::arithmetic::mul::lemma_mul_inequality(1, c1, n0);
    vstd::arithmetic::mul::lemma_mul_inequality(c1, c2, n0);
    assert(1 <= n1 <= n2 <= 10);
    lemma_t1_scale_invariant(a, b, c1);
    lemma_t1_scale_invariant(a, b, c2);
    let x = (MONKEEZ_STAKE_SECONDS as int) * a * scale;
    let z = (KONGZ_STAKE_SECONDS as int) * b * scale;
    vstd::arithmetic::div_mod::lemma_div_pos_is_pos(x, n0);
    vstd::arithmetic::div_mod::lemma_div_pos_is_pos(z, n0);
    let t1 = x / n0 + z / n0;
    let t2_1 = t1 / n1;
    let t2_2 = t1 / n2;
    vstd::arithmetic::div_mod::lemma_div_is_ordered_by_denominator(t1, n1, n2);
    vstd::arithmetic::div_mod::lemma_div_pos_is_pos(t1, n2);
    assert(0 <= t2_2 <= t2_1);
    let k1 = (11 - n1) * (scale / 10);
    let k2 = (11 - n2) * (scale / 10);
    assert(scale / 10 == 100_000_000_000_000_000);
    vstd::arithmetic::mul::lemma_mul_nonnegative(11 - n2, scale / 10);
    vstd::arithmetic::mul::lemma_mul_inequality(11 - n2, 11 - n1, scale / 10);
    assert(0 <= k2 <= k1);
    vstd::arithmetic::mul::lemma_mul_inequality(t2_2, t2_1, k2);
    vstd::arithmetic::mul::lemma_mul_inequality(k2, k1, t2_1);
    vstd::arithmetic::mul::lemma_mul_is_commutative(k2, t2_1);
    vstd::arithmetic::mul::lemma_mul_is_commutative(k1, t2_1);
    assert(t2_2 * k2 <= t2_1 * k1);
    vstd::arithmetic::div_mod::lemma_div_is_ordered(t2_2 * k2, t2_1 * k1, scale);
    vstd::arithmetic::div_mod::lemma_div_is_ordered(
        (t2_2 * k2) / scale,
        (t2_1 * k1) / scale,
        scale,
    );
}

/// For a well-formed non-empty stake the multi-token formula agrees with
/// `duration_of` even at a single token: the one-token rule is the formula's
/// own value at `n = 1`.
pub proof fn lemma_duration_of_is_formula(tokens: Seq<TokenInfo>)
    requires
        tokens.len() >= 1,
        forall|i: int| 0 <= i < tokens.len() ==> (#[trigger] tokens[i]).token_kind < 2,
    ensures
        duration_of(tokens) == duration_formula(
            tokens.len() as int,
            count_kind(tokens, KIND_MONKEEZ),
            count_kind(tokens, KIND_KONGZ),
        ),
{
    if tokens.len() == 1 {
        assert(tokens.drop_last().len() == 0);
        assert(tokens.last() == tokens[0]);
        let a = count_kind(tokens, KIND_MONKEEZ);
        let b = count_kind(tokens, KIND_KONGZ);
        assert(count_kind(tokens.drop_last(), KIND_MONKEEZ) == 0);
        assert(count_kind(tokens.drop_last(), KIND_KONGZ) == 0);
        lemma_formula_single(a, b);
    }
}

/// At a single token the formula's discount is exactly one and both
/// divisions are by one, so it reduces to the token's base duration.
proof fn lemma_formula_single(a: int, b: int)
    requires
        0 <= a,
        0 <= b,
        a + b == 1,
    ensures
        duration_formula(1, a, b) == a * (MONKEEZ_STAKE_SECONDS as int) + b * (
        KONGZ_STAKE_SECONDS as int),
{
    let scale = CREDIT_SCALE as int;
    let ma = (MONKEEZ_STAKE_SECONDS as int) * a * scale;
    let kb = (KONGZ_STAKE_SECONDS as int) * b * scale;
    vstd::arithmetic::div_mod::lemma_div_basics(ma);
    vstd::arithmetic::div_mod::lemma_div_basics(kb);
    let t1 = ma / 1 + kb / 1;
    let base = a * (MONKEEZ_STAKE_SECONDS as int) + b * (KONGZ_STAKE_SECONDS as int);
    assert(ma + kb == base * scale) by (nonlinear_arith)
        requires
            ma == (MONKEEZ_STAKE_SECONDS as int) * a * scale,
            kb == (KONGZ_STAKE_SECONDS as int) * b * scale,
            base == a * (MONKEEZ_STAKE_SECONDS as int) + b * (KONGZ_STAKE_SECONDS as int);
    vstd::arithmetic::div_mod::lemma_div_basics(t1);
    let t2 = t1 / 1;
    let k = (11 - 1) * (scale / 10);
    assert(scale / 10 == 100_000_000_000_000_000);
    assert(k == scale);
    vstd::arithmetic::mul::lemma_mul_is_commutative(t2, scale);
    vstd::arithmetic::div_mod::lemma_div_multiples_vanish(t2, scale);
    assert((t2 * k) / scale == t2);
    vstd::arithmetic::div_mod::lemma_div_by_multiple(base, scale);
    assert(t2 == base * scale);
    assert((base * scale) / scale == base);
}

fn count_tokens(token_list: &Vec<TokenInfo>, kind: u64) -> (r: usize)
    ensures
        r == count_kind(token_list@, kind),
        r <= token_list@.len(),
{
    let n: usize = token_list.len();
    let mut cnt: usize = 0;
    let mut i: usize = 0;
    while i < n
        invariant
            0 <= i <= n,
            n == token_list@.len(),
            cnt == count_kind(token_list@.take(i as int), kind),
            cnt <= i,
        decreases n - i,
    {
        proof {
            let taken = token_list@.take(i as int + 1);
            assert(taken.drop_last() =~= token_list@.take(i as int));
            assert(taken.last() == token_list@[i as int]);
        }
        if token_list[i].token_kind == kind {
            cnt = cnt + 1;
        }
        i = i + 1;
    }
    proof {
        assert(token_list@.take(n as int) =~= token_list@);
    }
    cnt
}

/// Seconds needed to accrue one whole credit for this stake composition,
/// or the domain error when no composition defines one.
pub fn staking_time(token_list: &Vec<TokenInfo>) -> (r: Result<u64, ContractError>)
    ensures
        (r is Ok) <==> duration_defined(token_list@),
        r matches Ok(d) ==> d == duration_of(token_list@),
        r is Err ==> r == Err::<u64, ContractError>(ContractError::AccrualUndefined),
{
    let n: usize = token_list.len();
    if n == 0 {
        return Err(ContractError::AccrualUndefined);
    }
    if n == 1 {
        return match token_list[0].token_kind {
            0 => Ok(MONKEEZ_STAKE_SECONDS),
            1 => Ok(KONGZ_STAKE_SECONDS),
            _ => Err(ContractError::AccrualUndefined),
        };
    }
    if n >= 11 {
        return Ok(SATURATED_STAKE_SECONDS);
    }
    let a: usize = count_tokens(token_list, KIND_MONKEEZ);
    let b: usize = count_tokens(token_list, KIND_KONGZ);
    let n128: u128 = n as u128;
    let ma: u128 = (MONKEEZ_STAKE_SECONDS as u128) * (a as u128) * CREDIT_SCALE;
    let kb: u128 = (KONGZ_STAKE_SECONDS as u128) * (b as u128) * CREDIT_SCALE;
    let q1: u128 = ma / n128;
    let q2: u128 = kb / n128;
    proof {
        vstd::arithmetic::div_mod::lemma_div_nonincreasing(ma as int, n128 as int);
        vstd::arithmetic::div_mod::lemma_div_nonincreasing(kb as int, n128 as int);
    }
    let t1: u128 = q1 + q2;
    let t2: u128 = t1 / n128;
    let m: u128 = 11 - n128;
    proof {
        vstd::arithmetic::div_mod::lemma_div_nonincreasing(t1 as int, n128 as int);
        assert(t2 * m <= 181_440_000_000_000_000_000_000_000 * 9) by (nonlinear_arith)
            requires
                t2 <= 181_440_000_000_000_000_000_000_000,
                m <= 9;
    }
    let t3: u128 = (t2 * m) / 10;
    let d: u128 = t3 / CREDIT_SCALE;
    proof {
        vstd::arithmetic::div_mod::lemma_div_is_ordered(
            (t2 * m) as int,
            1_632_960_000_000_000_000_000_000_000,
            10,
        );
        vstd::arithmetic::div_mod::lemma_div_is_ordered(
            t3 as int,
            163_296_000_000_000_000_000_000_000,
            CREDIT_SCALE as int,
        );
        lemma_formula_matches_tenths(
            n as int,
            count_kind(token_list@, KIND_MONKEEZ),
            count_kind(token_list@, KIND_KONGZ),
        );
    }
    Ok(d as u64)
}

/// For `1 <= n <= 10` the discount multiplication by `k = (11-n)/10` in
/// fixed point collapses to multiplying by `11 - n` and dividing by ten:
/// the formula's last two steps equal `((t2 * (11 - n)) / 10) / 10^18`.
proof fn lemma_formula_matches_tenths(n: int, a: int, b: int)
    requires
        1 <= n <= 10,
        0 <= a,
        0 <= b,
    ensures
        ({
            let scale = CREDIT_SCALE as int;
            let t1 = ((MONKEEZ_STAKE_SECONDS as int) * a * scale) / n
                + ((KONGZ_STAKE_SECONDS as int) * b * scale) / n;
            let t2 = t1 / n;
            duration_formula(n, a, b) == ((t2 * (11 - n)) / 10) / scale
        }),
{
    let scale = CREDIT_SCALE as int;
    let t1 = ((MONKEEZ_STAKE_SECONDS as int) * a * scale) / n
        + ((KONGZ_STAKE_SECONDS as int) * b * scale) / n;
    let t2 = t1 / n;
    let k = (11 - n) * (scale / 10);
    let y = t2 * (11 - n);
    vstd::arithmetic::div_mod::lemma_div_pos_is_pos((MONKEEZ_STAKE_SECONDS as int) * a * scale, n);
    vstd::arithmetic::div_mod::lemma_div_pos_is_pos((KONGZ_STAKE_SECONDS as int) * b * scale, n);
    vstd::arithmetic::div_mod::lemma_div_pos_is_pos(t1, n);
    vstd::arithmetic::mul::lemma_mul_nonnegative(t2, 11 - n);
    assert(scale / 10 == 100_000_000_000_000_000);
    assert(t2 * k == y * 100_000_000_000_000_000) by (nonlinear_arith)
        requires
            k == (11 - n) * 100_000_000_000_000_000,
            y == t2 * (11 - n);
    vstd::arithmetic::div_mod::lemma_div_multiples_vanish_quotient(100_000_000_000_000_000, y, 10);
    assert((t2 * k) / scale == y / 10);
}

} // verus!
