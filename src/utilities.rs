//! Saturating arithmetic on resource costs, and other small helpers.
use vstd::prelude::*;
use vstd::string::*;

verus! {

/// `a + b`, clamped to `u64::MAX`.
pub open spec fn sat_add(a: int, b: int) -> int {
    if a + b > u64::MAX {
        u64::MAX as int
    } else {
        a + b
    }
}

/// `a * b`, clamped to `u64::MAX`.
pub open spec fn sat_mul(a: int, b: int) -> int {
    if a * b > u64::MAX {
        u64::MAX as int
    } else {
        a * b
    }
}

/// Saturating product of two `u64` values.
pub fn saturating_mul_u64(a: u64, b: u64) -> (r: u64)
    ensures
        r == sat_mul(a as int, b as int),
{
    assert((a as int) * (b as int) <= u64::MAX as int * u64::MAX as int) by (nonlinear_arith)
        requires
            a <= u64::MAX,
            b <= u64::MAX,
    ;
    let p: u128 = (a as u128) * (b as u128);
    if p > u64::MAX as u128 {
        u64::MAX
    } else {
        p as u64
    }
}

/// Sums two `(igt_cost, [metal, crystal, chemical, fuel])` cost tuples,
/// component by component, saturating at `u64::MAX`.
pub fn sum_costs(base: (u64, [u64; 4]), cost: (u64, [u64; 4])) -> (r: (u64, [u64; 4]))
    ensures
        r.0 == sat_add(base.0 as int, cost.0 as int),
        forall|i: int| 0 <= i < 4 ==> r.1[i] == sat_add(base.1[i] as int, cost.1[i] as int),
{
    let r = (
        base.0.saturating_add(cost.0),
        [
            base.1[0].saturating_add(cost.1[0]),
            base.1[1].saturating_add(cost.1[1]),
            base.1[2].saturating_add(cost.1[2]),
            base.1[3].saturating_add(cost.1[3]),
        ],
    );
    assert(forall|i: int| 0 <= i < 4 ==> r.1[i] == sat_add(base.1[i] as int, cost.1[i] as int)) by {
        assert(r.1[0] == sat_add(base.1[0] as int, cost.1[0] as int));
    }
    r
}

/// Multiplies every component of an `(igt_cost, [metal, crystal, chemical, fuel])`
/// cost tuple by `amount`, saturating at `u64::MAX`.
pub fn multiply_costs(base: (u64, [u64; 4]), amount: u64) -> (r: (u64, [u64; 4]))
    ensures
        r.0 == sat_mul(base.0 as int, amount as int),
        forall|i: int| 0 <= i < 4 ==> r.1[i] == sat_mul(base.1[i] as int, amount as int),
{
    (
        saturating_mul_u64(base.0, amount),
        [
            saturating_mul_u64(base.1[0], amount),
            saturating_mul_u64(base.1[1], amount),
            saturating_mul_u64(base.1[2], amount),
            saturating_mul_u64(base.1[3], amount),
        ],
    )
}

/// `base` grown by the factor `num / den` once per step, rounding down and
/// saturating at `u64::MAX` after each step.
pub open spec fn grown_cost(base: int, num: int, den: int, steps: nat) -> int
    decreases steps,
{
    if steps == 0 {
        base
    } else {
        let next = grown_cost(base, num, den, (steps - 1) as nat) * num / den;
        if next > u64::MAX {
            u64::MAX as int
        } else {
            next
        }
    }
}

/// The number of growth steps a level has taken over level one.
pub open spec fn level_steps(level: int) -> nat {
    if level <= 1 {
        0
    } else {
        (level - 1) as nat
    }
}

/// The cost of something at `level`, given its cost at level one and a growth
/// factor of `growth_num / growth_den` per level. Level zero costs as much as
/// level one.
pub fn calculate_upgrade_cost(base_cost: u64, growth_num: u64, growth_den: u64, level: u8) -> (r: u64)
    requires
        growth_den > 0,
    ensures
        r == grown_cost(base_cost as int, growth_num as int, growth_den as int, level_steps(level as int)),
{
    let steps: u8 = if level <= 1 { 0 } else { level - 1 };
    let mut cost: u64 = base_cost;
    let mut i: u8 = 0;
    while i < steps
        invariant
            i <= steps,
            steps as nat == level_steps(level as int),
            growth_den > 0,
            cost == grown_cost(base_cost as int, growth_num as int, growth_den as int, i as nat),
        decreases steps - i,
    {
        assert((cost as int) * (growth_num as int) <= u64::MAX as int * u64::MAX as int) by (nonlinear_arith)
            requires
                cost <= u64::MAX,
                growth_num <= u64::MAX,
        ;
        let next: u128 = (cost as u128) * (growth_num as u128) / (growth_den as u128);
        cost = if next > u64::MAX as u128 { u64::MAX } else { next as u64 };
        i = i + 1;
    }
    cost
}

/// Whether two strings hold the same characters.
pub fn same_text(a: &str, b: &str) -> (r: bool)
    ensures
        r == (a@ == b@),
{
    let n = a.unicode_len();
    if n != b.unicode_len() {
        return false;
    }
    let mut i: usize = 0;
    while i < n
        invariant
            i <= n,
            n == a@.len(),
            n == b@.len(),
            forall|j: int| 0 <= j < i ==> a@[j] == b@[j],
        decreases n - i,
    {
        if a.get_char(i) != b.get_char(i) {
            return false;
        }
        i = i + 1;
    }
    assert(a@ =~= b@);
    true
}

} // verus!
