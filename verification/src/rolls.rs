//! Which items of a generated collection take a guaranteed combination of traits.
use vstd::prelude::*;
use vstd::arithmetic::div_mod::{lemma_fundamental_div_mod, lemma_fundamental_div_mod_converse};

verus! {

/// How the traits of one item are chosen.
#[derive(Debug, Clone, Copy, PartialEq, Eq, Structural)]
pub enum Roll {
    /// At random, by the odds of the configuration.
    Random,
    /// As the guaranteed roll at this position of the configuration's list.
    Guaranteed(usize),
}

/// How often a guaranteed roll is inserted: the amount divided by one more than the
/// number of guaranteed rolls.
pub open spec fn insert_frequency(amount: u32, guaranteed: nat) -> nat {
    (amount as nat) / (guaranteed + 1)
}

/// How many guaranteed rolls the items before item `i` took.
pub open spec fn used_before(i: nat, f: nat, g: nat) -> nat
    decreases i,
{
    if i <= 1 {
        0
    } else {
        let u = used_before((i - 1) as nat, f, g);
        if u < g && (i - 1) % (f as int) == 0 {
            u + 1
        } else {
            u
        }
    }
}

/// The roll of item `i`: the next guaranteed roll when `i` is a positive multiple of the
/// frequency and one is left, else a random one.
pub open spec fn roll_at(i: nat, f: nat, g: nat) -> Roll {
    if i > 0 && used_before(i, f, g) < g && (i as int) % (f as int) == 0 {
        Roll::Guaranteed(used_before(i, f, g) as usize)
    } else {
        Roll::Random
    }
}

/// Whether planning panics: with guaranteed rolls but a frequency of zero, the second
/// item divides by zero.
pub open spec fn plan_divides_by_zero(amount: u32, guaranteed: nat) -> bool {
    insert_frequency(amount, guaranteed) == 0 && guaranteed > 0 && amount >= 2
}

/// How many items can be planned: all of them, or only the first when planning the second
/// divides by zero.
pub open spec fn planned_items(amount: u32, guaranteed: nat) -> nat {
    if plan_divides_by_zero(amount, guaranteed) {
        1
    } else {
        amount as nat
    }
}

/// Plans the rolls of `amount` items with `guaranteed` guaranteed rolls: the guaranteed
/// rolls are taken in order, one every `insert_frequency` items (never the first item),
/// until none is left. When the second item would divide by zero, only the first item is
/// planned (the caller then stops where generation fails).
pub fn roll_plan(amount: u32, guaranteed: usize) -> (r: Vec<Roll>)
    requires
        guaranteed < u32::MAX,
    ensures
        r@.len() == planned_items(amount, guaranteed as nat),
        forall|i: int|
            0 <= i < r@.len() ==> r@[i] == roll_at(
                i as nat,
                insert_frequency(amount, guaranteed as nat),
                guaranteed as nat,
            ),
{
    let insert_frequency = amount / (guaranteed as u32 + 1);
    if insert_frequency == 0 && guaranteed > 0 && amount >= 2 {
        let mut first: Vec<Roll> = Vec::new();
        first.push(Roll::Random);
        return first;
    }
    let ghost f = insert_frequency as nat;
    let ghost g = guaranteed as nat;
    let mut plan: Vec<Roll> = Vec::new();
    let mut used: usize = 0;
    let mut i: u32 = 0;
    while i < amount
        invariant
            0 <= i <= amount,
            f == crate::rolls::insert_frequency(amount, g),
            f == insert_frequency,
            g == guaranteed,
            !plan_divides_by_zero(amount, g),
            plan@.len() == i,
            used == used_before(i as nat, f, g),
            used <= guaranteed,
            forall|j: int| 0 <= j < i ==> plan@[j] == roll_at(j as nat, f, g),
        decreases amount - i,
    {
        let ghost old_used = used;
        if i > 0 && used < guaranteed && i % insert_frequency == 0 {
            plan.push(Roll::Guaranteed(used));
            used = used + 1;
        } else {
            plan.push(Roll::Random);
        }
        assert(plan@[i as int] == roll_at(i as nat, f, g));
        proof {
            if i == 0 {
                assert(used_before(1, f, g) == 0);
            }
            assert(used == used_before((i + 1) as nat, f, g));
        }
        i = i + 1;
    }
    plan
}

/// Dividing the successor: `(j + 1) / f` grows by one exactly when `f` divides `j + 1`.
proof fn lemma_div_step(j: int, f: int)
    requires
        j >= 0,
        f > 0,
    ensures
        (j + 1) / f == j / f + if (j + 1) % f == 0 {
            1int
        } else {
            0int
        },
        (j + 1) % f == 0 <==> j % f == f - 1,
{
    lemma_fundamental_div_mod(j, f);
    let q = j / f;
    let r = j % f;
    if r + 1 < f {
        assert(j + 1 == q * f + (r + 1)) by (nonlinear_arith)
            requires
                j == f * q + r,
        ;
        lemma_fundamental_div_mod_converse(j + 1, f, q, r + 1);
    } else {
        assert(j + 1 == (q + 1) * f + 0) by (nonlinear_arith)
            requires
                j == f * q + r,
                r + 1 == f,
        ;
        lemma_fundamental_div_mod_converse(j + 1, f, q + 1, 0);
    }
}

/// The guaranteed rolls used before item `i` are the multiples of the frequency below
/// `i`, up to the number of guaranteed rolls.
proof fn lemma_used_before_closed(i: nat, f: nat, g: nat)
    requires
        i >= 1,
        f > 0,
    ensures
        used_before(i, f, g) == if ((i - 1) as int) / (f as int) < g {
            ((i - 1) as int) / (f as int)
        } else {
            g as int
        },
    decreases i,
{
    if i > 1 {
        lemma_used_before_closed((i - 1) as nat, f, g);
        lemma_div_step(i - 2, f as int);
    }
}

/// Item `i` (after the first) takes a guaranteed roll exactly when it is the `k`-th
/// positive multiple of the insert frequency and `k` is at most the number of guaranteed
/// rolls; it then takes the `k`-th guaranteed roll (counting from one).
pub proof fn law_guaranteed_roll_positions(i: nat, f: nat, g: nat)
    requires
        i >= 1,
        f > 0,
    ensures
        roll_at(i, f, g) == if (i as int) % (f as int) == 0 && (i as int) / (f as int) <= g {
            Roll::Guaranteed(((i as int) / (f as int) - 1) as usize)
        } else {
            Roll::Random
        },
{
    lemma_used_before_closed(i, f, g);
    lemma_div_step(i - 1, f as int);
}

/// With at least as many items as one more than the guaranteed rolls, every guaranteed
/// roll is taken: the `k`-th one by item `k * f`, which is one of the items.
pub proof fn law_every_guaranteed_roll_is_used(amount: u32, g: nat, k: nat)
    requires
        amount as nat >= g + 1,
        1 <= k <= g,
    ensures
        ({
            let f = insert_frequency(amount, g);
            &&& f > 0
            &&& k * f < amount
            &&& roll_at(k * f, f, g) == Roll::Guaranteed((k - 1) as usize)
        }),
{
    let f = insert_frequency(amount, g);
    let a = amount as int;
    let d = (g + 1) as int;
    lemma_fundamental_div_mod(a, d);
    assert(f > 0) by (nonlinear_arith)
        requires
            a >= d,
            d > 0,
            a == d * (a / d) + (a % d),
            0 <= a % d < d,
            f == a / d,
    ;
    assert(k * f <= g * f) by (nonlinear_arith)
        requires
            k <= g,
    ;
    assert(d * (f as int) == g * f + f) by (nonlinear_arith)
        requires
            d == g + 1,
    ;
    assert(k * f < amount);
    assert(k * f >= 1) by (nonlinear_arith)
        requires
            k >= 1,
            f >= 1,
    ;
    lemma_fundamental_div_mod_converse((k * f) as int, f as int, k as int, 0);
    law_guaranteed_roll_positions(k * f, f, g);
}

} // verus!
