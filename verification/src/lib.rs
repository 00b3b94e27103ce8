//! Proportional splitting of a shared transfer between two salaries.
//!
//! Two parties with (possibly different) salaries want to move a desired
//! total amount out of their joint funds. Each party should keep the same
//! amount after the transfer, so each tentatively contributes whatever its
//! salary exceeds that common retained share. If one party's tentative
//! contribution would be negative, it is clamped to zero and the other party
//! covers the whole transfer.
//!
//! All arithmetic is exact. Salaries and the desired transfer are whole
//! units; because the retained share halves the surplus, a contribution can
//! land on a half unit, so contributions are carried in half units.

use vstd::prelude::*;

verus! {

/// Largest magnitude accepted for a salary or a desired transfer, chosen so
/// that every intermediate value of the split fits in an `i64`.
pub const AMOUNT_LIMIT: i64 = 0x2000_0000_0000_0000;

/// The only way the calculation can fail: the two salaries together are
/// strictly less than the desired transfer.
#[derive(Debug, PartialEq, Eq, Structural)]
pub enum CalculationError {
    NotEnoughMoney,
}

impl CalculationError {
    /// A human-readable description of the error.
    pub fn message(&self) -> (s: &'static str)
        ensures
            s@ == "Not enough money for the desired transfer in total"@,
    {
        "Not enough money for the desired transfer in total"
    }
}

/// One party's share of the transfer: the salary it started with (whole
/// units) and the amount it contributes (half units, so that an exact split
/// of an odd surplus can be represented).
#[derive(Debug, PartialEq, Eq, Structural)]
pub struct Transfer {
    pub salary: i64,
    pub amount_halves: i64,
}

impl Transfer {
    /// Builds a transfer whose contribution is a whole number of units.
    pub fn new(salary: i64, amount: i64) -> (t: Self)
        requires
            i64::MIN <= 2 * amount <= i64::MAX,
        ensures
            t.salary == salary,
            t.amount_halves == 2 * amount,
    {
        Transfer { salary, amount_halves: 2 * amount }
    }

    /// What the party keeps after contributing, in half units.
    pub fn remaining_halves(&self) -> (r: i64)
        requires
            i64::MIN <= 2 * self.salary <= i64::MAX,
            i64::MIN <= 2 * self.salary - self.amount_halves <= i64::MAX,
        ensures
            r == 2 * self.salary - self.amount_halves,
    {
        2 * self.salary - self.amount_halves
    }
}

/// The two contributions, in half units, for salaries `a` and `b` and a
/// desired transfer `d` (all in whole units).
///
/// Each party would retain `(a + b - d) / 2` after the transfer, so the
/// first party's tentative contribution is `a - (a + b - d) / 2`, which is
/// `(a - b + d) / 2`, i.e. `a - b + d` half units; symmetrically for the
/// second. If one tentative contribution is negative it is clamped to zero
/// and the other party covers the whole transfer. Exact arithmetic has no
/// negative zero, so a tentative contribution of exactly zero is kept, never
/// clamped.
pub open spec fn split_halves(a: int, b: int, d: int) -> (int, int) {
    let first = a - b + d;
    let second = b - a + d;
    if first < 0 {
        (0, 2 * d)
    } else if second < 0 {
        (2 * d, 0)
    } else {
        (first, second)
    }
}

/// Conservation: whenever the split succeeds, the two contributions add up
/// exactly to the desired transfer.
pub proof fn lemma_conservation(a: int, b: int, d: int)
    requires
        a + b >= d,
    ensures
        split_halves(a, b, d).0 + split_halves(a, b, d).1 == 2 * d,
{
}

/// Non-negativity: with non-negative salaries and a non-negative desired
/// transfer that the salaries can cover, neither contribution is negative
/// and neither exceeds its party's salary.
pub proof fn lemma_non_negativity(a: int, b: int, d: int)
    requires
        0 <= a,
        0 <= b,
        0 <= d,
        a + b >= d,
    ensures
        0 <= split_halves(a, b, d).0 <= 2 * a,
        0 <= split_halves(a, b, d).1 <= 2 * b,
{
}

/// Symmetry: swapping the two salaries swaps the two contributions, as long
/// as at most one tentative contribution is negative (both can be negative
/// only when the desired transfer is, and then the clamp picks the first
/// party on both runs).
pub proof fn lemma_symmetry(a: int, b: int, d: int)
    requires
        a - b + d >= 0 || b - a + d >= 0,
    ensures
        split_halves(b, a, d).0 == split_halves(a, b, d).1,
        split_halves(b, a, d).1 == split_halves(a, b, d).0,
{
}

/// The inputs of one split: two salaries and the desired transfer, all in
/// whole units.
#[derive(Debug, PartialEq, Eq, Structural)]
pub struct TransferCalculator {
    pub first_salary: i64,
    pub second_salary: i64,
    pub desired_transfer: i64,
}

impl TransferCalculator {
    /// All three inputs are small enough that the split cannot overflow.
    pub open spec fn wf(self) -> bool {
        &&& -AMOUNT_LIMIT <= self.first_salary <= AMOUNT_LIMIT
        &&& -AMOUNT_LIMIT <= self.second_salary <= AMOUNT_LIMIT
        &&& -AMOUNT_LIMIT <= self.desired_transfer <= AMOUNT_LIMIT
    }

    pub fn new(first_salary: i64, second_salary: i64, desired_transfer: i64) -> (c: Self)
        ensures
            c == (TransferCalculator { first_salary, second_salary, desired_transfer }),
    {
        TransferCalculator { first_salary, second_salary, desired_transfer }
    }

    /// Splits the desired transfer between the two parties.
    ///
    /// Fails exactly when the salaries together cannot cover the desired
    /// transfer; otherwise returns one `Transfer` per party, in input order,
    /// with the contributions given by `split_halves`.
    pub fn calculate(&self) -> (r: Result<(Transfer, Transfer), CalculationError>)
        requires
            self.wf(),
        ensures
            match r {
                Ok((first, second)) => {
                    &&& self.first_salary + self.second_salary >= self.desired_transfer
                    &&& first.salary == self.first_salary
                    &&& second.salary == self.second_salary
                    &&& (first.amount_halves as int, second.amount_halves as int)
                        == split_halves(
                        self.first_salary as int,
                        self.second_salary as int,
                        self.desired_transfer as int,
                    )
                },
                Err(e) => {
                    &&& self.first_salary + self.second_salary < self.desired_transfer
                    &&& e == CalculationError::NotEnoughMoney
                },
            },
    {
        if self.first_salary + self.second_salary < self.desired_transfer {
            return Err(CalculationError::NotEnoughMoney);
        }

        let first_halves = self.first_salary - self.second_salary + self.desired_transfer;
        let second_halves = self.second_salary - self.first_salary + self.desired_transfer;

        let (first_amount, second_amount) = if first_halves < 0 {
            (0, 2 * self.desired_transfer)
        } else if second_halves < 0 {
            (2 * self.desired_transfer, 0)
        } else {
            (first_halves, second_halves)
        };

        Ok((
            Transfer { salary: self.first_salary, amount_halves: first_amount },
            Transfer { salary: self.second_salary, amount_halves: second_amount },
        ))
    }
}

} // verus!
