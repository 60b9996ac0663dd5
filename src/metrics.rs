//! Counters kept over the life of the process, written only by the control loop.
use vstd::prelude::*;

verus! {

/// `a + b`, held at `u64::MAX`.
pub open spec fn saturated(a: int, b: int) -> u64 {
    if a + b > u64::MAX {
        u64::MAX
    } else {
        (a + b) as u64
    }
}

/// Lamports of a profit or a loss, held at `u64::MAX`.
pub open spec fn clamped(amount: int) -> int {
    if amount > u64::MAX {
        u64::MAX as int
    } else {
        amount
    }
}

#[derive(Clone, Copy, Debug)]
pub struct Metrics {
    pub opportunities_found: u64,
    pub trades_executed: u64,
    pub trades_failed: u64,
    /// Lamports gained over the trades that made money.
    pub total_profit: u64,
    /// Lamports lost over the trades that lost money.
    pub total_loss: u64,
}

fn clamp_to_u64(amount: i128) -> (r: u64)
    requires
        amount >= 0,
    ensures
        r == clamped(amount as int),
{
    if amount > u64::MAX as i128 {
        u64::MAX
    } else {
        amount as u64
    }
}

impl Metrics {
    pub fn new() -> (r: Self)
        ensures
            r.opportunities_found == 0,
            r.trades_executed == 0,
            r.trades_failed == 0,
            r.total_profit == 0,
            r.total_loss == 0,
    {
        Metrics {
            opportunities_found: 0,
            trades_executed: 0,
            trades_failed: 0,
            total_profit: 0,
            total_loss: 0,
        }
    }

    pub fn record_opportunity(&mut self)
        ensures
            *final(self) == (Metrics {
                opportunities_found: saturated(old(self).opportunities_found as int, 1),
                ..*old(self)
            }),
    {
        self.opportunities_found = self.opportunities_found.saturating_add(1);
    }

    /// Counts a completed bracket and adds its realized profit, or its loss.
    pub fn record_trade_executed(&mut self, profit: i128)
        ensures
            final(self).trades_executed == saturated(old(self).trades_executed as int, 1),
            final(self).opportunities_found == old(self).opportunities_found,
            final(self).trades_failed == old(self).trades_failed,
            profit >= 0 ==> final(self).total_profit == saturated(
                old(self).total_profit as int,
                clamped(profit as int),
            ) && final(self).total_loss == old(self).total_loss,
            profit < 0 ==> final(self).total_loss == saturated(
                old(self).total_loss as int,
                clamped(-profit),
            ) && final(self).total_profit == old(self).total_profit,
    {
        self.trades_executed = self.trades_executed.saturating_add(1);
        if profit >= 0 {
            self.total_profit = self.total_profit.saturating_add(clamp_to_u64(profit));
        } else if profit < -(u64::MAX as i128) {
            self.total_loss = u64::MAX;
        } else {
            self.total_loss = self.total_loss.saturating_add(clamp_to_u64(-profit));
        }
    }

    pub fn record_trade_failed(&mut self)
        ensures
            *final(self) == (Metrics {
                trades_failed: saturated(old(self).trades_failed as int, 1),
                ..*old(self)
            }),
    {
        self.trades_failed = self.trades_failed.saturating_add(1);
    }

    /// Share of attempted brackets that completed, in basis points; zero before any.
    pub fn success_rate(&self) -> (r: u64)
        ensures
            self.trades_executed + self.trades_failed == 0 ==> r == 0,
            self.trades_executed + self.trades_failed > 0 ==> r == (self.trades_executed * 10_000)
                / (self.trades_executed + self.trades_failed),
            r <= 10_000,
    {
        let attempted: u128 = self.trades_executed as u128 + self.trades_failed as u128;
        if attempted == 0 {
            return 0;
        }
        let executed: u128 = self.trades_executed as u128;
        proof {
            vstd::arithmetic::div_mod::lemma_div_is_ordered(
                (executed * 10_000) as int,
                (attempted * 10_000) as int,
                attempted as int,
            );
            vstd::arithmetic::div_mod::lemma_div_multiples_vanish(10_000, attempted as int);
            assert(attempted * 10_000 == attempted * 10_000 as int);
        }
        (executed * 10_000 / attempted) as u64
    }

    /// Profit less loss, in lamports.
    pub fn net_profit(&self) -> (r: i128)
        ensures
            r == self.total_profit - self.total_loss,
    {
        self.total_profit as i128 - self.total_loss as i128
    }

    /// Mean profit over completed brackets, in lamports; zero before any.
    pub fn average_profit_per_trade(&self) -> (r: u64)
        ensures
            self.trades_executed == 0 ==> r == 0,
            self.trades_executed > 0 ==> r == self.total_profit / self.trades_executed,
    {
        if self.trades_executed == 0 {
            0
        } else {
            self.total_profit / self.trades_executed
        }
    }
}

} // verus!
