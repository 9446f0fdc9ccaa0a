use vstd::prelude::*;

verus! {

/// The launchpads that the sniper buys on.
#[derive(Clone, Copy, Debug, PartialEq, Eq, Structural)]
pub enum Platform {
    Flap,
    FourMeme,
}

pub open spec fn min_int(a: int, b: int) -> int {
    if a <= b {
        a
    } else {
        b
    }
}

pub open spec fn max_int(a: int, b: int) -> int {
    if a >= b {
        a
    } else {
        b
    }
}

/// The fee per gas used to price the gas reserve: the cached fee, or the
/// configured fallback while nothing has been cached yet (a cached value of 0).
pub open spec fn effective_max_fee(cached_max_fee: u64, fallback_max_fee: u128) -> int {
    if cached_max_fee == 0 {
        fallback_max_fee as int
    } else {
        cached_max_fee as int
    }
}

/// The part of the balance kept back for gas: the full cost of the gas limit at
/// the effective fee, but never more than 70% of the balance.
pub open spec fn gas_reserve(
    balance: u128,
    cached_max_fee: u64,
    fallback_max_fee: u128,
    gas_limit: u64,
) -> int {
    min_int(gas_limit * effective_max_fee(cached_max_fee, fallback_max_fee), balance * 70 / 100)
}

/// How much of the wallet balance a buy may spend.
pub open spec fn affordable(
    balance: u128,
    cached_max_fee: u64,
    fallback_max_fee: u128,
    gas_limit: u64,
    requested: u128,
) -> int {
    min_int(balance - gas_reserve(balance, cached_max_fee, fallback_max_fee, gas_limit), requested as int)
}

/// Amount of wei that a buy of `requested` wei can spend out of `balance`,
/// after keeping back the gas reserve.
pub fn affordable_wei(
    balance: u128,
    cached_max_fee: u64,
    fallback_max_fee: u128,
    gas_limit: u64,
    requested: u128,
) -> (r: u128)
    requires
        gas_limit * effective_max_fee(cached_max_fee, fallback_max_fee) <= u128::MAX,
        balance * 70 <= u128::MAX,
    ensures
        r == affordable(balance, cached_max_fee, fallback_max_fee, gas_limit, requested),
        r <= requested,
        r + gas_reserve(balance, cached_max_fee, fallback_max_fee, gas_limit) <= balance,
        ({
            let fee = if cached_max_fee != 0 {
                cached_max_fee as int
            } else {
                fallback_max_fee as int
            };
            let reserve = if gas_limit * fee <= balance * 70 / 100 {
                gas_limit * fee
            } else {
                balance * 70 / 100
            };
            r == if balance - reserve <= requested {
                balance - reserve
            } else {
                requested as int
            }
        }),
{
    let max_fee: u128 = if cached_max_fee == 0 {
        fallback_max_fee
    } else {
        cached_max_fee as u128
    };
    let gas_reserve_raw: u128 = gas_limit as u128 * max_fee;
    let cap: u128 = balance * 70 / 100;
    let gas_reserve: u128 = if gas_reserve_raw <= cap {
        gas_reserve_raw
    } else {
        cap
    };
    let available: u128 = balance.saturating_sub(gas_reserve);
    if available == 0 {
        return 0;
    }
    if available <= requested {
        available
    } else {
        requested
    }
}

/// The fees per gas of a transaction: the cached values, raised to the configured floors.
pub fn gas_fees(cached_max_fee: u64, cached_tip: u64, floor_max_fee: u128, floor_tip: u128) -> (r: (
    u128,
    u128,
))
    ensures
        r.0 == max_int(cached_max_fee as int, floor_max_fee as int),
        r.1 == max_int(cached_tip as int, floor_tip as int),
{
    let max_fee: u128 = cached_max_fee as u128;
    let tip: u128 = cached_tip as u128;
    (
        if max_fee >= floor_max_fee {
            max_fee
        } else {
            floor_max_fee
        },
        if tip >= floor_tip {
            tip
        } else {
            floor_tip
        },
    )
}

/// A fee in wei per gas, capped at the largest value the fee cache can hold.
pub fn cap_to_u64(v: u128) -> (r: u64)
    ensures
        r == min_int(v as int, u64::MAX as int),
{
    if v <= u64::MAX as u128 {
        v as u64
    } else {
        u64::MAX
    }
}

/// Whether buys on `platform` are switched on.
pub fn buy_enabled(platform: Platform, snipe_flap: bool, snipe_fourmeme: bool) -> (r: bool)
    ensures
        r == match platform {
            Platform::Flap => snipe_flap,
            Platform::FourMeme => snipe_fourmeme,
        },
{
    match platform {
        Platform::Flap => snipe_flap,
        Platform::FourMeme => snipe_fourmeme,
    }
}

/// The wei still available for buys on one platform; `None` until the balance was first read.
#[derive(Clone, Copy, Debug)]
pub struct BuyBudget {
    pub remaining: Option<u128>,
}

/// What a buy of `requested` wei may spend out of `budget`.
pub open spec fn spendable(budget: Option<u128>, requested: u128) -> int {
    match budget {
        Some(b) => min_int(b as int, requested as int),
        None => 0,
    }
}

/// The budget after a buy of `spent` wei went out.
pub open spec fn after_spend(budget: Option<u128>, spent: u128) -> Option<u128> {
    match budget {
        Some(b) => Some(
            if b >= spent {
                (b - spent) as u128
            } else {
                0u128
            },
        ),
        None => Some(0u128),
    }
}

impl BuyBudget {
    /// A budget before the balance was read.
    pub fn unknown() -> (r: BuyBudget)
        ensures
            r.remaining is None,
    {
        BuyBudget { remaining: None }
    }

    /// A budget of `available` wei.
    pub fn with_available(available: u128) -> (r: BuyBudget)
        ensures
            r.remaining == Some(available),
    {
        BuyBudget { remaining: Some(available) }
    }

    /// The wei that a buy of `requested` wei may spend now (0 means: skip the buy).
    pub fn spendable(&self, requested: u128) -> (r: u128)
        ensures
            r == spendable(self.remaining, requested),
    {
        let b: u128 = match self.remaining {
            Some(b) => b,
            None => 0,
        };
        if b <= requested {
            b
        } else {
            requested
        }
    }

    /// Records that a buy of `spent` wei was sent.
    pub fn record_spent(&mut self, spent: u128)
        ensures
            final(self).remaining == after_spend(old(self).remaining, spent),
    {
        self.remaining = match self.remaining {
            Some(v) => Some(v.saturating_sub(spent)),
            None => Some(0),
        };
    }
}

/// What a buy on a platform comes to.
#[derive(Clone, Copy, Debug, PartialEq, Eq, Structural)]
pub enum BuyPlan {
    /// Buys on this platform are switched off.
    Disabled,
    /// Nothing can be spent: skip the buy.
    Skip,
    /// Spend this many wei.
    Spend(u128),
}

/// What a buy of `requested` wei on `platform` comes to with `budget`.
pub open spec fn buy_plan(
    platform: Platform,
    snipe_flap: bool,
    snipe_fourmeme: bool,
    budget: Option<u128>,
    requested: u128,
) -> BuyPlan {
    let enabled = match platform {
        Platform::Flap => snipe_flap,
        Platform::FourMeme => snipe_fourmeme,
    };
    if !enabled {
        BuyPlan::Disabled
    } else if spendable(budget, requested) == 0 {
        BuyPlan::Skip
    } else {
        BuyPlan::Spend(spendable(budget, requested) as u128)
    }
}

/// Plans a buy of `requested` wei on `platform`: off when that platform is not sniped,
/// else the most the budget allows, up to the request.
pub fn plan_buy(
    platform: Platform,
    snipe_flap: bool,
    snipe_fourmeme: bool,
    budget: &BuyBudget,
    requested: u128,
) -> (r: BuyPlan)
    ensures
        r == buy_plan(platform, snipe_flap, snipe_fourmeme, budget.remaining, requested),
        (r == BuyPlan::Disabled) <==> !(match platform {
            Platform::Flap => snipe_flap,
            Platform::FourMeme => snipe_fourmeme,
        }),
        match r {
            BuyPlan::Spend(w) => 0 < w <= requested && match budget.remaining {
                Some(b) => w <= b,
                None => false,
            },
            _ => true,
        },
{
    if !buy_enabled(platform, snipe_flap, snipe_fourmeme) {
        return BuyPlan::Disabled;
    }
    let amount = budget.spendable(requested);
    if amount == 0 {
        BuyPlan::Skip
    } else {
        BuyPlan::Spend(amount)
    }
}

/// The gas reserve is priced at the cached fee whenever one is cached, whatever the
/// fallback; only while nothing is cached is the fallback fee used.
pub proof fn law_reserve_uses_cached_fee(
    balance: u128,
    cached_max_fee: u64,
    fallback_max_fee: u128,
    gas_limit: u64,
    other_fallback: u128,
)
    ensures
        cached_max_fee != 0 ==> effective_max_fee(cached_max_fee, fallback_max_fee)
            == cached_max_fee as int,
        cached_max_fee == 0 ==> effective_max_fee(cached_max_fee, fallback_max_fee)
            == fallback_max_fee as int,
        cached_max_fee != 0 ==> gas_reserve(balance, cached_max_fee, fallback_max_fee, gas_limit)
            == gas_reserve(balance, cached_max_fee, other_fallback, gas_limit),
        cached_max_fee != 0 ==> gas_reserve(balance, cached_max_fee, fallback_max_fee, gas_limit)
            == (if gas_limit * cached_max_fee <= balance * 70 / 100 {
            gas_limit * cached_max_fee
        } else {
            balance * 70 / 100
        }),
        gas_reserve(balance, cached_max_fee, fallback_max_fee, gas_limit) <= balance * 70 / 100,
{
}

/// A buy on a platform is off exactly when that platform's switch is off; otherwise it
/// spends nothing beyond the request or the budget, and skips only when it could spend
/// nothing.
pub proof fn law_buy_follows_its_switch(
    platform: Platform,
    snipe_flap: bool,
    snipe_fourmeme: bool,
    budget: Option<u128>,
    requested: u128,
)
    ensures
        (buy_plan(platform, snipe_flap, snipe_fourmeme, budget, requested) == BuyPlan::Disabled)
            <==> !(match platform {
            Platform::Flap => snipe_flap,
            Platform::FourMeme => snipe_fourmeme,
        }),
        platform == Platform::FourMeme && !snipe_fourmeme ==> buy_plan(
            platform,
            snipe_flap,
            snipe_fourmeme,
            budget,
            requested,
        ) == BuyPlan::Disabled,
        platform == Platform::Flap && !snipe_flap ==> buy_plan(
            platform,
            snipe_flap,
            snipe_fourmeme,
            budget,
            requested,
        ) == BuyPlan::Disabled,
        match buy_plan(platform, snipe_flap, snipe_fourmeme, budget, requested) {
            BuyPlan::Spend(w) => 0 < w <= requested && match budget {
                Some(b) => w <= b,
                None => false,
            },
            _ => true,
        },
        buy_plan(platform, snipe_flap, snipe_fourmeme, budget, requested) == BuyPlan::Skip ==> (
        requested == 0 || budget is None || budget == Some(0u128)),
{
}

/// The budget left after a run of buys, each spending what the budget allowed at its turn.
pub open spec fn budget_after_buys(budget: Option<u128>, requests: Seq<u128>) -> Option<u128>
    decreases requests.len(),
{
    if requests.len() == 0 {
        budget
    } else {
        let spent = spendable(budget, requests[0]) as u128;
        budget_after_buys(after_spend(budget, spent), requests.drop_first())
    }
}

/// The wei spent by a run of buys, each spending what the budget allowed at its turn.
pub open spec fn total_spent(budget: Option<u128>, requests: Seq<u128>) -> int
    decreases requests.len(),
{
    if requests.len() == 0 {
        0
    } else {
        let spent = spendable(budget, requests[0]);
        spent + total_spent(after_spend(budget, spent as u128), requests.drop_first())
    }
}

/// A buy takes out of the budget exactly what it spends: what is spent plus what
/// remains is what the budget held before.
pub proof fn law_spend_is_conserved(budget: Option<u128>, requested: u128)
    ensures
        ({
            let spent = spendable(budget, requested);
            &&& 0 <= spent <= requested
            &&& after_spend(budget, spent as u128) matches Some(rest) && rest + spent == match budget {
                Some(b) => b as int,
                None => 0,
            }
        }),
{
}

/// However many buys are made, together they never spend more than the budget held at
/// the start, and what they spent plus what remains is exactly that budget.
pub proof fn law_buys_stay_within_budget(budget: Option<u128>, requests: Seq<u128>)
    requires
        budget is Some || requests.len() > 0,
    ensures
        budget_after_buys(budget, requests) matches Some(rest) && rest + total_spent(
            budget,
            requests,
        ) == match budget {
            Some(b) => b as int,
            None => 0,
        },
    decreases requests.len(),
{
    if requests.len() > 0 {
        let spent = spendable(budget, requests[0]);
        law_spend_is_conserved(budget, requests[0]);
        law_buys_stay_within_budget(after_spend(budget, spent as u128), requests.drop_first());
    }
}

/// The transaction nonce of the next buy; each buy takes the next number.
#[derive(Debug)]
pub struct NonceCounter {
    pub next: u64,
}

impl NonceCounter {
    /// A counter whose next nonce is `start` (the account's transaction count).
    pub fn new(start: u64) -> (r: NonceCounter)
        ensures
            r.next == start,
    {
        NonceCounter { next: start }
    }

    /// Hands out the next nonce and moves on by one (wrapping at `u64::MAX`).
    pub fn take(&mut self) -> (r: u64)
        ensures
            r == old(self).next,
            final(self).next == (if old(self).next == u64::MAX {
                0
            } else {
                old(self).next + 1
            }),
    {
        let n = self.next;
        self.next = if n == u64::MAX {
            0
        } else {
            n + 1
        };
        n
    }
}

/// The counter's next nonce after `k` nonces were taken from a counter at `start`.
pub open spec fn nonce_after(start: u64, k: nat) -> u64
    decreases k,
{
    if k == 0 {
        start
    } else {
        let prev = nonce_after(start, (k - 1) as nat);
        if prev == u64::MAX {
            0
        } else {
            (prev + 1) as u64
        }
    }
}

/// Taking nonces one after another from `start` hands out `start`, `start + 1`, ... : as long
/// as they stay within `u64`, no two buys get the same nonce.
pub proof fn law_nonces_are_consecutive(start: u64, i: nat, j: nat)
    requires
        i < j,
        start + j <= u64::MAX,
    ensures
        nonce_after(start, i) == start + i,
        nonce_after(start, j) == start + j,
        nonce_after(start, i) != nonce_after(start, j),
    decreases j,
{
    if j > i + 1 {
        law_nonces_are_consecutive(start, i, (j - 1) as nat);
    } else if i > 0 {
        law_nonces_are_consecutive(start, (i - 1) as nat, i);
    }
}

} // verus!
