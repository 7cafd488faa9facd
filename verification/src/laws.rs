use vstd::prelude::*;

use crate::errors::SaturnError;
use crate::instructions::bonds::create_bond::{bond_reward, open_bond_effect};
use crate::instructions::bonds::redeem_bond::redeem_bond_effect;
use crate::instructions::bonds::update_quote::update_quote_effect;
use crate::instructions::staking::stake::stake_effect;
use crate::instructions::staking::unstake::unstake_effect;
use crate::instructions::stf::burn_tokens::redeem_effect;
use crate::instructions::{fits_i64, quote_refusal, Timing};
use crate::instructions::treasury::init_treasury::initialized_treasury;
use crate::saturnaccounts::{SaturnBond, Treasury, UserStakeAccount};
use crate::errors::BondError;
use crate::instructions::bonds::update_quote::backing_value_per_token;
use crate::instructions::stf::burn_tokens::token_backing_price;
use crate::utils::{rounded_div, spec_bond_quote};

verus! {

/// A bond pays once: once a redemption has gone through, every later
/// redemption of that bond is refused and changes nothing.
pub proof fn lemma_bond_pays_once(bond: SaturnBond)
    ensures
        redeem_bond_effect(bond).0 is Ok ==> redeem_bond_effect(redeem_bond_effect(bond).1) == (
            Err::<u64, SaturnError>(SaturnError::BondAlreadyRedeemed),
            redeem_bond_effect(bond).1,
        ),
{
}

/// A bond that was opened and not yet redeemed pays, when redeemed, the STF
/// computed from its amount and the quote at the time of opening.
pub proof fn lemma_opened_bond_pays_its_reward(
    treasury: Treasury,
    bond: SaturnBond,
    unopened: bool,
    user: [u8; 32],
    token_amount: u64,
    now: i64,
    timing: Timing,
)
    requires
        !bond.is_finished,
        open_bond_effect(treasury, bond, unopened, user, token_amount, now, timing).0 is Ok,
    ensures
        redeem_bond_effect(open_bond_effect(treasury, bond, unopened, user, token_amount, now, timing).2).0
            == Ok::<u64, SaturnError>(bond_reward(token_amount as int, treasury.bond_quote_usd as int) as u64),
{
}

/// A bond pays `token_amount * 10^9 / bond_quote_usd` STF base units, off by
/// less than fifty of them: the division is made on an amount scaled by
/// 10^7, rounded to the nearest integer and scaled by the remaining hundred.
pub proof fn lemma_bond_reward_precision(token_amount: u64, bond_quote_usd: u64)
    requires
        bond_quote_usd > 0,
    ensures
        -50 * bond_quote_usd < bond_reward(token_amount as int, bond_quote_usd as int)
            * bond_quote_usd - token_amount * 1_000_000_000 <= 50 * bond_quote_usd,
{
    let n = token_amount * 10_000_000;
    let d = bond_quote_usd as int;
    let q = rounded_div(n, d);
    let (fq, r) = (n / d, n % d);
    assert(n == d * fq + r && 0 <= r < d) by (nonlinear_arith)
        requires
            d > 0,
            fq == n / d,
            r == n % d,
    ;
    assert(-d < 2 * (q * d - n) <= d) by (nonlinear_arith)
        requires
            n == d * fq + r,
            0 <= r < d,
            q == fq + if 2 * r >= d { 1int } else { 0int },
    ;
    assert(bond_reward(token_amount as int, d) * d - token_amount * 1_000_000_000 == 100 * (q * d - n))
        by (nonlinear_arith)
        requires
            bond_reward(token_amount as int, d) == q * 100,
            n == token_amount * 10_000_000,
    ;
}

/// A bond account in use is refused: when its creator is any key other than
/// the system program's, creating a bond on it is refused and changes nothing.
pub proof fn lemma_used_bond_refused(
    treasury: Treasury,
    bond: SaturnBond,
    system_program: [u8; 32],
    user: [u8; 32],
    token_amount: u64,
    now: i64,
    timing: Timing,
)
    requires
        bond.creator@ != system_program@,
    ensures
        open_bond_effect(
            treasury,
            bond,
            bond.creator@ == system_program@,
            user,
            token_amount,
            now,
            timing,
        ) == (Err::<(), SaturnError>(SaturnError::BondAlreadyInitialized), treasury, bond),
{
}

/// A bond account opens once: after a bond was created for a user other than
/// the system program, creating a bond on that account again is refused and
/// changes nothing.
pub proof fn lemma_bond_opens_once(
    treasury: Treasury,
    bond: SaturnBond,
    system_program: [u8; 32],
    user: [u8; 32],
    token_amount: u64,
    now: i64,
    timing: Timing,
    second_user: [u8; 32],
    second_amount: u64,
    second_now: i64,
)
    requires
        user@ != system_program@,
        open_bond_effect(
            treasury,
            bond,
            bond.creator@ == system_program@,
            user,
            token_amount,
            now,
            timing,
        ).0 is Ok,
    ensures
        ({
            let first = open_bond_effect(
                treasury,
                bond,
                bond.creator@ == system_program@,
                user,
                token_amount,
                now,
                timing,
            );
            open_bond_effect(
                first.1,
                first.2,
                first.2.creator@ == system_program@,
                second_user,
                second_amount,
                second_now,
                timing,
            ) == (Err::<(), SaturnError>(SaturnError::BondAlreadyInitialized), first.1, first.2)
        }),
{
}

/// Staking and then unstaking the shares received gives back the holder's
/// shares as they were, and pays out the staked amount rounded down to a
/// multiple of the staking index.
pub proof fn lemma_stake_unstake_round_trip(
    treasury: Treasury,
    stake: UserStakeAccount,
    amount: u64,
)
    requires
        stake_effect(treasury, stake, amount).0 is Ok,
    ensures
        ({
            let staked = stake_effect(treasury, stake, amount);
            let shares = amount / treasury.staking_index;
            let unstaked = unstake_effect(staked.1, staked.2, shares as u64);
            &&& unstaked.0 == Ok::<u64, SaturnError>((shares * treasury.staking_index) as u64)
            &&& shares * treasury.staking_index <= amount
            &&& amount - shares * treasury.staking_index < treasury.staking_index
            &&& unstaked.2 == stake
            &&& unstaked.1.token_staked == treasury.token_staked + amount - shares
        }),
{
    let shares = amount / treasury.staking_index;
    let (a, i) = (amount as int, treasury.staking_index as int);
    assert(shares * i <= a && a - shares * i < i) by (nonlinear_arith)
        requires
            i > 0,
            shares == a / i,
            a >= 0,
    ;
    assert(shares <= a) by (nonlinear_arith)
        requires
            i > 0,
            shares == a / i,
            a >= 0,
    ;
}

/// Right after a quote update, the quote stays valid until the validity
/// window has passed, and the supply matches the supply at the update, so
/// bonds and cash-outs are not refused for a stale quote.
pub proof fn lemma_quote_valid_after_update(
    treasury: Treasury,
    signer: [u8; 32],
    current_trading_price: u64,
    current_treasury_value: i128,
    now: i64,
    timing: Timing,
    later: i64,
)
    requires
        update_quote_effect(treasury, signer, current_trading_price, current_treasury_value, now).0 is Ok,
        fits_i64(now + timing.quote_validity),
        now <= later < now + timing.quote_validity,
    ensures
        ({
            let updated = update_quote_effect(
                treasury,
                signer,
                current_trading_price,
                current_treasury_value,
                now,
            ).1;
            &&& quote_refusal(updated, timing, later) is None
            &&& updated.token_minted == updated.tokens_minted_last_update
        }),
{
}

/// A refused instruction changes no account.
pub proof fn lemma_refusal_changes_nothing(
    treasury: Treasury,
    bond: SaturnBond,
    stake: UserStakeAccount,
    unopened: bool,
    key: [u8; 32],
    amount: u64,
    price: u64,
    value: i128,
    now: i64,
    timing: Timing,
)
    ensures
        open_bond_effect(treasury, bond, unopened, key, amount, now, timing).0 is Err
            ==> open_bond_effect(treasury, bond, unopened, key, amount, now, timing).1 == treasury
            && open_bond_effect(treasury, bond, unopened, key, amount, now, timing).2 == bond,
        redeem_bond_effect(bond).0 is Err ==> redeem_bond_effect(bond).1 == bond,
        update_quote_effect(treasury, key, price, value, now).0 is Err
            ==> update_quote_effect(treasury, key, price, value, now).1 == treasury,
        stake_effect(treasury, stake, amount).0 is Err ==> stake_effect(treasury, stake, amount).1
            == treasury && stake_effect(treasury, stake, amount).2 == stake,
        unstake_effect(treasury, stake, amount).0 is Err ==> unstake_effect(treasury, stake, amount).1
            == treasury && unstake_effect(treasury, stake, amount).2 == stake,
        redeem_effect(treasury, price, amount, now, timing).0 is Err ==> redeem_effect(
            treasury,
            price,
            amount,
            now,
            timing,
        ).1 == treasury,
{
}

/// One instruction as it acts on the treasury account, with its inputs.
/// Redeeming a bond does not touch the treasury account.
pub enum TreasuryStep {
    CreateBond {
        bond: SaturnBond,
        system_program: [u8; 32],
        user: [u8; 32],
        token_amount: u64,
        now: i64,
        timing: Timing,
    },
    RedeemBond { bond: SaturnBond },
    UpdateQuote {
        signer: [u8; 32],
        current_trading_price: u64,
        current_treasury_value: i128,
        now: i64,
    },
    Stake { stake: UserStakeAccount, amount_to_stake: u64 },
    Unstake { stake: UserStakeAccount, amount_to_unstake: u64 },
    CashOut { user_balance: u64, token_amount: u64, now: i64, timing: Timing },
}

/// The treasury after one instruction, refused or not.
pub open spec fn treasury_after(treasury: Treasury, step: TreasuryStep) -> Treasury {
    match step {
        TreasuryStep::CreateBond { bond, system_program, user, token_amount, now, timing } =>
            open_bond_effect(
            treasury,
            bond,
            bond.creator@ == system_program@,
            user,
            token_amount,
            now,
            timing,
        ).1,
        TreasuryStep::RedeemBond { bond } => treasury,
        TreasuryStep::UpdateQuote {
            signer,
            current_trading_price,
            current_treasury_value,
            now,
        } => update_quote_effect(
            treasury,
            signer,
            current_trading_price,
            current_treasury_value,
            now,
        ).1,
        TreasuryStep::Stake { stake, amount_to_stake } => stake_effect(
            treasury,
            stake,
            amount_to_stake,
        ).1,
        TreasuryStep::Unstake { stake, amount_to_unstake } => unstake_effect(
            treasury,
            stake,
            amount_to_unstake,
        ).1,
        TreasuryStep::CashOut { user_balance, token_amount, now, timing } => redeem_effect(
            treasury,
            user_balance,
            token_amount,
            now,
            timing,
        ).1,
    }
}

/// The treasury after a sequence of instructions, in order.
pub open spec fn treasury_after_all(treasury: Treasury, steps: Seq<TreasuryStep>) -> Treasury
    decreases steps.len(),
{
    if steps.len() == 0 {
        treasury
    } else {
        treasury_after_all(treasury_after(treasury, steps[0]), steps.drop_first())
    }
}

/// No instruction but the initialization changes the staking index, the
/// admin key or the quote key, refused or not.
pub proof fn lemma_treasury_settings_kept(treasury: Treasury, step: TreasuryStep)
    ensures
        treasury_after(treasury, step).staking_index == treasury.staking_index,
        treasury_after(treasury, step).treasury_admin == treasury.treasury_admin,
        treasury_after(treasury, step).saturn_group_api_key == treasury.saturn_group_api_key,
{
}

/// Over any sequence of instructions after it, the initialization's staking
/// index, admin key and quote key stay as they were set, so staking never
/// divides by zero.
pub proof fn lemma_initialized_settings_stay(
    treasury: Treasury,
    payer: [u8; 32],
    saturn_api_key: [u8; 32],
    now: i64,
    steps: Seq<TreasuryStep>,
)
    ensures
        treasury_after_all(initialized_treasury(treasury, payer, saturn_api_key, now), steps).staking_index
            == 1_000_000_000,
        treasury_after_all(initialized_treasury(treasury, payer, saturn_api_key, now), steps).treasury_admin
            == payer,
        treasury_after_all(
            initialized_treasury(treasury, payer, saturn_api_key, now),
            steps,
        ).saturn_group_api_key == saturn_api_key,
{
    lemma_settings_kept_over(initialized_treasury(treasury, payer, saturn_api_key, now), steps);
}

/// A sequence of instructions keeps the staking index, the admin key and the
/// quote key.
pub proof fn lemma_settings_kept_over(treasury: Treasury, steps: Seq<TreasuryStep>)
    ensures
        treasury_after_all(treasury, steps).staking_index == treasury.staking_index,
        treasury_after_all(treasury, steps).treasury_admin == treasury.treasury_admin,
        treasury_after_all(treasury, steps).saturn_group_api_key == treasury.saturn_group_api_key,
    decreases steps.len(),
{
    if steps.len() > 0 {
        lemma_treasury_settings_kept(treasury, steps[0]);
        lemma_settings_kept_over(treasury_after(treasury, steps[0]), steps.drop_first());
    }
}

/// The supply moves only by bonds and cash-outs: an accepted bond adds its
/// USDC amount to `token_minted`, an accepted cash-out takes the burned
/// tokens off it, and staking, unstaking and quote updates leave it as it is.
pub proof fn lemma_supply_accounting(
    treasury: Treasury,
    bond: SaturnBond,
    stake: UserStakeAccount,
    unopened: bool,
    key: [u8; 32],
    amount: u64,
    price: u64,
    value: i128,
    now: i64,
    timing: Timing,
)
    ensures
        open_bond_effect(treasury, bond, unopened, key, amount, now, timing).0 is Ok
            ==> open_bond_effect(treasury, bond, unopened, key, amount, now, timing).1.token_minted
            == treasury.token_minted + amount,
        redeem_effect(treasury, price, amount, now, timing).0 is Ok ==> redeem_effect(
            treasury,
            price,
            amount,
            now,
            timing,
        ).1.token_minted == treasury.token_minted - amount,
        update_quote_effect(treasury, key, price, value, now).1.token_minted
            == treasury.token_minted,
        stake_effect(treasury, stake, amount).1.token_minted == treasury.token_minted,
        unstake_effect(treasury, stake, amount).1.token_minted == treasury.token_minted,
{
}

/// The tiers of the bond quote, each in closed form. With a premium (trading
/// price less backing price) above the backing price the quote passes on
/// 30% of the premium; between a half and the whole backing price, 50%;
/// between a quarter and a half, 65%; below a quarter, 80% (the premium
/// counted in whole hundredths); exactly on a boundary it is 0.
pub proof fn lemma_bond_quote_tiers(trading: u64, backing: u64)
    requires
        trading >= backing,
    ensures
        ({
            let premium = trading - backing;
            let quote = spec_bond_quote(trading as int, backing as int);
            &&& premium > backing ==> quote == backing + premium / 100 * 30
            &&& backing / 2 < premium < backing ==> quote == backing + premium / 100 * 50
            &&& backing / 4 < premium < backing / 2 ==> quote == backing + premium / 100 * 65
            &&& 0 <= premium < backing / 4 ==> quote == backing + premium / 100 * 80
            &&& (premium == backing || premium == backing / 2 || premium == backing / 4) ==> quote == 0
        }),
{
}

/// An accepted quote update prices bonds from the current supply: the backing
/// price is the treasury value times 1000 divided by `token_minted`
/// (truncated toward zero), times 1_000_000, cut to 64 bits, whatever the
/// supply was at the previous update; the quote is the tier quote of the
/// trading price over that backing price.
pub proof fn lemma_quote_uses_current_supply(
    treasury: Treasury,
    signer: [u8; 32],
    current_trading_price: u64,
    current_treasury_value: i128,
    now: i64,
)
    ensures
        ({
            let effect = update_quote_effect(
                treasury,
                signer,
                current_trading_price,
                current_treasury_value,
                now,
            );
            let scaled = current_treasury_value * 1000;
            let minted = treasury.token_minted as int;
            let per_token = backing_value_per_token(current_treasury_value as int, minted);
            effect.0 is Ok ==> {
                &&& minted > 0
                &&& 0 <= scaled ==> per_token * minted <= scaled < per_token * minted + minted
                &&& scaled < 0 ==> per_token * minted - minted < scaled <= per_token * minted
                &&& effect.1.bond_quote_usd == spec_bond_quote(
                    current_trading_price as int,
                    ((per_token * 1_000_000) as u64) as int,
                )
                &&& effect.1.last_treasury_value_update == now
                &&& effect.1.tokens_minted_last_update == treasury.token_minted
            }
        }),
{
    let scaled = current_treasury_value * 1000;
    let minted = treasury.token_minted as int;
    if update_quote_effect(treasury, signer, current_trading_price, current_treasury_value, now).0 is Ok
    {
        let per_token = backing_value_per_token(current_treasury_value as int, minted);
        if scaled >= 0 {
            let q = scaled / minted;
            assert(q * minted <= scaled < q * minted + minted) by (nonlinear_arith)
                requires
                    minted > 0,
                    scaled >= 0,
                    q == scaled / minted,
            ;
        } else {
            let q = (-scaled) / minted;
            assert(q * minted <= -scaled < q * minted + minted) by (nonlinear_arith)
                requires
                    minted > 0,
                    -scaled > 0,
                    q == (-scaled) / minted,
            ;
            assert(per_token * minted == -(q * minted)) by (nonlinear_arith)
                requires
                    per_token == -q,
            ;
        }
    }
}

/// An accepted cash-out pays at the backing price of the treasury value
/// over the supply, whatever the bond quote: with `V` the treasury value cut
/// to 64 bits and `P` the price, `P` is the integer nearest to
/// `V * 10^9 / token_minted`, and the payout is `token_amount * P / 10^9`
/// rounded down; the supply drops by the tokens burned.
pub proof fn lemma_cash_out_pays_backing_price(
    treasury: Treasury,
    user_balance: u64,
    token_amount: u64,
    now: i64,
    timing: Timing,
)
    ensures
        ({
            let effect = redeem_effect(treasury, user_balance, token_amount, now, timing);
            let value = (treasury.treasury_value as u64) * 1_000_000_000;
            let minted = treasury.token_minted as int;
            let price = token_backing_price(treasury);
            effect.0 is Ok ==> {
                &&& minted > 0
                &&& -minted <= 2 * (value - price * minted) < minted
                &&& effect.0->Ok_0 * 1_000_000_000 <= token_amount * price
                &&& token_amount * price < effect.0->Ok_0 * 1_000_000_000 + 1_000_000_000
                &&& effect.1.token_minted == treasury.token_minted - token_amount
            }
        }),
{
    let effect = redeem_effect(treasury, user_balance, token_amount, now, timing);
    if effect.0 is Ok {
        let value = (treasury.treasury_value as u64) * 1_000_000_000;
        let minted = treasury.token_minted as int;
        let price = token_backing_price(treasury);
        let (fq, r) = (value / minted, value % minted);
        assert(value == minted * fq + r && 0 <= r < minted) by (nonlinear_arith)
            requires
                minted > 0,
                fq == value / minted,
                r == value % minted,
        ;
        assert(-minted <= 2 * (value - price * minted) < minted) by (nonlinear_arith)
            requires
                value == minted * fq + r,
                0 <= r < minted,
                price == fq + if 2 * r >= minted { 1int } else { 0int },
        ;
        let product = token_amount * price;
        let payout = product / 1_000_000_000;
        assert(payout * 1_000_000_000 <= product < payout * 1_000_000_000 + 1_000_000_000);
    }
}

/// Unstaking more shares than the holder has is refused with the unstaking
/// error and changes nothing; otherwise it pays `shares * staking_index`
/// STF and takes the shares off the holder, unless the arithmetic leaves its
/// range.
pub proof fn lemma_unstake_within_holding(
    treasury: Treasury,
    stake: UserStakeAccount,
    amount_to_unstake: u64,
)
    ensures
        stake.total_staked_index < amount_to_unstake ==> unstake_effect(treasury, stake, amount_to_unstake)
            == (Err::<u64, SaturnError>(SaturnError::Program(BondError::UnstakingError)), treasury, stake),
        stake.total_staked_index >= amount_to_unstake
            && amount_to_unstake * treasury.staking_index <= u64::MAX
            && treasury.token_staked >= amount_to_unstake ==> {
            let effect = unstake_effect(treasury, stake, amount_to_unstake);
            &&& effect.0 == Ok::<u64, SaturnError>((amount_to_unstake * treasury.staking_index) as u64)
            &&& effect.2.total_staked_index == stake.total_staked_index - amount_to_unstake
            &&& effect.1.token_staked == treasury.token_staked - amount_to_unstake
        },
{
}

/// A bond quote is valid at `now` exactly while the update time plus the
/// validity window lies after `now`; once it does not, bonds and cash-outs
/// that pass the checks before it are refused as expired and change nothing.
pub proof fn lemma_quote_expiry(
    treasury: Treasury,
    bond: SaturnBond,
    user: [u8; 32],
    token_amount: u64,
    user_balance: u64,
    now: i64,
    timing: Timing,
)
    ensures
        ({
            let expiry = treasury.last_treasury_value_update + timing.quote_validity;
            &&& quote_refusal(treasury, timing, now) is None <==> (fits_i64(expiry) && expiry > now)
            &&& fits_i64(expiry) && expiry <= now ==> {
                &&& quote_refusal(treasury, timing, now) == Some(SaturnError::QuoteExpired)
                &&& open_bond_effect(treasury, bond, true, user, token_amount, now, timing) == (
                    Err::<(), SaturnError>(SaturnError::QuoteExpired),
                    treasury,
                    bond,
                )
                &&& user_balance > token_amount ==> redeem_effect(
                    treasury,
                    user_balance,
                    token_amount,
                    now,
                    timing,
                ) == (Err::<u64, SaturnError>(SaturnError::QuoteExpired), treasury)
            }
        }),
{
}

/// An accepted bond records its creator, its USDC amount, its start at `now`
/// and its end a bond duration later, the reward for its amount at the
/// current quote, and adds its amount to the supply.
pub proof fn lemma_accepted_bond_record(
    treasury: Treasury,
    bond: SaturnBond,
    unopened: bool,
    user: [u8; 32],
    token_amount: u64,
    now: i64,
    timing: Timing,
)
    ensures
        ({
            let effect = open_bond_effect(treasury, bond, unopened, user, token_amount, now, timing);
            effect.0 is Ok ==> {
                &&& unopened
                &&& treasury.bond_quote_usd > 0
                &&& effect.2.creator == user
                &&& effect.2.token_amount == token_amount
                &&& effect.2.start_timestamp == now
                &&& effect.2.end_timestamp == now + timing.bond_duration
                &&& effect.2.num_token_to_redeem == bond_reward(
                    token_amount as int,
                    treasury.bond_quote_usd as int,
                )
                &&& effect.2.is_finished == bond.is_finished
                &&& effect.1.token_minted == treasury.token_minted + token_amount
            }
        }),
{
}

/// An accepted stake gives the holder the staked amount divided by the
/// staking index, rounded down, in shares, and adds the whole amount to the
/// treasury's staked count.
pub proof fn lemma_stake_shares(treasury: Treasury, stake: UserStakeAccount, amount_to_stake: u64)
    ensures
        ({
            let effect = stake_effect(treasury, stake, amount_to_stake);
            let shares = effect.2.total_staked_index - stake.total_staked_index;
            effect.0 is Ok ==> {
                &&& shares * treasury.staking_index <= amount_to_stake
                &&& amount_to_stake < (shares + 1) * treasury.staking_index
                &&& effect.1.token_staked == treasury.token_staked + amount_to_stake
            }
        }),
{
    let effect = stake_effect(treasury, stake, amount_to_stake);
    if effect.0 is Ok {
        let (a, i) = (amount_to_stake as int, treasury.staking_index as int);
        let q = a / i;
        assert(q * i <= a < (q + 1) * i) by (nonlinear_arith)
            requires
                i > 0,
                a >= 0,
                q == a / i,
        ;
    }
}

/// Initialization sets a staking index, a supply and a treasury value of a
/// billion each, the admin and quote keys, and the quote time to `now`.
pub proof fn lemma_initialization_values(
    treasury: Treasury,
    payer: [u8; 32],
    saturn_api_key: [u8; 32],
    now: i64,
)
    ensures
        ({
            let t = initialized_treasury(treasury, payer, saturn_api_key, now);
            &&& t.staking_index == 1_000_000_000
            &&& t.token_minted == 1_000_000_000
            &&& t.treasury_value == 1_000_000_000
            &&& t.treasury_admin == payer
            &&& t.saturn_group_api_key == saturn_api_key
            &&& t.last_treasury_value_update == now
            &&& t.bond_quote_usd == treasury.bond_quote_usd
            &&& t.token_staked == treasury.token_staked
        }),
{
}

} // verus!
