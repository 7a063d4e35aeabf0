//! The course of a mint, as stages that each ask the runtime for one piece of work.
//!
//! A mint begins at `Start` with the event `Begin`. Each stage names the work the runtime
//! does next (read an account, verify the gateway token, burn, transfer); the runtime does
//! it and reports the outcome as the next event. A failure of that work ends the mint with
//! its own error. The mint ends at `Paid` or `Refused`.
use vstd::prelude::*;

use crate::breeding_machine::{
    check_balance, check_end_settings, check_gateway_token_age, end_settings_admit, recorded,
    record_overflows,
    gateway_token_account, gateway_token_age_admits, go_live_admits, items_left, must_burn,
    plan_gateway_verification, plan_payment, spec_whitelist_outcome, whitelist_go_live_admits,
    whitelist_outcome, whitelist_step, BreedingMachine, GatewayPlan, GatewayVerification,
    MintError, PaymentStep, WhitelistBurn, WhitelistMintMode, WhitelistStep, EXPIRE_OFFSET,
};
use crate::pubkey::Pubkey;
use crate::sysvar::spec_le_u64;
use crate::token::{ata_check, check_associated_token_account, AtaError};

use solana_gateway::state::GatewayToken;

verus! {

/// Where a mint stands, and the work the runtime does next.
#[derive(Debug)]
pub enum MintStage {
    /// Nothing done yet.
    Start,
    /// Read the gateway token at this remaining account; report its expiry time.
    ReadGatewayToken { token: usize },
    /// Verify the gateway token as the plan says; report when done.
    VerifyGateway { plan: GatewayPlan },
    /// Check that the remaining account at `account` is the payer's associated token
    /// account for the whitelist mint; report the whitelist tokens it holds, or that it
    /// is not.
    ReadWhitelistAccount { account: usize },
    /// Burn one whitelist token; report when done. The mint then goes on as `result` says.
    BurnWhitelistToken { burn: WhitelistBurn, result: Result<u64, MintError>, next_account: usize },
    /// Read what the payer holds to pay `price` with: the amount of its token account, or
    /// its lamports.
    ReadBalance { payment: PaymentStep, price: u64 },
    /// Transfer `amount` to the machine's wallet; report when done.
    Transfer { payment: PaymentStep, amount: u64 },
    /// The price is paid: the item may be minted.
    Paid { price: u64 },
    /// The mint is refused.
    Refused(MintError),
}

/// What the runtime reports of the work it did.
#[derive(Debug, Clone, Copy)]
pub enum MintEvent {
    Begin,
    GatewayToken { expire_time: Option<i64> },
    Done,
    WhitelistAmount { held: Option<u64> },
    Balance { balance: u64 },
}

/// Where an optional address in `borsh` that starts at `at` ends: after a 0 tag, or after a
/// 1 tag and 32 bytes; `None` for another tag or when the bytes run out.
pub open spec fn borsh_option_key_end(data: Seq<u8>, at: int) -> Option<int> {
    if at >= data.len() {
        None
    } else if data[at] == 0 {
        Some(at + 1)
    } else if data[at] == 1 && at + 33 <= data.len() {
        Some(at + 33)
    } else {
        None
    }
}

/// The expiry time of the gateway token stored (in `borsh`) at the start of `data`, or
/// `None` when the data does not hold a gateway token. The token is: a version byte, an
/// optional parent address, the owner wallet (32 bytes), an optional owner identity, the
/// gatekeeper network and the issuing gatekeeper (32 bytes each), a state byte (0, 1 or 2)
/// and an optional expiry time (a little-endian `i64`); bytes after it are ignored.
pub open spec fn gateway_token_expiry(data: Seq<u8>) -> Option<Option<i64>> {
    match borsh_option_key_end(data, 1) {
        None => None,
        Some(p) => match borsh_option_key_end(data, p + 32) {
            None => None,
            Some(q) => {
                let st = q + 64;
                if st + 1 >= data.len() || data[st] > 2 {
                    None
                } else if data[st + 1] == 0 {
                    Some(None)
                } else if data[st + 1] == 1 && st + 10 <= data.len() {
                    Some(Some(spec_le_u64(data, st + 2) as i64))
                } else {
                    None
                }
            },
        },
    }
}

/// Reads a gateway token with `solana_gateway::borsh::try_from_slice_incomplete`, which
/// decodes a `GatewayToken` from the start of the data with `borsh`, and keeps its expiry
/// time. As the sources show (the token's fields in order, `borsh` options with a 0 or 1
/// tag, the state enum's variant index 0 to 2, trailing bytes left unread), the result is
/// `gateway_token_expiry`; the message of a decoding error is dropped.
#[verifier::external_body]
fn read_gateway_token(data: &[u8]) -> (r: Option<Option<i64>>)
    ensures
        r == gateway_token_expiry(data@),
{
    match solana_gateway::borsh::try_from_slice_incomplete::<GatewayToken>(data) {
        Ok(token) => Some(token.expire_time),
        Err(_) => None,
    }
}

/// What reading the gateway token account reports: the token's expiry time, or `None`
/// when its data does not hold a gateway token (the mint then fails with that error).
pub fn gateway_token_event(data: &[u8]) -> (r: Option<MintEvent>)
    ensures
        r == match gateway_token_expiry(data@) {
            Some(t) => Some(MintEvent::GatewayToken { expire_time: t }),
            None => None,
        },
{
    match read_gateway_token(data) {
        Some(expire_time) => Some(MintEvent::GatewayToken { expire_time }),
        None => None,
    }
}

/// What reading the payer's whitelist token account reports: the whitelist tokens it
/// holds, or `None` when it is not the payer's associated token account for the whitelist
/// mint (for whatever reason).
pub fn whitelist_account_event(
    account_owner: &Pubkey,
    key: &Pubkey,
    data: &[u8],
    payer: &Pubkey,
    whitelist_mint: &Pubkey,
) -> (r: MintEvent)
    ensures
        r == (MintEvent::WhitelistAmount {
            held: match ata_check(account_owner@, key@, data@, payer@, whitelist_mint@) {
                Ok(amount) => Some(amount),
                Err(_) => None,
            },
        }),
{
    match check_associated_token_account(account_owner, key, data, payer, whitelist_mint) {
        Ok(amount) => MintEvent::WhitelistAmount { held: Some(amount) },
        Err(_) => MintEvent::WhitelistAmount { held: None },
    }
}

/// What reading the payer's token account for a token payment reports: the amount it
/// holds, or why it is not the payer's associated token account for the machine's mint
/// (the mint then fails with that error).
pub fn token_balance_event(
    account_owner: &Pubkey,
    key: &Pubkey,
    data: &[u8],
    payer: &Pubkey,
    mint: &Pubkey,
) -> (r: Result<MintEvent, AtaError>)
    ensures
        r == match ata_check(account_owner@, key@, data@, payer@, mint@) {
            Ok(amount) => Ok(MintEvent::Balance { balance: amount }),
            Err(e) => Err(e),
        },
{
    match check_associated_token_account(account_owner, key, data, payer, mint) {
        Ok(amount) => Ok(MintEvent::Balance { balance: amount }),
        Err(e) => Err(e),
    }
}

/// Whether the event answers the work that the stage asked for.
pub open spec fn event_fits(stage: MintStage, event: MintEvent) -> bool {
    match stage {
        MintStage::Start => event is Begin,
        MintStage::ReadGatewayToken { .. } => event is GatewayToken,
        MintStage::VerifyGateway { .. } => event is Done,
        MintStage::ReadWhitelistAccount { .. } => event is WhitelistAmount,
        MintStage::BurnWhitelistToken { .. } => event is Done,
        MintStage::ReadBalance { .. } => event is Balance,
        MintStage::Transfer { .. } => event is Done,
        MintStage::Paid { .. } => true,
        MintStage::Refused(_) => true,
    }
}

/// The stage of paying `price`, the next remaining account being `next`: refused when no
/// items are left, else a read of the payer's token account (the next two remaining
/// accounts being it and the transfer authority) or of its lamports.
pub open spec fn payment_stage(m: BreedingMachine, next: usize, price: u64) -> MintStage {
    if !items_left(m) {
        MintStage::Refused(MintError::BreedingMachineEmpty)
    } else {
        match m.token_mint {
            Some(mint) => MintStage::ReadBalance {
                payment: PaymentStep::Token {
                    token_account: next,
                    transfer_authority: (next + 1) as usize,
                    mint,
                },
                price,
            },
            None => MintStage::ReadBalance { payment: PaymentStep::Lamports, price },
        }
    }
}

/// The stage after the gateway checks, the next remaining account being `next`: the
/// whitelist token account when there is a whitelist, else the go-live check and the full
/// price.
pub open spec fn after_gateway(m: BreedingMachine, payer: Seq<u8>, now: i64, next: usize) -> MintStage {
    match m.data.whitelist_mint_settings {
        Some(_) => MintStage::ReadWhitelistAccount { account: next },
        None => if go_live_admits(m.data.go_live_date, payer == m.authority@, now) {
            payment_stage(m, next, m.data.price)
        } else {
            MintStage::Refused(MintError::BreedingMachineNotLive)
        },
    }
}

/// The stage once the whitelist has given its verdict.
pub open spec fn after_whitelist(m: BreedingMachine, result: Result<u64, MintError>, next: usize) -> MintStage {
    match result {
        Ok(price) => payment_stage(m, next, price),
        Err(e) => MintStage::Refused(e),
    }
}

/// How the gateway token is verified, given its expiry time.
pub open spec fn gateway_plan(m: BreedingMachine, expire_time: Option<i64>, len: nat) -> MintStage {
    let gk = m.data.gatekeeper->0;
    match expire_time {
        None => MintStage::Refused(MintError::GatewayTokenExpireTimeInvalid),
        Some(t) => if gk.expire_on_use {
            if len <= 1 {
                MintStage::Refused(MintError::GatewayAppMissing)
            } else if len == 2 {
                MintStage::Refused(MintError::NetworkExpireFeatureMissing)
            } else {
                MintStage::VerifyGateway {
                    plan: GatewayPlan {
                        verification: GatewayVerification::VerifyAndExpire {
                            token: 0,
                            gateway_app: 1,
                            network_expire_feature: 2,
                        },
                        expire_time: t,
                        next_account: 3,
                    },
                }
            }
        } else {
            MintStage::VerifyGateway {
                plan: GatewayPlan {
                    verification: GatewayVerification::VerifyAccount { token: 0 },
                    expire_time: t,
                    next_account: 1,
                },
            }
        },
    }
}

/// The stage a mint moves to on an event.
pub open spec fn next_stage_of(
    m: BreedingMachine,
    payer: Seq<u8>,
    now: i64,
    keys: Seq<Pubkey>,
    stage: MintStage,
    event: MintEvent,
) -> MintStage {
    match stage {
        MintStage::Start => if !end_settings_admit(m, payer == m.authority@, now) {
            MintStage::Refused(MintError::BreedingMachineNotLive)
        } else {
            match m.data.gatekeeper {
                Some(_) => if keys.len() == 0 {
                    MintStage::Refused(MintError::GatewayTokenMissing)
                } else {
                    MintStage::ReadGatewayToken { token: 0 }
                },
                None => after_gateway(m, payer, now, 0),
            }
        },
        MintStage::ReadGatewayToken { .. } => gateway_plan(m, event->expire_time, keys.len()),
        MintStage::VerifyGateway { plan } => if gateway_token_age_admits(m, plan.expire_time) {
            after_gateway(m, payer, now, plan.next_account)
        } else {
            MintStage::Refused(MintError::GatewayTokenExpireTimeInvalid)
        },
        MintStage::ReadWhitelistAccount { account } => {
            let o = spec_whitelist_outcome(m, payer, now, account, event->held, keys);
            match o.burn {
                Some(burn) => MintStage::BurnWhitelistToken {
                    burn,
                    result: o.result,
                    next_account: o.next_account,
                },
                None => after_whitelist(m, o.result, o.next_account),
            }
        },
        MintStage::BurnWhitelistToken { result, next_account, .. } => after_whitelist(
            m,
            result,
            next_account,
        ),
        MintStage::ReadBalance { payment, price } => if event->balance < price {
            MintStage::Refused(
                if payment is Token {
                    MintError::NotEnoughTokens
                } else {
                    MintError::NotEnoughSOL
                },
            )
        } else {
            MintStage::Transfer { payment, amount: price }
        },
        MintStage::Transfer { amount, .. } => MintStage::Paid { price: amount },
        MintStage::Paid { price } => MintStage::Paid { price },
        MintStage::Refused(e) => MintStage::Refused(e),
    }
}

/// Whether moving on from the stage with the event would panic: the gateway token's
/// creation time underflows, or the whitelist token account or the two accounts of a burn
/// are not among the remaining accounts.
pub open spec fn step_panics(m: BreedingMachine, keys: Seq<Pubkey>, stage: MintStage, event: MintEvent) -> bool {
    match stage {
        MintStage::VerifyGateway { plan } => m.data.go_live_date is Some && plan.expire_time
            < i64::MIN + EXPIRE_OFFSET,
        MintStage::ReadWhitelistAccount { account } => account >= keys.len() || (must_burn(
            m.data.whitelist_mint_settings->0,
            event->held,
        ) && account + 2 >= keys.len()),
        _ => false,
    }
}

/// Whether moving on would panic (see `step_panics`).
pub fn next_step_panics(
    m: &BreedingMachine,
    remaining_keys: &Vec<Pubkey>,
    stage: &MintStage,
    event: MintEvent,
) -> (r: bool)
    requires
        event_fits(*stage, event),
        stage is ReadWhitelistAccount ==> m.data.whitelist_mint_settings is Some,
    ensures
        r == step_panics(*m, remaining_keys@, *stage, event),
{
    match stage {
        MintStage::VerifyGateway { plan } => m.data.go_live_date.is_some() && plan.expire_time
            < i64::MIN + EXPIRE_OFFSET,
        MintStage::ReadWhitelistAccount { account } => {
            let amount = match event {
                MintEvent::WhitelistAmount { held } => held,
                _ => None,
            };
            let burns = match &m.data.whitelist_mint_settings {
                Some(ws) => match amount {
                    Some(a) => a > 0 && ws.mode == WhitelistMintMode::BurnEveryTime,
                    None => false,
                },
                None => false,
            };
            *account >= remaining_keys.len() || (burns && remaining_keys.len() - *account <= 2)
        },
        _ => false,
    }
}

/// Whether a stage is one the course of a mint can reach from `Start`.
pub open spec fn reachable_stage(m: BreedingMachine, stage: MintStage) -> bool {
    match stage {
        MintStage::ReadWhitelistAccount { account } => m.data.whitelist_mint_settings is Some
            && account <= 3,
        MintStage::BurnWhitelistToken { next_account, .. } => m.data.whitelist_mint_settings
            is Some && next_account <= 6,
        MintStage::VerifyGateway { plan } => m.data.gatekeeper is Some && plan.next_account <= 3,
        MintStage::ReadGatewayToken { token } => m.data.gatekeeper is Some && token == 0,
        _ => true,
    }
}

/// Moves a mint on from `stage` on `event`, the remaining accounts of the instruction
/// having the addresses `remaining_keys`.
pub fn next_stage(
    m: &BreedingMachine,
    payer: &Pubkey,
    now: i64,
    remaining_keys: &Vec<Pubkey>,
    stage: MintStage,
    event: MintEvent,
) -> (r: MintStage)
    requires
        event_fits(stage, event),
        reachable_stage(*m, stage),
        !step_panics(*m, remaining_keys@, stage, event),
    ensures
        r == next_stage_of(*m, payer@, now, remaining_keys@, stage, event),
        reachable_stage(*m, r),
{
    match stage {
        MintStage::Start => {
            if check_end_settings(m, payer, now).is_err() {
                return MintStage::Refused(MintError::BreedingMachineNotLive);
            }
            match gateway_token_account(m, remaining_keys.len()) {
                Err(e) => MintStage::Refused(e),
                Ok(Some(token)) => MintStage::ReadGatewayToken { token },
                Ok(None) => after_gateway_stage(m, payer, now, 0),
            }
        },
        MintStage::ReadGatewayToken { .. } => {
            let expire_time = match event {
                MintEvent::GatewayToken { expire_time } => expire_time,
                _ => None,
            };
            let gk = match &m.data.gatekeeper {
                Some(gk) => gk,
                None => return MintStage::Refused(MintError::GatewayTokenMissing),
            };
            match plan_gateway_verification(gk, expire_time, remaining_keys.len()) {
                Ok(plan) => MintStage::VerifyGateway { plan },
                Err(e) => MintStage::Refused(e),
            }
        },
        MintStage::VerifyGateway { plan } => {
            let admitted = match m.data.go_live_date {
                Some(_) => check_gateway_token_age(m, plan.expire_time).is_ok(),
                None => true,
            };
            if admitted {
                after_gateway_stage(m, payer, now, plan.next_account)
            } else {
                MintStage::Refused(MintError::GatewayTokenExpireTimeInvalid)
            }
        },
        MintStage::ReadWhitelistAccount { account } => {
            let amount = match event {
                MintEvent::WhitelistAmount { held } => held,
                _ => None,
            };
            let o = whitelist_outcome(m, payer, now, account, amount, remaining_keys);
            match o.burn {
                Some(burn) => MintStage::BurnWhitelistToken {
                    burn,
                    result: o.result,
                    next_account: o.next_account,
                },
                None => after_whitelist_stage(m, o.result, o.next_account),
            }
        },
        MintStage::BurnWhitelistToken { result, next_account, .. } => after_whitelist_stage(
            m,
            result,
            next_account,
        ),
        MintStage::ReadBalance { payment, price } => {
            let balance = match event {
                MintEvent::Balance { balance } => balance,
                _ => 0,
            };
            let in_tokens = match &payment {
                PaymentStep::Token { .. } => true,
                PaymentStep::Lamports => false,
            };
            match check_balance(in_tokens, balance, price) {
                Ok(amount) => MintStage::Transfer { payment, amount },
                Err(e) => MintStage::Refused(e),
            }
        },
        MintStage::Transfer { amount, .. } => MintStage::Paid { price: amount },
        MintStage::Paid { price } => MintStage::Paid { price },
        MintStage::Refused(e) => MintStage::Refused(e),
    }
}

fn payment_stage_of(m: &BreedingMachine, next: usize, price: u64) -> (r: MintStage)
    requires
        next <= 6,
    ensures
        r == payment_stage(*m, next, price),
{
    match plan_payment(m, next) {
        Ok(payment) => MintStage::ReadBalance { payment, price },
        Err(e) => MintStage::Refused(e),
    }
}

fn after_gateway_stage(m: &BreedingMachine, payer: &Pubkey, now: i64, next: usize) -> (r: MintStage)
    requires
        next <= 3,
    ensures
        r == after_gateway(*m, payer@, now, next),
        reachable_stage(*m, r),
{
    match whitelist_step(m, payer, now, next) {
        Ok(WhitelistStep::CheckTokenAccount { account }) => MintStage::ReadWhitelistAccount { account },
        Ok(WhitelistStep::NoWhitelist) => payment_stage_of(m, next, m.data.price),
        Err(e) => MintStage::Refused(e),
    }
}

fn after_whitelist_stage(m: &BreedingMachine, result: Result<u64, MintError>, next: usize) -> (r:
    MintStage)
    requires
        next <= 6,
    ensures
        r == after_whitelist(*m, result, next),
{
    match result {
        Ok(price) => payment_stage_of(m, next, price),
        Err(e) => MintStage::Refused(e),
    }
}

/// What every stage of a mint keeps: a payment is only ever asked for while items are
/// left, and the amount asked is the list price or the whitelist discount price.
pub open spec fn pays_fair_price(m: BreedingMachine, stage: MintStage) -> bool {
    let fair = |p: u64|
        p == m.data.price || (m.data.whitelist_mint_settings matches Some(ws) && ws.discount_price
            == Some(p));
    match stage {
        MintStage::ReadBalance { price, .. } => items_left(m) && fair(price),
        MintStage::Transfer { amount, .. } => items_left(m) && fair(amount),
        MintStage::Paid { price } => items_left(m) && fair(price),
        MintStage::BurnWhitelistToken { result, .. } => result matches Ok(p) ==> fair(p),
        _ => true,
    }
}

/// Every step of a mint keeps `pays_fair_price`: nobody pays for an item of an empty
/// machine, and nobody pays another price than the list price or the whitelist discount.
pub proof fn law_mint_pays_fair_price(
    m: BreedingMachine,
    payer: Seq<u8>,
    now: i64,
    keys: Seq<Pubkey>,
    stage: MintStage,
    event: MintEvent,
)
    requires
        pays_fair_price(m, stage),
        stage is ReadWhitelistAccount ==> m.data.whitelist_mint_settings is Some,
    ensures
        pays_fair_price(m, next_stage_of(m, payer, now, keys, stage, event)),
{
}

/// A payment moves only what was asked and no more than the payer was found to hold: on
/// reading a balance, the mint goes on to transfer exactly the price when the balance
/// covers it, and is refused otherwise.
pub proof fn law_transfer_is_covered_by_balance(
    m: BreedingMachine,
    payer: Seq<u8>,
    now: i64,
    keys: Seq<Pubkey>,
    payment: PaymentStep,
    price: u64,
    balance: u64,
)
    ensures
        ({
            let next = next_stage_of(
                m,
                payer,
                now,
                keys,
                MintStage::ReadBalance { payment, price },
                MintEvent::Balance { balance },
            );
            &&& balance >= price ==> next == (MintStage::Transfer { payment, amount: price })
            &&& balance < price ==> next is Refused
        }),
{
}

/// What every stage after `Start` keeps: a mint that goes on was admitted by the end
/// settings (past the end date only the authority, and never past the end amount).
pub open spec fn within_end_settings(m: BreedingMachine, payer: Seq<u8>, now: i64, stage: MintStage) -> bool {
    stage is Start || stage is Refused || end_settings_admit(m, payer == m.authority@, now)
}

/// Every step of a mint keeps `within_end_settings`: no gateway check, whitelist check or
/// payment happens for a mint that the end settings refuse.
pub proof fn law_mint_respects_end_settings(
    m: BreedingMachine,
    payer: Seq<u8>,
    now: i64,
    keys: Seq<Pubkey>,
    stage: MintStage,
    event: MintEvent,
)
    requires
        within_end_settings(m, payer, now, stage),
    ensures
        within_end_settings(m, payer, now, next_stage_of(m, payer, now, keys, stage, event)),
{
}

/// Whether the go-live date lets the payer mint at `now`: as anyone, or as a holder of a
/// whitelist token of the machine's whitelist.
pub open spec fn live_for(m: BreedingMachine, payer: Seq<u8>, now: i64) -> bool {
    let is_auth = payer == m.authority@;
    ||| go_live_admits(m.data.go_live_date, is_auth, now)
    ||| m.data.whitelist_mint_settings matches Some(ws) && whitelist_go_live_admits(
        m.data.go_live_date,
        is_auth,
        ws.presale,
        now,
    )
}

/// What every stage keeps: a price is only asked, and a burn only leads to a mint, when
/// the go-live date lets the payer mint.
pub open spec fn within_go_live(m: BreedingMachine, payer: Seq<u8>, now: i64, stage: MintStage) -> bool {
    match stage {
        MintStage::ReadBalance { .. } => live_for(m, payer, now),
        MintStage::Transfer { .. } => live_for(m, payer, now),
        MintStage::Paid { .. } => live_for(m, payer, now),
        MintStage::BurnWhitelistToken { result, .. } => result is Ok ==> live_for(m, payer, now),
        _ => true,
    }
}

/// Every step of a mint keeps `within_go_live`: before the go-live date nobody pays but
/// the authority and, in a presale, holders of a whitelist token.
pub proof fn law_mint_respects_go_live(
    m: BreedingMachine,
    payer: Seq<u8>,
    now: i64,
    keys: Seq<Pubkey>,
    stage: MintStage,
    event: MintEvent,
)
    requires
        within_go_live(m, payer, now, stage),
        stage is ReadWhitelistAccount ==> m.data.whitelist_mint_settings is Some,
    ensures
        within_go_live(m, payer, now, next_stage_of(m, payer, now, keys, stage, event)),
{
}

/// A mint that reaches `Paid` has items left, so recording it succeeds: the machine then
/// counts exactly one more item redeemed, no more than the supply, and nothing else of it
/// changes (see `record_paid_mint`).
pub proof fn law_successful_mint_counts_one_item(
    m: BreedingMachine,
    payer: Seq<u8>,
    now: i64,
    keys: Seq<Pubkey>,
    stage: MintStage,
    event: MintEvent,
)
    requires
        pays_fair_price(m, stage),
        stage is ReadWhitelistAccount ==> m.data.whitelist_mint_settings is Some,
        next_stage_of(m, payer, now, keys, stage, event) is Paid,
    ensures
        items_left(m),
        !record_overflows(m),
        recorded(m).items_redeemed == m.items_redeemed + 1,
        recorded(m).items_redeemed <= m.data.items_available,
        recorded(m).data == m.data,
        recorded(m).authority == m.authority,
        recorded(m).wallet == m.wallet,
        recorded(m).token_mint == m.token_mint,
{
    law_mint_pays_fair_price(m, payer, now, keys, stage, event);
}

/// A token payment reads the remaining accounts that come right after the gateway and
/// whitelist accounts: the payer's token account at the first index not taken by them,
/// and the transfer authority at the one after.
///
/// Without a gatekeeper or whitelist that is index 0; after the gateway checks it is the
/// plan's next account (1 after a gateway token alone, 3 after the gateway token, the
/// gateway app and the network expire feature); after a whitelist burn it is the burn's
/// next account; and the price asked is the list price, or the whitelist's verdict.
pub proof fn law_token_payment_reads_the_accounts_after_the_checks(
    m: BreedingMachine,
    payer: Seq<u8>,
    now: i64,
    keys: Seq<Pubkey>,
    stage: MintStage,
    event: MintEvent,
)
    requires
        m.token_mint is Some,
        items_left(m),
        m.data.whitelist_mint_settings is None,
        go_live_admits(m.data.go_live_date, payer == m.authority@, now),
        stage is ReadWhitelistAccount ==> m.data.whitelist_mint_settings is Some,
    ensures
        stage is Start && end_settings_admit(m, payer == m.authority@, now)
            && m.data.gatekeeper is None ==> next_stage_of(m, payer, now, keys, stage, event)
            == (MintStage::ReadBalance {
            payment: PaymentStep::Token {
                token_account: 0,
                transfer_authority: 1,
                mint: m.token_mint->0,
            },
            price: m.data.price,
        }),
        stage is VerifyGateway && gateway_token_age_admits(m, stage->plan.expire_time)
            && stage->plan.next_account < usize::MAX ==> next_stage_of(m, payer, now, keys, stage, event)
            == (MintStage::ReadBalance {
            payment: PaymentStep::Token {
                token_account: stage->plan.next_account,
                transfer_authority: (stage->plan.next_account + 1) as usize,
                mint: m.token_mint->0,
            },
            price: m.data.price,
        }),
        stage is BurnWhitelistToken && stage->result is Ok && stage->next_account
            < usize::MAX ==> next_stage_of(m, payer, now, keys, stage, event)
            == (MintStage::ReadBalance {
            payment: PaymentStep::Token {
                token_account: stage->next_account,
                transfer_authority: (stage->next_account + 1) as usize,
                mint: m.token_mint->0,
            },
            price: stage->result->Ok_0,
        }),
{
}

} // verus!
