//! The on-chain state of a breeding machine and the rules that decide a mint.
//!
//! Minting interleaves these decisions with work that only the runtime can do
//! (reading accounts, cross-program calls). Each decision below takes what the
//! runtime reported so far and says what comes next.
use vstd::prelude::*;

use crate::pubkey::Pubkey;
use crate::sysvar::{read_le_u64, spec_le_u64};

verus! {

/// How long before its expiry a gateway token counts as created.
pub const EXPIRE_OFFSET: i64 = 600;

#[derive(Debug, Clone, Copy, PartialEq, Eq, Structural)]
pub enum EndSettingType {
    Date,
    Amount,
}

#[derive(Debug, Clone, Copy)]
pub struct EndSettings {
    pub end_setting_type: EndSettingType,
    pub number: u64,
}

#[derive(Debug, Clone, Copy, PartialEq, Eq, Structural)]
pub enum WhitelistMintMode {
    BurnEveryTime,
    NeverBurn,
}

#[derive(Debug)]
pub struct WhitelistMintSettings {
    pub mode: WhitelistMintMode,
    pub mint: Pubkey,
    pub presale: bool,
    pub discount_price: Option<u64>,
}

#[derive(Debug)]
pub struct GatekeeperConfig {
    pub gatekeeper_network: Pubkey,
    pub expire_on_use: bool,
}

/// A creator recorded on the breeding machine.
#[derive(Debug)]
pub struct Creator {
    pub address: Pubkey,
    pub verified: bool,
    pub share: u8,
}

#[derive(Debug)]
pub struct BreedingMachineData {
    pub price: u64,
    pub symbol: String,
    pub seller_fee_basis_points: u16,
    pub max_supply: u64,
    pub is_mutable: bool,
    pub retain_authority: bool,
    pub go_live_date: Option<i64>,
    pub end_settings: Option<EndSettings>,
    pub creators: Vec<Creator>,
    pub whitelist_mint_settings: Option<WhitelistMintSettings>,
    pub items_available: u64,
    pub gatekeeper: Option<GatekeeperConfig>,
}

#[derive(Debug)]
pub struct BreedingMachine {
    pub authority: Pubkey,
    pub wallet: Pubkey,
    pub token_mint: Option<Pubkey>,
    pub items_redeemed: u64,
    pub data: BreedingMachineData,
}

/// Why a mint is refused.
#[derive(Debug, Clone, Copy, PartialEq, Eq, Structural)]
pub enum MintError {
    BreedingMachineNotLive,
    BreedingMachineEmpty,
    GatewayTokenMissing,
    GatewayAppMissing,
    NetworkExpireFeatureMissing,
    GatewayTokenExpireTimeInvalid,
    NoWhitelistToken,
    NotEnoughTokens,
    NotEnoughSOL,
    NumericalOverflowError,
    SuspiciousTransaction,
    PublicKeyMismatch,
    IncorrectOwner,
    Uninitialized,
}

/// Whether the end settings still admit a mint at `now`.
pub open spec fn end_settings_admit(m: BreedingMachine, payer_is_authority: bool, now: i64) -> bool {
    match m.data.end_settings {
        None => true,
        Some(es) => match es.end_setting_type {
            EndSettingType::Date => !(now > es.number as i64) || payer_is_authority,
            EndSettingType::Amount => m.items_redeemed < es.number,
        },
    }
}

/// Whether the go-live date admits a mint at `now` (the authority may always mint).
pub open spec fn go_live_admits(go_live_date: Option<i64>, payer_is_authority: bool, now: i64) -> bool {
    match go_live_date {
        None => payer_is_authority,
        Some(val) => !(now < val) || payer_is_authority,
    }
}

/// Whether the go-live date admits a holder of a whitelist token at `now`.
pub open spec fn whitelist_go_live_admits(
    go_live_date: Option<i64>,
    payer_is_authority: bool,
    presale: bool,
    now: i64,
) -> bool {
    match go_live_date {
        None => payer_is_authority || presale,
        Some(val) => !(now < val) || payer_is_authority || presale,
    }
}

/// Checks the end settings of the machine: past the end date only the authority may
/// mint, and no more than the stated amount may be redeemed.
pub fn check_end_settings(m: &BreedingMachine, payer: &Pubkey, now: i64) -> (r: Result<(), MintError>)
    ensures
        r is Ok <==> end_settings_admit(*m, payer@ == m.authority@, now),
        r is Err ==> r == Err::<(), MintError>(MintError::BreedingMachineNotLive),
{
    match &m.data.end_settings {
        None => Ok(()),
        Some(es) => match es.end_setting_type {
            EndSettingType::Date => {
                if now > es.number as i64 {
                    if !payer.same_as(&m.authority) {
                        return Err(MintError::BreedingMachineNotLive);
                    }
                }
                Ok(())
            },
            EndSettingType::Amount => {
                if m.items_redeemed >= es.number {
                    return Err(MintError::BreedingMachineNotLive);
                }
                Ok(())
            },
        },
    }
}

/// Checks the go-live date for a payer without a whitelist token.
pub fn check_go_live(m: &BreedingMachine, payer: &Pubkey, now: i64) -> (r: Result<(), MintError>)
    ensures
        r is Ok <==> go_live_admits(m.data.go_live_date, payer@ == m.authority@, now),
        r is Err ==> r == Err::<(), MintError>(MintError::BreedingMachineNotLive),
{
    match m.data.go_live_date {
        None => {
            if !payer.same_as(&m.authority) {
                return Err(MintError::BreedingMachineNotLive);
            }
        },
        Some(val) => {
            if now < val && !payer.same_as(&m.authority) {
                return Err(MintError::BreedingMachineNotLive);
            }
        },
    }
    Ok(())
}

/// How the gateway token must be verified, once its expiry time is known.
#[derive(Debug, Clone, Copy, PartialEq, Eq, Structural)]
pub enum GatewayVerification {
    /// Verify the token and expire it, through the gateway program.
    VerifyAndExpire { token: usize, gateway_app: usize, network_expire_feature: usize },
    /// Verify the token account in place.
    VerifyAccount { token: usize },
}

#[derive(Debug, Clone, Copy)]
pub struct GatewayPlan {
    pub verification: GatewayVerification,
    /// The expiry time of the gateway token, read before it is verified.
    pub expire_time: i64,
    /// The index of the first remaining account after the gateway accounts.
    pub next_account: usize,
}

/// Where the gateway token lies among the remaining accounts, when the machine has a
/// gatekeeper: it is the first of them, and must be there.
pub fn gateway_token_account(m: &BreedingMachine, remaining_len: usize) -> (r: Result<
    Option<usize>,
    MintError,
>)
    ensures
        m.data.gatekeeper is None ==> r == Ok::<Option<usize>, MintError>(None),
        m.data.gatekeeper is Some && remaining_len == 0 ==> r == Err::<Option<usize>, MintError>(
            MintError::GatewayTokenMissing,
        ),
        m.data.gatekeeper is Some && remaining_len > 0 ==> r == Ok::<Option<usize>, MintError>(
            Some(0),
        ),
{
    match &m.data.gatekeeper {
        None => Ok(None),
        Some(_) => {
            if remaining_len <= 0 {
                Err(MintError::GatewayTokenMissing)
            } else {
                Ok(Some(0))
            }
        },
    }
}

/// Decides how the gateway token is verified, given the expiry time read from it:
/// a token without one is refused; a gatekeeper that expires tokens on use needs the
/// gateway app and the network expire feature as the next two remaining accounts.
pub fn plan_gateway_verification(
    gatekeeper: &GatekeeperConfig,
    expire_time: Option<i64>,
    remaining_len: usize,
) -> (r: Result<GatewayPlan, MintError>)
    ensures
        expire_time is None ==> r == Err::<GatewayPlan, MintError>(
            MintError::GatewayTokenExpireTimeInvalid,
        ),
        expire_time is Some && gatekeeper.expire_on_use && remaining_len <= 1 ==> r == Err::<
            GatewayPlan,
            MintError,
        >(MintError::GatewayAppMissing),
        expire_time is Some && gatekeeper.expire_on_use && remaining_len == 2 ==> r == Err::<
            GatewayPlan,
            MintError,
        >(MintError::NetworkExpireFeatureMissing),
        expire_time is Some && gatekeeper.expire_on_use && remaining_len > 2 ==> (r matches Ok(p)
            && p.expire_time == expire_time->0 && p.next_account == 3 && p.verification
            == (GatewayVerification::VerifyAndExpire {
            token: 0,
            gateway_app: 1,
            network_expire_feature: 2,
        })),
        expire_time is Some && !gatekeeper.expire_on_use ==> (r matches Ok(p) && p.expire_time
            == expire_time->0 && p.next_account == 1 && p.verification == (
        GatewayVerification::VerifyAccount { token: 0 })),
{
    let expire = match expire_time {
        Some(t) => t,
        None => return Err(MintError::GatewayTokenExpireTimeInvalid),
    };
    let mut counter: usize = 1;
    if gatekeeper.expire_on_use {
        if remaining_len <= counter {
            return Err(MintError::GatewayAppMissing);
        }
        let gateway_app = counter;
        counter = counter + 1;
        if remaining_len <= counter {
            return Err(MintError::NetworkExpireFeatureMissing);
        }
        let network_expire_feature = counter;
        counter = counter + 1;
        Ok(
            GatewayPlan {
                verification: GatewayVerification::VerifyAndExpire {
                    token: 0,
                    gateway_app,
                    network_expire_feature,
                },
                expire_time: expire,
                next_account: counter,
            },
        )
    } else {
        Ok(
            GatewayPlan {
                verification: GatewayVerification::VerifyAccount { token: 0 },
                expire_time: expire,
                next_account: counter,
            },
        )
    }
}

/// Whether a gateway token expiring at `expire_time` is young enough: a token created
/// (`EXPIRE_OFFSET` seconds before its expiry) before the go-live date is admitted only
/// in a presale.
pub open spec fn gateway_token_age_admits(m: BreedingMachine, expire_time: i64) -> bool {
    match m.data.go_live_date {
        None => true,
        Some(val) => !(expire_time - EXPIRE_OFFSET < val) || match m.data.whitelist_mint_settings {
            Some(ws) => ws.presale,
            None => false,
        },
    }
}

/// Checks that the gateway token was not created before the go-live date
/// (so that a captcha cannot be solved ahead of time), unless presale is on.
pub fn check_gateway_token_age(m: &BreedingMachine, expire_time: i64) -> (r: Result<(), MintError>)
    requires
        expire_time >= i64::MIN + EXPIRE_OFFSET,
    ensures
        r is Ok <==> gateway_token_age_admits(*m, expire_time),
        r is Err ==> r == Err::<(), MintError>(MintError::GatewayTokenExpireTimeInvalid),
{
    match m.data.go_live_date {
        Some(val) => {
            if expire_time - EXPIRE_OFFSET < val {
                match &m.data.whitelist_mint_settings {
                    Some(ws) => {
                        if !ws.presale {
                            return Err(MintError::GatewayTokenExpireTimeInvalid);
                        }
                    },
                    None => {
                        return Err(MintError::GatewayTokenExpireTimeInvalid);
                    },
                }
            }
            Ok(())
        },
        None => Ok(()),
    }
}

/// Where the whitelist stage goes: no whitelist, or a check of the whitelist token
/// account at this remaining account.
#[derive(Debug, Clone, Copy, PartialEq, Eq, Structural)]
pub enum WhitelistStep {
    NoWhitelist,
    CheckTokenAccount { account: usize },
}

/// The whitelist stage after the gateway checks: with whitelist settings, the next
/// remaining account is the payer's whitelist token account; without them, the plain
/// go-live check applies.
pub fn whitelist_step(m: &BreedingMachine, payer: &Pubkey, now: i64, next_account: usize) -> (r:
    Result<WhitelistStep, MintError>)
    requires
        m.data.whitelist_mint_settings is Some ==> next_account < usize::MAX,
    ensures
        m.data.whitelist_mint_settings is Some ==> r == Ok::<WhitelistStep, MintError>(
            WhitelistStep::CheckTokenAccount { account: next_account },
        ),
        m.data.whitelist_mint_settings is None && go_live_admits(
            m.data.go_live_date,
            payer@ == m.authority@,
            now,
        ) ==> r == Ok::<WhitelistStep, MintError>(WhitelistStep::NoWhitelist),
        m.data.whitelist_mint_settings is None && !go_live_admits(
            m.data.go_live_date,
            payer@ == m.authority@,
            now,
        ) ==> r == Err::<WhitelistStep, MintError>(MintError::BreedingMachineNotLive),
{
    match &m.data.whitelist_mint_settings {
        Some(_) => Ok(WhitelistStep::CheckTokenAccount { account: next_account }),
        None => {
            check_go_live(m, payer, now)?;
            Ok(WhitelistStep::NoWhitelist)
        },
    }
}

/// The accounts of a whitelist token burn.
#[derive(Debug, Clone, Copy, PartialEq, Eq, Structural)]
pub struct WhitelistBurn {
    pub mint: usize,
    pub source: usize,
    pub authority: usize,
}

/// What the whitelist stage comes to: a burn to perform first (if any), then the price
/// to charge or the error to refuse with.
#[derive(Debug, Clone, Copy)]
pub struct WhitelistOutcome {
    pub burn: Option<WhitelistBurn>,
    pub result: Result<u64, MintError>,
    pub next_account: usize,
}

/// Whether a holder of `amount` whitelist tokens must burn one (and so pass the extra
/// two accounts).
pub open spec fn must_burn(ws: WhitelistMintSettings, amount: Option<u64>) -> bool {
    amount matches Some(a) && a > 0 && ws.mode == WhitelistMintMode::BurnEveryTime
}

/// The price a whitelist holder pays: the discount price when there is one.
pub open spec fn holder_price(m: BreedingMachine, ws: WhitelistMintSettings) -> u64 {
    match ws.discount_price {
        Some(dp) => dp,
        None => m.data.price,
    }
}

/// What a holder's go-live check and price come to.
pub open spec fn holder_result(m: BreedingMachine, is_auth: bool, now: i64) -> Result<u64, MintError> {
    let ws = m.data.whitelist_mint_settings->0;
    if whitelist_go_live_admits(m.data.go_live_date, is_auth, ws.presale, now) {
        Ok(holder_price(m, ws))
    } else {
        Err(MintError::BreedingMachineNotLive)
    }
}

/// The whitelist stage, once the whitelist token account at `account` holds `amount`
/// tokens (`None` when it is not the payer's associated token account for the mint).
pub open spec fn spec_whitelist_outcome(
    m: BreedingMachine,
    payer: Seq<u8>,
    now: i64,
    account: usize,
    amount: Option<u64>,
    keys: Seq<Pubkey>,
) -> WhitelistOutcome {
    let ws = m.data.whitelist_mint_settings->0;
    let is_auth = payer == m.authority@;
    if must_burn(ws, amount) {
        if keys[account + 1]@ != ws.mint@ {
            WhitelistOutcome {
                burn: None,
                result: Err(MintError::PublicKeyMismatch),
                next_account: (account + 3) as usize,
            }
        } else {
            WhitelistOutcome {
                burn: Some(
                    WhitelistBurn {
                        mint: (account + 1) as usize,
                        source: account,
                        authority: (account + 2) as usize,
                    },
                ),
                result: holder_result(m, is_auth, now),
                next_account: (account + 3) as usize,
            }
        }
    } else if amount matches Some(a) && a > 0 {
        WhitelistOutcome {
            burn: None,
            result: holder_result(m, is_auth, now),
            next_account: (account + 1) as usize,
        }
    } else {
        WhitelistOutcome {
            burn: None,
            result: if ws.discount_price is None && !ws.presale {
                Err(MintError::NoWhitelistToken)
            } else if go_live_admits(m.data.go_live_date, is_auth, now) {
                Ok(m.data.price)
            } else {
                Err(MintError::BreedingMachineNotLive)
            },
            next_account: (account + 1) as usize,
        }
    }
}

/// A whitelist without presale and without a discount price is forced: a payer who holds
/// no whitelist token (or whose account is not the associated token account) is refused.
pub proof fn law_forced_whitelist_refuses_non_holders(
    m: BreedingMachine,
    payer: Seq<u8>,
    now: i64,
    account: usize,
    amount: Option<u64>,
    keys: Seq<Pubkey>,
)
    requires
        m.data.whitelist_mint_settings matches Some(ws) && ws.discount_price is None
            && !ws.presale,
        amount is None || amount == Some(0u64),
    ensures
        spec_whitelist_outcome(m, payer, now, account, amount, keys).result == Err::<
            u64,
            MintError,
        >(MintError::NoWhitelistToken),
        spec_whitelist_outcome(m, payer, now, account, amount, keys).burn is None,
{
}

/// A presale whitelist always has an open post-sale: once the go-live date has passed,
/// a payer without a whitelist token may mint at the full price.
pub proof fn law_presale_whitelist_opens_after_go_live(
    m: BreedingMachine,
    payer: Seq<u8>,
    now: i64,
    account: usize,
    amount: Option<u64>,
    keys: Seq<Pubkey>,
)
    requires
        m.data.whitelist_mint_settings matches Some(ws) && ws.presale,
        m.data.go_live_date matches Some(val) && now >= val,
        amount is None || amount == Some(0u64),
    ensures
        spec_whitelist_outcome(m, payer, now, account, amount, keys).result == Ok::<u64, MintError>(
            m.data.price,
        ),
{
}

/// Decides the whitelist stage once the payer's whitelist token account at `account` has
/// been checked: `amount` is the number of whitelist tokens it holds, or `None` when it is
/// not the payer's associated token account for the whitelist mint.
///
/// A holder (amount above zero) burns a token when the mode says so (after checking that
/// the next account is the whitelist mint), may mint before go-live in a presale, and pays
/// the discount price if there is one. Anyone else needs a presale or a discount price
/// (else the whitelist is forced and the mint refused), then the plain go-live check
/// applies, at the full price.
pub fn whitelist_outcome(
    m: &BreedingMachine,
    payer: &Pubkey,
    now: i64,
    account: usize,
    amount: Option<u64>,
    remaining_keys: &Vec<Pubkey>,
) -> (r: WhitelistOutcome)
    requires
        m.data.whitelist_mint_settings is Some,
        account < remaining_keys@.len(),
        must_burn(m.data.whitelist_mint_settings->0, amount) ==> account + 2
            < remaining_keys@.len(),
    ensures
        r == spec_whitelist_outcome(*m, payer@, now, account, amount, remaining_keys@),
{
    let ws = match &m.data.whitelist_mint_settings {
        Some(ws) => ws,
        None => {
            return WhitelistOutcome { burn: None, result: Ok(m.data.price), next_account: account };
        },
    };
    assert(remaining_keys@.len() == remaining_keys.len());
    let mut next_account = account + 1;
    let is_auth = payer.same_as(&m.authority);
    match amount {
        Some(a) if a > 0 => {
            let mut burn: Option<WhitelistBurn> = None;
            if ws.mode == WhitelistMintMode::BurnEveryTime {
                let mint_index = next_account;
                next_account = next_account + 1;
                let authority_index = next_account;
                next_account = next_account + 1;
                if !remaining_keys[mint_index].same_as(&ws.mint) {
                    return WhitelistOutcome {
                        burn: None,
                        result: Err(MintError::PublicKeyMismatch),
                        next_account,
                    };
                }
                burn = Some(
                    WhitelistBurn { mint: mint_index, source: account, authority: authority_index },
                );
            }
            let live = match m.data.go_live_date {
                None => is_auth || ws.presale,
                Some(val) => !(now < val && !is_auth && !ws.presale),
            };
            if !live {
                return WhitelistOutcome {
                    burn,
                    result: Err(MintError::BreedingMachineNotLive),
                    next_account,
                };
            }
            let price = match ws.discount_price {
                Some(dp) => dp,
                None => m.data.price,
            };
            WhitelistOutcome { burn, result: Ok(price), next_account }
        },
        _ => {
            if ws.discount_price.is_none() && !ws.presale {
                return WhitelistOutcome {
                    burn: None,
                    result: Err(MintError::NoWhitelistToken),
                    next_account,
                };
            }
            let result = match check_go_live(m, payer, now) {
                Ok(()) => Ok(m.data.price),
                Err(e) => Err(e),
            };
            WhitelistOutcome { burn: None, result, next_account }
        },
    }
}

/// Whether the machine has items left to mint.
pub open spec fn items_left(m: BreedingMachine) -> bool {
    m.items_redeemed < m.data.items_available
}

/// Whether recording a mint overflows: no items to pick from, or a full count.
pub open spec fn record_overflows(m: BreedingMachine) -> bool {
    m.data.items_available == 0 || m.items_redeemed == u64::MAX
}

/// How the price is paid.
#[derive(Debug)]
pub enum PaymentStep {
    /// In tokens of the machine's mint, from the payer's token account, signed by the
    /// transfer authority.
    Token { token_account: usize, transfer_authority: usize, mint: Pubkey },
    /// In lamports, from the payer to the machine's wallet.
    Lamports,
}

/// Refuses a machine with nothing left, then says how the price is paid: with a token
/// mint, the next two remaining accounts are the payer's token account and the transfer
/// authority.
pub fn plan_payment(m: &BreedingMachine, next_account: usize) -> (r: Result<PaymentStep, MintError>)
    requires
        next_account < usize::MAX,
    ensures
        r is Err <==> !items_left(*m),
        r is Err ==> r->Err_0 == MintError::BreedingMachineEmpty,
        r is Ok && m.token_mint is None ==> r->Ok_0 is Lamports,
        r is Ok && m.token_mint is Some ==> r->Ok_0 == (PaymentStep::Token {
            token_account: next_account,
            transfer_authority: (next_account + 1) as usize,
            mint: m.token_mint->0,
        }),
{
    if m.items_redeemed >= m.data.items_available {
        return Err(MintError::BreedingMachineEmpty);
    }
    match &m.token_mint {
        Some(mint) => Ok(
            PaymentStep::Token {
                token_account: next_account,
                transfer_authority: next_account + 1,
                mint: mint.clone(),
            },
        ),
        None => Ok(PaymentStep::Lamports),
    }
}

/// Checks that the payer holds enough to pay `price`: `balance` is the token amount of
/// the payer's token account (`in_tokens`) or the payer's lamports. Gives the amount to
/// transfer.
pub fn check_balance(in_tokens: bool, balance: u64, price: u64) -> (r: Result<u64, MintError>)
    ensures
        balance >= price ==> r == Ok::<u64, MintError>(price),
        balance < price && in_tokens ==> r == Err::<u64, MintError>(MintError::NotEnoughTokens),
        balance < price && !in_tokens ==> r == Err::<u64, MintError>(MintError::NotEnoughSOL),
{
    if balance < price {
        if in_tokens {
            Err(MintError::NotEnoughTokens)
        } else {
            Err(MintError::NotEnoughSOL)
        }
    } else {
        Ok(price)
    }
}

/// What a paid mint records: which config line is minted and the new redeemed count.
#[derive(Debug, Clone, Copy, PartialEq, Eq, Structural)]
pub struct MintRecord {
    pub config_index: u64,
    pub items_redeemed: u64,
}

/// Picks the config line from the most recent blockhash (the little-endian `u64` at bytes
/// 8 to 16 of the recent-blockhashes sysvar, modulo the items available) and counts the
/// item as redeemed.
pub fn record_mint(m: &BreedingMachine, recent_blockhashes: &[u8]) -> (r: Result<
    MintRecord,
    MintError,
>)
    requires
        recent_blockhashes@.len() >= 16,
    ensures
        r is Err <==> record_overflows(*m),
        r is Err ==> r->Err_0 == MintError::NumericalOverflowError,
        r matches Ok(rec) ==> rec.config_index == spec_le_u64(recent_blockhashes@, 8)
            % (m.data.items_available as int) && rec.items_redeemed == m.items_redeemed + 1,
{
    let index = read_le_u64(recent_blockhashes, 8);
    let config_index = match index.checked_rem(m.data.items_available) {
        Some(v) => v,
        None => return Err(MintError::NumericalOverflowError),
    };
    let items_redeemed = match m.items_redeemed.checked_add(1) {
        Some(v) => v,
        None => return Err(MintError::NumericalOverflowError),
    };
    Ok(MintRecord { config_index, items_redeemed })
}

/// The machine once a mint is recorded: one more item redeemed, nothing else changed.
pub open spec fn recorded(m: BreedingMachine) -> BreedingMachine {
    BreedingMachine { items_redeemed: (m.items_redeemed + 1) as u64, ..m }
}

/// Records a paid mint on the machine, which has items left: counts one more item
/// redeemed and gives the index of the config line to mint (see `record_mint`).
pub fn record_paid_mint(m: &mut BreedingMachine, recent_blockhashes: &[u8]) -> (config_index: u64)
    requires
        items_left(*old(m)),
        recent_blockhashes@.len() >= 16,
    ensures
        config_index == spec_le_u64(recent_blockhashes@, 8) % (old(m).data.items_available as int),
        *final(m) == recorded(*old(m)),
        final(m).items_redeemed == old(m).items_redeemed + 1,
        final(m).items_redeemed <= final(m).data.items_available,
{
    match record_mint(m, recent_blockhashes) {
        Ok(rec) => {
            m.items_redeemed = rec.items_redeemed;
            rec.config_index
        },
        Err(_) => {
            assert(false);
            0
        },
    }
}

/// A mint that gets past the check for items left never overflows when it is recorded,
/// and never counts more items redeemed than are available.
pub proof fn law_recorded_mint_stays_within_supply(m: BreedingMachine)
    requires
        items_left(m),
    ensures
        !record_overflows(m),
        m.items_redeemed + 1 <= m.data.items_available,
{
}

/// The authority of the machine is never held back by the go-live date (with or without a
/// whitelist token) nor by an end date.
pub proof fn law_authority_is_always_live(m: BreedingMachine, now: i64, presale: bool)
    ensures
        go_live_admits(m.data.go_live_date, true, now),
        whitelist_go_live_admits(m.data.go_live_date, true, presale, now),
        m.data.end_settings matches Some(es) && es.end_setting_type == EndSettingType::Date
            ==> end_settings_admit(m, true, now),
{
}

/// Anyone may mint once the go-live date has passed, and nobody but the authority (or a
/// presale whitelist holder) before it.
pub proof fn law_go_live_date_opens_the_mint(go_live: i64, now: i64, presale: bool)
    ensures
        now >= go_live ==> go_live_admits(Some(go_live), false, now)
            && whitelist_go_live_admits(Some(go_live), false, presale, now),
        now < go_live ==> !go_live_admits(Some(go_live), false, now)
            && (whitelist_go_live_admits(Some(go_live), false, presale, now) <==> presale),
{
}

/// The creators written into the metadata of a minted item: the machine's creator
/// account first (verified, no share), then the machine's creators in order (unverified,
/// with their shares).
pub fn metadata_creators(machine_creator: &Pubkey, m: &BreedingMachine) -> (r: Vec<Creator>)
    ensures
        r@.len() == m.data.creators@.len() + 1,
        r@[0].address@ == machine_creator@ && r@[0].verified && r@[0].share == 0,
        forall|i: int|
            0 <= i < m.data.creators@.len() ==> (#[trigger] r@[i + 1]).address@
                == m.data.creators@[i].address@ && !r@[i + 1].verified && r@[i + 1].share
                == m.data.creators@[i].share,
{
    let mut creators: Vec<Creator> = Vec::new();
    creators.push(Creator { address: machine_creator.clone(), verified: true, share: 0 });
    let n = m.data.creators.len();
    let mut i: usize = 0;
    while i < n
        invariant
            0 <= i <= n,
            n == m.data.creators@.len(),
            creators@.len() == i + 1,
            creators@[0].address@ == machine_creator@ && creators@[0].verified
                && creators@[0].share == 0,
            forall|j: int|
                0 <= j < i ==> (#[trigger] creators@[j + 1]).address@
                    == m.data.creators@[j].address@ && !creators@[j + 1].verified
                    && creators@[j + 1].share == m.data.creators@[j].share,
        decreases n - i,
    {
        let c = &m.data.creators[i];
        creators.push(Creator { address: c.address.clone(), verified: false, share: c.share });
        i = i + 1;
    }
    creators
}

/// The update authority of a minted item: the machine's authority when it retains
/// authority, else the update authority account of the mint.
pub fn new_update_authority(m: &BreedingMachine, update_authority: &Pubkey) -> (r: Pubkey)
    ensures
        r@ == if m.data.retain_authority {
            m.authority@
        } else {
            update_authority@
        },
{
    if !m.data.retain_authority {
        update_authority.clone()
    } else {
        m.authority.clone()
    }
}

} // verus!
