//! Trade event extraction: turns a streamed transaction update into a
//! normalized trade record.
//!
//! The streamed update is modeled as plain values ([`TransactionUpdate`]): the
//! account-key list, execution log lines, post-trade token-balance snapshots
//! and inner-instruction payloads that extraction reads, together with the
//! slot and the wall-clock time at which the update was received.  The
//! embedding I/O layer converts its wire-format records into this type, so
//! extraction itself is a pure, verified function of its input.

use vstd::prelude::*;
use vstd::string::StringExecFns;
use crate::textscan::{contains_seq, str_contains, str_eq};

verus! {

/// Venue that produced a trade event.
#[derive(Clone, Debug, PartialEq, Eq, Structural)]
pub enum DexType {
    RaydiumLaunchpad,
    Unknown,
}

/// Program identifier of the target venue, in base58 form.
pub open spec fn spec_raydium_launchpad_program() -> Seq<char> {
    "LanMV9sAd7wArD4vJFi2qDdfnVhFxYSUg6eADduJ3uj"@
}

/// Program identifier of the target venue, in base58 form.
pub fn raydium_launchpad_program() -> (r: &'static str)
    ensures
        r@ == spec_raydium_launchpad_program(),
{
    "LanMV9sAd7wArD4vJFi2qDdfnVhFxYSUg6eADduJ3uj"
}

/// Mint of the wrapped native currency.
pub open spec fn spec_wsol_mint() -> Seq<char> {
    "So11111111111111111111111111111111111111112"@
}

/// Mint of the wrapped native currency.
pub fn wsol_mint() -> (r: &'static str)
    ensures
        r@ == spec_wsol_mint(),
{
    "So11111111111111111111111111111111111111112"
}

/// Default mint used when no balance snapshot yields one.
pub open spec fn spec_default_mint() -> Seq<char> {
    "2ivzYvjnKqA4X3dVvPKr7bctGpbxwrXbbxm44TJCpump"@
}

/// Default mint used when no balance snapshot yields one.
pub fn default_mint() -> (r: &'static str)
    ensures
        r@ == spec_default_mint(),
{
    "2ivzYvjnKqA4X3dVvPKr7bctGpbxwrXbbxm44TJCpump"
}

/// Post-trade token-balance snapshot entry: mint, owner and raw amount.
#[derive(Clone, Debug)]
pub struct TokenBalance {
    pub mint: String,
    pub owner: String,
    pub amount: u64,
}

#[verifier::ext_equal]
pub ghost struct TokenBalanceView {
    pub mint: Seq<char>,
    pub owner: Seq<char>,
    pub amount: u64,
}

impl View for TokenBalance {
    type V = TokenBalanceView;

    open spec fn view(&self) -> TokenBalanceView {
        TokenBalanceView { mint: self.mint@, owner: self.owner@, amount: self.amount }
    }
}

/// Inner instructions emitted under one top-level instruction; each payload
/// is the raw byte body of one inner instruction.
#[derive(Clone, Debug)]
pub struct InnerInstructionSet {
    pub payloads: Vec<Vec<u8>>,
}

impl View for InnerInstructionSet {
    type V = Seq<Seq<u8>>;

    open spec fn view(&self) -> Seq<Seq<u8>> {
        self.payloads.deep_view()
    }
}

/// One streamed transaction update, reduced to the plain values that
/// extraction reads.
#[derive(Clone, Debug)]
pub struct TransactionUpdate {
    /// Ledger position of the transaction.
    pub slot: u64,
    /// Wall-clock time (seconds) at which the update was received.
    pub timestamp: u64,
    /// Base58 account keys referenced by the transaction.
    pub account_keys: Vec<String>,
    /// Execution log lines.
    pub log_messages: Vec<String>,
    /// Post-trade token-balance snapshots, in ledger order.
    pub post_token_balances: Vec<TokenBalance>,
    /// Inner-instruction records, grouped by top-level instruction.
    pub inner_instructions: Vec<InnerInstructionSet>,
}

#[verifier::ext_equal]
pub ghost struct TransactionUpdateView {
    pub slot: u64,
    pub timestamp: u64,
    pub account_keys: Seq<Seq<char>>,
    pub log_messages: Seq<Seq<char>>,
    pub post_token_balances: Seq<TokenBalanceView>,
    pub inner_instructions: Seq<Seq<Seq<u8>>>,
}

impl View for TransactionUpdate {
    type V = TransactionUpdateView;

    open spec fn view(&self) -> TransactionUpdateView {
        TransactionUpdateView {
            slot: self.slot,
            timestamp: self.timestamp,
            account_keys: self.account_keys.deep_view(),
            log_messages: self.log_messages.deep_view(),
            post_token_balances: Seq::new(
                self.post_token_balances@.len(),
                |i: int| self.post_token_balances@[i]@,
            ),
            inner_instructions: Seq::new(
                self.inner_instructions@.len(),
                |i: int| self.inner_instructions@[i]@,
            ),
        }
    }
}

/// Normalized record of a detected trade event.
///
/// Economic deltas are integers in the smallest unit of each side: lamports
/// for the base currency (`sol_change`, `liquidity`, reserves) and raw token
/// units for the token (`token_change`).  `is_placeholder` is true when
/// venue-specific payload decoding was not available and the economic fields
/// hold conservative placeholder values, so downstream consumers can detect
/// reduced confidence.
#[derive(Clone, Debug)]
pub struct TradeInfoFromToken {
    pub dex_type: DexType,
    pub slot: u64,
    pub signature: String,
    pub pool_id: String,
    pub mint: String,
    pub timestamp: u64,
    pub is_buy: bool,
    pub price: u64,
    pub is_reverse: bool,
    pub coin_creator: Option<String>,
    pub sol_change: i64,
    pub token_change: i64,
    pub liquidity: u64,
    pub virtual_sol_reserves: u64,
    pub virtual_token_reserves: u64,
    pub is_placeholder: bool,
}

#[verifier::ext_equal]
pub ghost struct TradeInfoView {
    pub dex_type: DexType,
    pub slot: u64,
    pub signature: Seq<char>,
    pub pool_id: Seq<char>,
    pub mint: Seq<char>,
    pub timestamp: u64,
    pub is_buy: bool,
    pub price: u64,
    pub is_reverse: bool,
    pub coin_creator: Option<Seq<char>>,
    pub sol_change: i64,
    pub token_change: i64,
    pub liquidity: u64,
    pub virtual_sol_reserves: u64,
    pub virtual_token_reserves: u64,
    pub is_placeholder: bool,
}

impl View for TradeInfoFromToken {
    type V = TradeInfoView;

    open spec fn view(&self) -> TradeInfoView {
        TradeInfoView {
            dex_type: self.dex_type,
            slot: self.slot,
            signature: self.signature@,
            pool_id: self.pool_id@,
            mint: self.mint@,
            timestamp: self.timestamp,
            is_buy: self.is_buy,
            price: self.price,
            is_reverse: self.is_reverse,
            coin_creator: match self.coin_creator {
                Some(c) => Some(c@),
                None => None,
            },
            sol_change: self.sol_change,
            token_change: self.token_change,
            liquidity: self.liquidity,
            virtual_sol_reserves: self.virtual_sol_reserves,
            virtual_token_reserves: self.virtual_token_reserves,
            is_placeholder: self.is_placeholder,
        }
    }
}

/// Log marker of a buy instruction.
pub open spec fn spec_buy_marker() -> Seq<char> {
    "Program log: Instruction: Buy"@
}

/// Log marker of a sell instruction.
pub open spec fn spec_sell_marker() -> Seq<char> {
    "Program log: Instruction: Sell"@
}

/// Log marker of a generic swap instruction, which satisfies both detectors.
pub open spec fn spec_swap_marker() -> Seq<char> {
    "Program log: Instruction: Swap"@
}

/// The line carries the buy or the swap marker.
pub open spec fn line_marks_buy(line: Seq<char>) -> bool {
    contains_seq(line, spec_buy_marker()) || contains_seq(line, spec_swap_marker())
}

/// The line carries the sell or the swap marker.
pub open spec fn line_marks_sell(line: Seq<char>) -> bool {
    contains_seq(line, spec_sell_marker()) || contains_seq(line, spec_swap_marker())
}

/// Some log line marks a buy.
pub open spec fn spec_has_buy(logs: Seq<Seq<char>>) -> bool {
    exists|i: int| 0 <= i < logs.len() && #[trigger] line_marks_buy(logs[i])
}

/// Some log line marks a sell.
pub open spec fn spec_has_sell(logs: Seq<Seq<char>>) -> bool {
    exists|i: int| 0 <= i < logs.len() && #[trigger] line_marks_sell(logs[i])
}

/// Checks whether any execution log line carries the buy (or swap) marker.
pub fn has_buy_instruction(update: &TransactionUpdate) -> (r: bool)
    ensures
        r == spec_has_buy(update@.log_messages),
{
    let n = update.log_messages.len();
    let mut i: usize = 0;
    while i < n
        invariant
            n == update.log_messages.len(),
            0 <= i <= n,
            forall|k: int| 0 <= k < i ==> !line_marks_buy(update@.log_messages[k]),
        decreases n - i,
    {
        let line = &update.log_messages[i];
        if str_contains(line.as_str(), "Program log: Instruction: Buy")
            || str_contains(line.as_str(), "Program log: Instruction: Swap") {
            proof {
                assert(line_marks_buy(update@.log_messages[i as int]));
            }
            return true;
        }
        i = i + 1;
    }
    false
}

/// Checks whether any execution log line carries the sell (or swap) marker.
///
/// This detector does not drive the extracted direction flag: `is_buy` is
/// decided by [`has_buy_instruction`] alone, so a lone sell marker resolves
/// to a sell (`is_buy` false) while a swap marker resolves to a buy.
pub fn has_sell_instruction(update: &TransactionUpdate) -> (r: bool)
    ensures
        r == spec_has_sell(update@.log_messages),
{
    let n = update.log_messages.len();
    let mut i: usize = 0;
    while i < n
        invariant
            n == update.log_messages.len(),
            0 <= i <= n,
            forall|k: int| 0 <= k < i ==> !line_marks_sell(update@.log_messages[k]),
        decreases n - i,
    {
        let line = &update.log_messages[i];
        if str_contains(line.as_str(), "Program log: Instruction: Sell")
            || str_contains(line.as_str(), "Program log: Instruction: Swap") {
            proof {
                assert(line_marks_sell(update@.log_messages[i as int]));
            }
            return true;
        }
        i = i + 1;
    }
    false
}

/// Resolved mint of a trade: the first post-balance mint, skipping the
/// wrapped-native leg when another snapshot follows it, and the configured
/// default when no snapshot yields a mint.
pub open spec fn spec_resolve_mint(balances: Seq<TokenBalanceView>) -> Seq<char> {
    let selected = if balances.len() == 0 {
        Seq::<char>::empty()
    } else if balances[0].mint == spec_wsol_mint() && balances.len() > 1 {
        balances[1].mint
    } else {
        balances[0].mint
    };
    if selected.len() == 0 {
        spec_default_mint()
    } else {
        selected
    }
}

/// Extracts the traded token's mint from the post-trade balance snapshots.
pub fn extract_token_info(update: &TransactionUpdate) -> (r: String)
    ensures
        r@ == spec_resolve_mint(update@.post_token_balances),
{
    let mut mint: String = String::new();
    if update.post_token_balances.len() > 0 {
        mint = update.post_token_balances[0].mint.clone();
        if str_eq(mint.as_str(), wsol_mint()) && update.post_token_balances.len() > 1 {
            mint = update.post_token_balances[1].mint.clone();
        }
    }
    if mint.as_str().is_empty() {
        mint = String::from_str(default_mint());
    }
    mint
}

/// The target venue's program id occurs among the referenced account keys.
pub open spec fn spec_relevant(u: TransactionUpdateView) -> bool {
    exists|i: int| 0 <= i < u.account_keys.len()
        && #[trigger] u.account_keys[i] == spec_raydium_launchpad_program()
}

/// Some inner-instruction group carries at least one payload.
pub open spec fn spec_has_payload(inner: Seq<Seq<Seq<u8>>>) -> bool {
    exists|i: int| 0 <= i < inner.len() && #[trigger] inner[i].len() > 0
}

/// The trade record extracted from `u`.  Venue-specific payload decoding is
/// not available on this path, so the economic fields are fixed placeholder
/// values and the record is marked `is_placeholder`.
pub open spec fn spec_trade_info(u: TransactionUpdateView) -> TradeInfoView {
    TradeInfoView {
        dex_type: DexType::RaydiumLaunchpad,
        slot: u.slot,
        signature: Seq::<char>::empty(),
        pool_id: Seq::<char>::empty(),
        mint: spec_resolve_mint(u.post_token_balances),
        timestamp: u.timestamp,
        is_buy: spec_has_buy(u.log_messages),
        price: 1000000000u64,
        is_reverse: false,
        coin_creator: None,
        sol_change: if spec_has_buy(u.log_messages) { -100000000i64 } else { 100000000i64 },
        token_change: if spec_has_buy(u.log_messages) { 1000000i64 } else { -1000000i64 },
        liquidity: 1000000000000u64,
        virtual_sol_reserves: 30000000000u64,
        virtual_token_reserves: 1000000000000000u64,
        is_placeholder: true,
    }
}

/// Full extraction decision: a record comes out exactly when the target
/// venue's program id occurs among the account keys and some inner
/// instruction carries a payload.
pub open spec fn spec_process_transaction(u: TransactionUpdateView) -> Option<TradeInfoView> {
    if spec_relevant(u) && spec_has_payload(u.inner_instructions) {
        Some(spec_trade_info(u))
    } else {
        None
    }
}

/// Quiet log sink for parser diagnostics; extraction itself stays pure.
pub fn dex_log(_msg: String) {
}

/// Parses one raw inner-instruction payload, in the context of `update`,
/// into a trade record.  Venue-specific decoding of the payload is not
/// available here, so the economic fields are conservative placeholders and
/// the record says so; `buffer` is accepted for the venue decoders'
/// interface but not consulted.
pub fn parse_transaction_data(update: &TransactionUpdate, _buffer: &[u8]) -> (r: Option<
    TradeInfoFromToken,
>)
    ensures
        r matches Some(t) && t@ == spec_trade_info(update@),
{
    let mint = extract_token_info(update);
    let is_buy = has_buy_instruction(update);
    let trade = TradeInfoFromToken {
        dex_type: DexType::RaydiumLaunchpad,
        slot: update.slot,
        signature: String::new(),
        pool_id: String::new(),
        mint,
        timestamp: update.timestamp,
        is_buy,
        price: 1000000000,
        is_reverse: false,
        coin_creator: None,
        sol_change: if is_buy { -100000000 } else { 100000000 },
        token_change: if is_buy { 1000000 } else { -1000000 },
        liquidity: 1000000000000,
        virtual_sol_reserves: 30000000000,
        virtual_token_reserves: 1000000000000000,
        is_placeholder: true,
    };
    proof {
        assert(trade@ =~= spec_trade_info(update@));
    }
    Some(trade)
}

/// Checks whether the target venue's program id is among the account keys.
fn contains_program_key(update: &TransactionUpdate) -> (r: bool)
    ensures
        r == spec_relevant(update@),
{
    let n = update.account_keys.len();
    let mut i: usize = 0;
    while i < n
        invariant
            n == update.account_keys.len(),
            0 <= i <= n,
            forall|k: int| 0 <= k < i
                ==> update@.account_keys[k] != spec_raydium_launchpad_program(),
        decreases n - i,
    {
        let key = &update.account_keys[i];
        if str_eq(key.as_str(), raydium_launchpad_program()) {
            proof {
                assert(update@.account_keys[i as int] == spec_raydium_launchpad_program());
            }
            return true;
        }
        i = i + 1;
    }
    false
}

/// Extracts a normalized trade record from a streamed update: `None` when
/// the update does not involve the target venue or carries no
/// inner-instruction payload, the extracted record otherwise.
pub fn process_transaction(update: &TransactionUpdate) -> (r: Option<TradeInfoFromToken>)
    ensures
        match r {
            Some(t) => spec_process_transaction(update@) == Some(t@),
            None => spec_process_transaction(update@) is None,
        },
{
    if !contains_program_key(update) {
        return None;
    }
    let n = update.inner_instructions.len();
    let mut i: usize = 0;
    while i < n
        invariant
            n == update.inner_instructions.len(),
            0 <= i <= n,
            spec_relevant(update@),
            forall|k: int| 0 <= k < i ==> #[trigger] update@.inner_instructions[k].len() == 0,
        decreases n - i,
    {
        let group = &update.inner_instructions[i];
        if group.payloads.len() > 0 {
            let payload = &group.payloads[0];
            proof {
                assert(update@.inner_instructions[i as int].len() > 0);
            }
            return parse_transaction_data(update, payload.as_slice());
        }
        i = i + 1;
    }
    proof {
        assert(!spec_has_payload(update@.inner_instructions));
    }
    None
}

/// Law: an update that does not reference the target venue's program id
/// yields no trade record.
pub proof fn lemma_irrelevant_update_ignored(u: TransactionUpdateView)
    requires
        !spec_relevant(u),
    ensures
        spec_process_transaction(u) is None,
{
}

/// Law: when some log line carries the buy marker and no line carries the
/// sell or swap marker, the extracted direction is buy.
pub proof fn lemma_buy_direction(u: TransactionUpdateView, t: TradeInfoView)
    requires
        spec_process_transaction(u) == Some(t),
        exists|i: int| 0 <= i < u.log_messages.len()
            && #[trigger] contains_seq(u.log_messages[i], spec_buy_marker()),
        forall|i: int| 0 <= i < u.log_messages.len()
            ==> !(#[trigger] contains_seq(u.log_messages[i], spec_sell_marker())),
        forall|i: int| 0 <= i < u.log_messages.len()
            ==> !(#[trigger] contains_seq(u.log_messages[i], spec_swap_marker())),
    ensures
        t.is_buy,
{
    let i = choose|i: int| 0 <= i < u.log_messages.len()
        && #[trigger] contains_seq(u.log_messages[i], spec_buy_marker());
    assert(line_marks_buy(u.log_messages[i]));
}

/// Law: when some log line carries the sell marker and no line carries the
/// buy or swap marker, the extracted direction is sell.
pub proof fn lemma_sell_direction(u: TransactionUpdateView, t: TradeInfoView)
    requires
        spec_process_transaction(u) == Some(t),
        exists|i: int| 0 <= i < u.log_messages.len()
            && #[trigger] contains_seq(u.log_messages[i], spec_sell_marker()),
        forall|i: int| 0 <= i < u.log_messages.len()
            ==> !(#[trigger] contains_seq(u.log_messages[i], spec_buy_marker())),
        forall|i: int| 0 <= i < u.log_messages.len()
            ==> !(#[trigger] contains_seq(u.log_messages[i], spec_swap_marker())),
    ensures
        !t.is_buy,
{
    if spec_has_buy(u.log_messages) {
        let i = choose|i: int| 0 <= i < u.log_messages.len()
            && #[trigger] line_marks_buy(u.log_messages[i]);
        assert(!contains_seq(u.log_messages[i], spec_buy_marker()));
        assert(!contains_seq(u.log_messages[i], spec_swap_marker()));
        assert(false);
    }
}

/// Law: extraction is a pure function of the update — two extractions from
/// the same update yield the same result.
pub proof fn lemma_extraction_deterministic(
    u: TransactionUpdateView,
    r1: Option<TradeInfoView>,
    r2: Option<TradeInfoView>,
)
    requires
        r1 == spec_process_transaction(u),
        r2 == spec_process_transaction(u),
    ensures
        r1 == r2,
{
}

} // verus!
