use trade_engine::transaction_parser::{
    default_mint, dex_log, extract_token_info, has_buy_instruction, has_sell_instruction,
    process_transaction, raydium_launchpad_program, wsol_mint, DexType, InnerInstructionSet,
    TokenBalance, TransactionUpdate,
};

fn balance(mint: &str) -> TokenBalance {
    TokenBalance { mint: mint.to_string(), owner: "owner".to_string(), amount: 5 }
}

fn update_with(
    keys: Vec<&str>,
    logs: Vec<&str>,
    balances: Vec<TokenBalance>,
    payloads: Vec<Vec<u8>>,
) -> TransactionUpdate {
    TransactionUpdate {
        slot: 4242,
        timestamp: 1700000000,
        account_keys: keys.into_iter().map(|k| k.to_string()).collect(),
        log_messages: logs.into_iter().map(|l| l.to_string()).collect(),
        post_token_balances: balances,
        inner_instructions: vec![InnerInstructionSet { payloads }],
    }
}

fn relevant_update() -> TransactionUpdate {
    update_with(
        vec!["SomeOtherKey", raydium_launchpad_program()],
        vec!["Program log: Instruction: Sell"],
        vec![balance("TokenXmint111")],
        vec![vec![1, 2, 3]],
    )
}

#[test]
fn irrelevant_update_yields_nothing() {
    let mut update = relevant_update();
    update.account_keys = vec!["SomeOtherKey".to_string(), "AnotherKey".to_string()];
    assert!(process_transaction(&update).is_none());
}

#[test]
fn empty_key_list_yields_nothing() {
    let mut update = relevant_update();
    update.account_keys = vec![];
    assert!(process_transaction(&update).is_none());
}

#[test]
fn update_without_payload_yields_nothing() {
    let mut update = relevant_update();
    update.inner_instructions = vec![InnerInstructionSet { payloads: vec![] }];
    assert!(process_transaction(&update).is_none());
    update.inner_instructions = vec![];
    assert!(process_transaction(&update).is_none());
}

#[test]
fn relevant_update_yields_record() {
    let update = relevant_update();
    let trade = process_transaction(&update).unwrap();
    assert_eq!(trade.dex_type, DexType::RaydiumLaunchpad);
    assert_eq!(trade.slot, 4242);
    assert_eq!(trade.timestamp, 1700000000);
    assert_eq!(trade.mint, "TokenXmint111");
    assert_eq!(trade.signature, "");
    assert_eq!(trade.pool_id, "");
    assert!(!trade.is_buy);
    assert_eq!(trade.price, 1000000000);
    assert!(!trade.is_reverse);
    assert!(trade.coin_creator.is_none());
    assert_eq!(trade.sol_change, 100000000);
    assert_eq!(trade.token_change, -1000000);
    assert_eq!(trade.liquidity, 1000000000000);
    assert_eq!(trade.virtual_sol_reserves, 30000000000);
    assert_eq!(trade.virtual_token_reserves, 1000000000000000);
    assert!(trade.is_placeholder);
}

#[test]
fn sell_marker_alone_resolves_to_sell() {
    let update = relevant_update();
    assert!(has_sell_instruction(&update));
    assert!(!has_buy_instruction(&update));
    let trade = process_transaction(&update).unwrap();
    assert!(!trade.is_buy);
}

#[test]
fn buy_marker_alone_resolves_to_buy() {
    let mut update = relevant_update();
    update.log_messages = vec![
        "Program log: something else".to_string(),
        "Program log: Instruction: Buy".to_string(),
    ];
    assert!(has_buy_instruction(&update));
    assert!(!has_sell_instruction(&update));
    let trade = process_transaction(&update).unwrap();
    assert!(trade.is_buy);
    assert_eq!(trade.sol_change, -100000000);
    assert_eq!(trade.token_change, 1000000);
}

#[test]
fn swap_marker_satisfies_both_detectors_and_resolves_to_buy() {
    let mut update = relevant_update();
    update.log_messages = vec!["Program log: Instruction: Swap".to_string()];
    assert!(has_buy_instruction(&update));
    assert!(has_sell_instruction(&update));
    let trade = process_transaction(&update).unwrap();
    assert!(trade.is_buy);
}

#[test]
fn no_marker_resolves_to_sell() {
    let mut update = relevant_update();
    update.log_messages = vec![];
    assert!(!has_buy_instruction(&update));
    assert!(!has_sell_instruction(&update));
    let trade = process_transaction(&update).unwrap();
    assert!(!trade.is_buy);
}

#[test]
fn mint_resolution_skips_wrapped_native() {
    let mut update = relevant_update();
    update.post_token_balances = vec![balance(wsol_mint()), balance("TokenXmint111")];
    assert_eq!(extract_token_info(&update), "TokenXmint111");
}

#[test]
fn mint_resolution_takes_first_snapshot() {
    let mut update = relevant_update();
    update.post_token_balances = vec![balance("TokenXmint111"), balance(wsol_mint())];
    assert_eq!(extract_token_info(&update), "TokenXmint111");
}

#[test]
fn mint_resolution_keeps_lone_wrapped_native() {
    let mut update = relevant_update();
    update.post_token_balances = vec![balance(wsol_mint())];
    assert_eq!(extract_token_info(&update), wsol_mint());
}

#[test]
fn mint_resolution_falls_back_to_default() {
    let mut update = relevant_update();
    update.post_token_balances = vec![];
    assert_eq!(extract_token_info(&update), default_mint());
    update.post_token_balances = vec![balance("")];
    assert_eq!(extract_token_info(&update), default_mint());
}

#[test]
fn extraction_is_idempotent() {
    let update = relevant_update();
    let first = process_transaction(&update).unwrap();
    let second = process_transaction(&update).unwrap();
    assert_eq!(first.dex_type, second.dex_type);
    assert_eq!(first.slot, second.slot);
    assert_eq!(first.signature, second.signature);
    assert_eq!(first.pool_id, second.pool_id);
    assert_eq!(first.mint, second.mint);
    assert_eq!(first.timestamp, second.timestamp);
    assert_eq!(first.is_buy, second.is_buy);
    assert_eq!(first.price, second.price);
    assert_eq!(first.is_reverse, second.is_reverse);
    assert_eq!(first.coin_creator, second.coin_creator);
    assert_eq!(first.sol_change, second.sol_change);
    assert_eq!(first.token_change, second.token_change);
    assert_eq!(first.liquidity, second.liquidity);
    assert_eq!(first.virtual_sol_reserves, second.virtual_sol_reserves);
    assert_eq!(first.virtual_token_reserves, second.virtual_token_reserves);
    assert_eq!(first.is_placeholder, second.is_placeholder);
}

#[test]
fn log_sink_accepts_messages() {
    dex_log("RaydiumLaunchpad SELL".to_string());
}
