use sentinel::consensus::{
    consensus_line_verdict, multi_tx_verdict, reorg_verdict, MULTI_TX_CATEGORY,
    RANDOMNESS_CATEGORY, REORG_CATEGORY, SPOT_PRICE_CATEGORY,
};
use sentinel::portability::{
    gas_limit_verdict, line_assumption_verdict, BALANCE_DESCRIPTION, CHAIN_ID_CATEGORY,
    HARDCODED_GAS_CATEGORY, MSG_VALUE_DESCRIPTION,
};
use sentinel::staking::{
    locked_rewards_verdict, precompile_verdict, INTERACTION_CATEGORY, LOCKED_REWARDS_CATEGORY,
    MISSING_PAYABLE_CATEGORY, UNCHECKED_CALL_CATEGORY, WEAK_ACCESS_CATEGORY,
};

fn lines_and_categories(findings: &[sentinel::finding::Finding]) -> Vec<(usize, &str)> {
    findings.iter().map(|f| (f.line, f.category.as_str())).collect()
}

#[test]
fn reorg_rule_fires_only_without_block_number() {
    assert_eq!(lines_and_categories(&reorg_verdict(true, true, false, 5)), vec![(5, REORG_CATEGORY)]);
    assert!(reorg_verdict(true, true, true, 5).is_empty());
    assert!(reorg_verdict(true, false, false, 5).is_empty());
    assert!(reorg_verdict(false, true, false, 5).is_empty());
}

#[test]
fn multi_tx_rule_needs_setter_and_use_and_no_time_lock() {
    assert_eq!(lines_and_categories(&multi_tx_verdict(true, true, false, 0)), vec![(0, MULTI_TX_CATEGORY)]);
    assert!(multi_tx_verdict(true, true, true, 2).is_empty());
    assert!(multi_tx_verdict(true, false, false, 2).is_empty());
}

#[test]
fn line_rules_of_the_consensus_detectors() {
    assert_eq!(
        lines_and_categories(&consensus_line_verdict(9, true, false, true, true)),
        vec![(9, SPOT_PRICE_CATEGORY), (9, RANDOMNESS_CATEGORY)]
    );
    assert_eq!(
        lines_and_categories(&consensus_line_verdict(9, true, true, true, false)),
        Vec::<(usize, &str)>::new()
    );
}

#[test]
fn precompile_checks_in_order() {
    let all = precompile_verdict(3, "Fee Manager", 2, false, true, false, true, false);
    assert_eq!(
        lines_and_categories(&all),
        vec![
            (3, INTERACTION_CATEGORY),
            (2, MISSING_PAYABLE_CATEGORY),
            (3, UNCHECKED_CALL_CATEGORY),
            (2, WEAK_ACCESS_CATEGORY),
        ]
    );
    assert_eq!(all[0].description, "Direct interaction with the Fee Manager precompile detected.");
    let clean = precompile_verdict(3, "Fee Manager", 2, true, true, true, true, true);
    assert_eq!(lines_and_categories(&clean), vec![(3, INTERACTION_CATEGORY)]);
    let internal = precompile_verdict(3, "Fee Manager", 2, true, false, false, false, false);
    assert_eq!(lines_and_categories(&internal), vec![(3, INTERACTION_CATEGORY)]);
}

#[test]
fn locked_rewards_rule() {
    assert_eq!(lines_and_categories(&locked_rewards_verdict(true, false)), vec![(0, LOCKED_REWARDS_CATEGORY)]);
    assert!(locked_rewards_verdict(true, true).is_empty());
    assert!(locked_rewards_verdict(false, false).is_empty());
}

#[test]
fn line_assumption_rules() {
    let all = line_assumption_verdict(4, true, true, true, true);
    assert_eq!(all.len(), 4);
    assert_eq!(all[0].category, CHAIN_ID_CATEGORY);
    assert_eq!(all[1].description, MSG_VALUE_DESCRIPTION);
    assert_eq!(all[2].description, BALANCE_DESCRIPTION);
    assert_eq!(all[3].category, HARDCODED_GAS_CATEGORY);
    assert!(all.iter().all(|f| f.line == 4));
    assert!(line_assumption_verdict(4, false, false, false, false).is_empty());
}

#[test]
fn gas_rule_renders_both_numbers() {
    let v = gas_limit_verdict(Some(15));
    assert_eq!(v.len(), 1);
    assert_eq!(v[0].line, 0);
    assert_eq!(
        v[0].description,
        "A function in this contract has an estimated cost of 1000000 gas, which exceeds the target Subnet's blockGasLimit of 15."
    );
    assert!(gas_limit_verdict(Some(1000000)).is_empty());
    assert!(gas_limit_verdict(None).is_empty());
}
