use sentinel::context::{body_has_access_control, resolve_function_context};
use sentinel::finding::{AnalysisJob, Finding};
use sentinel::registry::{KnownAddress, Registry};
use sentinel::staking::{
    analyze_staking_precompiles_v3, staking_issues, INTERACTION_CATEGORY,
    INTERACTION_RECOMMENDATION, LOCKED_REWARDS_CATEGORY, MISSING_PAYABLE_CATEGORY,
    STAKING_WORKER_NAME, UNCHECKED_CALL_CATEGORY, VALIDATOR_CATEGORY, WEAK_ACCESS_CATEGORY,
};
use sentinel::text::split_lines;

const P_CHAIN: &str = "0x0100000000000000000000000000000000000000";

fn standard_issues(source: &str) -> Vec<Finding> {
    staking_issues(source, &Registry::standard().staking_precompiles)
}

fn categories(findings: &[Finding]) -> Vec<(usize, String)> {
    let mut v: Vec<(usize, String)> =
        findings.iter().map(|f| (f.line, f.category.clone())).collect();
    v.sort();
    v
}

fn pairs(items: &[(usize, &str)]) -> Vec<(usize, String)> {
    let mut v: Vec<(usize, String)> = items.iter().map(|(l, c)| (*l, c.to_string())).collect();
    v.sort();
    v
}

#[test]
fn precompile_in_unguarded_public_function_gives_three_findings() {
    let source = format!(
        "contract Staker {{\n    function delegate(address v) public {{\n        IPChain({}).addValidator(v);\n    }}\n    function claimRewards() external onlyOwner {{}}\n}}",
        P_CHAIN
    );
    let job = AnalysisJob { job_id: "s-1".to_string(), source_code: source, context: None };
    let result = analyze_staking_precompiles_v3(&job, &Registry::standard());
    assert_eq!(result.job_id, "s-1");
    assert_eq!(result.worker_name, STAKING_WORKER_NAME);
    assert_eq!(
        categories(&result.output),
        pairs(&[
            (3, INTERACTION_CATEGORY),
            (2, MISSING_PAYABLE_CATEGORY),
            (2, WEAK_ACCESS_CATEGORY),
        ])
    );
    let interaction = result.output.iter().find(|f| f.category == INTERACTION_CATEGORY).unwrap();
    assert_eq!(
        interaction,
        &Finding::new(
            3,
            INTERACTION_CATEGORY,
            "Direct interaction with the P-Chain Handler precompile detected.",
            INTERACTION_RECOMMENDATION,
        )
    );
}

#[test]
fn address_matches_in_any_case_as_a_whole_word() {
    let upper = "x = 0X0100000000000000000000000000000000000000;";
    assert!(categories(&standard_issues(upper)).contains(&(1, INTERACTION_CATEGORY.to_string())));
    let longer = "x = 0x01000000000000000000000000000000000000001;";
    assert!(standard_issues(longer).is_empty());
}

#[test]
fn unchecked_low_level_call_and_locked_rewards() {
    let source = format!(
        "function stake() external payable onlyOwner {{\n    {}.call(data);\n}}",
        P_CHAIN
    );
    assert_eq!(
        categories(&standard_issues(&source)),
        pairs(&[(2, INTERACTION_CATEGORY), (2, UNCHECKED_CALL_CATEGORY), (0, LOCKED_REWARDS_CATEGORY)])
    );
}

#[test]
fn checked_or_assigned_call_is_not_reported() {
    let assigned = format!(
        "function stake() external payable onlyOwner {{\n    (bool ok,) = {}.call(data);\n}}\nfunction withdrawRewards() external {{}}",
        P_CHAIN
    );
    assert_eq!(
        categories(&standard_issues(&assigned)),
        pairs(&[(2, INTERACTION_CATEGORY)])
    );
}

#[test]
fn access_control_in_the_body_is_found_by_the_forward_scan() {
    let source = format!(
        "function stake() public payable {{\n    IPChain({}).add(1);\n    _checkRole(ADMIN);\n}}\nfunction distributeRewards() public {{}}",
        P_CHAIN
    );
    assert_eq!(categories(&standard_issues(&source)), pairs(&[(2, INTERACTION_CATEGORY)]));
}

#[test]
fn forward_scan_stops_at_a_closing_brace() {
    let lines = split_lines("a();\nif (x) { y(); }\nonlyOwner;");
    assert!(!body_has_access_control(&lines, 0));
    assert!(body_has_access_control(&lines, 2));
    let guarded_on_closing_line = split_lines("a();\nonlyRole(R); }");
    assert!(body_has_access_control(&guarded_on_closing_line, 0));
}

#[test]
fn no_enclosing_function_reports_line_zero() {
    let source = format!("address constant P = {};\nfunction releaseRewards() public {{}}", P_CHAIN);
    assert_eq!(
        categories(&standard_issues(&source)),
        pairs(&[(1, INTERACTION_CATEGORY), (0, MISSING_PAYABLE_CATEGORY)])
    );
}

#[test]
fn resolver_returns_the_matched_declaration() {
    let lines = split_lines("contract C {\n  function f(uint a) external view returns (uint) { // note\n    return a;\n  }\n}");
    let context = resolve_function_context(&lines, 2);
    assert_eq!(context.start_line, 2);
    assert_eq!(context.signature, "function f(uint a) external view returns (uint) {");
    let top = resolve_function_context(&lines, 0);
    assert_eq!(top.start_line, 0);
    assert_eq!(top.signature, "");
}

#[test]
fn hardcoded_validator_is_reported() {
    let source = "bytes32 v = \"NodeID-7Xhw2mDxuDS44j42TCB6U5579esbSt3Lg\";";
    assert_eq!(categories(&standard_issues(source)), pairs(&[(1, VALIDATOR_CATEGORY)]));
}

#[test]
fn repeated_matches_in_one_function_are_deduplicated() {
    let source = format!(
        "function f() public {{\n    IPChain({0}).a();\n    IPChain({0}).b();\n}}\nfunction claimRewards() external {{}}",
        P_CHAIN
    );
    assert_eq!(
        categories(&standard_issues(&source)),
        pairs(&[
            (2, INTERACTION_CATEGORY),
            (3, INTERACTION_CATEGORY),
            (1, MISSING_PAYABLE_CATEGORY),
            (1, WEAK_ACCESS_CATEGORY),
        ])
    );
}

#[test]
fn the_same_rule_registered_twice_reports_once() {
    let book = vec![
        KnownAddress::new(P_CHAIN, "P-Chain Handler"),
        KnownAddress::new(P_CHAIN, "P-Chain Handler"),
    ];
    let source = format!(
        "function f() external payable onlyOwner {{\n  IPChain({}).a();\n}}\nfunction claimRewards() external {{}}",
        P_CHAIN
    );
    assert_eq!(categories(&staking_issues(&source, &book)), pairs(&[(2, INTERACTION_CATEGORY)]));
}

#[test]
fn synthetic_registry_is_used() {
    let book = vec![KnownAddress::new("0xabc", "Test Precompile")];
    let source = "function f() external payable onlyOwner {\n  T(0xABC).a();\n}\nfunction claimRewards() external {}";
    let findings = staking_issues(source, &book);
    assert_eq!(findings.len(), 1);
    assert_eq!(findings[0].description, "Direct interaction with the Test Precompile precompile detected.");
}

#[test]
fn staking_degenerate_inputs() {
    for source in ["", "\n", P_CHAIN, "}\u{fffd}\r\n{"] {
        let findings = standard_issues(source);
        let lines = split_lines(source).len();
        assert!(findings.iter().all(|f| f.line <= lines));
    }
}
