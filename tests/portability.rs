use sentinel::finding::{AnalysisJob, ExternalContext, Finding};
use sentinel::portability::{
    analyze_portability_v3, is_enabled_precompile, portability_issues, BALANCE_DESCRIPTION,
    CHAIN_DEPENDENCY_CATEGORY, CHAIN_DEPENDENCY_RECOMMENDATION, CHAIN_ID_CATEGORY,
    GAS_LIMIT_CATEGORY, GAS_LIMIT_RECOMMENDATION, HARDCODED_GAS_CATEGORY, MISMATCH_CATEGORY,
    MSG_VALUE_DESCRIPTION, NATIVE_TOKEN_CATEGORY, PORTABILITY_WORKER_NAME,
};
use sentinel::registry::Registry;

fn job(source: &str, context: Option<ExternalContext>) -> AnalysisJob {
    AnalysisJob { job_id: "p-1".to_string(), source_code: source.to_string(), context }
}

fn run(source: &str, context: Option<ExternalContext>) -> Vec<Finding> {
    analyze_portability_v3(&job(source, context), &Registry::standard()).output
}

fn categories(findings: &[Finding]) -> Vec<(usize, String)> {
    let mut v: Vec<(usize, String)> =
        findings.iter().map(|f| (f.line, f.category.clone())).collect();
    v.sort();
    v
}

#[test]
fn chain_identity_value_and_gas_assumptions() {
    let source = "uint id = block.chainid;\nrequire(msg.value > 0);\nuint b = address(this).balance;\nto.call{gas: 2300}(\"\");";
    let result = analyze_portability_v3(&job(source, None), &Registry::standard());
    assert_eq!(result.job_id, "p-1");
    assert_eq!(result.worker_name, PORTABILITY_WORKER_NAME);
    assert_eq!(
        categories(&result.output),
        vec![
            (1, CHAIN_ID_CATEGORY.to_string()),
            (2, NATIVE_TOKEN_CATEGORY.to_string()),
            (3, NATIVE_TOKEN_CATEGORY.to_string()),
            (4, HARDCODED_GAS_CATEGORY.to_string()),
        ]
    );
    assert!(result.output.iter().any(|f| f.line == 2 && f.description == MSG_VALUE_DESCRIPTION));
    assert!(result.output.iter().any(|f| f.line == 3 && f.description == BALANCE_DESCRIPTION));
}

#[test]
fn value_and_balance_on_one_line_are_two_findings() {
    let findings = run("if (msg.value > a.balance) {}", None);
    assert_eq!(findings.len(), 2);
}

#[test]
fn chain_specific_address_in_lower_case_is_found() {
    let findings = run("router = IRouter(0x60ae616a2155ee3d9a68541ba4544862310933d4);", None);
    assert_eq!(
        findings,
        vec![Finding::new(
            1,
            CHAIN_DEPENDENCY_CATEGORY,
            "A hardcoded address for a known C-Chain protocol (Trader Joe V2 Router) was found.",
            CHAIN_DEPENDENCY_RECOMMENDATION,
        )]
    );
}

#[test]
fn chain_specific_address_in_upper_case_is_found() {
    let findings = run("x = 0X2B2C81E08F1AF8835A78BB2A90AE924ACE0EA4BE;", None);
    assert_eq!(categories(&findings), vec![(1, CHAIN_DEPENDENCY_CATEGORY.to_string())]);
}

#[test]
fn precompile_not_enabled_is_a_mismatch() {
    let context = ExternalContext {
        gas_limit: None,
        enabled_precompiles: Some(vec!["0x0200000000000000000000000000000000000000".to_string()]),
    };
    let findings = run("INativeMinter(0x0200000000000000000000000000000000000001).mint(a, 1);", Some(context));
    assert_eq!(findings.len(), 1);
    assert_eq!(findings[0].line, 1);
    assert_eq!(findings[0].category, MISMATCH_CATEGORY);
    assert_eq!(
        findings[0].description,
        "Contract interacts with the 'Contract Native Minter' precompile, but it is NOT enabled in the provided Subnet genesis."
    );
}

#[test]
fn enabled_precompile_matches_regardless_of_ascii_case() {
    let context = ExternalContext {
        gas_limit: None,
        enabled_precompiles: Some(vec!["0X0200000000000000000000000000000000000001".to_string()]),
    };
    assert!(run("m(0x0200000000000000000000000000000000000001);", Some(context)).is_empty());
}

#[test]
fn without_context_no_mismatch_is_reported() {
    assert!(run("m(0x0200000000000000000000000000000000000001);", None).is_empty());
    let no_list = ExternalContext { gas_limit: None, enabled_precompiles: None };
    assert!(run("m(0x0200000000000000000000000000000000000001);", Some(no_list)).is_empty());
}

#[test]
fn low_gas_limit_is_a_whole_file_violation() {
    let context = ExternalContext { gas_limit: Some(500000), enabled_precompiles: None };
    let findings = run("contract A {}", Some(context));
    assert_eq!(
        findings,
        vec![Finding::new(
            0,
            GAS_LIMIT_CATEGORY,
            "A function in this contract has an estimated cost of 1000000 gas, which exceeds the target Subnet's blockGasLimit of 500000.",
            GAS_LIMIT_RECOMMENDATION,
        )]
    );
}

#[test]
fn gas_limit_at_or_above_the_estimate_is_fine() {
    for limit in [1000000u64, 8000000, u64::MAX] {
        let context = ExternalContext { gas_limit: Some(limit), enabled_precompiles: None };
        assert!(run("contract A {}", Some(context)).is_empty());
    }
    let context = ExternalContext { gas_limit: Some(0), enabled_precompiles: None };
    assert_eq!(run("", Some(context))[0].description.contains("blockGasLimit of 0."), true);
}

#[test]
fn portability_issues_takes_its_inputs_directly() {
    let registry = Registry::standard();
    let enabled: Vec<String> = Vec::new();
    let findings = portability_issues(
        "p(0x0100000000000000000000000000000000000000);",
        &registry.chain_specific,
        &registry.optional_precompiles,
        None,
        Some(&enabled),
    );
    assert_eq!(categories(&findings), vec![(1, MISMATCH_CATEGORY.to_string())]);
}

#[test]
fn enabled_lookup_ignores_ascii_case_only() {
    let list = vec!["0xAB".to_string(), "0xcd".to_string()];
    assert!(is_enabled_precompile(&list, "0xab"));
    assert!(is_enabled_precompile(&list, "0XCD"));
    assert!(!is_enabled_precompile(&list, "0xef"));
    assert!(!is_enabled_precompile(&Vec::new(), "0xab"));
}

#[test]
fn portability_degenerate_inputs() {
    for source in ["", "\n\n", "chainid", "\u{fffd}\r"] {
        let findings = run(source, None);
        let lines = sentinel::text::split_lines(source).len();
        assert!(findings.iter().all(|f| f.line <= lines));
    }
    assert_eq!(run("chainid", None).len(), 1);
}
