use sentinel::consensus::{
    analyze_consensus_safety_v3, consensus_issues, CONSENSUS_WORKER_NAME, MULTI_TX_CATEGORY,
    RANDOMNESS_CATEGORY, REORG_CATEGORY, SPOT_PRICE_CATEGORY, REORG_DESCRIPTION,
    REORG_RECOMMENDATION,
};
use sentinel::finding::{AnalysisJob, Finding};

fn job(source: &str) -> AnalysisJob {
    AnalysisJob { job_id: "job-7".to_string(), source_code: source.to_string(), context: None }
}

fn categories(findings: &[Finding]) -> Vec<(usize, String)> {
    let mut v: Vec<(usize, String)> =
        findings.iter().map(|f| (f.line, f.category.clone())).collect();
    v.sort();
    v
}

const COMMIT_REVEAL: &str = "contract Game {
    function commit(bytes32 h) public {
        commits[msg.sender] = h;
    }
    function reveal(uint256 secret) public {
        require(keccak256(abi.encodePacked(secret)) == commits[msg.sender]);
    }
}";

#[test]
fn commit_reveal_without_block_number_is_one_reorg_hazard() {
    let result = analyze_consensus_safety_v3(&job(COMMIT_REVEAL));
    assert_eq!(result.job_id, "job-7");
    assert_eq!(result.worker_name, CONSENSUS_WORKER_NAME);
    assert_eq!(
        result.output,
        vec![Finding::new(5, REORG_CATEGORY, REORG_DESCRIPTION, REORG_RECOMMENDATION)]
    );
}

#[test]
fn commit_reveal_with_block_number_is_safe() {
    let source = COMMIT_REVEAL.replace(
        "        commits[msg.sender] = h;",
        "        commits[msg.sender] = h;\n        require(block.number > commitBlock[msg.sender] + 10);",
    );
    let findings = consensus_issues(&source);
    assert!(findings.iter().all(|f| f.category != REORG_CATEGORY));
    assert!(findings.is_empty());
}

#[test]
fn reveal_declared_across_lines_reports_line_zero() {
    // The reveal pattern matches the whole text but no single line.
    let source = "function commit(bytes32 h) public {}\nfunction reveal\n(uint256 s) public {}";
    let findings = consensus_issues(source);
    assert_eq!(categories(&findings), vec![(0, REORG_CATEGORY.to_string())]);
}

#[test]
fn spot_price_read_is_reported_on_its_line() {
    let mut source = String::new();
    for i in 1..10 {
        source.push_str(&format!("// line {}\n", i));
    }
    source.push_str("(uint112 r0, uint112 r1,) = pair.getReserves();\n");
    source.push_str("uint x = 1;");
    let findings = consensus_issues(&source);
    assert_eq!(categories(&findings), vec![(10, SPOT_PRICE_CATEGORY.to_string())]);
}

#[test]
fn spot_price_match_ignores_case() {
    let findings = consensus_issues("uint b = token.BALANCEOF( );");
    assert_eq!(categories(&findings), vec![(1, SPOT_PRICE_CATEGORY.to_string())]);
}

#[test]
fn price_feed_contract_suppresses_spot_price_everywhere() {
    let source = "uint a = pair.getReserves();\ncontract Feed is AggregatorV3Interface {\nuint b = t.token0();\n}";
    assert!(consensus_issues(source).is_empty());
}

#[test]
fn randomness_needs_both_parts_on_one_line() {
    let same_line = "uint r = uint(keccak256(abi.encodePacked(block.timestamp, msg.sender)));";
    assert_eq!(
        categories(&consensus_issues(same_line)),
        vec![(1, RANDOMNESS_CATEGORY.to_string())]
    );
    let split = "bytes32 h = keccak256(data);\nuint t = block.timestamp;";
    assert!(consensus_issues(split).is_empty());
}

#[test]
fn privileged_setter_without_time_lock() {
    let source = "contract Vault {\n    address owner;\n    function setOwner(address o) public { owner = o; }\n}";
    assert_eq!(
        categories(&consensus_issues(source)),
        vec![(3, MULTI_TX_CATEGORY.to_string())]
    );
}

#[test]
fn privileged_setter_with_time_lock_is_quiet() {
    let source = "function setOwner(address o) public { owner = o; }\nrequire(block.timestamp>=unlockAt);";
    assert!(consensus_issues(source).is_empty());
}

#[test]
fn repeated_spot_reads_on_distinct_lines_are_all_kept() {
    let source = "a.getReserves();\nb.getReserves();";
    assert_eq!(
        categories(&consensus_issues(source)),
        vec![(1, SPOT_PRICE_CATEGORY.to_string()), (2, SPOT_PRICE_CATEGORY.to_string())]
    );
}

#[test]
fn degenerate_inputs_yield_results() {
    for source in [
        "",
        "\n",
        "one line without newline",
        "pair.getReserves()",
        "\r\n\r\n",
        "\u{fffd}\u{0}é🚀 keccak256 blockhash\r",
    ] {
        let result = analyze_consensus_safety_v3(&job(source));
        let lines = sentinel::text::split_lines(source).len();
        assert!(result.output.iter().all(|f| f.line <= lines));
    }
    assert!(consensus_issues("").is_empty());
    assert_eq!(consensus_issues("\u{fffd} keccak256(blockhash(1))").len(), 1);
}

#[test]
fn evaluation_is_deterministic() {
    let source = format!("{}\nuint r = uint(keccak256(abi.encodePacked(block.timestamp)));\nx.token1();", COMMIT_REVEAL);
    let first = consensus_issues(&source);
    let second = consensus_issues(&source);
    assert_eq!(first, second);
    assert_eq!(first.len(), 3);
}

#[test]
fn privileged_setter_with_spaced_time_lock_is_quiet() {
    let source = "function setOwner(address o) public { owner = o; }\nrequire(block.timestamp >= unlockAt);";
    assert!(consensus_issues(source).is_empty());
    let height = "function changeAdmin(address a) external { admin = a; }\nif (block.number > start + 100) { x(); }";
    assert!(consensus_issues(height).is_empty());
}

#[test]
fn balance_read_with_arguments_is_a_spot_price_read() {
    let findings = consensus_issues("uint b = token.balanceOf(address(this));");
    assert_eq!(categories(&findings), vec![(1, SPOT_PRICE_CATEGORY.to_string())]);
    assert!(consensus_issues("uint r = pair.getReserves(1);").is_empty());
}
