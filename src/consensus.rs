//! Detectors for assumptions about finality and consensus: commit–reveal
//! schemes without a delay, privileged setters without a time-lock, spot
//! price reads, and randomness drawn from chain state.
use vstd::prelude::*;
use crate::context::{find_first_matching_line, first_matching_line, lemma_first_match_bound};
use crate::finding::{
    dedup, dedup_findings, finding_if, finding_of, finding_views, lemma_contains_concat,
    lemma_dedup_lines_within, lemma_dedup_no_duplicates, lemma_dedup_same_elements,
    lemma_lines_within_concat, lemma_lines_within_mono, lines_within, push_finding_if,
    AnalysisJob, AnalysisResult, Finding, FindingView,
};
use crate::pattern::{matches_pattern, pattern_matches};
use crate::text::{lines_of, split_lines, string_views};

verus! {

pub const CONSENSUS_WORKER_NAME: &'static str = "ConsensusComplianceWorkerV3";

pub const COMMIT_FUNCTION: &'static str = r"function\s+(commit|register|submit)\s*\(\s*bytes32";

pub const REVEAL_FUNCTION: &'static str = r"function\s+(reveal|claim|solve)\s*\(";

pub const BLOCK_NUMBER: &'static str = r"\bblock\.number\b";

/// A reserve or token accessor called without arguments, or a balance read
/// with any arguments.
pub const SPOT_PRICE_CALL: &'static str = r"(?i)\.(?:(?:getReserves|token0|token1)\s*\(\s*\)|balanceOf\s*\()";

pub const PRICE_FEED_CONTRACT: &'static str = r"contract\s+[a-zA-Z0-9_]+\s+(?:is|implements)\s+(?:AggregatorV3Interface|Chainlink|PriceOracle)";

pub const CRITICAL_SETTER: &'static str = r"function\s+(set|change)(Admin|Owner|Pauser|Operator)\s*\(";

pub const CRITICAL_VARIABLE: &'static str = r"\b(admin|owner|pauser|operator)\b";

/// A comparison against the block height or time: the primitive, then a
/// `>` or `>=` later on the same line, spaced or not.
pub const TIME_LOCK: &'static str = r"\b(block\.timestamp|block\.number)\b.*(>=|>)";

pub const CHAIN_STATE_VALUE: &'static str = r"\b(blockhash|block\.timestamp|block\.difficulty|block\.coinbase|block\.number)\b";

pub const KECCAK_CALL: &'static str = r"\bkeccak256\b";

pub const REORG_CATEGORY: &'static str = "Reorg Safety Hazard (Implicit Finality Assumption)";

pub const REORG_DESCRIPTION: &'static str = "A commit-reveal scheme was detected, but it does not appear to use `block.number` to enforce a delay between the commit and reveal phases.";

pub const REORG_RECOMMENDATION: &'static str = "While safe on Avalanche due to fast finality, this pattern is vulnerable to reorgs on other chains. To ensure universal compatibility, use `block.number` to enforce a delay.";

pub const MULTI_TX_CATEGORY: &'static str = "Multi-Transaction Dependency Hazard";

pub const MULTI_TX_DESCRIPTION: &'static str = "A critical state variable (e.g., owner, admin) can be set and immediately used without a time-lock. This is vulnerable to front-running and reorgs on slower-finality chains.";

pub const MULTI_TX_RECOMMENDATION: &'static str = "Implement a time-lock or a two-step process for critical state changes. E.g., `proposeNewAdmin(address)` in one tx, `acceptAdmin()` in a later tx after a time delay (`block.timestamp + DELAY`).";

pub const SPOT_PRICE_CATEGORY: &'static str = "Spot Price Oracle Hazard";

pub const SPOT_PRICE_DESCRIPTION: &'static str = "Direct read of spot price from a DEX (e.g., `getReserves()`) detected. This is vulnerable to flash loan manipulation on slower-finality chains.";

pub const SPOT_PRICE_RECOMMENDATION: &'static str = "Always use a Time-Weighted Average Price (TWAP) oracle or a decentralized oracle network (like Chainlink) for robust price feeds, especially when interacting with chains susceptible to reorgs.";

pub const RANDOMNESS_CATEGORY: &'static str = "Unsafe On-Chain Randomness";

pub const RANDOMNESS_DESCRIPTION: &'static str = "The contract appears to be generating a random number using a predictable or manipulatable on-chain value (e.g., block.timestamp, blockhash).";

pub const RANDOMNESS_RECOMMENDATION: &'static str = "Never use on-chain data for randomness in applications where value is at stake. This is a critical vulnerability. Use a secure off-chain solution like Chainlink VRF (Verifiable Random Function) to get provably fair random numbers.";

/// The commit–reveal rule, given what its patterns found in the whole file:
/// one finding at `reveal_line` when there is a commit and a reveal function
/// and no reference to the block height.
pub open spec fn reorg_rule(
    has_commit: bool,
    has_reveal: bool,
    has_block_number: bool,
    reveal_line: nat,
) -> Seq<FindingView> {
    finding_if(
        has_commit && has_reveal && !has_block_number,
        reveal_line,
        REORG_CATEGORY@,
        REORG_DESCRIPTION@,
        REORG_RECOMMENDATION@,
    )
}

/// The time-lock rule, given what its patterns found in the whole file: one
/// finding at `setter_line` when a privileged setter and a use of a role name
/// exist and nothing compares against the block height or time.
pub open spec fn multi_tx_rule(
    has_setter: bool,
    has_role_use: bool,
    has_time_lock: bool,
    setter_line: nat,
) -> Seq<FindingView> {
    finding_if(
        has_setter && has_role_use && !has_time_lock,
        setter_line,
        MULTI_TX_CATEGORY@,
        MULTI_TX_DESCRIPTION@,
        MULTI_TX_RECOMMENDATION@,
    )
}

/// The per-line rules, given what their patterns found: a spot-price read
/// (unless the file declares a price feed), then randomness drawn from
/// chain state (both parts on the line).
pub open spec fn consensus_line_rule(
    number: nat,
    spot_read: bool,
    price_feed: bool,
    keccak: bool,
    chain_state: bool,
) -> Seq<FindingView> {
    finding_if(
        spot_read && !price_feed,
        number,
        SPOT_PRICE_CATEGORY@,
        SPOT_PRICE_DESCRIPTION@,
        SPOT_PRICE_RECOMMENDATION@,
    ) + finding_if(
        keccak && chain_state,
        number,
        RANDOMNESS_CATEGORY@,
        RANDOMNESS_DESCRIPTION@,
        RANDOMNESS_RECOMMENDATION@,
    )
}

/// The commit–reveal rule applied to `code`.
pub open spec fn reorg_findings(code: Seq<char>, lines: Seq<Seq<char>>) -> Seq<FindingView> {
    reorg_rule(
        pattern_matches(COMMIT_FUNCTION@, code),
        pattern_matches(REVEAL_FUNCTION@, code),
        pattern_matches(BLOCK_NUMBER@, code),
        first_matching_line(REVEAL_FUNCTION@, lines),
    )
}

/// The time-lock rule applied to `code`.
pub open spec fn multi_tx_findings(code: Seq<char>, lines: Seq<Seq<char>>) -> Seq<FindingView> {
    multi_tx_rule(
        pattern_matches(CRITICAL_SETTER@, code),
        pattern_matches(CRITICAL_VARIABLE@, code),
        pattern_matches(TIME_LOCK@, code),
        first_matching_line(CRITICAL_SETTER@, lines),
    )
}

/// The per-line rules applied to one line of `code`, numbered `number`.
pub open spec fn consensus_line(code: Seq<char>, line: Seq<char>, number: nat) -> Seq<
    FindingView,
> {
    consensus_line_rule(
        number,
        pattern_matches(SPOT_PRICE_CALL@, line),
        pattern_matches(PRICE_FEED_CONTRACT@, code),
        pattern_matches(KECCAK_CALL@, line),
        pattern_matches(CHAIN_STATE_VALUE@, line),
    )
}

/// The per-line findings of the first `k` lines, in line order.
pub open spec fn consensus_lines(code: Seq<char>, lines: Seq<Seq<char>>, k: int) -> Seq<
    FindingView,
>
    decreases k,
{
    if k <= 0 || k > lines.len() {
        Seq::empty()
    } else {
        consensus_lines(code, lines, k - 1) + consensus_line(code, lines[k - 1], k as nat)
    }
}

/// Every finding of the consensus detectors, before deduplication.
pub open spec fn consensus_candidates(code: Seq<char>) -> Seq<FindingView> {
    let lines = lines_of(code);
    reorg_findings(code, lines) + multi_tx_findings(code, lines) + consensus_lines(
        code,
        lines,
        lines.len() as int,
    )
}

/// The consensus findings of `code`, without duplicates.
pub open spec fn consensus_findings(code: Seq<char>) -> Seq<FindingView> {
    dedup(consensus_candidates(code))
}

proof fn lemma_consensus_lines_bounded(code: Seq<char>, lines: Seq<Seq<char>>, k: int)
    requires
        0 <= k <= lines.len(),
    ensures
        lines_within(consensus_lines(code, lines, k), k as nat),
    decreases k,
{
    if k > 0 {
        let prev = consensus_lines(code, lines, k - 1);
        lemma_consensus_lines_bounded(code, lines, k - 1);
        lemma_lines_within_mono(prev, (k - 1) as nat, k as nat);
        let line = lines[k - 1];
        let spot = finding_if(
            pattern_matches(SPOT_PRICE_CALL@, line) && !pattern_matches(PRICE_FEED_CONTRACT@, code),
            k as nat,
            SPOT_PRICE_CATEGORY@,
            SPOT_PRICE_DESCRIPTION@,
            SPOT_PRICE_RECOMMENDATION@,
        );
        let random = finding_if(
            pattern_matches(KECCAK_CALL@, line) && pattern_matches(CHAIN_STATE_VALUE@, line),
            k as nat,
            RANDOMNESS_CATEGORY@,
            RANDOMNESS_DESCRIPTION@,
            RANDOMNESS_RECOMMENDATION@,
        );
        lemma_lines_within_concat(spot, random, k as nat);
        lemma_lines_within_concat(prev, spot + random, k as nat);
    }
}

/// Every consensus finding of `code` reports one of its lines, or line 0.
pub proof fn lemma_consensus_findings_bounded(code: Seq<char>)
    ensures
        lines_within(consensus_findings(code), lines_of(code).len()),
{
    let lines = lines_of(code);
    let n = lines.len();
    lemma_first_match_bound(REVEAL_FUNCTION@, lines, 0);
    lemma_first_match_bound(CRITICAL_SETTER@, lines, 0);
    lemma_consensus_lines_bounded(code, lines, n as int);
    let head = reorg_findings(code, lines);
    let multi = multi_tx_findings(code, lines);
    lemma_lines_within_concat(head, multi, n);
    lemma_lines_within_concat(head + multi, consensus_lines(code, lines, n as int), n);
    lemma_dedup_lines_within(consensus_candidates(code), n);
}

proof fn lemma_category_texts_differ()
    ensures
        REORG_CATEGORY@ != MULTI_TX_CATEGORY@,
        REORG_CATEGORY@ != SPOT_PRICE_CATEGORY@,
        REORG_CATEGORY@ != RANDOMNESS_CATEGORY@,
{
    reveal_strlit("Reorg Safety Hazard (Implicit Finality Assumption)");
    reveal_strlit("Multi-Transaction Dependency Hazard");
    reveal_strlit("Spot Price Oracle Hazard");
    reveal_strlit("Unsafe On-Chain Randomness");
    assert(REORG_CATEGORY@[0] != MULTI_TX_CATEGORY@[0]);
    assert(REORG_CATEGORY@[0] != SPOT_PRICE_CATEGORY@[0]);
    assert(REORG_CATEGORY@[0] != RANDOMNESS_CATEGORY@[0]);
}

proof fn lemma_consensus_lines_not_reorg(code: Seq<char>, lines: Seq<Seq<char>>, k: int, x: FindingView)
    requires
        consensus_lines(code, lines, k).contains(x),
    ensures
        x.category != REORG_CATEGORY@,
    decreases k,
{
    lemma_category_texts_differ();
    if 0 < k <= lines.len() {
        let prev = consensus_lines(code, lines, k - 1);
        let line = lines[k - 1];
        let spot = finding_if(
            pattern_matches(SPOT_PRICE_CALL@, line) && !pattern_matches(PRICE_FEED_CONTRACT@, code),
            k as nat,
            SPOT_PRICE_CATEGORY@,
            SPOT_PRICE_DESCRIPTION@,
            SPOT_PRICE_RECOMMENDATION@,
        );
        let random = finding_if(
            pattern_matches(KECCAK_CALL@, line) && pattern_matches(CHAIN_STATE_VALUE@, line),
            k as nat,
            RANDOMNESS_CATEGORY@,
            RANDOMNESS_DESCRIPTION@,
            RANDOMNESS_RECOMMENDATION@,
        );
        lemma_contains_concat(prev, spot + random, x);
        lemma_contains_concat(spot, random, x);
        if prev.contains(x) {
            lemma_consensus_lines_not_reorg(code, lines, k - 1, x);
        }
    }
}

/// Where a finding of the consensus detectors has the reorg category, it is
/// the one the commit–reveal rule gives for `code`.
proof fn lemma_reorg_category_source(code: Seq<char>, x: FindingView)
    requires
        consensus_findings(code).contains(x),
        x.category == REORG_CATEGORY@,
    ensures
        reorg_findings(code, lines_of(code)).contains(x),
{
    let lines = lines_of(code);
    let head = reorg_findings(code, lines);
    let multi = multi_tx_findings(code, lines);
    let rest = consensus_lines(code, lines, lines.len() as int);
    lemma_category_texts_differ();
    lemma_dedup_same_elements(consensus_candidates(code));
    lemma_contains_concat(head + multi, rest, x);
    lemma_contains_concat(head, multi, x);
    if rest.contains(x) {
        lemma_consensus_lines_not_reorg(code, lines, lines.len() as int, x);
    }
}

/// A commit function taking a hash and a reveal function, with no reference
/// to the block height anywhere, give exactly one reorg finding: on the
/// first line that matches the reveal pattern, or line 0 when none does.
pub proof fn lemma_reorg_hazard_reported(code: Seq<char>)
    requires
        pattern_matches(COMMIT_FUNCTION@, code),
        pattern_matches(REVEAL_FUNCTION@, code),
        !pattern_matches(BLOCK_NUMBER@, code),
    ensures
        ({
            let hazard = finding_of(
                first_matching_line(REVEAL_FUNCTION@, lines_of(code)),
                REORG_CATEGORY@,
                REORG_DESCRIPTION@,
                REORG_RECOMMENDATION@,
            );
            &&& consensus_findings(code).contains(hazard)
            &&& forall|k: int|
                0 <= k < consensus_findings(code).len() && (
                #[trigger] consensus_findings(code)[k]).category == REORG_CATEGORY@
                    ==> consensus_findings(code)[k] == hazard
            &&& consensus_findings(code).no_duplicates()
        }),
{
    let lines = lines_of(code);
    let hazard = finding_of(
        first_matching_line(REVEAL_FUNCTION@, lines),
        REORG_CATEGORY@,
        REORG_DESCRIPTION@,
        REORG_RECOMMENDATION@,
    );
    let head = reorg_findings(code, lines);
    assert(head[0] == hazard);
    lemma_contains_concat(head, multi_tx_findings(code, lines), hazard);
    lemma_contains_concat(
        head + multi_tx_findings(code, lines),
        consensus_lines(code, lines, lines.len() as int),
        hazard,
    );
    lemma_dedup_same_elements(consensus_candidates(code));
    lemma_dedup_no_duplicates(consensus_candidates(code));
    assert forall|k: int|
        0 <= k < consensus_findings(code).len() && (
        #[trigger] consensus_findings(code)[k]).category == REORG_CATEGORY@
            implies consensus_findings(code)[k] == hazard by {
        let x = consensus_findings(code)[k];
        assert(consensus_findings(code).contains(x));
        lemma_reorg_category_source(code, x);
    }
}

/// With a reference to the block height anywhere, or without a commit or a
/// reveal function, no finding has the reorg category.
pub proof fn lemma_no_reorg_hazard(code: Seq<char>)
    requires
        pattern_matches(BLOCK_NUMBER@, code) || !pattern_matches(COMMIT_FUNCTION@, code)
            || !pattern_matches(REVEAL_FUNCTION@, code),
    ensures
        forall|k: int|
            0 <= k < consensus_findings(code).len() ==> (#[trigger] consensus_findings(
                code,
            )[k]).category != REORG_CATEGORY@,
{
    assert forall|k: int| 0 <= k < consensus_findings(code).len() implies (
    #[trigger] consensus_findings(code)[k]).category != REORG_CATEGORY@ by {
        let x = consensus_findings(code)[k];
        assert(consensus_findings(code).contains(x));
        if x.category == REORG_CATEGORY@ {
            lemma_reorg_category_source(code, x);
            assert(reorg_findings(code, lines_of(code)).len() == 0);
        }
    }
}

/// Decides the commit–reveal rule from what its patterns found.
pub fn reorg_verdict(
    has_commit: bool,
    has_reveal: bool,
    has_block_number: bool,
    reveal_line: usize,
) -> (r: Vec<Finding>)
    ensures
        finding_views(r@) == reorg_rule(has_commit, has_reveal, has_block_number, reveal_line as nat),
{
    let mut out: Vec<Finding> = Vec::new();
    push_finding_if(
        &mut out,
        has_commit && has_reveal && !has_block_number,
        reveal_line,
        REORG_CATEGORY,
        REORG_DESCRIPTION,
        REORG_RECOMMENDATION,
    );
    assert(finding_views(out@) =~= reorg_rule(
        has_commit,
        has_reveal,
        has_block_number,
        reveal_line as nat,
    ));
    out
}

/// Decides the time-lock rule from what its patterns found.
pub fn multi_tx_verdict(
    has_setter: bool,
    has_role_use: bool,
    has_time_lock: bool,
    setter_line: usize,
) -> (r: Vec<Finding>)
    ensures
        finding_views(r@) == multi_tx_rule(has_setter, has_role_use, has_time_lock, setter_line as nat),
{
    let mut out: Vec<Finding> = Vec::new();
    push_finding_if(
        &mut out,
        has_setter && has_role_use && !has_time_lock,
        setter_line,
        MULTI_TX_CATEGORY,
        MULTI_TX_DESCRIPTION,
        MULTI_TX_RECOMMENDATION,
    );
    assert(finding_views(out@) =~= multi_tx_rule(
        has_setter,
        has_role_use,
        has_time_lock,
        setter_line as nat,
    ));
    out
}

/// Decides the per-line rules for line `number` from what their patterns
/// found.
pub fn consensus_line_verdict(
    number: usize,
    spot_read: bool,
    price_feed: bool,
    keccak: bool,
    chain_state: bool,
) -> (r: Vec<Finding>)
    ensures
        finding_views(r@) == consensus_line_rule(
            number as nat,
            spot_read,
            price_feed,
            keccak,
            chain_state,
        ),
{
    let mut out: Vec<Finding> = Vec::new();
    push_finding_if(
        &mut out,
        spot_read && !price_feed,
        number,
        SPOT_PRICE_CATEGORY,
        SPOT_PRICE_DESCRIPTION,
        SPOT_PRICE_RECOMMENDATION,
    );
    let ghost first = finding_views(out@);
    push_finding_if(
        &mut out,
        keccak && chain_state,
        number,
        RANDOMNESS_CATEGORY,
        RANDOMNESS_DESCRIPTION,
        RANDOMNESS_RECOMMENDATION,
    );
    proof {
        assert(first =~= Seq::<FindingView>::empty() + finding_if(
            spot_read && !price_feed,
            number as nat,
            SPOT_PRICE_CATEGORY@,
            SPOT_PRICE_DESCRIPTION@,
            SPOT_PRICE_RECOMMENDATION@,
        ));
        assert(finding_views(out@) =~= consensus_line_rule(
            number as nat,
            spot_read,
            price_feed,
            keccak,
            chain_state,
        ));
    }
    out
}

/// Runs the consensus detectors on `code`.
pub fn consensus_issues(code: &str) -> (r: Vec<Finding>)
    ensures
        finding_views(r@) == consensus_findings(code@),
        lines_within(finding_views(r@), lines_of(code@).len()),
{
    let lines = split_lines(code);
    let ghost ls = lines_of(code@);
    let ghost n = ls.len();

    let has_commit = matches_pattern(COMMIT_FUNCTION, code);
    let has_reveal = matches_pattern(REVEAL_FUNCTION, code);
    let has_block_number = matches_pattern(BLOCK_NUMBER, code);
    let reveal_line = if has_commit && has_reveal && !has_block_number {
        find_first_matching_line(REVEAL_FUNCTION, &lines)
    } else {
        0
    };
    let mut issues = reorg_verdict(has_commit, has_reveal, has_block_number, reveal_line);

    let has_setter = matches_pattern(CRITICAL_SETTER, code);
    let has_role_use = matches_pattern(CRITICAL_VARIABLE, code);
    let has_time_lock = matches_pattern(TIME_LOCK, code);
    let setter_line = if has_setter && has_role_use && !has_time_lock {
        find_first_matching_line(CRITICAL_SETTER, &lines)
    } else {
        0
    };
    let mut multi_tx = multi_tx_verdict(has_setter, has_role_use, has_time_lock, setter_line);
    let ghost reorg = issues@;
    let ghost multi = multi_tx@;
    issues.append(&mut multi_tx);
    let ghost head = reorg_findings(code@, ls) + multi_tx_findings(code@, ls);
    assert(finding_views(issues@) =~= finding_views(reorg) + finding_views(multi));
    assert(finding_views(issues@) =~= head);

    let price_feed = matches_pattern(PRICE_FEED_CONTRACT, code);
    let count = lines.len();
    let mut i: usize = 0;
    while i < count
        invariant
            count == lines@.len(),
            string_views(lines@) == ls,
            n == ls.len(),
            i <= n,
            price_feed == pattern_matches(PRICE_FEED_CONTRACT@, code@),
            finding_views(issues@) == head + consensus_lines(code@, ls, i as int),
        decreases n - i,
    {
        let line = lines[i].as_str();
        assert(ls[i as int] == line@);
        let spot_read = matches_pattern(SPOT_PRICE_CALL, line);
        let keccak = matches_pattern(KECCAK_CALL, line);
        let chain_state = keccak && matches_pattern(CHAIN_STATE_VALUE, line);
        let mut found = consensus_line_verdict(i + 1, spot_read, price_feed, keccak, chain_state);
        let ghost prev = issues@;
        let ghost added = found@;
        issues.append(&mut found);
        proof {
            assert(finding_views(added) == consensus_line(code@, ls[i as int], (i + 1) as nat));
            assert(finding_views(issues@) =~= finding_views(prev) + finding_views(added));
        }
        i = i + 1;
    }
    let out = dedup_findings(&issues);
    proof {
        lemma_consensus_findings_bounded(code@);
    }
    out
}

/// Answers a job with the consensus findings of its source text.
pub fn analyze_consensus_safety_v3(job: &AnalysisJob) -> (r: AnalysisResult)
    ensures
        r.job_id@ == job.job_id@,
        r.worker_name@ == CONSENSUS_WORKER_NAME@,
        finding_views(r.output@) == consensus_findings(job.source_code@),
        lines_within(finding_views(r.output@), lines_of(job.source_code@).len()),
{
    let output = consensus_issues(job.source_code.as_str());
    AnalysisResult {
        job_id: job.job_id.clone(),
        worker_name: CONSENSUS_WORKER_NAME.to_owned(),
        output,
    }
}

} // verus!
