//! Detectors for interaction with privileged staking precompiles, the checks
//! derived from the enclosing function, and hardcoded validators.
use vstd::prelude::*;
use crate::context::{
    body_has_access_control, enclosing_function, guarded_from, lemma_enclosing_bound,
    resolve_function_context, ACCESS_CONTROL,
};
use crate::finding::{
    dedup, dedup_findings, finding_if, finding_of, finding_views, lemma_dedup_lines_within,
    lemma_contains_concat, lemma_dedup_same_elements, lemma_lines_within_concat,
    lemma_lines_within_mono, lines_within, push_finding_if, AnalysisJob, AnalysisResult,
    Finding, FindingView,
};
use crate::pattern::{matches_pattern, pattern_matches};
use crate::registry::{address_views, KnownAddress, Registry};
use crate::text::{contains, lines_of, split_lines, str_contains, string_views};

verus! {

pub const STAKING_WORKER_NAME: &'static str = "StakingPrecompileWorkerV3";

/// Wrapped around an address, matches it as a whole word in any case.
pub const ADDRESS_PATTERN_PREFIX: &'static str = r"(?i)\b";

pub const ADDRESS_PATTERN_SUFFIX: &'static str = r"\b";

pub const PAYABLE_MODIFIER: &'static str = r"\bpayable\b";

pub const LOW_LEVEL_CALL: &'static str = r"\.call\b";

pub const REWARD_WITHDRAWAL: &'static str = r"function\s+(withdraw|claim|distribute|release)Rewards\b";

pub const VALIDATOR_ID: &'static str = r"NodeID-[a-zA-Z0-9]+";

pub const REQUIRE_CALL: &'static str = "require(";

pub const ASSIGNMENT: &'static str = "=";

pub const PUBLIC_KEYWORD: &'static str = "public";

pub const EXTERNAL_KEYWORD: &'static str = "external";

pub const INTERACTION_CATEGORY: &'static str = "P-Chain Precompile Interaction";

pub const INTERACTION_DESCRIPTION_PREFIX: &'static str = "Direct interaction with the ";

pub const INTERACTION_DESCRIPTION_SUFFIX: &'static str = " precompile detected.";

pub const INTERACTION_RECOMMENDATION: &'static str = "This is a powerful, low-level operation. Review its correctness and security properties. Specific checks below.";

pub const MISSING_PAYABLE_CATEGORY: &'static str = "Missing Payable Modifier";

pub const MISSING_PAYABLE_DESCRIPTION: &'static str = "The function interacting with a staking precompile is not marked `payable`.";

pub const MISSING_PAYABLE_RECOMMENDATION: &'static str = "Ensure functions that may send AVAX for staking/delegation are marked `payable`.";

pub const UNCHECKED_CALL_CATEGORY: &'static str = "Unchecked Return Value";

pub const UNCHECKED_CALL_DESCRIPTION: &'static str = "The return value of a low-level call to a precompile is not checked.";

pub const UNCHECKED_CALL_RECOMMENDATION: &'static str = "Always check the `success` boolean from low-level calls using `require(success, ...)` to prevent silent failures.";

pub const WEAK_ACCESS_CATEGORY: &'static str = "Weak Access Control";

pub const WEAK_ACCESS_DESCRIPTION: &'static str = "A public/external function interacting with a staking precompile lacks explicit access control.";

pub const WEAK_ACCESS_RECOMMENDATION: &'static str = "Functions that can alter staking state should be strictly controlled (e.g., `onlyOwner`).";

pub const VALIDATOR_CATEGORY: &'static str = "Hardcoded Validator Dependency";

pub const VALIDATOR_DESCRIPTION: &'static str = "A hardcoded validator NodeID was found.";

pub const VALIDATOR_RECOMMENDATION: &'static str = "This creates a dependency on a single validator. Implement off-chain monitoring for this validator's health (uptime, fees, status) and have a contingency plan if it becomes unreliable or malicious.";

pub const LOCKED_REWARDS_CATEGORY: &'static str = "Locked Rewards Hazard";

pub const LOCKED_REWARDS_DESCRIPTION: &'static str = "The contract interacts with staking precompiles but appears to lack a function for withdrawing or distributing staking rewards.";

pub const LOCKED_REWARDS_RECOMMENDATION: &'static str = "Ensure your contract has a clear and secure mechanism (e.g., a `claimRewards()` or `distribute()` function) for users or administrators to access the staking rewards earned by the contract.";

/// The pattern that finds `address` as a whole word, in any case.
pub open spec fn address_pattern(address: Seq<char>) -> Seq<char> {
    ADDRESS_PATTERN_PREFIX@ + address + ADDRESS_PATTERN_SUFFIX@
}

pub open spec fn interaction_description(name: Seq<char>) -> Seq<char> {
    INTERACTION_DESCRIPTION_PREFIX@ + name + INTERACTION_DESCRIPTION_SUFFIX@
}

/// The checks on one line that names a precompile, given what their
/// patterns found: the interaction itself on line `number`; at the enclosing
/// declaration (line `start`) a missing payability marker; on the line a raw
/// call whose result is neither required nor assigned; and at the
/// declaration a public or external function without access control.
pub open spec fn precompile_rule(
    number: nat,
    name: Seq<char>,
    start: nat,
    payable: bool,
    raw_call: bool,
    call_checked: bool,
    visible: bool,
    guarded: bool,
) -> Seq<FindingView> {
    seq![
        finding_of(
            number,
            INTERACTION_CATEGORY@,
            interaction_description(name),
            INTERACTION_RECOMMENDATION@,
        ),
    ] + finding_if(
        !payable,
        start,
        MISSING_PAYABLE_CATEGORY@,
        MISSING_PAYABLE_DESCRIPTION@,
        MISSING_PAYABLE_RECOMMENDATION@,
    ) + finding_if(
        raw_call && !call_checked,
        number,
        UNCHECKED_CALL_CATEGORY@,
        UNCHECKED_CALL_DESCRIPTION@,
        UNCHECKED_CALL_RECOMMENDATION@,
    ) + finding_if(
        visible && !guarded,
        start,
        WEAK_ACCESS_CATEGORY@,
        WEAK_ACCESS_DESCRIPTION@,
        WEAK_ACCESS_RECOMMENDATION@,
    )
}

/// The findings for one precompile on line index `i`: none unless the line
/// names its address; else the checks of `precompile_rule`, with the
/// enclosing function found by scanning backward and access control looked
/// for in its declaration and, scanning forward, in its body.
pub open spec fn precompile_findings(
    lines: Seq<Seq<char>>,
    i: int,
    address: Seq<char>,
    name: Seq<char>,
) -> Seq<FindingView> {
    let line = lines[i];
    if !pattern_matches(address_pattern(address), line) {
        Seq::empty()
    } else {
        let (start, sig) = enclosing_function(lines, i);
        precompile_rule(
            (i + 1) as nat,
            name,
            start,
            pattern_matches(PAYABLE_MODIFIER@, sig),
            pattern_matches(LOW_LEVEL_CALL@, line),
            contains(line, REQUIRE_CALL@) || contains(line, ASSIGNMENT@),
            contains(sig, PUBLIC_KEYWORD@) || contains(sig, EXTERNAL_KEYWORD@),
            pattern_matches(ACCESS_CONTROL@, sig) || guarded_from(lines, i),
        )
    }
}

/// The whole-file rule: a finding at line 0 when some line uses a
/// precompile and no reward-withdrawal function is declared.
pub open spec fn locked_rewards_rule(interacts: bool, has_withdrawal: bool) -> Seq<FindingView> {
    finding_if(
        interacts && !has_withdrawal,
        0,
        LOCKED_REWARDS_CATEGORY@,
        LOCKED_REWARDS_DESCRIPTION@,
        LOCKED_REWARDS_RECOMMENDATION@,
    )
}

/// The findings of the first `k` precompiles on line index `i`.
pub open spec fn precompile_entries(
    lines: Seq<Seq<char>>,
    i: int,
    book: Seq<(Seq<char>, Seq<char>)>,
    k: int,
) -> Seq<FindingView>
    decreases k,
{
    if k <= 0 || k > book.len() {
        Seq::empty()
    } else {
        precompile_entries(lines, i, book, k - 1) + precompile_findings(
            lines,
            i,
            book[k - 1].0,
            book[k - 1].1,
        )
    }
}

/// All findings on line index `i`: the precompiles in book order, then a
/// hardcoded validator identifier.
pub open spec fn staking_line(
    lines: Seq<Seq<char>>,
    i: int,
    book: Seq<(Seq<char>, Seq<char>)>,
) -> Seq<FindingView> {
    precompile_entries(lines, i, book, book.len() as int) + finding_if(
        pattern_matches(VALIDATOR_ID@, lines[i]),
        (i + 1) as nat,
        VALIDATOR_CATEGORY@,
        VALIDATOR_DESCRIPTION@,
        VALIDATOR_RECOMMENDATION@,
    )
}

/// The per-line findings of the first `k` lines, in line order.
pub open spec fn staking_lines(
    lines: Seq<Seq<char>>,
    book: Seq<(Seq<char>, Seq<char>)>,
    k: int,
) -> Seq<FindingView>
    decreases k,
{
    if k <= 0 || k > lines.len() {
        Seq::empty()
    } else {
        staking_lines(lines, book, k - 1) + staking_line(lines, k - 1, book)
    }
}

/// Some line before index `k` names a precompile of `book`.
pub open spec fn touched_before(
    lines: Seq<Seq<char>>,
    book: Seq<(Seq<char>, Seq<char>)>,
    k: int,
) -> bool {
    exists|i: int, e: int|
        0 <= i < k && i < lines.len() && 0 <= e < book.len() && #[trigger] pattern_matches(
            address_pattern(book[e].0),
            lines[i],
        )
}

/// Every finding of the staking detectors, before deduplication: the
/// per-line findings, then one whole-file finding when a precompile is
/// used and no reward-withdrawal function is declared.
pub open spec fn staking_candidates(code: Seq<char>, book: Seq<(Seq<char>, Seq<char>)>) -> Seq<
    FindingView,
> {
    let lines = lines_of(code);
    staking_lines(lines, book, lines.len() as int) + locked_rewards_rule(
        touched_before(lines, book, lines.len() as int),
        pattern_matches(REWARD_WITHDRAWAL@, code),
    )
}

/// The staking findings of `code` for the precompiles of `book`, without
/// duplicates.
pub open spec fn staking_findings(code: Seq<char>, book: Seq<(Seq<char>, Seq<char>)>) -> Seq<
    FindingView,
> {
    dedup(staking_candidates(code, book))
}

proof fn lemma_precompile_findings_bounded(
    lines: Seq<Seq<char>>,
    i: int,
    address: Seq<char>,
    name: Seq<char>,
)
    requires
        0 <= i < lines.len(),
    ensures
        lines_within(precompile_findings(lines, i, address, name), (i + 1) as nat),
{
    let line = lines[i];
    if pattern_matches(address_pattern(address), line) {
        lemma_enclosing_bound(lines, i);
        let (start, sig) = enclosing_function(lines, i);
        let n = (i + 1) as nat;
        let base = seq![
            finding_of(n, INTERACTION_CATEGORY@, interaction_description(name), INTERACTION_RECOMMENDATION@),
        ];
        let payable = finding_if(
            !pattern_matches(PAYABLE_MODIFIER@, sig),
            start,
            MISSING_PAYABLE_CATEGORY@,
            MISSING_PAYABLE_DESCRIPTION@,
            MISSING_PAYABLE_RECOMMENDATION@,
        );
        let call = finding_if(
            pattern_matches(LOW_LEVEL_CALL@, line) && !(contains(line, REQUIRE_CALL@) || contains(
                line,
                ASSIGNMENT@,
            )),
            n,
            UNCHECKED_CALL_CATEGORY@,
            UNCHECKED_CALL_DESCRIPTION@,
            UNCHECKED_CALL_RECOMMENDATION@,
        );
        let weak = finding_if(
            (contains(sig, PUBLIC_KEYWORD@) || contains(sig, EXTERNAL_KEYWORD@)) && !(
            pattern_matches(ACCESS_CONTROL@, sig) || guarded_from(lines, i)),
            start,
            WEAK_ACCESS_CATEGORY@,
            WEAK_ACCESS_DESCRIPTION@,
            WEAK_ACCESS_RECOMMENDATION@,
        );
        lemma_lines_within_concat(base, payable, n);
        lemma_lines_within_concat(base + payable, call, n);
        lemma_lines_within_concat(base + payable + call, weak, n);
    }
}

proof fn lemma_precompile_entries_bounded(
    lines: Seq<Seq<char>>,
    i: int,
    book: Seq<(Seq<char>, Seq<char>)>,
    k: int,
)
    requires
        0 <= i < lines.len(),
    ensures
        lines_within(precompile_entries(lines, i, book, k), (i + 1) as nat),
    decreases k,
{
    if 0 < k <= book.len() {
        lemma_precompile_entries_bounded(lines, i, book, k - 1);
        lemma_precompile_findings_bounded(lines, i, book[k - 1].0, book[k - 1].1);
        lemma_lines_within_concat(
            precompile_entries(lines, i, book, k - 1),
            precompile_findings(lines, i, book[k - 1].0, book[k - 1].1),
            (i + 1) as nat,
        );
    }
}

proof fn lemma_staking_lines_bounded(
    lines: Seq<Seq<char>>,
    book: Seq<(Seq<char>, Seq<char>)>,
    k: int,
)
    requires
        0 <= k <= lines.len(),
    ensures
        lines_within(staking_lines(lines, book, k), k as nat),
    decreases k,
{
    if k > 0 {
        let prev = staking_lines(lines, book, k - 1);
        lemma_staking_lines_bounded(lines, book, k - 1);
        lemma_lines_within_mono(prev, (k - 1) as nat, k as nat);
        lemma_precompile_entries_bounded(lines, k - 1, book, book.len() as int);
        let validator = finding_if(
            pattern_matches(VALIDATOR_ID@, lines[k - 1]),
            k as nat,
            VALIDATOR_CATEGORY@,
            VALIDATOR_DESCRIPTION@,
            VALIDATOR_RECOMMENDATION@,
        );
        lemma_lines_within_concat(
            precompile_entries(lines, k - 1, book, book.len() as int),
            validator,
            k as nat,
        );
        lemma_lines_within_concat(prev, staking_line(lines, k - 1, book), k as nat);
    }
}

/// Every staking finding of `code` reports one of its lines, or line 0.
pub proof fn lemma_staking_findings_bounded(code: Seq<char>, book: Seq<(Seq<char>, Seq<char>)>)
    ensures
        lines_within(staking_findings(code, book), lines_of(code).len()),
{
    let lines = lines_of(code);
    let n = lines.len();
    lemma_staking_lines_bounded(lines, book, n as int);
    let locked = locked_rewards_rule(
        touched_before(lines, book, n as int),
        pattern_matches(REWARD_WITHDRAWAL@, code),
    );
    assert(lines_within(locked, n));
    lemma_lines_within_concat(staking_lines(lines, book, n as int), locked, n);
    lemma_dedup_lines_within(staking_candidates(code, book), n);
}

proof fn lemma_entries_contain(
    lines: Seq<Seq<char>>,
    i: int,
    book: Seq<(Seq<char>, Seq<char>)>,
    k: int,
    e: int,
    x: FindingView,
)
    requires
        0 <= e < k <= book.len(),
        precompile_findings(lines, i, book[e].0, book[e].1).contains(x),
    ensures
        precompile_entries(lines, i, book, k).contains(x),
    decreases k,
{
    let prev = precompile_entries(lines, i, book, k - 1);
    let last = precompile_findings(lines, i, book[k - 1].0, book[k - 1].1);
    lemma_contains_concat(prev, last, x);
    if e < k - 1 {
        lemma_entries_contain(lines, i, book, k - 1, e, x);
    }
}

proof fn lemma_lines_contain(
    lines: Seq<Seq<char>>,
    book: Seq<(Seq<char>, Seq<char>)>,
    k: int,
    i: int,
    x: FindingView,
)
    requires
        0 <= i < k <= lines.len(),
        staking_line(lines, i, book).contains(x),
    ensures
        staking_lines(lines, book, k).contains(x),
    decreases k,
{
    let prev = staking_lines(lines, book, k - 1);
    lemma_contains_concat(prev, staking_line(lines, k - 1, book), x);
    if i < k - 1 {
        lemma_lines_contain(lines, book, k - 1, i, x);
    }
}

/// A finding of one precompile's checks on a line is among the staking
/// findings of the file.
proof fn lemma_precompile_finding_reported(
    code: Seq<char>,
    book: Seq<(Seq<char>, Seq<char>)>,
    i: int,
    e: int,
    x: FindingView,
)
    requires
        0 <= i < lines_of(code).len(),
        0 <= e < book.len(),
        precompile_findings(lines_of(code), i, book[e].0, book[e].1).contains(x),
    ensures
        staking_findings(code, book).contains(x),
{
    let lines = lines_of(code);
    let n = lines.len() as int;
    lemma_entries_contain(lines, i, book, book.len() as int, e, x);
    let validator = finding_if(
        pattern_matches(VALIDATOR_ID@, lines[i]),
        (i + 1) as nat,
        VALIDATOR_CATEGORY@,
        VALIDATOR_DESCRIPTION@,
        VALIDATOR_RECOMMENDATION@,
    );
    lemma_contains_concat(precompile_entries(lines, i, book, book.len() as int), validator, x);
    lemma_lines_contain(lines, book, n, i, x);
    let locked = locked_rewards_rule(
        touched_before(lines, book, n),
        pattern_matches(REWARD_WITHDRAWAL@, code),
    );
    lemma_contains_concat(staking_lines(lines, book, n), locked, x);
    lemma_dedup_same_elements(staking_candidates(code, book));
}

/// When line index `i` names the address of precompile `e`, the staking
/// findings hold the interaction on line `i + 1`; at the enclosing
/// declaration (line `start`, 0 when none) a missing payability marker
/// when the declaration lacks one; on line `i + 1` an unchecked call when
/// the line makes a raw call and neither requires nor assigns its result;
/// and at the declaration weak access control when the function is public
/// or external and neither its declaration nor its body up to the first
/// closing brace shows an access-control idiom.
pub proof fn lemma_precompile_checks_reported(
    code: Seq<char>,
    book: Seq<(Seq<char>, Seq<char>)>,
    i: int,
    e: int,
)
    requires
        0 <= i < lines_of(code).len(),
        0 <= e < book.len(),
        pattern_matches(address_pattern(book[e].0), lines_of(code)[i]),
    ensures
        ({
            let lines = lines_of(code);
            let line = lines[i];
            let (start, sig) = enclosing_function(lines, i);
            let found = staking_findings(code, book);
            let number = (i + 1) as nat;
            &&& found.contains(
                finding_of(
                    number,
                    INTERACTION_CATEGORY@,
                    interaction_description(book[e].1),
                    INTERACTION_RECOMMENDATION@,
                ),
            )
            &&& !pattern_matches(PAYABLE_MODIFIER@, sig) ==> found.contains(
                finding_of(
                    start,
                    MISSING_PAYABLE_CATEGORY@,
                    MISSING_PAYABLE_DESCRIPTION@,
                    MISSING_PAYABLE_RECOMMENDATION@,
                ),
            )
            &&& pattern_matches(LOW_LEVEL_CALL@, line) && !contains(line, REQUIRE_CALL@)
                && !contains(line, ASSIGNMENT@) ==> found.contains(
                finding_of(
                    number,
                    UNCHECKED_CALL_CATEGORY@,
                    UNCHECKED_CALL_DESCRIPTION@,
                    UNCHECKED_CALL_RECOMMENDATION@,
                ),
            )
            &&& (contains(sig, PUBLIC_KEYWORD@) || contains(sig, EXTERNAL_KEYWORD@))
                && !pattern_matches(ACCESS_CONTROL@, sig) && !guarded_from(lines, i)
                ==> found.contains(
                finding_of(
                    start,
                    WEAK_ACCESS_CATEGORY@,
                    WEAK_ACCESS_DESCRIPTION@,
                    WEAK_ACCESS_RECOMMENDATION@,
                ),
            )
        }),
{
    let lines = lines_of(code);
    let line = lines[i];
    let (start, sig) = enclosing_function(lines, i);
    let number = (i + 1) as nat;
    let base = seq![
        finding_of(number, INTERACTION_CATEGORY@, interaction_description(book[e].1), INTERACTION_RECOMMENDATION@),
    ];
    let payable = finding_if(
        !pattern_matches(PAYABLE_MODIFIER@, sig),
        start,
        MISSING_PAYABLE_CATEGORY@,
        MISSING_PAYABLE_DESCRIPTION@,
        MISSING_PAYABLE_RECOMMENDATION@,
    );
    let call = finding_if(
        pattern_matches(LOW_LEVEL_CALL@, line) && !(contains(line, REQUIRE_CALL@) || contains(
            line,
            ASSIGNMENT@,
        )),
        number,
        UNCHECKED_CALL_CATEGORY@,
        UNCHECKED_CALL_DESCRIPTION@,
        UNCHECKED_CALL_RECOMMENDATION@,
    );
    let weak = finding_if(
        (contains(sig, PUBLIC_KEYWORD@) || contains(sig, EXTERNAL_KEYWORD@)) && !(pattern_matches(
            ACCESS_CONTROL@,
            sig,
        ) || guarded_from(lines, i)),
        start,
        WEAK_ACCESS_CATEGORY@,
        WEAK_ACCESS_DESCRIPTION@,
        WEAK_ACCESS_RECOMMENDATION@,
    );
    let all = precompile_findings(lines, i, book[e].0, book[e].1);
    assert(all == base + payable + call + weak);
    assert forall|x: FindingView|
        base.contains(x) || payable.contains(x) || call.contains(x) || weak.contains(x) implies
        #[trigger] staking_findings(code, book).contains(x) by {
        lemma_contains_concat(base, payable, x);
        lemma_contains_concat(base + payable, call, x);
        lemma_contains_concat(base + payable + call, weak, x);
        lemma_precompile_finding_reported(code, book, i, e, x);
    }
    assert(base.contains(base[0]));
    if payable.len() > 0 {
        assert(payable.contains(payable[0]));
    }
    if call.len() > 0 {
        assert(call.contains(call[0]));
    }
    if weak.len() > 0 {
        assert(weak.contains(weak[0]));
    }
}

/// Decides the checks on one line that names a precompile, from what their
/// patterns found.
pub fn precompile_verdict(
    number: usize,
    name: &str,
    start: usize,
    payable: bool,
    raw_call: bool,
    call_checked: bool,
    visible: bool,
    guarded: bool,
) -> (r: Vec<Finding>)
    ensures
        finding_views(r@) == precompile_rule(
            number as nat,
            name@,
            start as nat,
            payable,
            raw_call,
            call_checked,
            visible,
            guarded,
        ),
{
    let description = INTERACTION_DESCRIPTION_PREFIX.to_owned().concat(name).concat(
        INTERACTION_DESCRIPTION_SUFFIX,
    );
    let mut out: Vec<Finding> = Vec::new();
    out.push(
        Finding::new(
            number,
            INTERACTION_CATEGORY,
            description.as_str(),
            INTERACTION_RECOMMENDATION,
        ),
    );
    let ghost s1 = finding_views(out@);
    push_finding_if(
        &mut out,
        !payable,
        start,
        MISSING_PAYABLE_CATEGORY,
        MISSING_PAYABLE_DESCRIPTION,
        MISSING_PAYABLE_RECOMMENDATION,
    );
    push_finding_if(
        &mut out,
        raw_call && !call_checked,
        number,
        UNCHECKED_CALL_CATEGORY,
        UNCHECKED_CALL_DESCRIPTION,
        UNCHECKED_CALL_RECOMMENDATION,
    );
    push_finding_if(
        &mut out,
        visible && !guarded,
        start,
        WEAK_ACCESS_CATEGORY,
        WEAK_ACCESS_DESCRIPTION,
        WEAK_ACCESS_RECOMMENDATION,
    );
    proof {
        assert(s1 =~= seq![
            finding_of(
                number as nat,
                INTERACTION_CATEGORY@,
                interaction_description(name@),
                INTERACTION_RECOMMENDATION@,
            ),
        ]);
        assert(finding_views(out@) =~= precompile_rule(
            number as nat,
            name@,
            start as nat,
            payable,
            raw_call,
            call_checked,
            visible,
            guarded,
        ));
    }
    out
}

/// Decides the whole-file locked-rewards rule.
pub fn locked_rewards_verdict(interacts: bool, has_withdrawal: bool) -> (r: Vec<Finding>)
    ensures
        finding_views(r@) == locked_rewards_rule(interacts, has_withdrawal),
{
    let mut out: Vec<Finding> = Vec::new();
    push_finding_if(
        &mut out,
        interacts && !has_withdrawal,
        0,
        LOCKED_REWARDS_CATEGORY,
        LOCKED_REWARDS_DESCRIPTION,
        LOCKED_REWARDS_RECOMMENDATION,
    );
    assert(finding_views(out@) =~= locked_rewards_rule(interacts, has_withdrawal));
    out
}

/// The findings for one precompile on line index `i`, and whether the line
/// names its address.
fn precompile_issues(lines: &Vec<String>, i: usize, entry: &KnownAddress) -> (r: (
    Vec<Finding>,
    bool,
))
    requires
        i < lines@.len(),
        lines@.len() <= usize::MAX,
    ensures
        r.1 == pattern_matches(address_pattern(entry.address@), string_views(lines@)[i as int]),
        finding_views(r.0@) == precompile_findings(
            string_views(lines@),
            i as int,
            entry.address@,
            entry.name@,
        ),
{
    let ghost ls = string_views(lines@);
    let line = lines[i].as_str();
    assert(ls[i as int] == line@);
    let pattern = ADDRESS_PATTERN_PREFIX.to_owned().concat(entry.address.as_str()).concat(
        ADDRESS_PATTERN_SUFFIX,
    );
    if !matches_pattern(pattern.as_str(), line) {
        let out: Vec<Finding> = Vec::new();
        assert(finding_views(out@) =~= Seq::<FindingView>::empty());
        return (out, false);
    }
    let context = resolve_function_context(lines, i);
    let sig = context.signature.as_str();
    let payable = matches_pattern(PAYABLE_MODIFIER, sig);
    let raw_call = matches_pattern(LOW_LEVEL_CALL, line);
    let call_checked = raw_call && (str_contains(line, REQUIRE_CALL) || str_contains(
        line,
        ASSIGNMENT,
    ));
    let visible = str_contains(sig, PUBLIC_KEYWORD) || str_contains(sig, EXTERNAL_KEYWORD);
    let guarded = visible && (matches_pattern(ACCESS_CONTROL, sig) || body_has_access_control(
        lines,
        i,
    ));
    let out = precompile_verdict(
        i + 1,
        entry.name.as_str(),
        context.start_line,
        payable,
        raw_call,
        call_checked,
        visible,
        guarded,
    );
    proof {
        let (st, sg) = enclosing_function(ls, i as int);
        assert(st == context.start_line as nat && sg == sig@);
        assert(finding_views(out@) =~= precompile_findings(
            ls,
            i as int,
            entry.address@,
            entry.name@,
        ));
    }
    (out, true)
}

/// Runs the staking detectors on `code` for the precompiles of `precompiles`.
pub fn staking_issues(code: &str, precompiles: &Vec<KnownAddress>) -> (r: Vec<Finding>)
    ensures
        finding_views(r@) == staking_findings(code@, address_views(precompiles@)),
        lines_within(finding_views(r@), lines_of(code@).len()),
{
    let lines = split_lines(code);
    let ghost ls = lines_of(code@);
    let ghost n = ls.len();
    let ghost book = address_views(precompiles@);
    let mut issues: Vec<Finding> = Vec::new();
    let mut interacts = false;
    let count = lines.len();
    let mut i: usize = 0;
    while i < count
        invariant
            count == lines@.len(),
            string_views(lines@) == ls,
            book == address_views(precompiles@),
            n == ls.len(),
            i <= n,
            finding_views(issues@) == staking_lines(ls, book, i as int),
            interacts == touched_before(ls, book, i as int),
        decreases n - i,
    {
        let ghost before = finding_views(issues@);
        let mut k: usize = 0;
        while k < precompiles.len()
            invariant
                count == lines@.len(),
                string_views(lines@) == ls,
                book == address_views(precompiles@),
                n == ls.len(),
                i < n,
                k <= book.len(),
                finding_views(issues@) == before + precompile_entries(ls, i as int, book, k as int),
                interacts == (touched_before(ls, book, i as int) || exists|e: int|
                    0 <= e < k && #[trigger] pattern_matches(
                        address_pattern(book[e].0),
                        ls[i as int],
                    )),
            decreases book.len() - k,
        {
            let (mut found, touched) = precompile_issues(&lines, i, &precompiles[k]);
            assert(book[k as int] == precompiles@[k as int]@);
            let ghost prev = issues@;
            let ghost added = found@;
            issues.append(&mut found);
            assert(finding_views(issues@) =~= finding_views(prev) + finding_views(added));
            if touched {
                interacts = true;
            }
            k = k + 1;
        }
        assert(k == book.len());
        let line = lines[i].as_str();
        let ghost middle = issues@;
        assert(finding_views(middle) == before + precompile_entries(ls, i as int, book, book.len() as int));
        let fires = matches_pattern(VALIDATOR_ID, line);
        push_finding_if(
            &mut issues,
            fires,
            i + 1,
            VALIDATOR_CATEGORY,
            VALIDATOR_DESCRIPTION,
            VALIDATOR_RECOMMENDATION,
        );
        proof {
            assert(ls[i as int] == line@);
            let tail = finding_if(
                fires,
                (i + 1) as nat,
                VALIDATOR_CATEGORY@,
                VALIDATOR_DESCRIPTION@,
                VALIDATOR_RECOMMENDATION@,
            );
            assert(finding_views(issues@) =~= before + staking_line(ls, i as int, book));
            assert(interacts == touched_before(ls, book, i + 1)) by {
                if touched_before(ls, book, i + 1) {
                    let (i2, e2) = choose|i2: int, e2: int|
                        0 <= i2 < i + 1 && i2 < ls.len() && 0 <= e2 < book.len()
                            && #[trigger] pattern_matches(address_pattern(book[e2].0), ls[i2]);
                    if i2 < i {
                        assert(touched_before(ls, book, i as int));
                    } else {
                        assert(pattern_matches(address_pattern(book[e2].0), ls[i as int]));
                    }
                }
                if touched_before(ls, book, i as int) {
                    let (i2, e2) = choose|i2: int, e2: int|
                        0 <= i2 < i && i2 < ls.len() && 0 <= e2 < book.len()
                            && #[trigger] pattern_matches(address_pattern(book[e2].0), ls[i2]);
                    assert(pattern_matches(address_pattern(book[e2].0), ls[i2]));
                }
                if exists|e: int|
                    0 <= e < book.len() && #[trigger] pattern_matches(
                        address_pattern(book[e].0),
                        ls[i as int],
                    ) {
                    let e2 = choose|e: int|
                        0 <= e < book.len() && #[trigger] pattern_matches(
                            address_pattern(book[e].0),
                            ls[i as int],
                        );
                    assert(pattern_matches(address_pattern(book[e2].0), ls[i as int]));
                }
            }
        }
        i = i + 1;
    }
    let has_withdrawal = interacts && matches_pattern(REWARD_WITHDRAWAL, code);
    let mut locked = locked_rewards_verdict(interacts, has_withdrawal);
    let ghost before = issues@;
    let ghost added = locked@;
    issues.append(&mut locked);
    proof {
        assert(finding_views(added) == locked_rewards_rule(
            touched_before(ls, book, n as int),
            pattern_matches(REWARD_WITHDRAWAL@, code@),
        ));
        assert(finding_views(issues@) =~= finding_views(before) + finding_views(added));
        assert(finding_views(issues@) =~= staking_candidates(code@, book));
    }
    let out = dedup_findings(&issues);
    proof {
        lemma_staking_findings_bounded(code@, book);
    }
    out
}

/// Answers a job with the staking findings of its source text.
pub fn analyze_staking_precompiles_v3(job: &AnalysisJob, registry: &Registry) -> (r:
    AnalysisResult)
    ensures
        r.job_id@ == job.job_id@,
        r.worker_name@ == STAKING_WORKER_NAME@,
        finding_views(r.output@) == staking_findings(
            job.source_code@,
            address_views(registry.staking_precompiles@),
        ),
        lines_within(finding_views(r.output@), lines_of(job.source_code@).len()),
{
    let output = staking_issues(job.source_code.as_str(), &registry.staking_precompiles);
    AnalysisResult {
        job_id: job.job_id.clone(),
        worker_name: STAKING_WORKER_NAME.to_owned(),
        output,
    }
}

} // verus!
