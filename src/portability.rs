//! Detectors for assumptions that break when a contract moves to another
//! chain: chain identity, native value, fixed gas stipends, chain-specific
//! deployments, and (given the target's metadata) precompiles that are not
//! enabled and a gas limit that is too low.
use vstd::prelude::*;
use crate::finding::{
    dedup, dedup_findings, finding_if, finding_views, lemma_dedup_lines_within,
    lemma_lines_within_concat, lemma_lines_within_mono, lines_within, push_finding_if,
    AnalysisJob, AnalysisResult, ExternalContext, Finding, FindingView,
};
use crate::pattern::{lowercase, lowercase_of, matches_pattern, pattern_matches};
use crate::registry::{address_views, KnownAddress, Registry};
use crate::text::{
    contains, decimal, decimal_string, eq_ignore_ascii_case, lines_of, split_lines, str_contains,
    str_eq_ignore_ascii_case, string_views,
};

verus! {

pub const PORTABILITY_WORKER_NAME: &'static str = "SubnetPortabilityWorkerV3";

pub const CHAIN_ID: &'static str = r"\bchainid\b";

pub const MSG_VALUE: &'static str = r"\bmsg\.value\b";

pub const BALANCE_READ: &'static str = r"\.balance\b";

pub const HARDCODED_GAS: &'static str = r"\.call\s*\{\s*gas:";

/// The coarse cost estimate held against the target's gas limit.
pub const SIMULATED_FUNCTION_COST: u64 = 1000000;

pub const CHAIN_ID_CATEGORY: &'static str = "Hardcoded Chain Assumption";

pub const CHAIN_ID_DESCRIPTION: &'static str = "The `chainid` opcode was used.";

pub const CHAIN_ID_RECOMMENDATION: &'static str = "Avoid using `chainid` for core logic. On a new Subnet, this value will be different and may break your contract.";

pub const NATIVE_TOKEN_CATEGORY: &'static str = "Native Token Assumption";

pub const MSG_VALUE_DESCRIPTION: &'static str = "The `msg.value` keyword was used, assuming a native, value-bearing token.";

pub const MSG_VALUE_RECOMMENDATION: &'static str = "Be aware that many Subnets may use a valueless native token for gas, or may not use a native token at all (e.g., in favor of an ERC20 for fees). Logic relying on `msg.value > 0` may not be portable.";

pub const BALANCE_DESCRIPTION: &'static str = "The `.balance` property was used, assuming a native, value-bearing token.";

pub const BALANCE_RECOMMENDATION: &'static str = "Similar to `msg.value`, be aware that the native token on a custom Subnet may not be AVAX and could have different properties. Logic checking `address.balance` might behave as expected.";

pub const HARDCODED_GAS_CATEGORY: &'static str = "Hardcoded Gas Amount";

pub const HARDCODED_GAS_DESCRIPTION: &'static str = "A low-level call with a hardcoded gas amount (`.call{gas: ...}`) was detected.";

pub const HARDCODED_GAS_RECOMMENDATION: &'static str = "This is a fragile pattern. Gas costs for opcodes can change, and Subnets may have different gas semantics. Avoid hardcoding gas unless absolutely necessary.";

pub const CHAIN_DEPENDENCY_CATEGORY: &'static str = "C-Chain Dependency";

pub const CHAIN_DEPENDENCY_DESCRIPTION_PREFIX: &'static str = "A hardcoded address for a known C-Chain protocol (";

pub const CHAIN_DEPENDENCY_DESCRIPTION_SUFFIX: &'static str = ") was found.";

pub const CHAIN_DEPENDENCY_RECOMMENDATION: &'static str = "This contract will not exist on a new Subnet. Pass protocol addresses in the constructor or a setter function to make your contract portable.";

pub const MISMATCH_CATEGORY: &'static str = "Precompile Mismatch";

pub const MISMATCH_DESCRIPTION_PREFIX: &'static str = "Contract interacts with the '";

pub const MISMATCH_DESCRIPTION_SUFFIX: &'static str = "' precompile, but it is NOT enabled in the provided Subnet genesis.";

pub const MISMATCH_RECOMMENDATION: &'static str = "Ensure your target Subnet's genesis file enables all precompiles your contracts require.";

pub const GAS_LIMIT_CATEGORY: &'static str = "Gas Limit Violation Prediction";

pub const GAS_LIMIT_DESCRIPTION_PREFIX: &'static str = "A function in this contract has an estimated cost of ";

pub const GAS_LIMIT_DESCRIPTION_MIDDLE: &'static str = " gas, which exceeds the target Subnet's blockGasLimit of ";

pub const GAS_LIMIT_DESCRIPTION_SUFFIX: &'static str = ".";

pub const GAS_LIMIT_RECOMMENDATION: &'static str = "Optimize expensive functions or deploy to a Subnet with a higher block gas limit.";

pub open spec fn chain_dependency_description(name: Seq<char>) -> Seq<char> {
    CHAIN_DEPENDENCY_DESCRIPTION_PREFIX@ + name + CHAIN_DEPENDENCY_DESCRIPTION_SUFFIX@
}

pub open spec fn mismatch_description(name: Seq<char>) -> Seq<char> {
    MISMATCH_DESCRIPTION_PREFIX@ + name + MISMATCH_DESCRIPTION_SUFFIX@
}

pub open spec fn gas_limit_description(limit: nat) -> Seq<char> {
    GAS_LIMIT_DESCRIPTION_PREFIX@ + decimal(SIMULATED_FUNCTION_COST as nat)
        + GAS_LIMIT_DESCRIPTION_MIDDLE@ + decimal(limit) + GAS_LIMIT_DESCRIPTION_SUFFIX@
}

/// The chain-specific deployments among the first `k` of `book` whose
/// address occurs in the lower-cased line `lower`.
pub open spec fn chain_entries(
    lower: Seq<char>,
    number: nat,
    book: Seq<(Seq<char>, Seq<char>)>,
    k: int,
) -> Seq<FindingView>
    decreases k,
{
    if k <= 0 || k > book.len() {
        Seq::empty()
    } else {
        chain_entries(lower, number, book, k - 1) + finding_if(
            contains(lower, lowercase_of(book[k - 1].0)),
            number,
            CHAIN_DEPENDENCY_CATEGORY@,
            chain_dependency_description(book[k - 1].1),
            CHAIN_DEPENDENCY_RECOMMENDATION@,
        )
    }
}

/// Some entry of `enabled` equals `address` up to ASCII case.
pub open spec fn is_enabled(enabled: Seq<Seq<char>>, address: Seq<char>) -> bool {
    exists|j: int| 0 <= j < enabled.len() && #[trigger] eq_ignore_ascii_case(enabled[j], address)
}

/// The optional precompiles among the first `k` of `book` whose address
/// occurs in the lower-cased line `lower` but that `enabled` lacks.
pub open spec fn mismatch_entries(
    lower: Seq<char>,
    number: nat,
    book: Seq<(Seq<char>, Seq<char>)>,
    enabled: Seq<Seq<char>>,
    k: int,
) -> Seq<FindingView>
    decreases k,
{
    if k <= 0 || k > book.len() {
        Seq::empty()
    } else {
        mismatch_entries(lower, number, book, enabled, k - 1) + finding_if(
            contains(lower, lowercase_of(book[k - 1].0)) && !is_enabled(enabled, book[k - 1].0),
            number,
            MISMATCH_CATEGORY@,
            mismatch_description(book[k - 1].1),
            MISMATCH_RECOMMENDATION@,
        )
    }
}

/// The per-line rules on chain identity, native value and gas stipends,
/// given what their patterns found on line `number`.
pub open spec fn line_assumption_rule(
    number: nat,
    chain_id: bool,
    msg_value: bool,
    balance: bool,
    hardcoded_gas: bool,
) -> Seq<FindingView> {
    finding_if(
        chain_id,
        number,
        CHAIN_ID_CATEGORY@,
        CHAIN_ID_DESCRIPTION@,
        CHAIN_ID_RECOMMENDATION@,
    ) + finding_if(
        msg_value,
        number,
        NATIVE_TOKEN_CATEGORY@,
        MSG_VALUE_DESCRIPTION@,
        MSG_VALUE_RECOMMENDATION@,
    ) + finding_if(
        balance,
        number,
        NATIVE_TOKEN_CATEGORY@,
        BALANCE_DESCRIPTION@,
        BALANCE_RECOMMENDATION@,
    ) + finding_if(
        hardcoded_gas,
        number,
        HARDCODED_GAS_CATEGORY@,
        HARDCODED_GAS_DESCRIPTION@,
        HARDCODED_GAS_RECOMMENDATION@,
    )
}

/// The findings on one line, numbered `number`.
pub open spec fn portability_line(
    line: Seq<char>,
    number: nat,
    chain_book: Seq<(Seq<char>, Seq<char>)>,
    optional_book: Seq<(Seq<char>, Seq<char>)>,
    enabled: Option<Seq<Seq<char>>>,
) -> Seq<FindingView> {
    let lower = lowercase_of(line);
    line_assumption_rule(
        number,
        pattern_matches(CHAIN_ID@, line),
        pattern_matches(MSG_VALUE@, line),
        pattern_matches(BALANCE_READ@, line),
        pattern_matches(HARDCODED_GAS@, line),
    ) + chain_entries(lower, number, chain_book, chain_book.len() as int) + match enabled {
        Some(en) => mismatch_entries(lower, number, optional_book, en, optional_book.len() as int),
        None => Seq::empty(),
    }
}

/// The per-line findings of the first `k` lines, in line order.
pub open spec fn portability_lines(
    lines: Seq<Seq<char>>,
    chain_book: Seq<(Seq<char>, Seq<char>)>,
    optional_book: Seq<(Seq<char>, Seq<char>)>,
    enabled: Option<Seq<Seq<char>>>,
    k: int,
) -> Seq<FindingView>
    decreases k,
{
    if k <= 0 || k > lines.len() {
        Seq::empty()
    } else {
        portability_lines(lines, chain_book, optional_book, enabled, k - 1) + portability_line(
            lines[k - 1],
            k as nat,
            chain_book,
            optional_book,
            enabled,
        )
    }
}

/// One whole-file finding when the cost estimate exceeds a known gas limit.
pub open spec fn gas_limit_findings(gas_limit: Option<u64>) -> Seq<FindingView> {
    match gas_limit {
        Some(limit) => finding_if(
            SIMULATED_FUNCTION_COST > limit,
            0,
            GAS_LIMIT_CATEGORY@,
            gas_limit_description(limit as nat),
            GAS_LIMIT_RECOMMENDATION@,
        ),
        None => Seq::empty(),
    }
}

/// The gas limit of an optional context.
pub open spec fn context_gas_limit(context: Option<ExternalContext>) -> Option<u64> {
    match context {
        Some(c) => c.gas_limit,
        None => None,
    }
}

/// The enabled precompiles of an optional context.
pub open spec fn context_enabled(context: Option<ExternalContext>) -> Option<Seq<Seq<char>>> {
    match context {
        Some(c) => match c.enabled_precompiles {
            Some(v) => Some(string_views(v@)),
            None => None,
        },
        None => None,
    }
}

/// Every finding of the portability detectors, before deduplication.
pub open spec fn portability_candidates(
    code: Seq<char>,
    chain_book: Seq<(Seq<char>, Seq<char>)>,
    optional_book: Seq<(Seq<char>, Seq<char>)>,
    gas_limit: Option<u64>,
    enabled: Option<Seq<Seq<char>>>,
) -> Seq<FindingView> {
    let lines = lines_of(code);
    portability_lines(lines, chain_book, optional_book, enabled, lines.len() as int)
        + gas_limit_findings(gas_limit)
}

/// The portability findings of `code`, without duplicates.
pub open spec fn portability_findings(
    code: Seq<char>,
    chain_book: Seq<(Seq<char>, Seq<char>)>,
    optional_book: Seq<(Seq<char>, Seq<char>)>,
    gas_limit: Option<u64>,
    enabled: Option<Seq<Seq<char>>>,
) -> Seq<FindingView> {
    dedup(portability_candidates(code, chain_book, optional_book, gas_limit, enabled))
}

proof fn lemma_chain_entries_bounded(
    lower: Seq<char>,
    number: nat,
    book: Seq<(Seq<char>, Seq<char>)>,
    k: int,
)
    ensures
        lines_within(chain_entries(lower, number, book, k), number),
    decreases k,
{
    if 0 < k <= book.len() {
        lemma_chain_entries_bounded(lower, number, book, k - 1);
        lemma_lines_within_concat(
            chain_entries(lower, number, book, k - 1),
            finding_if(
                contains(lower, lowercase_of(book[k - 1].0)),
                number,
                CHAIN_DEPENDENCY_CATEGORY@,
                chain_dependency_description(book[k - 1].1),
                CHAIN_DEPENDENCY_RECOMMENDATION@,
            ),
            number,
        );
    }
}

proof fn lemma_mismatch_entries_bounded(
    lower: Seq<char>,
    number: nat,
    book: Seq<(Seq<char>, Seq<char>)>,
    enabled: Seq<Seq<char>>,
    k: int,
)
    ensures
        lines_within(mismatch_entries(lower, number, book, enabled, k), number),
    decreases k,
{
    if 0 < k <= book.len() {
        lemma_mismatch_entries_bounded(lower, number, book, enabled, k - 1);
        lemma_lines_within_concat(
            mismatch_entries(lower, number, book, enabled, k - 1),
            finding_if(
                contains(lower, lowercase_of(book[k - 1].0)) && !is_enabled(enabled, book[k - 1].0),
                number,
                MISMATCH_CATEGORY@,
                mismatch_description(book[k - 1].1),
                MISMATCH_RECOMMENDATION@,
            ),
            number,
        );
    }
}

proof fn lemma_portability_line_bounded(
    line: Seq<char>,
    number: nat,
    chain_book: Seq<(Seq<char>, Seq<char>)>,
    optional_book: Seq<(Seq<char>, Seq<char>)>,
    enabled: Option<Seq<Seq<char>>>,
)
    ensures
        lines_within(portability_line(line, number, chain_book, optional_book, enabled), number),
{
    let lower = lowercase_of(line);
    let f1 = finding_if(
        pattern_matches(CHAIN_ID@, line),
        number,
        CHAIN_ID_CATEGORY@,
        CHAIN_ID_DESCRIPTION@,
        CHAIN_ID_RECOMMENDATION@,
    );
    let f2 = finding_if(
        pattern_matches(MSG_VALUE@, line),
        number,
        NATIVE_TOKEN_CATEGORY@,
        MSG_VALUE_DESCRIPTION@,
        MSG_VALUE_RECOMMENDATION@,
    );
    let f3 = finding_if(
        pattern_matches(BALANCE_READ@, line),
        number,
        NATIVE_TOKEN_CATEGORY@,
        BALANCE_DESCRIPTION@,
        BALANCE_RECOMMENDATION@,
    );
    let f4 = finding_if(
        pattern_matches(HARDCODED_GAS@, line),
        number,
        HARDCODED_GAS_CATEGORY@,
        HARDCODED_GAS_DESCRIPTION@,
        HARDCODED_GAS_RECOMMENDATION@,
    );
    lemma_lines_within_concat(f1, f2, number);
    lemma_lines_within_concat(f1 + f2, f3, number);
    lemma_lines_within_concat(f1 + f2 + f3, f4, number);
    let fixed = f1 + f2 + f3 + f4;
    let chain = chain_entries(lower, number, chain_book, chain_book.len() as int);
    lemma_chain_entries_bounded(lower, number, chain_book, chain_book.len() as int);
    lemma_lines_within_concat(fixed, chain, number);
    let mismatched = match enabled {
        Some(en) => mismatch_entries(lower, number, optional_book, en, optional_book.len() as int),
        None => Seq::<FindingView>::empty(),
    };
    match enabled {
        Some(en) => {
            lemma_mismatch_entries_bounded(lower, number, optional_book, en, optional_book.len() as int);
        },
        None => {},
    }
    lemma_lines_within_concat(fixed + chain, mismatched, number);
}

proof fn lemma_portability_lines_bounded(
    lines: Seq<Seq<char>>,
    chain_book: Seq<(Seq<char>, Seq<char>)>,
    optional_book: Seq<(Seq<char>, Seq<char>)>,
    enabled: Option<Seq<Seq<char>>>,
    k: int,
)
    requires
        0 <= k <= lines.len(),
    ensures
        lines_within(portability_lines(lines, chain_book, optional_book, enabled, k), k as nat),
    decreases k,
{
    if k > 0 {
        let prev = portability_lines(lines, chain_book, optional_book, enabled, k - 1);
        lemma_portability_lines_bounded(lines, chain_book, optional_book, enabled, k - 1);
        lemma_lines_within_mono(prev, (k - 1) as nat, k as nat);
        lemma_portability_line_bounded(lines[k - 1], k as nat, chain_book, optional_book, enabled);
        lemma_lines_within_concat(
            prev,
            portability_line(lines[k - 1], k as nat, chain_book, optional_book, enabled),
            k as nat,
        );
    }
}

/// Every portability finding of `code` reports one of its lines, or line 0.
pub proof fn lemma_portability_findings_bounded(
    code: Seq<char>,
    chain_book: Seq<(Seq<char>, Seq<char>)>,
    optional_book: Seq<(Seq<char>, Seq<char>)>,
    gas_limit: Option<u64>,
    enabled: Option<Seq<Seq<char>>>,
)
    ensures
        lines_within(
            portability_findings(code, chain_book, optional_book, gas_limit, enabled),
            lines_of(code).len(),
        ),
{
    let lines = lines_of(code);
    let n = lines.len();
    lemma_portability_lines_bounded(lines, chain_book, optional_book, enabled, n as int);
    assert(lines_within(gas_limit_findings(gas_limit), n));
    lemma_lines_within_concat(
        portability_lines(lines, chain_book, optional_book, enabled, n as int),
        gas_limit_findings(gas_limit),
        n,
    );
    lemma_dedup_lines_within(
        portability_candidates(code, chain_book, optional_book, gas_limit, enabled),
        n,
    );
}

/// Whether `address` is in `enabled`, up to ASCII case.
pub fn is_enabled_precompile(enabled: &Vec<String>, address: &str) -> (r: bool)
    ensures
        r == is_enabled(string_views(enabled@), address@),
{
    let ghost en = string_views(enabled@);
    let mut j: usize = 0;
    while j < enabled.len()
        invariant
            en == string_views(enabled@),
            j <= en.len(),
            forall|t: int| 0 <= t < j ==> !eq_ignore_ascii_case(#[trigger] en[t], address@),
        decreases en.len() - j,
    {
        if str_eq_ignore_ascii_case(enabled[j].as_str(), address) {
            assert(eq_ignore_ascii_case(en[j as int], address@));
            return true;
        }
        j = j + 1;
    }
    false
}

fn chain_specific_issues(lower: &str, number: usize, book: &Vec<KnownAddress>) -> (r: Vec<
    Finding,
>)
    ensures
        finding_views(r@) == chain_entries(
            lower@,
            number as nat,
            address_views(book@),
            book@.len() as int,
        ),
{
    let ghost bk = address_views(book@);
    let mut out: Vec<Finding> = Vec::new();
    let mut k: usize = 0;
    while k < book.len()
        invariant
            bk == address_views(book@),
            k <= book@.len(),
            finding_views(out@) == chain_entries(lower@, number as nat, bk, k as int),
        decreases book@.len() - k,
    {
        let entry = &book[k];
        assert(bk[k as int] == entry@);
        let address = lowercase(entry.address.as_str());
        let description = CHAIN_DEPENDENCY_DESCRIPTION_PREFIX.to_owned().concat(
            entry.name.as_str(),
        ).concat(CHAIN_DEPENDENCY_DESCRIPTION_SUFFIX);
        let fires = str_contains(lower, address.as_str());
        push_finding_if(
            &mut out,
            fires,
            number,
            CHAIN_DEPENDENCY_CATEGORY,
            description.as_str(),
            CHAIN_DEPENDENCY_RECOMMENDATION,
        );
        k = k + 1;
    }
    out
}

fn mismatch_issues(
    lower: &str,
    number: usize,
    book: &Vec<KnownAddress>,
    enabled: &Vec<String>,
) -> (r: Vec<Finding>)
    ensures
        finding_views(r@) == mismatch_entries(
            lower@,
            number as nat,
            address_views(book@),
            string_views(enabled@),
            book@.len() as int,
        ),
{
    let ghost bk = address_views(book@);
    let ghost en = string_views(enabled@);
    let mut out: Vec<Finding> = Vec::new();
    let mut k: usize = 0;
    while k < book.len()
        invariant
            bk == address_views(book@),
            en == string_views(enabled@),
            k <= book@.len(),
            finding_views(out@) == mismatch_entries(lower@, number as nat, bk, en, k as int),
        decreases book@.len() - k,
    {
        let entry = &book[k];
        assert(bk[k as int] == entry@);
        let address = lowercase(entry.address.as_str());
        let description = MISMATCH_DESCRIPTION_PREFIX.to_owned().concat(entry.name.as_str()).concat(
            MISMATCH_DESCRIPTION_SUFFIX,
        );
        let fires = str_contains(lower, address.as_str()) && !is_enabled_precompile(
            enabled,
            entry.address.as_str(),
        );
        push_finding_if(
            &mut out,
            fires,
            number,
            MISMATCH_CATEGORY,
            description.as_str(),
            MISMATCH_RECOMMENDATION,
        );
        k = k + 1;
    }
    out
}

/// Decides the per-line rules on chain identity, native value and gas
/// stipends from what their patterns found.
pub fn line_assumption_verdict(
    number: usize,
    chain_id: bool,
    msg_value: bool,
    balance: bool,
    hardcoded_gas: bool,
) -> (r: Vec<Finding>)
    ensures
        finding_views(r@) == line_assumption_rule(
            number as nat,
            chain_id,
            msg_value,
            balance,
            hardcoded_gas,
        ),
{
    let ghost n = number as nat;
    let mut out: Vec<Finding> = Vec::new();
    let ghost s0 = finding_views(out@);
    push_finding_if(
        &mut out,
        chain_id,
        number,
        CHAIN_ID_CATEGORY,
        CHAIN_ID_DESCRIPTION,
        CHAIN_ID_RECOMMENDATION,
    );
    push_finding_if(
        &mut out,
        msg_value,
        number,
        NATIVE_TOKEN_CATEGORY,
        MSG_VALUE_DESCRIPTION,
        MSG_VALUE_RECOMMENDATION,
    );
    push_finding_if(
        &mut out,
        balance,
        number,
        NATIVE_TOKEN_CATEGORY,
        BALANCE_DESCRIPTION,
        BALANCE_RECOMMENDATION,
    );
    push_finding_if(
        &mut out,
        hardcoded_gas,
        number,
        HARDCODED_GAS_CATEGORY,
        HARDCODED_GAS_DESCRIPTION,
        HARDCODED_GAS_RECOMMENDATION,
    );
    proof {
        let f1 = finding_if(
            chain_id,
            n,
            CHAIN_ID_CATEGORY@,
            CHAIN_ID_DESCRIPTION@,
            CHAIN_ID_RECOMMENDATION@,
        );
        let f2 = finding_if(
            msg_value,
            n,
            NATIVE_TOKEN_CATEGORY@,
            MSG_VALUE_DESCRIPTION@,
            MSG_VALUE_RECOMMENDATION@,
        );
        let f3 = finding_if(
            balance,
            n,
            NATIVE_TOKEN_CATEGORY@,
            BALANCE_DESCRIPTION@,
            BALANCE_RECOMMENDATION@,
        );
        let f4 = finding_if(
            hardcoded_gas,
            n,
            HARDCODED_GAS_CATEGORY@,
            HARDCODED_GAS_DESCRIPTION@,
            HARDCODED_GAS_RECOMMENDATION@,
        );
        assert(s0 + f1 =~= f1);
        assert(finding_views(out@) =~= line_assumption_rule(
            n,
            chain_id,
            msg_value,
            balance,
            hardcoded_gas,
        ));
    }
    out
}

/// The findings on one line, numbered `number`.
fn line_issues(
    line: &str,
    number: usize,
    chain_book: &Vec<KnownAddress>,
    optional_book: &Vec<KnownAddress>,
    enabled: Option<&Vec<String>>,
) -> (r: Vec<Finding>)
    ensures
        finding_views(r@) == portability_line(
            line@,
            number as nat,
            address_views(chain_book@),
            address_views(optional_book@),
            match enabled {
                Some(v) => Some(string_views(v@)),
                None => None,
            },
        ),
{
    let mut issues = line_assumption_verdict(
        number,
        matches_pattern(CHAIN_ID, line),
        matches_pattern(MSG_VALUE, line),
        matches_pattern(BALANCE_READ, line),
        matches_pattern(HARDCODED_GAS, line),
    );
    let lower = lowercase(line);
    let mut chain = chain_specific_issues(lower.as_str(), number, chain_book);
    let ghost fixed = issues@;
    let ghost chain_found = chain@;
    issues.append(&mut chain);
    let ghost with_chain = issues@;
    let mut mismatched: Vec<Finding> = Vec::new();
    match enabled {
        Some(v) => {
            mismatched = mismatch_issues(lower.as_str(), number, optional_book, v);
        },
        None => {},
    }
    let ghost mismatch_found = mismatched@;
    issues.append(&mut mismatched);
    proof {
        assert(finding_views(with_chain) =~= finding_views(fixed) + finding_views(chain_found));
        assert(finding_views(issues@) =~= finding_views(with_chain) + finding_views(
            mismatch_found,
        ));
    }
    issues
}

/// Decides the whole-file gas rule: a finding at line 0 when the cost
/// estimate exceeds a known gas limit.
pub fn gas_limit_verdict(gas_limit: Option<u64>) -> (r: Vec<Finding>)
    ensures
        finding_views(r@) == gas_limit_findings(gas_limit),
{
    let mut out: Vec<Finding> = Vec::new();
    match gas_limit {
        Some(limit) => {
            let cost = decimal_string(SIMULATED_FUNCTION_COST);
            let shown = decimal_string(limit);
            let description = GAS_LIMIT_DESCRIPTION_PREFIX.to_owned().concat(cost.as_str()).concat(
                GAS_LIMIT_DESCRIPTION_MIDDLE,
            ).concat(shown.as_str()).concat(GAS_LIMIT_DESCRIPTION_SUFFIX);
            push_finding_if(
                &mut out,
                SIMULATED_FUNCTION_COST > limit,
                0,
                GAS_LIMIT_CATEGORY,
                description.as_str(),
                GAS_LIMIT_RECOMMENDATION,
            );
            assert(finding_views(out@) =~= gas_limit_findings(gas_limit));
        },
        None => {
            assert(finding_views(out@) =~= gas_limit_findings(gas_limit));
        },
    }
    out
}

/// Runs the portability detectors on `code`, with the given address books
/// and what is known of the deployment target.
pub fn portability_issues(
    code: &str,
    chain_book: &Vec<KnownAddress>,
    optional_book: &Vec<KnownAddress>,
    gas_limit: Option<u64>,
    enabled: Option<&Vec<String>>,
) -> (r: Vec<Finding>)
    ensures
        finding_views(r@) == portability_findings(
            code@,
            address_views(chain_book@),
            address_views(optional_book@),
            gas_limit,
            match enabled {
                Some(v) => Some(string_views(v@)),
                None => None,
            },
        ),
        lines_within(finding_views(r@), lines_of(code@).len()),
{
    let ghost en: Option<Seq<Seq<char>>> = match enabled {
        Some(v) => Some(string_views(v@)),
        None => None,
    };
    let ghost cb = address_views(chain_book@);
    let ghost ob = address_views(optional_book@);
    let lines = split_lines(code);
    let ghost ls = lines_of(code@);
    let ghost n = ls.len();
    let count = lines.len();
    let mut issues: Vec<Finding> = Vec::new();
    let mut i: usize = 0;
    while i < count
        invariant
            count == lines@.len(),
            string_views(lines@) == ls,
            n == ls.len(),
            i <= n,
            cb == address_views(chain_book@),
            ob == address_views(optional_book@),
            en == match enabled {
                Some(v) => Some(string_views(v@)),
                None => None::<Seq<Seq<char>>>,
            },
            finding_views(issues@) == portability_lines(ls, cb, ob, en, i as int),
        decreases n - i,
    {
        let line = lines[i].as_str();
        assert(ls[i as int] == line@);
        let mut found = line_issues(line, i + 1, chain_book, optional_book, enabled);
        let ghost prev = issues@;
        let ghost added = found@;
        issues.append(&mut found);
        proof {
            assert(finding_views(issues@) =~= finding_views(prev) + finding_views(added));
        }
        i = i + 1;
    }
    let mut gas = gas_limit_verdict(gas_limit);
    let ghost before = issues@;
    let ghost added = gas@;
    issues.append(&mut gas);
    proof {
        assert(finding_views(issues@) =~= finding_views(before) + finding_views(added));
    }
    assert(finding_views(issues@) =~= portability_candidates(code@, cb, ob, gas_limit, en));
    let out = dedup_findings(&issues);
    proof {
        lemma_portability_findings_bounded(code@, cb, ob, gas_limit, en);
    }
    out
}

/// Answers a job with the portability findings of its source text, using
/// the job's deployment context when it has one.
pub fn analyze_portability_v3(job: &AnalysisJob, registry: &Registry) -> (r: AnalysisResult)
    ensures
        r.job_id@ == job.job_id@,
        r.worker_name@ == PORTABILITY_WORKER_NAME@,
        finding_views(r.output@) == portability_findings(
            job.source_code@,
            address_views(registry.chain_specific@),
            address_views(registry.optional_precompiles@),
            context_gas_limit(job.context),
            context_enabled(job.context),
        ),
        lines_within(finding_views(r.output@), lines_of(job.source_code@).len()),
{
    let (gas_limit, enabled) = match &job.context {
        Some(c) => (c.gas_limit, c.enabled_precompiles.as_ref()),
        None => (None, None),
    };
    let output = portability_issues(
        job.source_code.as_str(),
        &registry.chain_specific,
        &registry.optional_precompiles,
        gas_limit,
        enabled,
    );
    AnalysisResult {
        job_id: job.job_id.clone(),
        worker_name: PORTABILITY_WORKER_NAME.to_owned(),
        output,
    }
}

} // verus!
