//! Findings, the job and result records, and deduplication.
use vstd::prelude::*;

verus! {

/// One reported issue. Line 0 stands for the whole file.
#[derive(Clone, Debug, PartialEq, Eq, Hash)]
pub struct Finding {
    pub line: usize,
    pub category: String,
    pub description: String,
    pub recommendation: String,
}

/// The content of a finding; two findings are duplicates when their views
/// are equal.
pub struct FindingView {
    pub line: nat,
    pub category: Seq<char>,
    pub description: Seq<char>,
    pub recommendation: Seq<char>,
}

impl View for Finding {
    type V = FindingView;

    open spec fn view(&self) -> FindingView {
        FindingView {
            line: self.line as nat,
            category: self.category@,
            description: self.description@,
            recommendation: self.recommendation@,
        }
    }
}

/// The finding with the given fields.
pub open spec fn finding_of(
    line: nat,
    category: Seq<char>,
    description: Seq<char>,
    recommendation: Seq<char>,
) -> FindingView {
    FindingView { line, category, description, recommendation }
}

/// The views of a sequence of findings.
pub open spec fn finding_views(s: Seq<Finding>) -> Seq<FindingView> {
    s.map_values(|f: Finding| f@)
}

impl Finding {
    pub fn new(line: usize, category: &str, description: &str, recommendation: &str) -> (r:
        Finding)
        ensures
            r@ == finding_of(line as nat, category@, description@, recommendation@),
    {
        Finding {
            line,
            category: category.to_owned(),
            description: description.to_owned(),
            recommendation: recommendation.to_owned(),
        }
    }

    /// A copy with the same content.
    pub fn duplicate(&self) -> (r: Finding)
        ensures
            r@ == self@,
    {
        Finding {
            line: self.line,
            category: self.category.clone(),
            description: self.description.clone(),
            recommendation: self.recommendation.clone(),
        }
    }

    /// Whether the two findings agree in all four fields.
    pub fn same_as(&self, other: &Finding) -> (r: bool)
        ensures
            r == (self@ == other@),
    {
        self.line == other.line && self.category == other.category && self.description
            == other.description && self.recommendation == other.recommendation
    }
}

/// A single finding on line `number` when `fires`, else none.
pub open spec fn finding_if(
    fires: bool,
    number: nat,
    category: Seq<char>,
    description: Seq<char>,
    recommendation: Seq<char>,
) -> Seq<FindingView> {
    if fires {
        seq![finding_of(number, category, description, recommendation)]
    } else {
        Seq::empty()
    }
}

/// Appends the finding to `out` when `fires`.
pub fn push_finding_if(
    out: &mut Vec<Finding>,
    fires: bool,
    number: usize,
    category: &str,
    description: &str,
    recommendation: &str,
)
    ensures
        finding_views(final(out)@) == finding_views(old(out)@) + finding_if(
            fires,
            number as nat,
            category@,
            description@,
            recommendation@,
        ),
{
    let ghost before = out@;
    if fires {
        out.push(Finding::new(number, category, description, recommendation));
    }
    assert(finding_views(out@) =~= finding_views(before) + finding_if(
        fires,
        number as nat,
        category@,
        description@,
        recommendation@,
    ));
}

// ---------------------------------------------------------------------------
// Deduplication
// ---------------------------------------------------------------------------

/// `s` with every element after its first occurrence removed.
pub open spec fn dedup<A>(s: Seq<A>) -> Seq<A>
    decreases s.len(),
{
    if s.len() == 0 {
        s
    } else {
        let d = dedup(s.drop_last());
        if d.contains(s.last()) {
            d
        } else {
            d.push(s.last())
        }
    }
}

/// Deduplication keeps exactly the elements of its input.
pub proof fn lemma_dedup_same_elements<A>(s: Seq<A>)
    ensures
        forall|x: A| #[trigger] dedup(s).contains(x) <==> s.contains(x),
    decreases s.len(),
{
    if s.len() > 0 {
        let p = s.drop_last();
        lemma_dedup_same_elements(p);
        assert forall|x: A| #[trigger] dedup(s).contains(x) <==> s.contains(x) by {
            if s.contains(x) {
                let i = choose|i: int| 0 <= i < s.len() && s[i] == x;
                if i < s.len() - 1 {
                    assert(p[i] == x);
                }
            }
            if p.contains(x) {
                let i = choose|i: int| 0 <= i < p.len() && p[i] == x;
                assert(s[i] == x);
            }
            assert(s[s.len() - 1] == s.last());
            let d = dedup(p);
            if !d.contains(s.last()) {
                let e = d.push(s.last());
                if e.contains(x) {
                    let i = choose|i: int| 0 <= i < e.len() && e[i] == x;
                    if i < d.len() {
                        assert(d[i] == x);
                    }
                }
                if d.contains(x) {
                    let i = choose|i: int| 0 <= i < d.len() && d[i] == x;
                    assert(e[i] == x);
                }
                assert(e[d.len() as int] == s.last());
            }
        }
    }
}

/// Deduplication leaves no element twice.
pub proof fn lemma_dedup_no_duplicates<A>(s: Seq<A>)
    ensures
        dedup(s).no_duplicates(),
    decreases s.len(),
{
    if s.len() > 0 {
        lemma_dedup_no_duplicates(s.drop_last());
    }
}

/// A sequence without repeated elements is its own deduplication.
pub proof fn lemma_dedup_of_distinct<A>(s: Seq<A>)
    requires
        s.no_duplicates(),
    ensures
        dedup(s) == s,
    decreases s.len(),
{
    if s.len() > 0 {
        let p = s.drop_last();
        assert(p.no_duplicates());
        lemma_dedup_of_distinct(p);
        assert(!p.contains(s.last()));
        assert(p.push(s.last()) =~= s);
    }
}

/// An element of either part is an element of the concatenation.
pub proof fn lemma_contains_concat<A>(a: Seq<A>, b: Seq<A>, x: A)
    ensures
        (a + b).contains(x) <==> (a.contains(x) || b.contains(x)),
{
    if a.contains(x) {
        let i = choose|i: int| 0 <= i < a.len() && a[i] == x;
        assert((a + b)[i] == x);
    }
    if b.contains(x) {
        let i = choose|i: int| 0 <= i < b.len() && b[i] == x;
        assert((a + b)[a.len() + i] == x);
    }
    if (a + b).contains(x) {
        let i = choose|i: int| 0 <= i < (a + b).len() && (a + b)[i] == x;
        if i < a.len() {
            assert(a[i] == x);
        } else {
            assert(b[i - a.len()] == x);
        }
    }
}

/// Deduplicating an already deduplicated sequence changes nothing.
pub proof fn lemma_dedup_idempotent<A>(s: Seq<A>)
    ensures
        dedup(dedup(s)) == dedup(s),
{
    lemma_dedup_no_duplicates(s);
    lemma_dedup_of_distinct(dedup(s));
}

/// Every finding of `s` reports line `n` or an earlier one (or line 0).
pub open spec fn lines_within(s: Seq<FindingView>, n: nat) -> bool {
    forall|k: int| 0 <= k < s.len() ==> #[trigger] s[k].line <= n
}

/// A line bound holds for every larger bound.
pub proof fn lemma_lines_within_mono(s: Seq<FindingView>, a: nat, b: nat)
    requires
        lines_within(s, a),
        a <= b,
    ensures
        lines_within(s, b),
{
}

/// Joining two sequences keeps a line bound that both meet.
pub proof fn lemma_lines_within_concat(a: Seq<FindingView>, b: Seq<FindingView>, n: nat)
    requires
        lines_within(a, n),
        lines_within(b, n),
    ensures
        lines_within(a + b, n),
{
    assert forall|k: int| 0 <= k < (a + b).len() implies #[trigger] (a + b)[k].line <= n by {
        if k < a.len() {
            assert((a + b)[k] == a[k]);
        } else {
            assert((a + b)[k] == b[k - a.len()]);
        }
    }
}

/// Deduplication keeps the line bound of its input.
pub proof fn lemma_dedup_lines_within(s: Seq<FindingView>, n: nat)
    requires
        lines_within(s, n),
    ensures
        lines_within(dedup(s), n),
{
    lemma_dedup_same_elements(s);
    let d = dedup(s);
    assert forall|k: int| 0 <= k < d.len() implies #[trigger] d[k].line <= n by {
        assert(d.contains(d[k]));
        assert(s.contains(d[k]));
        let i = choose|i: int| 0 <= i < s.len() && s[i] == d[k];
        assert(s[i].line <= n);
    }
}

/// Whether some element of `v` has the same content as `f`.
fn holds_finding(v: &Vec<Finding>, f: &Finding) -> (r: bool)
    ensures
        r == finding_views(v@).contains(f@),
{
    let mut i: usize = 0;
    while i < v.len()
        invariant
            i <= v@.len(),
            forall|j: int| 0 <= j < i ==> v@[j]@ != f@,
        decreases v@.len() - i,
    {
        if v[i].same_as(f) {
            assert(finding_views(v@)[i as int] == f@);
            return true;
        }
        i = i + 1;
    }
    assert(!finding_views(v@).contains(f@)) by {
        if finding_views(v@).contains(f@) {
            let j = choose|j: int| 0 <= j < v@.len() && finding_views(v@)[j] == f@;
            assert(v@[j]@ == f@);
        }
    }
    false
}

/// The findings of `items` with structural duplicates removed; the first
/// occurrence of each is kept, in order.
pub fn dedup_findings(items: &Vec<Finding>) -> (r: Vec<Finding>)
    ensures
        finding_views(r@) == dedup(finding_views(items@)),
{
    let mut out: Vec<Finding> = Vec::new();
    let mut i: usize = 0;
    while i < items.len()
        invariant
            i <= items@.len(),
            finding_views(out@) == dedup(finding_views(items@).take(i as int)),
        decreases items@.len() - i,
    {
        let ghost s = finding_views(items@).take(i + 1);
        assert(s.drop_last() =~= finding_views(items@).take(i as int));
        assert(s.last() == items@[i as int]@);
        if !holds_finding(&out, &items[i]) {
            let f = items[i].duplicate();
            let ghost before = out@;
            out.push(f);
            assert(finding_views(out@) =~= finding_views(before).push(f@));
        }
        i = i + 1;
    }
    assert(finding_views(items@).take(items@.len() as int) =~= finding_views(items@));
    out
}

// ---------------------------------------------------------------------------
// Jobs and results
// ---------------------------------------------------------------------------

/// Metadata of the deployment target that some detectors consult.
#[derive(Clone, Debug)]
pub struct ExternalContext {
    /// The target's block gas limit, when known.
    pub gas_limit: Option<u64>,
    /// The precompile addresses enabled on the target, when known.
    pub enabled_precompiles: Option<Vec<String>>,
}

/// One submission: an opaque identifier, the source text, and optional
/// metadata of the deployment target.
#[derive(Clone, Debug)]
pub struct AnalysisJob {
    pub job_id: String,
    pub source_code: String,
    pub context: Option<ExternalContext>,
}

/// The answer to one job.
#[derive(Clone, Debug)]
pub struct AnalysisResult {
    pub job_id: String,
    pub worker_name: String,
    pub output: Vec<Finding>,
}

} // verus!
