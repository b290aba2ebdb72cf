//! Finding model: severity taxonomy, individual findings, and the result of
//! scanning one target.

use vstd::prelude::*;

verus! {

/// How serious a finding is. The order is total:
/// `Critical > High > Medium > Low > Info`.
#[derive(Debug, Clone, Copy, PartialEq, Eq, Structural)]
pub enum Severity {
    Critical,
    High,
    Medium,
    Low,
    Info,
}

impl Severity {
    /// Rank of this severity in the total order; larger is more severe.
    pub open spec fn spec_rank(self) -> int {
        match self {
            Severity::Critical => 4,
            Severity::High => 3,
            Severity::Medium => 2,
            Severity::Low => 1,
            Severity::Info => 0,
        }
    }

    /// Rank of this severity in the total order; larger is more severe.
    pub fn rank(&self) -> (r: u8)
        ensures
            r as int == self.spec_rank(),
    {
        match self {
            Severity::Critical => 4,
            Severity::High => 3,
            Severity::Medium => 2,
            Severity::Low => 1,
            Severity::Info => 0,
        }
    }

    /// The canonical uppercase label of this severity.
    pub fn as_str(&self) -> (s: &str)
        ensures
            self == Severity::Critical ==> s@ == "CRITICAL"@,
            self == Severity::High ==> s@ == "HIGH"@,
            self == Severity::Medium ==> s@ == "MEDIUM"@,
            self == Severity::Low ==> s@ == "LOW"@,
            self == Severity::Info ==> s@ == "INFO"@,
    {
        match self {
            Severity::Critical => "CRITICAL",
            Severity::High => "HIGH",
            Severity::Medium => "MEDIUM",
            Severity::Low => "LOW",
            Severity::Info => "INFO",
        }
    }
}

/// Mathematical value of a [`SecurityIssue`]: the same four fields, with the
/// strings as character sequences.
#[verifier::ext_equal]
pub ghost struct IssueView {
    pub category: Seq<char>,
    pub severity: Severity,
    pub message: Seq<char>,
    pub recommendation: Seq<char>,
}

/// One finding: which rule group it came from, how serious it is, what was
/// observed and how to fix it. All four fields are set on creation and never
/// change.
#[derive(Debug, Clone)]
pub struct SecurityIssue {
    pub category: String,
    pub severity: Severity,
    pub message: String,
    pub recommendation: String,
}

impl View for SecurityIssue {
    type V = IssueView;

    open spec fn view(&self) -> IssueView {
        IssueView {
            category: self.category@,
            severity: self.severity,
            message: self.message@,
            recommendation: self.recommendation@,
        }
    }
}

impl DeepView for SecurityIssue {
    type V = IssueView;

    open spec fn deep_view(&self) -> IssueView {
        self.view()
    }
}

/// The finding with the given four parts, as a mathematical value.
pub open spec fn iv(cat: Seq<char>, sev: Severity, msg: Seq<char>, rec: Seq<char>) -> IssueView {
    IssueView { category: cat, severity: sev, message: msg, recommendation: rec }
}

/// Build a finding from its four parts.
pub fn mk_issue(category: &str, severity: Severity, message: &str, recommendation: &str) -> (r:
    SecurityIssue)
    ensures
        r@ == iv(category@, severity, message@, recommendation@),
{
    SecurityIssue {
        category: category.to_owned(),
        severity,
        message: message.to_owned(),
        recommendation: recommendation.to_owned(),
    }
}

/// Build a finding whose message was put together at run time.
pub fn mk_issue_msg(category: &str, severity: Severity, message: String, recommendation: &str) -> (r:
    SecurityIssue)
    ensures
        r@ == iv(category@, severity, message@, recommendation@),
{
    SecurityIssue {
        category: category.to_owned(),
        severity,
        message,
        recommendation: recommendation.to_owned(),
    }
}

/// Append one finding, extending the collection's mathematical value by its
/// view.
pub fn push_issue(issues: &mut Vec<SecurityIssue>, issue: SecurityIssue)
    ensures
        final(issues).deep_view() == old(issues).deep_view().push(issue@),
{
    let ghost before = issues.deep_view();
    let ghost added = issue@;
    issues.push(issue);
    proof {
        assert(issues.deep_view() =~= before.push(added));
    }
}

/// Number of findings in `issues` whose severity is exactly `sev`.
pub open spec fn count_sev(issues: Seq<IssueView>, sev: Severity) -> int
    decreases issues.len(),
{
    if issues.len() == 0 {
        0
    } else {
        count_sev(issues.drop_last(), sev) + if issues.last().severity == sev {
            1int
        } else {
            0int
        }
    }
}

proof fn lemma_count_sev_bounds(issues: Seq<IssueView>, sev: Severity)
    ensures
        0 <= count_sev(issues, sev) <= issues.len(),
    decreases issues.len(),
{
    if issues.len() > 0 {
        lemma_count_sev_bounds(issues.drop_last(), sev);
    }
}

/// Mathematical value of a [`ScanResult`].
#[verifier::ext_equal]
pub ghost struct ScanResultView {
    pub url: Seq<char>,
    pub status: u16,
    pub issues: Seq<IssueView>,
}

/// Everything a scan of one target produced: the final URL (after
/// redirects), the response status, and the findings in the order the rule
/// groups ran.
#[derive(Clone)]
pub struct ScanResult {
    pub url: String,
    pub status: u16,
    pub issues: Vec<SecurityIssue>,
}

impl View for ScanResult {
    type V = ScanResultView;

    open spec fn view(&self) -> ScanResultView {
        ScanResultView { url: self.url@, status: self.status, issues: self.issues.deep_view() }
    }
}

impl ScanResult {
    /// Number of findings with severity exactly `severity`.
    pub fn count_by_severity(&self, severity: &Severity) -> (n: usize)
        ensures
            n == count_sev(self@.issues, *severity),
    {
        proof {
            lemma_count_sev_bounds(self@.issues, *severity);
        }
        let mut n: usize = 0;
        let mut i: usize = 0;
        while i < self.issues.len()
            invariant
                i <= self.issues.len(),
                n == count_sev(self@.issues.subrange(0, i as int), *severity),
                n <= i,
            decreases self.issues.len() - i,
        {
            proof {
                assert(self@.issues.subrange(0, i + 1).drop_last() =~= self@.issues.subrange(
                    0,
                    i as int,
                ));
                assert(self@.issues.subrange(0, i + 1).last() == self@.issues[i as int]);
            }
            if self.issues[i].severity == *severity {
                n = n + 1;
            }
            i = i + 1;
        }
        proof {
            assert(self@.issues.subrange(0, self.issues.len() as int) =~= self@.issues);
        }
        n
    }

    /// Whether any finding has severity `Critical`.
    pub fn has_critical(&self) -> (b: bool)
        ensures
            b == exists|i: int|
                0 <= i < self@.issues.len() && self@.issues[i].severity == Severity::Critical,
    {
        let mut i: usize = 0;
        while i < self.issues.len()
            invariant
                i <= self.issues.len(),
                forall|j: int|
                    0 <= j < i ==> self@.issues[j].severity != Severity::Critical,
            decreases self.issues.len() - i,
        {
            if self.issues[i].severity == Severity::Critical {
                assert(self@.issues[i as int].severity == Severity::Critical);
                return true;
            }
            i = i + 1;
        }
        false
    }
}

/// Every field of the finding is non-empty text.
pub open spec fn fields_nonempty(i: IssueView) -> bool {
    i.category.len() > 0 && i.message.len() > 0 && i.recommendation.len() > 0
}

/// Every finding in the list has non-empty fields.
pub open spec fn all_fields_nonempty(s: Seq<IssueView>) -> bool {
    forall|i: int| 0 <= i < s.len() ==> fields_nonempty(#[trigger] s[i])
}

/// Non-emptiness of fields carries over concatenation.
pub proof fn lemma_nonempty_concat(a: Seq<IssueView>, b: Seq<IssueView>)
    requires
        all_fields_nonempty(a),
        all_fields_nonempty(b),
    ensures
        all_fields_nonempty(a + b),
{
    assert forall|i: int| 0 <= i < (a + b).len() implies fields_nonempty((a + b)[i]) by {
        if i < a.len() {
            assert((a + b)[i] == a[i]);
        } else {
            assert((a + b)[i] == b[i - a.len()]);
        }
    }
}

/// The ranks order the severities totally: two severities share a rank only
/// when they are the same severity.
pub proof fn lemma_severity_rank_total(a: Severity, b: Severity)
    ensures
        a.spec_rank() == b.spec_rank() <==> a == b,
{
}

/// A `Critical` finding exists exactly when the `Critical` count is
/// positive: the two aggregate queries agree.
pub proof fn lemma_critical_count(issues: Seq<IssueView>)
    ensures
        count_sev(issues, Severity::Critical) > 0 <==> exists|i: int|
            0 <= i < issues.len() && issues[i].severity == Severity::Critical,
    decreases issues.len(),
{
    lemma_count_sev_bounds(issues, Severity::Critical);
    if issues.len() > 0 {
        lemma_critical_count(issues.drop_last());
        lemma_count_sev_bounds(issues.drop_last(), Severity::Critical);
        if count_sev(issues, Severity::Critical) > 0 {
            if issues.last().severity == Severity::Critical {
                assert(issues[issues.len() - 1].severity == Severity::Critical);
            } else {
                let i = choose|i: int|
                    0 <= i < issues.drop_last().len() && issues.drop_last()[i].severity
                        == Severity::Critical;
                assert(issues[i].severity == Severity::Critical);
            }
        }
        if exists|i: int| 0 <= i < issues.len() && issues[i].severity == Severity::Critical {
            let i = choose|i: int|
                0 <= i < issues.len() && issues[i].severity == Severity::Critical;
            if i < issues.len() - 1 {
                assert(issues.drop_last()[i].severity == Severity::Critical);
            }
        }
    }
}

/// The sum of `count_by_severity` over the five severities is the number of
/// findings: every finding carries exactly one severity.
pub proof fn lemma_severity_counts_partition(issues: Seq<IssueView>)
    ensures
        count_sev(issues, Severity::Critical) + count_sev(issues, Severity::High) + count_sev(
            issues,
            Severity::Medium,
        ) + count_sev(issues, Severity::Low) + count_sev(issues, Severity::Info) == issues.len(),
    decreases issues.len(),
{
    if issues.len() > 0 {
        lemma_severity_counts_partition(issues.drop_last());
    }
}

} // verus!
