//! VM verification: checks, their aggregation, and shell quoting.
//!
//! The probes themselves run over SSH in the caller; the functions here turn
//! what the probes returned into checks and decide whether the build passed.

pub mod package;
pub mod probe;
pub mod requirements;

use crate::text::{decimal, push_decimal, push_str, replace_char, replace_char_str};
use vstd::prelude::*;

verus! {

/// Result of a single verification check.
#[derive(Debug, Clone)]
pub struct VerificationCheck {
    /// Name/label of the check.
    pub name: String,
    /// Whether the check passed.
    pub passed: bool,
    /// Optional diagnostic details.
    pub details: Option<String>,
}

/// Aggregate verification result across all checks.
#[derive(Debug, Clone)]
pub struct VerificationResult {
    /// Whether all checks passed.
    pub passed: bool,
    /// Individual check results.
    pub checks: Vec<VerificationCheck>,
    /// Total number of checks run.
    pub total: usize,
    /// How many checks passed.
    pub passed_count: usize,
    /// How many checks failed.
    pub failed_count: usize,
}

/// The checks of `s` whose outcome is `outcome`, in order.
pub open spec fn select(s: Seq<VerificationCheck>, outcome: bool) -> Seq<VerificationCheck>
    decreases s.len(),
{
    if s.len() == 0 {
        Seq::empty()
    } else {
        let prev = select(s.drop_last(), outcome);
        if s.last().passed == outcome {
            prev.push(s.last())
        } else {
            prev
        }
    }
}

/// Every check is either passed or failed.
pub proof fn lemma_select_partition(s: Seq<VerificationCheck>)
    ensures
        select(s, true).len() + select(s, false).len() == s.len(),
    decreases s.len(),
{
    if s.len() > 0 {
        lemma_select_partition(s.drop_last());
    }
}

/// The aggregate of a list of checks.
pub open spec fn aggregate(checks: Seq<VerificationCheck>) -> (bool, nat, nat, nat) {
    let passed_count = select(checks, true).len();
    let failed_count = (checks.len() - passed_count) as nat;
    (failed_count == 0, checks.len(), passed_count, failed_count)
}

/// The one-line summary of an aggregate.
pub open spec fn summary_text(passed: bool, total: nat, passed_count: nat, failed_count: nat) -> Seq<
    char,
> {
    if passed {
        "All "@ + decimal(total) + " checks passed"@
    } else {
        decimal(passed_count) + "/"@ + decimal(total) + " checks passed ("@ + decimal(failed_count)
            + " failed)"@
    }
}

impl VerificationResult {
    /// Builds the result of a list of checks, computing the aggregates.
    pub fn from_checks(checks: Vec<VerificationCheck>) -> (r: Self)
        ensures
            r.checks@ == checks@,
            r.total == checks@.len(),
            r.passed_count == select(checks@, true).len(),
            r.failed_count == select(checks@, false).len(),
            r.failed_count == r.total - r.passed_count,
            r.passed == (r.failed_count == 0),
    {
        let total = checks.len();
        let mut passed_count: usize = 0;
        let mut i: usize = 0;
        while i < checks.len()
            invariant
                i <= checks@.len(),
                passed_count == select(checks@.take(i as int), true).len(),
                passed_count <= i,
            decreases checks.len() - i,
        {
            proof {
                assert(checks@.take(i + 1).drop_last() =~= checks@.take(i as int));
            }
            if checks[i].passed {
                passed_count = passed_count + 1;
            }
            i = i + 1;
        }
        proof {
            assert(checks@.take(checks@.len() as int) =~= checks@);
            lemma_select_partition(checks@);
        }
        let failed_count = total - passed_count;
        VerificationResult {
            passed: failed_count == 0,
            checks,
            total,
            passed_count,
            failed_count,
        }
    }

    /// The checks that failed, in order.
    pub fn failed_checks(&self) -> (r: Vec<&VerificationCheck>)
        ensures
            r@.len() == select(self.checks@, false).len(),
            forall|i: int| 0 <= i < r@.len() ==> *r@[i] == select(self.checks@, false)[i],
    {
        let mut r: Vec<&VerificationCheck> = Vec::new();
        let mut i: usize = 0;
        while i < self.checks.len()
            invariant
                i <= self.checks@.len(),
                r@.len() == select(self.checks@.take(i as int), false).len(),
                forall|j: int|
                    0 <= j < r@.len() ==> *r@[j] == select(self.checks@.take(i as int), false)[j],
            decreases self.checks.len() - i,
        {
            proof {
                assert(self.checks@.take(i + 1).drop_last() =~= self.checks@.take(i as int));
            }
            if !self.checks[i].passed {
                r.push(&self.checks[i]);
            }
            i = i + 1;
        }
        assert(self.checks@.take(self.checks@.len() as int) =~= self.checks@);
        r
    }

    /// Human-readable one-line summary.
    pub fn summary(&self) -> (r: String)
        ensures
            r@ == summary_text(
                self.passed,
                self.total as nat,
                self.passed_count as nat,
                self.failed_count as nat,
            ),
    {
        let mut r = String::new();
        if self.passed {
            push_str(&mut r, "All ");
            push_decimal(&mut r, self.total as u64);
            push_str(&mut r, " checks passed");
        } else {
            push_decimal(&mut r, self.passed_count as u64);
            push_str(&mut r, "/");
            push_decimal(&mut r, self.total as u64);
            push_str(&mut r, " checks passed (");
            push_decimal(&mut r, self.failed_count as u64);
            push_str(&mut r, " failed)");
        }
        assert(r@ =~= summary_text(
            self.passed,
            self.total as nat,
            self.passed_count as nat,
            self.failed_count as nat,
        ));
        r
    }
}

/// Result of package verification with method and diagnostics.
#[derive(Debug, Clone)]
pub struct PackageVerificationResult {
    /// Package name that was verified.
    pub package: String,
    /// Whether the package is installed.
    pub installed: bool,
    /// Which method confirmed the install.
    pub method: VerificationMethod,
    /// Diagnostic info from the verification.
    pub details: PackageDetails,
}

/// Which method verified the package.
#[derive(Debug, Clone)]
pub enum VerificationMethod {
    /// Verified via `dpkg-query`.
    DpkgQuery,
    /// Verified via `dpkg -l`.
    DpkgList,
    /// Verified via `apt-cache`.
    AptCache,
    /// Installed as a dependency of another package.
    InstalledByDependency(String),
    /// All verification methods failed.
    AllFailed,
}

/// Package information gathered during verification.
#[derive(Debug, Clone)]
pub struct PackageDetails {
    /// Actual package name (may differ from the one requested).
    pub actual_name: Option<String>,
    /// Installed version.
    pub version: Option<String>,
    /// dpkg status line.
    pub dpkg_status: Option<String>,
    /// Packages that depend on this one.
    pub required_by: Vec<String>,
    /// Alternative package names that were checked.
    pub alternatives_checked: Vec<String>,
    /// Raw output of the verification command.
    pub raw_output: Option<String>,
}

/// Details with nothing recorded.
pub open spec fn empty_details(d: PackageDetails) -> bool {
    &&& d.actual_name is None
    &&& d.version is None
    &&& d.dpkg_status is None
    &&& d.required_by@.len() == 0
    &&& d.alternatives_checked@.len() == 0
    &&& d.raw_output is None
}

impl Default for PackageDetails {
    fn default() -> (r: Self)
        ensures
            empty_details(r),
    {
        PackageDetails {
            actual_name: None,
            version: None,
            dpkg_status: None,
            required_by: Vec::new(),
            alternatives_checked: Vec::new(),
            raw_output: None,
        }
    }
}

/// `s` wrapped in single quotes, each embedded single quote written as `'\''`.
pub open spec fn shell_quoted(s: Seq<char>) -> Seq<char> {
    seq!['\''] + replace_char(s, '\'', seq!['\'', '\\', '\'', '\'']) + seq!['\'']
}

/// Wraps a string in single quotes, escaping embedded quotes for shell safety.
pub fn shell_escape(s: &str) -> (r: String)
    ensures
        r@ == shell_quoted(s@),
{
    let inner = replace_char_str(s, '\'', "'\\''");
    proof {
        reveal_strlit("'\\''");
    }
    let mut r = String::new();
    push_str(&mut r, "'");
    push_str(&mut r, inner.as_str());
    push_str(&mut r, "'");
    proof {
        reveal_strlit("'");
        assert("'\\''"@ =~= seq!['\'', '\\', '\'', '\'']);
    }
    assert(r@ =~= shell_quoted(s@));
    r
}

/// The word a POSIX shell reads from `t` made of single-quoted text,
/// backslash-escaped characters and plain characters (`quoted` tells whether
/// reading starts inside single quotes).
pub open spec fn shell_word(t: Seq<char>, quoted: bool) -> Seq<char>
    decreases t.len(),
{
    if t.len() == 0 {
        Seq::empty()
    } else if quoted {
        if t[0] == '\'' {
            shell_word(t.drop_first(), false)
        } else {
            seq![t[0]] + shell_word(t.drop_first(), true)
        }
    } else if t[0] == '\'' {
        shell_word(t.drop_first(), true)
    } else if t[0] == '\\' && t.len() >= 2 {
        seq![t[1]] + shell_word(t.subrange(2, t.len() as int), false)
    } else {
        seq![t[0]] + shell_word(t.drop_first(), false)
    }
}

/// Replacement distributes over concatenation.
pub proof fn lemma_replace_char_append(a: Seq<char>, b: Seq<char>, from: char, to: Seq<char>)
    ensures
        replace_char(a + b, from, to) == replace_char(a, from, to) + replace_char(b, from, to),
    decreases b.len(),
{
    if b.len() == 0 {
        assert(a + b =~= a);
        assert(replace_char(a, from, to) + Seq::<char>::empty() =~= replace_char(a, from, to));
    } else {
        lemma_replace_char_append(a, b.drop_last(), from, to);
        assert((a + b).drop_last() =~= a + b.drop_last());
        assert((a + b).last() == b.last());
        if b.last() == from {
            assert(replace_char(a, from, to) + replace_char(b.drop_last(), from, to) + to
                =~= replace_char(a, from, to) + (replace_char(b.drop_last(), from, to) + to));
        } else {
            assert((replace_char(a, from, to) + replace_char(b.drop_last(), from, to)).push(b.last())
                =~= replace_char(a, from, to) + replace_char(b.drop_last(), from, to).push(
                b.last(),
            ));
        }
    }
}

proof fn lemma_shell_word_escaped(s: Seq<char>, rest: Seq<char>)
    ensures
        shell_word(
            replace_char(s, '\'', seq!['\'', '\\', '\'', '\'']) + seq!['\''] + rest,
            true,
        ) == s + shell_word(rest, false),
    decreases s.len(),
{
    let q = seq!['\'', '\\', '\'', '\''];
    if s.len() == 0 {
        let t = replace_char(s, '\'', q) + seq!['\''] + rest;
        assert(t =~= seq!['\''] + rest);
        assert(t.drop_first() =~= rest);
        assert(t[0] == '\'');
        assert(shell_word(t, true) == shell_word(t.drop_first(), false));
        assert(s + shell_word(rest, false) =~= shell_word(rest, false));
    } else {
        let c = s[0];
        let s1 = s.drop_first();
        lemma_shell_word_escaped(s1, rest);
        assert(s =~= seq![c] + s1);
        lemma_replace_char_append(seq![c], s1, '\'', q);
        let x = replace_char(s1, '\'', q) + seq!['\''] + rest;
        assert(seq![c].drop_last() =~= Seq::<char>::empty());
        assert(seq![c].last() == c);
        assert(replace_char(Seq::<char>::empty(), '\'', q) =~= Seq::<char>::empty());
        assert(replace_char(seq![c], '\'', q) == if c == '\'' {
            replace_char(seq![c].drop_last(), '\'', q) + q
        } else {
            replace_char(seq![c].drop_last(), '\'', q).push(c)
        });
        if c == '\'' {
            assert(replace_char(seq![c], '\'', q) =~= q);
            let t = q + x;
            assert(replace_char(s, '\'', q) + seq!['\''] + rest =~= t);
            assert(t.drop_first() =~= seq!['\\', '\'', '\''] + x);
            let t1 = seq!['\\', '\'', '\''] + x;
            assert(t1.subrange(2, t1.len() as int) =~= seq!['\''] + x);
            let t2 = seq!['\''] + x;
            assert(t2.drop_first() =~= x);
            assert(t[0] == '\'');
            assert(shell_word(t, true) == shell_word(t1, false));
            assert(t1[0] == '\\' && t1.len() >= 2 && t1[1] == '\'');
            assert(shell_word(t1, false) == seq!['\''] + shell_word(t2, false));
            assert(t2[0] == '\'');
            assert(shell_word(t2, false) == shell_word(x, true));
            assert(seq![c] + (s1 + shell_word(rest, false)) =~= s + shell_word(rest, false));
        } else {
            assert(replace_char(seq![c], '\'', q) =~= seq![c]);
            let t = seq![c] + x;
            assert(replace_char(s, '\'', q) + seq!['\''] + rest =~= t);
            assert(t.drop_first() =~= x);
            assert(t[0] == c);
            assert(shell_word(t, true) == seq![c] + shell_word(x, true));
            assert(seq![c] + (s1 + shell_word(rest, false)) =~= s + shell_word(rest, false));
        }
    }
}

/// A shell reading the quoted form of `s` gets back exactly `s`.
pub proof fn law_shell_escape_roundtrip(s: Seq<char>)
    ensures
        shell_word(shell_quoted(s), false) == s,
{
    let q = seq!['\'', '\\', '\'', '\''];
    let t = shell_quoted(s);
    assert(t.drop_first() =~= replace_char(s, '\'', q) + seq!['\''] + Seq::<char>::empty());
    lemma_shell_word_escaped(s, Seq::<char>::empty());
    assert(s + Seq::<char>::empty() =~= s);
}

/// The aggregate counts add up: every check is counted as passed or failed.
pub proof fn law_counts_partition(checks: Seq<VerificationCheck>)
    ensures
        select(checks, true).len() + select(checks, false).len() == checks.len(),
        (select(checks, false).len() == 0) <==> (select(checks, true).len() == checks.len()),
{
    lemma_select_partition(checks);
}

} // verus!
