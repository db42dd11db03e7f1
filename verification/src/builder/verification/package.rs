//! Robust package verification: the probe commands and the reading of their output.
//!
//! Package installation is confirmed by several methods in turn: `dpkg-query`,
//! `dpkg -l`, `apt-cache policy`, and finally whether an installed package
//! depends on it. When all fail, diagnostics about name variants are gathered.

use super::{shell_escape, shell_quoted, PackageDetails, PackageVerificationResult, VerificationMethod};
use crate::text::{
    concat2, contains, has_char, has_infix, has_prefix, lines, lines_of, owned, push_str, split_char,
    split_on, starts_with, str_eq, trim, trim_str, views, words, words_of, replace_char,
    replace_char_str,
};
use vstd::prelude::*;

verus! {

/// The view of an optional string.
pub open spec fn opt_view(o: Option<String>) -> Option<Seq<char>> {
    match o {
        Some(s) => Some(s@),
        None => None,
    }
}

/// The first line of a text, or the empty string.
pub open spec fn first_line(output: Seq<char>) -> Seq<char> {
    if lines(output).len() > 0 {
        lines(output)[0]
    } else {
        Seq::empty()
    }
}

/// The first line of a text, or the empty string (as `lines().next().unwrap_or("")`).
pub fn first_line_of(output: &str) -> (r: String)
    ensures
        r@ == first_line(output@),
{
    let ls = lines_of(output);
    if ls.len() > 0 {
        assert(views(ls@)[0] == ls@[0]@);
        ls[0].clone()
    } else {
        String::new()
    }
}

// ---------------------------------------------------------------------------
// Method 1: dpkg-query
// ---------------------------------------------------------------------------

/// The `dpkg-query` probe for `package`.
pub open spec fn dpkg_query_command_text(package: Seq<char>) -> Seq<char> {
    "dpkg-query -W -f='${Status}|${Version}|${Package}' "@ + shell_quoted(package) + " 2>&1"@
}

/// The `dpkg-query` probe for `package`.
pub fn dpkg_query_command(package: &str) -> (r: String)
    ensures
        r@ == dpkg_query_command_text(package@),
{
    let mut r = owned("dpkg-query -W -f='${Status}|${Version}|${Package}' ");
    let q = shell_escape(package);
    push_str(&mut r, q.as_str());
    push_str(&mut r, " 2>&1");
    r
}

/// The name queried in the second `dpkg-query` attempt: the package with the
/// `:amd64` architecture suffix, when it has no `:` yet.
pub open spec fn arch_variant_text(package: Seq<char>) -> Option<Seq<char>> {
    if package.contains(':') {
        None
    } else {
        Some(package + ":amd64"@)
    }
}

/// The name queried in the second `dpkg-query` attempt, if any.
pub fn arch_variant(package: &str) -> (r: Option<String>)
    ensures
        opt_view(r) == arch_variant_text(package@),
{
    if has_char(package, ':') {
        None
    } else {
        Some(concat2(package, ":amd64"))
    }
}

/// What a `dpkg-query` answer says: installed when it holds `install ok installed`;
/// the fields are `status|version|package`. `queried` is the name recorded as the
/// actual name, when given; otherwise the third field is.
pub open spec fn dpkg_query_reading(
    package: Seq<char>,
    queried: Option<Seq<char>>,
    output: Seq<char>,
    r: Option<PackageVerificationResult>,
) -> bool {
    let parts = split_on(output, '|');
    if has_infix(output, "install ok installed"@) {
        r matches Some(res) && {
            &&& res.package@ == package
            &&& res.installed
            &&& res.method is DpkgQuery
            &&& opt_view(res.details.actual_name) == match queried {
                Some(q) => Some(q),
                None => if parts.len() > 2 {
                    Some(trim(parts[2]))
                } else {
                    None
                },
            }
            &&& opt_view(res.details.version) == if parts.len() > 1 {
                Some(trim(parts[1]))
            } else {
                None
            }
            &&& opt_view(res.details.dpkg_status) == Some(trim(parts[0]))
            &&& res.details.required_by@.len() == 0
            &&& res.details.alternatives_checked@.len() == 0
            &&& res.details.raw_output is None
        }
    } else {
        r is None
    }
}

/// Reads a `dpkg-query` answer for `package`; `queried` is the name that was
/// queried when it differs from `package`.
pub fn dpkg_query_outcome(package: &str, queried: Option<&str>, output: &str) -> (r: Option<
    PackageVerificationResult,
>)
    ensures
        dpkg_query_reading(
            package@,
            match queried {
                Some(q) => Some(q@),
                None => None,
            },
            output@,
            r,
        ),
{
    if !contains(output, "install ok installed") {
        return None;
    }
    let parts = split_char(output, '|');
    proof {
        crate::text::lemma_split_on_nonempty(output@, '|');
    }
    let ghost p = split_on(output@, '|');
    assert(views(parts@) == p);
    let actual_name = match queried {
        Some(q) => Some(owned(q)),
        None => if parts.len() > 2 {
            assert(parts@[2]@ == p[2]);
            Some(trim_str(parts[2].as_str()))
        } else {
            None
        },
    };
    let version = if parts.len() > 1 {
        assert(parts@[1]@ == p[1]);
        Some(trim_str(parts[1].as_str()))
    } else {
        None
    };
    assert(parts@[0]@ == p[0]);
    let status = trim_str(parts[0].as_str());
    Some(
        PackageVerificationResult {
            package: owned(package),
            installed: true,
            method: VerificationMethod::DpkgQuery,
            details: PackageDetails {
                actual_name,
                version,
                dpkg_status: Some(status),
                required_by: Vec::new(),
                alternatives_checked: Vec::new(),
                raw_output: None,
            },
        },
    )
}

// ---------------------------------------------------------------------------
// Method 2: dpkg -l
// ---------------------------------------------------------------------------

/// The `dpkg -l` probe for `package`.
pub open spec fn dpkg_list_command_text(package: Seq<char>) -> Seq<char> {
    "dpkg -l "@ + shell_quoted(package) + " 2>&1"@
}

/// The `dpkg -l` probe for `package`.
pub fn dpkg_list_command(package: &str) -> (r: String)
    ensures
        r@ == dpkg_list_command_text(package@),
{
    let mut r = owned("dpkg -l ");
    let q = shell_escape(package);
    push_str(&mut r, q.as_str());
    push_str(&mut r, " 2>&1");
    r
}

/// The wildcard `dpkg -l` probe (any architecture suffix) for `package`.
pub open spec fn dpkg_list_wildcard_command_text(package: Seq<char>) -> Seq<char> {
    "dpkg -l '"@ + shell_quoted(package) + ":*' 2>&1"@
}

/// The wildcard `dpkg -l` probe for `package`.
pub fn dpkg_list_wildcard_command(package: &str) -> (r: String)
    ensures
        r@ == dpkg_list_wildcard_command_text(package@),
{
    let mut r = owned("dpkg -l '");
    let q = shell_escape(package);
    push_str(&mut r, q.as_str());
    push_str(&mut r, ":*' 2>&1");
    r
}

/// Whether the wildcard probe applies: the name has neither `:` nor `*`.
pub fn wildcard_applies(package: &str) -> (r: bool)
    ensures
        r == (!package@.contains(':') && !package@.contains('*')),
{
    !has_char(package, ':') && !has_char(package, '*')
}

/// An installed line of `dpkg -l` (`ii` status, at least three fields); with
/// `exact`, its package field must also be `package` or `package:<arch>`.
pub open spec fn dpkg_line_matches(package: Seq<char>, exact: bool, l: Seq<char>) -> bool {
    let w = words(l);
    &&& has_prefix(l, "ii"@)
    &&& w.len() >= 3
    &&& (exact ==> (w[1] == package || has_prefix(w[1], package + ":"@)))
}

/// Index of the first line at or after `i` that matches, or `ls.len()`.
pub open spec fn first_dpkg_line(ls: Seq<Seq<char>>, package: Seq<char>, exact: bool, i: int) -> int
    decreases ls.len() - i,
{
    if i < 0 || i >= ls.len() {
        ls.len() as int
    } else if dpkg_line_matches(package, exact, ls[i]) {
        i
    } else {
        first_dpkg_line(ls, package, exact, i + 1)
    }
}

/// What a `dpkg -l` answer says: the first matching line gives the actual
/// name and version; no matching line, nothing.
pub open spec fn dpkg_list_reading(
    package: Seq<char>,
    exact: bool,
    output: Seq<char>,
    r: Option<PackageVerificationResult>,
) -> bool {
    let ls = lines(output);
    let k = first_dpkg_line(ls, package, exact, 0);
    if k < ls.len() {
        r matches Some(res) && {
            &&& res.package@ == package
            &&& res.installed
            &&& res.method is DpkgList
            &&& opt_view(res.details.actual_name) == Some(words(ls[k])[1])
            &&& opt_view(res.details.version) == Some(words(ls[k])[2])
            &&& opt_view(res.details.dpkg_status) == Some("ii"@)
            &&& opt_view(res.details.raw_output) == Some(ls[k])
            &&& res.details.required_by@.len() == 0
            &&& res.details.alternatives_checked@.len() == 0
        }
    } else {
        r is None
    }
}

fn dpkg_line_check(package: &str, exact: bool, l: &str) -> (r: Option<Vec<String>>)
    ensures
        r is Some <==> dpkg_line_matches(package@, exact, l@),
        r matches Some(w) ==> views(w@) == words(l@),
{
    if !starts_with(l, "ii") {
        return None;
    }
    let w = words_of(l);
    if w.len() < 3 {
        return None;
    }
    if exact {
        assert(views(w@)[1] == w@[1]@);
        let prefix = concat2(package, ":");
        if !(str_eq(w[1].as_str(), package) || starts_with(w[1].as_str(), prefix.as_str())) {
            return None;
        }
    }
    Some(w)
}

/// Reads a `dpkg -l` answer for `package`; `exact` requires the package field to match.
pub fn dpkg_list_outcome(package: &str, exact: bool, output: &str) -> (r: Option<
    PackageVerificationResult,
>)
    ensures
        dpkg_list_reading(package@, exact, output@, r),
{
    let ls = lines_of(output);
    let ghost lv = lines(output@);
    let mut i: usize = 0;
    while i < ls.len()
        invariant
            lv == lines(output@),
            views(ls@) == lv,
            i <= ls@.len(),
            first_dpkg_line(lv, package@, exact, i as int) == first_dpkg_line(lv, package@, exact, 0),
        decreases ls.len() - i,
    {
        assert(ls@[i as int]@ == lv[i as int]);
        match dpkg_line_check(package, exact, ls[i].as_str()) {
            Some(w) => {
                assert(views(w@)[1] == w@[1]@ && views(w@)[2] == w@[2]@);
                assert(first_dpkg_line(lv, package@, exact, i as int) == i);
                let res = PackageVerificationResult {
                    package: owned(package),
                    installed: true,
                    method: VerificationMethod::DpkgList,
                    details: PackageDetails {
                        actual_name: Some(w[1].clone()),
                        version: Some(w[2].clone()),
                        dpkg_status: Some(owned("ii")),
                        required_by: Vec::new(),
                        alternatives_checked: Vec::new(),
                        raw_output: Some(ls[i].clone()),
                    },
                };
                assert(opt_view(res.details.actual_name) == Some(words(lv[i as int])[1]));
                assert(opt_view(res.details.version) == Some(words(lv[i as int])[2]));
                assert(opt_view(res.details.raw_output) == Some(lv[i as int]));
                assert(opt_view(res.details.dpkg_status) == Some("ii"@));
                assert(lv.len() == ls@.len());
                return Some(res);
            },
            None => {},
        }
        i = i + 1;
    }
    None
}

// ---------------------------------------------------------------------------
// Method 3: apt-cache policy
// ---------------------------------------------------------------------------

/// The `apt-cache policy` probe for `package`.
pub open spec fn apt_cache_command_text(package: Seq<char>) -> Seq<char> {
    "apt-cache policy "@ + shell_quoted(package) + " 2>&1"@
}

/// The `apt-cache policy` probe for `package`.
pub fn apt_cache_command(package: &str) -> (r: String)
    ensures
        r@ == apt_cache_command_text(package@),
{
    let mut r = owned("apt-cache policy ");
    let q = shell_escape(package);
    push_str(&mut r, q.as_str());
    push_str(&mut r, " 2>&1");
    r
}

/// An `Installed:` line whose version (the text between the first and second
/// `:`, trimmed) is not `(none)`.
pub open spec fn installed_line(l: Seq<char>) -> bool {
    let parts = split_on(l, ':');
    &&& has_prefix(trim(l), "Installed:"@)
    &&& parts.len() >= 2
    &&& trim(parts[1]) != "(none)"@
}

/// Index of the first installed line at or after `i`, or `ls.len()`.
pub open spec fn first_installed_line(ls: Seq<Seq<char>>, i: int) -> int
    decreases ls.len() - i,
{
    if i < 0 || i >= ls.len() {
        ls.len() as int
    } else if installed_line(ls[i]) {
        i
    } else {
        first_installed_line(ls, i + 1)
    }
}

/// What an `apt-cache policy` answer says.
pub open spec fn apt_cache_reading(
    package: Seq<char>,
    output: Seq<char>,
    r: Option<PackageVerificationResult>,
) -> bool {
    let ls = lines(output);
    let k = first_installed_line(ls, 0);
    if k < ls.len() {
        r matches Some(res) && {
            &&& res.package@ == package
            &&& res.installed
            &&& res.method is AptCache
            &&& opt_view(res.details.actual_name) == Some(package)
            &&& opt_view(res.details.version) == Some(trim(split_on(ls[k], ':')[1]))
            &&& res.details.dpkg_status is None
            &&& opt_view(res.details.raw_output) == Some(output)
            &&& res.details.required_by@.len() == 0
            &&& res.details.alternatives_checked@.len() == 0
        }
    } else {
        r is None
    }
}

fn installed_version(l: &str) -> (r: Option<String>)
    ensures
        r is Some <==> installed_line(l@),
        r matches Some(v) ==> v@ == trim(split_on(l@, ':')[1]),
{
    let t = trim_str(l);
    if !starts_with(t.as_str(), "Installed:") {
        return None;
    }
    let parts = split_char(l, ':');
    if parts.len() < 2 {
        return None;
    }
    assert(views(parts@)[1] == parts@[1]@);
    let v = trim_str(parts[1].as_str());
    if str_eq(v.as_str(), "(none)") {
        return None;
    }
    Some(v)
}

/// Reads an `apt-cache policy` answer for `package`.
pub fn apt_cache_outcome(package: &str, output: &str) -> (r: Option<PackageVerificationResult>)
    ensures
        apt_cache_reading(package@, output@, r),
{
    let ls = lines_of(output);
    let ghost lv = lines(output@);
    let mut i: usize = 0;
    while i < ls.len()
        invariant
            lv == lines(output@),
            views(ls@) == lv,
            i <= ls@.len(),
            first_installed_line(lv, i as int) == first_installed_line(lv, 0),
        decreases ls.len() - i,
    {
        assert(ls@[i as int]@ == lv[i as int]);
        match installed_version(ls[i].as_str()) {
            Some(v) => {
                assert(first_installed_line(lv, i as int) == i);
                assert(lv.len() == ls@.len());
                return Some(
                    PackageVerificationResult {
                        package: owned(package),
                        installed: true,
                        method: VerificationMethod::AptCache,
                        details: PackageDetails {
                            actual_name: Some(owned(package)),
                            version: Some(v),
                            dpkg_status: None,
                            required_by: Vec::new(),
                            alternatives_checked: Vec::new(),
                            raw_output: Some(owned(output)),
                        },
                    },
                );
            },
            None => {},
        }
        i = i + 1;
    }
    None
}

// ---------------------------------------------------------------------------
// Method 4: installed as a dependency
// ---------------------------------------------------------------------------

/// The reverse-dependency probe for `package`.
pub open spec fn rdepends_command_text(package: Seq<char>) -> Seq<char> {
    "apt-cache rdepends --installed "@ + shell_quoted(package) + " 2>&1 | tail -n +3 | head -20"@
}

/// The reverse-dependency probe for `package`.
pub fn rdepends_command(package: &str) -> (r: String)
    ensures
        r@ == rdepends_command_text(package@),
{
    let mut r = owned("apt-cache rdepends --installed ");
    let q = shell_escape(package);
    push_str(&mut r, q.as_str());
    push_str(&mut r, " 2>&1 | tail -n +3 | head -20");
    r
}

/// The trimmed lines of `ls` that are neither empty nor start with `|`.
pub open spec fn dependent_names(ls: Seq<Seq<char>>) -> Seq<Seq<char>>
    decreases ls.len(),
{
    if ls.len() == 0 {
        Seq::empty()
    } else {
        let prev = dependent_names(ls.drop_last());
        let t = trim(ls.last());
        if t.len() > 0 && t[0] != '|' {
            prev.push(t)
        } else {
            prev
        }
    }
}

/// The dependents named in a reverse-dependency answer.
pub fn reverse_dependents(output: &str) -> (r: Vec<String>)
    ensures
        views(r@) == dependent_names(lines(output@)),
{
    let ls = lines_of(output);
    let ghost lv = lines(output@);
    let mut r: Vec<String> = Vec::new();
    let mut i: usize = 0;
    while i < ls.len()
        invariant
            lv == lines(output@),
            views(ls@) == lv,
            i <= ls@.len(),
            views(r@) == dependent_names(lv.take(i as int)),
        decreases ls.len() - i,
    {
        proof {
            assert(lv.take(i + 1).drop_last() =~= lv.take(i as int));
            assert(lv.take(i + 1).last() == ls@[i as int]@);
        }
        let t = trim_str(ls[i].as_str());
        let tv = crate::text::chars_of(t.as_str());
        let ghost r0 = views(r@);
        if tv.len() > 0 && tv[0] != '|' {
            r.push(t);
            assert(views(r@) =~= r0.push(tv@));
        }
        i = i + 1;
    }
    assert(lv.take(lv.len() as int) =~= lv);
    r
}

/// The probe that checks whether `dependent` is installed.
pub open spec fn dependent_check_command_text(dependent: Seq<char>) -> Seq<char> {
    "dpkg-query -W "@ + shell_quoted(dependent) + " 2>/dev/null"@
}

/// The probe that checks whether `dependent` is installed.
pub fn dependent_check_command(dependent: &str) -> (r: String)
    ensures
        r@ == dependent_check_command_text(dependent@),
{
    let mut r = owned("dpkg-query -W ");
    let q = shell_escape(dependent);
    push_str(&mut r, q.as_str());
    push_str(&mut r, " 2>/dev/null");
    r
}

/// The result for `package` found installed because `dependent` requires it.
pub fn dependency_outcome(package: &str, dependent: &str) -> (r: PackageVerificationResult)
    ensures
        r.package@ == package@,
        r.installed,
        r.method matches VerificationMethod::InstalledByDependency(d) && d@ == dependent@,
        opt_view(r.details.actual_name) == Some(package@),
        r.details.version is None,
        opt_view(r.details.dpkg_status) == Some("installed-by-dependency"@),
        views(r.details.required_by@) == seq![dependent@],
        r.details.alternatives_checked@.len() == 0,
        opt_view(r.details.raw_output) == Some("Required by: "@ + dependent@),
{
    let mut required_by: Vec<String> = Vec::new();
    required_by.push(owned(dependent));
    assert(views(required_by@) =~= seq![dependent@]);
    PackageVerificationResult {
        package: owned(package),
        installed: true,
        method: VerificationMethod::InstalledByDependency(owned(dependent)),
        details: PackageDetails {
            actual_name: Some(owned(package)),
            version: None,
            dpkg_status: Some(owned("installed-by-dependency")),
            required_by,
            alternatives_checked: Vec::new(),
            raw_output: Some(concat2("Required by: ", dependent)),
        },
    }
}

// ---------------------------------------------------------------------------
// Diagnostics when every method failed
// ---------------------------------------------------------------------------

/// The name variants tried in diagnostics: `<p>:amd64` first and `<p>:all`
/// last when the name has no `:`, around `<p>` with `-` as `_`, `<p>-dev` and `lib<p>`.
pub open spec fn variants_text(p: Seq<char>) -> Seq<Seq<char>> {
    let base = seq![replace_char(p, '-', seq!['_']), p + "-dev"@, "lib"@ + p];
    if p.contains(':') {
        base
    } else {
        seq![p + ":amd64"@] + base + seq![p + ":all"@]
    }
}

/// The name variants tried in diagnostics, in order.
pub fn package_variants(package: &str) -> (r: Vec<String>)
    ensures
        views(r@) == variants_text(package@),
{
    let mut r: Vec<String> = Vec::new();
    let arch = !has_char(package, ':');
    if arch {
        r.push(concat2(package, ":amd64"));
    }
    r.push(replace_char_str(package, '-', "_"));
    r.push(concat2(package, "-dev"));
    r.push(concat2("lib", package));
    if arch {
        r.push(concat2(package, ":all"));
    }
    proof {
        reveal_strlit("_");
        assert("_"@ =~= seq!['_']);
    }
    assert(views(r@) =~= variants_text(package@));
    r
}

/// The query for one name variant.
pub open spec fn variant_command_text(variant: Seq<char>) -> Seq<char> {
    "dpkg-query -W "@ + shell_quoted(variant) + " 2>&1"@
}

/// The query for one name variant.
pub fn variant_command(variant: &str) -> (r: String)
    ensures
        r@ == variant_command_text(variant@),
{
    let mut r = owned("dpkg-query -W ");
    let q = shell_escape(variant);
    push_str(&mut r, q.as_str());
    push_str(&mut r, " 2>&1");
    r
}

/// The diagnostic lines for a variant whose query answered `output`.
pub open spec fn variant_report_text(variant: Seq<char>, output: Seq<char>) -> Seq<char> {
    let fl = first_line(output);
    let head = "Variant "@ + variant + ": "@ + fl + "\n"@;
    if has_infix(fl, variant + "\t"@) || has_infix(output, "install ok installed"@) {
        head + "Found as variant: "@ + variant + "\n"@
    } else {
        head
    }
}

/// The diagnostic lines for a variant whose query answered `output`.
pub fn variant_report(variant: &str, output: &str) -> (r: String)
    ensures
        r@ == variant_report_text(variant@, output@),
{
    let fl = first_line_of(output);
    let mut r = owned("Variant ");
    push_str(&mut r, variant);
    push_str(&mut r, ": ");
    push_str(&mut r, fl.as_str());
    push_str(&mut r, "\n");
    let tagged = concat2(variant, "\t");
    if contains(fl.as_str(), tagged.as_str()) || contains(output, "install ok installed") {
        push_str(&mut r, "Found as variant: ");
        push_str(&mut r, variant);
        push_str(&mut r, "\n");
    }
    r
}

/// The wildcard query of installed packages whose name starts with `package`.
pub open spec fn wildcard_query_command_text(package: Seq<char>) -> Seq<char> {
    "dpkg-query -W '"@ + shell_quoted(package) + "*' 2>&1 | head -5"@
}

/// The wildcard query of installed packages whose name starts with `package`.
pub fn wildcard_query_command(package: &str) -> (r: String)
    ensures
        r@ == wildcard_query_command_text(package@),
{
    let mut r = owned("dpkg-query -W '");
    let q = shell_escape(package);
    push_str(&mut r, q.as_str());
    push_str(&mut r, "*' 2>&1 | head -5");
    r
}

/// The diagnostic section for the wildcard query's answer (empty when it
/// found nothing).
pub open spec fn wildcard_report_text(package: Seq<char>, output: Seq<char>) -> Seq<char> {
    if output.len() > 0 && !has_infix(output, "no packages found"@) {
        "\nInstalled packages matching "@ + package + "*:\n"@ + output + "\n"@
    } else {
        Seq::empty()
    }
}

/// The diagnostic section for the wildcard query's answer.
pub fn wildcard_report(package: &str, output: &str) -> (r: String)
    ensures
        r@ == wildcard_report_text(package@, output@),
{
    let mut r = String::new();
    if !output.is_empty() && !contains(output, "no packages found") {
        push_str(&mut r, "\nInstalled packages matching ");
        push_str(&mut r, package);
        push_str(&mut r, "*:\n");
        push_str(&mut r, output);
        push_str(&mut r, "\n");
    }
    assert(r@ =~= wildcard_report_text(package@, output@));
    r
}

/// The package search query for `package`.
pub open spec fn search_command_text(package: Seq<char>) -> Seq<char> {
    "apt-cache search "@ + shell_quoted(package) + " | head -5 2>&1"@
}

/// The package search query for `package`.
pub fn search_command(package: &str) -> (r: String)
    ensures
        r@ == search_command_text(package@),
{
    let mut r = owned("apt-cache search ");
    let q = shell_escape(package);
    push_str(&mut r, q.as_str());
    push_str(&mut r, " | head -5 2>&1");
    r
}

/// The diagnostic section for the search's answer (empty when it is empty).
pub open spec fn search_report_text(output: Seq<char>) -> Seq<char> {
    if output.len() > 0 {
        "\nSimilar packages:\n"@ + output + "\n"@
    } else {
        Seq::empty()
    }
}

/// The diagnostic section for the search's answer.
pub fn search_report(output: &str) -> (r: String)
    ensures
        r@ == search_report_text(output@),
{
    let mut r = String::new();
    if !output.is_empty() {
        push_str(&mut r, "\nSimilar packages:\n");
        push_str(&mut r, output);
        push_str(&mut r, "\n");
    }
    assert(r@ =~= search_report_text(output@));
    r
}

/// `s` without the entries equal to `x`, in order.
pub open spec fn without(s: Seq<Seq<char>>, x: Seq<char>) -> Seq<Seq<char>>
    decreases s.len(),
{
    if s.len() == 0 {
        Seq::empty()
    } else {
        let prev = without(s.drop_last(), x);
        if s.last() == x {
            prev
        } else {
            prev.push(s.last())
        }
    }
}

/// The variants of `package` that diagnostics query: every name variant
/// other than `package` itself, in order.
pub fn package_alternatives(package: &str) -> (r: Vec<String>)
    ensures
        views(r@) == without(variants_text(package@), package@),
{
    let variants = package_variants(package);
    let mut r: Vec<String> = Vec::new();
    let mut i: usize = 0;
    while i < variants.len()
        invariant
            i <= variants@.len(),
            views(variants@) == variants_text(package@),
            views(r@) == without(views(variants@).take(i as int), package@),
        decreases variants.len() - i,
    {
        assert(views(variants@).take(i + 1).drop_last() =~= views(variants@).take(i as int));
        if !str_eq(variants[i].as_str(), package) {
            let ghost before = views(r@);
            r.push(variants[i].clone());
            assert(views(r@) =~= before.push(variants@[i as int]@));
        }
        i = i + 1;
    }
    assert(views(variants@).take(variants@.len() as int) =~= views(variants@));
    r
}

/// The result for a package that no method confirmed: not installed, with
/// the variants that were checked and the gathered diagnostics.
pub fn all_failed_outcome(package: &str, alternatives: Vec<String>, raw_output: String) -> (r:
    PackageVerificationResult)
    ensures
        r.package@ == package@,
        !r.installed,
        r.method is AllFailed,
        r.details.actual_name is None,
        r.details.version is None,
        r.details.dpkg_status is None,
        r.details.required_by@.len() == 0,
        r.details.alternatives_checked@ == alternatives@,
        r.details.raw_output == Some(raw_output),
{
    PackageVerificationResult {
        package: owned(package),
        installed: false,
        method: VerificationMethod::AllFailed,
        details: PackageDetails {
            actual_name: None,
            version: None,
            dpkg_status: None,
            required_by: Vec::new(),
            alternatives_checked: alternatives,
            raw_output: Some(raw_output),
        },
    }
}

// ---------------------------------------------------------------------------
// Laws
// ---------------------------------------------------------------------------

/// An installed `dpkg -l` line (status `ii`, at least three fields) names
/// the package exactly when its package field is the name, or the name
/// followed by `:<arch>` (a multiarch package).
pub proof fn law_dpkg_line_names_package(package: Seq<char>, arch: Seq<char>, l: Seq<char>)
    requires
        has_prefix(l, "ii"@),
        words(l).len() >= 3,
        words(l)[1] == package || words(l)[1] == package + ":"@ + arch,
    ensures
        dpkg_line_matches(package, true, l),
        dpkg_line_matches(package, false, l),
{
    let p = package + ":"@;
    if words(l)[1] != package {
        assert((package + ":"@ + arch).subrange(0, p.len() as int) =~= p);
    }
}

/// The first matching line at or after `i` comes no later than any matching line.
proof fn lemma_first_dpkg_line_at_most(ls: Seq<Seq<char>>, package: Seq<char>, exact: bool, i: int, k: int)
    requires
        0 <= i <= k < ls.len(),
        dpkg_line_matches(package, exact, ls[k]),
    ensures
        first_dpkg_line(ls, package, exact, i) <= k,
    decreases k - i,
{
    if !dpkg_line_matches(package, exact, ls[i]) {
        lemma_first_dpkg_line_at_most(ls, package, exact, i + 1, k);
    }
}

/// When a `dpkg -l` answer holds an installed line for the package (its own
/// name or the name with an architecture suffix), the package is confirmed
/// installed by `dpkg -l`.
pub proof fn law_dpkg_list_confirms_installed_line(
    package: Seq<char>,
    arch: Seq<char>,
    output: Seq<char>,
    k: int,
    r: Option<PackageVerificationResult>,
)
    requires
        dpkg_list_reading(package, true, output, r),
        0 <= k < lines(output).len(),
        has_prefix(lines(output)[k], "ii"@),
        words(lines(output)[k]).len() >= 3,
        words(lines(output)[k])[1] == package || words(lines(output)[k])[1] == package + ":"@
            + arch,
    ensures
        r matches Some(res) && res.installed && res.method is DpkgList && res.package@ == package,
{
    law_dpkg_line_names_package(package, arch, lines(output)[k]);
    lemma_first_dpkg_line_at_most(lines(output), package, true, 0, k);
}

} // verus!
