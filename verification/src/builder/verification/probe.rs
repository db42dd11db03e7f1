//! The order of the package verification methods, as a state machine.
//!
//! A package is confirmed by the first method whose answer confirms it:
//! `dpkg-query` for the name, then for its `:amd64` variant, `dpkg -l` for the
//! name, then with any architecture suffix, `apt-cache policy`, then the
//! installed reverse dependencies one by one. When none confirms it, the name
//! variants, a wildcard query and a package search are gathered as diagnostics
//! and the package is reported not installed.
//!
//! The caller runs the command that [`package_probe_command`] gives for the
//! current state over SSH and hands its answer (`Ok(output)` or `Err(message)`)
//! to [`next_package_probe`], until that returns the result.

use super::package::{
    all_failed_outcome, apt_cache_command, apt_cache_command_text, apt_cache_outcome,
    apt_cache_reading, arch_variant, arch_variant_text, dependency_outcome,
    dependent_check_command, dependent_check_command_text, dependent_names, dpkg_list_command,
    dpkg_list_command_text, dpkg_list_outcome, dpkg_list_reading, dpkg_list_wildcard_command,
    dpkg_list_wildcard_command_text, dpkg_query_command, dpkg_query_command_text,
    dpkg_query_outcome, dpkg_query_reading, first_dpkg_line, first_installed_line, opt_view,
    package_alternatives, rdepends_command, rdepends_command_text, reverse_dependents,
    search_command, search_command_text, search_report, search_report_text, variant_command,
    variant_command_text, variant_report, variant_report_text, variants_text, wildcard_applies,
    wildcard_query_command, wildcard_query_command_text, wildcard_report, wildcard_report_text,
    without,
};
use super::{PackageVerificationResult, VerificationMethod};
use crate::text::{has_infix, lines, push_str, views};
use vstd::prelude::*;

verus! {

/// Where the verification of a package stands, as values.
pub enum ProbeStage {
    /// Query `dpkg-query` for the name.
    DpkgQuery,
    /// Query `dpkg-query` for this architecture variant of the name.
    ArchQuery(Seq<char>),
    /// List the name with `dpkg -l`.
    DpkgList,
    /// List the name with any architecture suffix.
    DpkgListWildcard,
    /// Ask `apt-cache policy`.
    AptCache,
    /// Ask for the installed reverse dependencies.
    Rdepends,
    /// Check whether the dependent at this position is installed.
    Dependent(Seq<Seq<char>>, nat),
    /// Query the name variant at this position; the diagnostics so far.
    Variant(Seq<Seq<char>>, nat, Seq<char>),
    /// Query installed packages starting with the name; the diagnostics so far.
    WildcardQuery(Seq<Seq<char>>, Seq<char>),
    /// Search for similar packages; the diagnostics so far.
    Search(Seq<Seq<char>>, Seq<char>),
}

/// Where the verification of a package stands.
#[derive(Debug)]
pub enum PackageProbeState {
    /// Query `dpkg-query` for the name (the first state).
    DpkgQuery,
    /// Query `dpkg-query` for an architecture variant of the name.
    ArchQuery {
        /// The variant queried.
        arch: String,
    },
    /// List the name with `dpkg -l`.
    DpkgList,
    /// List the name with any architecture suffix.
    DpkgListWildcard,
    /// Ask `apt-cache policy`.
    AptCache,
    /// Ask for the installed reverse dependencies.
    Rdepends,
    /// Check whether `dependents[index]` is installed.
    Dependent {
        /// The installed reverse dependencies named.
        dependents: Vec<String>,
        /// The one checked now.
        index: usize,
    },
    /// Query the name variant `alternatives[index]`.
    Variant {
        /// The name variants queried for diagnostics.
        alternatives: Vec<String>,
        /// The one queried now.
        index: usize,
        /// The diagnostics gathered so far.
        report: String,
    },
    /// Query installed packages whose name starts with the package name.
    WildcardQuery {
        /// The name variants queried for diagnostics.
        alternatives: Vec<String>,
        /// The diagnostics gathered so far.
        report: String,
    },
    /// Search for similar packages.
    Search {
        /// The name variants queried for diagnostics.
        alternatives: Vec<String>,
        /// The diagnostics gathered so far.
        report: String,
    },
}

impl View for PackageProbeState {
    type V = ProbeStage;

    open spec fn view(&self) -> ProbeStage {
        match self {
            PackageProbeState::DpkgQuery => ProbeStage::DpkgQuery,
            PackageProbeState::ArchQuery { arch } => ProbeStage::ArchQuery(arch@),
            PackageProbeState::DpkgList => ProbeStage::DpkgList,
            PackageProbeState::DpkgListWildcard => ProbeStage::DpkgListWildcard,
            PackageProbeState::AptCache => ProbeStage::AptCache,
            PackageProbeState::Rdepends => ProbeStage::Rdepends,
            PackageProbeState::Dependent { dependents, index } => ProbeStage::Dependent(
                views(dependents@),
                *index as nat,
            ),
            PackageProbeState::Variant { alternatives, index, report } => ProbeStage::Variant(
                views(alternatives@),
                *index as nat,
                report@,
            ),
            PackageProbeState::WildcardQuery { alternatives, report } => ProbeStage::WildcardQuery(
                views(alternatives@),
                report@,
            ),
            PackageProbeState::Search { alternatives, report } => ProbeStage::Search(
                views(alternatives@),
                report@,
            ),
        }
    }
}

/// The stage of a step's outcome: the result, or the next stage.
pub open spec fn step_view(r: Result<PackageVerificationResult, PackageProbeState>) -> Result<
    PackageVerificationResult,
    ProbeStage,
> {
    match r {
        Ok(res) => Ok(res),
        Err(st) => Err(st@),
    }
}

/// The first diagnostics stage: the name variants other than the name itself,
/// from the first, with nothing gathered yet.
pub open spec fn diagnostics_stage(package: Seq<char>) -> ProbeStage {
    ProbeStage::Variant(without(variants_text(package), package), 0, Seq::empty())
}

/// The command run in `st`, if it has one (a position past the end of its
/// list has none).
pub open spec fn probe_command_text(package: Seq<char>, st: ProbeStage) -> Option<Seq<char>> {
    match st {
        ProbeStage::DpkgQuery => Some(dpkg_query_command_text(package)),
        ProbeStage::ArchQuery(a) => Some(dpkg_query_command_text(a)),
        ProbeStage::DpkgList => Some(dpkg_list_command_text(package)),
        ProbeStage::DpkgListWildcard => Some(dpkg_list_wildcard_command_text(package)),
        ProbeStage::AptCache => Some(apt_cache_command_text(package)),
        ProbeStage::Rdepends => Some(rdepends_command_text(package)),
        ProbeStage::Dependent(d, i) => if i < d.len() {
            Some(dependent_check_command_text(d[i as int]))
        } else {
            None
        },
        ProbeStage::Variant(alts, i, _) => if i < alts.len() {
            Some(variant_command_text(alts[i as int]))
        } else {
            None
        },
        ProbeStage::WildcardQuery(_, _) => Some(wildcard_query_command_text(package)),
        ProbeStage::Search(_, _) => Some(search_command_text(package)),
    }
}

/// The result for `package` found installed because `dependent` requires it.
pub open spec fn dependency_result(
    package: Seq<char>,
    dependent: Seq<char>,
    res: PackageVerificationResult,
) -> bool {
    &&& res.package@ == package
    &&& res.installed
    &&& res.method matches VerificationMethod::InstalledByDependency(d) && d@ == dependent
    &&& opt_view(res.details.actual_name) == Some(package)
    &&& res.details.version is None
    &&& opt_view(res.details.dpkg_status) == Some("installed-by-dependency"@)
    &&& views(res.details.required_by@) == seq![dependent]
    &&& res.details.alternatives_checked@.len() == 0
    &&& opt_view(res.details.raw_output) == Some("Required by: "@ + dependent)
}

/// The result for `package` that no method confirmed, with the variants
/// checked and the diagnostics gathered.
pub open spec fn all_failed_result(
    package: Seq<char>,
    alternatives: Seq<Seq<char>>,
    report: Seq<char>,
    res: PackageVerificationResult,
) -> bool {
    &&& res.package@ == package
    &&& !res.installed
    &&& res.method is AllFailed
    &&& res.details.actual_name is None
    &&& res.details.version is None
    &&& res.details.dpkg_status is None
    &&& res.details.required_by@.len() == 0
    &&& views(res.details.alternatives_checked@) == alternatives
    &&& opt_view(res.details.raw_output) == Some(report)
}

/// The stage after a variant query at position `i` with diagnostics `report`.
pub open spec fn after_variant(alts: Seq<Seq<char>>, i: nat, report: Seq<char>) -> ProbeStage {
    if i + 1 < alts.len() {
        ProbeStage::Variant(alts, i + 1, report)
    } else {
        ProbeStage::WildcardQuery(alts, report)
    }
}

/// One step of the verification of `package`: in stage `st` the probe
/// answered `reply`, and `r` is the result (the first confirming answer
/// decides it) or the next stage. The order is: `dpkg-query`, its `:amd64`
/// variant (only after a `dpkg-query` that ran), `dpkg -l`, its wildcard
/// form (only after a `dpkg -l` that ran, and for a name without `:` or `*`),
/// `apt-cache policy`, the reverse dependencies, each installed dependent
/// (the first that answers confirms), then the diagnostics and the
/// all-failed result.
pub open spec fn package_probe_step(
    package: Seq<char>,
    st: ProbeStage,
    reply: Result<String, String>,
    r: Result<PackageVerificationResult, ProbeStage>,
) -> bool {
    match st {
        ProbeStage::DpkgQuery => match reply {
            Ok(out) => if has_infix(out@, "install ok installed"@) {
                r matches Ok(res) && dpkg_query_reading(package, None, out@, Some(res))
            } else {
                r == Err::<PackageVerificationResult, ProbeStage>(
                    match arch_variant_text(package) {
                        Some(a) => ProbeStage::ArchQuery(a),
                        None => ProbeStage::DpkgList,
                    },
                )
            },
            Err(_) => r == Err::<PackageVerificationResult, ProbeStage>(ProbeStage::DpkgList),
        },
        ProbeStage::ArchQuery(a) => match reply {
            Ok(out) => if has_infix(out@, "install ok installed"@) {
                r matches Ok(res) && dpkg_query_reading(package, Some(a), out@, Some(res))
            } else {
                r == Err::<PackageVerificationResult, ProbeStage>(ProbeStage::DpkgList)
            },
            Err(_) => r == Err::<PackageVerificationResult, ProbeStage>(ProbeStage::DpkgList),
        },
        ProbeStage::DpkgList => match reply {
            Ok(out) => if first_dpkg_line(lines(out@), package, true, 0) < lines(out@).len() {
                r matches Ok(res) && dpkg_list_reading(package, true, out@, Some(res))
            } else {
                r == Err::<PackageVerificationResult, ProbeStage>(
                    if !package.contains(':') && !package.contains('*') {
                        ProbeStage::DpkgListWildcard
                    } else {
                        ProbeStage::AptCache
                    },
                )
            },
            Err(_) => r == Err::<PackageVerificationResult, ProbeStage>(ProbeStage::AptCache),
        },
        ProbeStage::DpkgListWildcard => match reply {
            Ok(out) => if first_dpkg_line(lines(out@), package, false, 0) < lines(out@).len() {
                r matches Ok(res) && dpkg_list_reading(package, false, out@, Some(res))
            } else {
                r == Err::<PackageVerificationResult, ProbeStage>(ProbeStage::AptCache)
            },
            Err(_) => r == Err::<PackageVerificationResult, ProbeStage>(ProbeStage::AptCache),
        },
        ProbeStage::AptCache => match reply {
            Ok(out) => if first_installed_line(lines(out@), 0) < lines(out@).len() {
                r matches Ok(res) && apt_cache_reading(package, out@, Some(res))
            } else {
                r == Err::<PackageVerificationResult, ProbeStage>(ProbeStage::Rdepends)
            },
            Err(_) => r == Err::<PackageVerificationResult, ProbeStage>(ProbeStage::Rdepends),
        },
        ProbeStage::Rdepends => match reply {
            Ok(out) => if dependent_names(lines(out@)).len() > 0 {
                r == Err::<PackageVerificationResult, ProbeStage>(
                    ProbeStage::Dependent(dependent_names(lines(out@)), 0),
                )
            } else {
                r == Err::<PackageVerificationResult, ProbeStage>(diagnostics_stage(package))
            },
            Err(_) => r == Err::<PackageVerificationResult, ProbeStage>(diagnostics_stage(package)),
        },
        ProbeStage::Dependent(d, i) => if i < d.len() {
            match reply {
                Ok(_) => r matches Ok(res) && dependency_result(package, d[i as int], res),
                Err(_) => r == Err::<PackageVerificationResult, ProbeStage>(
                    if i + 1 < d.len() {
                        ProbeStage::Dependent(d, i + 1)
                    } else {
                        diagnostics_stage(package)
                    },
                ),
            }
        } else {
            r == Err::<PackageVerificationResult, ProbeStage>(diagnostics_stage(package))
        },
        ProbeStage::Variant(alts, i, report) => if i < alts.len() {
            r == Err::<PackageVerificationResult, ProbeStage>(
                after_variant(
                    alts,
                    i,
                    match reply {
                        Ok(out) => report + variant_report_text(alts[i as int], out@),
                        Err(_) => report,
                    },
                ),
            )
        } else {
            r == Err::<PackageVerificationResult, ProbeStage>(ProbeStage::WildcardQuery(alts, report))
        },
        ProbeStage::WildcardQuery(alts, report) => r == Err::<PackageVerificationResult, ProbeStage>(
            ProbeStage::Search(
                alts,
                match reply {
                    Ok(out) => report + wildcard_report_text(package, out@),
                    Err(_) => report,
                },
            ),
        ),
        ProbeStage::Search(alts, report) => r matches Ok(res) && all_failed_result(
            package,
            alts,
            match reply {
                Ok(out) => report + search_report_text(out@),
                Err(_) => report,
            },
            res,
        ),
    }
}

/// The first diagnostics state for `package`.
fn diagnostics_state(package: &str) -> (r: PackageProbeState)
    ensures
        r@ == diagnostics_stage(package@),
{
    let alternatives = package_alternatives(package);
    let report = String::new();
    proof {
        assert(report@ =~= Seq::<char>::empty());
    }
    PackageProbeState::Variant { alternatives, index: 0, report }
}

/// The command to run in state `st` while verifying `package` (`None` for a
/// position past the end of its list, where any answer moves on).
pub fn package_probe_command(package: &str, st: &PackageProbeState) -> (r: Option<String>)
    ensures
        opt_view(r) == probe_command_text(package@, st@),
{
    match st {
        PackageProbeState::DpkgQuery => Some(dpkg_query_command(package)),
        PackageProbeState::ArchQuery { arch } => Some(dpkg_query_command(arch.as_str())),
        PackageProbeState::DpkgList => Some(dpkg_list_command(package)),
        PackageProbeState::DpkgListWildcard => Some(dpkg_list_wildcard_command(package)),
        PackageProbeState::AptCache => Some(apt_cache_command(package)),
        PackageProbeState::Rdepends => Some(rdepends_command(package)),
        PackageProbeState::Dependent { dependents, index } => {
            if *index < dependents.len() {
                assert(views(dependents@)[*index as int] == dependents@[*index as int]@);
                Some(dependent_check_command(dependents[*index].as_str()))
            } else {
                None
            }
        },
        PackageProbeState::Variant { alternatives, index, .. } => {
            if *index < alternatives.len() {
                assert(views(alternatives@)[*index as int] == alternatives@[*index as int]@);
                Some(variant_command(alternatives[*index].as_str()))
            } else {
                None
            }
        },
        PackageProbeState::WildcardQuery { .. } => Some(wildcard_query_command(package)),
        PackageProbeState::Search { .. } => Some(search_command(package)),
    }
}

/// One step of the verification of `package`: the probe of state `st`
/// answered `reply`; returns the result when that answer decides it, else
/// the next state.
pub fn next_package_probe(package: &str, st: PackageProbeState, reply: Result<String, String>) -> (r:
    Result<PackageVerificationResult, PackageProbeState>)
    ensures
        package_probe_step(package@, st@, reply, step_view(r)),
{
    match st {
        PackageProbeState::DpkgQuery => match reply {
            Ok(out) => match dpkg_query_outcome(package, None, out.as_str()) {
                Some(res) => Ok(res),
                None => match arch_variant(package) {
                    Some(a) => Err(PackageProbeState::ArchQuery { arch: a }),
                    None => Err(PackageProbeState::DpkgList),
                },
            },
            Err(_) => Err(PackageProbeState::DpkgList),
        },
        PackageProbeState::ArchQuery { arch } => match reply {
            Ok(out) => match dpkg_query_outcome(package, Some(arch.as_str()), out.as_str()) {
                Some(res) => Ok(res),
                None => Err(PackageProbeState::DpkgList),
            },
            Err(_) => Err(PackageProbeState::DpkgList),
        },
        PackageProbeState::DpkgList => match reply {
            Ok(out) => match dpkg_list_outcome(package, true, out.as_str()) {
                Some(res) => Ok(res),
                None => if wildcard_applies(package) {
                    Err(PackageProbeState::DpkgListWildcard)
                } else {
                    Err(PackageProbeState::AptCache)
                },
            },
            Err(_) => Err(PackageProbeState::AptCache),
        },
        PackageProbeState::DpkgListWildcard => match reply {
            Ok(out) => match dpkg_list_outcome(package, false, out.as_str()) {
                Some(res) => Ok(res),
                None => Err(PackageProbeState::AptCache),
            },
            Err(_) => Err(PackageProbeState::AptCache),
        },
        PackageProbeState::AptCache => match reply {
            Ok(out) => match apt_cache_outcome(package, out.as_str()) {
                Some(res) => Ok(res),
                None => Err(PackageProbeState::Rdepends),
            },
            Err(_) => Err(PackageProbeState::Rdepends),
        },
        PackageProbeState::Rdepends => match reply {
            Ok(out) => {
                let dependents = reverse_dependents(out.as_str());
                if dependents.len() > 0 {
                    Err(PackageProbeState::Dependent { dependents, index: 0 })
                } else {
                    Err(diagnostics_state(package))
                }
            },
            Err(_) => Err(diagnostics_state(package)),
        },
        PackageProbeState::Dependent { dependents, index } => {
            if index < dependents.len() {
                match reply {
                    Ok(_) => {
                        assert(views(dependents@)[index as int] == dependents@[index as int]@);
                        Ok(dependency_outcome(package, dependents[index].as_str()))
                    },
                    Err(_) => if index + 1 < dependents.len() {
                        Err(PackageProbeState::Dependent { dependents, index: index + 1 })
                    } else {
                        Err(diagnostics_state(package))
                    },
                }
            } else {
                Err(diagnostics_state(package))
            }
        },
        PackageProbeState::Variant { alternatives, index, report } => {
            if index < alternatives.len() {
                let mut report = report;
                match reply {
                    Ok(out) => {
                        assert(views(alternatives@)[index as int] == alternatives@[index as int]@);
                        let line = variant_report(alternatives[index].as_str(), out.as_str());
                        push_str(&mut report, line.as_str());
                    },
                    Err(_) => {},
                }
                if index + 1 < alternatives.len() {
                    Err(PackageProbeState::Variant { alternatives, index: index + 1, report })
                } else {
                    Err(PackageProbeState::WildcardQuery { alternatives, report })
                }
            } else {
                Err(PackageProbeState::WildcardQuery { alternatives, report })
            }
        },
        PackageProbeState::WildcardQuery { alternatives, report } => {
            let mut report = report;
            match reply {
                Ok(out) => {
                    let section = wildcard_report(package, out.as_str());
                    push_str(&mut report, section.as_str());
                },
                Err(_) => {},
            }
            Err(PackageProbeState::Search { alternatives, report })
        },
        PackageProbeState::Search { alternatives, report } => {
            let mut report = report;
            match reply {
                Ok(out) => {
                    let section = search_report(out.as_str());
                    push_str(&mut report, section.as_str());
                },
                Err(_) => {},
            }
            let ghost alts = views(alternatives@);
            let r = all_failed_outcome(package, alternatives, report);
            assert(views(r.details.alternatives_checked@) == alts);
            Ok(r)
        },
    }
}

} // verus!
