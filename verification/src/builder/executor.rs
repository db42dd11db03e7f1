//! Build steps run over SSH on a live VM, and the legacy checks of a VM
//! against its manifest.
//!
//! The SSH calls, the waits and the probes are made by the caller; the
//! functions here say what each build step runs and turn the probe results
//! into a verification result.

use crate::builder::verification::requirements::{command_passes, command_succeeded};
use crate::builder::verification::{VerificationCheck, VerificationResult};
use crate::builder::vm_handle::VmHandle;
use crate::templates::manifest::{BuildStep, TemplateManifest, VerificationCommand};
use crate::text::{decimal, has_infix, join, owned, push_decimal, push_str, views, contains};
use vstd::prelude::*;

verus! {

/// What a build step asks of the VM (as the `ubuntu` user), one action at a time.
#[derive(Debug, Clone)]
pub enum BuildStepAction {
    /// Run a command; its failure fails the step.
    Exec(String),
    /// Run a command whose failure is expected (the connection drops).
    ExecIgnoringFailure(String),
    /// Wait this many seconds.
    Sleep(u64),
    /// Wait for cloud-init to finish, at most this many seconds.
    WaitCloudInit(u64),
}

/// The abstract value of a build step action.
pub enum BuildStepActionView {
    /// See [`BuildStepAction::Exec`].
    Exec(Seq<char>),
    /// See [`BuildStepAction::ExecIgnoringFailure`].
    ExecIgnoringFailure(Seq<char>),
    /// See [`BuildStepAction::Sleep`].
    Sleep(u64),
    /// See [`BuildStepAction::WaitCloudInit`].
    WaitCloudInit(u64),
}

impl View for BuildStepAction {
    type V = BuildStepActionView;

    open spec fn view(&self) -> BuildStepActionView {
        match *self {
            BuildStepAction::Exec(c) => BuildStepActionView::Exec(c@),
            BuildStepAction::ExecIgnoringFailure(c) => BuildStepActionView::ExecIgnoringFailure(c@),
            BuildStepAction::Sleep(s) => BuildStepActionView::Sleep(s),
            BuildStepAction::WaitCloudInit(s) => BuildStepActionView::WaitCloudInit(s),
        }
    }
}

/// The views of a sequence of build step actions.
pub open spec fn build_action_views(s: Seq<BuildStepAction>) -> Seq<BuildStepActionView> {
    s.map_values(|a: BuildStepAction| a@)
}

/// The actions of one build step run over SSH.
pub open spec fn build_step_ssh_actions(step: BuildStep) -> Seq<BuildStepActionView> {
    match step {
        BuildStep::WaitCloudInit { timeout_secs } => seq![
            BuildStepActionView::WaitCloudInit(timeout_secs),
        ],
        BuildStep::AddRepository { name, url, key_url } => (match key_url {
            Some(k) => seq![
                BuildStepActionView::Exec(
                    "curl -fsSL "@ + k@ + " | sudo gpg --dearmor -o /usr/share/keyrings/"@ + name@
                        + ".gpg"@,
                ),
            ],
            None => Seq::empty(),
        }) + seq![
            BuildStepActionView::Exec(
                "echo 'deb "@ + url@ + " noble main' | sudo tee /etc/apt/sources.list.d/"@ + name@
                    + ".list"@,
            ),
            BuildStepActionView::Exec("sudo apt-get update"@),
        ],
        BuildStep::InstallPackages { packages } => seq![
            BuildStepActionView::Exec(
                "sudo apt-get update && sudo DEBIAN_FRONTEND=noninteractive apt-get install -y "@
                    + join(views(packages@), " "@),
            ),
        ],
        BuildStep::RunCommand { command, .. } => seq![BuildStepActionView::Exec(command@)],
        BuildStep::EnableService { service } => seq![
            BuildStepActionView::Exec("sudo systemctl enable "@ + service@),
        ],
        BuildStep::CreateFile { path, content, mode } => seq![
            BuildStepActionView::Exec("echo '"@ + content@ + "' | sudo tee "@ + path@),
        ] + match mode {
            Some(m) => seq![BuildStepActionView::Exec("sudo chmod "@ + m@ + " "@ + path@)],
            None => Seq::empty(),
        },
        BuildStep::DownloadFile { url, dest } => seq![
            BuildStepActionView::Exec("curl -fsSL -o "@ + dest@ + " "@ + url@),
        ],
        BuildStep::Reboot { wait_secs } => seq![
            BuildStepActionView::ExecIgnoringFailure("sudo reboot"@),
            BuildStepActionView::Sleep(wait_secs),
            BuildStepActionView::WaitCloudInit(300),
        ],
    }
}

/// The actions of one build step run over SSH, in order.
pub fn execute_build_step(step: &BuildStep) -> (r: Vec<BuildStepAction>)
    ensures
        build_action_views(r@) == build_step_ssh_actions(*step),
{
    let mut r: Vec<BuildStepAction> = Vec::new();
    match step {
        BuildStep::WaitCloudInit { timeout_secs } => {
            r.push(BuildStepAction::WaitCloudInit(*timeout_secs));
        },
        BuildStep::AddRepository { name, url, key_url } => {
            match key_url {
                Some(k) => {
                    let mut c = owned("curl -fsSL ");
                    push_str(&mut c, k.as_str());
                    push_str(&mut c, " | sudo gpg --dearmor -o /usr/share/keyrings/");
                    push_str(&mut c, name.as_str());
                    push_str(&mut c, ".gpg");
                    r.push(BuildStepAction::Exec(c));
                },
                None => {},
            }
            let ghost head = build_action_views(r@);
            let mut c = owned("echo 'deb ");
            push_str(&mut c, url.as_str());
            push_str(&mut c, " noble main' | sudo tee /etc/apt/sources.list.d/");
            push_str(&mut c, name.as_str());
            push_str(&mut c, ".list");
            r.push(BuildStepAction::Exec(c));
            r.push(BuildStepAction::Exec(owned("sudo apt-get update")));
            assert(build_action_views(r@) =~= head + seq![
                BuildStepActionView::Exec(
                    "echo 'deb "@ + url@ + " noble main' | sudo tee /etc/apt/sources.list.d/"@
                        + name@ + ".list"@,
                ),
                BuildStepActionView::Exec("sudo apt-get update"@),
            ]);
        },
        BuildStep::InstallPackages { packages } => {
            r.push(BuildStepAction::Exec(VmHandle::install_packages_command(packages)));
        },
        BuildStep::RunCommand { command, .. } => {
            r.push(BuildStepAction::Exec(command.clone()));
        },
        BuildStep::EnableService { service } => {
            let mut c = owned("sudo systemctl enable ");
            push_str(&mut c, service.as_str());
            r.push(BuildStepAction::Exec(c));
        },
        BuildStep::CreateFile { path, content, mode } => {
            let mut c = owned("echo '");
            push_str(&mut c, content.as_str());
            push_str(&mut c, "' | sudo tee ");
            push_str(&mut c, path.as_str());
            r.push(BuildStepAction::Exec(c));
            let ghost one = build_action_views(r@);
            match mode {
                Some(m) => {
                    let mut c2 = owned("sudo chmod ");
                    push_str(&mut c2, m.as_str());
                    push_str(&mut c2, " ");
                    push_str(&mut c2, path.as_str());
                    r.push(BuildStepAction::Exec(c2));
                },
                None => {
                    assert(build_action_views(r@) =~= one + Seq::<BuildStepActionView>::empty());
                },
            }
        },
        BuildStep::DownloadFile { url, dest } => {
            let mut c = owned("curl -fsSL -o ");
            push_str(&mut c, dest.as_str());
            push_str(&mut c, " ");
            push_str(&mut c, url.as_str());
            r.push(BuildStepAction::Exec(c));
        },
        BuildStep::Reboot { wait_secs } => {
            r.push(BuildStepAction::ExecIgnoringFailure(owned("sudo reboot")));
            r.push(BuildStepAction::Sleep(*wait_secs));
            r.push(BuildStepAction::WaitCloudInit(300));
        },
    }
    assert(build_action_views(r@) =~= build_step_ssh_actions(*step));
    r
}

// ---------------------------------------------------------------------------
// Checking a VM against its manifest
// ---------------------------------------------------------------------------

/// The probe whose success tells that `service` is enabled.
pub fn service_enabled_command(service: &str) -> (r: String)
    ensures
        r@ == "systemctl is-enabled "@ + service@,
{
    let mut r = owned("systemctl is-enabled ");
    push_str(&mut r, service);
    r
}

/// The probe whose success tells that `file` exists.
pub fn file_exists_command(file: &str) -> (r: String)
    ensures
        r@ == "test -f "@ + file@,
{
    let mut r = owned("test -f ");
    push_str(&mut r, file);
    r
}

/// A check as plain values: name, outcome, details.
pub open spec fn check_view(c: VerificationCheck) -> (Seq<char>, bool, Option<Seq<char>>) {
    (
        c.name@,
        c.passed,
        match c.details {
            Some(d) => Some(d@),
            None => None,
        },
    )
}

/// The views of a sequence of checks.
pub open spec fn check_views(s: Seq<VerificationCheck>) -> Seq<(Seq<char>, bool, Option<Seq<char>>)> {
    s.map_values(|c: VerificationCheck| check_view(c))
}

/// The errors for the items whose probe failed: `before`, the item, `after`, in order.
pub open spec fn missing_items(
    items: Seq<Seq<char>>,
    ok: Seq<bool>,
    before: Seq<char>,
    after: Seq<char>,
) -> Seq<Seq<char>>
    decreases items.len(),
{
    if items.len() == 0 || ok.len() != items.len() {
        Seq::empty()
    } else {
        let prev = missing_items(items.drop_last(), ok.drop_last(), before, after);
        if ok.last() {
            prev
        } else {
            prev.push(before + items.last() + after)
        }
    }
}

/// How many items passed their probe and mention `word`.
pub open spec fn count_mentioning(items: Seq<Seq<char>>, ok: Seq<bool>, word: Seq<char>) -> nat
    decreases items.len(),
{
    if items.len() == 0 || ok.len() != items.len() {
        0
    } else {
        count_mentioning(items.drop_last(), ok.drop_last(), word) + if ok.last() && has_infix(
            items.last(),
            word,
        ) {
            1nat
        } else {
            0nat
        }
    }
}

/// The label of a verification command: its description, or the command.
pub open spec fn command_label(c: VerificationCommand) -> Seq<char> {
    match c.description {
        Some(d) => d@,
        None => c.command@,
    }
}

/// All the errors found, in the order of the manifest: packages, services,
/// files, commands.
pub open spec fn manifest_errors(
    m: TemplateManifest,
    packages_installed: Seq<bool>,
    services_enabled: Seq<bool>,
    files_exist: Seq<bool>,
    commands_ok: Seq<bool>,
) -> Seq<Seq<char>> {
    missing_items(views(m.verification.required_packages@), packages_installed, "Package "@, " not installed"@)
        + missing_items(
        views(m.verification.required_services@),
        services_enabled,
        "Service "@,
        " not enabled"@,
    ) + missing_items(views(m.verification.required_files@), files_exist, "File "@, " not found"@)
        + missing_items(
        m.verification.verification_commands@.map_values(|c: VerificationCommand| command_label(c)),
        commands_ok,
        "Verification command failed: "@,
        Seq::empty(),
    )
}

/// The checks of a VM against its manifest: COSMIC installed (with the count
/// of COSMIC packages found), COSMIC greeter enabled, RustDesk installed,
/// SSH accessible, then one failed `Verification` check per error.
pub open spec fn manifest_checks(
    m: TemplateManifest,
    packages_installed: Seq<bool>,
    services_enabled: Seq<bool>,
    files_exist: Seq<bool>,
    commands_ok: Seq<bool>,
) -> Seq<(Seq<char>, bool, Option<Seq<char>>)> {
    let pkgs = views(m.verification.required_packages@);
    let cosmic = count_mentioning(pkgs, packages_installed, "cosmic"@);
    seq![
        ("COSMIC installed"@, cosmic > 0, Some(decimal(cosmic) + " COSMIC packages found"@)),
        (
            "COSMIC greeter enabled"@,
            count_mentioning(
                views(m.verification.required_services@),
                services_enabled,
                "greeter"@,
            ) > 0,
            None,
        ),
        (
            "RustDesk installed"@,
            count_mentioning(pkgs, packages_installed, "rustdesk"@) > 0,
            None,
        ),
        ("SSH accessible"@, true, None),
    ] + manifest_errors(m, packages_installed, services_enabled, files_exist, commands_ok).map_values(
        |e: Seq<char>| ("Verification"@, false, Some(e)),
    )
}

/// Appends an error for each item whose probe failed, and counts the items
/// that passed and mention `word`.
fn collect_missing(
    errors: &mut Vec<String>,
    items: &Vec<String>,
    ok: &Vec<bool>,
    before: &str,
    after: &str,
    word: &str,
) -> (count: usize)
    requires
        ok@.len() == items@.len(),
    ensures
        views(final(errors)@) == views(old(errors)@) + missing_items(
            views(items@),
            ok@,
            before@,
            after@,
        ),
        count == count_mentioning(views(items@), ok@, word@),
{
    let ghost start = views(errors@);
    let mut count: usize = 0;
    let mut i: usize = 0;
    while i < items.len()
        invariant
            i <= items@.len(),
            ok@.len() == items@.len(),
            views(errors@) == start + missing_items(
                views(items@).take(i as int),
                ok@.take(i as int),
                before@,
                after@,
            ),
            count == count_mentioning(views(items@).take(i as int), ok@.take(i as int), word@),
            count <= i,
        decreases items.len() - i,
    {
        assert(views(items@).take(i + 1).drop_last() =~= views(items@).take(i as int));
        assert(ok@.take(i + 1).drop_last() =~= ok@.take(i as int));
        if !ok[i] {
            let mut e = owned(before);
            push_str(&mut e, items[i].as_str());
            push_str(&mut e, after);
            let ghost e0 = views(errors@);
            errors.push(e);
            assert(views(errors@) =~= e0.push(before@ + items@[i as int]@ + after@));
        } else if contains(items[i].as_str(), word) {
            count = count + 1;
        }
        i = i + 1;
    }
    assert(views(items@).take(items@.len() as int) =~= views(items@));
    assert(ok@.take(ok@.len() as int) =~= ok@);
    count
}

/// Whether each verification command exited with its expected exit code,
/// from the outcomes of their probes.
pub open spec fn commands_passed(
    commands: Seq<VerificationCommand>,
    replies: Seq<Result<String, String>>,
) -> Seq<bool> {
    Seq::new(commands.len(), |i: int| command_passes(commands[i], replies[i]))
}

fn command_verdicts(commands: &Vec<VerificationCommand>, replies: &Vec<Result<String, String>>) -> (r:
    Vec<bool>)
    requires
        replies@.len() == commands@.len(),
    ensures
        r@ == commands_passed(commands@, replies@),
{
    let mut r: Vec<bool> = Vec::new();
    let mut i: usize = 0;
    while i < commands.len()
        invariant
            i <= commands@.len(),
            replies@.len() == commands@.len(),
            r@ == commands_passed(commands@, replies@).take(i as int),
        decreases commands.len() - i,
    {
        let ok = command_succeeded(&commands[i], &replies[i]);
        r.push(ok);
        i = i + 1;
        assert(r@ =~= commands_passed(commands@, replies@).take(i as int));
    }
    assert(commands_passed(commands@, replies@).take(commands@.len() as int) =~= commands_passed(
        commands@,
        replies@,
    ));
    r
}

/// The result of checking a VM against its manifest, from the outcome of
/// each probe: whether each required package is installed, each required
/// service enabled, each required file present, and the answer of each
/// verification command's probe (a command succeeds when it exited with its
/// expected exit code), in the manifest's order.
pub fn verify_from_manifest(
    manifest: &TemplateManifest,
    packages_installed: &Vec<bool>,
    services_enabled: &Vec<bool>,
    files_exist: &Vec<bool>,
    command_replies: &Vec<Result<String, String>>,
) -> (r: VerificationResult)
    requires
        packages_installed@.len() == manifest.verification.required_packages@.len(),
        services_enabled@.len() == manifest.verification.required_services@.len(),
        files_exist@.len() == manifest.verification.required_files@.len(),
        command_replies@.len() == manifest.verification.verification_commands@.len(),
    ensures
        check_views(r.checks@) == manifest_checks(
            *manifest,
            packages_installed@,
            services_enabled@,
            files_exist@,
            commands_passed(manifest.verification.verification_commands@, command_replies@),
        ),
        r.total == r.checks@.len(),
        r.passed_count == crate::builder::verification::select(r.checks@, true).len(),
        r.failed_count == r.total - r.passed_count,
        r.passed == (r.failed_count == 0),
{
    let v = &manifest.verification;
    let commands_ok = command_verdicts(&v.verification_commands, command_replies);
    let commands_ok = &commands_ok;
    let mut errors: Vec<String> = Vec::new();
    let cosmic = collect_missing(
        &mut errors,
        &v.required_packages,
        packages_installed,
        "Package ",
        " not installed",
        "cosmic",
    );
    let mut scratch: Vec<String> = Vec::new();
    let rustdesk = collect_missing(
        &mut scratch,
        &v.required_packages,
        packages_installed,
        "",
        "",
        "rustdesk",
    );
    let greeter = collect_missing(
        &mut errors,
        &v.required_services,
        services_enabled,
        "Service ",
        " not enabled",
        "greeter",
    );
    let _ = collect_missing(&mut errors, &v.required_files, files_exist, "File ", " not found", "");
    let mut labels: Vec<String> = Vec::new();
    let mut i: usize = 0;
    while i < v.verification_commands.len()
        invariant
            i <= v.verification_commands@.len(),
            views(labels@) == v.verification_commands@.take(i as int).map_values(
                |c: VerificationCommand| command_label(c),
            ),
        decreases v.verification_commands.len() - i,
    {
        let c = &v.verification_commands[i];
        let l = match &c.description {
            Some(d) => d.clone(),
            None => c.command.clone(),
        };
        assert(l@ == command_label(v.verification_commands@[i as int]));
        let ghost l0 = views(labels@);
        let ghost lv = l@;
        labels.push(l);
        assert(views(labels@) =~= l0.push(lv));
        assert(v.verification_commands@.take(i + 1) =~= v.verification_commands@.take(
            i as int,
        ).push(v.verification_commands@[i as int]));
        i = i + 1;
        assert(views(labels@) =~= v.verification_commands@.take(i as int).map_values(
            |c: VerificationCommand| command_label(c),
        ));
    }
    assert(v.verification_commands@.take(v.verification_commands@.len() as int)
        =~= v.verification_commands@);
    let _ = collect_missing(
        &mut errors,
        &labels,
        commands_ok,
        "Verification command failed: ",
        "",
        "",
    );
    proof {
        reveal_strlit("");
        assert(""@ =~= Seq::<char>::empty());
    }
    let mut checks: Vec<VerificationCheck> = Vec::new();
    let mut detail = String::new();
    push_decimal(&mut detail, cosmic as u64);
    push_str(&mut detail, " COSMIC packages found");
    checks.push(
        VerificationCheck { name: owned("COSMIC installed"), passed: cosmic > 0, details: Some(detail) },
    );
    checks.push(
        VerificationCheck { name: owned("COSMIC greeter enabled"), passed: greeter > 0, details: None },
    );
    checks.push(
        VerificationCheck { name: owned("RustDesk installed"), passed: rustdesk > 0, details: None },
    );
    checks.push(VerificationCheck { name: owned("SSH accessible"), passed: true, details: None });
    let ghost head = check_views(checks@);
    let ghost ev = views(errors@);
    let mut k: usize = 0;
    while k < errors.len()
        invariant
            k <= errors@.len(),
            ev == views(errors@),
            check_views(checks@) == head + ev.take(k as int).map_values(
                |e: Seq<char>| ("Verification"@, false, Some(e)),
            ),
        decreases errors.len() - k,
    {
        let ghost c0 = check_views(checks@);
        checks.push(
            VerificationCheck {
                name: owned("Verification"),
                passed: false,
                details: Some(errors[k].clone()),
            },
        );
        assert(check_views(checks@) =~= c0.push(("Verification"@, false, Some(ev[k as int]))));
        assert(ev.take(k + 1) =~= ev.take(k as int).push(ev[k as int]));
        k = k + 1;
        assert(check_views(checks@) =~= head + ev.take(k as int).map_values(
            |e: Seq<char>| ("Verification"@, false, Some(e)),
        ));
    }
    assert(ev.take(ev.len() as int) =~= ev);
    assert(check_views(checks@) =~= manifest_checks(
        *manifest,
        packages_installed@,
        services_enabled@,
        files_exist@,
        commands_ok@,
    ));
    VerificationResult::from_checks(checks)
}

} // verus!
