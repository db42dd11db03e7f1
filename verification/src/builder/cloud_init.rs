//! Cloud-init configuration planning from the manifest.
//!
//! The cloud-init user-data is described as the sequence of calls to make on
//! a cloud-init builder (with non-interactive APT configured first). Standard
//! infrastructure packages requested by post-boot steps are moved into
//! cloud-init; the post-boot steps keep the rest.

use crate::builder::image_builder::ImageBuilder;
use crate::host::path_exists;
use crate::templates::manifest::{BuildStep, PostBootStep, PostBootStepView, TemplateManifest};
use crate::templates::registry::{join_path, path_join};
use crate::text::{
    clone_opt, concat2, opt_seq, owned, push_str, split_char, split_on, str_eq,
    str_lowercase, to_lowercase, views,
};
use vstd::prelude::*;

verus! {

// ---------------------------------------------------------------------------
// Which packages go to cloud-init
// ---------------------------------------------------------------------------

/// Whether a lowercased package name is one of the lightweight
/// infrastructure packages installed by cloud-init.
pub open spec fn standard_lowercase(l: Seq<char>) -> bool {
    l == "openssh-server"@ || l == "curl"@ || l == "wget"@ || l == "net-tools"@
}

/// The lightweight infrastructure packages installed by cloud-init, in any case.
pub open spec fn standard_package(p: Seq<char>) -> bool {
    standard_lowercase(str_lowercase(p))
}

/// The packages of `ps` that are (`standard`) or are not standard, in order.
pub open spec fn keep_packages(ps: Seq<Seq<char>>, standard: bool) -> Seq<Seq<char>>
    decreases ps.len(),
{
    if ps.len() == 0 {
        Seq::empty()
    } else {
        let prev = keep_packages(ps.drop_last(), standard);
        if standard_package(ps.last()) == standard {
            prev.push(ps.last())
        } else {
            prev
        }
    }
}

/// Selection distributes over concatenation.
pub proof fn lemma_keep_append(a: Seq<Seq<char>>, b: Seq<Seq<char>>, standard: bool)
    ensures
        keep_packages(a + b, standard) == keep_packages(a, standard) + keep_packages(b, standard),
    decreases b.len(),
{
    if b.len() == 0 {
        assert(a + b =~= a);
        assert(keep_packages(a, standard) + Seq::<Seq<char>>::empty() =~= keep_packages(a, standard));
    } else {
        lemma_keep_append(a, b.drop_last(), standard);
        assert((a + b).drop_last() =~= a + b.drop_last());
        assert((a + b).last() == b.last());
        if standard_package(b.last()) == standard {
            assert((keep_packages(a, standard) + keep_packages(b.drop_last(), standard)).push(
                b.last(),
            ) =~= keep_packages(a, standard) + keep_packages(b.drop_last(), standard).push(
                b.last(),
            ));
        }
    }
}

/// The packages requested by the `InstallPackages` post-boot steps, in order.
pub open spec fn post_boot_packages(steps: Seq<PostBootStepView>) -> Seq<Seq<char>>
    decreases steps.len(),
{
    if steps.len() == 0 {
        Seq::empty()
    } else {
        post_boot_packages(steps.drop_last()) + match steps.last() {
            PostBootStepView::InstallPackages { packages, .. } => packages,
            _ => Seq::empty(),
        }
    }
}

/// The post-boot steps left once the standard packages move to cloud-init:
/// `InstallPackages` steps keep their other packages, or disappear when none
/// is left; other steps are unchanged.
pub open spec fn remaining_steps(steps: Seq<PostBootStepView>) -> Seq<PostBootStepView>
    decreases steps.len(),
{
    if steps.len() == 0 {
        Seq::empty()
    } else {
        let prev = remaining_steps(steps.drop_last());
        match steps.last() {
            PostBootStepView::InstallPackages { packages, retry, timeout_secs, description } => {
                let rest = keep_packages(packages, false);
                if rest.len() == 0 {
                    prev
                } else {
                    prev.push(
                        PostBootStepView::InstallPackages {
                            packages: rest,
                            retry,
                            timeout_secs,
                            description,
                        },
                    )
                }
            },
            other => prev.push(other),
        }
    }
}

/// The views of a sequence of post-boot steps.
pub open spec fn step_views(s: Seq<PostBootStep>) -> Seq<PostBootStepView> {
    s.map_values(|st: PostBootStep| st@)
}

/// Every requested post-boot package is installed exactly once: the standard
/// ones by cloud-init, the others by the remaining post-boot steps, each
/// side keeping the requested order.
pub proof fn law_packages_partition(steps: Seq<PostBootStepView>)
    ensures
        post_boot_packages(remaining_steps(steps)) == keep_packages(post_boot_packages(steps), false),
    decreases steps.len(),
{
    if steps.len() > 0 {
        law_packages_partition(steps.drop_last());
        let prev = remaining_steps(steps.drop_last());
        lemma_keep_append(post_boot_packages(steps.drop_last()), match steps.last() {
            PostBootStepView::InstallPackages { packages, .. } => packages,
            _ => Seq::empty(),
        }, false);
        match steps.last() {
            PostBootStepView::InstallPackages { packages, retry, timeout_secs, description } => {
                let rest = keep_packages(packages, false);
                if rest.len() == 0 {
                    assert(rest =~= Seq::<Seq<char>>::empty());
                    assert(post_boot_packages(prev) + rest =~= post_boot_packages(prev));
                } else {
                    let st = PostBootStepView::InstallPackages {
                        packages: rest,
                        retry,
                        timeout_secs,
                        description,
                    };
                    assert(prev.push(st).drop_last() =~= prev);
                }
            },
            other => {
                assert(prev.push(other).drop_last() =~= prev);
                assert(keep_packages(Seq::<Seq<char>>::empty(), false) =~= Seq::<Seq<char>>::empty());
                assert(post_boot_packages(prev) + Seq::<Seq<char>>::empty() =~= post_boot_packages(
                    prev,
                ));
            },
        }
    }
}

/// Whether a package is a standard infrastructure package, installed by cloud-init.
pub fn is_standard_apt_package(pkg: &str) -> (r: bool)
    ensures
        r == standard_package(pkg@),
{
    let lower = to_lowercase(pkg);
    is_standard_lowercase(lower.as_str())
}

/// Whether an already lowercased package name is a standard infrastructure package.
pub fn is_standard_lowercase(lower: &str) -> (r: bool)
    ensures
        r == standard_lowercase(lower@),
{
    str_eq(lower, "openssh-server") || str_eq(lower, "curl") || str_eq(lower, "wget") || str_eq(
        lower,
        "net-tools",
    )
}

/// The packages of `ps` that are (`standard`) or are not standard.
pub fn select_packages(ps: &Vec<String>, standard: bool) -> (r: Vec<String>)
    ensures
        views(r@) == keep_packages(views(ps@), standard),
{
    let mut r: Vec<String> = Vec::new();
    let mut i: usize = 0;
    while i < ps.len()
        invariant
            i <= ps@.len(),
            views(r@) == keep_packages(views(ps@).take(i as int), standard),
        decreases ps.len() - i,
    {
        proof {
            assert(views(ps@).take(i + 1).drop_last() =~= views(ps@).take(i as int));
            assert(views(ps@).take(i + 1).last() == ps@[i as int]@);
        }
        let ghost before = views(r@);
        if is_standard_apt_package(ps[i].as_str()) == standard {
            r.push(ps[i].clone());
            assert(views(r@) =~= before.push(ps@[i as int]@));
        }
        i = i + 1;
    }
    assert(views(ps@).take(ps@.len() as int) =~= views(ps@));
    r
}

impl ImageBuilder {
    /// Whether a package is installed by cloud-init rather than post-boot.
    pub fn is_standard_apt_package(pkg: &str) -> (r: bool)
        ensures
            r == standard_package(pkg@),
    {
        is_standard_apt_package(pkg)
    }

    /// The standard packages requested by the post-boot steps, to be installed by cloud-init.
    pub fn extract_cloud_init_packages(&self) -> (r: Vec<String>)
        ensures
            views(r@) == keep_packages(
                post_boot_packages(step_views(self.spec_manifest().post_boot_steps@)),
                true,
            ),
    {
        let steps = &self.manifest().post_boot_steps;
        let ghost sv = step_views(steps@);
        let mut r: Vec<String> = Vec::new();
        let mut i: usize = 0;
        while i < steps.len()
            invariant
                sv == step_views(steps@),
                i <= steps@.len(),
                views(r@) == keep_packages(post_boot_packages(sv.take(i as int)), true),
            decreases steps.len() - i,
        {
            proof {
                assert(sv.take(i + 1).drop_last() =~= sv.take(i as int));
                assert(sv.take(i + 1).last() == steps@[i as int]@);
            }
            match &steps[i] {
                PostBootStep::InstallPackages { packages, .. } => {
                    let picked = select_packages(packages, true);
                    proof {
                        lemma_keep_append(
                            post_boot_packages(sv.take(i as int)),
                            views(packages@),
                            true,
                        );
                    }
                    crate::builder::verification::requirements::append_copies(&mut r, &picked);
                },
                _ => {
                    proof {
                        assert(post_boot_packages(sv.take(i as int)) + Seq::<Seq<char>>::empty()
                            =~= post_boot_packages(sv.take(i as int)));
                    }
                },
            }
            i = i + 1;
        }
        assert(sv.take(steps@.len() as int) =~= sv);
        r
    }

    /// The post-boot steps without the packages that cloud-init installs.
    pub fn filter_post_boot_steps(&self) -> (r: Vec<PostBootStep>)
        ensures
            step_views(r@) == remaining_steps(step_views(self.spec_manifest().post_boot_steps@)),
    {
        let steps = &self.manifest().post_boot_steps;
        let ghost sv = step_views(steps@);
        let mut r: Vec<PostBootStep> = Vec::new();
        let mut i: usize = 0;
        while i < steps.len()
            invariant
                sv == step_views(steps@),
                i <= steps@.len(),
                step_views(r@) == remaining_steps(sv.take(i as int)),
            decreases steps.len() - i,
        {
            proof {
                assert(sv.take(i + 1).drop_last() =~= sv.take(i as int));
                assert(sv.take(i + 1).last() == steps@[i as int]@);
            }
            let ghost before = step_views(r@);
            match &steps[i] {
                PostBootStep::InstallPackages { packages, retry, timeout_secs, description } => {
                    let rest = select_packages(packages, false);
                    if rest.len() > 0 {
                        let st = PostBootStep::InstallPackages {
                            packages: rest,
                            retry: *retry,
                            timeout_secs: *timeout_secs,
                            description: clone_opt(description),
                        };
                        let ghost v = st@;
                        r.push(st);
                        assert(step_views(r@) =~= before.push(v));
                    }
                },
                other => {
                    let st = other.duplicate();
                    let ghost v = st@;
                    r.push(st);
                    assert(step_views(r@) =~= before.push(v));
                },
            }
            i = i + 1;
        }
        assert(sv.take(steps@.len() as int) =~= sv);
        r
    }
}

// ---------------------------------------------------------------------------
// The cloud-init plan
// ---------------------------------------------------------------------------

/// One call on the cloud-init builder.
#[derive(Debug, Clone)]
pub enum CloudInitAction {
    /// Add a user with an SSH public key.
    AddUser {
        /// Username.
        name: String,
        /// SSH public key.
        ssh_key: String,
    },
    /// Install a list of packages.
    Packages(Vec<String>),
    /// Install one package.
    Package(String),
    /// Run a group of commands.
    RunCmd(Vec<String>),
}

/// The abstract value of a cloud-init call.
pub enum CloudInitActionView {
    /// Add a user with an SSH public key.
    AddUser {
        /// Username.
        name: Seq<char>,
        /// SSH public key.
        ssh_key: Seq<char>,
    },
    /// Install a list of packages.
    Packages(Seq<Seq<char>>),
    /// Install one package.
    Package(Seq<char>),
    /// Run a group of commands.
    RunCmd(Seq<Seq<char>>),
}

impl View for CloudInitAction {
    type V = CloudInitActionView;

    open spec fn view(&self) -> CloudInitActionView {
        match *self {
            CloudInitAction::AddUser { name, ssh_key } => CloudInitActionView::AddUser {
                name: name@,
                ssh_key: ssh_key@,
            },
            CloudInitAction::Packages(ps) => CloudInitActionView::Packages(views(ps@)),
            CloudInitAction::Package(p) => CloudInitActionView::Package(p@),
            CloudInitAction::RunCmd(cs) => CloudInitActionView::RunCmd(views(cs@)),
        }
    }
}

/// The views of a sequence of cloud-init calls.
pub open spec fn action_views(s: Seq<CloudInitAction>) -> Seq<CloudInitActionView> {
    s.map_values(|a: CloudInitAction| a@)
}

/// The cloud-init configuration: the calls to make, in order, after enabling
/// non-interactive APT.
#[derive(Debug, Clone)]
pub struct CloudInitPlan {
    /// Builder calls, in order.
    pub actions: Vec<CloudInitAction>,
}

/// The calls for one build step; `local` is a local copy of a file to download, if found.
pub open spec fn build_step_actions(step: BuildStep, local: Option<Seq<char>>) -> Seq<
    CloudInitActionView,
> {
    match step {
        BuildStep::InstallPackages { packages } => views(packages@).map_values(
            |p: Seq<char>| CloudInitActionView::Package(p),
        ),
        BuildStep::RunCommand { command, .. } => seq![CloudInitActionView::RunCmd(seq![command@])],
        BuildStep::EnableService { service } => seq![
            CloudInitActionView::RunCmd(
                seq!["systemctl enable "@ + service@, "systemctl start "@ + service@],
            ),
        ],
        BuildStep::CreateFile { path, content, .. } => seq![
            CloudInitActionView::RunCmd(
                seq![
                    "cat > "@ + path@ + " <<'EOFAGENTREAGENTS'\n"@ + content@
                        + "\nEOFAGENTREAGENTS"@,
                ],
            ),
        ],
        BuildStep::WaitCloudInit { .. } => Seq::empty(),
        BuildStep::DownloadFile { url, dest } => match local {
            Some(l) => seq![
                CloudInitActionView::RunCmd(
                    seq![
                        "# Local file available at: "@ + l,
                        "curl -fsSL -o "@ + dest@ + " "@ + url@ + " || cp "@ + l + " "@ + dest@
                            + " || true"@,
                    ],
                ),
            ],
            None => seq![CloudInitActionView::RunCmd(seq!["curl -fsSL -o "@ + dest@ + " "@ + url@])],
        },
        BuildStep::AddRepository { name, url, key_url } => seq![
            CloudInitActionView::RunCmd(
                match key_url {
                    Some(k) => seq![
                        "curl -fsSL "@ + k@ + " | gpg --dearmor -o /etc/apt/keyrings/"@ + name@
                            + ".gpg"@,
                    ],
                    None => Seq::empty(),
                } + seq![
                    "echo 'deb [signed-by=/etc/apt/keyrings/"@ + name@ + ".gpg] "@ + url@
                        + " noble main' | tee /etc/apt/sources.list.d/"@ + name@ + ".list"@,
                    "apt-get update"@,
                ],
            ),
        ],
        BuildStep::Reboot { .. } => seq![CloudInitActionView::RunCmd(seq!["reboot"@])],
    }
}

/// The calls for a sequence of build steps, with the local copies found for them.
pub open spec fn build_steps_actions(steps: Seq<BuildStep>, locals: Seq<Option<String>>) -> Seq<
    CloudInitActionView,
>
    decreases steps.len(),
{
    if steps.len() == 0 || locals.len() != steps.len() {
        Seq::empty()
    } else {
        build_steps_actions(steps.drop_last(), locals.drop_last()) + build_step_actions(
            steps.last(),
            opt_seq(locals.last()),
        )
    }
}

/// The user calls: each manifest user with the key, or a `builder` user when none is named.
pub open spec fn user_actions(m: TemplateManifest, key: Seq<char>) -> Seq<CloudInitActionView> {
    if m.users@.len() == 0 {
        seq![CloudInitActionView::AddUser { name: "builder"@, ssh_key: key }]
    } else {
        m.users@.map_values(|u: crate::templates::manifest::UserConfig|
            CloudInitActionView::AddUser { name: u.name@, ssh_key: key },
        )
    }
}

/// The whole plan: users, then the standard post-boot packages (if any), then the build steps.
pub open spec fn plan_actions(m: TemplateManifest, key: Seq<char>, locals: Seq<Option<String>>) -> Seq<
    CloudInitActionView,
> {
    let bulk = keep_packages(post_boot_packages(step_views(m.post_boot_steps@)), true);
    user_actions(m, key) + (if bulk.len() > 0 {
        seq![CloudInitActionView::Packages(bulk)]
    } else {
        Seq::empty()
    }) + build_steps_actions(m.build_steps@, locals)
}

/// The calls for one build step.
fn step_actions(step: &BuildStep, local: &Option<String>) -> (r: Vec<CloudInitAction>)
    ensures
        action_views(r@) == build_step_actions(*step, opt_seq(*local)),
{
    let mut r: Vec<CloudInitAction> = Vec::new();
    match step {
        BuildStep::InstallPackages { packages } => {
            let mut i: usize = 0;
            while i < packages.len()
                invariant
                    i <= packages@.len(),
                    action_views(r@) == views(packages@).take(i as int).map_values(
                        |p: Seq<char>| CloudInitActionView::Package(p),
                    ),
                decreases packages.len() - i,
            {
                let ghost before = action_views(r@);
                let a = CloudInitAction::Package(packages[i].clone());
                r.push(a);
                assert(action_views(r@) =~= before.push(
                    CloudInitActionView::Package(packages@[i as int]@),
                ));
                i = i + 1;
                assert(action_views(r@) =~= views(packages@).take(i as int).map_values(
                    |p: Seq<char>| CloudInitActionView::Package(p),
                ));
            }
            assert(views(packages@).take(packages@.len() as int) =~= views(packages@));
            assert(action_views(r@) =~= build_step_actions(*step, opt_seq(*local)));
        },
        BuildStep::RunCommand { command, .. } => {
            let mut cmds: Vec<String> = Vec::new();
            cmds.push(command.clone());
            assert(views(cmds@) =~= seq![command@]);
            let ghost cv = views(cmds@);
            r.push(CloudInitAction::RunCmd(cmds));
            assert(action_views(r@) =~= seq![CloudInitActionView::RunCmd(cv)]);
            assert(action_views(r@) =~= build_step_actions(*step, opt_seq(*local)));
        },
        BuildStep::EnableService { service } => {
            let mut cmds: Vec<String> = Vec::new();
            cmds.push(concat2("systemctl enable ", service.as_str()));
            cmds.push(concat2("systemctl start ", service.as_str()));
            assert(views(cmds@) =~= seq![
                "systemctl enable "@ + service@,
                "systemctl start "@ + service@,
            ]);
            let ghost cv = views(cmds@);
            r.push(CloudInitAction::RunCmd(cmds));
            assert(action_views(r@) =~= seq![CloudInitActionView::RunCmd(cv)]);
            assert(action_views(r@) =~= build_step_actions(*step, opt_seq(*local)));
        },
        BuildStep::CreateFile { path, content, .. } => {
            let mut c = owned("cat > ");
            push_str(&mut c, path.as_str());
            push_str(&mut c, " <<'EOFAGENTREAGENTS'\n");
            push_str(&mut c, content.as_str());
            push_str(&mut c, "\nEOFAGENTREAGENTS");
            let mut cmds: Vec<String> = Vec::new();
            cmds.push(c);
            assert(views(cmds@) =~= seq![
                "cat > "@ + path@ + " <<'EOFAGENTREAGENTS'\n"@ + content@ + "\nEOFAGENTREAGENTS"@,
            ]);
            let ghost cv = views(cmds@);
            r.push(CloudInitAction::RunCmd(cmds));
            assert(action_views(r@) =~= seq![CloudInitActionView::RunCmd(cv)]);
            assert(action_views(r@) =~= build_step_actions(*step, opt_seq(*local)));
        },
        BuildStep::WaitCloudInit { .. } => {
            assert(action_views(r@) =~= build_step_actions(*step, opt_seq(*local)));
        },
        BuildStep::DownloadFile { url, dest } => {
            let mut cmds: Vec<String> = Vec::new();
            match local {
                Some(l) => {
                    cmds.push(concat2("# Local file available at: ", l.as_str()));
                    let mut c = owned("curl -fsSL -o ");
                    push_str(&mut c, dest.as_str());
                    push_str(&mut c, " ");
                    push_str(&mut c, url.as_str());
                    push_str(&mut c, " || cp ");
                    push_str(&mut c, l.as_str());
                    push_str(&mut c, " ");
                    push_str(&mut c, dest.as_str());
                    push_str(&mut c, " || true");
                    cmds.push(c);
                    assert(views(cmds@) =~= seq![
                        "# Local file available at: "@ + l@,
                        "curl -fsSL -o "@ + dest@ + " "@ + url@ + " || cp "@ + l@ + " "@ + dest@
                            + " || true"@,
                    ]);
                },
                None => {
                    let mut c = owned("curl -fsSL -o ");
                    push_str(&mut c, dest.as_str());
                    push_str(&mut c, " ");
                    push_str(&mut c, url.as_str());
                    cmds.push(c);
                    assert(views(cmds@) =~= seq!["curl -fsSL -o "@ + dest@ + " "@ + url@]);
                },
            }
            let ghost cv = views(cmds@);
            r.push(CloudInitAction::RunCmd(cmds));
            assert(action_views(r@) =~= seq![CloudInitActionView::RunCmd(cv)]);
            assert(action_views(r@) =~= build_step_actions(*step, opt_seq(*local)));
        },
        BuildStep::AddRepository { name, url, key_url } => {
            let mut cmds: Vec<String> = Vec::new();
            match key_url {
                Some(k) => {
                    let mut c = owned("curl -fsSL ");
                    push_str(&mut c, k.as_str());
                    push_str(&mut c, " | gpg --dearmor -o /etc/apt/keyrings/");
                    push_str(&mut c, name.as_str());
                    push_str(&mut c, ".gpg");
                    cmds.push(c);
                    assert(views(cmds@) =~= seq![
                        "curl -fsSL "@ + k@ + " | gpg --dearmor -o /etc/apt/keyrings/"@ + name@
                            + ".gpg"@,
                    ]);
                },
                None => {
                    assert(views(cmds@) =~= Seq::<Seq<char>>::empty());
                },
            }
            let ghost key_cmds = views(cmds@);
            let mut c = owned("echo 'deb [signed-by=/etc/apt/keyrings/");
            push_str(&mut c, name.as_str());
            push_str(&mut c, ".gpg] ");
            push_str(&mut c, url.as_str());
            push_str(&mut c, " noble main' | tee /etc/apt/sources.list.d/");
            push_str(&mut c, name.as_str());
            push_str(&mut c, ".list");
            cmds.push(c);
            cmds.push(owned("apt-get update"));
            assert(views(cmds@) =~= key_cmds + seq![
                "echo 'deb [signed-by=/etc/apt/keyrings/"@ + name@ + ".gpg] "@ + url@
                    + " noble main' | tee /etc/apt/sources.list.d/"@ + name@ + ".list"@,
                "apt-get update"@,
            ]);
            let ghost cv = views(cmds@);
            r.push(CloudInitAction::RunCmd(cmds));
            assert(action_views(r@) =~= seq![CloudInitActionView::RunCmd(cv)]);
            assert(action_views(r@) =~= build_step_actions(*step, opt_seq(*local)));
        },
        BuildStep::Reboot { .. } => {
            let mut cmds: Vec<String> = Vec::new();
            cmds.push(owned("reboot"));
            assert(views(cmds@) =~= seq!["reboot"@]);
            let ghost cv = views(cmds@);
            r.push(CloudInitAction::RunCmd(cmds));
            assert(action_views(r@) =~= seq![CloudInitActionView::RunCmd(cv)]);
            assert(action_views(r@) =~= build_step_actions(*step, opt_seq(*local)));
        },
    }
    r
}

/// Appends `src` to `dst`.
fn append_actions(dst: &mut Vec<CloudInitAction>, src: Vec<CloudInitAction>)
    ensures
        action_views(final(dst)@) == action_views(old(dst)@) + action_views(src@),
{
    let mut src = src;
    let ghost d0 = action_views(dst@);
    let ghost s0 = action_views(src@);
    dst.append(&mut src);
    assert(action_views(dst@) =~= d0 + s0);
}

impl ImageBuilder {
    /// The cloud-init configuration for the manifest, with `ssh_public_key`
    /// for every user. `local_files[i]` is a local copy found for the file
    /// downloaded by build step `i`, if any.
    pub fn create_cloud_init_with_locals(&self, ssh_public_key: String, local_files: &Vec<Option<String>>) -> (r:
        CloudInitPlan)
        requires
            local_files@.len() == self.spec_manifest().build_steps@.len(),
        ensures
            action_views(r.actions@) == plan_actions(
                self.spec_manifest(),
                ssh_public_key@,
                local_files@,
            ),
    {
        let m = self.manifest();
        let mut actions: Vec<CloudInitAction> = Vec::new();
        if m.users.len() == 0 {
            actions.push(
                CloudInitAction::AddUser { name: owned("builder"), ssh_key: ssh_public_key.clone() },
            );
            assert(action_views(actions@) =~= user_actions(*m, ssh_public_key@));
        } else {
            let mut i: usize = 0;
            while i < m.users.len()
                invariant
                    i <= m.users@.len(),
                    action_views(actions@) == m.users@.take(i as int).map_values(
                        |u: crate::templates::manifest::UserConfig|
                            CloudInitActionView::AddUser { name: u.name@, ssh_key: ssh_public_key@ },
                    ),
                decreases m.users.len() - i,
            {
                let ghost before = action_views(actions@);
                actions.push(
                    CloudInitAction::AddUser {
                        name: m.users[i].name.clone(),
                        ssh_key: ssh_public_key.clone(),
                    },
                );
                assert(action_views(actions@) =~= before.push(
                    CloudInitActionView::AddUser {
                        name: m.users@[i as int].name@,
                        ssh_key: ssh_public_key@,
                    },
                ));
                i = i + 1;
                assert(action_views(actions@) =~= m.users@.take(i as int).map_values(
                    |u: crate::templates::manifest::UserConfig|
                        CloudInitActionView::AddUser { name: u.name@, ssh_key: ssh_public_key@ },
                ));
            }
            assert(m.users@.take(m.users@.len() as int) =~= m.users@);
        }
        let ghost after_users = action_views(actions@);
        let bulk = self.extract_cloud_init_packages();
        if bulk.len() > 0 {
            let ghost bv = views(bulk@);
            actions.push(CloudInitAction::Packages(bulk));
            assert(action_views(actions@) =~= after_users + seq![CloudInitActionView::Packages(bv)]);
        } else {
            assert(action_views(actions@) =~= after_users + Seq::<CloudInitActionView>::empty());
        }
        let ghost head = action_views(actions@);
        let mut i: usize = 0;
        while i < m.build_steps.len()
            invariant
                i <= m.build_steps@.len(),
                local_files@.len() == m.build_steps@.len(),
                action_views(actions@) == head + build_steps_actions(
                    m.build_steps@.take(i as int),
                    local_files@.take(i as int),
                ),
            decreases m.build_steps.len() - i,
        {
            proof {
                assert(m.build_steps@.take(i + 1).drop_last() =~= m.build_steps@.take(i as int));
                assert(local_files@.take(i + 1).drop_last() =~= local_files@.take(i as int));
            }
            let more = step_actions(&m.build_steps[i], &local_files[i]);
            append_actions(&mut actions, more);
            i = i + 1;
            assert(action_views(actions@) =~= head + build_steps_actions(
                m.build_steps@.take(i as int),
                local_files@.take(i as int),
            ));
        }
        assert(m.build_steps@.take(m.build_steps@.len() as int) =~= m.build_steps@);
        assert(local_files@.take(local_files@.len() as int) =~= local_files@);
        CloudInitPlan { actions }
    }
}

// ---------------------------------------------------------------------------
// Local copies of downloads
// ---------------------------------------------------------------------------

/// The file name of a URL: the text after its last `/`.
pub open spec fn url_file_name(url: Seq<char>) -> Seq<char> {
    split_on(url, '/').last()
}

/// Where a local copy of a download is looked for, in order.
pub open spec fn local_candidates_text(url: Seq<char>) -> Seq<Seq<char>> {
    let f = url_file_name(url);
    seq![
        path_join("packages"@, f),
        path_join("debs/remote-desktop"@, f),
        path_join("../packages"@, f),
        path_join("../debs/remote-desktop"@, f),
    ]
}

/// Where a local copy of the file at `url` is looked for, in order.
pub fn local_package_candidates(url: &str) -> (r: Vec<String>)
    ensures
        views(r@) == local_candidates_text(url@),
{
    let pieces = split_char(url, '/');
    proof {
        crate::text::lemma_split_on_nonempty(url@, '/');
    }
    let f = pieces[pieces.len() - 1].as_str();
    assert(f@ == views(pieces@)[pieces@.len() - 1]);
    let mut r: Vec<String> = Vec::new();
    r.push(join_path("packages", f));
    r.push(join_path("debs/remote-desktop", f));
    r.push(join_path("../packages", f));
    r.push(join_path("../debs/remote-desktop", f));
    assert(views(r@) =~= local_candidates_text(url@));
    r
}

/// The first of `candidates`, from position `i` on, whose entry in `found`
/// is `true`; a candidate without an entry in `found` counts as not found.
pub open spec fn first_existing(candidates: Seq<Seq<char>>, found: Seq<bool>, i: nat) -> Option<
    Seq<char>,
>
    decreases candidates.len() - i,
{
    if i >= candidates.len() || i >= found.len() {
        None
    } else if found[i as int] {
        Some(candidates[i as int])
    } else {
        first_existing(candidates, found, i + 1)
    }
}

/// The first candidate found: `found[i]` tells whether a file exists at
/// `candidates[i]`.
pub fn first_existing_candidate(candidates: &Vec<String>, found: &Vec<bool>) -> (r: Option<String>)
    ensures
        opt_seq(r) == first_existing(views(candidates@), found@, 0),
{
    let mut i: usize = 0;
    while i < candidates.len() && i < found.len()
        invariant
            i <= candidates@.len(),
            first_existing(views(candidates@), found@, 0) == first_existing(
                views(candidates@),
                found@,
                i as nat,
            ),
        decreases candidates.len() - i,
    {
        if found[i] {
            return Some(candidates[i].clone());
        }
        i = i + 1;
    }
    None
}

/// A local copy of the file at `url`: the first of its candidate locations
/// where a file exists (`None` when there is none). The locations are probed
/// in order and probing stops at the first one found; which of them exist
/// depends on the file system, so the contract says that the answer is the
/// first candidate found for some answers of those probes.
pub fn find_local_package(url: &str) -> (r: Option<String>)
    ensures
        exists|found: Seq<bool>|
            found.len() <= local_candidates_text(url@).len() && opt_seq(r) == first_existing(
                local_candidates_text(url@),
                found,
                0,
            ),
        r matches Some(p) ==> local_candidates_text(url@).contains(p@),
{
    let candidates = local_package_candidates(url);
    let mut found: Vec<bool> = Vec::new();
    let mut i: usize = 0;
    while i < candidates.len()
        invariant_except_break
            found@.len() == i,
        invariant
            i <= candidates@.len(),
            found@.len() <= candidates@.len(),
            views(candidates@) == local_candidates_text(url@),
        ensures
            found@.len() <= candidates@.len(),
            views(candidates@) == local_candidates_text(url@),
        decreases candidates.len() - i,
    {
        let here = path_exists(candidates[i].as_str());
        found.push(here);
        if here {
            break;
        }
        i = i + 1;
    }
    let r = first_existing_candidate(&candidates, &found);
    proof {
        lemma_first_existing_member(views(candidates@), found@, 0);
    }
    r
}

/// What `first_existing` picks is one of the candidates.
proof fn lemma_first_existing_member(candidates: Seq<Seq<char>>, found: Seq<bool>, i: nat)
    ensures
        first_existing(candidates, found, i) matches Some(p) ==> candidates.contains(p),
    decreases candidates.len() - i,
{
    if i < candidates.len() && i < found.len() {
        if found[i as int] {
            assert(candidates[i as int] == candidates[i as int]);
        } else {
            lemma_first_existing_member(candidates, found, i + 1);
        }
    }
}

/// Whether `locals` are local copies that may have been found for the build
/// steps: one entry per step, and only a download step has one, among the
/// candidate locations of its URL.
pub open spec fn found_locals(steps: Seq<BuildStep>, locals: Seq<Option<String>>) -> bool {
    &&& locals.len() == steps.len()
    &&& forall|i: int|
        0 <= i < steps.len() ==> match #[trigger] locals[i] {
            Some(p) => steps[i] matches BuildStep::DownloadFile { url, .. }
                && local_candidates_text(url@).contains(p@),
            None => true,
        }
}

impl ImageBuilder {
    /// The cloud-init configuration for the manifest, with `ssh_public_key`
    /// for every user, and with the local copies found on this machine for
    /// the files that build steps download.
    pub fn create_cloud_init(&self, ssh_public_key: String) -> (r: CloudInitPlan)
        ensures
            exists|locals: Seq<Option<String>>|
                found_locals(self.spec_manifest().build_steps@, locals) && action_views(r.actions@)
                    == plan_actions(self.spec_manifest(), ssh_public_key@, locals),
    {
        let steps = &self.manifest().build_steps;
        let mut locals: Vec<Option<String>> = Vec::new();
        let mut i: usize = 0;
        while i < steps.len()
            invariant
                i <= steps@.len(),
                steps@ == self.spec_manifest().build_steps@,
                found_locals(steps@.take(i as int), locals@),
            decreases steps.len() - i,
        {
            let found = match &steps[i] {
                BuildStep::DownloadFile { url, .. } => find_local_package(url.as_str()),
                _ => None,
            };
            let ghost before = locals@;
            locals.push(found);
            assert(steps@.take(i + 1) =~= steps@.take(i as int).push(steps@[i as int]));
            assert forall|k: int| 0 <= k < i + 1 implies match #[trigger] locals@[k] {
                Some(p) => steps@.take(i + 1)[k] matches BuildStep::DownloadFile { url, .. }
                    && local_candidates_text(url@).contains(p@),
                None => true,
            } by {
                if k < i {
                    assert(locals@[k] == before[k]);
                    assert(steps@.take(i + 1)[k] == steps@.take(i as int)[k]);
                }
            }
            i = i + 1;
        }
        assert(steps@.take(steps@.len() as int) =~= steps@);
        let r = self.create_cloud_init_with_locals(ssh_public_key, &locals);
        assert(found_locals(self.spec_manifest().build_steps@, locals@));
        r
    }
}

// ---------------------------------------------------------------------------
// Laws
// ---------------------------------------------------------------------------

/// `cmd` writes `body` to `path` as a heredoc: it is `cat > path` with the
/// heredoc marker, then exactly `body`, then the closing marker.
pub open spec fn writes_heredoc(cmd: Seq<char>, path: Seq<char>, body: Seq<char>) -> bool {
    let head = "cat > "@ + path + " <<'EOFAGENTREAGENTS'\n"@;
    let tail = "\nEOFAGENTREAGENTS"@;
    &&& cmd.len() == head.len() + body.len() + tail.len()
    &&& cmd.subrange(0, head.len() as int) == head
    &&& cmd.subrange(head.len() as int, (head.len() + body.len()) as int) == body
    &&& cmd.subrange(cmd.len() - tail.len(), cmd.len() as int) == tail
}

/// Every call of a build step's block appears in the calls of all the steps.
proof fn lemma_step_call_in_steps(steps: Seq<BuildStep>, locals: Seq<Option<String>>, i: int, t: int)
    requires
        locals.len() == steps.len(),
        0 <= i < steps.len(),
        0 <= t < build_step_actions(steps[i], opt_seq(locals[i])).len(),
    ensures
        build_steps_actions(steps, locals).contains(
            build_step_actions(steps[i], opt_seq(locals[i]))[t],
        ),
    decreases steps.len(),
{
    let prev = build_steps_actions(steps.drop_last(), locals.drop_last());
    let blk = build_step_actions(steps.last(), opt_seq(locals.last()));
    let all = build_steps_actions(steps, locals);
    assert(all == prev + blk);
    let x = build_step_actions(steps[i], opt_seq(locals[i]))[t];
    if i == steps.len() - 1 {
        assert(all[prev.len() + t] == x);
    } else {
        assert(steps.drop_last()[i] == steps[i]);
        assert(locals.drop_last()[i] == locals[i]);
        lemma_step_call_in_steps(steps.drop_last(), locals.drop_last(), i, t);
        let j = choose|j: int| 0 <= j < prev.len() && prev[j] == x;
        assert(all[j] == x);
    }
}

/// A file-creating build step is carried out by the plan: the plan runs a
/// command that writes exactly the step's content to the step's path.
pub proof fn law_create_file_writes_content(
    m: TemplateManifest,
    key: Seq<char>,
    locals: Seq<Option<String>>,
    i: int,
    path: String,
    content: String,
    mode: Option<String>,
)
    requires
        locals.len() == m.build_steps@.len(),
        0 <= i < m.build_steps@.len(),
        m.build_steps@[i] == (BuildStep::CreateFile { path, content, mode }),
    ensures
        exists|cmd: Seq<char>|
            #[trigger] writes_heredoc(cmd, path@, content@) && plan_actions(m, key, locals).contains(
                CloudInitActionView::RunCmd(seq![cmd]),
            ),
{
    let head = "cat > "@ + path@ + " <<'EOFAGENTREAGENTS'\n"@;
    let tail = "\nEOFAGENTREAGENTS"@;
    let cmd = head + content@ + tail;
    assert(cmd.subrange(0, head.len() as int) =~= head);
    assert(cmd.subrange(head.len() as int, (head.len() + content@.len()) as int) =~= content@);
    assert(cmd.subrange(cmd.len() - tail.len(), cmd.len() as int) =~= tail);
    assert(writes_heredoc(cmd, path@, content@));
    let a = CloudInitActionView::RunCmd(seq![cmd]);
    assert(build_step_actions(m.build_steps@[i], opt_seq(locals[i]))[0] == a);
    lemma_step_call_in_steps(m.build_steps@, locals, i, 0);
    let steps_calls = build_steps_actions(m.build_steps@, locals);
    let j = choose|j: int| 0 <= j < steps_calls.len() && steps_calls[j] == a;
    let bulk = keep_packages(post_boot_packages(step_views(m.post_boot_steps@)), true);
    let front = user_actions(m, key) + (if bulk.len() > 0 {
        seq![CloudInitActionView::Packages(bulk)]
    } else {
        Seq::empty()
    });
    assert(plan_actions(m, key, locals) == front + steps_calls);
    assert(plan_actions(m, key, locals)[front.len() + j] == a);
}

} // verus!
