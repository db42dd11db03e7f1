//! Lab cleanup: the decisions of the VM cleanup utility.
//!
//! The VM registry and libvirt are driven by the utility itself; this module
//! holds what it computes: ages, process liveness marks, the files removed
//! with a VM, and the confirmation of a destructive command.

use crate::host::path_exists;
use crate::text::{decimal, owned, push_decimal, push_str, str_eq, trim, trim_str};
use vstd::prelude::*;

verus! {

/// Where the kernel lists process `pid`.
pub fn proc_path(pid: u32) -> (r: String)
    ensures
        r@ == "/proc/"@ + decimal(pid as nat),
{
    let mut r = owned("/proc/");
    push_decimal(&mut r, pid as u64);
    r
}

/// Whether process `pid` exists, by the presence of its `/proc` entry (Linux).
/// The answer depends on the running system; nothing more is stated.
pub fn process_exists(pid: u32) -> bool {
    let p = proc_path(pid);
    path_exists(p.as_str())
}

/// The age of a registry entry created at `created_at`, seen at `now`
/// (seconds): whole minutes with `m` under an hour, else whole hours with `h`.
pub fn age_label(now: u64, created_at: u64) -> (r: String)
    requires
        created_at <= now,
    ensures
        r@ == if (now - created_at) / 60 < 60 {
            decimal(((now - created_at) / 60) as nat) + "m"@
        } else {
            decimal(((now - created_at) / 60 / 60) as nat) + "h"@
        },
{
    let mins = (now - created_at) / 60;
    let mut r = String::new();
    if mins < 60 {
        push_decimal(&mut r, mins);
        push_str(&mut r, "m");
    } else {
        push_decimal(&mut r, mins / 60);
        push_str(&mut r, "h");
    }
    r
}

/// The PID column: the creator's PID, marked `*` when the process is gone
/// (the VM is orphaned).
pub fn pid_label(pid: u32, alive: bool) -> (r: String)
    ensures
        r@ == decimal(pid as nat) + if alive {
            Seq::<char>::empty()
        } else {
            "*"@
        },
{
    let mut r = String::new();
    push_decimal(&mut r, pid as u64);
    if !alive {
        push_str(&mut r, "*");
    }
    assert(alive ==> r@ =~= decimal(pid as nat) + Seq::<char>::empty());
    r
}

/// The image files removed with VM `vm_name`: its disk and its cloud-init ISO.
pub fn vm_disk_files(vm_name: &str) -> (r: (String, String))
    ensures
        r.0@ == vm_name@ + ".qcow2"@,
        r.1@ == vm_name@ + "-cidata.iso"@,
{
    let mut disk = owned(vm_name);
    push_str(&mut disk, ".qcow2");
    let mut iso = owned(vm_name);
    push_str(&mut iso, "-cidata.iso");
    (disk, iso)
}

/// Whether the answer to the confirmation prompt is `yes`, up to
/// surrounding whitespace.
pub fn confirmed(input: &str) -> (r: bool)
    ensures
        r == (trim(input@) == "yes"@),
{
    let t = trim_str(input);
    str_eq(t.as_str(), "yes")
}

} // verus!
