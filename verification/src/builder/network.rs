//! Network monitoring and recovery policy for VM builds.
//!
//! The connectivity checks themselves (a TCP connect to the SSH port and a
//! read of the SSH banner) are made by the caller; this module holds the
//! monitor's configuration, reads the banner, counts failures, decides when
//! to attempt recovery and which recovery commands to run, and keeps the
//! bookkeeping of bounded retries.

use crate::text::{decimal, join, owned, push_decimal, push_str};
use vstd::prelude::*;

verus! {

/// Network monitoring configuration for one VM.
#[derive(Debug, Clone)]
pub struct NetworkMonitor {
    vm_ip: String,
    ssh_port: u16,
    check_interval_secs: u64,
    check_interval_nanos: u32,
    max_failures: usize,
    check_timeout_secs: u64,
    check_timeout_nanos: u32,
}

impl NetworkMonitor {
    /// The monitored address.
    pub closed spec fn spec_vm_ip(&self) -> Seq<char> {
        self.vm_ip@
    }

    /// The SSH port probed.
    pub closed spec fn spec_ssh_port(&self) -> u16 {
        self.ssh_port
    }

    /// Time between checks (seconds, nanoseconds).
    pub closed spec fn spec_check_interval(&self) -> (u64, u32) {
        (self.check_interval_secs, self.check_interval_nanos)
    }

    /// Consecutive failures before recovery is attempted.
    pub closed spec fn spec_max_failures(&self) -> usize {
        self.max_failures
    }

    /// Timeout of each check (seconds, nanoseconds).
    pub closed spec fn spec_check_timeout(&self) -> (u64, u32) {
        (self.check_timeout_secs, self.check_timeout_nanos)
    }

    /// A monitor for `vm_ip`: port 22, a check every 10 s, recovery after 3
    /// consecutive failures, 5 s per check.
    pub fn new(vm_ip: String) -> (r: Self)
        ensures
            r.spec_vm_ip() == vm_ip@,
            r.spec_ssh_port() == 22,
            r.spec_check_interval() == (10u64, 0u32),
            r.spec_max_failures() == 3,
            r.spec_check_timeout() == (5u64, 0u32),
    {
        NetworkMonitor {
            vm_ip,
            ssh_port: 22,
            check_interval_secs: 10,
            check_interval_nanos: 0,
            max_failures: 3,
            check_timeout_secs: 5,
            check_timeout_nanos: 0,
        }
    }

    /// Sets the time between checks.
    pub fn with_check_interval(self, secs: u64, nanos: u32) -> (r: Self)
        ensures
            r.spec_check_interval() == (secs, nanos),
            r.spec_vm_ip() == self.spec_vm_ip(),
            r.spec_ssh_port() == self.spec_ssh_port(),
            r.spec_max_failures() == self.spec_max_failures(),
            r.spec_check_timeout() == self.spec_check_timeout(),
    {
        NetworkMonitor { check_interval_secs: secs, check_interval_nanos: nanos, ..self }
    }

    /// Sets the number of consecutive failures before recovery.
    pub fn with_max_failures(self, max: usize) -> (r: Self)
        ensures
            r.spec_max_failures() == max,
            r.spec_vm_ip() == self.spec_vm_ip(),
            r.spec_ssh_port() == self.spec_ssh_port(),
            r.spec_check_interval() == self.spec_check_interval(),
            r.spec_check_timeout() == self.spec_check_timeout(),
    {
        NetworkMonitor { max_failures: max, ..self }
    }

    /// Sets the timeout of each check.
    pub fn with_check_timeout(self, secs: u64, nanos: u32) -> (r: Self)
        ensures
            r.spec_check_timeout() == (secs, nanos),
            r.spec_vm_ip() == self.spec_vm_ip(),
            r.spec_ssh_port() == self.spec_ssh_port(),
            r.spec_check_interval() == self.spec_check_interval(),
            r.spec_max_failures() == self.spec_max_failures(),
    {
        NetworkMonitor { check_timeout_secs: secs, check_timeout_nanos: nanos, ..self }
    }

    /// The monitored address.
    pub fn vm_ip(&self) -> (r: &str)
        ensures
            r@ == self.spec_vm_ip(),
    {
        self.vm_ip.as_str()
    }

    /// The SSH port probed.
    pub fn ssh_port(&self) -> (r: u16)
        ensures
            r == self.spec_ssh_port(),
    {
        self.ssh_port
    }

    /// Time between checks.
    pub fn check_interval(&self) -> (r: (u64, u32))
        ensures
            r == self.spec_check_interval(),
    {
        (self.check_interval_secs, self.check_interval_nanos)
    }

    /// Consecutive failures before recovery.
    pub fn max_failures(&self) -> (r: usize)
        ensures
            r == self.spec_max_failures(),
    {
        self.max_failures
    }

    /// Timeout of each check.
    pub fn check_timeout(&self) -> (r: (u64, u32))
        ensures
            r == self.spec_check_timeout(),
    {
        (self.check_timeout_secs, self.check_timeout_nanos)
    }

    /// Reads the SSH banner check: the first bytes the server sent must be
    /// `SSH-`; otherwise the error says what came instead.
    pub fn check_banner(&self, read: &BannerRead) -> (r: Result<(), String>)
        ensures
            (r is Ok) == banner_read_ok(*read),
            r matches Err(m) ==> m@ == banner_error_text(self.spec_vm_ip(), *read),
    {
        match read {
            BannerRead::Bytes(bytes) => {
                if bytes.len() >= 4 && bytes[0] == 83u8 && bytes[1] == 83u8 && bytes[2] == 72u8
                    && bytes[3] == 45u8 {
                    Ok(())
                } else {
                    let mut m = owned("unexpected banner from ");
                    push_str(&mut m, self.vm_ip.as_str());
                    push_str(&mut m, " (");
                    push_decimal(&mut m, bytes.len() as u64);
                    push_str(&mut m, " bytes, starts with ");
                    let n: usize = if bytes.len() < 8 {
                        bytes.len()
                    } else {
                        8
                    };
                    push_byte_list(&mut m, bytes, n);
                    push_str(&mut m, ")");
                    Err(m)
                }
            },
            BannerRead::NotReady => {
                let mut m = owned("SSH banner not ready on ");
                push_str(&mut m, self.vm_ip.as_str());
                Err(m)
            },
            BannerRead::Failed(e) => {
                let mut m = owned("reading SSH banner from ");
                push_str(&mut m, self.vm_ip.as_str());
                push_str(&mut m, ": ");
                push_str(&mut m, e.as_str());
                Err(m)
            },
        }
    }

    /// The outcome of one connectivity check, given the consecutive failures
    /// so far: the new count and what to do next. A success resets the count;
    /// a failure adds one, and recovery is due once the count reaches the maximum.
    pub fn on_check(&self, failures: usize, ok: bool) -> (r: (usize, MonitorAction))
        requires
            failures < usize::MAX,
        ensures
            ok ==> r == (0usize, MonitorAction::Healthy),
            !ok ==> r.0 == failures + 1 && (if r.0 >= self.spec_max_failures() {
                r.1 is Recover
            } else {
                r.1 is Retry
            }),
    {
        if ok {
            (0, MonitorAction::Healthy)
        } else {
            let f = failures + 1;
            if f >= self.max_failures {
                (f, MonitorAction::Recover)
            } else {
                (f, MonitorAction::Retry)
            }
        }
    }
}

/// What the monitor does after a check.
#[derive(Debug, Clone, Copy, PartialEq, Eq)]
pub enum MonitorAction {
    /// Connectivity is fine: wait the check interval.
    Healthy,
    /// The check failed: wait 5 s and check again.
    Retry,
    /// Too many consecutive failures: attempt recovery, then wait 5 s.
    Recover,
}

/// The consecutive failure count after a recovery attempt: reset when it succeeded.
pub fn after_recovery(failures: usize, recovered: bool) -> (r: usize)
    ensures
        r == if recovered {
            0
        } else {
            failures
        },
{
    if recovered {
        0
    } else {
        failures
    }
}

/// What was read of the SSH banner.
#[derive(Debug, Clone)]
pub enum BannerRead {
    /// The bytes the server sent first.
    Bytes(Vec<u8>),
    /// Nothing could be read yet.
    NotReady,
    /// The read failed with this error.
    Failed(String),
}

/// Whether the first bytes read are the SSH banner prefix `SSH-`.
pub open spec fn banner_ok(bytes: Seq<u8>) -> bool {
    bytes.len() >= 4 && bytes[0] == 83u8 && bytes[1] == 83u8 && bytes[2] == 72u8 && bytes[3]
        == 45u8
}

/// How `Debug` renders a byte slice: the decimal values between brackets.
pub open spec fn byte_list_text(bytes: Seq<u8>) -> Seq<char> {
    "["@ + join(bytes.map_values(|b: u8| decimal(b as nat)), ", "@) + "]"@
}

/// Whether what was read is the SSH banner.
pub open spec fn banner_read_ok(read: BannerRead) -> bool {
    read matches BannerRead::Bytes(bytes) && banner_ok(bytes@)
}

/// The error of a failed SSH banner check.
pub open spec fn banner_error_text(vm_ip: Seq<char>, read: BannerRead) -> Seq<char> {
    match read {
        BannerRead::Bytes(bytes) => "unexpected banner from "@ + vm_ip + " ("@ + decimal(
            bytes@.len(),
        ) + " bytes, starts with "@ + byte_list_text(
            bytes@.take(
                if bytes@.len() < 8 {
                    bytes@.len() as int
                } else {
                    8
                },
            ),
        ) + ")"@,
        BannerRead::NotReady => "SSH banner not ready on "@ + vm_ip,
        BannerRead::Failed(e) => "reading SSH banner from "@ + vm_ip + ": "@ + e@,
    }
}

/// Appends the `Debug` rendering of the first `n` bytes.
fn push_byte_list(out: &mut String, bytes: &Vec<u8>, n: usize)
    requires
        n <= bytes@.len(),
    ensures
        final(out)@ == old(out)@ + byte_list_text(bytes@.take(n as int)),
{
    let ghost start = out@;
    push_str(out, "[");
    let ghost head = out@;
    let mut i: usize = 0;
    while i < n
        invariant
            i <= n <= bytes@.len(),
            out@ == head + join(
                bytes@.take(i as int).map_values(|b: u8| decimal(b as nat)),
                ", "@,
            ),
        decreases n - i,
    {
        let ghost parts = bytes@.take(i as int).map_values(|b: u8| decimal(b as nat));
        proof {
            crate::text::lemma_join_push(parts, ", "@, decimal(bytes@[i as int] as nat));
            assert(bytes@.take(i + 1).map_values(|b: u8| decimal(b as nat)) =~= parts.push(
                decimal(bytes@[i as int] as nat),
            ));
        }
        if i > 0 {
            push_str(out, ", ");
        }
        push_decimal(out, bytes[i] as u64);
        proof {
            if i == 0 {
                assert(parts.len() == 0);
            }
        }
        i = i + 1;
    }
    push_str(out, "]");
    assert(out@ =~= start + byte_list_text(bytes@.take(n as int)));
}

/// The recovery commands, in the order they are tried: restart
/// systemd-networkd, apply netplan, bounce the default interface.
pub fn recovery_commands() -> (r: Vec<&'static str>)
    ensures
        r@.len() == 3,
        r@[0]@ == "sudo systemctl restart systemd-networkd"@,
        r@[1]@ == "sudo netplan apply"@,
        r@[2]@ == "iface=$(ip -o -4 route show default 2>/dev/null | awk '{print $5}' | head -1); [ -n \"$iface\" ] && sudo ip link set \"$iface\" down && sleep 2 && sudo ip link set \"$iface\" up"@,
{
    let mut r: Vec<&'static str> = Vec::new();
    r.push("sudo systemctl restart systemd-networkd");
    r.push("sudo netplan apply");
    r.push(
        "iface=$(ip -o -4 route show default 2>/dev/null | awk '{print $5}' | head -1); [ -n \"$iface\" ] && sudo ip link set \"$iface\" down && sleep 2 && sudo ip link set \"$iface\" up",
    );
    r
}

// ---------------------------------------------------------------------------
// Bounded retries
// ---------------------------------------------------------------------------

/// The bookkeeping of an operation tried at most a fixed number of times,
/// keeping the last error.
#[derive(Debug, Clone)]
pub struct RetryTracker {
    max_attempts: usize,
    attempt: usize,
    last_error: Option<String>,
}

impl RetryTracker {
    /// The number of attempts allowed.
    pub closed spec fn spec_max_attempts(&self) -> usize {
        self.max_attempts
    }

    /// The number of attempts made.
    pub closed spec fn spec_attempt(&self) -> usize {
        self.attempt
    }

    /// The error of the last failed attempt, if any.
    pub closed spec fn spec_last_error(&self) -> Option<Seq<char>> {
        match self.last_error {
            Some(e) => Some(e@),
            None => None,
        }
    }

    /// No attempt made yet, `max_attempts` allowed.
    pub fn new(max_attempts: usize) -> (r: Self)
        ensures
            r.spec_max_attempts() == max_attempts,
            r.spec_attempt() == 0,
            r.spec_last_error() is None,
    {
        RetryTracker { max_attempts, attempt: 0, last_error: None }
    }

    /// Whether another attempt may be made.
    pub fn has_attempts_left(&self) -> (r: bool)
        ensures
            r == (self.spec_attempt() < self.spec_max_attempts()),
    {
        self.attempt < self.max_attempts
    }

    /// The number of attempts made.
    pub fn attempt(&self) -> (r: usize)
        ensures
            r == self.spec_attempt(),
    {
        self.attempt
    }

    /// Records a failed attempt; says whether another attempt follows (and
    /// so whether to wait before it).
    pub fn record_failure(&mut self, error: String) -> (r: bool)
        requires
            old(self).spec_attempt() < old(self).spec_max_attempts(),
        ensures
            final(self).spec_attempt() == old(self).spec_attempt() + 1,
            final(self).spec_max_attempts() == old(self).spec_max_attempts(),
            final(self).spec_last_error() == Some(error@),
            r == (final(self).spec_attempt() < final(self).spec_max_attempts()),
    {
        self.attempt = self.attempt + 1;
        self.last_error = Some(error);
        self.attempt < self.max_attempts
    }

    /// The error once every attempt failed: the last error, or `fallback`
    /// when no attempt was made.
    pub fn final_error(&self, fallback: &str) -> (r: String)
        ensures
            r@ == match self.spec_last_error() {
                Some(e) => e,
                None => fallback@,
            },
    {
        match &self.last_error {
            Some(e) => e.clone(),
            None => owned(fallback),
        }
    }
}

} // verus!
