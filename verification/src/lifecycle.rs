//! Decisions of the core (mihomo) lifecycle: which way the core is started
//! and stopped, which core names are accepted, when the user interface is
//! told the core is ready, and how the wait for the system service goes.
use vstd::prelude::*;
use crate::text::str_eq;

verus! {

/// How the core runs.
#[derive(Debug, PartialEq, Eq, Clone, Copy)]
pub enum RunningMode {
    Service,
    Sidecar,
    NotRunning,
}

/// The mode a start uses: through the service when it is ready, else as a sidecar.
pub fn startup_mode(service_ready: bool) -> (m: RunningMode)
    ensures
        m == (if service_ready { RunningMode::Service } else { RunningMode::Sidecar }),
{
    if service_ready {
        RunningMode::Service
    } else {
        RunningMode::Sidecar
    }
}

/// The way to start the core.
#[derive(Debug, PartialEq, Eq, Clone, Copy)]
pub enum StartRoute {
    ByService,
    BySidecar,
}

/// The way to stop the core.
#[derive(Debug, PartialEq, Eq, Clone, Copy)]
pub enum StopRoute {
    ByService,
    BySidecar,
    Nothing,
}

/// Start through the service in service mode, else as a sidecar.
pub fn start_route(mode: RunningMode) -> (r: StartRoute)
    ensures
        r == (if mode == RunningMode::Service { StartRoute::ByService } else { StartRoute::BySidecar }),
{
    match mode {
        RunningMode::Service => StartRoute::ByService,
        RunningMode::NotRunning | RunningMode::Sidecar => StartRoute::BySidecar,
    }
}

/// Stop the way the core was started; nothing to stop when it does not run.
pub fn stop_route(mode: RunningMode) -> (r: StopRoute)
    ensures
        mode == RunningMode::Service ==> r == StopRoute::ByService,
        mode == RunningMode::Sidecar ==> r == StopRoute::BySidecar,
        mode == RunningMode::NotRunning ==> r == StopRoute::Nothing,
{
    match mode {
        RunningMode::Service => StopRoute::ByService,
        RunningMode::Sidecar => StopRoute::BySidecar,
        RunningMode::NotRunning => StopRoute::Nothing,
    }
}

/// Accepts a core name only when it is one of the valid ones; the error says which
/// name was refused.
pub fn validate_clash_core(clash_core: &str, valid: &Vec<String>) -> (r: Result<(), String>)
    ensures
        r is Ok <==> exists|i: int| 0 <= i < valid@.len() && #[trigger] valid@[i]@ == clash_core@,
        r matches Err(m) ==> m@ == "Invalid clash core: "@ + clash_core@,
{
    let mut i: usize = 0;
    while i < valid.len()
        invariant
            i <= valid@.len(),
            forall|j: int| 0 <= j < i ==> #[trigger] valid@[j]@ != clash_core@,
        decreases valid.len() - i,
    {
        if str_eq(valid[i].as_str(), clash_core) {
            return Ok(());
        }
        i = i + 1;
    }
    Err(String::from_str("Invalid clash core: ").concat(clash_core))
}

/// Number of readiness probes after a start.
pub const MAX_PROBES: u32 = 20;
/// Pause between readiness probes, in milliseconds.
pub const PROBE_INTERVAL_MS: u64 = 500;

/// What to do after a readiness probe.
#[derive(Debug, PartialEq, Eq, Clone, Copy)]
pub enum ProbeAction {
    /// The core answered: tell the user interface to reload its configuration.
    RefreshClash,
    /// Sleep this long, then probe again.
    RetryAfter { millis: u64 },
    /// Sleep this long, then give up with a warning (no refresh).
    GiveUpAfter { millis: u64 },
}

pub open spec fn msg_probe_gave_up() -> Seq<char> {
    "内核启动后 IPC 在超时时间内仍不可达，跳过就绪刷新通知"@
}

/// The warning logged when the core never answered.
pub fn probe_gave_up_message() -> (m: String)
    ensures
        m@ == msg_probe_gave_up(),
{
    String::from_str("内核启动后 IPC 在超时时间内仍不可达，跳过就绪刷新通知")
}

/// Polls the core after a start until it answers, at most 20 times, 500 ms apart.
pub struct ReadinessProbe {
    /// Probes that found the core unreachable so far.
    pub failed: u32,
}

impl ReadinessProbe {
    pub fn new() -> (p: Self)
        ensures
            p.failed == 0,
    {
        ReadinessProbe { failed: 0 }
    }

    /// Answers one probe result.
    pub fn step(&mut self, reachable: bool) -> (a: ProbeAction)
        requires
            old(self).failed < MAX_PROBES,
        ensures
            reachable ==> a == ProbeAction::RefreshClash && final(self).failed == old(self).failed,
            !reachable ==> final(self).failed == old(self).failed + 1 && a == (if final(self).failed >= MAX_PROBES {
                ProbeAction::GiveUpAfter { millis: PROBE_INTERVAL_MS }
            } else {
                ProbeAction::RetryAfter { millis: PROBE_INTERVAL_MS }
            }),
            final(self).failed <= MAX_PROBES,
    {
        if reachable {
            return ProbeAction::RefreshClash;
        }
        self.failed = self.failed + 1;
        if self.failed >= MAX_PROBES {
            ProbeAction::GiveUpAfter { millis: PROBE_INTERVAL_MS }
        } else {
            ProbeAction::RetryAfter { millis: PROBE_INTERVAL_MS }
        }
    }
}

/// How many retries the wait for the service gets: the whole wait divided by the
/// pause between attempts.
pub fn service_wait_retries(max_wait_ms: u64, interval_ms: u64) -> (n: u64)
    requires
        interval_ms > 0,
    ensures
        n == max_wait_ms / interval_ms,
{
    max_wait_ms / interval_ms
}

/// What one attempt of the wait for the service does next.
#[derive(Debug, PartialEq, Eq, Clone, Copy)]
pub enum ServiceAttempt {
    /// The service is ready: the wait is over.
    Ready,
    /// The service's IPC endpoint is missing: a transient failure, retry.
    IpcNotReady,
    /// Initialise the service manager and refresh its status, then check again.
    InitAndRefresh,
}

/// The first decision of an attempt: done when ready; without the IPC endpoint,
/// retry rather than initialise too early.
pub fn service_attempt(ready: bool, ipc_exists: bool) -> (a: ServiceAttempt)
    ensures
        ready ==> a == ServiceAttempt::Ready,
        !ready && !ipc_exists ==> a == ServiceAttempt::IpcNotReady,
        !ready && ipc_exists ==> a == ServiceAttempt::InitAndRefresh,
{
    if ready {
        ServiceAttempt::Ready
    } else if !ipc_exists {
        ServiceAttempt::IpcNotReady
    } else {
        ServiceAttempt::InitAndRefresh
    }
}

/// The message of a failed attempt: `None` when the service turned out ready.
pub fn service_attempt_error(attempt: ServiceAttempt, ready_after_init: bool) -> (m: Option<String>)
    ensures
        attempt == ServiceAttempt::Ready ==> m is None,
        attempt == ServiceAttempt::IpcNotReady ==> (m matches Some(s) && s@ == "Service IPC not ready"@),
        attempt == ServiceAttempt::InitAndRefresh && ready_after_init ==> m is None,
        attempt == ServiceAttempt::InitAndRefresh && !ready_after_init ==> (m matches Some(s) && s@
            == "Service not ready"@),
{
    match attempt {
        ServiceAttempt::Ready => None,
        ServiceAttempt::IpcNotReady => Some(String::from_str("Service IPC not ready")),
        ServiceAttempt::InitAndRefresh => {
            if ready_after_init {
                None
            } else {
                Some(String::from_str("Service not ready"))
            }
        },
    }
}

// ---- laws ----------------------------------------------------------------

/// The readiness polling after a start probes at most 20 times, 500 ms apart
/// (about 10 s, covering the core's start and TUN set-up): each failed probe
/// counts one, and the 20th failure gives up.
pub proof fn law_readiness_budget(failed: u32)
    requires
        failed < MAX_PROBES,
    ensures
        MAX_PROBES == 20,
        PROBE_INTERVAL_MS == 500,
        MAX_PROBES * PROBE_INTERVAL_MS == 10_000,
        failed + 1 >= MAX_PROBES <==> failed == 19,
{
}

} // verus!
