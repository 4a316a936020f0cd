//! The supervisor slot: at most one live backend process handle plus
//! the port allocated to it, mutated only by whole-slot transitions.
//! The slot is an owned context object; a shell that shares it across
//! tasks wraps it in a mutual-exclusion lock and holds the lock for the
//! duration of one transition, never across launching or probing.

use vstd::prelude::*;
use vstd::string::StringExecFns;

use crate::paths::data_dir;
use crate::paths::data_dir_chars;
use crate::text::base_url;
use crate::text::base_url_chars;
use crate::text::dec_digits;
use crate::text::u64_to_dec;

verus! {

/// The immutable snapshot a client needs to begin talking to the
/// backend: its address, a credential, and its storage location.
/// Recomputed on every request, never stored.
pub struct BootstrapConfig {
    pub base_url: String,
    pub token: String,
    pub data_dir: String,
}

/// Where the supervised process is in its lifecycle. `RestartFailed`
/// covers every launch whose probe was exhausted (or whose spawn was
/// refused) while a port from an earlier completed launch remains.
#[derive(Clone, Copy, Debug, PartialEq, Eq, Structural)]
pub enum Phase {
    Empty,
    Launching,
    Probing,
    Ready,
    Crashed,
    RestartFailed,
}

/// Mathematical state of the supervisor slot. `port == 0` means no
/// launch has ever completed; a non-zero port is the one the
/// currently-supervised process was bound to.
pub struct SupervisorModel {
    pub port: u16,
    pub handle: Option<u64>,
    pub phase: Phase,
}

/// The state before any launch.
pub open spec fn init_model() -> SupervisorModel {
    SupervisorModel { port: 0, handle: None, phase: Phase::Empty }
}

/// One whole-slot transition.
pub enum SupervisorStep {
    Begin,
    Install { port: u16, handle: u64 },
    LaunchFailed,
    Ready,
    ProbeFailed,
    Crashed,
}

/// What each transition does to the slot. `Begin` takes the old handle
/// out (for termination) and enters `Launching`; `Install` writes the
/// new port and handle together, in one step, and enters `Probing`;
/// the probe and drain outcomes only change the phase, except that a
/// crash also drops the dead handle. No transition but `Install` ever
/// changes the port.
pub open spec fn apply_step(s: SupervisorModel, t: SupervisorStep) -> SupervisorModel {
    match t {
        SupervisorStep::Begin => SupervisorModel {
            handle: None,
            phase: Phase::Launching,
            ..s
        },
        SupervisorStep::Install { port, handle } => SupervisorModel {
            port,
            handle: Some(handle),
            phase: Phase::Probing,
        },
        SupervisorStep::LaunchFailed => SupervisorModel {
            phase: if s.port == 0 {
                Phase::Empty
            } else {
                Phase::RestartFailed
            },
            ..s
        },
        SupervisorStep::Ready => SupervisorModel { phase: Phase::Ready, ..s },
        SupervisorStep::ProbeFailed => SupervisorModel { phase: Phase::RestartFailed, ..s },
        SupervisorStep::Crashed => SupervisorModel { handle: None, phase: Phase::Crashed, ..s },
    }
}

/// One-way notification to the shell, sent at most once per cause and
/// never acknowledged.
pub enum Notification {
    Ready { port: u16 },
    Error { message: String },
    Crashed,
}

/// Mathematical image of a `Notification`.
pub enum NotificationView {
    Ready { port: u16 },
    Error { message: Seq<char> },
    Crashed,
}

impl View for Notification {
    type V = NotificationView;

    open spec fn view(&self) -> NotificationView {
        match self {
            Notification::Ready { port } => NotificationView::Ready { port: *port },
            Notification::Error { message } => NotificationView::Error { message: message@ },
            Notification::Crashed => NotificationView::Crashed,
        }
    }
}

impl Notification {
    /// The channel this notification is sent on.
    pub fn channel(&self) -> (name: &'static str)
        ensures
            self@ is Ready ==> name@ == "backend-ready"@,
            self@ is Error ==> name@ == "backend-error"@,
            self@ is Crashed ==> name@ == "backend-crashed"@,
    {
        match self {
            Notification::Ready { .. } => "backend-ready",
            Notification::Error { .. } => "backend-error",
            Notification::Crashed => "backend-crashed",
        }
    }
}

/// The supervisor slot: the only shared mutable state of the system.
pub struct Supervisor {
    port: u16,
    handle: Option<u64>,
    phase: Phase,
}

impl View for Supervisor {
    type V = SupervisorModel;

    closed spec fn view(&self) -> SupervisorModel {
        SupervisorModel { port: self.port, handle: self.handle, phase: self.phase }
    }
}

impl Supervisor {
    /// A slot with no launch ever completed.
    pub fn new() -> (s: Supervisor)
        ensures
            s@ == init_model(),
    {
        Supervisor { port: 0, handle: None, phase: Phase::Empty }
    }

    /// The port of the last completed launch, 0 when none ever
    /// completed. Always answers; a launch in flight still reports the
    /// previous value, never a partial one.
    pub fn get_backend_port(&self) -> (port: u16)
        ensures
            port == self@.port,
    {
        self.port
    }

    /// Where the supervised process is in its lifecycle.
    pub fn phase(&self) -> (p: Phase)
        ensures
            p == self@.phase,
    {
        self.phase
    }

    /// The bootstrap snapshot for the current port: refused exactly
    /// when no launch has ever completed (port 0); otherwise it always
    /// succeeds and reflects the current port, whatever the probe
    /// outcome, with the caller's token and the platform data
    /// directory.
    pub fn get_bootstrap(&self, token: String) -> (r: Result<BootstrapConfig, String>)
        ensures
            r is Err <==> self@.port == 0,
            r matches Err(m) ==> m@ == "Backend not started"@,
            r matches Ok(cfg) ==> {
                &&& cfg.base_url@ == base_url_chars(self@.port)
                &&& cfg.token@ == token@
                &&& exists|b: Option<Seq<char>>| cfg.data_dir@ == data_dir_chars(b)
            },
    {
        if self.port == 0 {
            return Err("Backend not started".to_owned());
        }
        let url = base_url(self.port);
        let dir = data_dir();
        Ok(BootstrapConfig { base_url: url, token, data_dir: dir })
    }

    /// Starts a launch (initial or restart): takes the old handle out
    /// of the slot — the caller terminates that process and lets it
    /// settle — and enters `Launching`. The port keeps its previous
    /// value until the new launch installs its own.
    pub fn begin_launch(&mut self) -> (taken: Option<u64>)
        ensures
            final(self)@ == apply_step(old(self)@, SupervisorStep::Begin),
            taken == old(self)@.handle,
    {
        self.phase = Phase::Launching;
        let taken = self.handle;
        self.handle = None;
        taken
    }

    /// Installs a successfully launched process: writes its port and
    /// handle together in this one step and enters `Probing`.
    pub fn install_backend(&mut self, port: u16, handle: u64)
        requires
            port != 0,
            old(self)@.phase is Launching,
        ensures
            final(self)@ == apply_step(old(self)@, SupervisorStep::Install { port, handle }),
    {
        self.port = port;
        self.handle = Some(handle);
        self.phase = Phase::Probing;
    }

    /// Records that the launch attempt could not spawn a process: the
    /// slot returns to `Empty` when no launch ever completed (the shell
    /// may fall back to an externally managed backend), and to
    /// `RestartFailed` otherwise.
    pub fn launch_failed(&mut self)
        requires
            old(self)@.phase is Launching,
        ensures
            final(self)@ == apply_step(old(self)@, SupervisorStep::LaunchFailed),
    {
        if self.port == 0 {
            self.phase = Phase::Empty;
        } else {
            self.phase = Phase::RestartFailed;
        }
    }

    /// Records the first successful health response: enters `Ready`
    /// and yields the ready notification carrying the slot's port.
    pub fn record_ready(&mut self) -> (note: Notification)
        requires
            old(self)@.phase is Probing,
        ensures
            final(self)@ == apply_step(old(self)@, SupervisorStep::Ready),
            note@ == (NotificationView::Ready { port: old(self)@.port }),
    {
        self.phase = Phase::Ready;
        Notification::Ready { port: self.port }
    }

    /// Records an exhausted probe: enters `RestartFailed` and yields
    /// the error notification carrying the probe's failure message.
    /// The process handle is not touched: the process is left running.
    pub fn record_probe_failed(&mut self, message: String) -> (note: Notification)
        requires
            old(self)@.phase is Probing,
        ensures
            final(self)@ == apply_step(old(self)@, SupervisorStep::ProbeFailed),
            note@ == (NotificationView::Error { message: message@ }),
            final(self)@.handle == old(self)@.handle,
    {
        self.phase = Phase::RestartFailed;
        Notification::Error { message }
    }

    /// Records that the drain serving the process with `handle` saw it
    /// terminate. Only the currently supervised process can crash: if
    /// `handle` is still the slot's, the dead handle is dropped, the
    /// slot enters `Crashed`, the port is kept, and the one crash
    /// notification is yielded — at most once, since the handle is gone
    /// afterwards. A termination of a process the slot no longer holds
    /// (an old process killed by a restart, whose death is expected)
    /// records nothing. Nothing is ever relaunched.
    pub fn record_crash(&mut self, handle: u64) -> (note: Option<Notification>)
        ensures
            note is Some <==> old(self)@.handle == Some(handle),
            old(self)@.handle == Some(handle) ==> final(self)@ == apply_step(
                old(self)@,
                SupervisorStep::Crashed,
            ),
            old(self)@.handle != Some(handle) ==> final(self)@ == old(self)@,
            note matches Some(n) ==> n@ == NotificationView::Crashed,
    {
        let supervised = match self.handle {
            Some(h) => h == handle,
            None => false,
        };
        if supervised {
            self.handle = None;
            self.phase = Phase::Crashed;
            Some(Notification::Crashed)
        } else {
            None
        }
    }
}

/// The token a bootstrap answers with, given what the override
/// variable held: the override when one is set, the empty string
/// otherwise — a missing token is not an error.
pub fn token_fallback(overridden: Option<String>) -> (token: String)
    ensures
        token@ == (match overridden {
            Some(t) => t@,
            None => Seq::<char>::empty(),
        }),
{
    match overridden {
        Some(t) => t,
        None => String::new(),
    }
}

/// Builds the message a successful restart answers with.
pub fn restart_message(port: u16) -> (s: String)
    ensures
        s@ == "Backend restarted on port "@ + dec_digits(port as nat),
{
    let head = "Backend restarted on port ".to_owned();
    head.concat(u64_to_dec(port as u64).as_str())
}

/// The slot after the transitions of `ts`, applied in order.
pub open spec fn apply_steps(s: SupervisorModel, ts: Seq<SupervisorStep>) -> SupervisorModel
    decreases ts.len(),
{
    if ts.len() == 0 {
        s
    } else {
        apply_steps(apply_step(s, ts[0]), ts.drop_first())
    }
}

/// The port written by the last `Install` of `ts`, if any.
pub open spec fn last_installed_port(ts: Seq<SupervisorStep>) -> Option<u16>
    decreases ts.len(),
{
    if ts.len() == 0 {
        None
    } else {
        match ts.last() {
            SupervisorStep::Install { port, .. } => Some(port),
            _ => last_installed_port(ts.drop_last()),
        }
    }
}

proof fn lemma_apply_steps_snoc(s: SupervisorModel, ts: Seq<SupervisorStep>)
    requires
        ts.len() >= 1,
    ensures
        apply_steps(s, ts) == apply_step(apply_steps(s, ts.drop_last()), ts.last()),
    decreases ts.len(),
{
    if ts.len() == 1 {
        assert(ts.drop_last() =~= Seq::empty());
        assert(ts.drop_first() =~= Seq::empty());
    } else {
        lemma_apply_steps_snoc(apply_step(s, ts[0]), ts.drop_first());
        assert(ts.drop_first().drop_last() =~= ts.drop_last().drop_first());
        assert(ts.drop_first().last() == ts.last());
        assert(ts.drop_last()[0] == ts[0]);
    }
}

proof fn lemma_port_tracks_installs_general(s: SupervisorModel, ts: Seq<SupervisorStep>)
    ensures
        apply_steps(s, ts).port == (match last_installed_port(ts) {
            Some(p) => p,
            None => s.port,
        }),
    decreases ts.len(),
{
    if ts.len() >= 1 {
        lemma_port_tracks_installs_general(s, ts.drop_last());
        lemma_apply_steps_snoc(s, ts);
    }
}

/// Law: after any sequence of transitions from the initial state, the
/// port the supervisor reports is exactly the port written by the last
/// completed installation, and 0 when no installation ever happened —
/// no other transition moves it.
pub proof fn lemma_port_tracks_installs(ts: Seq<SupervisorStep>)
    ensures
        apply_steps(init_model(), ts).port == (match last_installed_port(ts) {
            Some(p) => p,
            None => 0u16,
        }),
{
    lemma_port_tracks_installs_general(init_model(), ts);
}

/// Law: every installation writes a non-zero port, so after any
/// sequence of transitions whose installations all carry non-zero
/// ports (the exec interface admits no other), the reported port is 0
/// exactly when no launch ever completed — which is exactly when the
/// bootstrap query is refused.
pub proof fn lemma_port_zero_iff_never_launched(ts: Seq<SupervisorStep>)
    requires
        forall|i: int|
            0 <= i < ts.len() ==> (#[trigger] ts[i] matches SupervisorStep::Install { port, .. }
                ==> port != 0),
    ensures
        apply_steps(init_model(), ts).port == 0 <==> last_installed_port(ts) is None,
    decreases ts.len(),
{
    lemma_port_tracks_installs(ts);
    if ts.len() >= 1 && !(ts.last() is Install) {
        assert(forall|i: int|
            0 <= i < ts.drop_last().len() ==> (#[trigger] ts.drop_last()[i]
                matches SupervisorStep::Install { port, .. } ==> port != 0));
        lemma_port_zero_iff_never_launched(ts.drop_last());
        lemma_port_tracks_installs(ts.drop_last());
    }
}

/// Law: the slot never holds a live handle without its port. After any
/// sequence of transitions from the initial state whose installations
/// all carry non-zero ports (the exec interface admits no other), a
/// present handle comes with a non-zero port: the pair was created
/// together by the last installation.
pub proof fn lemma_handle_implies_port(ts: Seq<SupervisorStep>)
    requires
        forall|i: int|
            0 <= i < ts.len() ==> (#[trigger] ts[i] matches SupervisorStep::Install { port, .. }
                ==> port != 0),
    ensures
        apply_steps(init_model(), ts).handle is Some ==> apply_steps(init_model(), ts).port != 0,
    decreases ts.len(),
{
    if ts.len() >= 1 {
        assert(forall|i: int|
            0 <= i < ts.drop_last().len() ==> (#[trigger] ts.drop_last()[i]
                matches SupervisorStep::Install { port, .. } ==> port != 0));
        lemma_handle_implies_port(ts.drop_last());
        lemma_apply_steps_snoc(init_model(), ts);
    }
}

/// Law: a restart mutates the slot in two whole-slot steps. After the
/// first (old process taken for termination) the reported port is
/// still the pre-restart port; after the second (new process
/// installed) it is the new port. No state in between holds any other
/// value, so a concurrent port query — serialized by the lock around
/// the slot — sees either the old port or the new one, never a torn
/// value.
pub proof fn lemma_restart_port_not_torn(s: SupervisorModel, port: u16, handle: u64)
    ensures
        apply_step(s, SupervisorStep::Begin).port == s.port,
        apply_step(
            apply_step(s, SupervisorStep::Begin),
            SupervisorStep::Install { port, handle },
        ).port == port,
{
}

/// Law: a completed restart takes the old handle out of the slot —
/// the caller terminates it — before the new process is installed or
/// probed, and the final slot holds exactly the new process's port and
/// handle, whatever was there before.
pub proof fn lemma_restart_replaces_slot(s: SupervisorModel, port: u16, handle: u64)
    ensures
        apply_step(s, SupervisorStep::Begin).handle is None,
        apply_step(
            apply_step(s, SupervisorStep::Begin),
            SupervisorStep::Install { port, handle },
        ) == (SupervisorModel { port, handle: Some(handle), phase: Phase::Probing }),
{
}

} // verus!
