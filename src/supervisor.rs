use vstd::prelude::*;
use vstd::string::StringExecFns;
use crate::config::ServerConfig;
use crate::table::Table;
use crate::text::concat;

verus! {

/// Seconds a monitor waits after an unexpected exit before it respawns the server.
pub const RESTART_DELAY_SECS: u64 = 3;

/// Seconds between two polls of a monitor.
pub const MONITOR_POLL_SECS: u64 = 2;

/// Seconds a stop request waits for a graceful exit before it kills the process.
pub const STOP_GRACE_SECS: u64 = 10;

/// Milliseconds between two exit checks while a stop waits.
pub const STOP_POLL_MILLIS: u64 = 500;

/// The failures of the supervisor and the scheduler, each with a short text.
#[derive(Debug)]
pub enum SupervisorError {
    Configuration(String),
    AlreadyRunning,
    NotRunning,
    Spawn(String),
    Io(String),
    Persistence(String),
    Lock(String),
}

impl SupervisorError {
    /// The short human-readable text of the failure.
    pub fn message(&self) -> (r: String)
        ensures
            self is AlreadyRunning ==> r@ == "Server is already running"@,
            self is NotRunning ==> r@ == "Server not running"@,
            self is Configuration ==> r@ == self->Configuration_0@,
            self is Spawn ==> r@ == self->Spawn_0@,
            self is Io ==> r@ == self->Io_0@,
            self is Persistence ==> r@ == self->Persistence_0@,
            self is Lock ==> r@ == self->Lock_0@,
    {
        match self {
            SupervisorError::Configuration(m) => m.clone(),
            SupervisorError::AlreadyRunning => String::from_str("Server is already running"),
            SupervisorError::NotRunning => String::from_str("Server not running"),
            SupervisorError::Spawn(m) => m.clone(),
            SupervisorError::Io(m) => m.clone(),
            SupervisorError::Persistence(m) => m.clone(),
            SupervisorError::Lock(m) => m.clone(),
        }
    }
}

/// What the supervisor holds, as mathematical values: the live handle of each
/// running server, the ids marked as stopped on purpose, and the last start
/// configuration of each id.
pub struct SupervisorModel<H> {
    pub running: Map<Seq<char>, H>,
    pub stops: Set<Seq<char>>,
    pub configs: Map<Seq<char>, ServerConfig>,
}

/// The state of one monitor, which watches one server id.
pub enum MonitorState {
    /// The process is alive and being watched.
    Running,
    /// The process exited on its own and will be respawned with this configuration.
    Restarting(ServerConfig),
    /// The process exited after a stop request.
    ExitedByUser,
    /// The process exited on its own and is not restarted.
    ExitedNoRestart,
    /// The handle was taken out of the registry by someone else.
    Detached,
    /// Respawning failed, with this reason.
    RestartFailed(String),
}

impl MonitorState {
    /// Whether the monitor stops watching in this state.
    pub open spec fn terminal(&self) -> bool {
        !(self is Running || self is Restarting)
    }

    /// Whether the monitor stops watching in this state.
    pub fn is_terminal(&self) -> (r: bool)
        ensures
            r == self.terminal(),
    {
        match self {
            MonitorState::Running => false,
            MonitorState::Restarting(_) => false,
            _ => true,
        }
    }
}

/// Start: refused while the id has a handle; otherwise the stop marker of
/// the id is cleared and its configuration recorded.
pub open spec fn start_step<H>(m: SupervisorModel<H>, c: ServerConfig) -> (
    Result<(), SupervisorError>,
    SupervisorModel<H>,
) {
    if m.running.contains_key(c.id@) {
        (Err(SupervisorError::AlreadyRunning), m)
    } else {
        (
            Ok(()),
            SupervisorModel {
                running: m.running,
                stops: m.stops.remove(c.id@),
                configs: m.configs.insert(c.id@, c),
            },
        )
    }
}

/// Registering a freshly spawned handle: refused (the handle is handed back)
/// while the id already has one.
pub open spec fn register_step<H>(m: SupervisorModel<H>, id: Seq<char>, h: H) -> (
    Option<H>,
    SupervisorModel<H>,
) {
    if m.running.contains_key(id) {
        (Some(h), m)
    } else {
        (None, SupervisorModel { running: m.running.insert(id, h), ..m })
    }
}

/// Stop: refused with no effect when the id has no handle; otherwise, in one
/// step, the id is marked as stopped on purpose and its handle taken out.
pub open spec fn stop_step<H>(m: SupervisorModel<H>, id: Seq<char>) -> (
    Result<H, SupervisorError>,
    SupervisorModel<H>,
) {
    if !m.running.contains_key(id) {
        (Err(SupervisorError::NotRunning), m)
    } else {
        (
            Ok(m.running[id]),
            SupervisorModel { running: m.running.remove(id), stops: m.stops.insert(id), ..m },
        )
    }
}

/// The scheduler's stop before a restart: the id is marked and its handle,
/// if any, taken out.
pub open spec fn force_stop_step<H>(m: SupervisorModel<H>, id: Seq<char>) -> (
    Option<H>,
    SupervisorModel<H>,
) {
    (
        if m.running.contains_key(id) { Some(m.running[id]) } else { None },
        SupervisorModel { running: m.running.remove(id), stops: m.stops.insert(id), ..m },
    )
}

/// One poll of the monitor of `id`, given whether its process was seen to exit.
pub open spec fn monitor_step<H>(m: SupervisorModel<H>, id: Seq<char>, exited: bool) -> (
    MonitorState,
    SupervisorModel<H>,
) {
    if !m.running.contains_key(id) {
        (MonitorState::Detached, m)
    } else if !exited {
        (MonitorState::Running, m)
    } else if m.stops.contains(id) {
        (
            MonitorState::ExitedByUser,
            SupervisorModel { running: m.running.remove(id), stops: m.stops.remove(id), ..m },
        )
    } else if m.configs.contains_key(id) && m.configs[id].auto_restart {
        (
            MonitorState::Restarting(m.configs[id]),
            SupervisorModel { running: m.running.remove(id), ..m },
        )
    } else {
        (MonitorState::ExitedNoRestart, SupervisorModel { running: m.running.remove(id), ..m })
    }
}

/// The end of a restart cycle, given what the respawn gave.
pub open spec fn respawn_step<H>(
    m: SupervisorModel<H>,
    id: Seq<char>,
    spawned: Result<H, String>,
) -> (MonitorState, Option<H>, SupervisorModel<H>) {
    match spawned {
        Err(e) => (MonitorState::RestartFailed(e), None, m),
        Ok(h) => if m.running.contains_key(id) {
            (MonitorState::Detached, Some(h), m)
        } else {
            (MonitorState::Running, None, SupervisorModel { running: m.running.insert(id, h), ..m })
        },
    }
}

/// The registry of live processes, the stop markers and the configuration
/// store, each keyed by server id; `H` is the handle of a live process.
pub struct ServerProcessState<H> {
    pub processes: Table<H>,
    pub explicit_stops: Table<()>,
    pub configs: Table<ServerConfig>,
}

impl<H> View for ServerProcessState<H> {
    type V = SupervisorModel<H>;

    open spec fn view(&self) -> SupervisorModel<H> {
        SupervisorModel {
            running: self.processes@,
            stops: self.explicit_stops@.dom(),
            configs: self.configs@,
        }
    }
}

impl<H> ServerProcessState<H> {
    pub open spec fn wf(&self) -> bool {
        self.processes.wf() && self.explicit_stops.wf() && self.configs.wf()
    }

    /// Nothing running, nothing marked, nothing configured.
    pub fn new() -> (r: ServerProcessState<H>)
        ensures
            r.wf(),
            r@.running == Map::<Seq<char>, H>::empty(),
            r@.stops == Set::<Seq<char>>::empty(),
            r@.configs == Map::<Seq<char>, ServerConfig>::empty(),
    {
        ServerProcessState { processes: Table::new(), explicit_stops: Table::new(), configs: Table::new() }
    }

    /// Whether `id` has a live handle.
    pub fn is_running(&self, id: &String) -> (r: bool)
        requires
            self.wf(),
        ensures
            r == self@.running.contains_key(id@),
    {
        self.processes.contains(id)
    }

    /// The ids that have a live handle, each once.
    pub fn running_ids(&self) -> (r: Vec<String>)
        requires
            self.wf(),
        ensures
            forall|i: int, j: int|
                0 <= i < r@.len() && 0 <= j < r@.len() && i != j ==> #[trigger] r@[i]@
                    != #[trigger] r@[j]@,
            forall|k: Seq<char>|
                self@.running.contains_key(k) <==> exists|i: int|
                    0 <= i < r@.len() && #[trigger] r@[i]@ == k,
    {
        self.processes.keys()
    }

    /// The live handle of `id`, if any.
    pub fn handle(&self, id: &String) -> (r: Option<&H>)
        requires
            self.wf(),
        ensures
            match r {
                Some(h) => self@.running.contains_key(id@) && *h == self@.running[id@],
                None => !self@.running.contains_key(id@),
            },
    {
        self.processes.get(id)
    }

    /// The configuration of the last start of `id`, if any.
    pub fn stored_config(&self, id: &String) -> (r: Option<ServerConfig>)
        requires
            self.wf(),
        ensures
            match r {
                Some(c) => self@.configs.contains_key(id@) && c == self@.configs[id@],
                None => !self@.configs.contains_key(id@),
            },
    {
        match self.configs.get(id) {
            Some(c) => Some(c.duplicate()),
            None => None,
        }
    }

    /// The first half of a start: checks that `config.id` has no handle,
    /// clears its stop marker and records the configuration.
    pub fn prepare_start(&mut self, config: &ServerConfig) -> (r: Result<(), SupervisorError>)
        requires
            old(self).wf(),
        ensures
            final(self).wf(),
            (r, final(self)@) == start_step(old(self)@, *config),
    {
        if self.processes.contains(&config.id) {
            return Err(SupervisorError::AlreadyRunning);
        }
        let _ = self.explicit_stops.remove(&config.id);
        self.configs.insert(config.id.clone(), config.duplicate());
        Ok(())
    }

    /// The second half of a start: registers the spawned handle, or hands it
    /// back when `id` already has one.
    pub fn register(&mut self, id: String, handle: H) -> (r: Option<H>)
        requires
            old(self).wf(),
        ensures
            final(self).wf(),
            (r, final(self)@) == register_step(old(self)@, id@, handle),
    {
        if self.processes.contains(&id) {
            return Some(handle);
        }
        self.processes.insert(id, handle);
        None
    }

    /// Stop: marks `id` as stopped on purpose and takes its handle out, in
    /// one step; refused with no effect when `id` has no handle.
    pub fn stop(&mut self, id: &String) -> (r: Result<H, SupervisorError>)
        requires
            old(self).wf(),
        ensures
            final(self).wf(),
            (r, final(self)@) == stop_step(old(self)@, id@),
    {
        match self.processes.remove(id) {
            Some(h) => {
                self.explicit_stops.insert(id.clone(), ());
                assert(self@.stops =~= old(self)@.stops.insert(id@));
                Ok(h)
            },
            None => {
                assert(old(self)@.running.remove(id@) =~= old(self)@.running);
                Err(SupervisorError::NotRunning)
            },
        }
    }

    /// The scheduler's stop before a restart: marks `id` and takes its
    /// handle out, if it has one.
    pub fn force_stop(&mut self, id: &String) -> (r: Option<H>)
        requires
            old(self).wf(),
        ensures
            final(self).wf(),
            (r, final(self)@) == force_stop_step(old(self)@, id@),
    {
        let r = self.processes.remove(id);
        self.explicit_stops.insert(id.clone(), ());
        assert(self@.stops =~= old(self)@.stops.insert(id@));
        r
    }

    /// One poll of the monitor of `id`, given whether its process has exited.
    pub fn monitor_poll(&mut self, id: &String, exited: bool) -> (r: MonitorState)
        requires
            old(self).wf(),
        ensures
            final(self).wf(),
            (r, final(self)@) == monitor_step(old(self)@, id@, exited),
    {
        if !self.processes.contains(id) {
            return MonitorState::Detached;
        }
        if !exited {
            return MonitorState::Running;
        }
        let _ = self.processes.remove(id);
        if self.explicit_stops.contains(id) {
            let _ = self.explicit_stops.remove(id);
            assert(self@.stops =~= old(self)@.stops.remove(id@));
            return MonitorState::ExitedByUser;
        }
        match self.configs.get(id) {
            Some(c) => {
                if c.auto_restart {
                    MonitorState::Restarting(c.duplicate())
                } else {
                    MonitorState::ExitedNoRestart
                }
            },
            None => MonitorState::ExitedNoRestart,
        }
    }

    /// The end of a restart cycle of `id`: registers the respawned handle,
    /// or hands it back when another start got there first.
    pub fn respawned(&mut self, id: String, spawned: Result<H, String>) -> (r: (MonitorState, Option<H>))
        requires
            old(self).wf(),
        ensures
            final(self).wf(),
            (r.0, r.1, final(self)@) == respawn_step(old(self)@, id@, spawned),
    {
        match spawned {
            Err(e) => (MonitorState::RestartFailed(e), None),
            Ok(h) => match self.register(id, h) {
                Some(back) => (MonitorState::Detached, Some(back)),
                None => (MonitorState::Running, None),
            },
        }
    }
}

/// What a check of the process's exit status gave while a stop waits.
pub enum ExitProbe {
    Exited,
    StillRunning,
    Failed,
}

/// What a stop does next.
pub enum StopStep {
    /// The stop is over, with this confirmation.
    Finished(String),
    /// Kill the process; the stop is then over, with this confirmation.
    Kill(String),
    /// Wait `STOP_POLL_MILLIS` and check again.
    Wait,
}

/// The graceful part of a stop, given the last check and the whole seconds
/// since the termination command was written.
pub fn graceful_stop_step(probe: ExitProbe, elapsed_secs: u64) -> (r: StopStep)
    ensures
        probe is Exited ==> r is Finished && r->Finished_0@ == "Server stopped gracefully"@,
        probe is StillRunning && elapsed_secs > STOP_GRACE_SECS ==> r is Kill
            && r->Kill_0@ == "Server stopped (Forced)"@,
        probe is StillRunning && elapsed_secs <= STOP_GRACE_SECS ==> r is Wait,
        probe is Failed ==> r is Kill && r->Kill_0@ == "Server stopped"@,
{
    match probe {
        ExitProbe::Exited => StopStep::Finished(String::from_str("Server stopped gracefully")),
        ExitProbe::StillRunning => if elapsed_secs > STOP_GRACE_SECS {
            StopStep::Kill(String::from_str("Server stopped (Forced)"))
        } else {
            StopStep::Wait
        },
        ExitProbe::Failed => StopStep::Kill(String::from_str("Server stopped")),
    }
}

/// The event topic of the console lines of `id`.
pub fn log_topic(id: &str) -> (r: String)
    ensures
        r@ == "server-log:"@ + id@,
{
    concat("server-log:", id)
}

/// The console line a monitor emits when `id` exits after a stop request.
pub fn user_stop_notice(id: &str) -> (r: String)
    ensures
        r@ == "Server "@ + id@ + " stopped (User Initiated)."@,
{
    let mut s = concat("Server ", id);
    s.append(" stopped (User Initiated).");
    s
}

/// The console line a monitor emits before it restarts `id`.
pub fn crash_notice(id: &str) -> (r: String)
    ensures
        r@ == "Server "@ + id@ + " crashed/stopped. Auto-restarting in 3s..."@,
{
    let mut s = concat("Server ", id);
    s.append(" crashed/stopped. Auto-restarting in 3s...");
    s
}

/// The console line a monitor emits when a respawn failed.
pub fn restart_failure_notice(reason: &str) -> (r: String)
    ensures
        r@ == "Failed to auto-restart: "@ + reason@,
{
    concat("Failed to auto-restart: ", reason)
}

/// The line written to a server's input for the console command `text`.
pub fn command_line(text: &str) -> (r: String)
    ensures
        r@ == text@ + "\n"@,
{
    concat(text, "\n")
}

/// A second start of an id whose first start went through is refused, and
/// the first handle stays as it was.
pub proof fn second_start_is_refused<H>(
    m: SupervisorModel<H>,
    first: ServerConfig,
    h: H,
    second: ServerConfig,
)
    requires
        !m.running.contains_key(first.id@),
        second.id@ == first.id@,
    ensures
        ({
            let m1 = register_step(start_step(m, first).1, first.id@, h).1;
            &&& m1.running.contains_key(first.id@) && m1.running[first.id@] == h
            &&& start_step(m1, second) == (Err::<(), SupervisorError>(SupervisorError::AlreadyRunning), m1)
        }),
{
}

/// A start that goes through records its configuration, which is then the
/// one a restart uses.
pub proof fn start_records_config<H>(m: SupervisorModel<H>, c: ServerConfig)
    requires
        !m.running.contains_key(c.id@),
    ensures
        start_step(m, c).0 is Ok,
        start_step(m, c).1.configs.contains_key(c.id@),
        start_step(m, c).1.configs[c.id@] == c,
        !start_step(m, c).1.stops.contains(c.id@),
{
}

/// Exactly one of a stop and a monitor that sees the exit tears a server
/// down: whichever comes second finds its handle gone and does nothing.
pub proof fn teardown_happens_once<H>(m: SupervisorModel<H>, id: Seq<char>)
    requires
        m.running.contains_key(id),
    ensures
        stop_step(m, id).0 is Ok,
        monitor_step(stop_step(m, id).1, id, true) == (MonitorState::Detached, stop_step(m, id).1),
        monitor_step(m, id, true).0.terminal() || monitor_step(m, id, true).0 is Restarting,
        stop_step(monitor_step(m, id, true).1, id) == (
            Err::<H, SupervisorError>(SupervisorError::NotRunning),
            monitor_step(m, id, true).1,
        ),
{
}

/// A stop of an id without a handle is refused and changes nothing.
pub proof fn stop_without_handle_is_refused<H>(m: SupervisorModel<H>, id: Seq<char>)
    requires
        !m.running.contains_key(id),
    ensures
        stop_step(m, id) == (Err::<H, SupervisorError>(SupervisorError::NotRunning), m),
{
}

/// After a stop the id is no longer running and it stays marked, so that a
/// monitor still watching it never restarts it, whatever it observes.
pub proof fn stopped_server_is_not_restarted<H>(m: SupervisorModel<H>, id: Seq<char>, exited: bool)
    requires
        m.running.contains_key(id),
    ensures
        ({
            let m1 = stop_step(m, id).1;
            &&& !m1.running.contains_key(id)
            &&& m1.stops.contains(id)
            &&& !(monitor_step(m1, id, exited).0 is Restarting)
            &&& monitor_step(m1, id, exited).0.terminal()
        }),
{
}

/// A process that was stopped on purpose but is still seen by its monitor
/// before the handle went away is never restarted either.
pub proof fn marked_exit_is_not_restarted<H>(m: SupervisorModel<H>, id: Seq<char>)
    requires
        m.running.contains_key(id),
        m.stops.contains(id),
    ensures
        monitor_step(m, id, true).0 is ExitedByUser,
        !monitor_step(m, id, true).1.running.contains_key(id),
{
}

/// With auto-restart on, an unexpected exit leads to a restart with the
/// stored configuration, and a successful respawn leaves exactly the new
/// handle under the id, the other servers untouched.
pub proof fn auto_restart_leaves_one_handle<H>(m: SupervisorModel<H>, id: Seq<char>, h2: H)
    requires
        m.running.contains_key(id),
        !m.stops.contains(id),
        m.configs.contains_key(id),
        m.configs[id].auto_restart,
    ensures
        ({
            let (s1, m1) = monitor_step(m, id, true);
            let (s2, back, m2) = respawn_step(m1, id, Ok(h2));
            &&& s1 == MonitorState::Restarting(m.configs[id])
            &&& !m1.running.contains_key(id)
            &&& s2 is Running
            &&& back is None
            &&& m2.running == m.running.insert(id, h2)
        }),
{
    let m1 = monitor_step(m, id, true).1;
    assert(m1.running.insert(id, h2) =~= m.running.insert(id, h2));
}

/// With auto-restart off, an unexpected exit ends the monitor, the id is
/// gone from the running set, and every later poll finds it gone.
pub proof fn exit_without_auto_restart_is_final<H>(
    m: SupervisorModel<H>,
    id: Seq<char>,
    later_exited: bool,
)
    requires
        m.running.contains_key(id),
        !m.stops.contains(id),
        !(m.configs.contains_key(id) && m.configs[id].auto_restart),
    ensures
        ({
            let (s1, m1) = monitor_step(m, id, true);
            &&& s1 is ExitedNoRestart
            &&& s1.terminal()
            &&& !m1.running.contains_key(id)
            &&& monitor_step(m1, id, later_exited) == (MonitorState::Detached, m1)
        }),
{
}

} // verus!
