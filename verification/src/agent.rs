use vstd::prelude::*;

verus! {

/// The tool's knowledge of the external key agent: the socket path the
/// environment advertises, if any, and whether the agent counts as
/// reachable. A freshly started agent does not propagate its socket
/// back into this process's environment, so `socket` keeps the value
/// that was probed, even after a start.
pub struct AgentHandle {
    /// The agent socket path from the environment, if set.
    pub socket: Option<String>,
    /// Whether the agent is taken to be running.
    pub running: bool,
}

/// What `ensure_agent_running` asks its caller to do.
#[derive(Debug, Clone, Copy, PartialEq, Eq, Structural)]
pub enum AgentAction {
    /// Start the external agent process.
    StartAgent,
    /// Nothing: the agent is already running.
    AlreadyRunning,
}

/// Whether the agent counts as running: the socket setting is present
/// and the path it names exists on disk. A best-effort liveness check,
/// not a protocol handshake.
pub fn is_agent_running(socket: &Option<String>, socket_path_exists: bool) -> (r: bool)
    ensures
        r == (socket.is_some() && socket_path_exists),
{
    socket.is_some() && socket_path_exists
}

impl AgentHandle {
    /// A handle built from what the environment shows: the socket
    /// setting, and whether the path it names exists on disk.
    pub fn probe(socket: Option<String>, socket_path_exists: bool) -> (h: AgentHandle)
        ensures
            h.socket == socket,
            h.running == (socket.is_some() && socket_path_exists),
    {
        let running = is_agent_running(&socket, socket_path_exists);
        AgentHandle { socket, running }
    }
}

/// The handle after `ensure_agent_running`: the agent runs, and the
/// probed socket is kept as it was.
pub open spec fn ensured(h: AgentHandle) -> AgentHandle {
    AgentHandle { running: true, ..h }
}

/// Whether a call of `ensure_agent_running` on `h` starts the agent.
pub open spec fn start_issued(h: AgentHandle) -> bool {
    !h.running
}

/// Make sure the agent runs: when the handle says it is not running,
/// ask the caller to start the external agent process; when it is, do
/// nothing.
pub fn ensure_agent_running(handle: &mut AgentHandle) -> (a: AgentAction)
    ensures
        *final(handle) == ensured(*old(handle)),
        (a == AgentAction::StartAgent) == start_issued(*old(handle)),
{
    if handle.running {
        AgentAction::AlreadyRunning
    } else {
        handle.running = true;
        AgentAction::StartAgent
    }
}

/// Ensuring the agent twice starts it at most once: after one call the
/// agent is running, so a second call issues no start and leaves the
/// handle exactly as the first call left it.
pub proof fn lemma_ensure_agent_idempotent(h: AgentHandle)
    ensures
        !start_issued(ensured(h)),
        ensured(ensured(h)) == ensured(h),
{
}

} // verus!
