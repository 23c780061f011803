//! Top-level sequencing of connect and disconnect.
//!
//! The manager owns the state machine, the probe task, the authenticated
//! connector task, and the persisted pid. Callers perform the outside work
//! (spawning, cancelling, killing); the manager decides what must be done
//! and keeps the bookkeeping consistent: the persisted pid is non-empty
//! exactly while a connector is believed running, and is cleared on every
//! exit path.

use crate::config::{GatewayConfig, Ipv4};
use crate::saml_server::no_address;
use crate::state_manager::{State, StateManager};
use crate::task::TaskHandle;
use crate::text;
use vstd::prelude::*;

verus! {

/// Why a connection attempt was refused, one variant per missing item.
#[derive(Clone, Copy, Debug, PartialEq, Eq, Structural)]
pub enum ConnectError {
    /// No resolved address to dial.
    AddressResolution,
    /// No remote host and port configured.
    RemoteMissing,
    /// No profile file selected.
    ConfigMissing,
}

/// What the probe needs to start: the first resolved address, the remote
/// port, and the profile path.
#[derive(Debug)]
pub struct ConnectParams {
    pub addr: Ipv4,
    pub port: u16,
    pub config: Vec<u8>,
}

/// What the caller must do after a disconnect: cancel the tasks that were
/// running and, on a forced disconnect, kill the recorded pid.
pub struct DisconnectEffects {
    pub probe_cancelled: bool,
    pub connector_cancelled: bool,
    pub kill_pid: Option<u32>,
}

/// Ghost model of the manager.
#[verifier::ext_equal]
pub struct ManagerModel {
    pub state: State,
    /// States delivered to observers, in order.
    pub notified: Seq<State>,
    /// A probe task is held.
    pub probe: bool,
    /// A connector task is held.
    pub conn: bool,
    /// The connector task's recorded pid.
    pub conn_pid: Option<u32>,
    /// The pid persisted for crash recovery.
    pub pid_store: Option<u32>,
}

/// The bookkeeping invariant: while disconnected nothing runs and nothing
/// is persisted; the persisted pid is exactly the running connector's.
pub open spec fn model_wf(m: ManagerModel) -> bool {
    &&& (m.state == State::Disconnected ==> !m.probe && !m.conn && m.pid_store is None)
    &&& (m.conn ==> m.pid_store == m.conn_pid)
    &&& (!m.conn ==> m.pid_store is None && m.conn_pid is None)
}

/// A validated connect: state goes to connecting, observers hear it, and
/// the probe task is recorded.
pub open spec fn spec_connect_ok(m: ManagerModel) -> ManagerModel {
    ManagerModel {
        state: State::Connecting,
        notified: m.notified.push(State::Connecting),
        probe: true,
        conn: m.conn,
        conn_pid: m.conn_pid,
        pid_store: m.pid_store,
    }
}

/// A refused connect: observers hear the attempt and its failure.
pub open spec fn spec_connect_err(m: ManagerModel) -> ManagerModel {
    ManagerModel {
        state: State::Disconnected,
        notified: m.notified.push(State::Connecting).push(State::Disconnected),
        probe: m.probe,
        conn: m.conn,
        conn_pid: m.conn_pid,
        pid_store: m.pid_store,
    }
}

/// A disconnect: state goes to disconnected first, both tasks are dropped,
/// the persisted pid is cleared.
pub open spec fn spec_disconnect(m: ManagerModel) -> ManagerModel {
    ManagerModel {
        state: State::Disconnected,
        notified: m.notified.push(State::Disconnected),
        probe: false,
        conn: false,
        conn_pid: None,
        pid_store: None,
    }
}

/// A forced disconnect at whole-process teardown: tasks dropped and pid
/// cleared, with no state change and no notification.
pub open spec fn spec_force_disconnect(m: ManagerModel) -> ManagerModel {
    ManagerModel {
        state: m.state,
        notified: m.notified,
        probe: false,
        conn: false,
        conn_pid: None,
        pid_store: None,
    }
}

/// A connector spawn: the task and its pid are recorded, and the pid is
/// persisted at once for crash recovery.
pub open spec fn spec_connector_spawned(m: ManagerModel, pid: u32) -> ManagerModel {
    ManagerModel {
        state: m.state,
        notified: m.notified,
        probe: m.probe,
        conn: true,
        conn_pid: Some(pid),
        pid_store: Some(pid),
    }
}

/// A connector exit: everything is cleared, and the settled state follows
/// the exit code — zero connected, anything else disconnected.
pub open spec fn spec_connector_exit(m: ManagerModel, code: int) -> ManagerModel {
    ManagerModel {
        state: if code == 0 {
            State::Connected
        } else {
            State::Disconnected
        },
        notified: m.notified.push(
            if code == 0 {
                State::Connected
            } else {
                State::Disconnected
            },
        ),
        probe: false,
        conn: false,
        conn_pid: None,
        pid_store: None,
    }
}

/// The configuration admits a connection attempt.
pub open spec fn connect_ok_conditions(cfg: &GatewayConfig) -> bool {
    !no_address(cfg) && cfg.remote is Some && cfg.config is Some
}

/// Contract of a connect call: success exactly when the configuration is
/// complete, the probe parameters taken from it, and the error naming the
/// first missing item in the order address, remote, profile.
pub open spec fn connect_post(
    m0: ManagerModel,
    cfg: &GatewayConfig,
    r: Result<ConnectParams, ConnectError>,
    m1: ManagerModel,
) -> bool {
    match r {
        Ok(p) => {
            &&& connect_ok_conditions(cfg)
            &&& p.addr == cfg.addresses.unwrap()@[0]
            &&& p.port == cfg.remote.unwrap().1
            &&& p.config@ == cfg.config.unwrap()@
            &&& m1 == spec_connect_ok(m0)
        },
        Err(e) => {
            &&& !connect_ok_conditions(cfg)
            &&& m1 == spec_connect_err(m0)
            &&& (e == ConnectError::AddressResolution <==> no_address(cfg))
            &&& (e == ConnectError::RemoteMissing <==> !no_address(cfg) && cfg.remote is None)
            &&& (e == ConnectError::ConfigMissing <==> !no_address(cfg) && cfg.remote is Some
                && cfg.config is None)
        },
    }
}

/// What a call of [`ConnectionManager::change_connect_state`] did.
pub enum ChangeOutcome {
    /// The manager was disconnected, so an attempt was started.
    Connect(Result<ConnectParams, ConnectError>),
    /// An attempt or a connection was up, so it was torn down.
    Disconnect(DisconnectEffects),
}

/// Top-level sequencing of connect and disconnect.
pub struct ConnectionManager {
    state: StateManager,
    openvpn: Option<TaskHandle>,
    openvpn_connection: Option<TaskHandle>,
    pid_store: Option<u32>,
}

impl ConnectionManager {
    pub closed spec fn model(&self) -> ManagerModel {
        ManagerModel {
            state: self.state.state(),
            notified: self.state.notified(),
            probe: self.openvpn is Some,
            conn: self.openvpn_connection is Some,
            conn_pid: match self.openvpn_connection {
                Some(t) => t.process(),
                None => None,
            },
            pid_store: self.pid_store,
        }
    }

    pub open spec fn wf(&self) -> bool {
        model_wf(self.model())
    }

    /// A fresh manager: disconnected, nothing running, nothing persisted,
    /// nothing notified.
    pub fn new() -> (r: ConnectionManager)
        ensures
            r.wf(),
            r.model().state == State::Disconnected,
            r.model().notified =~= Seq::<State>::empty(),
            !r.model().probe,
            !r.model().conn,
            r.model().pid_store is None,
    {
        ConnectionManager {
            state: StateManager::new(),
            openvpn: None,
            openvpn_connection: None,
            pid_store: None,
        }
    }

    /// The current state.
    pub fn get_state(&self) -> (r: State)
        ensures
            r == self.model().state,
    {
        self.state.get_state()
    }

    /// The persisted pid, as written to the crash-recovery store.
    pub fn persisted_pid(&self) -> (r: Option<u32>)
        ensures
            r == self.model().pid_store,
    {
        self.pid_store
    }

    /// Validate the configuration and start an attempt: state goes to
    /// connecting first, so observers see the intent; a refusal settles
    /// back to disconnected. On success the caller spawns the probe with
    /// the returned parameters.
    pub fn connect(&mut self, cfg: &GatewayConfig) -> (r: Result<ConnectParams, ConnectError>)
        requires
            old(self).wf(),
            old(self).model().state == State::Disconnected,
        ensures
            final(self).wf(),
            connect_post(old(self).model(), cfg, r, final(self).model()),
            r is Ok <==> connect_ok_conditions(cfg),
    {
        self.state.set_connecting();
        let addr: Ipv4 = match &cfg.addresses {
            None => {
                self.state.set_disconnected();
                assert(final(self).model() =~= spec_connect_err(old(self).model()));
                return Err(ConnectError::AddressResolution);
            },
            Some(v) => {
                if v.len() == 0 {
                    self.state.set_disconnected();
                    assert(final(self).model() =~= spec_connect_err(old(self).model()));
                    return Err(ConnectError::AddressResolution);
                }
                v[0]
            },
        };
        let (_host, port) = match &cfg.remote {
            None => {
                self.state.set_disconnected();
                assert(final(self).model() =~= spec_connect_err(old(self).model()));
                return Err(ConnectError::RemoteMissing);
            },
            Some(r) => (&r.0, r.1),
        };
        let config = match &cfg.config {
            None => {
                self.state.set_disconnected();
                assert(final(self).model() =~= spec_connect_err(old(self).model()));
                return Err(ConnectError::ConfigMissing);
            },
            Some(c) => crate::log::copy_bytes(c),
        };
        self.openvpn = Some(TaskHandle::new());
        assert(final(self).model() =~= spec_connect_ok(old(self).model()));
        Ok(ConnectParams { addr, port, config })
    }

    /// Tear the attempt down: state goes to disconnected first, then both
    /// tasks are gracefully aborted and the persisted pid is cleared. While
    /// already disconnected this is a no-op: nothing to cancel, nothing to
    /// kill.
    pub fn disconnect(&mut self) -> (e: DisconnectEffects)
        requires
            old(self).wf(),
        ensures
            final(self).wf(),
            final(self).model() == spec_disconnect(old(self).model()),
            e.probe_cancelled == old(self).model().probe,
            e.connector_cancelled == old(self).model().conn,
            e.kill_pid is None,
            old(self).model().state == State::Disconnected ==> !e.probe_cancelled
                && !e.connector_cancelled,
    {
        self.state.set_disconnected();
        let probe_cancelled = match self.openvpn.take() {
            Some(mut t) => {
                t.abort(true);
                true
            },
            None => false,
        };
        let connector_cancelled = match self.openvpn_connection.take() {
            Some(mut t) => {
                t.abort(true);
                true
            },
            None => false,
        };
        self.pid_store = None;
        assert(final(self).model() =~= spec_disconnect(old(self).model()));
        DisconnectEffects { probe_cancelled, connector_cancelled, kill_pid: None }
    }

    /// Tear everything down at whole-process teardown: forced aborts, and
    /// the recorded connector pid must also be killed out of band, since an
    /// elevated subprocess is beyond the async runtime's reach.
    pub fn force_disconnect(&mut self) -> (e: DisconnectEffects)
        requires
            old(self).wf(),
        ensures
            final(self).wf(),
            final(self).model() == spec_force_disconnect(old(self).model()),
            e.probe_cancelled == old(self).model().probe,
            e.connector_cancelled == old(self).model().conn,
            e.kill_pid == old(self).model().conn_pid,
    {
        let probe_cancelled = match self.openvpn.take() {
            Some(mut t) => {
                t.abort(false);
                true
            },
            None => false,
        };
        let (connector_cancelled, kill_pid) = match self.openvpn_connection.take() {
            Some(mut t) => {
                let eff = t.abort(false);
                (true, eff.kill_pid)
            },
            None => (false, None),
        };
        self.pid_store = None;
        assert(final(self).model() =~= spec_force_disconnect(old(self).model()));
        DisconnectEffects { probe_cancelled, connector_cancelled, kill_pid }
    }

    /// Disconnect unless already disconnected; already-disconnected is a
    /// no-op in which nothing is spawned, cancelled or killed.
    pub fn try_disconnect(&mut self) -> (r: Option<DisconnectEffects>)
        requires
            old(self).wf(),
        ensures
            final(self).wf(),
            old(self).model().state == State::Disconnected ==> r is None && final(self).model()
                == old(self).model(),
            old(self).model().state != State::Disconnected ==> (r matches Some(e)
                && final(self).model() == spec_disconnect(old(self).model())
                && e.probe_cancelled == old(self).model().probe
                && e.connector_cancelled == old(self).model().conn
                && e.kill_pid is None),
    {
        match self.state.get_state() {
            State::Disconnected => {
                assert(final(self).model() =~= old(self).model());
                None
            },
            _ => Some(self.disconnect()),
        }
    }

    /// One call drives the attempt from whatever state it is in:
    /// disconnected starts a connect; connecting or connected tears down.
    pub fn change_connect_state(&mut self, cfg: &GatewayConfig) -> (r: ChangeOutcome)
        requires
            old(self).wf(),
        ensures
            final(self).wf(),
            old(self).model().state == State::Disconnected ==> (r matches ChangeOutcome::Connect(cr)
                && connect_post(old(self).model(), cfg, cr, final(self).model())),
            old(self).model().state != State::Disconnected ==> (r matches ChangeOutcome::Disconnect(e)
                && final(self).model() == spec_disconnect(old(self).model())
                && e.probe_cancelled == old(self).model().probe
                && e.connector_cancelled == old(self).model().conn
                && e.kill_pid is None),
    {
        match self.state.get_state() {
            State::Disconnected => ChangeOutcome::Connect(self.connect(cfg)),
            State::Connected => ChangeOutcome::Disconnect(self.disconnect()),
            State::Connecting => {
                match self.try_disconnect() {
                    Some(e) => ChangeOutcome::Disconnect(e),
                    None => vstd::pervasive::unreached(),
                }
            },
        }
    }

    /// The probe reported failure: the attempt settles back to
    /// disconnected and everything is cleared.
    pub fn on_probe_failed(&mut self) -> (e: DisconnectEffects)
        requires
            old(self).wf(),
        ensures
            final(self).wf(),
            final(self).model() == spec_disconnect(old(self).model()),
            e.probe_cancelled == old(self).model().probe,
            e.connector_cancelled == old(self).model().conn,
            e.kill_pid is None,
    {
        self.disconnect()
    }

    /// The authenticated connector was spawned: record its task and pid,
    /// and persist the pid at once, before any output is streamed.
    pub fn on_connector_spawned(&mut self, pid: u32)
        requires
            old(self).wf(),
            old(self).model().state == State::Connecting,
            !old(self).model().conn,
        ensures
            final(self).wf(),
            final(self).model() == spec_connector_spawned(old(self).model(), pid),
            final(self).model().pid_store == Some(pid),
    {
        self.openvpn_connection = Some(TaskHandle::new_process(pid));
        self.pid_store = Some(pid);
        assert(final(self).model() =~= spec_connector_spawned(old(self).model(), pid));
    }

    /// The authenticated connector exited with `code`: exit code zero
    /// settles connected, anything else disconnected; on either path the
    /// tasks are dropped and the persisted pid is cleared.
    pub fn on_connector_exit(&mut self, code: i32)
        requires
            old(self).wf(),
        ensures
            final(self).wf(),
            final(self).model() == spec_connector_exit(old(self).model(), code as int),
    {
        self.openvpn = None;
        self.openvpn_connection = None;
        self.pid_store = None;
        if code == 0 {
            self.state.set_connected();
        } else {
            self.state.set_disconnected();
        }
        assert(final(self).model() =~= spec_connector_exit(old(self).model(), code as int));
    }
}

/// The message logged for a refused connection attempt, one distinct
/// message per missing item.
pub fn connect_error_message(e: &ConnectError) -> (b: Vec<u8>)
    ensures
        *e == ConnectError::AddressResolution ==> b@ == text::msg_dns_failed(),
        *e == ConnectError::RemoteMissing ==> b@ == text::msg_remote_missing(),
        *e == ConnectError::ConfigMissing ==> b@ == text::msg_config_missing(),
{
    match e {
        ConnectError::AddressResolution => text::msg_dns_failed_v(),
        ConnectError::RemoteMissing => text::msg_remote_missing_v(),
        ConnectError::ConfigMissing => text::msg_config_missing_v(),
    }
}

/// One user-driven step, as issued through
/// [`ConnectionManager::change_connect_state`]: a connect whose
/// configuration was or was not complete, or a disconnect.
pub enum OpSpec {
    Connect(bool),
    Disconnect,
}

/// What one user-driven step does to the model.
pub open spec fn apply_op(m: ManagerModel, op: OpSpec) -> ManagerModel {
    match op {
        OpSpec::Connect(ok) => {
            if m.state == State::Disconnected {
                if ok {
                    spec_connect_ok(m)
                } else {
                    spec_connect_err(m)
                }
            } else {
                spec_disconnect(m)
            }
        },
        OpSpec::Disconnect => spec_disconnect(m),
    }
}

/// The model after a sequence of user-driven steps.
pub open spec fn apply_ops(m: ManagerModel, ops: Seq<OpSpec>) -> ManagerModel
    decreases ops.len(),
{
    if ops.len() == 0 {
        m
    } else {
        apply_ops(apply_op(m, ops[0]), ops.drop_first())
    }
}

/// Every single step keeps the bookkeeping invariant.
pub proof fn lemma_op_preserves_wf(m: ManagerModel, op: OpSpec)
    requires
        model_wf(m),
    ensures
        model_wf(apply_op(m, op)),
{
}

/// For any sequence of connect and disconnect calls, the settled state is
/// one of the three defined values, and the bookkeeping invariant still
/// holds: nothing runs and no pid is persisted while disconnected, and a
/// persisted pid is exactly the running connector's.
pub proof fn lemma_settled_state(m: ManagerModel, ops: Seq<OpSpec>)
    requires
        model_wf(m),
    ensures
        model_wf(apply_ops(m, ops)),
        apply_ops(m, ops).state == State::Disconnected || apply_ops(m, ops).state
            == State::Connecting || apply_ops(m, ops).state == State::Connected,
    decreases ops.len(),
{
    if ops.len() == 0 {
    } else {
        lemma_op_preserves_wf(m, ops[0]);
        lemma_settled_state(apply_op(m, ops[0]), ops.drop_first());
    }
}

} // verus!
