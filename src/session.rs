//! The session worker's state: the one live cluster client and the resource
//! handles derived from it, and the decision of what each command asks for.
use vstd::prelude::*;
use crate::logs::sanitize_lines;
use crate::codec::escapes_removed;
use crate::messages::{ApiCommand, ApiError, ErrorKind, UIData};
use crate::model::ShortKContainer;
use crate::tunnel::TunnelTable;

verus! {

/// How far the session has been set up.
#[derive(Clone, Copy, Debug, PartialEq, Eq, Structural)]
pub enum Phase {
    Uninitialized,
    CredentialsLoaded,
    NamespaceBound,
}

/// The outside work a command asks the worker to perform next.
#[derive(Debug)]
pub enum Step {
    /// Construct a cluster client from the credential profile at this path.
    Connect(String),
    /// Build resource handles for this namespace from the live client.
    BindNamespace(String),
    /// List workloads through the live handles and keep those with this prefix.
    ListWorkloads(String),
    /// Fetch the recent log lines of this workload through the live handles.
    FetchLogs(String),
    /// Open a tunnel to this workload's port through the live handles.
    OpenTunnel(String, u16),
    /// The command's requirement is not met: nothing is done and nothing is
    /// posted.
    Skip,
}

/// Session state, owned by the worker alone. `C` is the cluster client and
/// `H` the resource handles built from it.
///
/// `epoch` counts the clients installed so far; `handles_epoch` is the epoch of
/// the client that the live handles were built from.
pub struct Session<C, H> {
    client: Option<C>,
    handles: Option<H>,
    epoch: Ghost<nat>,
    handles_epoch: Ghost<nat>,
}

impl<C, H> Session<C, H> {
    pub closed spec fn client_spec(&self) -> Option<C> {
        self.client
    }

    pub closed spec fn handles_spec(&self) -> Option<H> {
        self.handles
    }

    pub closed spec fn epoch_spec(&self) -> nat {
        self.epoch@
    }

    pub closed spec fn handles_epoch_spec(&self) -> nat {
        self.handles_epoch@
    }

    /// Handles exist only together with the client they were built from.
    pub open spec fn wf(&self) -> bool {
        self.handles_spec() is Some ==> (self.client_spec() is Some && self.handles_epoch_spec()
            == self.epoch_spec())
    }

    pub open spec fn phase_spec(&self) -> Phase {
        if self.handles_spec() is Some {
            Phase::NamespaceBound
        } else if self.client_spec() is Some {
            Phase::CredentialsLoaded
        } else {
            Phase::Uninitialized
        }
    }

    /// `after` is `before` with client `c` installed: the earlier client and
    /// any handles derived from it are gone.
    pub open spec fn client_installed(before: Self, after: Self, c: C) -> bool {
        &&& after.wf()
        &&& after.client_spec() == Some(c)
        &&& after.handles_spec() is None
        &&& after.epoch_spec() == before.epoch_spec() + 1
    }

    /// `after` is `before` with handles `h` built from its live client.
    pub open spec fn handles_installed(before: Self, after: Self, h: H) -> bool {
        &&& after.wf()
        &&& after.client_spec() == before.client_spec()
        &&& after.handles_spec() == Some(h)
        &&& after.epoch_spec() == before.epoch_spec()
        &&& after.handles_epoch_spec() == before.epoch_spec()
    }

    pub fn new() -> (r: Self)
        ensures
            r.wf(),
            r.client_spec() is None,
            r.handles_spec() is None,
            r.epoch_spec() == 0,
            r.phase_spec() == Phase::Uninitialized,
    {
        Session { client: None, handles: None, epoch: Ghost(0), handles_epoch: Ghost(0) }
    }

    pub fn phase(&self) -> (r: Phase)
        ensures
            r == self.phase_spec(),
    {
        if self.handles.is_some() {
            Phase::NamespaceBound
        } else if self.client.is_some() {
            Phase::CredentialsLoaded
        } else {
            Phase::Uninitialized
        }
    }

    /// The live client, if any.
    pub fn client(&self) -> (r: Option<&C>)
        ensures
            r matches Some(c) ==> self.client_spec() == Some(*c),
            r is None <==> self.client_spec() is None,
    {
        self.client.as_ref()
    }

    /// The live handles, if any.
    pub fn handles(&self) -> (r: Option<&H>)
        ensures
            r matches Some(h) ==> self.handles_spec() == Some(*h),
            r is None <==> self.handles_spec() is None,
    {
        self.handles.as_ref()
    }

    /// Installs a newly constructed client. The previous client and any
    /// handles derived from it are dropped, so the session is left with
    /// credentials but no namespace.
    pub fn install_client(&mut self, c: C)
        requires
            old(self).wf(),
        ensures
            Self::client_installed(*old(self), *final(self), c),
            final(self).wf(),
            final(self).client_spec() == Some(c),
            final(self).handles_spec() is None,
            final(self).epoch_spec() == old(self).epoch_spec() + 1,
            final(self).phase_spec() == Phase::CredentialsLoaded,
    {
        self.handles = None;
        self.client = Some(c);
        self.epoch = Ghost(self.epoch@ + 1);
    }

    /// Installs handles built from the live client, replacing earlier ones.
    pub fn install_handles(&mut self, h: H)
        requires
            old(self).wf(),
            old(self).client_spec() is Some,
        ensures
            Self::handles_installed(*old(self), *final(self), h),
            final(self).wf(),
            final(self).client_spec() == old(self).client_spec(),
            final(self).handles_spec() == Some(h),
            final(self).epoch_spec() == old(self).epoch_spec(),
            final(self).handles_epoch_spec() == old(self).epoch_spec(),
            final(self).phase_spec() == Phase::NamespaceBound,
    {
        self.handles = Some(h);
        self.handles_epoch = Ghost(self.epoch@);
    }
}


/// The step that a command asks for in a session at `phase`: credentials are
/// always taken; a namespace needs a client; listing, logs and tunnels need
/// handles. A command whose requirement is not met is skipped.
pub open spec fn plan_spec(phase: Phase, cmd: ApiCommand) -> Step {
    match cmd {
        ApiCommand::ReloadClientWithConfig(path) => Step::Connect(path),
        ApiCommand::ReloadApisWithNameSpace(ns) => if phase != Phase::Uninitialized {
            Step::BindNamespace(ns)
        } else {
            Step::Skip
        },
        ApiCommand::PullPodsWithPrefix(prefix) => if phase == Phase::NamespaceBound {
            Step::ListWorkloads(prefix)
        } else {
            Step::Skip
        },
        ApiCommand::PullLogsForPodName(id) => if phase == Phase::NamespaceBound {
            Step::FetchLogs(id)
        } else {
            Step::Skip
        },
        ApiCommand::PortForwardForPodNamePort(id, port) => if phase == Phase::NamespaceBound {
            Step::OpenTunnel(id, port)
        } else {
            Step::Skip
        },
    }
}

/// What came of the outside work of a step.
pub enum Outcome<C, H> {
    Connected(Result<C, ApiError>),
    Bound(Result<H, ApiError>),
    Listed(Result<Vec<ShortKContainer>, ApiError>),
    Logged(Result<Vec<String>, ApiError>),
    TunnelEnded(Result<(), ApiError>),
    Skipped,
}

/// The single session worker: it owns the session and the tunnel table, takes
/// one command at a time and finishes it before taking the next.
///
/// `taken` counts the commands taken; `posted` lists, for each result posted
/// so far, the index of the command that it answers.
pub struct Worker<C, H> {
    session: Session<C, H>,
    tunnels: TunnelTable,
    busy: bool,
    taken: Ghost<nat>,
    posted: Ghost<Seq<nat>>,
}

impl<C, H> Worker<C, H> {
    pub closed spec fn session_spec(&self) -> Session<C, H> {
        self.session
    }

    pub closed spec fn tunnels_spec(&self) -> TunnelTable {
        self.tunnels
    }

    pub closed spec fn busy_spec(&self) -> bool {
        self.busy
    }

    pub closed spec fn taken_spec(&self) -> nat {
        self.taken@
    }

    pub closed spec fn posted_spec(&self) -> Seq<nat> {
        self.posted@
    }

    /// Results answer commands in the order the commands were taken, and none
    /// answers the command in progress or a later one.
    pub open spec fn wf(&self) -> bool {
        &&& self.session_spec().wf()
        &&& (self.busy_spec() ==> self.taken_spec() >= 1)
        &&& forall|i: int, j: int|
            0 <= i < j < self.posted_spec().len() ==> #[trigger] self.posted_spec()[i]
                < #[trigger] self.posted_spec()[j]
        &&& forall|i: int|
            0 <= i < self.posted_spec().len() ==> #[trigger] self.posted_spec()[i]
                < self.taken_spec() - (if self.busy_spec() {
                1int
            } else {
                0int
            })
    }

    pub fn new() -> (r: Self)
        ensures
            r.wf(),
            !r.busy_spec(),
            r.taken_spec() == 0,
            r.posted_spec() == Seq::<nat>::empty(),
            r.session_spec().phase_spec() == Phase::Uninitialized,
            r.tunnels_spec().ports_spec() == Set::<u16>::empty(),
    {
        Worker {
            session: Session::new(),
            tunnels: TunnelTable::new(),
            busy: false,
            taken: Ghost(0),
            posted: Ghost(Seq::empty()),
        }
    }

    pub fn phase(&self) -> (r: Phase)
        ensures
            r == self.session_spec().phase_spec(),
    {
        self.session.phase()
    }

    pub fn is_busy(&self) -> (r: bool)
        ensures
            r == self.busy_spec(),
    {
        self.busy
    }

    /// The live client, for building handles.
    pub fn client(&self) -> (r: Option<&C>)
        ensures
            r matches Some(c) ==> self.session_spec().client_spec() == Some(*c),
            r is None <==> self.session_spec().client_spec() is None,
    {
        self.session.client()
    }

    /// The live handles, for listing, logs and tunnels.
    pub fn handles(&self) -> (r: Option<&H>)
        ensures
            r matches Some(h) ==> self.session_spec().handles_spec() == Some(*h),
            r is None <==> self.session_spec().handles_spec() is None,
    {
        self.session.handles()
    }

    /// Takes the next command and says what outside work it asks for.
    pub fn take(&mut self, cmd: ApiCommand) -> (r: Step)
        requires
            old(self).wf(),
            !old(self).busy_spec(),
        ensures
            final(self).wf(),
            final(self).busy_spec(),
            final(self).taken_spec() == old(self).taken_spec() + 1,
            final(self).posted_spec() == old(self).posted_spec(),
            final(self).session_spec() == old(self).session_spec(),
            final(self).tunnels_spec() == old(self).tunnels_spec(),
            r == plan_spec(old(self).session_spec().phase_spec(), cmd),
    {
        let phase = self.session.phase();
        let step = match cmd {
            ApiCommand::ReloadClientWithConfig(path) => Step::Connect(path),
            ApiCommand::ReloadApisWithNameSpace(ns) => if phase != Phase::Uninitialized {
                Step::BindNamespace(ns)
            } else {
                Step::Skip
            },
            ApiCommand::PullPodsWithPrefix(prefix) => if phase == Phase::NamespaceBound {
                Step::ListWorkloads(prefix)
            } else {
                Step::Skip
            },
            ApiCommand::PullLogsForPodName(id) => if phase == Phase::NamespaceBound {
                Step::FetchLogs(id)
            } else {
                Step::Skip
            },
            ApiCommand::PortForwardForPodNamePort(id, port) => if phase == Phase::NamespaceBound {
                Step::OpenTunnel(id, port)
            } else {
                Step::Skip
            },
        };
        self.busy = true;
        self.taken = Ghost(self.taken@ + 1);
        assert(self.posted_spec() == old(self).posted_spec());
        assert forall|i: int| 0 <= i < self.posted_spec().len() implies #[trigger] self.posted_spec()[i]
            < self.taken_spec() - 1 by {
            assert(old(self).posted_spec()[i] < old(self).taken_spec() - 0int);
        }
        step
    }

    /// Finishes the command in progress with what came of its outside work,
    /// and gives the result to post, if any. A new client replaces the old one
    /// and drops its handles; new handles need the live client; a failure is
    /// posted as an error result; log lines are sanitized.
    pub fn finish(&mut self, outcome: Outcome<C, H>) -> (r: Option<UIData>)
        requires
            old(self).wf(),
            old(self).busy_spec(),
        ensures
            final(self).wf(),
            !final(self).busy_spec(),
            final(self).taken_spec() == old(self).taken_spec(),
            final(self).tunnels_spec() == old(self).tunnels_spec(),
            r is Some ==> final(self).posted_spec() == old(self).posted_spec().push(
                (old(self).taken_spec() - 1) as nat,
            ),
            r is None ==> final(self).posted_spec() == old(self).posted_spec(),
            match outcome {
                Outcome::Connected(Ok(c)) => {
                    &&& r is None
                    &&& final(self).session_spec().client_spec() == Some(c)
                    &&& final(self).session_spec().handles_spec() is None
                    &&& final(self).session_spec().epoch_spec() == old(self).session_spec().epoch_spec() + 1
                },
                Outcome::Bound(Ok(h)) => {
                    &&& r is None
                    &&& old(self).session_spec().client_spec() is Some ==> {
                        &&& final(self).session_spec().client_spec() == old(self).session_spec().client_spec()
                        &&& final(self).session_spec().handles_spec() == Some(h)
                        &&& final(self).session_spec().handles_epoch_spec() == old(self).session_spec().epoch_spec()
                    }
                    &&& old(self).session_spec().client_spec() is None ==> final(self).session_spec()
                        == old(self).session_spec()
                },
                Outcome::Listed(Ok(ws)) => r == Some(UIData::Pods(ws)) && final(self).session_spec()
                    == old(self).session_spec(),
                Outcome::Logged(Ok(lines)) => {
                    &&& final(self).session_spec() == old(self).session_spec()
                    &&& r matches Some(UIData::Logs(out))
                    &&& out@.len() == lines@.len()
                    &&& forall|i: int|
                        0 <= i < lines@.len() ==> (#[trigger] out@[i])@ == escapes_removed(
                            lines@[i]@,
                        )
                },
                Outcome::TunnelEnded(Ok(())) => r is None && final(self).session_spec() == old(self).session_spec(),
                Outcome::Skipped => r is None && final(self).session_spec() == old(self).session_spec(),
                Outcome::Connected(Err(e)) => r == Some(UIData::Error(e)) && final(self).session_spec()
                    == old(self).session_spec(),
                Outcome::Bound(Err(e)) => r == Some(UIData::Error(e)) && final(self).session_spec()
                    == old(self).session_spec(),
                Outcome::Listed(Err(e)) => r == Some(UIData::Error(e)) && final(self).session_spec()
                    == old(self).session_spec(),
                Outcome::Logged(Err(e)) => r == Some(UIData::Error(e)) && final(self).session_spec()
                    == old(self).session_spec(),
                Outcome::TunnelEnded(Err(e)) => r == Some(UIData::Error(e)) && final(self).session_spec() == old(self).session_spec(),
            },
    {
        let r = match outcome {
            Outcome::Connected(Ok(c)) => {
                self.session.install_client(c);
                None
            },
            Outcome::Bound(Ok(h)) => {
                if self.session.client().is_some() {
                    self.session.install_handles(h);
                }
                None
            },
            Outcome::Listed(Ok(ws)) => Some(UIData::Pods(ws)),
            Outcome::Logged(Ok(lines)) => Some(UIData::Logs(sanitize_lines(&lines))),
            Outcome::TunnelEnded(Ok(())) => None,
            Outcome::Skipped => None,
            Outcome::Connected(Err(e)) => Some(UIData::Error(e)),
            Outcome::Bound(Err(e)) => Some(UIData::Error(e)),
            Outcome::Listed(Err(e)) => Some(UIData::Error(e)),
            Outcome::Logged(Err(e)) => Some(UIData::Error(e)),
            Outcome::TunnelEnded(Err(e)) => Some(UIData::Error(e)),
        };
        let ghost current = (self.taken@ - 1) as nat;
        if r.is_some() {
            self.posted = Ghost(self.posted@.push(current));
        }
        self.busy = false;
        assert forall|i: int, j: int|
            0 <= i < j < self.posted_spec().len() implies #[trigger] self.posted_spec()[i]
            < #[trigger] self.posted_spec()[j] by {
            if j == old(self).posted_spec().len() {
                assert(old(self).posted_spec()[i] < old(self).taken_spec() - 1);
            } else {
                assert(old(self).posted_spec()[i] < old(self).posted_spec()[j]);
            }
        }
        assert forall|i: int| 0 <= i < self.posted_spec().len() implies #[trigger] self.posted_spec()[i]
            < self.taken_spec() - 0int by {
            if i < old(self).posted_spec().len() {
                assert(old(self).posted_spec()[i] < old(self).taken_spec() - 1);
            }
        }
        r
    }

    /// Records the listener of a tunnel on `port` (see `TunnelTable::open`).
    pub fn bind_tunnel(&mut self, port: u16, bound: bool) -> (r: Result<(), ApiError>)
        requires
            old(self).wf(),
        ensures
            final(self).wf(),
            final(self).busy_spec() == old(self).busy_spec(),
            final(self).taken_spec() == old(self).taken_spec(),
            final(self).posted_spec() == old(self).posted_spec(),
            final(self).session_spec() == old(self).session_spec(),
            r is Ok <==> (bound && !old(self).tunnels_spec().ports_spec().contains(port)),
            r matches Err(e) ==> e.kind == ErrorKind::BindError && final(self).tunnels_spec().ports_spec()
                == old(self).tunnels_spec().ports_spec(),
            r is Ok ==> final(self).tunnels_spec().ports_spec() == old(self).tunnels_spec().ports_spec().insert(port),
    {
        let r = self.tunnels.open(port, bound);
        assert(self.posted_spec() == old(self).posted_spec());
        assert forall|i: int| 0 <= i < self.posted_spec().len() implies #[trigger] self.posted_spec()[i]
            < self.taken_spec() - (if self.busy_spec() {
            1int
        } else {
            0int
        }) by {
            assert(old(self).posted_spec()[i] < old(self).taken_spec() - (if old(self).busy_spec() {
                1int
            } else {
                0int
            }));
        }
        r
    }

    /// Forgets the tunnel on `port` once it has ended.
    pub fn release_tunnel(&mut self, port: u16)
        requires
            old(self).wf(),
        ensures
            final(self).wf(),
            final(self).busy_spec() == old(self).busy_spec(),
            final(self).taken_spec() == old(self).taken_spec(),
            final(self).posted_spec() == old(self).posted_spec(),
            final(self).session_spec() == old(self).session_spec(),
            final(self).tunnels_spec().ports_spec() == old(self).tunnels_spec().ports_spec().remove(
                port,
            ),
    {
        let r = self.tunnels.close(port);
        assert(self.posted_spec() == old(self).posted_spec());
        assert forall|i: int| 0 <= i < self.posted_spec().len() implies #[trigger] self.posted_spec()[i]
            < self.taken_spec() - (if self.busy_spec() {
            1int
        } else {
            0int
        }) by {
            assert(old(self).posted_spec()[i] < old(self).taken_spec() - (if old(self).busy_spec() {
                1int
            } else {
                0int
            }));
        }
        r
    }
}


/// At most one client and handles pair is live. After a second client is
/// installed no handles remain, so a listing is skipped until a namespace is
/// bound again; handles bound then were built from the newest client, never
/// from the first.
pub proof fn lemma_reconnect_replaces_pair<C, H>(
    s0: Session<C, H>,
    s1: Session<C, H>,
    s2: Session<C, H>,
    s3: Session<C, H>,
    c1: C,
    c2: C,
    h: H,
    prefix: String,
)
    requires
        s0.wf(),
        Session::client_installed(s0, s1, c1),
        Session::client_installed(s1, s2, c2),
        Session::handles_installed(s2, s3, h),
    ensures
        s2.handles_spec() is None,
        s2.phase_spec() == Phase::CredentialsLoaded,
        plan_spec(s2.phase_spec(), ApiCommand::PullPodsWithPrefix(prefix)) == Step::Skip,
        s3.client_spec() == Some(c2),
        s3.handles_spec() == Some(h),
        s3.phase_spec() == Phase::NamespaceBound,
        s3.handles_epoch_spec() == s2.epoch_spec(),
        s3.handles_epoch_spec() != s1.epoch_spec(),
        plan_spec(s3.phase_spec(), ApiCommand::PullPodsWithPrefix(prefix)) == Step::ListWorkloads(
            prefix,
        ),
{
}

/// Results follow command order: the commands answered by the posted results
/// strictly increase, each was taken before, and none is the command still in
/// progress, so no result overtakes that of an earlier command.
pub proof fn lemma_results_follow_command_order<C, H>(w: Worker<C, H>, i: int, j: int)
    requires
        w.wf(),
        0 <= i < j < w.posted_spec().len(),
    ensures
        w.posted_spec()[i] < w.posted_spec()[j],
        w.posted_spec()[j] < w.taken_spec(),
        w.busy_spec() ==> w.posted_spec()[j] < w.taken_spec() - 1,
{
}

} // verus!
