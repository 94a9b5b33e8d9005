//! Tunnel bookkeeping: which local ports are bound, and the life of one
//! tunnel's listener and its bridge tasks.
use vstd::prelude::*;
use crate::messages::{ApiError, ErrorKind};

verus! {

/// The local port that serves a tunnel to `remote`: the next port up, or
/// `None` where `remote` is the largest port.
pub open spec fn local_port_spec(remote: u16) -> Option<u16> {
    if remote < u16::MAX {
        Some((remote + 1) as u16)
    } else {
        None
    }
}

pub fn local_port(remote: u16) -> (r: Option<u16>)
    ensures
        r == local_port_spec(remote),
{
    if remote < u16::MAX {
        Some(remote + 1)
    } else {
        None
    }
}

/// The local ports whose listeners this worker holds.
pub struct TunnelTable {
    ports: Vec<u16>,
}

impl TunnelTable {
    pub closed spec fn ports_spec(&self) -> Set<u16> {
        self.ports@.to_set()
    }

    pub fn new() -> (r: Self)
        ensures
            r.ports_spec() == Set::<u16>::empty(),
    {
        let r = TunnelTable { ports: Vec::new() };
        assert(r.ports@.to_set() =~= Set::<u16>::empty());
        r
    }

    pub fn is_bound(&self, port: u16) -> (r: bool)
        ensures
            r == self.ports_spec().contains(port),
    {
        let mut i: usize = 0;
        while i < self.ports.len()
            invariant
                i <= self.ports.len(),
                forall|j: int| 0 <= j < i ==> self.ports@[j] != port,
            decreases self.ports.len() - i,
        {
            if self.ports[i] == port {
                assert(self.ports@.to_set().contains(self.ports@[i as int]));
                return true;
            }
            i = i + 1;
        }
        assert(!self.ports@.contains(port));
        false
    }

    /// Records a tunnel on `port` once the listener bind has been attempted
    /// (`bound` tells whether it succeeded). A port that this table already
    /// holds, or a failed bind, is a bind error and leaves the table as it was.
    pub fn open(&mut self, port: u16, bound: bool) -> (r: Result<(), ApiError>)
        ensures
            r is Ok <==> (bound && !old(self).ports_spec().contains(port)),
            r matches Err(e) ==> e.kind == ErrorKind::BindError && final(self).ports_spec()
                == old(self).ports_spec(),
            r is Ok ==> final(self).ports_spec() == old(self).ports_spec().insert(port),
    {
        if self.is_bound(port) {
            return Err(ApiError::new(ErrorKind::BindError, "local port already bound"));
        }
        if !bound {
            return Err(ApiError::new(ErrorKind::BindError, "local port could not be bound"));
        }
        let ghost before = self.ports@;
        self.ports.push(port);
        assert(self.ports@.to_set() =~= before.to_set().insert(port)) by {
            assert(self.ports@ == before.push(port));
            before.lemma_push_to_set_commute(port);
        }
        Ok(())
    }

    /// Forgets the tunnel on `port`; every other tunnel stays.
    pub fn close(&mut self, port: u16)
        ensures
            final(self).ports_spec() == old(self).ports_spec().remove(port),
    {
        let mut kept: Vec<u16> = Vec::new();
        let mut i: usize = 0;
        while i < self.ports.len()
            invariant
                i <= self.ports.len(),
                kept@.to_set() =~= self.ports@.subrange(0, i as int).to_set().remove(port),
            decreases self.ports.len() - i,
        {
            let p = self.ports[i];
            let ghost pre = self.ports@.subrange(0, i as int);
            proof {
                assert(self.ports@.subrange(0, i + 1) == pre.push(p));
                pre.lemma_push_to_set_commute(p);
                kept@.lemma_push_to_set_commute(p);
            }
            if p != port {
                kept.push(p);
            }
            i = i + 1;
        }
        assert(self.ports@.subrange(0, self.ports@.len() as int) == self.ports@);
        self.ports = kept;
    }
}


/// Whether a tunnel serves connections until it is stopped, or exactly one.
#[derive(Clone, Copy, Debug, PartialEq, Eq, Structural)]
pub enum TunnelMode {
    MultiConnection,
    SingleShot,
}

/// One tunnel in mathematical terms: its mode, whether its listener still
/// accepts, the bridge tasks still running and the next bridge id.
pub struct TunnelView {
    pub mode: TunnelMode,
    pub listening: bool,
    pub bridges: Set<u64>,
    pub next_bridge: nat,
}

impl TunnelView {
    /// Every running bridge has an id below the next one.
    pub open spec fn wf(self) -> bool {
        self.bridges.finite() && forall|b: u64| #[trigger] self.bridges.contains(b) ==> b < self.next_bridge
    }

    /// After a connection is accepted as bridge `id`: a single-shot tunnel
    /// stops listening, a multi-connection one keeps listening.
    pub open spec fn accepted(self, id: u64) -> TunnelView {
        TunnelView {
            mode: self.mode,
            listening: self.mode == TunnelMode::MultiConnection,
            bridges: self.bridges.insert(id),
            next_bridge: self.next_bridge + 1,
        }
    }

    /// After bridge `id` ends, whether by a close or by an I/O error.
    pub open spec fn bridge_ended(self, id: u64) -> TunnelView {
        TunnelView { bridges: self.bridges.remove(id), ..self }
    }

    /// After the accept loop ends, by cancellation or a listener error.
    pub open spec fn stopped(self) -> TunnelView {
        TunnelView { listening: false, ..self }
    }

    /// The forward stream can be joined: the accept loop has ended and, for a
    /// single-shot tunnel, its one bridge has ended too (the bridges of a
    /// multi-connection tunnel are detached and not awaited).
    pub open spec fn finished(self) -> bool {
        !self.listening && (self.mode == TunnelMode::MultiConnection || self.bridges.is_empty())
    }
}

/// The life of one open tunnel: listener bound and forward stream
/// established.
pub struct Tunnel {
    mode: TunnelMode,
    listening: bool,
    bridges: Vec<u64>,
    next_bridge: u64,
}

impl Tunnel {
    pub closed spec fn view_of(&self) -> TunnelView {
        TunnelView {
            mode: self.mode,
            listening: self.listening,
            bridges: self.bridges@.to_set(),
            next_bridge: self.next_bridge as nat,
        }
    }

    pub open spec fn wf(&self) -> bool {
        self.view_of().wf()
    }

    pub fn new(mode: TunnelMode) -> (r: Self)
        ensures
            r.wf(),
            r.view_of() == (TunnelView {
                mode,
                listening: true,
                bridges: Set::empty(),
                next_bridge: 0,
            }),
    {
        let r = Tunnel { mode, listening: true, bridges: Vec::new(), next_bridge: 0 };
        assert(r.bridges@.to_set() =~= Set::<u64>::empty());
        r
    }

    pub fn is_listening(&self) -> (r: bool)
        ensures
            r == self.view_of().listening,
    {
        self.listening
    }

    /// Whether bridge `id` is still running.
    pub fn has_bridge(&self, id: u64) -> (r: bool)
        ensures
            r == self.view_of().bridges.contains(id),
    {
        let mut i: usize = 0;
        while i < self.bridges.len()
            invariant
                i <= self.bridges.len(),
                forall|j: int| 0 <= j < i ==> self.bridges@[j] != id,
            decreases self.bridges.len() - i,
        {
            if self.bridges[i] == id {
                assert(self.bridges@.to_set().contains(self.bridges@[i as int]));
                return true;
            }
            i = i + 1;
        }
        assert(!self.bridges@.contains(id));
        false
    }

    pub fn is_finished(&self) -> (r: bool)
        ensures
            r == self.view_of().finished(),
    {
        proof {
            if self.bridges@.len() > 0 {
                assert(self.bridges@.to_set().contains(self.bridges@[0]));
            } else {
                assert(self.bridges@.to_set() =~= Set::<u64>::empty());
            }
        }
        !self.listening && (self.mode == TunnelMode::MultiConnection || self.bridges.len() == 0)
    }

    /// A connection has been accepted. While listening, it becomes a bridge
    /// with a fresh id; otherwise (or once ids are exhausted) it is refused and
    /// nothing changes.
    pub fn on_accept(&mut self) -> (r: Option<u64>)
        requires
            old(self).wf(),
        ensures
            final(self).wf(),
            match r {
                Some(id) => {
                    &&& old(self).view_of().listening
                    &&& !old(self).view_of().bridges.contains(id)
                    &&& final(self).view_of() == old(self).view_of().accepted(id)
                },
                None => final(self).view_of() == old(self).view_of(),
            },
            old(self).view_of().listening && old(self).view_of().next_bridge < u64::MAX ==> r is Some,
    {
        if !self.listening || self.next_bridge == u64::MAX {
            return None;
        }
        let id = self.next_bridge;
        let ghost before = self.bridges@;
        self.bridges.push(id);
        self.next_bridge = id + 1;
        self.listening = self.mode == TunnelMode::MultiConnection;
        proof {
            before.lemma_push_to_set_commute(id);
            assert(self.bridges@ == before.push(id));
        }
        Some(id)
    }

    /// Bridge `id` has ended, normally or with an I/O error. Only that bridge
    /// is forgotten: the listener and every other bridge are left as they
    /// were.
    pub fn on_bridge_end(&mut self, id: u64)
        requires
            old(self).wf(),
        ensures
            final(self).wf(),
            final(self).view_of() == old(self).view_of().bridge_ended(id),
    {
        let mut kept: Vec<u64> = Vec::new();
        let mut i: usize = 0;
        while i < self.bridges.len()
            invariant
                i <= self.bridges.len(),
                kept@.to_set() =~= self.bridges@.subrange(0, i as int).to_set().remove(id),
            decreases self.bridges.len() - i,
        {
            let b = self.bridges[i];
            let ghost pre = self.bridges@.subrange(0, i as int);
            proof {
                assert(self.bridges@.subrange(0, i + 1) == pre.push(b));
                pre.lemma_push_to_set_commute(b);
                kept@.lemma_push_to_set_commute(b);
            }
            if b != id {
                kept.push(b);
            }
            i = i + 1;
        }
        assert(self.bridges@.subrange(0, self.bridges@.len() as int) == self.bridges@);
        self.bridges = kept;
        assert(self.view_of() =~= old(self).view_of().bridge_ended(id));
    }

    /// The accept loop has ended, by cancellation or a listener error.
    pub fn on_stop(&mut self)
        requires
            old(self).wf(),
        ensures
            final(self).wf(),
            final(self).view_of() == old(self).view_of().stopped(),
    {
        self.listening = false;
    }
}

/// A failing bridge is isolated: after any bridge of a tunnel ends, with an
/// I/O error or otherwise, the tunnel listens exactly as before and every
/// other bridge of it is still running. Another tunnel is a separate value
/// that the event does not touch.
pub proof fn lemma_bridge_failure_isolated(t: TunnelView, id: u64, other: u64)
    requires
        t.wf(),
        other != id,
    ensures
        t.bridge_ended(id).wf(),
        t.bridge_ended(id).listening == t.listening,
        t.bridge_ended(id).mode == t.mode,
        t.bridge_ended(id).bridges.contains(other) == t.bridges.contains(other),
        !t.bridge_ended(id).bridges.contains(id),
{
}

} // verus!
