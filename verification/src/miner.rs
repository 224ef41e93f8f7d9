//! The session of one downstream connection.

use crate::params::opt_view;
use tokio::sync::mpsc::Sender;
use uuid::Uuid;
use vstd::prelude::*;

verus! {

/// `tokio::sync::mpsc::Sender`, the sending half of a bounded channel. It is
/// carried through and never looked into.
#[verifier::external_type_specification]
#[verifier::external_body]
#[verifier::reject_recursive_types(T)]
pub struct ExSender<T>(tokio::sync::mpsc::Sender<T>);

/// `uuid::Uuid`, a 128-bit identifier. It is carried through and never looked
/// into.
#[verifier::external_type_specification]
#[verifier::external_body]
pub struct ExUuid(uuid::Uuid);

/// Calls `uuid::Uuid::new_v4`, which draws a random identifier. Nothing is
/// known of the value.
#[verifier::external_body]
fn fresh_id() -> Uuid {
    Uuid::new_v4()
}

/// The remote host of a miner.
#[derive(Debug, Clone, Copy, PartialEq, Eq)]
pub enum MinerHost {
    V4([u8; 4]),
    V6([u8; 16]),
}

/// The state of one miner's session. A pool channel is only ever held by an
/// authorized session, and a subscribe only ever waits in an unauthorized one.
#[derive(Debug)]
pub struct Miner {
    miner_id: Uuid,
    miner_host: MinerHost,
    miner_port: u16,
    time_authorize: Option<u64>,
    pool_addr: String,
    share_count: u64,
    miner_diff: u64,
    worker_name: String,
    is_subscribe: bool,
    is_authorize: bool,
    lookup_in_progress: bool,
    pending_subscribe: Option<String>,
    pool_tx: Option<Sender<String>>,
    miner_tx: Sender<String>,
}

/// A session as plain values.
pub struct MinerView {
    pub miner_id: Uuid,
    pub miner_host: MinerHost,
    pub miner_port: u16,
    pub time_authorize: Option<u64>,
    pub pool_addr: Seq<char>,
    pub share_count: u64,
    pub miner_diff: u64,
    pub worker_name: Seq<char>,
    pub is_subscribe: bool,
    pub is_authorize: bool,
    pub lookup_in_progress: bool,
    pub pending_subscribe: Option<Seq<char>>,
    pub pool_tx: Option<Sender<String>>,
    pub miner_tx: Sender<String>,
}

impl MinerView {
    /// What holds of every session: a pool channel implies authorization, and
    /// neither a waiting subscribe nor a running lookup goes with it.
    pub open spec fn consistent(self) -> bool {
        &&& self.pool_tx is Some ==> self.is_authorize
        &&& self.pending_subscribe is Some ==> !self.is_authorize
        &&& self.lookup_in_progress ==> !self.is_authorize
    }

    /// Whether an authorize on this session starts an account lookup: the
    /// session is neither authorized nor being authorized.
    pub open spec fn may_start_lookup(self) -> bool {
        !self.is_authorize && !self.lookup_in_progress
    }

    /// Whether the session can be bound to a pool: its lookup runs.
    pub open spec fn may_bind(self) -> bool {
        self.lookup_in_progress
    }
}

impl View for Miner {
    type V = MinerView;

    closed spec fn view(&self) -> MinerView {
        MinerView {
            miner_id: self.miner_id,
            miner_host: self.miner_host,
            miner_port: self.miner_port,
            time_authorize: self.time_authorize,
            pool_addr: self.pool_addr@,
            share_count: self.share_count,
            miner_diff: self.miner_diff,
            worker_name: self.worker_name@,
            is_subscribe: self.is_subscribe,
            is_authorize: self.is_authorize,
            lookup_in_progress: self.lookup_in_progress,
            pending_subscribe: opt_view(self.pending_subscribe),
            pool_tx: self.pool_tx,
            miner_tx: self.miner_tx,
        }
    }
}

impl Miner {
    #[verifier::type_invariant]
    spec fn well_formed(&self) -> bool {
        self@.consistent()
    }

    /// A fresh session for a miner at `host:port`: unauthorized, unsubscribed,
    /// bound to no pool, with a random identifier. `miner_tx` is the channel
    /// on which pool lines reach the miner's connection.
    pub fn new(host: MinerHost, port: u16, miner_tx: Sender<String>) -> (m: Miner)
        ensures
            m@.miner_host == host,
            m@.miner_port == port,
            m@.miner_tx == miner_tx,
            m@.time_authorize is None,
            m@.pool_addr == Seq::<char>::empty(),
            m@.worker_name == Seq::<char>::empty(),
            m@.share_count == 0,
            m@.miner_diff == 0,
            !m@.is_subscribe,
            !m@.is_authorize,
            !m@.lookup_in_progress,
            m@.pending_subscribe is None,
            m@.pool_tx is None,
    {
        Miner {
            miner_id: fresh_id(),
            miner_host: host,
            miner_port: port,
            time_authorize: None,
            pool_addr: String::new(),
            share_count: 0,
            miner_diff: 0,
            worker_name: String::new(),
            is_subscribe: false,
            is_authorize: false,
            lookup_in_progress: false,
            pending_subscribe: None,
            pool_tx: None,
            miner_tx,
        }
    }

    /// Records when the session was authorized, in seconds.
    pub fn set_time_authorize(&mut self, time: u64)
        ensures
            final(self)@ == (MinerView { time_authorize: Some(time), ..old(self)@ }),
    {
        proof {
            use_type_invariant(&*self);
        }
        self.time_authorize = Some(time);
    }

    /// Sets the address of the session's pool.
    pub fn set_pool_addr(&mut self, pool_addr: String)
        ensures
            final(self)@ == (MinerView { pool_addr: pool_addr@, ..old(self)@ }),
    {
        proof {
            use_type_invariant(&*self);
        }
        self.pool_addr = pool_addr;
    }

    /// Sets the number of shares counted.
    pub fn set_share_count(&mut self, count: u64)
        ensures
            final(self)@ == (MinerView { share_count: count, ..old(self)@ }),
    {
        proof {
            use_type_invariant(&*self);
        }
        self.share_count = count;
    }

    /// Counts one more share.
    pub fn increment_share_count(&mut self)
        requires
            old(self)@.share_count < u64::MAX,
        ensures
            final(self)@ == (MinerView {
                share_count: (old(self)@.share_count + 1) as u64,
                ..old(self)@
            }),
    {
        proof {
            use_type_invariant(&*self);
        }
        self.share_count = self.share_count + 1;
    }

    /// Sets the miner's difficulty.
    pub fn set_miner_diff(&mut self, diff: u64)
        ensures
            final(self)@ == (MinerView { miner_diff: diff, ..old(self)@ }),
    {
        proof {
            use_type_invariant(&*self);
        }
        self.miner_diff = diff;
    }

    /// Sets the worker's name.
    pub fn set_worker_name(&mut self, name: String)
        ensures
            final(self)@ == (MinerView { worker_name: name@, ..old(self)@ }),
    {
        proof {
            use_type_invariant(&*self);
        }
        self.worker_name = name;
    }

    /// Sets the subscription flag.
    pub fn set_is_subscribe(&mut self, value: bool)
        ensures
            final(self)@ == (MinerView { is_subscribe: value, ..old(self)@ }),
    {
        proof {
            use_type_invariant(&*self);
        }
        self.is_subscribe = value;
    }

    /// Sets the authorization flag. A session with a waiting subscribe or a
    /// running lookup cannot be marked authorized, and one that holds a pool
    /// channel cannot be marked unauthorized.
    pub fn set_is_authorize(&mut self, value: bool)
        requires
            value ==> old(self)@.pending_subscribe is None && !old(self)@.lookup_in_progress,
            !value ==> old(self)@.pool_tx is None,
        ensures
            final(self)@ == (MinerView { is_authorize: value, ..old(self)@ }),
    {
        proof {
            use_type_invariant(&*self);
        }
        self.is_authorize = value;
    }

    /// Binds the session to a pool channel. Only an authorized session can be
    /// bound, and only once.
    pub fn set_pool_tx(&mut self, pool_tx: Sender<String>)
        requires
            old(self)@.is_authorize,
            old(self)@.pool_tx is None,
        ensures
            final(self)@ == (MinerView { pool_tx: Some(pool_tx), ..old(self)@ }),
    {
        proof {
            use_type_invariant(&*self);
        }
        self.pool_tx = Some(pool_tx);
    }

    /// Stores a serialized subscribe until the session is authorized. The
    /// slot holds one line: a new one replaces the old.
    pub fn set_pending_subscribe(&mut self, line: String)
        requires
            !old(self)@.is_authorize,
        ensures
            final(self)@ == (MinerView { pending_subscribe: Some(line@), ..old(self)@ }),
    {
        proof {
            use_type_invariant(&*self);
        }
        self.pending_subscribe = Some(line);
    }

    /// Empties the pending slot and hands out what was in it.
    pub fn take_pending_subscribe(&mut self) -> (r: Option<String>)
        ensures
            opt_view(r) == old(self)@.pending_subscribe,
            final(self)@ == (MinerView { pending_subscribe: None, ..old(self)@ }),
    {
        proof {
            use_type_invariant(&*self);
        }
        let mut slot: Option<String> = None;
        std::mem::swap(&mut slot, &mut self.pending_subscribe);
        slot
    }

    /// Marks an account lookup as under way, unless the session is authorized
    /// or a lookup already runs. The answer says whether the mark was set.
    pub fn begin_lookup(&mut self) -> (r: bool)
        ensures
            r == old(self)@.may_start_lookup(),
            final(self)@ == (MinerView {
                lookup_in_progress: r || old(self)@.lookup_in_progress,
                ..old(self)@
            }),
    {
        proof {
            use_type_invariant(&*self);
        }
        if self.is_authorize || self.lookup_in_progress {
            false
        } else {
            self.lookup_in_progress = true;
            true
        }
    }

    /// Takes the mark of a running lookup away.
    pub fn end_lookup(&mut self)
        ensures
            final(self)@ == (MinerView { lookup_in_progress: false, ..old(self)@ }),
    {
        proof {
            use_type_invariant(&*self);
        }
        self.lookup_in_progress = false;
    }

    /// The session's identifier.
    pub fn miner_id(&self) -> (r: Uuid)
        ensures
            r == self@.miner_id,
    {
        self.miner_id
    }

    /// The miner's host.
    pub fn miner_host(&self) -> (r: MinerHost)
        ensures
            r == self@.miner_host,
    {
        self.miner_host
    }

    /// The miner's port.
    pub fn miner_port(&self) -> (r: u16)
        ensures
            r == self@.miner_port,
    {
        self.miner_port
    }

    /// When the session was authorized, if it was.
    pub fn time_authorize(&self) -> (r: Option<u64>)
        ensures
            r == self@.time_authorize,
    {
        self.time_authorize
    }

    /// The address of the session's pool; empty until authorized.
    pub fn pool_addr(&self) -> (r: &str)
        ensures
            r@ == self@.pool_addr,
    {
        self.pool_addr.as_str()
    }

    /// The shares counted so far.
    pub fn share_count(&self) -> (r: u64)
        ensures
            r == self@.share_count,
    {
        self.share_count
    }

    /// The miner's difficulty.
    pub fn miner_diff(&self) -> (r: u64)
        ensures
            r == self@.miner_diff,
    {
        self.miner_diff
    }

    /// The worker's name; empty until authorized.
    pub fn worker_name(&self) -> (r: &str)
        ensures
            r@ == self@.worker_name,
    {
        self.worker_name.as_str()
    }

    /// Whether the session is subscribed.
    pub fn is_subscribe(&self) -> (r: bool)
        ensures
            r == self@.is_subscribe,
    {
        self.is_subscribe
    }

    /// Whether the session is authorized. Every session is consistent, so the
    /// answer `false` also says that it holds no pool channel.
    pub fn is_authorize(&self) -> (r: bool)
        ensures
            r == self@.is_authorize,
            self@.consistent(),
    {
        proof {
            use_type_invariant(self);
        }
        self.is_authorize
    }

    /// Whether an account lookup for this session is under way. Every session
    /// is consistent, so the answer `true` also says that it is not
    /// authorized and holds no pool channel.
    pub fn lookup_in_progress(&self) -> (r: bool)
        ensures
            r == self@.lookup_in_progress,
            self@.consistent(),
    {
        proof {
            use_type_invariant(self);
        }
        self.lookup_in_progress
    }

    /// Whether a subscribe waits for the authorization.
    pub fn has_pending_subscribe(&self) -> (r: bool)
        ensures
            r == self@.pending_subscribe is Some,
            r ==> !self@.is_authorize,
    {
        proof {
            use_type_invariant(self);
        }
        self.pending_subscribe.is_some()
    }

    /// The channel to the pool, where the session is bound to one. Only an
    /// authorized session has one.
    pub fn pool_tx(&self) -> (r: Option<&Sender<String>>)
        ensures
            r is Some == self@.pool_tx is Some,
            r matches Some(tx) ==> Some(*tx) == self@.pool_tx,
            r is Some ==> self@.is_authorize,
    {
        proof {
            use_type_invariant(self);
        }
        self.pool_tx.as_ref()
    }

    /// The channel on which pool lines reach the miner's connection.
    pub fn miner_tx(&self) -> (r: &Sender<String>)
        ensures
            *r == self@.miner_tx,
    {
        &self.miner_tx
    }
}

} // verus!
