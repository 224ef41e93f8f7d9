//! What the scheduler does with each kind of job, as decisions on the session
//! and the reply. Sending and connecting are left to the caller.

use crate::directory::{ApiResponse, LookupError, SubAccountInfo};
use crate::job::{AuthorizeParams, Job, ProxyMessage, SubmitParams, SubscribeParams};
use crate::miner::{Miner, MinerView};
use crate::scheduler::Scheduler;
use tokio::sync::mpsc::Sender;
use vstd::prelude::*;

verus! {

/// The fate of a job's reply channel: one message is sent on it, or it is
/// dropped without one.
#[derive(Debug)]
pub enum Reply {
    Send(ProxyMessage),
    Drop,
}

/// A reply is sent or dropped, never both and never neither.
pub proof fn reply_is_sent_or_dropped(r: Reply)
    ensures
        (r is Send) != (r is Drop),
{
}

/// The acknowledgment of a ping or a submit.
pub open spec fn ok_text() -> Seq<char> {
    "OK\n"@
}

/// The reason given to a subscribe on a session that is authorized but holds
/// no pool channel.
pub open spec fn no_pool_text() -> Seq<char> {
    "pool channel unavailable"@
}

/// The reason given to an authorize on a session that is authorized already or
/// is being authorized.
pub open spec fn busy_text() -> Seq<char> {
    "authorization already done or under way"@
}

/// The reason given where the directory could not be asked.
pub open spec fn lookup_failed_text() -> Seq<char> {
    "account lookup failed"@
}

/// Whether a reply sends `Response` with a given text.
pub open spec fn responds(r: Reply, text: Seq<char>) -> bool {
    r matches Reply::Send(ProxyMessage::Response(s)) && s@ == text
}

/// Whether a reply sends `Error` with a given reason.
pub open spec fn fails_with(r: Reply, reason: Seq<char>) -> bool {
    r matches Reply::Send(ProxyMessage::Error(s)) && s@ == reason
}

/// A high-priority job, told apart by its method.
#[derive(Debug)]
pub enum HighWork {
    Submit(SubmitParams),
    Subscribe(SubscribeParams),
    Authorize(AuthorizeParams),
    /// The job does not belong on the high queue; its reply is dropped.
    Misrouted,
}

/// What to do for a subscribe.
#[derive(Debug)]
pub struct SubscribePlan {
    /// The line to hand to the pool channel. Once it is handed over the caller
    /// marks the session subscribed.
    pub to_pool: Option<String>,
    pub reply: Reply,
}

/// How an authorize starts.
#[derive(Debug)]
pub enum AuthorizeStart {
    /// Ask the directory for this worker.
    Lookup(String),
    /// Do nothing but reply.
    Refuse(Reply),
}

/// What to do with the directory's answer.
#[derive(Debug)]
pub enum AuthorizePlan {
    /// Connect to the account's pool, then complete the authorization.
    Connect(SubAccountInfo),
    /// Do nothing but reply.
    Refuse(Reply),
}

/// At most one pool per session. A consistent session that holds a pool
/// channel is authorized: an authorize on it starts no lookup, no answer of
/// the directory leads it to a pool, and the end of an authorization binds
/// nothing. And while a lookup runs no second one starts.
pub proof fn one_pool_per_session(v: MinerView)
    requires
        v.consistent(),
        v.pool_tx is Some || v.lookup_in_progress,
    ensures
        !v.may_start_lookup(),
        v.pool_tx is Some ==> v.is_authorize && !v.may_bind(),
{
}

/// How an authorize ends once its pool is connected.
#[derive(Debug)]
pub struct AuthorizeEnd {
    /// The lines to hand to the pool channel, in this order; `None` where the
    /// session was bound already and the new connection is to be given up.
    pub to_pool: Option<Vec<String>>,
    pub reply: Reply,
}

fn ok_response() -> (r: Reply)
    ensures
        responds(r, ok_text()),
{
    Reply::Send(ProxyMessage::Response("OK\n".to_owned()))
}

impl Scheduler {
    /// A job from the normal queue: a ping is answered `OK`, anything else
    /// does not belong there and its reply is dropped.
    pub fn process_norm_queue(job: &Job) -> (r: Reply)
        ensures
            *job is Ping ==> responds(r, ok_text()),
            !(*job is Ping) ==> r is Drop,
    {
        match job {
            Job::Ping => ok_response(),
            _ => Reply::Drop,
        }
    }

    /// A job from the high queue, by its method.
    pub fn process_high_queue(job: Job) -> (r: HighWork)
        ensures
            match job {
                Job::MiningSubmit(p) => r == HighWork::Submit(p),
                Job::MiningSubscribe(p) => r == HighWork::Subscribe(p),
                Job::MiningAuthorize(p) => r == HighWork::Authorize(p),
                Job::Ping => r is Misrouted,
            },
    {
        match job {
            Job::MiningSubmit(p) => HighWork::Submit(p),
            Job::MiningSubscribe(p) => HighWork::Subscribe(p),
            Job::MiningAuthorize(p) => HighWork::Authorize(p),
            Job::Ping => HighWork::Misrouted,
        }
    }

    /// The reply of a submit: `OK` once a permit was had and the share was
    /// looked at, nothing where the permits are closed.
    pub fn handle_submit(permit_acquired: bool) -> (r: Reply)
        ensures
            permit_acquired ==> responds(r, ok_text()),
            !permit_acquired ==> r is Drop,
    {
        if permit_acquired {
            ok_response()
        } else {
            Reply::Drop
        }
    }

    /// A subscribe. On an unauthorized session it is stored, replacing any
    /// that waits, and the miner is told to wait. On an authorized one it goes
    /// to the pool and the reply is dropped: the pool's own answer reaches the
    /// miner. An authorized session without a pool channel is answered with an
    /// error. Only the first case changes the session.
    pub fn handle_subscribe(miner: &mut Miner, subscribe: &SubscribeParams) -> (plan: SubscribePlan)
        ensures
            !old(miner)@.is_authorize ==> {
                &&& final(miner)@ == (MinerView {
                    pending_subscribe: Some(SubscribeParams::wire_text(subscribe@)),
                    ..old(miner)@
                })
                &&& plan.to_pool is None
                &&& plan.reply == Reply::Send(ProxyMessage::Wait)
            },
            old(miner)@.is_authorize ==> final(miner)@ == old(miner)@,
            old(miner)@.is_authorize && old(miner)@.pool_tx is Some ==> {
                &&& plan.to_pool matches Some(line) && line@ == SubscribeParams::wire_text(
                    subscribe@,
                )
                &&& plan.reply is Drop
            },
            old(miner)@.is_authorize && old(miner)@.pool_tx is None ==> {
                &&& plan.to_pool is None
                &&& fails_with(plan.reply, no_pool_text())
            },
    {
        let line = subscribe.to_wire();
        if !miner.is_authorize() {
            miner.set_pending_subscribe(line);
            SubscribePlan { to_pool: None, reply: Reply::Send(ProxyMessage::Wait) }
        } else if miner.pool_tx().is_some() {
            SubscribePlan { to_pool: Some(line), reply: Reply::Drop }
        } else {
            SubscribePlan {
                to_pool: None,
                reply: Reply::Send(ProxyMessage::Error("pool channel unavailable".to_owned())),
            }
        }
    }

    /// The start of an authorize. A session that is neither authorized nor
    /// being authorized is marked as looking up, and the worker's name goes to
    /// the directory. Any other session is left alone and answered with an
    /// error, so no second pool is ever connected for it.
    pub fn handle_authorize(miner: &mut Miner, authorize: &AuthorizeParams) -> (start:
        AuthorizeStart)
        ensures
            old(miner)@.may_start_lookup() ==> {
                &&& final(miner)@ == (MinerView { lookup_in_progress: true, ..old(miner)@ })
                &&& start matches AuthorizeStart::Lookup(name) && name@ == authorize@.username
            },
            !old(miner)@.may_start_lookup() ==> {
                &&& final(miner)@ == old(miner)@
                &&& start matches AuthorizeStart::Refuse(r) && fails_with(r, busy_text())
            },
    {
        if miner.begin_lookup() {
            AuthorizeStart::Lookup(authorize.username().to_owned())
        } else {
            AuthorizeStart::Refuse(
                Reply::Send(
                    ProxyMessage::Error("authorization already done or under way".to_owned()),
                ),
            )
        }
    }

    /// The directory's answer to an authorize. On a session whose lookup
    /// runs, an account leads to its pool, while an unknown worker and a
    /// lookup that failed end the lookup and are answered with an error: the
    /// directory's reason, or a fixed one. A session without a running lookup
    /// is left alone and answered with an error.
    pub fn on_lookup(miner: &mut Miner, answer: Result<ApiResponse, LookupError>) -> (plan:
        AuthorizePlan)
        ensures
            !old(miner)@.may_bind() ==> {
                &&& plan matches AuthorizePlan::Refuse(r) && fails_with(r, busy_text())
                &&& final(miner)@ == old(miner)@
            },
            old(miner)@.may_bind() ==> match answer {
                Ok(ApiResponse::Successfully(info)) => {
                    &&& plan == AuthorizePlan::Connect(info)
                    &&& final(miner)@ == old(miner)@
                },
                Ok(ApiResponse::NotFoundSubAccount(n)) => {
                    &&& plan matches AuthorizePlan::Refuse(r) && fails_with(r, n.reason())
                    &&& final(miner)@ == (MinerView { lookup_in_progress: false, ..old(miner)@ })
                },
                Err(_) => {
                    &&& plan matches AuthorizePlan::Refuse(r) && fails_with(r, lookup_failed_text())
                    &&& final(miner)@ == (MinerView { lookup_in_progress: false, ..old(miner)@ })
                },
            },
    {
        if !miner.lookup_in_progress() {
            return AuthorizePlan::Refuse(
                Reply::Send(
                    ProxyMessage::Error("authorization already done or under way".to_owned()),
                ),
            );
        }
        match answer {
            Ok(ApiResponse::Successfully(info)) => AuthorizePlan::Connect(info),
            Ok(ApiResponse::NotFoundSubAccount(n)) => {
                miner.end_lookup();
                AuthorizePlan::Refuse(Reply::Send(ProxyMessage::Error(n.error().to_owned())))
            },
            Err(_) => {
                miner.end_lookup();
                AuthorizePlan::Refuse(
                    Reply::Send(ProxyMessage::Error("account lookup failed".to_owned())),
                )
            },
        }
    }

    /// The lines that go to the pool when an authorization completes: the
    /// subscribe that waited, if any, then the authorize.
    pub open spec fn handshake(pending: Option<Seq<char>>, authorize: Seq<char>) -> Seq<
        Seq<char>,
    > {
        match pending {
            Some(p) => seq![p, authorize],
            None => seq![authorize],
        }
    }

    /// The end of an authorize, once the pool is connected. A session whose
    /// lookup runs is bound to the pool: time, pool address and worker name
    /// are set, the lookup and the pending slot are cleared, and the lines for
    /// the pool are handed out in their order. The reply is dropped: the
    /// pool's own answer to the authorize reaches the miner. Any other session
    /// stays as it is, bound or not, and is answered with an error.
    pub fn complete_authorize(
        miner: &mut Miner,
        now: u64,
        info: SubAccountInfo,
        pool_tx: Sender<String>,
        authorize: &AuthorizeParams,
    ) -> (end: AuthorizeEnd)
        ensures
            !old(miner)@.may_bind() ==> {
                &&& end.to_pool is None
                &&& fails_with(end.reply, busy_text())
                &&& final(miner)@ == old(miner)@
            },
            old(miner)@.may_bind() ==> {
                &&& final(miner)@ == (MinerView {
                    time_authorize: Some(now),
                    pool_addr: info.pool_target@,
                    worker_name: info.sub_account_name@,
                    is_authorize: true,
                    lookup_in_progress: false,
                    pending_subscribe: None,
                    pool_tx: Some(pool_tx),
                    ..old(miner)@
                })
                &&& end.to_pool matches Some(out) && out@.map_values(|s: String| s@)
                    == Scheduler::handshake(
                    old(miner)@.pending_subscribe,
                    AuthorizeParams::wire_text(authorize@),
                )
                &&& end.reply is Drop
            },
    {
        if !miner.lookup_in_progress() {
            return AuthorizeEnd {
                to_pool: None,
                reply: Reply::Send(
                    ProxyMessage::Error("authorization already done or under way".to_owned()),
                ),
            };
        }
        let mut out: Vec<String> = Vec::new();
        match miner.take_pending_subscribe() {
            Some(pending) => {
                out.push(pending);
            },
            None => {},
        }
        out.push(authorize.to_wire());
        miner.end_lookup();
        miner.set_time_authorize(now);
        miner.set_pool_addr(info.pool_target);
        miner.set_worker_name(info.sub_account_name);
        miner.set_is_authorize(true);
        miner.set_pool_tx(pool_tx);
        assert(out@.map_values(|s: String| s@) =~= Scheduler::handshake(
            old(miner)@.pending_subscribe,
            AuthorizeParams::wire_text(authorize@),
        ));
        AuthorizeEnd { to_pool: Some(out), reply: Reply::Drop }
    }
}

} // verus!
