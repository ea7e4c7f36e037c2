//! The dispatch core: the single owner of the execution context. Commands
//! queue up in submission order; at most one is in flight; each gets exactly
//! one reply, but `exit`, which ends the process.
use vstd::prelude::*;
use vstd::string::StringExecFns;

use crate::backend::{
    list_sql, route, route_of, DataFusionBackend, EngineRequest, RequestView, Route, RouteView,
};
use crate::cli::{DatabaseConn, ReplCommand};

verus! {

/// A command with the ticket that its reply will carry.
#[derive(Debug, Clone)]
pub struct Envelope {
    pub ticket: u64,
    pub cmd: ReplCommand,
}

#[derive(Debug, Clone)]
pub enum WorkerState {
    /// Waiting for the next command.
    Idle,
    /// Running this command in the engine.
    Executing(Envelope),
    /// `exit` was taken: nothing more is done.
    Stopped,
}

/// The reply to the command with the same ticket, with a notice to show
/// beside it where the command has one.
#[derive(Debug, Clone)]
pub struct Reply {
    pub ticket: u64,
    pub text: String,
    pub notice: Option<String>,
}

/// What the worker is to do next.
#[derive(Debug, Clone)]
pub enum Action {
    /// Nothing to do until a command arrives or the engine answers.
    Wait,
    /// Send `request` to the engine, then hand its outcome to `complete`.
    Execute { ticket: u64, request: EngineRequest },
    /// Deliver this reply.
    Reply(Reply),
    /// End the process.
    Exit,
}

#[derive(Debug)]
pub struct DispatchCore {
    pub backend: DataFusionBackend,
    /// Commands not yet taken, oldest first.
    pub pending: Vec<Envelope>,
    pub state: WorkerState,
    pub next_ticket: u64,
}

/// `d2` is `d` after `cmd` was submitted and given ticket `t`.
pub open spec fn submitted(d: DispatchCore, cmd: ReplCommand, d2: DispatchCore, t: u64) -> bool {
    &&& t == d.next_ticket
    &&& d2.next_ticket == t + 1
    &&& d2.pending@ == d.pending@.push(Envelope { ticket: t, cmd })
    &&& d2.state == d.state
    &&& d2.backend == d.backend
}

/// `d2` is `d` after the worker took action `a`.
pub open spec fn stepped(d: DispatchCore, d2: DispatchCore, a: Action) -> bool {
    if !(d.state is Idle) || d.pending@.len() == 0 {
        &&& d2 == d
        &&& if d.state is Stopped {
            a is Exit
        } else {
            a is Wait
        }
    } else {
        let e = d.pending@[0];
        &&& d2.pending@ == d.pending@.drop_first()
        &&& d2.backend == d.backend
        &&& d2.next_ticket == d.next_ticket
        &&& match route_of(e.cmd) {
            RouteView::Exit => a is Exit && d2.state is Stopped,
            RouteView::Reply(text, notice) => d2.state is Idle && (a matches Action::Reply(r)
                && r.ticket == e.ticket && r.text@ == text && (r.notice matches Some(n) && n@
                == notice)),
            RouteView::Engine(req) => d2.state == WorkerState::Executing(e) && (
            a matches Action::Execute { ticket, request } && ticket == e.ticket && request@ == req),
        }
    }
}

/// The text of the reply to `cmd` whose engine request ended with `result`.
pub open spec fn reply_text(cmd: ReplCommand, result: Result<String, String>) -> Seq<char> {
    match result {
        Ok(s) => if cmd is Connect {
            "connect success"@
        } else {
            s@
        },
        Err(e) => "Error: "@ + e@,
    }
}

/// The name that `cmd` registers when its engine request ended with
/// `result`.
pub open spec fn registers(cmd: ReplCommand, result: Result<String, String>) -> Option<Seq<char>> {
    match cmd {
        ReplCommand::Connect(o) => if result is Ok && !(o.conn is Postgres) {
            Some(o.name@)
        } else {
            None
        },
        _ => None,
    }
}

/// `d2` is `d` after the command in flight ended with `result` and `r` was
/// its reply.
pub open spec fn completed(
    d: DispatchCore,
    result: Result<String, String>,
    d2: DispatchCore,
    r: Reply,
) -> bool {
    let e = d.state->Executing_0;
    &&& r.ticket == e.ticket
    &&& r.text@ == reply_text(e.cmd, result)
    &&& r.notice is None
    &&& d2.state is Idle
    &&& d2.pending == d.pending
    &&& d2.next_ticket == d.next_ticket
    &&& d2.backend.information_schema == d.backend.information_schema
    &&& forall|n: Seq<char>|
        #[trigger] d2.backend.has(n) <==> d.backend.has(n) || registers(e.cmd, result) == Some(n)
}

impl DispatchCore {
    /// A core that owns a fresh execution context and has no command.
    pub fn new() -> (r: Self)
        ensures
            r.state is Idle,
            r.pending@.len() == 0,
            r.next_ticket == 0,
            r.backend.information_schema,
            forall|n: Seq<char>| !r.backend.has(n),
    {
        DispatchCore {
            backend: DataFusionBackend::new(),
            pending: Vec::new(),
            state: WorkerState::Idle,
            next_ticket: 0,
        }
    }

    /// Queues `cmd` behind every command submitted before it, and returns
    /// the ticket that its reply will carry.
    pub fn submit(&mut self, cmd: ReplCommand) -> (t: u64)
        requires
            old(self).next_ticket < u64::MAX,
        ensures
            submitted(*old(self), cmd, *final(self), t),
    {
        let t = self.next_ticket;
        self.pending.push(Envelope { ticket: t, cmd });
        self.next_ticket = t + 1;
        t
    }

    /// Takes the oldest pending command when no other is in flight, and says
    /// what to do with it.
    pub fn next_action(&mut self) -> (a: Action)
        ensures
            stepped(*old(self), *final(self), a),
    {
        match self.state {
            WorkerState::Stopped => return Action::Exit,
            WorkerState::Executing(_) => return Action::Wait,
            WorkerState::Idle => {},
        }
        if self.pending.len() == 0 {
            return Action::Wait;
        }
        let e = self.pending.remove(0);
        assert(self.pending@ =~= old(self).pending@.drop_first());
        match route(&e.cmd) {
            Route::Exit => {
                self.state = WorkerState::Stopped;
                Action::Exit
            },
            Route::Reply { text, notice } => Action::Reply(
                Reply { ticket: e.ticket, text, notice: Some(notice) },
            ),
            Route::Engine(request) => {
                let ticket = e.ticket;
                self.state = WorkerState::Executing(e);
                Action::Execute { ticket, request }
            },
        }
    }

    /// Ends the command in flight with the engine's `result`, records a
    /// registration it made, and returns its reply.
    pub fn complete(&mut self, result: Result<String, String>) -> (r: Reply)
        requires
            old(self).state is Executing,
        ensures
            completed(*old(self), result, *final(self), r),
    {
        let mut st = WorkerState::Idle;
        core::mem::swap(&mut self.state, &mut st);
        let e = match st {
            WorkerState::Executing(e) => e,
            _ => {
                proof {
                    assert(false);
                }
                return Reply { ticket: 0, text: String::new(), notice: None };
            },
        };
        let text = match &result {
            Ok(s) => match &e.cmd {
                ReplCommand::Connect(_) => String::from_str("connect success"),
                _ => s.clone(),
            },
            Err(msg) => {
                let mut t = String::from_str("Error: ");
                t.append(msg.as_str());
                t
            },
        };
        if let ReplCommand::Connect(o) = &e.cmd {
            match &o.conn {
                DatabaseConn::Postgres(_) => {},
                _ => {
                    if result.is_ok() {
                        self.backend.register(o.name.clone());
                    }
                },
            }
        }
        Reply { ticket: e.ticket, text, notice: None }
    }
}

/// Replies follow submission order: of two commands submitted one after the
/// other to an idle core with nothing pending, the first is executed and
/// answered, under its own ticket, before the second is taken.
pub proof fn lemma_replies_follow_submission_order(
    d0: DispatchCore,
    first: ReplCommand,
    second: ReplCommand,
    d1: DispatchCore,
    t1: u64,
    d2: DispatchCore,
    t2: u64,
    d3: DispatchCore,
    x1: Action,
    d4: DispatchCore,
    res1: Result<String, String>,
    r1: Reply,
    d5: DispatchCore,
    x2: Action,
    d6: DispatchCore,
    res2: Result<String, String>,
    r2: Reply,
)
    requires
        d0.state is Idle,
        d0.pending@.len() == 0,
        route_of(first) is Engine,
        route_of(second) is Engine,
        submitted(d0, first, d1, t1),
        submitted(d1, second, d2, t2),
        stepped(d2, d3, x1),
        completed(d3, res1, d4, r1),
        stepped(d4, d5, x2),
        completed(d5, res2, d6, r2),
    ensures
        t1 < t2,
        x1 matches Action::Execute { ticket, request } && ticket == t1 && request@ == route_of(
            first,
        )->Engine_0,
        r1.ticket == t1,
        r1.text@ == reply_text(first, res1),
        x2 matches Action::Execute { ticket, request } && ticket == t2 && request@ == route_of(
            second,
        )->Engine_0,
        r2.ticket == t2,
        r2.text@ == reply_text(second, res2),
        d6.pending@.len() == 0,
{
    assert(d2.pending@ =~= seq![Envelope { ticket: t1, cmd: first }, Envelope { ticket: t2, cmd: second }]);
    assert(d3.pending@ =~= seq![Envelope { ticket: t2, cmd: second }]);
}

/// Issuing `schema NAME` twice in a row sends the engine the same request
/// twice, and the first leaves the registered tables as they were.
pub proof fn lemma_schema_twice(
    d0: DispatchCore,
    d1: DispatchCore,
    x1: Action,
    d2: DispatchCore,
    res: Result<String, String>,
    r1: Reply,
    d3: DispatchCore,
    x2: Action,
)
    requires
        d0.state is Idle,
        d0.pending@.len() >= 2,
        d0.pending@[0].cmd is Schema,
        d0.pending@[1].cmd is Schema,
        d0.pending@[0].cmd->Schema_0.name@ == d0.pending@[1].cmd->Schema_0.name@,
        stepped(d0, d1, x1),
        completed(d1, res, d2, r1),
        stepped(d2, d3, x2),
    ensures
        x1 is Execute,
        x2 is Execute,
        x1->request@ == x2->request@,
        forall|n: Seq<char>| #[trigger] d2.backend.has(n) == d0.backend.has(n),
{
    assert(d2.pending@[0] == d0.pending@[1]);
}

/// A `connect` to a `postgres://` URL succeeds as a command, with a
/// not-supported notice beside its reply, and registers nothing; the core
/// stays idle, and a `list` behind it goes to the engine as usual.
pub proof fn lemma_postgres_connect_then_list(
    d0: DispatchCore,
    d1: DispatchCore,
    x1: Action,
    d2: DispatchCore,
    x2: Action,
)
    requires
        d0.state is Idle,
        d0.pending@.len() >= 2,
        d0.pending@[0].cmd is Connect,
        d0.pending@[0].cmd->Connect_0.conn is Postgres,
        d0.pending@[1].cmd is List,
        stepped(d0, d1, x1),
        stepped(d1, d2, x2),
    ensures
        x1 matches Action::Reply(r) && r.ticket == d0.pending@[0].ticket && r.text@
            == "connect success"@ && (r.notice matches Some(n) && n@
            == "Postgres is not supported yet"@),
        d1.state is Idle,
        forall|n: Seq<char>| #[trigger] d1.backend.has(n) == d0.backend.has(n),
        x2 matches Action::Execute { ticket, request } && ticket == d0.pending@[1].ticket
            && request@ == RequestView::Query(list_sql()),
{
    assert(d1.pending@[0] == d0.pending@[1]);
}

} // verus!
