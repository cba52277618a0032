use crate::config::{Local, RetryPolicy};
use crate::federation::http::{HttpClient, HttpError};
use crate::federation::inbox::{
    handle_inbox_request, identifiers_for, inbox_begins, inbox_continues, step_inbox_request,
    InboxAction, InboxEvent, InboxRequest, InboxState,
};
use crate::federation::outbox::{
    continue_outbox_request, handle_outbox_request, outbox_begins, outbox_continues,
    OutboxAction, OutboxEvent, OutboxRequest, OutboxState,
};
use crate::fresh::Fresh;
use crate::time::Timestamp;
use vstd::prelude::*;
use vstd::string::*;

verus! {

/// How many messages a queue holds before its producers have to wait.
pub const QUEUE_CAPACITY: usize = 1024;

/// What travels from the producers to a queue's worker.
#[derive(Debug)]
pub enum QueueMessage {
    Heartbeat,
    Inbound(InboxRequest),
    Outbound(OutboxRequest),
}

/// What a queue's worker is busy with. For a dispatch it counts how often
/// the delivery in hand has failed.
#[derive(Debug)]
pub enum Task {
    Idle,
    Inbound(InboxState),
    Outbound(OutboxState, u32),
}

/// What the caller is to do next for a queue.
#[derive(Debug)]
pub enum QueueAction {
    /// Note that the queue is alive.
    Heartbeat,
    Inbox(InboxAction),
    Outbox(OutboxAction),
    /// A delivery failed and will be tried again: report the inbox and the
    /// activity, and come back after so many milliseconds.
    Wait(u64, HttpError, String),
    /// The worker is busy: the message comes back as it was and has to wait.
    Busy(QueueMessage),
    /// The event belongs to no task in progress: nothing changed.
    Ignored,
}

/// What came of the last action.
#[derive(Debug)]
pub enum QueueEvent {
    Inbox(InboxEvent),
    Outbox(OutboxEvent),
    /// The wait is over.
    Waited,
}

/// The consuming end of a queue: it works on one message at a time, in the
/// order in which they are handed to it.
#[derive(Debug)]
pub struct RequestQueue {
    pub name: String,
    pub task: Task,
}

/// `base`, doubled `times` times.
pub open spec fn doubled(base: nat, times: nat) -> nat
    decreases times,
{
    if times == 0 {
        base
    } else {
        2 * doubled(base, (times - 1) as nat)
    }
}

/// How long to wait before a delivery that has failed `failures` times is
/// tried again: the first wait after the first failure, twice the wait
/// before after each further one, never more than the longest wait. `None`
/// where the delivery has been tried as often as it may be.
pub open spec fn backoff(policy: RetryPolicy, failures: nat) -> Option<nat> {
    if failures >= policy.max_attempts {
        None
    } else {
        let times = if failures == 0 {
            0
        } else {
            (failures - 1) as nat
        };
        let wait = doubled(policy.base_delay_ms as nat, times);
        Some(
            if wait < policy.max_delay_ms {
                wait
            } else {
                policy.max_delay_ms as nat
            },
        )
    }
}

/// Doubling never makes a wait shorter.
proof fn lemma_doubled_grows(base: nat, times: nat)
    ensures
        doubled(base, times) <= doubled(base, times + 1),
{
}

/// The wait before the next try of a delivery that has failed `failures`
/// times, in milliseconds; `None` where it is to be given up.
pub fn retry_delay(policy: &RetryPolicy, failures: u32) -> (r: Option<u64>)
    ensures
        r is Some <==> backoff(*policy, failures as nat) is Some,
        r matches Some(ms) ==> Some(ms as nat) == backoff(*policy, failures as nat),
{
    if failures >= policy.max_attempts {
        return None;
    }
    let cap: u64 = policy.max_delay_ms;
    let base: u64 = policy.base_delay_ms;
    let mut wait: u64 = if base < cap {
        base
    } else {
        cap
    };
    let mut tried: u32 = 1;
    while tried < failures
        invariant
            1 <= tried,
            failures == 0 ==> tried == 1,
            failures > 0 ==> tried <= failures,
            cap == policy.max_delay_ms,
            base == policy.base_delay_ms,
            wait <= cap,
            wait as nat == if doubled(base as nat, (tried - 1) as nat) < cap {
                doubled(base as nat, (tried - 1) as nat)
            } else {
                cap as nat
            },
        decreases failures - tried,
    {
        proof {
            lemma_doubled_grows(base as nat, (tried - 1) as nat);
        }
        wait = if wait > cap / 2 {
            cap
        } else {
            wait * 2
        };
        tried += 1;
    }
    proof {
        let times: nat = if failures == 0 {
            0
        } else {
            (failures - 1) as nat
        };
        assert(times == (tried - 1) as nat);
        assert(backoff(*policy, failures as nat) == Some(wait as nat));
    }
    Some(wait)
}

/// Waiting is bounded. No wait is longer than the longest that the policy
/// allows, and a delivery that has failed as often as it may be tried is
/// waited for no more.
pub proof fn backoff_is_bounded(policy: RetryPolicy, failures: nat)
    ensures
        backoff(policy, failures) matches Some(ms) ==> ms <= policy.max_delay_ms,
        failures >= policy.max_attempts ==> backoff(policy, failures) is None,
        failures < policy.max_attempts ==> backoff(policy, failures) is Some,
{
}

/// Waiting backs off. Of two failures of one delivery, the later one is
/// waited for at least as long as the earlier: twice as long, until the
/// longest wait is reached.
pub proof fn backoff_backs_off(policy: RetryPolicy, failures: nat)
    requires
        1 <= failures,
        failures + 1 < policy.max_attempts,
    ensures
        backoff(policy, failures) matches Some(before) && backoff(policy, failures + 1) matches Some(
            after,
        ) && before <= after && (after == 2 * before || after == policy.max_delay_ms),
{
    let times = (failures - 1) as nat;
    assert(doubled(policy.base_delay_ms as nat, times + 1) == 2 * doubled(
        policy.base_delay_ms as nat,
        times,
    ));
}

/// The task that goes on from an inbox state.
pub open spec fn inbound_task(state: InboxState) -> Task {
    if state is Finished {
        Task::Idle
    } else {
        Task::Inbound(state)
    }
}

/// The task that goes on from an outbox state, the delivery in hand
/// having failed `failures` times.
pub open spec fn outbound_task(state: OutboxState, failures: u32) -> Task {
    if state is Finished {
        Task::Idle
    } else {
        Task::Outbound(state, failures)
    }
}

/// A heartbeat is noted; an inbound message starts the handling of its
/// activity, an outbound one the dispatch of its request.
pub open spec fn takes_up(
    msg: QueueMessage,
    local: Local,
    key_pem: Seq<char>,
    next: Task,
    action: QueueAction,
) -> bool {
    match msg {
        QueueMessage::Heartbeat => next is Idle && action is Heartbeat,
        QueueMessage::Inbound(req) => exists|at: Timestamp, state: InboxState, a: InboxAction|
            {
                &&& at.representable()
                &&& #[trigger] inbox_begins(req, local, key_pem, at, state, a)
                &&& next == inbound_task(state)
                &&& action == QueueAction::Inbox(a)
            },
        QueueMessage::Outbound(req) => exists|fresh: Fresh, state: OutboxState, a: OutboxAction|
            {
                &&& fresh.drawn(2)
                &&& #[trigger] outbox_begins(req, local, fresh, state, a)
                &&& next == outbound_task(state, 0)
                &&& action == QueueAction::Outbox(a)
            },
    }
}

/// One more failure, counted as far as the counter goes.
pub open spec fn one_more(failures: u32) -> u32 {
    if failures < u32::MAX {
        (failures + 1) as u32
    } else {
        failures
    }
}

/// What the worker makes of a step of a dispatch. A delivery that failed
/// is waited for and tried again as long as the policy allows, and given
/// up after that; everything else is passed on as it is. An answered
/// delivery starts the count anew.
pub open spec fn after_dispatch(
    state: OutboxState,
    a: OutboxAction,
    failures: u32,
    policy: RetryPolicy,
    key_pem: Seq<char>,
    next: Task,
    action: QueueAction,
) -> bool {
    match a {
        OutboxAction::Undelivered(error, activity) => match backoff(
            policy,
            one_more(failures) as nat,
        ) {
            Some(ms) => {
                &&& next == Task::Outbound(state, one_more(failures))
                &&& action == QueueAction::Wait(ms as u64, error, activity)
            },
            None => exists|at: Timestamp, ended: OutboxState, last: OutboxAction|
                {
                    &&& at.representable()
                    &&& #[trigger] outbox_continues(
                        state,
                        OutboxEvent::Abandon,
                        key_pem,
                        at,
                        ended,
                        last,
                    )
                    &&& next == outbound_task(ended, one_more(failures))
                    &&& action == QueueAction::Outbox(last)
                },
        },
        _ => next == outbound_task(state, failures) && action == QueueAction::Outbox(a),
    }
}

/// The task in progress goes one step further on the event that belongs to
/// it.
pub open spec fn goes_on(
    task: Task,
    event: QueueEvent,
    local: Local,
    key_pem: Seq<char>,
    next: Task,
    action: QueueAction,
) -> bool {
    match (task, event) {
        (Task::Inbound(s), QueueEvent::Inbox(e)) => exists|
            fresh: Fresh,
            state: InboxState,
            a: InboxAction,
        |
            {
                &&& fresh.drawn(identifiers_for(s))
                &&& #[trigger] inbox_continues(s, e, local, key_pem, fresh, state, a)
                &&& next == inbound_task(state)
                &&& action == QueueAction::Inbox(a)
            },
        (Task::Outbound(s, failures), QueueEvent::Outbox(e)) => exists|
            at: Timestamp,
            state: OutboxState,
            a: OutboxAction,
        |
            {
                &&& at.representable()
                &&& #[trigger] outbox_continues(s, e, key_pem, at, state, a)
                &&& after_dispatch(
                    state,
                    a,
                    if e matches OutboxEvent::Delivered(Some(_)) {
                        0
                    } else {
                        failures
                    },
                    local.retry,
                    key_pem,
                    next,
                    action,
                )
            },
        (Task::Outbound(s, failures), QueueEvent::Waited) => exists|
            at: Timestamp,
            state: OutboxState,
            a: OutboxAction,
        |
            {
                &&& at.representable()
                &&& #[trigger] outbox_continues(s, OutboxEvent::Retry, key_pem, at, state, a)
                &&& after_dispatch(state, a, failures, local.retry, key_pem, next, action)
            },
        _ => next == task && action is Ignored,
    }
}

fn task_of_inbox(state: InboxState) -> (r: Task)
    ensures
        r == inbound_task(state),
{
    match state {
        InboxState::Finished => Task::Idle,
        _ => Task::Inbound(state),
    }
}

fn task_of_outbox(state: OutboxState, failures: u32) -> (r: Task)
    ensures
        r == outbound_task(state, failures),
{
    match state {
        OutboxState::Finished => Task::Idle,
        _ => Task::Outbound(state, failures),
    }
}

fn settle(
    state: OutboxState,
    a: OutboxAction,
    failures: u32,
    local: &Local,
    http: &HttpClient,
) -> (r: (Task, QueueAction))
    ensures
        after_dispatch(state, a, failures, local.retry, http.key_pem@, r.0, r.1),
{
    match a {
        OutboxAction::Undelivered(error, activity) => {
            let failed: u32 = if failures < u32::MAX {
                failures + 1
            } else {
                failures
            };
            match retry_delay(&local.retry, failed) {
                Some(ms) => (Task::Outbound(state, failed), QueueAction::Wait(ms, error, activity)),
                None => {
                    let at = Timestamp::now();
                    let (ended, last) = continue_outbox_request(
                        state,
                        OutboxEvent::Abandon,
                        http,
                        &at,
                    );
                    (task_of_outbox(ended, failed), QueueAction::Outbox(last))
                },
            }
        },
        _ => (task_of_outbox(state, failures), QueueAction::Outbox(a)),
    }
}

impl RequestQueue {
    /// A queue's worker with nothing to do yet.
    pub fn new(name: &str) -> (r: Self)
        ensures
            r.name@ == name@,
            r.task is Idle,
    {
        RequestQueue { name: String::from_str(name), task: Task::Idle }
    }

    /// Whether the worker is free for the next message.
    pub fn is_idle(&self) -> (r: bool)
        ensures
            r == (self.task is Idle),
    {
        match self.task {
            Task::Idle => true,
            _ => false,
        }
    }

    /// Hands the worker the next message. A worker that is still busy takes
    /// nothing up: the message comes back.
    pub fn receive(&mut self, msg: QueueMessage, local: &Local, http: &HttpClient) -> (action:
        QueueAction)
        ensures
            final(self).name == old(self).name,
            old(self).task is Idle ==> takes_up(
                msg,
                *local,
                http.key_pem@,
                final(self).task,
                action,
            ),
            !(old(self).task is Idle) ==> final(self).task == old(self).task && action
                == QueueAction::Busy(msg),
    {
        if !self.is_idle() {
            return QueueAction::Busy(msg);
        }
        match msg {
            QueueMessage::Heartbeat => QueueAction::Heartbeat,
            QueueMessage::Inbound(req) => {
                let (state, action) = handle_inbox_request(req, local, http);
                self.task = task_of_inbox(state);
                QueueAction::Inbox(action)
            },
            QueueMessage::Outbound(req) => {
                let (state, action) = handle_outbox_request(req, local);
                self.task = task_of_outbox(state, 0);
                QueueAction::Outbox(action)
            },
        }
    }

    /// Tells the worker what came of the last action.
    pub fn advance(&mut self, event: QueueEvent, local: &Local, http: &HttpClient) -> (action:
        QueueAction)
        ensures
            final(self).name == old(self).name,
            goes_on(old(self).task, event, *local, http.key_pem@, final(self).task, action),
    {
        let mut task = Task::Idle;
        std::mem::swap(&mut self.task, &mut task);
        match task {
            Task::Inbound(state) => match event {
                QueueEvent::Inbox(e) => {
                    let (state, action) = step_inbox_request(state, e, local, http);
                    self.task = task_of_inbox(state);
                    QueueAction::Inbox(action)
                },
                _ => {
                    self.task = Task::Inbound(state);
                    QueueAction::Ignored
                },
            },
            Task::Outbound(state, failures) => match event {
                QueueEvent::Outbox(e) => {
                    let failures: u32 = match &e {
                        OutboxEvent::Delivered(Some(_)) => 0,
                        _ => failures,
                    };
                    let at = Timestamp::now();
                    let (state, a) = continue_outbox_request(state, e, http, &at);
                    let (task, action) = settle(state, a, failures, local, http);
                    self.task = task;
                    action
                },
                QueueEvent::Waited => {
                    let at = Timestamp::now();
                    let (state, a) = continue_outbox_request(state, OutboxEvent::Retry, http, &at);
                    let (task, action) = settle(state, a, failures, local, http);
                    self.task = task;
                    action
                },
                _ => {
                    self.task = Task::Outbound(state, failures);
                    QueueAction::Ignored
                },
            },
            Task::Idle => QueueAction::Ignored,
        }
    }
}

} // verus!
