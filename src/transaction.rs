use vstd::prelude::*;

use crate::errors::CommandError;
use crate::service::{
    action_supported, execution_order, execution_order_spec, kinds_of,
    lemma_execution_order_injective, lemma_execution_order_valid, supports, Environment, Hook,
};

verus! {

/// Which environment of a transaction a hook call belongs to.
#[derive(Clone, Copy, Debug, PartialEq, Eq, Structural)]
pub enum Slot {
    Primary,
    Failover,
}

/// One hook invocation asked of the caller: the hook of the service at
/// `position` in the execution order, which is service number `service` of
/// the environment in `slot`.
#[derive(Clone, Copy, Debug, PartialEq, Eq, Structural)]
pub struct HookCall {
    pub slot: Slot,
    pub position: usize,
    pub service: usize,
    pub hook: Hook,
}

/// A hook invocation, whether it succeeded, and the error it reported.
pub struct CallRecord {
    pub call: HookCall,
    pub ok: bool,
    pub cause: Option<CommandError>,
}

/// The error carried by a hook's outcome, if it failed.
pub open spec fn cause_of(outcome: Result<(), CommandError>) -> Option<CommandError> {
    match outcome {
        Ok(_) => None,
        Err(e) => Some(e),
    }
}

/// What a transaction is asked to do.
pub enum EnvironmentAction {
    Environment(Environment),
    EnvironmentWithFailover(Environment, Environment),
}

/// The terminal outcome of one transaction.
#[derive(Clone, Debug)]
pub enum TransactionResult {
    Committed,
    Rollback(CommandError),
    UnrecoverableError(String, CommandError),
}

/// A pre-flight check of the environment in `s` failed.
pub open spec fn failed_check(log: Seq<CallRecord>, s: Slot) -> bool {
    exists|j: int|
        0 <= j < log.len() && (#[trigger] log[j]).call.slot == s && log[j].call.hook is Check
            && !log[j].ok
}

/// A main hook of the environment in `s` was invoked.
pub open spec fn ran(log: Seq<CallRecord>, s: Slot) -> bool {
    exists|j: int| 0 <= j < log.len() && (#[trigger] log[j]).call.slot == s && log[j].call.hook is Run
}

/// A main hook of the environment in `s` failed.
pub open spec fn failed_run(log: Seq<CallRecord>, s: Slot) -> bool {
    exists|j: int|
        0 <= j < log.len() && (#[trigger] log[j]).call.slot == s && log[j].call.hook is Run
            && !log[j].ok
}

/// An environment failed when one of its checks or main hooks failed.
pub open spec fn env_failed(log: Seq<CallRecord>, s: Slot) -> bool {
    failed_check(log, s) || failed_run(log, s)
}

/// The compensating hook of `service` in the environment in `s` was invoked.
pub open spec fn has_on_error(log: Seq<CallRecord>, s: Slot, service: usize) -> bool {
    exists|k: int|
        0 <= k < log.len() && (#[trigger] log[k]).call.slot == s && log[k].call.hook is OnError
            && log[k].call.service == service
}

/// Every service of the environment whose main hook was invoked also had
/// its compensating hook invoked.
pub open spec fn compensated(log: Seq<CallRecord>, s: Slot) -> bool {
    forall|j: int|
        0 <= j < log.len() && (#[trigger] log[j]).call.slot == s && log[j].call.hook is Run
            ==> has_on_error(log, s, log[j].call.service)
}

/// The main hook of `service` in the environment in `s` succeeded.
pub open spec fn ran_ok(log: Seq<CallRecord>, s: Slot, service: usize) -> bool {
    exists|j: int|
        0 <= j < log.len() && (#[trigger] log[j]).call.slot == s && log[j].call.hook is Run
            && log[j].ok && log[j].call.service == service
}

/// The order in which the main hooks of an environment run.
pub open spec fn order_of(env: Environment) -> Seq<usize> {
    execution_order_spec(kinds_of(env.services@), env.action)
}

/// The main hook of every service in `order` succeeded.
pub open spec fn all_ran(log: Seq<CallRecord>, s: Slot, order: Seq<usize>) -> bool {
    forall|q: int| 0 <= q < order.len() ==> #[trigger] ran_ok(log, s, order[q])
}

/// The environment a slot of a transaction refers to.
pub open spec fn env_for(primary: Environment, failover: Option<Environment>, s: Slot) -> Environment {
    match s {
        Slot::Primary => primary,
        Slot::Failover => match failover {
            Some(f) => f,
            None => primary,
        },
    }
}

/// Each call names the service found at its position in its environment's
/// execution order.
pub open spec fn calls_follow_order(
    log: Seq<CallRecord>,
    primary: Environment,
    failover: Option<Environment>,
) -> bool {
    forall|j: int|
        0 <= j < log.len() ==> {
            let o = order_of(env_for(primary, failover, (#[trigger] log[j]).call.slot));
            &&& log[j].call.position < o.len()
            &&& log[j].call.service == o[log[j].call.position as int]
        }
}

/// Within an environment, no check is asked for after a main hook.
pub open spec fn checks_before_main_hooks(log: Seq<CallRecord>) -> bool {
    forall|j: int, k: int|
        0 <= j < k < log.len() && (#[trigger] log[j]).call.slot == (#[trigger] log[k]).call.slot
            && log[j].call.hook is Run ==> !(log[k].call.hook is Check)
}

/// Within an environment, the calls of hook `h` go forward through the
/// execution order.
pub open spec fn advancing(log: Seq<CallRecord>, h: Hook) -> bool {
    forall|j: int, k: int|
        0 <= j < k < log.len() && (#[trigger] log[j]).call.slot == (#[trigger] log[k]).call.slot
            && log[j].call.hook == h && log[k].call.hook == h ==> log[j].call.position
            < log[k].call.position
}

/// Within an environment, no two compensating calls are for the same
/// position of the execution order.
pub open spec fn compensations_distinct(log: Seq<CallRecord>) -> bool {
    forall|j: int, k: int|
        0 <= j < log.len() && 0 <= k < log.len() && j != k && (#[trigger] log[j]).call.slot == (
        #[trigger] log[k]).call.slot && log[j].call.hook is OnError && log[k].call.hook is OnError
            ==> log[j].call.position != log[k].call.position
}

/// A compensating hook of the environment in `s` was invoked.
pub open spec fn compensating(log: Seq<CallRecord>, s: Slot) -> bool {
    exists|k: int| 0 <= k < log.len() && (#[trigger] log[k]).call.slot == s && log[k].call.hook is OnError
}

/// A check or a main hook of the primary environment failed among the
/// first `k` calls.
#[verifier::opaque]
pub open spec fn primary_failed_before(log: Seq<CallRecord>, k: int) -> bool {
    exists|j: int|
        0 <= j < k && (#[trigger] log[j]).call.slot is Primary && !log[j].ok && !(
        log[j].call.hook is OnError)
}

/// A failover hook is asked for only after a check or a main hook of the
/// primary environment failed.
pub open spec fn failover_after_primary_failure(log: Seq<CallRecord>) -> bool {
    forall|k: int|
        0 <= k < log.len() && (#[trigger] log[k]).call.slot is Failover ==> primary_failed_before(
            log,
            k,
        )
}

/// The orderings every run keeps.
#[verifier::opaque]
pub open spec fn history_inv(
    log: Seq<CallRecord>,
    primary: Environment,
    failover: Option<Environment>,
) -> bool {
    &&& calls_follow_order(log, primary, failover)
    &&& checks_before_main_hooks(log)
    &&& advancing(log, Hook::Check)
    &&& advancing(log, Hook::Run)
    &&& compensations_distinct(log)
    &&& forall|s: Slot| #[trigger] failed_check(log, s) ==> !compensating(log, s)
    &&& failover_after_primary_failure(log)
}

/// A main hook of the environment in `s` failed with `c`.
pub open spec fn run_failed_with(log: Seq<CallRecord>, s: Slot, c: CommandError) -> bool {
    exists|j: int|
        0 <= j < log.len() && (#[trigger] log[j]).call.slot == s && log[j].call.hook is Run
            && !log[j].ok && log[j].cause == Some(c)
}

/// Hook `h` of the service of `env` whose identifier is `id` failed with
/// `c`.
pub open spec fn hook_failed_with(
    log: Seq<CallRecord>,
    s: Slot,
    h: Hook,
    env: Environment,
    id: Seq<char>,
    c: CommandError,
) -> bool {
    exists|j: int|
        0 <= j < log.len() && (#[trigger] log[j]).call.slot == s && log[j].call.hook == h
            && !log[j].ok && log[j].cause == Some(c) && log[j].call.service < env.services@.len()
            && env.services@[log[j].call.service as int].id@ == id
}

proof fn lemma_order_push(
    log: Seq<CallRecord>,
    r: CallRecord,
    primary: Environment,
    failover: Option<Environment>,
)
    requires
        calls_follow_order(log, primary, failover),
        ({
            let o = order_of(env_for(primary, failover, r.call.slot));
            r.call.position < o.len() && r.call.service == o[r.call.position as int]
        }),
    ensures
        calls_follow_order(log.push(r), primary, failover),
{
    let l2 = log.push(r);
    assert forall|j: int| 0 <= j < l2.len() implies {
        let o = order_of(env_for(primary, failover, (#[trigger] l2[j]).call.slot));
        &&& l2[j].call.position < o.len()
        &&& l2[j].call.service == o[l2[j].call.position as int]
    } by {
        if j < log.len() {
            assert(l2[j] == log[j]);
        }
    }
}

proof fn lemma_checks_push(log: Seq<CallRecord>, r: CallRecord)
    requires
        checks_before_main_hooks(log),
        advancing(log, Hook::Check),
        r.call.hook is Check ==> forall|j: int|
            0 <= j < log.len() && (#[trigger] log[j]).call.slot == r.call.slot ==> log[j].call.hook is Check
                && log[j].call.position < r.call.position,
    ensures
        checks_before_main_hooks(log.push(r)),
        advancing(log.push(r), Hook::Check),
{
    let l2 = log.push(r);
    let n = log.len() as int;
    assert forall|j: int, k: int|
        0 <= j < k < l2.len() && (#[trigger] l2[j]).call.slot == (#[trigger] l2[k]).call.slot
            && l2[j].call.hook is Run implies !(l2[k].call.hook is Check) by {
        assert(l2[j] == log[j]);
        if k < n {
            assert(l2[k] == log[k]);
        }
    }
    assert forall|j: int, k: int|
        0 <= j < k < l2.len() && (#[trigger] l2[j]).call.slot == (#[trigger] l2[k]).call.slot
            && l2[j].call.hook == Hook::Check && l2[k].call.hook == Hook::Check implies l2[j].call.position
        < l2[k].call.position by {
        assert(l2[j] == log[j]);
        if k < n {
            assert(l2[k] == log[k]);
        }
    }
}

proof fn lemma_runs_push(log: Seq<CallRecord>, r: CallRecord)
    requires
        advancing(log, Hook::Run),
        r.call.hook is Run ==> forall|j: int|
            0 <= j < log.len() && (#[trigger] log[j]).call.slot == r.call.slot && log[j].call.hook is Run
                ==> log[j].call.position < r.call.position,
    ensures
        advancing(log.push(r), Hook::Run),
{
    let l2 = log.push(r);
    let n = log.len() as int;
    assert forall|j: int, k: int|
        0 <= j < k < l2.len() && (#[trigger] l2[j]).call.slot == (#[trigger] l2[k]).call.slot
            && l2[j].call.hook == Hook::Run && l2[k].call.hook == Hook::Run implies l2[j].call.position
        < l2[k].call.position by {
        assert(l2[j] == log[j]);
        if k < n {
            assert(l2[k] == log[k]);
        }
    }
}

proof fn lemma_compensations_push(log: Seq<CallRecord>, r: CallRecord)
    requires
        compensations_distinct(log),
        forall|s: Slot| #[trigger] failed_check(log, s) ==> !compensating(log, s),
        r.call.hook is Check ==> forall|j: int|
            0 <= j < log.len() && (#[trigger] log[j]).call.slot == r.call.slot ==> log[j].call.hook is Check,
        r.call.hook is OnError ==> !failed_check(log, r.call.slot) && forall|j: int|
            0 <= j < log.len() && (#[trigger] log[j]).call.slot == r.call.slot
                && log[j].call.hook is OnError ==> log[j].call.position > r.call.position,
    ensures
        compensations_distinct(log.push(r)),
        forall|s: Slot| #[trigger] failed_check(log.push(r), s) ==> !compensating(log.push(r), s),
{
    let l2 = log.push(r);
    let n = log.len() as int;
    lemma_push(log, r);
    assert forall|j: int, k: int|
        0 <= j < l2.len() && 0 <= k < l2.len() && j != k && (#[trigger] l2[j]).call.slot == (
        #[trigger] l2[k]).call.slot && l2[j].call.hook is OnError && l2[k].call.hook is OnError
            implies l2[j].call.position != l2[k].call.position by {
        if j < n {
            assert(l2[j] == log[j]);
        }
        if k < n {
            assert(l2[k] == log[k]);
        }
    }
    assert forall|s: Slot| #[trigger] failed_check(l2, s) implies !compensating(l2, s) by {
        if compensating(l2, s) {
            let k = choose|k: int|
                0 <= k < l2.len() && (#[trigger] l2[k]).call.slot == s && l2[k].call.hook is OnError;
            if k < n {
                assert(l2[k] == log[k]);
                assert(compensating(log, s));
            } else {
                assert(l2[k] == r);
            }
        }
    }
}

proof fn lemma_failover_push(log: Seq<CallRecord>, r: CallRecord)
    requires
        failover_after_primary_failure(log),
        r.call.slot is Failover ==> env_failed(log, Slot::Primary),
    ensures
        failover_after_primary_failure(log.push(r)),
{
    let l2 = log.push(r);
    let n = log.len() as int;
    reveal(primary_failed_before);
    assert forall|k: int| 0 <= k < l2.len() && (#[trigger] l2[k]).call.slot is Failover implies primary_failed_before(
        l2,
        k,
    ) by {
        if k < n {
            assert(l2[k] == log[k]);
            let j = choose|j: int|
                0 <= j < k && (#[trigger] log[j]).call.slot is Primary && !log[j].ok && !(
                log[j].call.hook is OnError);
            assert(l2[j] == log[j]);
        } else {
            if failed_check(log, Slot::Primary) {
                let j = choose|j: int|
                    0 <= j < log.len() && (#[trigger] log[j]).call.slot == Slot::Primary
                        && log[j].call.hook is Check && !log[j].ok;
                assert(l2[j] == log[j]);
            } else {
                let j = choose|j: int|
                    0 <= j < log.len() && (#[trigger] log[j]).call.slot == Slot::Primary
                        && log[j].call.hook is Run && !log[j].ok;
                assert(l2[j] == log[j]);
            }
        }
    }
}

proof fn lemma_history_push(
    log: Seq<CallRecord>,
    r: CallRecord,
    primary: Environment,
    failover: Option<Environment>,
)
    requires
        history_inv(log, primary, failover),
        ({
            let o = order_of(env_for(primary, failover, r.call.slot));
            r.call.position < o.len() && r.call.service == o[r.call.position as int]
        }),
        r.call.hook is Check ==> forall|j: int|
            0 <= j < log.len() && (#[trigger] log[j]).call.slot == r.call.slot ==> log[j].call.hook is Check
                && log[j].call.position < r.call.position,
        r.call.hook is Run ==> forall|j: int|
            0 <= j < log.len() && (#[trigger] log[j]).call.slot == r.call.slot && log[j].call.hook is Run
                ==> log[j].call.position < r.call.position,
        r.call.hook is OnError ==> !failed_check(log, r.call.slot) && forall|j: int|
            0 <= j < log.len() && (#[trigger] log[j]).call.slot == r.call.slot
                && log[j].call.hook is OnError ==> log[j].call.position > r.call.position,
        r.call.slot is Failover ==> env_failed(log, Slot::Primary),
    ensures
        history_inv(log.push(r), primary, failover),
{
    reveal(history_inv);
    lemma_order_push(log, r, primary, failover);
    lemma_checks_push(log, r);
    lemma_runs_push(log, r);
    lemma_compensations_push(log, r);
    lemma_failover_push(log, r);
}

/// Every service of the environment implements its action.
pub open spec fn env_supported(env: Environment) -> bool {
    forall|i: int|
        0 <= i < env.services@.len() ==> action_supported(
            #[trigger] env.services@[i].kind,
            env.action,
        )
}

proof fn lemma_push(log: Seq<CallRecord>, r: CallRecord)
    ensures
        forall|s: Slot|
            #[trigger] failed_check(log.push(r), s) == (failed_check(log, s) || (r.call.slot == s
                && r.call.hook is Check && !r.ok)),
        forall|s: Slot|
            #[trigger] ran(log.push(r), s) == (ran(log, s) || (r.call.slot == s
                && r.call.hook is Run)),
        forall|s: Slot|
            #[trigger] failed_run(log.push(r), s) == (failed_run(log, s) || (r.call.slot == s
                && r.call.hook is Run && !r.ok)),
        forall|s: Slot, v: usize|
            #[trigger] has_on_error(log.push(r), s, v) == (has_on_error(log, s, v) || (r.call.slot
                == s && r.call.hook is OnError && r.call.service == v)),
        forall|s: Slot|
            compensated(log, s) && !(r.call.slot == s && r.call.hook is Run) ==> #[trigger] compensated(
                log.push(r),
                s,
            ),
        forall|s: Slot, v: usize|
            #[trigger] ran_ok(log.push(r), s, v) == (ran_ok(log, s, v) || (r.call.slot == s
                && r.call.hook is Run && r.ok && r.call.service == v)),
{
    let l2 = log.push(r);
    let n = log.len() as int;
    assert forall|s: Slot| #[trigger]
        failed_check(l2, s) == (failed_check(log, s) || (r.call.slot == s && r.call.hook is Check
            && !r.ok)) by {
        if failed_check(log, s) {
            let j = choose|j: int|
                0 <= j < log.len() && (#[trigger] log[j]).call.slot == s && log[j].call.hook is Check
                    && !log[j].ok;
            assert(l2[j] == log[j]);
        }
        if failed_check(l2, s) {
            let j = choose|j: int|
                0 <= j < l2.len() && (#[trigger] l2[j]).call.slot == s && l2[j].call.hook is Check
                    && !l2[j].ok;
            if j < n {
                assert(l2[j] == log[j]);
            }
        }
        if r.call.slot == s && r.call.hook is Check && !r.ok {
            assert(l2[n] == r);
        }
    }
    assert forall|s: Slot| #[trigger]
        ran(l2, s) == (ran(log, s) || (r.call.slot == s && r.call.hook is Run)) by {
        if ran(log, s) {
            let j = choose|j: int|
                0 <= j < log.len() && (#[trigger] log[j]).call.slot == s && log[j].call.hook is Run;
            assert(l2[j] == log[j]);
        }
        if ran(l2, s) {
            let j = choose|j: int|
                0 <= j < l2.len() && (#[trigger] l2[j]).call.slot == s && l2[j].call.hook is Run;
            if j < n {
                assert(l2[j] == log[j]);
            }
        }
        if r.call.slot == s && r.call.hook is Run {
            assert(l2[n] == r);
        }
    }
    assert forall|s: Slot| #[trigger]
        failed_run(l2, s) == (failed_run(log, s) || (r.call.slot == s && r.call.hook is Run
            && !r.ok)) by {
        if failed_run(log, s) {
            let j = choose|j: int|
                0 <= j < log.len() && (#[trigger] log[j]).call.slot == s && log[j].call.hook is Run
                    && !log[j].ok;
            assert(l2[j] == log[j]);
        }
        if failed_run(l2, s) {
            let j = choose|j: int|
                0 <= j < l2.len() && (#[trigger] l2[j]).call.slot == s && l2[j].call.hook is Run
                    && !l2[j].ok;
            if j < n {
                assert(l2[j] == log[j]);
            }
        }
        if r.call.slot == s && r.call.hook is Run && !r.ok {
            assert(l2[n] == r);
        }
    }
    assert forall|s: Slot, v: usize| #[trigger]
        has_on_error(l2, s, v) == (has_on_error(log, s, v) || (r.call.slot == s
            && r.call.hook is OnError && r.call.service == v)) by {
        if has_on_error(log, s, v) {
            let k = choose|k: int|
                0 <= k < log.len() && (#[trigger] log[k]).call.slot == s
                    && log[k].call.hook is OnError && log[k].call.service == v;
            assert(l2[k] == log[k]);
        }
        if has_on_error(l2, s, v) {
            let k = choose|k: int|
                0 <= k < l2.len() && (#[trigger] l2[k]).call.slot == s
                    && l2[k].call.hook is OnError && l2[k].call.service == v;
            if k < n {
                assert(l2[k] == log[k]);
            }
        }
        if r.call.slot == s && r.call.hook is OnError && r.call.service == v {
            assert(l2[n] == r);
        }
    }
    assert forall|s: Slot, v: usize| #[trigger]
        ran_ok(l2, s, v) == (ran_ok(log, s, v) || (r.call.slot == s && r.call.hook is Run && r.ok
            && r.call.service == v)) by {
        if ran_ok(log, s, v) {
            let j = choose|j: int|
                0 <= j < log.len() && (#[trigger] log[j]).call.slot == s && log[j].call.hook is Run
                    && log[j].ok && log[j].call.service == v;
            assert(l2[j] == log[j]);
        }
        if ran_ok(l2, s, v) {
            let j = choose|j: int|
                0 <= j < l2.len() && (#[trigger] l2[j]).call.slot == s && l2[j].call.hook is Run
                    && l2[j].ok && l2[j].call.service == v;
            if j < n {
                assert(l2[j] == log[j]);
            }
        }
        if r.call.slot == s && r.call.hook is Run && r.ok && r.call.service == v {
            assert(l2[n] == r);
        }
    }
    assert forall|s: Slot|
        compensated(log, s) && !(r.call.slot == s && r.call.hook is Run) implies #[trigger] compensated(
        l2,
        s,
    ) by {
        assert forall|j: int|
            0 <= j < l2.len() && (#[trigger] l2[j]).call.slot == s && l2[j].call.hook is Run
                implies has_on_error(l2, s, l2[j].call.service) by {
            assert(j < n);
            assert(l2[j] == log[j]);
            assert(has_on_error(log, s, log[j].call.service));
            let k = choose|k: int|
                0 <= k < log.len() && (#[trigger] log[k]).call.slot == s
                    && log[k].call.hook is OnError && log[k].call.service == log[j].call.service;
            assert(l2[k] == log[k]);
        }
    }
}

enum Phase {
    Checking(usize),
    Running(usize),
    Compensating { failed: usize, next: usize, cause: CommandError },
    Done(TransactionResult),
}

/// One orchestrator run over an environment action, as a state machine.
/// The caller asks for the next hook call, invokes the hook through the
/// service, and reports its outcome, until the run is done.
pub struct Transaction {
    primary: Environment,
    failover: Option<Environment>,
    slot: Slot,
    order: Vec<usize>,
    phase: Phase,
    log: Ghost<Seq<CallRecord>>,
}

impl Transaction {
    /// The hook calls made so far, in order, with their outcomes.
    pub closed spec fn log(self) -> Seq<CallRecord> {
        self.log@
    }

    pub closed spec fn primary_env(self) -> Environment {
        self.primary
    }

    pub closed spec fn failover_env(self) -> Option<Environment> {
        self.failover
    }

    pub open spec fn has_failover(self) -> bool {
        self.failover_env() is Some
    }

    pub closed spec fn is_done(self) -> bool {
        self.phase is Done
    }

    pub closed spec fn result(self) -> TransactionResult {
        match self.phase {
            Phase::Done(r) => r,
            _ => TransactionResult::Committed,
        }
    }

    /// Some service is asked for an action its kind does not implement.
    pub open spec fn rejected(self) -> bool {
        !env_supported(self.primary_env()) || match self.failover_env() {
            Some(f) => !env_supported(f),
            None => false,
        }
    }

    /// The environment the calls in slot `s` belong to.
    pub open spec fn env_at(self, s: Slot) -> Environment {
        env_for(self.primary_env(), self.failover_env(), s)
    }

    /// The hook call the transaction waits for.
    pub closed spec fn current_call(self) -> HookCall {
        let (position, hook) = match self.phase {
            Phase::Checking(p) => (p, Hook::Check),
            Phase::Running(p) => (p, Hook::Run),
            Phase::Compensating { next, .. } => (next, Hook::OnError),
            Phase::Done(_) => (0usize, Hook::Check),
        };
        HookCall { slot: self.slot, position, service: self.order@[position as int], hook }
    }

    closed spec fn order_ok(self) -> bool {
        let env = self.env_at(self.slot);
        &&& self.order@ == execution_order_spec(kinds_of(env.services@), env.action)
        &&& self.order@.len() == env.services@.len()
        &&& forall|i: int| 0 <= i < self.order@.len() ==> self.order@[i] < env.services@.len()
    }

    /// What holds whatever the phase.
    closed spec fn common_inv(self) -> bool {
        let log = self.log@;
        &&& self.slot is Failover ==> self.failover is Some
        &&& self.primary.services@.len() <= usize::MAX
        &&& self.failover matches Some(f) ==> f.services@.len() <= usize::MAX
        &&& self.order_ok()
        &&& history_inv(log, self.primary, self.failover)
        &&& forall|s: Slot| #[trigger] failed_check(log, s) ==> !ran(log, s)
        &&& self.slot is Primary ==> forall|j: int|
            0 <= j < log.len() ==> (#[trigger] log[j]).call.slot is Primary
        &&& self.slot is Failover ==> env_failed(log, Slot::Primary) && (failed_run(
            log,
            Slot::Primary,
        ) ==> compensated(log, Slot::Primary))
    }

    closed spec fn done_inv(self, r: TransactionResult) -> bool {
        let log = self.log@;
        let p = Slot::Primary;
        let f = Slot::Failover;
        &&& forall|s: Slot| #[trigger] failed_run(log, s) ==> compensated(log, s)
        &&& r is Committed ==> all_ran(log, p, order_of(self.primary)) || match self.failover {
            Some(fe) => all_ran(log, f, order_of(fe)),
            None => false,
        }
        &&& self.rejected() ==> log.len() == 0 && r is UnrecoverableError
        &&& r matches TransactionResult::Rollback(c) ==> self.failover is None && run_failed_with(
            log,
            p,
            c,
        )
        &&& r matches TransactionResult::UnrecoverableError(id, c) ==> self.rejected() || match self.failover {
            None => hook_failed_with(log, p, Hook::Check, self.primary, id@, c),
            Some(fe) => hook_failed_with(log, f, Hook::Check, fe, id@, c) || hook_failed_with(
                log,
                f,
                Hook::Run,
                fe,
                id@,
                c,
            ),
        }
        &&& !self.rejected() && self.failover is None ==> {
            &&& (r is Committed <==> !env_failed(log, p))
            &&& (failed_run(log, p) ==> r is Rollback)
            &&& (failed_check(log, p) ==> r is UnrecoverableError)
        }
        &&& !self.rejected() && self.failover is Some ==> {
            &&& (!env_failed(log, p) ==> r is Committed)
            &&& (env_failed(log, p) && !env_failed(log, f) ==> r is Committed)
            &&& (env_failed(log, p) && env_failed(log, f) ==> r is UnrecoverableError)
        }
    }

    closed spec fn phase_inv(self) -> bool {
        let log = self.log@;
        let s = self.slot;
        let order = self.order@;
        let n = order.len();
        match self.phase {
            Phase::Checking(p) => {
                &&& p < n
                &&& !self.rejected()
                &&& forall|j: int|
                    0 <= j < log.len() && (#[trigger] log[j]).call.slot == s ==> log[j].call.hook is Check
                        && log[j].ok && log[j].call.position < p
            },
            Phase::Running(p) => {
                &&& p < n
                &&& !self.rejected()
                &&& forall|j: int|
                    0 <= j < log.len() && (#[trigger] log[j]).call.slot == s ==> log[j].ok && !(
                    log[j].call.hook is OnError) && (log[j].call.hook is Run ==> log[j].call.position
                        < p && log[j].call.service == order[log[j].call.position as int])
                &&& forall|q: int| 0 <= q < p ==> #[trigger] ran_ok(log, s, order[q])
            },
            Phase::Compensating { failed, next, cause } => {
                &&& next <= failed < n
                &&& !self.rejected()
                &&& failed_run(log, s)
                &&& exists|j: int|
                    0 <= j < log.len() && (#[trigger] log[j]).call.slot == s && log[j].call.hook is Run
                        && !log[j].ok && log[j].cause == Some(cause) && log[j].call.position == failed
                        && log[j].call.service == order[failed as int]
                &&& forall|j: int|
                    0 <= j < log.len() && (#[trigger] log[j]).call.slot == s
                        && log[j].call.hook is OnError ==> next < log[j].call.position <= failed
                &&& forall|j: int|
                    0 <= j < log.len() && (#[trigger] log[j]).call.slot == s ==> (log[j].call.hook is Check
                        ==> log[j].ok) && (log[j].call.hook is Run ==> log[j].call.position <= failed
                        && log[j].call.service == order[log[j].call.position as int])
                &&& forall|q: int|
                    next < q <= failed ==> #[trigger] has_on_error(log, s, order[q])
            },
            Phase::Done(r) => self.done_inv(r),
        }
    }

    /// An upper bound on the hook calls still to come.
    pub closed spec fn remaining(self) -> nat {
        let n = self.order@.len();
        let spare: nat = match (self.slot, self.failover) {
            (Slot::Primary, Some(f)) => 3 * f.services@.len() + 1,
            _ => 0,
        };
        match self.phase {
            Phase::Checking(p) => ((n - p) + 2 * n + spare) as nat,
            Phase::Running(p) => ((n - p) + n + spare) as nat,
            Phase::Compensating { next, .. } => (next + 1 + spare) as nat,
            Phase::Done(_) => 0nat,
        }
    }

    /// The transaction's invariant, kept from its creation through every report.
    pub closed spec fn wf(self) -> bool {
        &&& self.common_inv()
        &&& self.phase_inv()
    }

    fn first_unsupported(env: &Environment) -> (r: Option<usize>)
        ensures
            r is None <==> env_supported(*env),
            r matches Some(i) ==> i < env.services@.len() && !action_supported(
                env.services@[i as int].kind,
                env.action,
            ),
    {
        let n = env.services.len();
        let mut i: usize = 0;
        while i < n
            invariant
                n == env.services@.len(),
                i <= n,
                forall|k: int| 0 <= k < i ==> action_supported(
                    #[trigger] env.services@[k].kind,
                    env.action,
                ),
            decreases n - i,
        {
            if !supports(env.services[i].kind, env.action) {
                return Some(i);
            }
            i = i + 1;
        }
        None
    }

    /// The phase an environment starts in: done at once when it is empty.
    fn start_phase(n: usize) -> (r: Phase)
        ensures
            n == 0 ==> r == Phase::Done(TransactionResult::Committed),
            n > 0 ==> r == Phase::Checking(0),
    {
        if n == 0 {
            Phase::Done(TransactionResult::Committed)
        } else {
            Phase::Checking(0)
        }
    }

    fn not_implemented(env: &Environment, i: usize) -> (r: TransactionResult)
        requires
            i < env.services@.len(),
        ensures
            r matches TransactionResult::UnrecoverableError(id, _) && id@
                == env.services@[i as int].id@,
    {
        TransactionResult::UnrecoverableError(
            env.services[i].id.clone(),
            CommandError::new_from_safe_message(
                String::from_str("the requested action is not implemented for this service"),
            ),
        )
    }

    /// Starts a transaction. Nothing is invoked yet. When some service is
    /// asked for an action its kind does not implement, the transaction is
    /// done at once with an unrecoverable error and no hook is ever invoked.
    pub fn new(action: EnvironmentAction) -> (t: Transaction)
        ensures
            t.wf(),
            t.log() == Seq::<CallRecord>::empty(),
            action matches EnvironmentAction::Environment(e) ==> t.primary_env() == e
                && t.failover_env() is None,
            action matches EnvironmentAction::EnvironmentWithFailover(e, f) ==> t.primary_env()
                == e && t.failover_env() == Some(f),
            t.rejected() ==> t.is_done() && t.result() is UnrecoverableError,
            !t.rejected() ==> (t.is_done() <==> t.primary_env().services@.len() == 0),
            !t.rejected() && t.is_done() ==> t.result() is Committed,
    {
        let (primary, failover) = match action {
            EnvironmentAction::Environment(e) => (e, None),
            EnvironmentAction::EnvironmentWithFailover(e, f) => (e, Some(f)),
        };
        let order = execution_order(&primary);
        let _ = primary.services.len();
        match &failover {
            Some(f) => {
                let _ = f.services.len();
            },
            None => {},
        }
        proof {
            lemma_execution_order_valid(kinds_of(primary.services@), primary.action);
            assert(kinds_of(primary.services@).len() == primary.services@.len());
        }
        let mut rejection: Option<TransactionResult> = None;
        match Self::first_unsupported(&primary) {
            Some(i) => {
                rejection = Some(Self::not_implemented(&primary, i));
            },
            None => {},
        }
        if rejection.is_none() {
            match &failover {
                Some(f) => match Self::first_unsupported(f) {
                    Some(i) => {
                        rejection = Some(Self::not_implemented(f, i));
                    },
                    None => {},
                },
                None => {},
            }
        }
        let phase = match rejection {
            Some(r) => Phase::Done(r),
            None => Self::start_phase(order.len()),
        };
        proof {
            reveal(history_inv);
        }
        Transaction { primary, failover, slot: Slot::Primary, order, phase, log: Ghost(Seq::empty()) }
    }

    fn current_env(&self) -> (r: &Environment)
        ensures
            *r == self.env_at(self.slot),
    {
        match self.slot {
            Slot::Primary => &self.primary,
            Slot::Failover => match &self.failover {
                Some(f) => f,
                None => &self.primary,
            },
        }
    }

    /// The hook to invoke next, or `None` once the transaction is done.
    pub fn next_call(&self) -> (r: Option<HookCall>)
        requires
            self.wf(),
        ensures
            self.is_done() ==> r is None,
            !self.is_done() ==> r == Some(self.current_call()),
    {
        match &self.phase {
            Phase::Checking(p) => Some(
                HookCall { slot: self.slot, position: *p, service: self.order[*p], hook: Hook::Check },
            ),
            Phase::Running(p) => Some(
                HookCall { slot: self.slot, position: *p, service: self.order[*p], hook: Hook::Run },
            ),
            Phase::Compensating { next, .. } => Some(
                HookCall {
                    slot: self.slot,
                    position: *next,
                    service: self.order[*next],
                    hook: Hook::OnError,
                },
            ),
            Phase::Done(_) => None,
        }
    }

    /// The terminal outcome of a finished transaction.
    pub fn outcome(&self) -> (r: &TransactionResult)
        requires
            self.wf(),
            self.is_done(),
        ensures
            *r == self.result(),
    {
        match &self.phase {
            Phase::Done(r) => r,
            _ => unreached(),
        }
    }

    closed spec fn closing(self, exec: bool, id: Seq<char>, cause: CommandError) -> bool {
        let log = self.log@;
        let s = self.slot;
        &&& hook_failed_with(
            log,
            s,
            if exec {
                Hook::Run
            } else {
                Hook::Check
            },
            self.env_at(s),
            id,
            cause,
        )
        &&& self.common_inv()
        &&& !self.rejected()
        &&& env_failed(log, s)
        &&& exec == failed_run(log, s)
        &&& (failed_run(log, s) ==> compensated(log, s))
    }

    /// The environment in the current slot failed: switch to the failover
    /// environment if there is one still to try, else finish.
    fn close_failed_env(&mut self, id: String, cause: CommandError, exec: bool)
        requires
            old(self).closing(exec, id@, cause),
        ensures
            final(self).wf(),
            final(self).log() == old(self).log(),
            final(self).primary_env() == old(self).primary_env(),
            final(self).failover_env() == old(self).failover_env(),
            final(self).remaining() <= match (old(self).slot, old(self).failover) {
                (Slot::Primary, Some(f)) => 3 * f.services@.len(),
                _ => 0,
            },
    {
        let ghost log = self.log@;
        match self.slot {
            Slot::Primary => {
                assert(!failed_run(log, Slot::Failover) && !failed_check(log, Slot::Failover)) by {
                    if failed_run(log, Slot::Failover) {
                        let j = choose|j: int|
                            0 <= j < log.len() && (#[trigger] log[j]).call.slot == Slot::Failover
                                && log[j].call.hook is Run && !log[j].ok;
                    }
                    if failed_check(log, Slot::Failover) {
                        let j = choose|j: int|
                            0 <= j < log.len() && (#[trigger] log[j]).call.slot == Slot::Failover
                                && log[j].call.hook is Check && !log[j].ok;
                    }
                }
                let switch = match &self.failover {
                    Some(f) => {
                        let order = execution_order(f);
                        proof {
                            lemma_execution_order_valid(kinds_of(f.services@), f.action);
                        }
                        Some(order)
                    },
                    None => None,
                };
                match switch {
                    Some(order) => {
                        let n = order.len();
                        self.slot = Slot::Failover;
                        self.order = order;
                        self.phase = Self::start_phase(n);
                    },
                    None => {
                        if exec {
                            self.phase = Phase::Done(TransactionResult::Rollback(cause));
                        } else {
                            self.phase = Phase::Done(TransactionResult::UnrecoverableError(id, cause));
                        }
                    },
                }
            },
            Slot::Failover => {
                self.phase = Phase::Done(TransactionResult::UnrecoverableError(id, cause));
            },
        }
    }

    /// Reports the outcome of the hook call returned by `next_call`. A failed
    /// check stops the environment before any main hook runs; a failed main
    /// hook starts the compensating hooks, for the failed service first and
    /// then for each service that succeeded before it; a failed compensating
    /// hook changes nothing. When an environment fails, the failover
    /// environment is tried if there is one. Otherwise a failed check ends
    /// the transaction with an unrecoverable error naming the service, as
    /// nothing was changed yet, and a failed main hook ends it with a
    /// rollback once the compensating hooks ran. A failed failover
    /// environment ends it with an unrecoverable error.
    pub fn report(&mut self, outcome: Result<(), CommandError>)
        requires
            old(self).wf(),
            !old(self).is_done(),
        ensures
            final(self).wf(),
            final(self).log() == old(self).log().push(
                CallRecord {
                    call: old(self).current_call(),
                    ok: outcome is Ok,
                    cause: cause_of(outcome),
                },
            ),
            final(self).primary_env() == old(self).primary_env(),
            final(self).failover_env() == old(self).failover_env(),
            final(self).remaining() < old(self).remaining(),
    {
        let call = match self.next_call() {
            Some(c) => c,
            None => HookCall { slot: self.slot, position: 0, service: 0, hook: Hook::Check },
        };
        let (ok, err) = match outcome {
            Ok(()) => (true, None),
            Err(e) => (false, Some(e)),
        };
        assert(err == cause_of(outcome));
        let ghost old_log = self.log@;
        let ghost rec = CallRecord { call, ok, cause: err };
        proof {
            lemma_execution_order_valid(
                kinds_of(self.env_at(self.slot).services@),
                self.env_at(self.slot).action,
            );
            lemma_history_push(old_log, rec, self.primary, self.failover);
        }
        self.log = Ghost(self.log@.push(rec));
        proof {
            lemma_push(old_log, rec);
        }
        let ghost log = self.log@;
        let ghost s = self.slot;
        let n = self.order.len();
        let mut phase = Phase::Checking(0);
        core::mem::swap(&mut self.phase, &mut phase);
        match phase {
            Phase::Checking(p) => {
                assert(!ran(old_log, s) && !failed_run(old_log, s));
                if ok {
                    if p + 1 < n {
                        self.phase = Phase::Checking(p + 1);
                        assert(self.wf());
                    } else {
                        self.phase = Phase::Running(0);
                        assert(self.wf());
                    }
                } else {
                    let svc = self.order[p];
                    let id = self.current_env().services[svc].id.clone();
                    let cause = match err {
                        Some(e) => e,
                        None => CommandError::new_from_safe_message(String::new()),
                    };
                    assert(log[old_log.len() as int] == rec);
                    assert(hook_failed_with(log, s, Hook::Check, self.env_at(s), id@, cause));
                    assert(!failed_run(log, s));
                    self.close_failed_env(id, cause, false);
                    assert(self.wf());
                    assert(self.log() == old_log.push(rec));
                }
            },
            Phase::Running(p) => {
                assert(!failed_run(old_log, s) && !failed_check(old_log, s));
                if ok {
                    if p + 1 < n {
                        self.phase = Phase::Running(p + 1);
                    } else {
                        self.phase = Phase::Done(TransactionResult::Committed);
                    }
                } else {
                    let cause = match err {
                        Some(e) => e,
                        None => CommandError::new_from_safe_message(String::new()),
                    };
                    assert(log[old_log.len() as int] == rec);
                    self.phase = Phase::Compensating { failed: p, next: p, cause };
                }
            },
            Phase::Compensating { failed, next, cause } => {
                assert(has_on_error(log, s, self.order@[next as int]));
                if next > 0 {
                    self.phase = Phase::Compensating { failed, next: next - 1, cause };
                } else {
                    let svc = self.order[failed];
                    let id = self.current_env().services[svc].id.clone();
                    proof {
                        let j = choose|j: int|
                            0 <= j < old_log.len() && (#[trigger] old_log[j]).call.slot == s
                                && old_log[j].call.hook is Run && !old_log[j].ok && old_log[j].cause
                                == Some(cause) && old_log[j].call.position == failed
                                && old_log[j].call.service == self.order@[failed as int];
                        assert(log[j] == old_log[j]);
                        assert(hook_failed_with(log, s, Hook::Run, self.env_at(s), id@, cause));
                    }
                    assert forall|j: int|
                        0 <= j < log.len() && (#[trigger] log[j]).call.slot == s
                            && log[j].call.hook is Run implies has_on_error(
                        log,
                        s,
                        log[j].call.service,
                    ) by {
                        assert(j < old_log.len());
                        assert(log[j] == old_log[j]);
                        let q = log[j].call.position as int;
                        if q > 0 {
                            assert(has_on_error(old_log, s, self.order@[q]));
                        }
                    }
                    self.close_failed_env(id, cause, true);
                }
            },
            Phase::Done(r) => {
                self.phase = Phase::Done(r);
            },
        }
    }
}

/// Fail-fast checks: once a pre-flight check of an environment has failed,
/// no main hook of that environment has been invoked, in any state the
/// transaction reaches.
pub proof fn lemma_failed_check_blocks_main_hooks(t: Transaction, s: Slot)
    requires
        t.wf(),
        failed_check(t.log(), s),
    ensures
        !ran(t.log(), s),
{
}

/// Rollback: when a main hook of an environment failed, every service of
/// that environment whose main hook was invoked, the failed one and those
/// that succeeded before it, has had its compensating hook invoked by the
/// time the transaction is done; without a failover environment the result
/// is a rollback.
pub proof fn lemma_failed_run_rolls_back(t: Transaction, s: Slot)
    requires
        t.wf(),
        t.is_done(),
        failed_run(t.log(), s),
    ensures
        compensated(t.log(), s),
        !t.has_failover() ==> t.result() is Rollback,
{
    if t.rejected() {
        assert(t.log().len() == 0);
    }
}

/// Failover: when the primary environment failed and the failover
/// environment did not, the transaction is committed.
pub proof fn lemma_failover_recovers(t: Transaction)
    requires
        t.wf(),
        t.is_done(),
        t.has_failover(),
        env_failed(t.log(), Slot::Primary),
        !env_failed(t.log(), Slot::Failover),
    ensures
        t.result() is Committed,
{
    if t.rejected() {
        assert(t.log().len() == 0);
    }
}

/// When both the primary and the failover environment failed, the
/// transaction ends in an unrecoverable error.
pub proof fn lemma_failover_both_fail(t: Transaction)
    requires
        t.wf(),
        t.is_done(),
        t.has_failover(),
        env_failed(t.log(), Slot::Primary),
        env_failed(t.log(), Slot::Failover),
    ensures
        t.result() is UnrecoverableError,
{
}

/// A committed transaction ran, successfully, the main hook of every
/// service of the primary environment, or of every service of the failover
/// environment.
pub proof fn lemma_committed_ran_every_service(t: Transaction)
    requires
        t.wf(),
        t.is_done(),
        t.result() is Committed,
    ensures
        all_ran(t.log(), Slot::Primary, order_of(t.primary_env())) || match t.failover_env() {
            Some(f) => all_ran(t.log(), Slot::Failover, order_of(f)),
            None => false,
        },
{
}

/// Order of the calls: within an environment every check comes before
/// every main hook, checks and main hooks each go forward through the
/// execution order, and each call names the service at its position in
/// that order.
pub proof fn lemma_calls_in_order(t: Transaction)
    requires
        t.wf(),
    ensures
        checks_before_main_hooks(t.log()),
        advancing(t.log(), Hook::Check),
        advancing(t.log(), Hook::Run),
        calls_follow_order(t.log(), t.primary_env(), t.failover_env()),
{
    reveal(history_inv);
}

/// No compensating hook of an environment is asked for once one of its
/// checks failed: nothing was changed, so nothing is rolled back.
pub proof fn lemma_no_compensation_after_failed_check(t: Transaction, s: Slot)
    requires
        t.wf(),
        failed_check(t.log(), s),
    ensures
        !compensating(t.log(), s),
{
    reveal(history_inv);
}

/// Each service gets its compensating hook at most once per environment.
pub proof fn lemma_compensation_at_most_once(t: Transaction)
    requires
        t.wf(),
    ensures
        forall|j: int, k: int|
            0 <= j < t.log().len() && 0 <= k < t.log().len() && j != k && (#[trigger] t.log()[j]).call.slot
                == (#[trigger] t.log()[k]).call.slot && t.log()[j].call.hook is OnError
                && t.log()[k].call.hook is OnError ==> t.log()[j].call.service
                != t.log()[k].call.service,
{
    reveal(history_inv);
    let log = t.log();
    assert forall|j: int, k: int|
        0 <= j < log.len() && 0 <= k < log.len() && j != k && (#[trigger] log[j]).call.slot == (
        #[trigger] log[k]).call.slot && log[j].call.hook is OnError && log[k].call.hook is OnError
            implies log[j].call.service != log[k].call.service by {
        let env = env_for(t.primary_env(), t.failover_env(), log[j].call.slot);
        lemma_execution_order_injective(kinds_of(env.services@), env.action);
        let o = order_of(env);
        assert(o[log[j].call.position as int] != o[log[k].call.position as int]);
    }
}

/// Failover hooks are asked for only after a check or a main hook of the
/// primary environment failed.
pub proof fn lemma_failover_only_after_primary_failure(t: Transaction)
    requires
        t.wf(),
    ensures
        forall|k: int|
            0 <= k < t.log().len() && (#[trigger] t.log()[k]).call.slot is Failover ==> exists|j: int|
                0 <= j < k && (#[trigger] t.log()[j]).call.slot is Primary && !t.log()[j].ok && !(
                t.log()[j].call.hook is OnError),
{
    reveal(history_inv);
    reveal(primary_failed_before);
}

/// A primary environment that does not fail commits the transaction, and
/// no hook of the failover environment is asked for.
pub proof fn lemma_primary_success_commits(t: Transaction)
    requires
        t.wf(),
        t.is_done(),
        !t.rejected(),
        !env_failed(t.log(), Slot::Primary),
    ensures
        t.result() is Committed,
        forall|k: int| 0 <= k < t.log().len() ==> (#[trigger] t.log()[k]).call.slot is Primary,
{
    reveal(history_inv);
    reveal(primary_failed_before);
    let log = t.log();
    assert forall|k: int| 0 <= k < log.len() implies (#[trigger] log[k]).call.slot is Primary by {
        if log[k].call.slot is Failover {
            assert(primary_failed_before(log, k));
            let j = choose|j: int|
                0 <= j < k && (#[trigger] log[j]).call.slot is Primary && !log[j].ok && !(
                log[j].call.hook is OnError);
            if log[j].call.hook is Check {
                assert(failed_check(log, Slot::Primary));
            } else {
                assert(failed_run(log, Slot::Primary));
            }
        }
    }
}

/// The causes a transaction reports: a rollback carries the error of the
/// failed main hook of the primary environment, never that of a
/// compensating hook; an unrecoverable error names the service whose check
/// failed, with its error, or, with a failover environment, the failover
/// service whose check or main hook failed, with its error.
pub proof fn lemma_result_causes(t: Transaction)
    requires
        t.wf(),
        t.is_done(),
        !t.rejected(),
    ensures
        t.result() matches TransactionResult::Rollback(c) ==> !t.has_failover() && run_failed_with(
            t.log(),
            Slot::Primary,
            c,
        ),
        t.result() matches TransactionResult::UnrecoverableError(id, c) ==> match t.failover_env() {
            None => hook_failed_with(t.log(), Slot::Primary, Hook::Check, t.primary_env(), id@, c),
            Some(f) => hook_failed_with(t.log(), Slot::Failover, Hook::Check, f, id@, c)
                || hook_failed_with(t.log(), Slot::Failover, Hook::Run, f, id@, c),
        },
{
}

} // verus!
