use vstd::prelude::*;

verus! {

/// What an environment asks of each of its services.
#[derive(Clone, Copy, Debug, PartialEq, Eq, Structural)]
pub enum Action {
    Create,
    Pause,
    Delete,
    Upgrade,
    Downgrade,
    Backup,
    Restore,
    Clone,
}

/// The closed set of deployable entities.
#[derive(Clone, Copy, Debug, PartialEq, Eq, Structural)]
pub enum ServiceKind {
    Application,
    Database,
    Router,
}

/// The three hooks run for an action: the pre-flight check, the main hook,
/// and the compensating hook run after a failed main hook.
#[derive(Clone, Copy, Debug, PartialEq, Eq, Structural)]
pub enum Hook {
    Check,
    Run,
    OnError,
}

#[derive(Clone, Copy, Debug, PartialEq, Eq, Structural)]
pub enum EnvironmentKind {
    Production,
    Development,
}

/// Whether a service kind implements the lifecycle of an action. Only
/// create, pause and delete are implemented; the other actions are
/// capability-gated and no kind provides them.
pub open spec fn action_supported(kind: ServiceKind, action: Action) -> bool {
    action is Create || action is Pause || action is Delete
}

pub fn supports(kind: ServiceKind, action: Action) -> (r: bool)
    ensures
        r == action_supported(kind, action),
{
    match action {
        Action::Create | Action::Pause | Action::Delete => true,
        _ => false,
    }
}

/// Stateful services hold data that stateless ones depend on.
pub open spec fn is_stateful(kind: ServiceKind) -> bool {
    kind is Database
}

/// Whether a service of this kind runs in the first group for the action:
/// stateful services first on create, stateless services first otherwise.
pub open spec fn in_first_group(action: Action, kind: ServiceKind) -> bool {
    if action is Create {
        is_stateful(kind)
    } else {
        !is_stateful(kind)
    }
}

/// Whether a hook goes through the progress-reporting decorator: the main
/// and compensating hooks are long tasks, the pre-flight check is not.
pub fn reports_progress(hook: Hook) -> (r: bool)
    ensures
        r == !(hook is Check),
{
    match hook {
        Hook::Check => false,
        _ => true,
    }
}

/// A service as the orchestrator sees it: a stable identifier, a human
/// name and its kind.
#[derive(Clone, Debug)]
pub struct ServiceRef {
    pub id: String,
    pub name: String,
    pub kind: ServiceKind,
}

/// An ordered collection of services and the action to perform on them.
#[derive(Clone, Debug)]
pub struct Environment {
    pub services: Vec<ServiceRef>,
    pub action: Action,
    pub kind: EnvironmentKind,
    pub namespace: String,
    pub execution_id: String,
}

pub open spec fn kinds_of(services: Seq<ServiceRef>) -> Seq<ServiceKind> {
    services.map_values(|s: ServiceRef| s.kind)
}

/// Indices, in increasing order, of the services whose membership in the
/// first group equals `first`.
pub open spec fn group_indices(kinds: Seq<ServiceKind>, action: Action, first: bool) -> Seq<usize>
    decreases kinds.len(),
{
    if kinds.len() == 0 {
        Seq::empty()
    } else {
        let prev = group_indices(kinds.drop_last(), action, first);
        if in_first_group(action, kinds.last()) == first {
            prev.push((kinds.len() - 1) as usize)
        } else {
            prev
        }
    }
}

/// The order in which the main hooks of an environment run: the first group
/// then the second, each in declaration order.
pub open spec fn execution_order_spec(kinds: Seq<ServiceKind>, action: Action) -> Seq<usize> {
    group_indices(kinds, action, true) + group_indices(kinds, action, false)
}

proof fn lemma_group_indices_bounded(kinds: Seq<ServiceKind>, action: Action, first: bool)
    ensures
        forall|i: int|
            0 <= i < group_indices(kinds, action, first).len() ==> group_indices(
                kinds,
                action,
                first,
            )[i] < kinds.len(),
    decreases kinds.len(),
{
    if kinds.len() > 0 {
        lemma_group_indices_bounded(kinds.drop_last(), action, first);
        let prev = group_indices(kinds.drop_last(), action, first);
        let cur = group_indices(kinds, action, first);
        assert forall|i: int| 0 <= i < cur.len() implies cur[i] < kinds.len() by {
            if i < prev.len() {
                assert(cur[i] == prev[i]);
            }
        }
    }
}

proof fn lemma_group_indices_split(kinds: Seq<ServiceKind>, action: Action)
    ensures
        group_indices(kinds, action, true).len() + group_indices(kinds, action, false).len()
            == kinds.len(),
    decreases kinds.len(),
{
    if kinds.len() > 0 {
        lemma_group_indices_split(kinds.drop_last(), action);
    }
}

/// The execution order has one entry per service, each a valid index.
pub proof fn lemma_execution_order_valid(kinds: Seq<ServiceKind>, action: Action)
    ensures
        execution_order_spec(kinds, action).len() == kinds.len(),
        forall|i: int|
            0 <= i < kinds.len() ==> execution_order_spec(kinds, action)[i] < kinds.len(),
{
    lemma_group_indices_split(kinds, action);
    lemma_group_indices_bounded(kinds, action, true);
    lemma_group_indices_bounded(kinds, action, false);
    let a = group_indices(kinds, action, true);
    let b = group_indices(kinds, action, false);
    assert forall|i: int| 0 <= i < kinds.len() implies execution_order_spec(kinds, action)[i]
        < kinds.len() by {
        if i < a.len() {
            assert(execution_order_spec(kinds, action)[i] == a[i]);
        } else {
            assert(execution_order_spec(kinds, action)[i] == b[i - a.len()]);
        }
    }
}

proof fn lemma_group_indices_sorted(kinds: Seq<ServiceKind>, action: Action, first: bool)
    requires
        kinds.len() <= usize::MAX,
    ensures
        forall|i: int, j: int|
            0 <= i < j < group_indices(kinds, action, first).len() ==> #[trigger] group_indices(
                kinds,
                action,
                first,
            )[i] < #[trigger] group_indices(kinds, action, first)[j],
        forall|i: int|
            0 <= i < group_indices(kinds, action, first).len() ==> in_first_group(
                action,
                kinds[#[trigger] group_indices(kinds, action, first)[i] as int],
            ) == first,
    decreases kinds.len(),
{
    lemma_group_indices_bounded(kinds, action, first);
    if kinds.len() > 0 {
        let d = kinds.drop_last();
        lemma_group_indices_sorted(d, action, first);
        lemma_group_indices_bounded(d, action, first);
        let prev = group_indices(d, action, first);
        let cur = group_indices(kinds, action, first);
        if in_first_group(action, kinds.last()) == first {
            assert(cur == prev.push((kinds.len() - 1) as usize));
            assert forall|i: int, j: int| 0 <= i < j < cur.len() implies #[trigger] cur[i]
                < #[trigger] cur[j] by {
                assert(cur[i] == prev[i]);
                assert(prev[i] < d.len());
                if j < prev.len() {
                    assert(cur[j] == prev[j]);
                } else {
                    assert(cur[j] == kinds.len() - 1);
                }
            }
            assert forall|i: int| 0 <= i < cur.len() implies in_first_group(
                action,
                kinds[#[trigger] cur[i] as int],
            ) == first by {
                if i < prev.len() {
                    assert(cur[i] == prev[i]);
                    assert(prev[i] < d.len());
                    assert(kinds[prev[i] as int] == d[prev[i] as int]);
                } else {
                    assert(cur[i] == kinds.len() - 1);
                }
            }
        } else {
            assert(cur == prev);
            assert forall|i: int| 0 <= i < cur.len() implies in_first_group(
                action,
                kinds[#[trigger] cur[i] as int],
            ) == first by {
                assert(prev[i] < d.len());
                assert(kinds[prev[i] as int] == d[prev[i] as int]);
            }
        }
    }
}

/// No service appears twice in the execution order.
pub proof fn lemma_execution_order_injective(kinds: Seq<ServiceKind>, action: Action)
    requires
        kinds.len() <= usize::MAX,
    ensures
        forall|i: int, j: int|
            0 <= i < execution_order_spec(kinds, action).len() && 0 <= j < execution_order_spec(
                kinds,
                action,
            ).len() && i != j ==> #[trigger] execution_order_spec(kinds, action)[i]
                != #[trigger] execution_order_spec(kinds, action)[j],
{
    lemma_group_indices_sorted(kinds, action, true);
    lemma_group_indices_sorted(kinds, action, false);
    lemma_group_indices_bounded(kinds, action, true);
    lemma_group_indices_bounded(kinds, action, false);
    let a = group_indices(kinds, action, true);
    let b = group_indices(kinds, action, false);
    let o = execution_order_spec(kinds, action);
    assert forall|i: int, j: int| 0 <= i < o.len() && 0 <= j < o.len() && i != j implies #[trigger] o[i]
        != #[trigger] o[j] by {
        if i < a.len() && j < a.len() {
            assert(o[i] == a[i] && o[j] == a[j]);
            if i < j {
                assert(a[i] < a[j]);
            } else {
                assert(a[j] < a[i]);
            }
        } else if i >= a.len() && j >= a.len() {
            assert(o[i] == b[i - a.len()] && o[j] == b[j - a.len()]);
            if i < j {
                assert(b[i - a.len()] < b[j - a.len()]);
            } else {
                assert(b[j - a.len()] < b[i - a.len()]);
            }
        } else if i < a.len() {
            assert(o[i] == a[i] && o[j] == b[j - a.len()]);
            assert(in_first_group(action, kinds[a[i] as int]));
            assert(!in_first_group(action, kinds[b[j - a.len()] as int]));
        } else {
            assert(o[j] == a[j] && o[i] == b[i - a.len()]);
            assert(in_first_group(action, kinds[a[j] as int]));
            assert(!in_first_group(action, kinds[b[i - a.len()] as int]));
        }
    }
}

fn push_group(services: &Vec<ServiceRef>, action: Action, first: bool, out: &mut Vec<usize>)
    ensures
        final(out)@ == old(out)@ + group_indices(kinds_of(services@), action, first),
{
    let ghost kinds = kinds_of(services@);
    let ghost start = out@;
    let n = services.len();
    let mut i: usize = 0;
    while i < n
        invariant
            n == services@.len(),
            kinds == kinds_of(services@),
            i <= n,
            out@ == start + group_indices(kinds.subrange(0, i as int), action, first),
        decreases n - i,
    {
        let ghost before = kinds.subrange(0, i as int);
        let ghost after = kinds.subrange(0, i + 1);
        assert(after.drop_last() =~= before);
        let stateful = match services[i].kind {
            ServiceKind::Database => true,
            _ => false,
        };
        let in_first = match action {
            Action::Create => stateful,
            _ => !stateful,
        };
        if in_first == first {
            out.push(i);
            assert(out@ =~= start + group_indices(after, action, first));
        }
        i = i + 1;
    }
    assert(kinds.subrange(0, n as int) =~= kinds);
}

/// The order in which the services of an environment are run.
pub fn execution_order(env: &Environment) -> (r: Vec<usize>)
    ensures
        r@ == execution_order_spec(kinds_of(env.services@), env.action),
{
    let mut out: Vec<usize> = Vec::new();
    push_group(&env.services, env.action, true, &mut out);
    push_group(&env.services, env.action, false, &mut out);
    assert(out@ =~= execution_order_spec(kinds_of(env.services@), env.action));
    out
}

} // verus!
