//! Fallback admission: the shared attempt counters and the check-and-count
//! step that decides whether a service's fallback action may still run.
//! The cap is a lifetime cap: the counter grows only when a fallback is
//! admitted and is never reset by a later success.

use vstd::prelude::*;

use crate::config::Action;
use crate::table::NameTable;

verus! {

/// The attempt count a map holds for a name; a name never counted reads 0.
pub open spec fn count_of(m: Map<Seq<char>, usize>, k: Seq<char>) -> usize {
    if m.contains_key(k) {
        m[k]
    } else {
        0
    }
}

/// Whether a fallback is admitted at a given count: always when no cap is
/// set, and while the count is below the cap otherwise.
pub open spec fn admits(count: usize, stop: Option<usize>) -> bool {
    match stop {
        Option::Some(s) => count < s,
        Option::None => true,
    }
}

/// A counter after one admitted invocation.
pub open spec fn bump(c: usize) -> usize {
    if c < usize::MAX {
        (c + 1) as usize
    } else {
        c
    }
}

/// Whether one admission step for a name succeeds.
pub open spec fn step_admitted(m: Map<Seq<char>, usize>, k: Seq<char>, stop: Option<usize>) -> bool {
    admits(count_of(m, k), stop)
}

/// The counters after one admission step for a name: an admitted step
/// counts one more attempt; a refused step leaves the count unchanged
/// (creating the entry when the name was never seen).
pub open spec fn step_map(m: Map<Seq<char>, usize>, k: Seq<char>, stop: Option<usize>) -> Map<
    Seq<char>,
    usize,
> {
    if step_admitted(m, k, stop) {
        m.insert(k, bump(count_of(m, k)))
    } else {
        m.insert(k, count_of(m, k))
    }
}

/// The shared attempt counters, one per service name, created lazily on
/// first fallback invocation and never reset.
#[derive(Debug)]
pub struct AttemptCounters {
    table: NameTable<usize>,
}

impl View for AttemptCounters {
    type V = Map<Seq<char>, usize>;

    closed spec fn view(&self) -> Map<Seq<char>, usize> {
        self.table@
    }
}

impl AttemptCounters {
    /// Service names in the counter map are unique.
    pub closed spec fn wf(&self) -> bool {
        self.table.wf()
    }

    /// An empty counter map.
    pub fn new() -> (r: Self)
        ensures
            r.wf(),
            r@ == Map::<Seq<char>, usize>::empty(),
    {
        AttemptCounters { table: NameTable::new() }
    }

    /// The attempt count of a service; 0 when no fallback was ever counted.
    pub fn get(&self, name: &str) -> (r: usize)
        requires
            self.wf(),
        ensures
            r == count_of(self@, name@),
    {
        match self.table.get(name) {
            Some(c) => c,
            None => 0,
        }
    }
}

/// Decides whether a service's fallback may run, counting the attempt when
/// it may: under the cap (or with no cap set) the count grows by one and the
/// fallback is admitted; at the cap the count stays and the fallback is
/// refused.
pub fn should_continue_fallback(
    counters: &mut AttemptCounters,
    service_name: &str,
    action: &Action,
) -> (r: bool)
    requires
        old(counters).wf(),
    ensures
        final(counters).wf(),
        r == step_admitted(old(counters)@, service_name@, action.stop),
        final(counters)@ == step_map(old(counters)@, service_name@, action.stop),
{
    let count = counters.get(service_name);
    let admitted = match action.stop {
        Some(s) => count < s,
        None => true,
    };
    if admitted {
        let next = if count < usize::MAX {
            count + 1
        } else {
            count
        };
        counters.table.set(service_name, next);
        true
    } else {
        counters.table.set(service_name, count);
        false
    }
}

/// What an admitted fallback runs: the configured shell command and/or the
/// configured HTTP GET.  A refused fallback runs nothing.
#[derive(Debug)]
pub struct FallbackDirective {
    pub cmd: Option<String>,
    pub http: Option<String>,
}

/// Two optional strings holding the same content.
pub open spec fn opt_str_eq(a: &Option<String>, b: &Option<String>) -> bool {
    match (a, b) {
        (Option::Some(x), Option::Some(y)) => x@ == y@,
        (Option::None, Option::None) => true,
        _ => false,
    }
}

/// An empty directive: nothing to run.
pub open spec fn directive_empty(d: &FallbackDirective) -> bool {
    d.cmd is None && d.http is None
}

fn clone_opt_str(s: &Option<String>) -> (r: Option<String>)
    ensures
        opt_str_eq(&r, s),
{
    match s {
        Some(x) => Some(x.clone()),
        None => None,
    }
}

/// Runs the admission step for a service and hands back what the caller
/// should execute: the action's command and HTTP notification when the
/// fallback is admitted, nothing when it is refused.
pub fn fallback_directive(
    counters: &mut AttemptCounters,
    service_name: &str,
    action: &Action,
) -> (r: FallbackDirective)
    requires
        old(counters).wf(),
    ensures
        final(counters).wf(),
        final(counters)@ == step_map(old(counters)@, service_name@, action.stop),
        step_admitted(old(counters)@, service_name@, action.stop) ==> opt_str_eq(&r.cmd, &action.cmd)
            && opt_str_eq(&r.http, &action.http),
        !step_admitted(old(counters)@, service_name@, action.stop) ==> directive_empty(&r),
{
    if should_continue_fallback(counters, service_name, action) {
        FallbackDirective { cmd: clone_opt_str(&action.cmd), http: clone_opt_str(&action.http) }
    } else {
        FallbackDirective { cmd: None, http: None }
    }
}

/// The counters after a run of admission steps for one name, none of them
/// capped.
pub open spec fn repeat_steps(m: Map<Seq<char>, usize>, k: Seq<char>, n: nat) -> Map<
    Seq<char>,
    usize,
>
    decreases n,
{
    if n == 0 {
        m
    } else {
        step_map(repeat_steps(m, k, (n - 1) as nat), k, Option::None)
    }
}

/// With a cap of two and a counter that was never bumped, the first two
/// admission steps are admitted, counting one then two, and a third step is
/// refused with the count still at two.
pub proof fn lemma_attempt_cap_two(m: Map<Seq<char>, usize>, name: Seq<char>)
    requires
        count_of(m, name) == 0,
    ensures
        ({
            let cap = Option::Some(2usize);
            let m1 = step_map(m, name, cap);
            let m2 = step_map(m1, name, cap);
            let m3 = step_map(m2, name, cap);
            &&& step_admitted(m, name, cap)
            &&& count_of(m1, name) == 1
            &&& step_admitted(m1, name, cap)
            &&& count_of(m2, name) == 2
            &&& !step_admitted(m2, name, cap)
            &&& count_of(m3, name) == 2
        }),
{
}

/// With no cap set, every admission step is admitted and a run of `n` steps
/// from a counter that was never bumped leaves the count at exactly `n`:
/// the fallback fires once per failed evaluation, unbounded.
pub proof fn lemma_uncapped_counts_every_attempt(m: Map<Seq<char>, usize>, name: Seq<char>, n: nat)
    requires
        count_of(m, name) == 0,
        n <= usize::MAX,
    ensures
        count_of(repeat_steps(m, name, n), name) == n,
        forall|k: nat| k < n ==> step_admitted(repeat_steps(m, name, k), name, Option::None),
    decreases n,
{
    if n > 0 {
        lemma_uncapped_counts_every_attempt(m, name, (n - 1) as nat);
    }
}

} // verus!
