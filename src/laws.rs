use vstd::prelude::*;
use crate::outcome::{relay_of, supported_signal, Outcome, RunError, WaitOutcome};
use crate::session::{holds_cgroup, published, Action, Event, Stage};

verus! {

/// The stage reached, and the actions issued one per event, when a launch
/// takes in `evs` in order.
pub open spec fn run(evs: Seq<Event>) -> (Stage, Seq<Action>)
    decreases evs.len(),
{
    if evs.len() == 0 {
        (Stage::Resolving, Seq::empty())
    } else {
        let (s, acts) = run(evs.drop_last());
        let (t, a) = s.next(evs.last());
        (t, acts.push(a))
    }
}

/// Some action of `acts` is `a`.
pub open spec fn issued(acts: Seq<Action>, a: Action) -> bool {
    exists|i: int| 0 <= i < acts.len() && acts[i] == a
}

/// `acts` creates the cgroup and then attaches the socket-creation hook.
pub open spec fn create_then_attach(acts: Seq<Action>) -> bool {
    exists|c: int, j: int|
        0 <= c < j < acts.len() && acts[c] == Action::CreateCgroup && acts[j]
            == Action::AttachSockCreate
}

/// `acts` creates the cgroup, then attaches the socket-creation hook, then
/// the setsockopt hook.
pub open spec fn hooks_in_order(acts: Seq<Action>) -> bool {
    exists|c: int, j: int, k: int|
        0 <= c < j < k < acts.len() && acts[c] == Action::CreateCgroup && acts[j]
            == Action::AttachSockCreate && acts[k] == Action::AttachSetsockopt
}

/// A launch reports its outcome only once no cgroup is held: where a cgroup
/// exists, the report follows the removal and nothing else.
pub proof fn law_report_after_removal(s: Stage, e: Event)
    ensures
        s.next(e).1 is Finish ==> s.next(e).0 == Stage::Done,
        s.next(e).1 is Finish && holds_cgroup(s) ==> s is Removing && e == Event::Removed,
        !holds_cgroup(Stage::Done),
{
}

/// The cgroup directory stays from its creation until its removal: it
/// appears only when creation is reported, it goes only when removal is
/// reported, and every step into removal asks for it.
pub proof fn law_cgroup_lifetime(s: Stage, e: Event)
    ensures
        !holds_cgroup(s) && holds_cgroup(s.next(e).0) ==> s == Stage::Creating && (e
            == Event::Created || e == Event::CreatedUnopened),
        holds_cgroup(s) && !holds_cgroup(s.next(e).0) ==> s is Removing && e == Event::Removed,
        s.next(e).0 is Removing && !(s is Removing) ==> s.next(e).1 == Action::RemoveCgroup,
        s.next(e).1 == Action::RemoveCgroup ==> s.next(e).0 is Removing,
{
}

/// A child is started only inside an existing cgroup, and the cgroup is not
/// left while the child runs: only its reaping ends the running stage.
pub proof fn law_child_inside_cgroup(s: Stage, e: Event)
    ensures
        s.next(e).1 == Action::Launch ==> holds_cgroup(s) && holds_cgroup(s.next(e).0),
        s.next(e).0 is Running ==> holds_cgroup(s.next(e).0),
        s is Running && !(s.next(e).0 is Running) ==> e is Reaped && s.next(e).1
            == Action::RemoveCgroup,
{
}

proof fn lemma_history(evs: Seq<Event>)
    ensures
        run(evs).1.len() == evs.len(),
        run(evs).0 == Stage::Creating ==> issued(run(evs).1, Action::CreateCgroup),
        run(evs).0 == Stage::AttachingCreate ==> create_then_attach(run(evs).1),
        run(evs).0 == Stage::AttachingSockopt ==> hooks_in_order(run(evs).1),
        run(evs).0 is Running ==> published(run(evs).0) > 0,
    decreases evs.len(),
{
    if evs.len() > 0 {
        let p = evs.drop_last();
        lemma_history(p);
        let (s, acts) = run(p);
        let (t, a) = s.next(evs.last());
        let n = acts.len() as int;
        let all = acts.push(a);
        assert(all[n] == a);
        if t == Stage::Creating {
            if s == Stage::Creating {
                let c = choose|c: int| 0 <= c < acts.len() && acts[c] == Action::CreateCgroup;
                assert(all[c] == acts[c]);
            } else {
                assert(all[n] == Action::CreateCgroup);
            }
        }
        if t == Stage::AttachingCreate {
            if s == Stage::AttachingCreate {
                let (c, j) = choose|c: int, j: int|
                    0 <= c < j < acts.len() && acts[c] == Action::CreateCgroup && acts[j]
                        == Action::AttachSockCreate;
                assert(all[c] == acts[c] && all[j] == acts[j]);
            } else {
                let c = choose|c: int| 0 <= c < acts.len() && acts[c] == Action::CreateCgroup;
                assert(all[c] == acts[c]);
            }
        }
        if t == Stage::AttachingSockopt {
            if s == Stage::AttachingSockopt {
                let (c, j, k) = choose|c: int, j: int, k: int|
                    0 <= c < j < k < acts.len() && acts[c] == Action::CreateCgroup && acts[j]
                        == Action::AttachSockCreate && acts[k] == Action::AttachSetsockopt;
                assert(all[c] == acts[c] && all[j] == acts[j] && all[k] == acts[k]);
            } else {
                let (c, j) = choose|c: int, j: int|
                    0 <= c < j < acts.len() && acts[c] == Action::CreateCgroup && acts[j]
                        == Action::AttachSockCreate;
                assert(all[c] == acts[c] && all[j] == acts[j]);
            }
        }
    }
}

/// Whenever a launch starts the child, it has already created the cgroup
/// and attached both hooks to it, in that order.
pub proof fn law_hooks_before_launch(evs: Seq<Event>)
    requires
        evs.len() > 0,
        run(evs).1.last() == Action::Launch,
    ensures
        hooks_in_order(run(evs).1.drop_last()),
{
    let p = evs.drop_last();
    lemma_history(p);
    lemma_history(evs);
    let (s, acts) = run(p);
    assert(run(evs).1.drop_last() =~= acts);
    assert(s == Stage::AttachingSockopt);
}

/// While the child runs, an interrupt is relayed to it, and a child that an
/// interrupt `n` kills is reported as `128 + n` once its cgroup is removed.
pub proof fn law_interrupt_reaches_child(evs: Seq<Event>, n: i32)
    requires
        run(evs).0 is Running,
        supported_signal(n),
    ensures
        ({
            let s = run(evs).0;
            let child = published(s);
            let (t, a) = s.next(Event::Reaped(WaitOutcome::Signaled(n)));
            &&& s == Stage::Running(child)
            &&& relay_of(child) == Some(child)
            &&& a == Action::RemoveCgroup
            &&& t.next(Event::Removed) == (Stage::Done, Action::Finish(
                Outcome::Code((128 + n) as i32),
            ))
        }),
{
    lemma_history(evs);
}

proof fn lemma_done_stays(evs: Seq<Event>, n: int)
    requires
        0 <= n <= evs.len(),
        run(evs.take(n)).0 == Stage::Done,
    ensures
        run(evs).0 == Stage::Done,
        run(evs).1.len() == evs.len(),
        run(evs).1.take(n) == run(evs.take(n)).1,
        forall|i: int| n <= i < evs.len() ==> run(evs).1[i] == Action::Ignore,
    decreases evs.len(),
{
    lemma_history(evs);
    lemma_history(evs.take(n));
    if evs.len() == n {
        assert(evs.take(n) =~= evs);
        assert(run(evs).1.take(n) =~= run(evs).1);
    } else {
        let p = evs.drop_last();
        assert(p.take(n) =~= evs.take(n));
        lemma_done_stays(p, n);
        lemma_history(p);
        assert(run(evs).1.take(n) =~= run(p).1.take(n));
    }
}

/// An unknown interface ends the launch at once with `InterfaceNotFound`:
/// nothing is loaded, no cgroup is made, no child is started.
pub proof fn law_unknown_interface(evs: Seq<Event>)
    requires
        evs.len() > 0,
        evs[0] == Event::NotFound,
    ensures
        run(evs).0 == Stage::Done,
        run(evs).1[0] == Action::Finish(Outcome::Failed(RunError::InterfaceNotFound)),
        forall|i: int| 1 <= i < evs.len() ==> run(evs).1[i] == Action::Ignore,
{
    reveal_with_fuel(run, 2);
    assert(evs.take(1).drop_last() =~= Seq::<Event>::empty());
    lemma_done_stays(evs, 1);
    assert(run(evs).1[0] == run(evs).1.take(1)[0]);
}

/// A hook program that the kernel rejects ends the launch before any cgroup
/// or child exists, with `ProgramLoadError`.
pub proof fn law_rejected_program(evs: Seq<Event>, index: u32)
    requires
        evs.len() >= 2,
        index > 0,
        evs[0] == Event::Resolved(index),
        evs[1] == Event::LoadFailed,
    ensures
        run(evs).0 == Stage::Done,
        run(evs).1[0] == Action::LoadProgram(index),
        run(evs).1[1] == Action::Finish(Outcome::Failed(RunError::ProgramLoadError)),
        forall|i: int| 2 <= i < evs.len() ==> run(evs).1[i] == Action::Ignore,
        !issued(run(evs).1, Action::CreateCgroup),
        !issued(run(evs).1, Action::Launch),
{
    reveal_with_fuel(run, 3);
    assert(evs.take(2).drop_last() =~= evs.take(1));
    assert(evs.take(1).drop_last() =~= Seq::<Event>::empty());
    lemma_done_stays(evs, 2);
    assert(run(evs).1[0] == run(evs).1.take(2)[0]);
    assert(run(evs).1[1] == run(evs).1.take(2)[1]);
}

/// A base cgroup path that cannot be opened ends the launch with
/// `BasePathError`, before any cgroup or child exists.
pub proof fn law_missing_base_path(evs: Seq<Event>, index: u32)
    requires
        evs.len() >= 3,
        index > 0,
        evs[0] == Event::Resolved(index),
        evs[1] == Event::Loaded,
        evs[2] == Event::BasePathMissing,
    ensures
        run(evs).0 == Stage::Done,
        run(evs).1[2] == Action::Finish(Outcome::Failed(RunError::BasePathError)),
        forall|i: int| 3 <= i < evs.len() ==> run(evs).1[i] == Action::Ignore,
        !issued(run(evs).1, Action::Launch),
        !issued(run(evs).1, Action::RemoveCgroup),
{
    reveal_with_fuel(run, 4);
    assert(evs.take(3).drop_last() =~= evs.take(2));
    assert(evs.take(2).drop_last() =~= evs.take(1));
    assert(evs.take(1).drop_last() =~= Seq::<Event>::empty());
    lemma_done_stays(evs, 3);
    let acts = run(evs).1;
    assert(acts[0] == acts.take(3)[0]);
    assert(acts[1] == acts.take(3)[1]);
    assert(acts[2] == acts.take(3)[2]);
}

} // verus!
