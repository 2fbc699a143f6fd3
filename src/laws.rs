//! Properties of the link engine, proved over its transition `step_spec`.
use crate::reconcile::{
    entry_tasks, join, stacked, start_next, step_spec, ActionView, EventView, Kind, TaskView,
    WaitView,
};
use vstd::prelude::*;

verus! {

/// True of an outcome that asks to change the filesystem.
pub open spec fn mutates(o: Result<Option<ActionView>, Seq<char>>) -> bool {
    o matches Ok(Some(a)) && (a is CreateDir || a is Symlink)
}

/// Running again over what a run left behind changes nothing: as long as
/// every probed destination is reported present, no step of the engine, in
/// any state, creates a directory or a link.
pub proof fn rerun_mutates_nothing(pending: Seq<TaskView>, wait: WaitView, ev: EventView)
    requires
        !(ev matches EventView::Probed(_, dst) && dst == Kind::Missing),
    ensures
        !mutates(step_spec(pending, wait, ev).2),
{
}

/// A destination that exists, as any kind of entry, is never replaced: the
/// engine merges into it when both sides are directories, and otherwise
/// records it as present and moves on; either way the step succeeds.
pub proof fn existing_destination_left_alone(
    pending: Seq<TaskView>,
    t: TaskView,
    src: Kind,
    dst: Kind,
)
    requires
        t is Link || t is Child || t is Created,
        dst != Kind::Missing,
    ensures
        ({
            let (s, d) = match t {
                TaskView::Link(s, d) => (s, d),
                TaskView::Child(s, d) => (s, d),
                TaskView::Created(s, d) => (s, d),
                TaskView::Merge(s, d) => (s, d),
            };
            let (p, w, o) = step_spec(pending, WaitView::On(t), EventView::Probed(src, dst));
            &&& p == pending
            &&& (src == Kind::Dir && dst == Kind::Dir) ==> o == Ok::<Option<ActionView>, Seq<char>>(
                Some(ActionView::List(s)),
            ) && w == WaitView::On(TaskView::Merge(s, d))
            &&& !(src == Kind::Dir && dst == Kind::Dir) ==> o == Ok::<Option<ActionView>, Seq<char>>(
                Some(ActionView::Skip(d)),
            ) && w == WaitView::Mutation
        }),
{
}

/// A destination directory that already exists, at the top or at any depth,
/// is merged into rather than linked over: its source is listed, and each
/// listed entry becomes its own task under that directory.
pub proof fn existing_directory_is_merged(
    pending: Seq<TaskView>,
    t: TaskView,
    es: Seq<(Seq<char>, Option<Seq<char>>)>,
)
    requires
        t is Link || t is Child || t is Created,
    ensures
        ({
            let (s, d) = match t {
                TaskView::Link(s, d) => (s, d),
                TaskView::Child(s, d) => (s, d),
                TaskView::Created(s, d) => (s, d),
                TaskView::Merge(s, d) => (s, d),
            };
            &&& step_spec(pending, WaitView::On(t), EventView::Probed(Kind::Dir, Kind::Dir)) == (
                pending,
                WaitView::On(TaskView::Merge(s, d)),
                Ok::<Option<ActionView>, Seq<char>>(Some(ActionView::List(s))),
            )
            &&& step_spec(pending, WaitView::On(TaskView::Merge(s, d)), EventView::Listed(es))
                == start_next(pending + stacked(es, s, d))
        }),
{
}

/// Each task that a listing of `src` produces reconciles one listed entry
/// into its place under `dst`, and each entry other than `src` itself that
/// has a name produces one.
pub proof fn listing_tasks_are_children(
    es: Seq<(Seq<char>, Option<Seq<char>>)>,
    src: Seq<char>,
    dst: Seq<char>,
)
    ensures
        forall|k: int|
            0 <= k < stacked(es, src, dst).len() ==> exists|i: int|
                0 <= i < es.len() && es[i].0 != src && es[i].1 is Some && #[trigger] stacked(
                    es,
                    src,
                    dst,
                )[k] == TaskView::Child(es[i].0, join(dst, es[i].1->0)),
        forall|i: int|
            0 <= i < es.len() && es[i].0 != src && es[i].1 is Some ==> stacked(
                es,
                src,
                dst,
            ).contains(TaskView::Child(es[i].0, join(dst, es[i].1->0))),
    decreases es.len(),
{
    if es.len() > 0 {
        let rest = es.drop_first();
        listing_tasks_are_children(rest, src, dst);
        let st = stacked(es, src, dst);
        let sr = stacked(rest, src, dst);
        let head = entry_tasks(es[0], src, dst);
        assert(st == sr + head);
        assert forall|k: int| 0 <= k < st.len() implies exists|i: int|
            0 <= i < es.len() && es[i].0 != src && es[i].1 is Some && #[trigger] st[k]
                == TaskView::Child(es[i].0, join(dst, es[i].1->0)) by {
            if k < sr.len() {
                assert(st[k] == sr[k]);
                let j = choose|j: int|
                    0 <= j < rest.len() && rest[j].0 != src && rest[j].1 is Some && #[trigger] sr[k]
                        == TaskView::Child(rest[j].0, join(dst, rest[j].1->0));
                assert(rest[j] == es[j + 1]);
            } else {
                assert(st[k] == head[k - sr.len()]);
                assert(es[0].0 != src && es[0].1 is Some);
            }
        }
        assert forall|i: int| 0 <= i < es.len() && es[i].0 != src && es[i].1 is Some implies st.contains(
            TaskView::Child(es[i].0, join(dst, es[i].1->0)),
        ) by {
            let c = TaskView::Child(es[i].0, join(dst, es[i].1->0));
            if i == 0 {
                assert(st[sr.len() as int] == c);
            } else {
                assert(es[i] == rest[i - 1]);
                assert(sr.contains(c));
                let k = choose|k: int| 0 <= k < sr.len() && sr[k] == c;
                assert(st[k] == c);
            }
        }
    }
}

/// Where the destination is missing, the source is linked as a whole, be it
/// a file or an entire directory tree.
pub proof fn missing_destination_links_whole_source(
    pending: Seq<TaskView>,
    s: Seq<char>,
    d: Seq<char>,
    src: Kind,
)
    ensures
        step_spec(pending, WaitView::On(TaskView::Link(s, d)), EventView::Probed(src, Kind::Missing))
            == (pending, WaitView::Mutation, Ok::<Option<ActionView>, Seq<char>>(
            Some(ActionView::Symlink(s, d)),
        )),
{
}

/// Inside a merge, a source subdirectory whose destination is missing gets a
/// real directory there, never a link; the entry is then probed again, so it
/// is merged into the new directory as into any existing one, and the
/// directory is not created a second time.
pub proof fn missing_subdirectory_is_created(pending: Seq<TaskView>, s: Seq<char>, d: Seq<char>)
    ensures
        step_spec(pending, WaitView::On(TaskView::Child(s, d)), EventView::Probed(Kind::Dir, Kind::Missing))
            == (pending.push(TaskView::Created(s, d)), WaitView::Mutation, Ok::<
            Option<ActionView>,
            Seq<char>,
        >(Some(ActionView::CreateDir(d)))),
        start_next(pending.push(TaskView::Created(s, d))) == (
            pending,
            WaitView::On(TaskView::Created(s, d)),
            Ok::<Option<ActionView>, Seq<char>>(Some(ActionView::Probe(s, d))),
        ),
{
    assert(pending.push(TaskView::Created(s, d)).drop_last() =~= pending);
}

/// The work a task still stands for once it is started: each step on it
/// either finishes it or leaves it, or what it turns into, with less.
pub open spec fn started_work(t: TaskView) -> nat {
    match t {
        TaskView::Link(_, _) => 3,
        TaskView::Merge(_, _) => 2,
        TaskView::Child(_, _) => 6,
        TaskView::Created(_, _) => 3,
    }
}

/// The work of a pending task: one more step, to start it.
pub open spec fn task_work(t: TaskView) -> nat {
    started_work(t) + 1
}

pub open spec fn pending_work(p: Seq<TaskView>) -> nat
    decreases p.len(),
{
    if p.len() == 0 {
        0
    } else {
        pending_work(p.drop_last()) + task_work(p.last())
    }
}

/// The work left in an engine: its pending tasks and what it waits for.
pub open spec fn work(pending: Seq<TaskView>, wait: WaitView) -> nat {
    pending_work(pending) + match wait {
        WaitView::On(t) => started_work(t),
        WaitView::Mutation => 1,
        _ => 0,
    }
}

proof fn lemma_pending_work_concat(a: Seq<TaskView>, b: Seq<TaskView>)
    ensures
        pending_work(a + b) == pending_work(a) + pending_work(b),
    decreases b.len(),
{
    if b.len() == 0 {
        assert(a + b =~= a);
    } else {
        assert((a + b).drop_last() =~= a + b.drop_last());
        assert((a + b).last() == b.last());
        lemma_pending_work_concat(a, b.drop_last());
    }
}

proof fn lemma_stacked_work(es: Seq<(Seq<char>, Option<Seq<char>>)>, s: Seq<char>, d: Seq<char>)
    ensures
        pending_work(stacked(es, s, d)) <= 7 * es.len(),
    decreases es.len(),
{
    if es.len() > 0 {
        lemma_stacked_work(es.drop_first(), s, d);
        let head = entry_tasks(es[0], s, d);
        assert(stacked(es, s, d) == stacked(es.drop_first(), s, d) + head);
        lemma_pending_work_concat(stacked(es.drop_first(), s, d), head);
        if head.len() == 1 {
            assert(head.drop_last() =~= Seq::<TaskView>::empty());
            assert(pending_work(head.drop_last()) == 0);
            assert(pending_work(head) == task_work(head.last()));
        } else {
            assert(pending_work(head) == 0);
        }
    }
}

/// Every run ends on a finite tree: each step lowers the engine's `work`,
/// except a step that ends the run (`Ok(None)` or an error) and the step that
/// takes a directory's listing, which adds at most seven for each listed
/// entry. So a run takes at most `work` of its start plus seven steps per
/// entry that it lists; a fresh engine starts with a work of four.
pub proof fn step_consumes_work(pending: Seq<TaskView>, wait: WaitView, ev: EventView)
    ensures
        ({
            let (p, w, o) = step_spec(pending, wait, ev);
            ||| o is Err
            ||| o == Ok::<Option<ActionView>, Seq<char>>(None)
            ||| work(p, w) < work(pending, wait)
            ||| (wait matches WaitView::On(TaskView::Merge(_, _)) && ev matches EventView::Listed(es)
                && work(p, w) <= work(pending, wait) + 7 * es.len())
        }),
{
    if pending.len() > 0 {
        assert(pending_work(pending) == pending_work(pending.drop_last()) + task_work(pending.last()));
    }
    match wait {
        WaitView::On(TaskView::Merge(s, d)) => {
            if let EventView::Listed(es) = ev {
                let q = pending + stacked(es, s, d);
                lemma_pending_work_concat(pending, stacked(es, s, d));
                lemma_stacked_work(es, s, d);
                if q.len() > 0 {
                    assert(pending_work(q) == pending_work(q.drop_last()) + task_work(q.last()));
                }
            }
        },
        WaitView::On(TaskView::Child(s, d)) => {
            let q = pending.push(TaskView::Created(s, d));
            assert(q.drop_last() =~= pending);
        },
        _ => {},
    }
}

} // verus!
