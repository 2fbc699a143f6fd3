//! The link engine: merges a source tree into a destination by symbolic links.
//!
//! `Reconciler` is a state machine. Each call of `step` receives the outcome of
//! the previous operation and returns the next one to perform, `Ok(None)` when
//! the whole tree is linked, or `Err` with the message of the first failure.
//! Nothing is cached: every decision rests on a fresh `Probe` of the paths it
//! concerns, so a run resumes cleanly over what an earlier run left on disk.
use crate::error::{ErrorView, IpaError};
use vstd::prelude::*;
use vstd::string::StringExecFns;

verus! {

/// What a path is on disk at the moment it is probed.
#[derive(PartialEq, Eq, Structural, Clone, Copy, Debug)]
pub enum Kind {
    /// Nothing is there.
    Missing,
    /// Something is there that is not a directory (a file, a link, ...).
    File,
    /// A directory, or a link that resolves to one.
    Dir,
}

/// One entry of a directory listing: its full path and its base name.
pub struct DirEntry {
    pub path: String,
    pub name: Option<String>,
}

/// The outcome of the operation that the engine asked for last.
pub enum Event {
    /// No outcome: the first step of a run.
    Start,
    /// What a `Probe` found at its two paths.
    Probed { src: Kind, dst: Kind },
    /// The entries that a `List` read, in the order they were read.
    Listed(Vec<DirEntry>),
    /// A `CreateDir`, `Symlink` or `Skip` was carried out.
    Done,
    /// What the package manager answered to an `Install`.
    Installed(Result<(), IpaError>),
    /// The operation failed, with the system's message.
    Failed(String),
}

/// The next primitive operation for the caller to perform.
pub enum Action {
    /// Classify `src` and `dst`; answer with `Probed`.
    Probe { src: String, dst: String },
    /// Read the entries of a directory; answer with `Listed`.
    List { dir: String },
    /// Create one real directory; answer with `Done`.
    CreateDir { path: String },
    /// Create a symbolic link at `dst` that points at `src`; answer with `Done`.
    Symlink { src: String, dst: String },
    /// Record that `dst` already exists and is left alone; answer with `Done`.
    Skip { dst: String },
    /// Install the named package; answer with `Installed`.
    Install { name: String },
}

/// A unit of pending work.
pub enum Task {
    /// Reconcile `src` into `dst`: merge two directories, or place one link.
    Link { src: String, dst: String },
    /// List `src` and reconcile each of its entries under `dst`.
    Merge { src: String, dst: String },
    /// Reconcile one entry of a listed directory into its place under the
    /// destination directory.
    Child { src: String, dst: String },
    /// Reconcile an entry whose destination directory was just created: as
    /// `Child`, except that the directory is never created a second time.
    Created { src: String, dst: String },
}

/// What the engine waits for.
pub enum Wait {
    /// Nothing: the next pending task starts on the next step.
    Idle,
    /// The answer to the first operation of a task.
    On(Task),
    /// The acknowledgement of a `CreateDir`, `Symlink` or `Skip`.
    Mutation,
    /// Nothing any more: the run failed with this message.
    Failed(String),
}

pub struct Reconciler {
    /// Tasks not yet started; the last one starts next.
    pub pending: Vec<Task>,
    pub wait: Wait,
}

pub enum TaskView {
    Link(Seq<char>, Seq<char>),
    Merge(Seq<char>, Seq<char>),
    Child(Seq<char>, Seq<char>),
    Created(Seq<char>, Seq<char>),
}

pub enum WaitView {
    Idle,
    On(TaskView),
    Mutation,
    Failed(Seq<char>),
}

pub enum ActionView {
    Probe(Seq<char>, Seq<char>),
    List(Seq<char>),
    CreateDir(Seq<char>),
    Symlink(Seq<char>, Seq<char>),
    Skip(Seq<char>),
    Install(Seq<char>),
}

pub enum EventView {
    Start,
    Probed(Kind, Kind),
    Listed(Seq<(Seq<char>, Option<Seq<char>>)>),
    Done,
    Installed(Result<(), ErrorView>),
    Failed(Seq<char>),
}

/// What a step returns, seen through the views.
pub type Outcome = Result<Option<ActionView>, Seq<char>>;

impl View for Task {
    type V = TaskView;

    open spec fn view(&self) -> TaskView {
        match self {
            Task::Link { src, dst } => TaskView::Link(src@, dst@),
            Task::Merge { src, dst } => TaskView::Merge(src@, dst@),
            Task::Child { src, dst } => TaskView::Child(src@, dst@),
            Task::Created { src, dst } => TaskView::Created(src@, dst@),
        }
    }
}

impl View for Wait {
    type V = WaitView;

    open spec fn view(&self) -> WaitView {
        match self {
            Wait::Idle => WaitView::Idle,
            Wait::On(t) => WaitView::On(t@),
            Wait::Mutation => WaitView::Mutation,
            Wait::Failed(m) => WaitView::Failed(m@),
        }
    }
}

impl View for Action {
    type V = ActionView;

    open spec fn view(&self) -> ActionView {
        match self {
            Action::Probe { src, dst } => ActionView::Probe(src@, dst@),
            Action::List { dir } => ActionView::List(dir@),
            Action::CreateDir { path } => ActionView::CreateDir(path@),
            Action::Symlink { src, dst } => ActionView::Symlink(src@, dst@),
            Action::Skip { dst } => ActionView::Skip(dst@),
            Action::Install { name } => ActionView::Install(name@),
        }
    }
}

impl View for DirEntry {
    type V = (Seq<char>, Option<Seq<char>>);

    open spec fn view(&self) -> (Seq<char>, Option<Seq<char>>) {
        (
            self.path@,
            match self.name {
                Some(n) => Some(n@),
                None => None,
            },
        )
    }
}

impl View for Event {
    type V = EventView;

    open spec fn view(&self) -> EventView {
        match self {
            Event::Start => EventView::Start,
            Event::Probed { src, dst } => EventView::Probed(*src, *dst),
            Event::Listed(es) => EventView::Listed(es@.map_values(|e: DirEntry| e@)),
            Event::Done => EventView::Done,
            Event::Installed(res) => EventView::Installed(
                match res {
                    Ok(()) => Ok(()),
                    Err(e) => Err(e@),
                },
            ),
            Event::Failed(m) => EventView::Failed(m@),
        }
    }
}

impl View for Reconciler {
    type V = (Seq<TaskView>, WaitView);

    open spec fn view(&self) -> (Seq<TaskView>, WaitView) {
        (self.pending@.map_values(|t: Task| t@), self.wait@)
    }
}

pub open spec fn outcome_view(r: Result<Option<Action>, String>) -> Outcome {
    match r {
        Ok(Some(a)) => Ok(Some(a@)),
        Ok(None) => Ok(None),
        Err(m) => Err(m@),
    }
}

/// The path of the entry `name` inside directory `dir`.
pub open spec fn join(dir: Seq<char>, name: Seq<char>) -> Seq<char> {
    dir + seq!['/'] + name
}

/// The task for one listed entry of `src`: none for the directory itself or
/// for an entry without a base name.
pub open spec fn entry_tasks(e: (Seq<char>, Option<Seq<char>>), src: Seq<char>, dst: Seq<char>) -> Seq<
    TaskView,
> {
    if e.0 != src && e.1 is Some {
        seq![TaskView::Child(e.0, join(dst, e.1->0))]
    } else {
        seq![]
    }
}

/// The tasks for a listing, laid out as a stack: the first entry on top, so
/// that entries are handled in the order they were listed.
pub open spec fn stacked(es: Seq<(Seq<char>, Option<Seq<char>>)>, src: Seq<char>, dst: Seq<char>) -> Seq<
    TaskView,
>
    decreases es.len(),
{
    if es.len() == 0 {
        seq![]
    } else {
        stacked(es.drop_first(), src, dst) + entry_tasks(es[0], src, dst)
    }
}

/// The operation that starts a task.
pub open spec fn first_action(t: TaskView) -> ActionView {
    match t {
        TaskView::Link(s, d) => ActionView::Probe(s, d),
        TaskView::Child(s, d) => ActionView::Probe(s, d),
        TaskView::Created(s, d) => ActionView::Probe(s, d),
        TaskView::Merge(s, _) => ActionView::List(s),
    }
}

/// Start the next pending task, or finish when there is none.
pub open spec fn start_next(pending: Seq<TaskView>) -> (Seq<TaskView>, WaitView, Outcome) {
    if pending.len() == 0 {
        (pending, WaitView::Idle, Ok(None))
    } else {
        (
            pending.drop_last(),
            WaitView::On(pending.last()),
            Ok(Some(first_action(pending.last()))),
        )
    }
}

/// Give up: no work is left and the message is reported from now on.
pub open spec fn fail(m: Seq<char>) -> (Seq<TaskView>, WaitView, Outcome) {
    (seq![], WaitView::Failed(m), Err(m))
}

/// The leaf step: an existing destination, of any kind, is left alone;
/// otherwise a link to the source is placed there.
pub open spec fn leaf(s: Seq<char>, d: Seq<char>, dst: Kind) -> ActionView {
    if dst != Kind::Missing {
        ActionView::Skip(d)
    } else {
        ActionView::Symlink(s, d)
    }
}

/// The transition of the engine: from the pending tasks, what it waits for and
/// the outcome it receives, to its new pending tasks and wait, and what it
/// returns.
pub open spec fn step_spec(pending: Seq<TaskView>, wait: WaitView, ev: EventView) -> (
    Seq<TaskView>,
    WaitView,
    Outcome,
) {
    match wait {
        WaitView::Idle => start_next(pending),
        WaitView::Failed(m) => (pending, WaitView::Failed(m), Err(m)),
        WaitView::Mutation => match ev {
            EventView::Done => start_next(pending),
            EventView::Failed(m) => fail(m),
            _ => fail("unexpected event"@),
        },
        WaitView::On(t) => match ev {
            EventView::Failed(m) => fail(m),
            EventView::Probed(ks, kd) => match t {
                TaskView::Link(s, d) => if ks == Kind::Dir && kd == Kind::Dir {
                    (pending, WaitView::On(TaskView::Merge(s, d)), Ok(Some(ActionView::List(s))))
                } else {
                    (pending, WaitView::Mutation, Ok(Some(leaf(s, d, kd))))
                },
                TaskView::Child(s, d) => if ks == Kind::Dir && kd == Kind::Missing {
                    (
                        pending.push(TaskView::Created(s, d)),
                        WaitView::Mutation,
                        Ok(Some(ActionView::CreateDir(d))),
                    )
                } else if ks == Kind::Dir && kd == Kind::Dir {
                    (pending, WaitView::On(TaskView::Merge(s, d)), Ok(Some(ActionView::List(s))))
                } else {
                    (pending, WaitView::Mutation, Ok(Some(leaf(s, d, kd))))
                },
                TaskView::Created(s, d) => if ks == Kind::Dir && kd == Kind::Missing {
                    fail("created directory is missing"@)
                } else if ks == Kind::Dir && kd == Kind::Dir {
                    (pending, WaitView::On(TaskView::Merge(s, d)), Ok(Some(ActionView::List(s))))
                } else {
                    (pending, WaitView::Mutation, Ok(Some(leaf(s, d, kd))))
                },
                TaskView::Merge(_, _) => fail("unexpected event"@),
            },
            EventView::Listed(es) => match t {
                TaskView::Merge(s, d) => start_next(pending + stacked(es, s, d)),
                _ => fail("unexpected event"@),
            },
            _ => fail("unexpected event"@),
        },
    }
}

fn unexpected() -> (r: String)
    ensures
        r@ == "unexpected event"@,
{
    String::from_str("unexpected event")
}

fn join_path(dir: &String, name: &String) -> (r: String)
    ensures
        r@ == join(dir@, name@),
{
    let mut p = dir.clone();
    p.append("/");
    p.append(name.as_str());
    proof {
        assert("/"@ =~= seq!['/']) by {
            reveal_strlit("/");
        }
    }
    p
}

impl Reconciler {
    /// A run that reconciles `src` into `dst`.
    pub fn new(src: String, dst: String) -> (r: Reconciler)
        ensures
            r@.0 == seq![TaskView::Link(src@, dst@)],
            r@.1 == WaitView::Idle,
    {
        let mut pending: Vec<Task> = Vec::new();
        pending.push(Task::Link { src, dst });
        let r = Reconciler { pending, wait: Wait::Idle };
        assert(r@.0 =~= seq![TaskView::Link(src@, dst@)]);
        r
    }

    /// True once the run has failed: every later step reports the failure.
    pub fn has_failed(&self) -> (r: bool)
        ensures
            r == (self@.1 is Failed),
    {
        match &self.wait {
            Wait::Failed(_) => true,
            _ => false,
        }
    }

    fn start(&mut self) -> (r: Result<Option<Action>, String>)
        requires
            old(self).wait@ == WaitView::Idle,
        ensures
            (final(self)@.0, final(self)@.1, outcome_view(r)) == start_next(old(self)@.0),
    {
        let ghost before = self@.0;
        match self.pending.pop() {
            None => {
                assert(before.len() == 0);
                Ok(None)
            },
            Some(t) => {
                proof {
                    assert(self@.0 =~= before.drop_last());
                }
                let a = match &t {
                    Task::Link { src, dst } => Action::Probe { src: src.clone(), dst: dst.clone() },
                    Task::Child { src, dst } => Action::Probe { src: src.clone(), dst: dst.clone() },
                    Task::Created { src, dst } => Action::Probe { src: src.clone(), dst: dst.clone() },
                    Task::Merge { src, dst: _ } => Action::List { dir: src.clone() },
                };
                self.wait = Wait::On(t);
                Ok(Some(a))
            },
        }
    }

    fn abort(&mut self, m: String) -> (r: Result<Option<Action>, String>)
        ensures
            (final(self)@.0, final(self)@.1, outcome_view(r)) == fail(m@),
    {
        self.pending.clear();
        let e = m.clone();
        self.wait = Wait::Failed(m);
        assert(self@.0 =~= seq![]);
        Err(e)
    }

    /// Push the tasks of a listing of `src`, whose entries go under `dst`.
    fn push_entries(&mut self, es: &Vec<DirEntry>, src: &String, dst: &String)
        ensures
            final(self)@.0 == old(self)@.0 + stacked(es@.map_values(|e: DirEntry| e@), src@, dst@),
            final(self).wait == old(self).wait,
    {
        let ghost ev = es@.map_values(|e: DirEntry| e@);
        let ghost base = self@.0;
        let mut i: usize = es.len();
        assert(ev.subrange(i as int, ev.len() as int) =~= seq![]);
        while i > 0
            invariant
                i <= es.len(),
                ev == es@.map_values(|e: DirEntry| e@),
                self@.0 == base + stacked(ev.subrange(i as int, ev.len() as int), src@, dst@),
                self.wait == old(self).wait,
            decreases i,
        {
            i = i - 1;
            let e = &es[i];
            let ghost rest = ev.subrange(i as int, ev.len() as int);
            assert(rest.drop_first() =~= ev.subrange(i + 1, ev.len() as int));
            assert(rest[0] == e@);
            let ghost prev = self@.0;
            if e.path != *src {
                match &e.name {
                    Some(n) => {
                        let d = join_path(dst, n);
                        self.pending.push(Task::Child { src: e.path.clone(), dst: d });
                        assert(self@.0 =~= prev + entry_tasks(e@, src@, dst@));
                    },
                    None => {
                        assert(self@.0 =~= prev + entry_tasks(e@, src@, dst@));
                    },
                }
            } else {
                assert(self@.0 =~= prev + entry_tasks(e@, src@, dst@));
            }
            assert(base + stacked(rest, src@, dst@) =~= prev + entry_tasks(e@, src@, dst@));
        }
        assert(ev.subrange(0, ev.len() as int) =~= ev);
    }

    /// One step of the run: take the outcome of the last operation, return the
    /// next operation, `Ok(None)` when the tree is reconciled, or the error.
    pub fn step(&mut self, ev: &Event) -> (r: Result<Option<Action>, String>)
        ensures
            (final(self)@.0, final(self)@.1, outcome_view(r)) == step_spec(
                old(self)@.0,
                old(self)@.1,
                ev@,
            ),
    {
        let mut w = Wait::Idle;
        std::mem::swap(&mut self.wait, &mut w);
        match w {
            Wait::Idle => self.start(),
            Wait::Failed(m) => {
                let e = m.clone();
                self.wait = Wait::Failed(m);
                Err(e)
            },
            Wait::Mutation => match ev {
                Event::Done => self.start(),
                Event::Failed(m) => self.abort(m.clone()),
                _ => self.abort(unexpected()),
            },
            Wait::On(t) => match ev {
                Event::Failed(m) => self.abort(m.clone()),
                Event::Probed { src: ks, dst: kd } => match t {
                    Task::Link { src, dst } => {
                        if *ks == Kind::Dir && *kd == Kind::Dir {
                            let a = Action::List { dir: src.clone() };
                            self.wait = Wait::On(Task::Merge { src, dst });
                            Ok(Some(a))
                        } else {
                            self.wait = Wait::Mutation;
                            Ok(Some(Self::leaf_action(src, dst, *kd)))
                        }
                    },
                    Task::Child { src, dst } => {
                        if *ks == Kind::Dir && *kd == Kind::Missing {
                            let a = Action::CreateDir { path: dst.clone() };
                            self.pending.push(Task::Created { src, dst });
                            self.wait = Wait::Mutation;
                            Ok(Some(a))
                        } else if *ks == Kind::Dir && *kd == Kind::Dir {
                            let a = Action::List { dir: src.clone() };
                            self.wait = Wait::On(Task::Merge { src, dst });
                            Ok(Some(a))
                        } else {
                            self.wait = Wait::Mutation;
                            Ok(Some(Self::leaf_action(src, dst, *kd)))
                        }
                    },
                    Task::Created { src, dst } => {
                        if *ks == Kind::Dir && *kd == Kind::Missing {
                            self.abort(String::from_str("created directory is missing"))
                        } else if *ks == Kind::Dir && *kd == Kind::Dir {
                            let a = Action::List { dir: src.clone() };
                            self.wait = Wait::On(Task::Merge { src, dst });
                            Ok(Some(a))
                        } else {
                            self.wait = Wait::Mutation;
                            Ok(Some(Self::leaf_action(src, dst, *kd)))
                        }
                    },
                    Task::Merge { .. } => self.abort(unexpected()),
                },
                Event::Listed(es) => match t {
                    Task::Merge { src, dst } => {
                        self.push_entries(es, &src, &dst);
                        self.start()
                    },
                    _ => self.abort(unexpected()),
                },
                _ => self.abort(unexpected()),
            },
        }
    }

    fn leaf_action(src: String, dst: String, kd: Kind) -> (r: Action)
        ensures
            r@ == leaf(src@, dst@, kd),
    {
        if kd != Kind::Missing {
            Action::Skip { dst }
        } else {
            Action::Symlink { src, dst }
        }
    }
}

} // verus!
