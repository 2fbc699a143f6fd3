//! The provisioning run: install each package in order, link what a package
//! brings right after it is installed, then link the standalone entries.
//!
//! Installing is an operation of the run like the filesystem work: the run
//! returns `Action::Install` with the package's name, and the caller answers
//! with what the package manager said. The run stops at the first failure, of
//! an install or of a link, and reports it from then on; nothing done before
//! is undone.
use crate::config::Config;
use crate::error::{ErrorView, IpaError};
use crate::reconcile::{
    step_spec, Action, ActionView, Event, EventView, Reconciler, Task, TaskView, Wait, WaitView,
};
use vstd::prelude::*;
use vstd::string::StringExecFns;

verus! {

/// Installs packages by name. The run asks for each install with
/// `Action::Install`; the caller performs it, typically through the
/// `pacman` that the run was made with.
pub trait PackageManagement {
    fn install(&self, name: &str) -> Result<(), IpaError>;
}

/// Where a run stands.
pub enum Stage {
    /// Next: install the package at this index.
    Package(usize),
    /// Waiting for the answer to the install of the package at this index.
    Installing(usize),
    /// Reconciling the link of a package (`package`) or a standalone link.
    Linking { package: bool, index: usize, engine: Reconciler },
    /// Next: reconcile the standalone link at this index.
    SysLink(usize),
    /// Everything was installed and linked.
    Finished,
    /// The run stopped on this error.
    Halted(IpaError),
}

pub struct Ipa<P: PackageManagement> {
    pub config: Config,
    pub pacman: P,
    pub stage: Stage,
}

impl<P: PackageManagement> Ipa<P> {
    /// The stage indices stay within the configuration's lists.
    pub open spec fn wf(&self) -> bool {
        match self.stage {
            Stage::Package(i) => i <= self.config.packages.len(),
            Stage::Installing(i) => i < self.config.packages.len(),
            Stage::Linking { package, index, .. } => if package {
                index < self.config.packages.len()
            } else {
                index < self.config.sys_links.len()
            },
            Stage::SysLink(j) => j <= self.config.sys_links.len(),
            _ => true,
        }
    }

    /// How far the run has come; it never goes back.
    pub open spec fn position(&self) -> int {
        let n = self.config.packages.len() as int;
        let m = self.config.sys_links.len() as int;
        match self.stage {
            Stage::Package(i) => 3 * i,
            Stage::Installing(i) => 3 * i + 1,
            Stage::Linking { package, index, .. } => if package {
                3 * index + 2
            } else {
                3 * n + 3 + 2 * index
            },
            Stage::SysLink(j) => 3 * n + 2 + 2 * j,
            _ => 3 * n + 2 * m + 4,
        }
    }

    /// The source and destination of the link that the stage reconciles.
    pub open spec fn link_of(&self, package: bool, index: int) -> (Seq<char>, Seq<char>) {
        if package {
            (self.config.packages[index].path@, self.config.packages[index].config@)
        } else {
            (self.config.sys_links[index].path@, self.config.sys_links[index].config@)
        }
    }

    /// A run over `config` that has not started.
    pub fn new(config: Config, pacman: P) -> (r: Self)
        ensures
            r.config == config,
            r.pacman == pacman,
            r.stage == Stage::Package(0),
            r.wf(),
    {
        Ipa { config, pacman, stage: Stage::Package(0) }
    }

    /// What a step returned agrees with the stage it left: an operation while
    /// an install or an engine is under way, `Ok(None)` once finished, the
    /// error once halted.
    pub open spec fn outcome_matches(stage: Stage, r: Result<Option<Action>, IpaError>) -> bool {
        match r {
            Ok(Some(_)) => stage is Linking || stage is Installing,
            Ok(None) => stage is Finished,
            Err(e) => stage matches Stage::Halted(h) && h@ == e@,
        }
    }

    /// A stage that links has a fresh engine for the link of the entry it
    /// stands at, and the step returned the engine's first probe.
    pub open spec fn fresh_link(s: Self, r: Result<Option<Action>, IpaError>) -> bool {
        match s.stage {
            Stage::Linking { package, index, engine } => {
                let (src, dst) = s.link_of(package, index as int);
                &&& engine@ == (Seq::<TaskView>::empty(), WaitView::On(TaskView::Link(src, dst)))
                &&& (r matches Ok(Some(a)) && a@ == ActionView::Probe(src, dst))
                &&& package ==> s.config.packages[index as int].contributes_link()
            },
            _ => true,
        }
    }

    /// Where a run goes from a `Package` or `SysLink` stage `from`, when `s`
    /// is where it stops and `r` what it returns: from `Package(i)` it asks
    /// for the install of package `i`, by name; past the last package, and
    /// from `SysLink(j)`, it starts the engine of the next standalone link, or
    /// finishes with `Ok(None)` past the last one.
    pub open spec fn moved_on(config: Config, from: Stage, s: Self, r: Result<Option<Action>, IpaError>) -> bool {
        let n = config.packages.len() as int;
        let m = config.sys_links.len() as int;
        let j: int = match from {
            Stage::SysLink(j) => j as int,
            _ => 0,
        };
        &&& s.config == config
        &&& s.wf()
        &&& Self::outcome_matches(s.stage, r)
        &&& Self::fresh_link(s, r)
        &&& if (from matches Stage::Package(i) && i < n) {
            &&& s.stage == Stage::Installing(from->Package_0)
            &&& (r matches Ok(Some(a)) && a@ == ActionView::Install(config.packages[from->Package_0 as int].name@))
        } else if j < m {
            s.stage matches Stage::Linking { package: false, index, .. } && index == j
        } else {
            s.stage is Finished
        }
    }

    /// The run after the package manager answered `res` for package `i`: a
    /// failure halts the run with that error; a success starts the engine of
    /// the package's link if it brings one, and otherwise moves on as from the
    /// next package.
    pub open spec fn answered(
        config: Config,
        i: int,
        res: Result<(), ErrorView>,
        s: Self,
        r: Result<Option<Action>, IpaError>,
    ) -> bool {
        match res {
            Err(e) => {
                &&& (r matches Err(e2) && e2@ == e)
                &&& (s.stage matches Stage::Halted(h) && h@ == e)
                &&& s.config == config
            },
            Ok(_) => if config.packages[i].contributes_link() {
                &&& s.config == config
                &&& s.wf()
                &&& (s.stage matches Stage::Linking { package: true, index, .. } && index == i)
                &&& Self::fresh_link(s, r)
            } else {
                Self::moved_on(config, Stage::Package((i + 1) as usize), s, r)
            },
        }
    }

    /// A step taken while an install is under way: an `Installed` answer is
    /// taken as `answered` says; any other event halts the run.
    pub open spec fn install_step(old_stage: Stage, config: Config, s: Self, ev: Event, r: Result<Option<Action>, IpaError>) -> bool {
        match old_stage {
            Stage::Installing(i) => match ev@ {
                EventView::Installed(res) => Self::answered(config, i as int, res, s, r),
                _ => {
                    &&& (r matches Err(e) && e@ == ErrorView::Install("unexpected event"@))
                    &&& (s.stage matches Stage::Halted(h) && h@ == ErrorView::Install("unexpected event"@))
                },
            },
            _ => true,
        }
    }

    /// A step taken while an engine runs: the engine takes the event; its
    /// next operation is returned, its failure halts the run with a link
    /// error, and its success moves the run on exactly as from the next
    /// package (after a package's link) or the next standalone link.
    pub open spec fn engine_step(old_stage: Stage, config: Config, s: Self, ev: Event, r: Result<Option<Action>, IpaError>) -> bool {
        match old_stage {
            Stage::Linking { package, index, engine } => {
                let (p, w, o) = step_spec(engine@.0, engine@.1, ev@);
                match o {
                    Ok(Some(a)) => {
                        &&& (r matches Ok(Some(b)) && b@ == a)
                        &&& (s.stage matches Stage::Linking { package: p2, index: i2, engine: e2 }
                            && p2 == package && i2 == index && e2@ == (p, w))
                    },
                    Err(m) => {
                        &&& (r matches Err(e) && e@ == ErrorView::Link(m))
                        &&& (s.stage matches Stage::Halted(h) && h@ == ErrorView::Link(m))
                    },
                    Ok(None) => Self::moved_on(
                        config,
                        if package {
                            Stage::Package((index + 1) as usize)
                        } else {
                            Stage::SysLink((index + 1) as usize)
                        },
                        s,
                        r,
                    ),
                }
            },
            _ => true,
        }
    }

    fn launch(src: &String, dst: &String) -> (r: (Reconciler, Action))
        ensures
            r.0@ == (Seq::<TaskView>::empty(), WaitView::On(TaskView::Link(src@, dst@))),
            r.1@ == ActionView::Probe(src@, dst@),
    {
        let engine = Reconciler {
            pending: Vec::new(),
            wait: Wait::On(Task::Link { src: src.clone(), dst: dst.clone() }),
        };
        assert(engine@.0 =~= Seq::<TaskView>::empty());
        (engine, Action::Probe { src: src.clone(), dst: dst.clone() })
    }

    /// Move on from a `Package` or `SysLink` stage: ask for the next install,
    /// or, after the packages, start the engine of the next standalone link.
    fn advance(&mut self) -> (r: Result<Option<Action>, IpaError>)
        requires
            old(self).wf(),
            old(self).stage is Package || old(self).stage is SysLink,
        ensures
            Self::moved_on(old(self).config, old(self).stage, *final(self), r),
            final(self).position() > old(self).position(),
    {
        let j: usize = match self.stage {
            Stage::Package(i) => {
                if i < self.config.packages.len() {
                    let name = self.config.packages[i].name.clone();
                    self.stage = Stage::Installing(i);
                    return Ok(Some(Action::Install { name }));
                }
                0
            },
            Stage::SysLink(j) => j,
            _ => 0,
        };
        if j < self.config.sys_links.len() {
            let l = &self.config.sys_links[j];
            let (engine, a) = Self::launch(&l.path, &l.config);
            self.stage = Stage::Linking { package: false, index: j, engine };
            Ok(Some(a))
        } else {
            self.stage = Stage::Finished;
            Ok(None)
        }
    }

    /// Take the package manager's answer for the package whose install the
    /// run waits for, as `answered` says.
    pub fn after_install(&mut self, res: Result<(), IpaError>) -> (r: Result<Option<Action>, IpaError>)
        requires
            old(self).wf(),
            old(self).stage is Installing,
        ensures
            Self::answered(
                old(self).config,
                old(self).stage->Installing_0 as int,
                match res {
                    Ok(()) => Ok(()),
                    Err(e) => Err(e@),
                },
                *final(self),
                r,
            ),
            final(self).position() > old(self).position(),
    {
        let i = match self.stage {
            Stage::Installing(i) => i,
            _ => 0,
        };
        match res {
            Err(e) => {
                self.stage = Stage::Halted(e.duplicate());
                Err(e)
            },
            Ok(()) => {
                let p = &self.config.packages[i];
                if p.has_link() {
                    let (engine, a) = Self::launch(&p.path, &p.config);
                    self.stage = Stage::Linking { package: true, index: i, engine };
                    Ok(Some(a))
                } else {
                    self.stage = Stage::Package(i + 1);
                    self.advance()
                }
            },
        }
    }

    /// One step of the run. `ev` is the outcome of the operation that the
    /// previous step returned (`Event::Start` on the first step). Returns the
    /// next operation to perform, `Ok(None)` when the run is complete, or the
    /// error that stopped it.
    pub fn process(&mut self, ev: &Event) -> (r: Result<Option<Action>, IpaError>)
        requires
            old(self).wf(),
        ensures
            final(self).wf(),
            final(self).config == old(self).config,
            final(self).position() >= old(self).position(),
            Self::outcome_matches(final(self).stage, r),
            old(self).stage is Finished ==> final(self).stage is Finished,
            old(self).stage is Halted ==> final(self).stage == old(self).stage,
            Self::install_step(old(self).stage, old(self).config, *final(self), *ev, r),
            Self::engine_step(old(self).stage, old(self).config, *final(self), *ev, r),
            (old(self).stage is Package || old(self).stage is SysLink) ==> Self::moved_on(
                old(self).config,
                old(self).stage,
                *final(self),
                r,
            ),
    {
        let mut st = Stage::Finished;
        std::mem::swap(&mut self.stage, &mut st);
        match st {
            Stage::Finished => Ok(None),
            Stage::Halted(e) => {
                let c = e.duplicate();
                self.stage = Stage::Halted(e);
                Err(c)
            },
            Stage::Installing(i) => {
                self.stage = Stage::Installing(i);
                match ev {
                    Event::Installed(res) => {
                        let res = match res {
                            Ok(()) => Ok(()),
                            Err(e) => Err(e.duplicate()),
                        };
                        self.after_install(res)
                    },
                    _ => {
                        let e = IpaError::Install(String::from_str("unexpected event"));
                        self.stage = Stage::Halted(e.duplicate());
                        Err(e)
                    },
                }
            },
            Stage::Linking { package, index, mut engine } => {
                match engine.step(ev) {
                    Ok(Some(a)) => {
                        self.stage = Stage::Linking { package, index, engine };
                        Ok(Some(a))
                    },
                    Err(m) => {
                        let e = IpaError::Link(m);
                        self.stage = Stage::Halted(e.duplicate());
                        Err(e)
                    },
                    Ok(None) => {
                        if package {
                            self.stage = Stage::Package(index + 1);
                        } else {
                            self.stage = Stage::SysLink(index + 1);
                        }
                        self.advance()
                    },
                }
            },
            other => {
                self.stage = other;
                self.advance()
            },
        }
    }
}

} // verus!
