//! The decisions of safe path resolution, as a state machine that asks its caller to
//! canonicalize texts and to test existence on disk, and answers with a path confined
//! to the canonical home directory.

use vstd::prelude::*;
use crate::paths::{
    apply_path_components_safe, check_path_length, finish_existing, opt_chars_view, resolution_target,
    resolve_cwd, result_view, settle_target, spec_apply, spec_components, spec_finish_existing,
    spec_render, spec_resolution_target, spec_resolve_cwd, spec_settle, spec_starts_with, FsPath,
    PathError, Settled, SettledView,
};
use crate::text::{chars_range, chars_to_string, spec_trim, str_to_chars, trim_chars};

verus! {

/// What the resolver needs to know from the file system next.
pub enum FsQuery {
    /// The canonical form of this text (`fs::canonicalize`), or its absence.
    Canonicalize(String),
    /// Whether something exists at this text (`Path::exists`).
    Exists(String),
}

/// The file system's answer to a query.
pub enum FsReply {
    Canonical(Option<Vec<char>>),
    Exists(bool),
}

/// One step of resolution.
pub enum ResolveStep {
    Ask(FsQuery),
    Done(Result<FsPath, PathError>),
}

/// Where resolution stands.
pub enum Stage {
    /// Waiting for the canonical home directory.
    AwaitHome,
    /// Waiting for the canonical form of the working directory (empty client path).
    AwaitCwdStart,
    /// Waiting for the canonical form of the target text.
    AwaitTarget(Vec<char>),
    /// Waiting for the canonical working directory to walk from.
    AwaitCwdWalk,
    /// Waiting to learn whether the walked path exists.
    AwaitExists(FsPath),
    /// Waiting for the canonical form of the walked path.
    AwaitWalkedCanonical,
    /// Resolution is over.
    Finished,
}

/// Resolves a client path against a home directory (and, optionally, a working
/// directory), never answering with a path outside the canonical home.
pub struct PathResolver {
    pub cwd: Option<String>,
    pub path: String,
    pub home: FsPath,
    pub home_text: Vec<char>,
    pub home_known: bool,
    pub stage: Stage,
}

/// The step after walking the client path from `base`: a refusal ends resolution,
/// a walked path is tested for existence.
pub open spec fn spec_walked(base: Seq<Seq<char>>, home: Seq<Seq<char>>, path: Seq<char>, r: ResolveStep) -> bool {
    let a = spec_apply(base, home, spec_trim(path));
    &&& a is Err ==> (r matches ResolveStep::Done(e) && result_view(e) == a)
    &&& a matches Ok(s) ==> (r matches ResolveStep::Ask(FsQuery::Exists(t)) && t@ == spec_render(s))
}

impl PathResolver {
    /// A walked path awaiting its existence check already lies within the known home,
    /// and every stage past the first knows the home.
    pub open spec fn wf(&self) -> bool {
        &&& self.stage matches Stage::AwaitExists(s) ==> spec_starts_with(s@, self.home@)
        &&& !(self.stage is AwaitHome) && !(self.stage is Finished) ==> self.home_known
        &&& self.stage is AwaitHome ==> !self.home_known
    }

    /// Every answer is within the canonical home once that is known, and no answer
    /// is given before.
    pub open spec fn done_within_home(&self, step: ResolveStep) -> bool {
        step matches ResolveStep::Done(Ok(p)) ==> self.home_known && spec_starts_with(p@, self.home@)
    }

    fn start(cwd: Option<String>, home_dir: &str, path: &str) -> (r: (PathResolver, ResolveStep))
        ensures
            r.0.wf(),
            r.0.done_within_home(r.1),
            r.1 matches ResolveStep::Done(res) ==> res == Err::<FsPath, PathError>(PathError::TooLong),
            path.len() > crate::paths::MAX_PATH_LENGTH <==> r.1 is Done,
            r.1 matches ResolveStep::Ask(q) ==> (q matches FsQuery::Canonicalize(t) && t@ == home_dir@),
            r.0.path@ == path@,
            r.0.cwd == cwd,
    {
        let p = crate::text::chars_to_string(str_to_chars(path).as_slice());
        let resolver = PathResolver {
            cwd,
            path: p,
            home: FsPath { parts: Vec::new() },
            home_text: Vec::new(),
            home_known: false,
            stage: Stage::AwaitHome,
        };
        if check_path_length(path).is_err() {
            let mut done = resolver;
            done.stage = Stage::Finished;
            return (done, ResolveStep::Done(Err(PathError::TooLong)));
        }
        let h = chars_to_string(str_to_chars(home_dir).as_slice());
        (resolver, ResolveStep::Ask(FsQuery::Canonicalize(h)))
    }

    /// Starts resolving `path` against the home directory `home_dir`; the client's
    /// relative paths are taken relative to home.
    pub fn safe_resolve_path(home_dir: &str, path: &str) -> (r: (PathResolver, ResolveStep))
        ensures
            r.0.wf(),
            r.0.done_within_home(r.1),
            r.0.cwd is None,
            path.len() > crate::paths::MAX_PATH_LENGTH ==> r.1 matches ResolveStep::Done(Err(PathError::TooLong)),
            path.len() <= crate::paths::MAX_PATH_LENGTH ==> (r.1 matches ResolveStep::Ask(FsQuery::Canonicalize(t)) && t@ == home_dir@),
    {
        let r = Self::start(None, home_dir, path);
        r
    }

    /// Starts resolving `path` against the home directory `home_dir`, taking the
    /// client's relative paths relative to the working directory `cwd`.
    pub fn safe_resolve_path_with_cwd(cwd: &str, home_dir: &str, path: &str) -> (r: (PathResolver, ResolveStep))
        ensures
            r.0.wf(),
            r.0.done_within_home(r.1),
            r.0.cwd matches Some(c) && c@ == cwd@,
            path.len() > crate::paths::MAX_PATH_LENGTH ==> r.1 matches ResolveStep::Done(Err(PathError::TooLong)),
            path.len() <= crate::paths::MAX_PATH_LENGTH ==> (r.1 matches ResolveStep::Ask(FsQuery::Canonicalize(t)) && t@ == home_dir@),
    {
        let c = chars_to_string(str_to_chars(cwd).as_slice());
        let r = Self::start(Some(c), home_dir, path);
        r
    }

    /// The client path without surrounding whitespace.
    fn clean_path(&self) -> (r: Vec<char>)
        ensures
            r@ == spec_trim(self.path@),
    {
        let raw = str_to_chars(self.path.as_str());
        trim_chars(raw.as_slice())
    }

    /// Walks the client path from `base`; asks whether the walked path exists.
    fn walk_from(&mut self, base: &FsPath) -> (r: ResolveStep)
        requires
            old(self).home_known,
        ensures
            final(self).wf(),
            final(self).home_known,
            final(self).home@ == old(self).home@,
            final(self).done_within_home(r),
            final(self).path@ == old(self).path@,
            final(self).cwd == old(self).cwd,
            spec_walked(base@, old(self).home@, old(self).path@, r),
    {
        let clean = self.clean_path();
        match apply_path_components_safe(base, &self.home, clean.as_slice()) {
            Err(e) => {
                self.stage = Stage::Finished;
                ResolveStep::Done(Err(e))
            },
            Ok(safe) => {
                let t = safe.to_text();
                self.stage = Stage::AwaitExists(safe);
                ResolveStep::Ask(FsQuery::Exists(t))
            },
        }
    }

    /// Takes the file system's answer to the last query and says what comes next.
    /// An answer of the wrong kind, or any answer after the end, finishes with `CannotAccess`.
    pub fn resume(&mut self, reply: FsReply) -> (r: ResolveStep)
        requires
            old(self).wf(),
        ensures
            final(self).wf(),
            final(self).done_within_home(r),
            old(self).home_known ==> final(self).home_known && final(self).home@ == old(self).home@,
            old(self).stage matches Stage::AwaitHome ==> (reply matches FsReply::Canonical(None) ==> r matches ResolveStep::Done(Err(PathError::HomeInaccessible))),
            old(self).stage matches Stage::AwaitHome ==> (reply matches FsReply::Canonical(Some(h)) ==> (final(self).home_known && final(self).home@ == spec_components(h@))),
            old(self).stage matches Stage::AwaitHome ==> (reply matches FsReply::Canonical(Some(h)) ==> ({
                let base = match old(self).cwd { Some(c) => c@, None => h@ };
                match spec_resolution_target(h@, base, old(self).path@) {
                    Some(t) => (r matches ResolveStep::Ask(FsQuery::Canonicalize(q)) && q@ == t)
                        && (final(self).stage matches Stage::AwaitTarget(tt) && tt@ == t),
                    None => match old(self).cwd {
                        Some(c) if c@.len() > 0 => (r matches ResolveStep::Ask(FsQuery::Canonicalize(q)) && q@ == c@)
                            && final(self).stage is AwaitCwdStart,
                        _ => (r matches ResolveStep::Done(Ok(p)) && p@ == spec_components(h@)),
                    },
                }
            })),
            old(self).stage matches Stage::AwaitTarget(t) ==> (reply matches FsReply::Canonical(c) ==> ({
                let s = spec_settle(old(self).home@, t@, opt_chars_view(c), old(self).path@);
                s matches SettledView::Done(res) ==> (r matches ResolveStep::Done(x) && result_view(x) == res)
            })),
            old(self).stage matches Stage::AwaitTarget(t) ==> (reply matches FsReply::Canonical(c) ==> ({
                let s = spec_settle(old(self).home@, t@, opt_chars_view(c), old(self).path@);
                let walk_cwd = match old(self).cwd { Some(w) => w@.len() > 0, None => false };
                s is Walk && walk_cwd ==> ((r matches ResolveStep::Ask(FsQuery::Canonicalize(q)) && q@ == old(self).cwd->0@)
                    && final(self).stage is AwaitCwdWalk)
            })),
            old(self).stage matches Stage::AwaitTarget(t) ==> (reply matches FsReply::Canonical(c) ==> ({
                let s = spec_settle(old(self).home@, t@, opt_chars_view(c), old(self).path@);
                let walk_cwd = match old(self).cwd { Some(w) => w@.len() > 0, None => false };
                s is Walk && !walk_cwd ==> spec_walked(old(self).home@, old(self).home@, old(self).path@, r)
            })),
            old(self).stage matches Stage::AwaitCwdWalk ==> (reply matches FsReply::Canonical(c) ==> ({
                let cwd_text = match old(self).cwd { Some(w) => w@, None => Seq::<char>::empty() };
                match spec_resolve_cwd(cwd_text, old(self).home@, opt_chars_view(c)) {
                    Err(e) => r matches ResolveStep::Done(Err(e2)) && e2 == e,
                    Ok(base) => spec_walked(base, old(self).home@, old(self).path@, r),
                }
            })),
            old(self).stage matches Stage::AwaitExists(s) ==> (reply matches FsReply::Exists(false) ==> (r matches ResolveStep::Done(Ok(p)) && p@ == s@)),
            old(self).stage matches Stage::AwaitExists(s) ==> (reply matches FsReply::Exists(true) ==> (r matches ResolveStep::Ask(FsQuery::Canonicalize(t)) && t@ == spec_render(s@))),
            old(self).stage matches Stage::AwaitWalkedCanonical ==> (reply matches FsReply::Canonical(c) ==> (r matches ResolveStep::Done(x) && result_view(x) == spec_finish_existing(old(self).home@, opt_chars_view(c)))),
            old(self).stage matches Stage::AwaitCwdStart ==> (reply matches FsReply::Canonical(c) ==> (r matches ResolveStep::Done(x) && ({
                let cwd_text = match old(self).cwd { Some(w) => w@, None => Seq::<char>::empty() };
                result_view(x) == spec_resolve_cwd(cwd_text, old(self).home@, opt_chars_view(c))
            }))),
            old(self).stage matches Stage::Finished ==> r matches ResolveStep::Done(Err(PathError::CannotAccess)),
    {
        let mut stage = Stage::Finished;
        std::mem::swap(&mut stage, &mut self.stage);
        match stage {
            Stage::AwaitHome => match reply {
                FsReply::Canonical(Some(h)) => {
                    self.home = FsPath::from_chars(h.as_slice());
                    self.home_known = true;
                    let base: Vec<char> = match &self.cwd {
                        Some(c) => str_to_chars(c.as_str()),
                        None => chars_range(h.as_slice(), 0, h.len()),
                    };
                    let target = resolution_target(h.as_slice(), base.as_slice(), self.path.as_str());
                    self.home_text = h;
                    match target {
                        None => match &self.cwd {
                            None => {
                                let home = self.home.copy();
                                assert(spec_starts_with(home@, self.home@)) by {
                                    assert(home@.take(home@.len() as int) =~= home@);
                                }
                                ResolveStep::Done(Ok(home))
                            },
                            Some(c) => {
                                if c.as_str().is_empty() {
                                    let home = self.home.copy();
                                    assert(spec_starts_with(home@, self.home@)) by {
                                        assert(home@.take(home@.len() as int) =~= home@);
                                    }
                                    ResolveStep::Done(Ok(home))
                                } else {
                                    self.stage = Stage::AwaitCwdStart;
                                    let q = chars_to_string(str_to_chars(c.as_str()).as_slice());
                                    ResolveStep::Ask(FsQuery::Canonicalize(q))
                                }
                            },
                        },
                        Some(t) => {
                            let q = chars_to_string(t.as_slice());
                            self.stage = Stage::AwaitTarget(t);
                            ResolveStep::Ask(FsQuery::Canonicalize(q))
                        },
                    }
                },
                FsReply::Canonical(None) => ResolveStep::Done(Err(PathError::HomeInaccessible)),
                FsReply::Exists(_) => ResolveStep::Done(Err(PathError::CannotAccess)),
            },
            Stage::AwaitCwdStart => match reply {
                FsReply::Canonical(c) => {
                    let cwd = match &self.cwd {
                        Some(w) => chars_to_string(str_to_chars(w.as_str()).as_slice()),
                        None => String::new(),
                    };
                    ResolveStep::Done(resolve_cwd(cwd.as_str(), &self.home, c))
                },
                FsReply::Exists(_) => ResolveStep::Done(Err(PathError::CannotAccess)),
            },
            Stage::AwaitTarget(t) => match reply {
                FsReply::Canonical(c) => {
                    match settle_target(&self.home, t.as_slice(), c, self.path.as_str()) {
                        Settled::Done(res) => ResolveStep::Done(res),
                        Settled::Walk => {
                            let walk_cwd = match &self.cwd {
                                Some(w) => !w.as_str().is_empty(),
                                None => false,
                            };
                            if walk_cwd {
                                let q = match &self.cwd {
                                    Some(w) => chars_to_string(str_to_chars(w.as_str()).as_slice()),
                                    None => String::new(),
                                };
                                self.stage = Stage::AwaitCwdWalk;
                                ResolveStep::Ask(FsQuery::Canonicalize(q))
                            } else {
                                let home = self.home.copy();
                                self.walk_from(&home)
                            }
                        },
                    }
                },
                FsReply::Exists(_) => ResolveStep::Done(Err(PathError::CannotAccess)),
            },
            Stage::AwaitCwdWalk => match reply {
                FsReply::Canonical(c) => {
                    let cwd = match &self.cwd {
                        Some(w) => chars_to_string(str_to_chars(w.as_str()).as_slice()),
                        None => String::new(),
                    };
                    match resolve_cwd(cwd.as_str(), &self.home, c) {
                        Err(e) => ResolveStep::Done(Err(e)),
                        Ok(base) => self.walk_from(&base),
                    }
                },
                FsReply::Exists(_) => ResolveStep::Done(Err(PathError::CannotAccess)),
            },
            Stage::AwaitExists(safe) => match reply {
                FsReply::Exists(false) => ResolveStep::Done(Ok(safe)),
                FsReply::Exists(true) => {
                    let t = safe.to_text();
                    self.stage = Stage::AwaitWalkedCanonical;
                    ResolveStep::Ask(FsQuery::Canonicalize(t))
                },
                FsReply::Canonical(_) => ResolveStep::Done(Err(PathError::CannotAccess)),
            },
            Stage::AwaitWalkedCanonical => match reply {
                FsReply::Canonical(c) => ResolveStep::Done(finish_existing(&self.home, c)),
                FsReply::Exists(_) => ResolveStep::Done(Err(PathError::CannotAccess)),
            },
            Stage::Finished => ResolveStep::Done(Err(PathError::CannotAccess)),
        }
    }
}

} // verus!
