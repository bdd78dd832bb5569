//! The installation cache engine: per-(name, version) state machine with
//! cross-process mutual exclusion, atomic publication and
//! rollback-on-failure.
//!
//! The engine decides; the surrounding program performs. Each call of
//! [`App::ensure_installed`] takes the phase the engine is in and the
//! outcome of the last performed action, and returns the next phase with
//! the next action. The program must hold the per-key lock from a
//! successful [`InstallAction::AcquireLock`] until the engine hands out
//! [`InstallAction::Finish`] or [`InstallAction::Abort`].

use vstd::prelude::*;

use crate::app::{App, spec_install_path, spec_internal_install_path};
use crate::strutil::concat2;

verus! {

/// Where the engine stands between two performed actions.
#[derive(Clone, Copy, PartialEq, Eq, Structural)]
pub enum InstallPhase {
    /// Awaiting the lock-free check of the published path.
    FastCheck,
    /// Awaiting the cross-process lock.
    Locking,
    /// Awaiting the re-check of the published path under the lock.
    Recheck,
    /// Awaiting the deletion of a previous attempt's staging remnants.
    Clearing,
    /// Awaiting the installer's outcome.
    Installing,
    /// Awaiting the atomic publication step.
    Publishing,
    /// Awaiting the per-app rollback.
    RollingBack,
    /// Terminal: the installation is published.
    Complete,
    /// Terminal: the installation failed and was rolled back.
    Failed,
}

/// What the last performed action reported.
#[derive(Clone, Copy, PartialEq, Eq, Structural)]
pub enum InstallEvent {
    /// Whether the published path exists as a directory.
    Published(bool),
    /// The cross-process lock was acquired (acquisition blocks, it does
    /// not time out).
    LockAcquired,
    /// The staging path is now free.
    StagingCleared,
    /// The installer finished, successfully or not.
    InstallFinished(bool),
    /// The publication step finished, successfully or not.
    PublishFinished(bool),
    /// A filesystem or lock operation failed outright.
    StepFailed,
    /// The rollback deletion was attempted.
    RolledBack,
}

/// What the engine asks the surrounding program to perform next.
pub enum InstallAction {
    /// Test whether this path exists as a directory.
    CheckPublished(String),
    /// Create the published path's parent if missing and block on an
    /// exclusive cross-process lock at this lock-file path.
    AcquireLock(String),
    /// Delete whatever exists at this staging path.
    ClearStaging(String),
    /// Run the descriptor's installer against this staging path.
    RunInstaller(String),
    /// Atomically rename the staging path onto the published path.
    PublishRename(String, String),
    /// Make the published path a symbolic link to the staging path.
    PublishSymlink(String, String),
    /// Delete this whole per-app cache subtree, then release the lock if
    /// held: the coarse rollback.
    Rollback(String),
    /// Release the lock if held; the installation is in place.
    Finish,
    /// Release the lock if held and report the failure.
    Abort,
}

/// The lock file guarding one (name, version) pair: a sibling of the
/// published path.
pub open spec fn spec_lock_path(home: Seq<char>, name: Seq<char>, version: Seq<char>) -> Seq<
    char,
> {
    spec_install_path(home, name, version) + ".lock"@
}

/// The per-app cache subtree the coarse rollback deletes: all versions
/// of the one app, not just the failing one.
pub open spec fn spec_app_cache_dir(home: Seq<char>, name: Seq<char>) -> Seq<char> {
    home + "/.cache/ozy"@ + "/"@ + name
}

/// Which events can answer which phase.
pub open spec fn event_fits(phase: InstallPhase, event: InstallEvent) -> bool {
    match phase {
        InstallPhase::FastCheck => event is Published,
        InstallPhase::Locking => event is LockAcquired || event is StepFailed,
        InstallPhase::Recheck => event is Published,
        InstallPhase::Clearing => event is StagingCleared || event is StepFailed,
        InstallPhase::Installing => event is InstallFinished,
        InstallPhase::Publishing => event is PublishFinished || event is StepFailed,
        InstallPhase::RollingBack => event is RolledBack || event is StepFailed,
        InstallPhase::Complete => false,
        InstallPhase::Failed => false,
    }
}

/// The phase the engine moves to on an event.
pub open spec fn spec_phase_after(phase: InstallPhase, event: InstallEvent) -> InstallPhase {
    match (phase, event) {
        (InstallPhase::FastCheck, InstallEvent::Published(true)) => InstallPhase::Complete,
        (InstallPhase::FastCheck, InstallEvent::Published(false)) => InstallPhase::Locking,
        (InstallPhase::Locking, InstallEvent::LockAcquired) => InstallPhase::Recheck,
        (InstallPhase::Recheck, InstallEvent::Published(true)) => InstallPhase::Complete,
        (InstallPhase::Recheck, InstallEvent::Published(false)) => InstallPhase::Clearing,
        (InstallPhase::Clearing, InstallEvent::StagingCleared) => InstallPhase::Installing,
        (InstallPhase::Installing, InstallEvent::InstallFinished(true)) => InstallPhase::Publishing,
        (InstallPhase::Publishing, InstallEvent::PublishFinished(true)) => InstallPhase::Complete,
        (InstallPhase::RollingBack, _) => InstallPhase::Failed,
        _ => InstallPhase::RollingBack,
    }
}

/// The action the engine hands out on an event: each action's paths are
/// pinned down through their character sequences.
pub open spec fn spec_action_ok(
    act: InstallAction,
    app: App,
    home: Seq<char>,
    phase: InstallPhase,
    event: InstallEvent,
) -> bool {
    let install = spec_install_path(home, app.name@, app.version@);
    let staging = spec_internal_install_path(home, app.name@, app.version@);
    match (phase, event) {
        (InstallPhase::FastCheck, InstallEvent::Published(true)) => act is Finish,
        (InstallPhase::FastCheck, InstallEvent::Published(false)) => act matches
            InstallAction::AcquireLock(p) && p@ == spec_lock_path(home, app.name@, app.version@),
        (InstallPhase::Locking, InstallEvent::LockAcquired) => act matches
            InstallAction::CheckPublished(p) && p@ == install,
        (InstallPhase::Recheck, InstallEvent::Published(true)) => act is Finish,
        (InstallPhase::Recheck, InstallEvent::Published(false)) => act matches
            InstallAction::ClearStaging(p) && p@ == staging,
        (InstallPhase::Clearing, InstallEvent::StagingCleared) => act matches
            InstallAction::RunInstaller(p) && p@ == staging,
        (InstallPhase::Installing, InstallEvent::InstallFinished(true)) => if app.relocatable {
            act matches InstallAction::PublishRename(from, to) && from@ == staging && to@
                == install
        } else {
            act matches InstallAction::PublishSymlink(from, to) && from@ == staging && to@
                == install
        },
        (InstallPhase::Publishing, InstallEvent::PublishFinished(true)) => act is Finish,
        (InstallPhase::RollingBack, _) => act is Abort,
        _ => act matches InstallAction::Rollback(p) && p@ == spec_app_cache_dir(home, app.name@),
    }
}

/// The shape of an action, without its paths.
#[derive(Clone, Copy, PartialEq, Eq, Structural)]
pub enum ActionKind {
    KCheckPublished,
    KAcquireLock,
    KClearStaging,
    KRunInstaller,
    KPublishRename,
    KPublishSymlink,
    KRollback,
    KFinish,
    KAbort,
}

/// The shape of a concrete action.
pub open spec fn action_kind(act: InstallAction) -> ActionKind {
    match act {
        InstallAction::CheckPublished(_) => ActionKind::KCheckPublished,
        InstallAction::AcquireLock(_) => ActionKind::KAcquireLock,
        InstallAction::ClearStaging(_) => ActionKind::KClearStaging,
        InstallAction::RunInstaller(_) => ActionKind::KRunInstaller,
        InstallAction::PublishRename(_, _) => ActionKind::KPublishRename,
        InstallAction::PublishSymlink(_, _) => ActionKind::KPublishSymlink,
        InstallAction::Rollback(_) => ActionKind::KRollback,
        InstallAction::Finish => ActionKind::KFinish,
        InstallAction::Abort => ActionKind::KAbort,
    }
}

/// The shape of the action each transition hands out.
pub open spec fn spec_kind_after(
    phase: InstallPhase,
    event: InstallEvent,
    relocatable: bool,
) -> ActionKind {
    match (phase, event) {
        (InstallPhase::FastCheck, InstallEvent::Published(true)) => ActionKind::KFinish,
        (InstallPhase::FastCheck, InstallEvent::Published(false)) => ActionKind::KAcquireLock,
        (InstallPhase::Locking, InstallEvent::LockAcquired) => ActionKind::KCheckPublished,
        (InstallPhase::Recheck, InstallEvent::Published(true)) => ActionKind::KFinish,
        (InstallPhase::Recheck, InstallEvent::Published(false)) => ActionKind::KClearStaging,
        (InstallPhase::Clearing, InstallEvent::StagingCleared) => ActionKind::KRunInstaller,
        (InstallPhase::Installing, InstallEvent::InstallFinished(true)) => if relocatable {
            ActionKind::KPublishRename
        } else {
            ActionKind::KPublishSymlink
        },
        (InstallPhase::Publishing, InstallEvent::PublishFinished(true)) => ActionKind::KFinish,
        (InstallPhase::RollingBack, _) => ActionKind::KAbort,
        _ => ActionKind::KRollback,
    }
}

/// The per-key lock is held exactly in the phases between a successful
/// acquisition and the engine's closing action.
pub open spec fn lock_held(phase: InstallPhase) -> bool {
    match phase {
        InstallPhase::Recheck => true,
        InstallPhase::Clearing => true,
        InstallPhase::Installing => true,
        InstallPhase::Publishing => true,
        _ => false,
    }
}

impl App {
    /// Open an installation attempt: the engine first checks the
    /// published path without taking the lock.
    pub fn start_install(&self, home: &str) -> (r: (InstallPhase, InstallAction))
        ensures
            r.0 is FastCheck,
            r.1 matches InstallAction::CheckPublished(p) && p@ == spec_install_path(
                home@,
                self.name@,
                self.version@,
            ),
    {
        let path = self.get_install_path(home);
        (InstallPhase::FastCheck, InstallAction::CheckPublished(path))
    }

    /// One engine step: from the phase the attempt is in and the outcome
    /// of the last performed action, decide the next phase and action.
    pub fn ensure_installed(&self, home: &str, phase: InstallPhase, event: InstallEvent) -> (r: (
        InstallPhase,
        InstallAction,
    ))
        requires
            event_fits(phase, event),
        ensures
            r.0 == spec_phase_after(phase, event),
            spec_action_ok(r.1, *self, home@, phase, event),
            action_kind(r.1) == spec_kind_after(phase, event, self.relocatable),
    {
        match (phase, event) {
            (InstallPhase::FastCheck, InstallEvent::Published(true)) => (
                InstallPhase::Complete,
                InstallAction::Finish,
            ),
            (InstallPhase::FastCheck, InstallEvent::Published(false)) => {
                let install = self.get_install_path(home);
                let lock = concat2(install.as_str(), ".lock");
                (InstallPhase::Locking, InstallAction::AcquireLock(lock))
            }
            (InstallPhase::Locking, InstallEvent::LockAcquired) => {
                let install = self.get_install_path(home);
                (InstallPhase::Recheck, InstallAction::CheckPublished(install))
            }
            (InstallPhase::Recheck, InstallEvent::Published(true)) => (
                InstallPhase::Complete,
                InstallAction::Finish,
            ),
            (InstallPhase::Recheck, InstallEvent::Published(false)) => {
                let staging = self.get_internal_install_path(home);
                (InstallPhase::Clearing, InstallAction::ClearStaging(staging))
            }
            (InstallPhase::Clearing, InstallEvent::StagingCleared) => {
                let staging = self.get_internal_install_path(home);
                (InstallPhase::Installing, InstallAction::RunInstaller(staging))
            }
            (InstallPhase::Installing, InstallEvent::InstallFinished(true)) => {
                let staging = self.get_internal_install_path(home);
                let install = self.get_install_path(home);
                if self.relocatable {
                    (InstallPhase::Publishing, InstallAction::PublishRename(staging, install))
                } else {
                    (InstallPhase::Publishing, InstallAction::PublishSymlink(staging, install))
                }
            }
            (InstallPhase::Publishing, InstallEvent::PublishFinished(true)) => (
                InstallPhase::Complete,
                InstallAction::Finish,
            ),
            (InstallPhase::RollingBack, _) => (InstallPhase::Failed, InstallAction::Abort),
            _ => {
                let cache = crate::files::get_ozy_cache_dir(home);
                let app_dir = crate::files::path_join(cache.as_str(), self.name.as_str());
                (InstallPhase::RollingBack, InstallAction::Rollback(app_dir))
            }
        }
    }
}

/// One recorded engine step of an attempt.
pub ghost struct InstallStep {
    /// The phase the step answered.
    pub pre: InstallPhase,
    /// The event that answered it.
    pub event: InstallEvent,
    /// The phase the engine moved to.
    pub post: InstallPhase,
    /// The action the engine handed out.
    pub action: InstallAction,
}

/// A faithful record of one attempt: it starts at the lock-free check,
/// each step answers the phase before it with a fitting event and obeys
/// the transition function, and consecutive steps chain.
pub open spec fn valid_trace(tr: Seq<InstallStep>, app: App, home: Seq<char>) -> bool {
    &&& tr.len() > 0 ==> tr[0].pre is FastCheck
    &&& forall|i: int| 0 <= i < tr.len() ==> event_fits(
        (#[trigger] tr[i]).pre,
        tr[i].event,
    ) && tr[i].post == spec_phase_after(tr[i].pre, tr[i].event) && spec_action_ok(
        tr[i].action,
        app,
        home,
        tr[i].pre,
        tr[i].event,
    ) && action_kind(tr[i].action) == spec_kind_after(tr[i].pre, tr[i].event, app.relocatable)
    &&& forall|i: int| 0 < i < tr.len() ==> (#[trigger] tr[i]).pre == tr[i - 1].post
}

/// Each phase's position along the attempt: every transition moves
/// strictly forward, so no phase is ever revisited.
pub open spec fn phase_rank(phase: InstallPhase) -> int {
    match phase {
        InstallPhase::FastCheck => 0,
        InstallPhase::Locking => 1,
        InstallPhase::Recheck => 2,
        InstallPhase::Clearing => 3,
        InstallPhase::Installing => 4,
        InstallPhase::Publishing => 5,
        InstallPhase::RollingBack => 6,
        InstallPhase::Complete => 7,
        InstallPhase::Failed => 8,
    }
}

/// Every step of a valid trace strictly increases the phase rank.
pub proof fn lemma_step_increases_rank(tr: Seq<InstallStep>, app: App, home: Seq<char>, i: int)
    requires
        valid_trace(tr, app, home),
        0 <= i < tr.len(),
    ensures
        phase_rank(tr[i].post) > phase_rank(tr[i].pre),
{
}

/// Later steps of a valid trace answer strictly later phases.
pub proof fn lemma_rank_monotone(tr: Seq<InstallStep>, app: App, home: Seq<char>, i: int, j: int)
    requires
        valid_trace(tr, app, home),
        0 <= i < j < tr.len(),
    ensures
        phase_rank(tr[j].pre) > phase_rank(tr[i].pre),
    decreases j - i,
{
    lemma_step_increases_rank(tr, app, home, i);
    if j == i + 1 {
        assert(tr[j].pre == tr[i].post);
    } else {
        lemma_rank_monotone(tr, app, home, i + 1, j);
        assert(tr[i + 1].pre == tr[i].post);
    }
}

/// In one attempt the installer runs at most once, and only from the
/// clearing phase, which holds the cross-process lock.
#[verifier::rlimit(100)]
pub proof fn lemma_installer_runs_at_most_once(tr: Seq<InstallStep>, app: App, home: Seq<char>)
    requires
        valid_trace(tr, app, home),
    ensures
        forall|i: int| 0 <= i < tr.len() && (#[trigger] tr[i]).action is RunInstaller ==> tr[i].pre
            is Clearing && lock_held(tr[i].pre),
        forall|i: int, j: int| 0 <= i < j < tr.len() ==> !((#[trigger] tr[i]).action
            is RunInstaller && (#[trigger] tr[j]).action is RunInstaller),
{
    assert forall|i: int| 0 <= i < tr.len() && (#[trigger] tr[i]).action is RunInstaller
        implies tr[i].pre is Clearing && lock_held(tr[i].pre) by {
        assert(action_kind(tr[i].action) == ActionKind::KRunInstaller);
        assert(spec_kind_after(tr[i].pre, tr[i].event, app.relocatable)
            == ActionKind::KRunInstaller);
    }
    assert forall|i: int, j: int| 0 <= i < j < tr.len() implies !((#[trigger] tr[i]).action
        is RunInstaller && (#[trigger] tr[j]).action is RunInstaller) by {
        if tr[i].action is RunInstaller && tr[j].action is RunInstaller {
            assert(tr[i].pre is Clearing && tr[j].pre is Clearing);
            lemma_rank_monotone(tr, app, home, i, j);
        }
    }
}

/// The installer runs only after the re-check under the lock saw nothing
/// published.
pub proof fn lemma_installer_runs_after_recheck(
    tr: Seq<InstallStep>,
    app: App,
    home: Seq<char>,
    i: int,
)
    requires
        valid_trace(tr, app, home),
        0 <= i < tr.len(),
        tr[i].action is RunInstaller,
    ensures
        exists|j: int| 0 <= j < i && (#[trigger] tr[j]).pre is Recheck && tr[j].event
            == InstallEvent::Published(false),
{
    assert(tr[i].pre is Clearing);
    assert(i > 0);
    assert(tr[i - 1].post is Clearing);
    assert(tr[i - 1].pre is Recheck && tr[i - 1].event == InstallEvent::Published(false));
}

/// A failed installer run is never followed, or preceded, by a
/// publication action: the attempt that saw the failure rolls back and
/// the published path is never created by it.
#[verifier::rlimit(100)]
pub proof fn lemma_failure_never_published(
    tr: Seq<InstallStep>,
    app: App,
    home: Seq<char>,
    i: int,
)
    requires
        valid_trace(tr, app, home),
        0 <= i < tr.len(),
        tr[i].event == InstallEvent::InstallFinished(false),
    ensures
        forall|j: int| 0 <= j < tr.len() ==> !((#[trigger] tr[j]).action is PublishRename || tr[j].action
            is PublishSymlink),
        tr[i].action is Rollback,
{
    assert(tr[i].pre is Installing);
    assert(action_kind(tr[i].action) == ActionKind::KRollback);
    assert forall|j: int| 0 <= j < tr.len() implies !((#[trigger] tr[j]).action is PublishRename
        || tr[j].action is PublishSymlink) by {
        if tr[j].action is PublishRename || tr[j].action is PublishSymlink {
            assert(spec_kind_after(tr[j].pre, tr[j].event, app.relocatable)
                == ActionKind::KPublishRename || spec_kind_after(tr[j].pre, tr[j].event, app.relocatable)
                == ActionKind::KPublishSymlink);
            assert(tr[j].pre is Installing);
            assert(j != i);
            if i < j {
                lemma_rank_monotone(tr, app, home, i, j);
            } else {
                lemma_rank_monotone(tr, app, home, j, i);
            }
        }
    }
}

/// How an installed tree is published follows the relocatable flag: a
/// relocatable tree is renamed into place, any other is symlinked to
/// from the published path.
pub proof fn lemma_publish_mode_follows_relocatable(
    tr: Seq<InstallStep>,
    app: App,
    home: Seq<char>,
    i: int,
)
    requires
        valid_trace(tr, app, home),
        0 <= i < tr.len(),
        tr[i].event == InstallEvent::InstallFinished(true),
    ensures
        app.relocatable ==> tr[i].action is PublishRename,
        !app.relocatable ==> tr[i].action is PublishSymlink,
{
    assert(tr[i].pre is Installing);
    assert(spec_action_ok(tr[i].action, app, home, tr[i].pre, tr[i].event));
}

} // verus!
