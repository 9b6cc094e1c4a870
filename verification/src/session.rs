//! The build session state machine: sync-out, remote execute, then the
//! requested retrievals, strictly in that order. The machine decides; the
//! surrounding binary performs each returned action through the external
//! file-sync and remote-shell capabilities and hands the child's exit code
//! back in as the next event. Each fatal phase failure maps to its own stable
//! exit code, and a remote build failure passes its exit code through once
//! the retrievals are done.

use vstd::prelude::*;

use crate::remote::{Remote, RemoteView};
use crate::workspace::{derived_path, join_under, joined_under, offset_of, path_offset};

verus! {

/// Exit code when a configuration source fails fatally.
pub const EXIT_CONFIG_FAILED: i32 = -3;

/// Exit code when no project is found or the working directory is not an
/// ancestor of the workspace root.
pub const EXIT_DISCOVERY_FAILED: i32 = -2;

/// Exit code when no remote build server is defined anywhere.
pub const EXIT_NO_REMOTE: i32 = 4;

/// Exit code when the outbound transfer fails.
pub const EXIT_SYNC_OUT_FAILED: i32 = -4;

/// Exit code when the remote shell itself cannot be launched.
pub const EXIT_REMOTE_LAUNCH_FAILED: i32 = -5;

/// Exit code when artifact retrieval fails.
pub const EXIT_ARTIFACT_RETRIEVAL_FAILED: i32 = -6;

/// Exit code when lock-file retrieval fails.
pub const EXIT_LOCK_RETRIEVAL_FAILED: i32 = -7;

/// Mathematical image of a build session.
pub ghost struct SessionView {
    pub project_root: Seq<char>,
    pub workspace_root: Seq<char>,
    pub workspace_offset: Seq<char>,
    pub remote_workspace_path: Seq<char>,
    pub remote_build_workspace: Seq<char>,
    pub resolved_target: RemoteView,
}

/// One build session: built once at startup, read-only thereafter. The
/// workspace root lies at the same relative offset under the project root
/// locally and under the derived workspace path remotely.
pub struct Session {
    /// Canonical local directory the sources are copied from.
    pub project_root: String,
    /// Local workspace root; artifacts and the lock file come back here.
    pub workspace_root: String,
    /// Relative path from the project root to the workspace root.
    pub workspace_offset: String,
    /// Derived remote directory the sources are copied to.
    pub remote_workspace_path: String,
    /// The workspace root's counterpart on the remote side.
    pub remote_build_workspace: String,
    /// The single concrete remote target in effect for this session.
    pub resolved_target: Remote,
}

impl View for Session {
    type V = SessionView;

    open spec fn view(&self) -> SessionView {
        SessionView {
            project_root: self.project_root.deep_view(),
            workspace_root: self.workspace_root.deep_view(),
            workspace_offset: self.workspace_offset.deep_view(),
            remote_workspace_path: self.remote_workspace_path.deep_view(),
            remote_build_workspace: self.remote_build_workspace.deep_view(),
            resolved_target: self.resolved_target@,
        }
    }
}

/// Well-formedness of a session: a usable target, a workspace root that
/// really lies under the project root, and remote paths derived from the
/// local ones.
pub open spec fn session_wf(s: SessionView) -> bool {
    &&& s.resolved_target.host.len() > 0
    &&& offset_of(s.project_root, s.workspace_root) == Some(s.workspace_offset)
    &&& s.remote_workspace_path == derived_path(s.project_root, s.resolved_target.temp_dir)
    &&& s.remote_build_workspace == joined_under(s.remote_workspace_path, s.workspace_offset)
}

impl Session {
    /// Builds the session for one invocation: derives the remote workspace
    /// from the canonical project root and the target's temporary directory,
    /// and places the workspace root at the same offset remotely. Nothing is
    /// built when the project root is not an ancestor of (or equal to) the
    /// workspace root.
    pub fn new(project_root: &str, workspace_root: &str, target: Remote) -> (r: Option<Session>)
        requires
            target@.host.len() > 0,
        ensures
            match r {
                Some(s) => {
                    &&& offset_of(project_root@, workspace_root@) is Some
                    &&& s@.project_root == project_root@
                    &&& s@.workspace_root == workspace_root@
                    &&& s@.workspace_offset == offset_of(project_root@, workspace_root@).unwrap()
                    &&& s@.resolved_target == target@
                    &&& session_wf(s@)
                },
                None => offset_of(project_root@, workspace_root@) is None,
            },
    {
        let offset = match path_offset(project_root, workspace_root) {
            Some(o) => o,
            None => {
                return None;
            },
        };
        let remote_workspace_path = crate::workspace::derive(project_root, target.temp_dir.as_str());
        let remote_build_workspace = join_under(remote_workspace_path.as_str(), offset.as_str());
        Some(
            Session {
                project_root: String::from_str(project_root),
                workspace_root: String::from_str(workspace_root),
                workspace_offset: offset,
                remote_workspace_path,
                remote_build_workspace,
                resolved_target: target,
            },
        )
    }
}

/// Which retrieval phases the user asked for: artifact copy-back is opt-in,
/// lock-file copy-back is opt-out.
#[derive(Clone, Copy, PartialEq, Eq, Structural, Debug)]
pub struct SessionFlags {
    pub copy_back: bool,
    pub copy_lock_back: bool,
}

/// The phases of a build session. `Building`, `RetrievingArtifacts` and
/// `RetrievingLock` remember the remote build's exit code so that it can be
/// passed through at the end.
#[derive(Clone, Copy, PartialEq, Eq, Structural, Debug)]
pub enum SessionState {
    Idle,
    SyncingOut,
    Building,
    RetrievingArtifacts { build_exit: i32 },
    RetrievingLock { build_exit: i32 },
    Done { build_exit: i32 },
    Aborted { exit_code: i32 },
}

/// What the surrounding binary is to do next: run one of the three external
/// operations, or terminate the process with the given code.
#[derive(Clone, Copy, PartialEq, Eq, Structural, Debug)]
pub enum SessionAction {
    RunSyncOut,
    RunRemoteBuild,
    RunArtifactRetrieval,
    RunLockRetrieval,
    Exit { code: i32 },
}

/// A session is over in `Done` and `Aborted` and nowhere else.
pub open spec fn is_terminal(s: SessionState) -> bool {
    s is Done || s is Aborted
}

/// The exit code a terminal state carries: the remote build's own code after
/// a completed session, the phase's fatal code after an abort.
pub open spec fn terminal_code(s: SessionState) -> i32 {
    match s {
        SessionState::Done { build_exit } => build_exit,
        SessionState::Aborted { exit_code } => exit_code,
        _ => 0,
    }
}

/// One transition of the session machine, on the exit code of the phase just
/// finished. A failed sync-out aborts before anything runs remotely; a failed
/// remote build still reaches the requested retrievals; a failed retrieval
/// aborts with its own code, overriding the pending build code.
pub open spec fn advance_view(s: SessionState, flags: SessionFlags, exit_code: i32) -> (
    SessionState,
    SessionAction,
) {
    match s {
        SessionState::Idle => (SessionState::SyncingOut, SessionAction::RunSyncOut),
        SessionState::SyncingOut => if exit_code != 0 {
            (
                SessionState::Aborted { exit_code: EXIT_SYNC_OUT_FAILED },
                SessionAction::Exit { code: EXIT_SYNC_OUT_FAILED },
            )
        } else {
            (SessionState::Building, SessionAction::RunRemoteBuild)
        },
        SessionState::Building => if flags.copy_back {
            (
                SessionState::RetrievingArtifacts { build_exit: exit_code },
                SessionAction::RunArtifactRetrieval,
            )
        } else if flags.copy_lock_back {
            (
                SessionState::RetrievingLock { build_exit: exit_code },
                SessionAction::RunLockRetrieval,
            )
        } else {
            (SessionState::Done { build_exit: exit_code }, SessionAction::Exit { code: exit_code })
        },
        SessionState::RetrievingArtifacts { build_exit } => if exit_code != 0 {
            (
                SessionState::Aborted { exit_code: EXIT_ARTIFACT_RETRIEVAL_FAILED },
                SessionAction::Exit { code: EXIT_ARTIFACT_RETRIEVAL_FAILED },
            )
        } else if flags.copy_lock_back {
            (SessionState::RetrievingLock { build_exit }, SessionAction::RunLockRetrieval)
        } else {
            (SessionState::Done { build_exit }, SessionAction::Exit { code: build_exit })
        },
        SessionState::RetrievingLock { build_exit } => if exit_code != 0 {
            (
                SessionState::Aborted { exit_code: EXIT_LOCK_RETRIEVAL_FAILED },
                SessionAction::Exit { code: EXIT_LOCK_RETRIEVAL_FAILED },
            )
        } else {
            (SessionState::Done { build_exit }, SessionAction::Exit { code: build_exit })
        },
        _ => (s, SessionAction::Exit { code: terminal_code(s) }),
    }
}

/// Opens a session: the first phase is always the outbound sync.
pub fn start() -> (r: (SessionState, SessionAction))
    ensures
        r == (SessionState::SyncingOut, SessionAction::RunSyncOut),
{
    (SessionState::SyncingOut, SessionAction::RunSyncOut)
}

/// Advances the session machine by one finished phase. A terminal state
/// stays where it is and asks only for its own exit.
pub fn advance(s: SessionState, flags: SessionFlags, exit_code: i32) -> (r: (
    SessionState,
    SessionAction,
))
    ensures
        r == advance_view(s, flags, exit_code),
{
    match s {
        SessionState::Idle => (SessionState::SyncingOut, SessionAction::RunSyncOut),
        SessionState::SyncingOut => if exit_code != 0 {
            (
                SessionState::Aborted { exit_code: EXIT_SYNC_OUT_FAILED },
                SessionAction::Exit { code: EXIT_SYNC_OUT_FAILED },
            )
        } else {
            (SessionState::Building, SessionAction::RunRemoteBuild)
        },
        SessionState::Building => if flags.copy_back {
            (
                SessionState::RetrievingArtifacts { build_exit: exit_code },
                SessionAction::RunArtifactRetrieval,
            )
        } else if flags.copy_lock_back {
            (
                SessionState::RetrievingLock { build_exit: exit_code },
                SessionAction::RunLockRetrieval,
            )
        } else {
            (SessionState::Done { build_exit: exit_code }, SessionAction::Exit { code: exit_code })
        },
        SessionState::RetrievingArtifacts { build_exit } => if exit_code != 0 {
            (
                SessionState::Aborted { exit_code: EXIT_ARTIFACT_RETRIEVAL_FAILED },
                SessionAction::Exit { code: EXIT_ARTIFACT_RETRIEVAL_FAILED },
            )
        } else if flags.copy_lock_back {
            (SessionState::RetrievingLock { build_exit }, SessionAction::RunLockRetrieval)
        } else {
            (SessionState::Done { build_exit }, SessionAction::Exit { code: build_exit })
        },
        SessionState::RetrievingLock { build_exit } => if exit_code != 0 {
            (
                SessionState::Aborted { exit_code: EXIT_LOCK_RETRIEVAL_FAILED },
                SessionAction::Exit { code: EXIT_LOCK_RETRIEVAL_FAILED },
            )
        } else {
            (SessionState::Done { build_exit }, SessionAction::Exit { code: build_exit })
        },
        SessionState::Done { build_exit } => (s, SessionAction::Exit { code: build_exit }),
        SessionState::Aborted { exit_code: code } => (s, SessionAction::Exit { code }),
    }
}

/// The terminal state and final action of a session in which the outbound
/// sync succeeded, the remote build exited with `build_code`, and every
/// requested retrieval succeeded.
pub open spec fn completed_session(flags: SessionFlags, build_code: i32) -> (
    SessionState,
    SessionAction,
) {
    let (after_sync, _) = advance_view(SessionState::SyncingOut, flags, 0);
    let (after_build, build_action) = advance_view(after_sync, flags, build_code);
    if after_build is RetrievingArtifacts {
        let (after_artifacts, artifact_action) = advance_view(after_build, flags, 0);
        if after_artifacts is RetrievingLock {
            advance_view(after_artifacts, flags, 0)
        } else {
            (after_artifacts, artifact_action)
        }
    } else if after_build is RetrievingLock {
        advance_view(after_build, flags, 0)
    } else {
        (after_build, build_action)
    }
}

/// A base command with arguments appended, each preceded by a single space,
/// with no quoting or escaping: the remote shell is responsible for
/// word-splitting.
pub open spec fn with_args(base: Seq<char>, args: Seq<Seq<char>>) -> Seq<char>
    decreases args.len(),
{
    if args.len() == 0 {
        base
    } else {
        with_args(base, args.drop_last()) + seq![' '] + args.last()
    }
}

/// The single remote command string of the build phase: source the
/// environment profile (if any), select the toolchain, change into the
/// remote workspace, set the build environment variables, and invoke the
/// build command with its arguments.
pub open spec fn remote_command_view(
    env_profile: Option<Seq<char>>,
    toolchain: Seq<char>,
    remote_workspace: Seq<char>,
    build_env: Seq<char>,
    command: Seq<char>,
    args: Seq<Seq<char>>,
) -> Seq<char> {
    let profile_part = match env_profile {
        Some(e) => "source "@ + e + "; "@,
        None => Seq::<char>::empty(),
    };
    with_args(
        profile_part + "rustup default "@ + toolchain + "; cd "@ + remote_workspace + "; "@
            + build_env + " cargo "@ + command,
        args,
    )
}

/// Builds the remote command string of the build phase.
pub fn remote_command(
    env_profile: &Option<String>,
    toolchain: &str,
    remote_workspace: &str,
    build_env: &str,
    command: &str,
    args: &Vec<String>,
) -> (s: String)
    ensures
        s@ == remote_command_view(
            env_profile.deep_view(),
            toolchain@,
            remote_workspace@,
            build_env@,
            command@,
            args.deep_view(),
        ),
{
    let mut s = match env_profile {
        Some(e) => {
            let mut p = String::from_str("source ");
            p.append(e.as_str());
            p.append("; ");
            p
        },
        None => String::new(),
    };
    s.append("rustup default ");
    s.append(toolchain);
    s.append("; cd ");
    s.append(remote_workspace);
    s.append("; ");
    s.append(build_env);
    s.append(" cargo ");
    s.append(command);
    let ghost base = s@;
    let mut i: usize = 0;
    while i < args.len()
        invariant
            i <= args@.len(),
            s@ == with_args(base, args.deep_view().take(i as int)),
        decreases args@.len() - i,
    {
        s.append(" ");
        s.append(args[i].as_str());
        proof {
            let dv = args.deep_view();
            reveal_strlit(" ");
            assert(" "@ =~= seq![' ']);
            assert(dv.take(i + 1).drop_last() =~= dv.take(i as int));
            assert(dv.take(i + 1).last() == dv[i as int]);
            assert(s@ =~= with_args(base, dv.take(i as int)) + seq![' '] + dv[i as int]);
        }
        i += 1;
    }
    proof {
        assert(args.deep_view().take(args@.len() as int) =~= args.deep_view());
    }
    proof {
        assert(base =~= remote_command_view(
            env_profile.deep_view(),
            toolchain@,
            remote_workspace@,
            build_env@,
            command@,
            Seq::<Seq<char>>::empty(),
        ));
    }
    s
}

/// Phase-ordering law: a failed outbound sync is fatal at once. The machine
/// moves to `Aborted` — a terminal state, so neither the remote build nor any
/// retrieval is ever started — and the process exits with the sync-out code.
pub proof fn lemma_sync_out_failure_aborts(flags: SessionFlags, exit_code: i32)
    requires
        exit_code != 0,
    ensures
        ({
            let (s, a) = advance_view(SessionState::SyncingOut, flags, exit_code);
            &&& s == (SessionState::Aborted { exit_code: EXIT_SYNC_OUT_FAILED })
            &&& a == (SessionAction::Exit { code: EXIT_SYNC_OUT_FAILED })
            &&& is_terminal(s)
        }),
{
}

/// Pass-through law: whatever exit code the remote build produced, a session
/// whose requested retrievals all succeed ends in `Done` and exits with
/// exactly that code — success and failure alike are passed through.
pub proof fn lemma_build_exit_pass_through(flags: SessionFlags, build_code: i32)
    ensures
        completed_session(flags, build_code) == (
            SessionState::Done { build_exit: build_code },
            SessionAction::Exit { code: build_code },
        ),
{
}

/// Retrieval-failure law: a failed retrieval aborts with that phase's own
/// code, overriding any pending remote-build code.
pub proof fn lemma_retrieval_failure_overrides(
    flags: SessionFlags,
    build_code: i32,
    retrieval_code: i32,
)
    requires
        retrieval_code != 0,
    ensures
        advance_view(
            SessionState::RetrievingArtifacts { build_exit: build_code },
            flags,
            retrieval_code,
        ) == (
            SessionState::Aborted { exit_code: EXIT_ARTIFACT_RETRIEVAL_FAILED },
            SessionAction::Exit { code: EXIT_ARTIFACT_RETRIEVAL_FAILED },
        ),
        advance_view(
            SessionState::RetrievingLock { build_exit: build_code },
            flags,
            retrieval_code,
        ) == (
            SessionState::Aborted { exit_code: EXIT_LOCK_RETRIEVAL_FAILED },
            SessionAction::Exit { code: EXIT_LOCK_RETRIEVAL_FAILED },
        ),
{
}

} // verus!
