//! Transfer planning: each file transfer of a session is first written down
//! as a fully specified sync plan — source, destination, exclude patterns and
//! transfer flags — and only then carried out by the external file-sync
//! capability.

use vstd::prelude::*;

use crate::remote::{connection_string, connection_view, Remote, RemoteView};

verus! {

/// Mathematical image of a sync plan.
pub ghost struct SyncPlanView {
    pub source: Seq<char>,
    pub dest: Seq<char>,
    pub excludes: Seq<Seq<char>>,
    pub mirror: bool,
    pub compress: bool,
    pub port: u16,
    pub remote_pre_command: Option<Seq<char>>,
    pub progress: bool,
}

/// One fully specified file transfer. `mirror` asks for mirror semantics:
/// files absent from the source are deleted at the destination. The optional
/// remote pre-command runs as the remote-side half of the sync, so that
/// nested destination directories exist before the transfer proper.
pub struct SyncPlan {
    pub source: String,
    pub dest: String,
    pub excludes: Vec<String>,
    pub mirror: bool,
    pub compress: bool,
    pub port: u16,
    pub remote_pre_command: Option<String>,
    pub progress: bool,
}

impl View for SyncPlan {
    type V = SyncPlanView;

    open spec fn view(&self) -> SyncPlanView {
        SyncPlanView {
            source: self.source.deep_view(),
            dest: self.dest.deep_view(),
            excludes: self.excludes.deep_view(),
            mirror: self.mirror,
            compress: self.compress,
            port: self.port,
            remote_pre_command: self.remote_pre_command.deep_view(),
            progress: self.progress,
        }
    }
}

/// The outbound exclude patterns: always the build-output directory; the
/// dotfile pattern too unless hidden files were asked for.
pub open spec fn outbound_excludes(transfer_hidden: bool) -> Seq<Seq<char>> {
    if transfer_hidden {
        seq!["target"@]
    } else {
        seq!["target"@, ".*"@]
    }
}

/// The outbound plan: the project root's contents (trailing-slash semantics)
/// mirrored to the remote workspace root, the temporary directory created
/// first by the remote pre-command.
pub open spec fn outbound_plan_view(
    t: RemoteView,
    project_root: Seq<char>,
    build_path: Seq<char>,
    transfer_hidden: bool,
) -> SyncPlanView {
    SyncPlanView {
        source: project_root + "/"@,
        dest: connection_view(t) + ":"@ + build_path,
        excludes: outbound_excludes(transfer_hidden),
        mirror: true,
        compress: true,
        port: t.ssh_port,
        remote_pre_command: Some("mkdir -p "@ + t.temp_dir + " && rsync"@),
        progress: true,
    }
}

/// Plans the outbound transfer of the project sources to the build server.
pub fn outbound_plan(
    target: &Remote,
    project_root: &str,
    build_path: &str,
    transfer_hidden: bool,
) -> (p: SyncPlan)
    ensures
        p@ == outbound_plan_view(target@, project_root@, build_path@, transfer_hidden),
{
    let mut source = String::from_str(project_root);
    source.append("/");
    let mut dest = connection_string(target);
    dest.append(":");
    dest.append(build_path);
    let mut excludes: Vec<String> = Vec::new();
    excludes.push(String::from_str("target"));
    if !transfer_hidden {
        excludes.push(String::from_str(".*"));
    }
    proof {
        assert(excludes.deep_view() =~= outbound_excludes(transfer_hidden));
    }
    let mut pre = String::from_str("mkdir -p ");
    pre.append(target.temp_dir.as_str());
    pre.append(" && rsync");
    SyncPlan {
        source,
        dest,
        excludes,
        mirror: true,
        compress: true,
        port: target.ssh_port,
        remote_pre_command: Some(pre),
        progress: true,
    }
}

/// The path tail of an artifact transfer: the build-output directory, further
/// qualified by the requested file where one was named.
pub open spec fn artifact_tail(file_name: Option<Seq<char>>) -> Seq<char> {
    match file_name {
        Some(f) => "/target/"@ + f,
        None => "/target/"@,
    }
}

/// The artifact-retrieval plan: the remote workspace's build-output directory
/// back to the local one. With no file named the whole directory is mirrored;
/// a single named file is only overwritten or created.
pub open spec fn artifact_plan_view(
    t: RemoteView,
    remote_workspace: Seq<char>,
    local_workspace: Seq<char>,
    file_name: Option<Seq<char>>,
) -> SyncPlanView {
    SyncPlanView {
        source: connection_view(t) + ":"@ + remote_workspace + artifact_tail(file_name),
        dest: local_workspace + artifact_tail(file_name),
        excludes: Seq::empty(),
        mirror: file_name is None,
        compress: true,
        port: t.ssh_port,
        remote_pre_command: None,
        progress: true,
    }
}

/// Plans the retrieval of build artifacts from the build server.
pub fn artifact_plan(
    target: &Remote,
    remote_workspace: &str,
    local_workspace: &str,
    file_name: &Option<String>,
) -> (p: SyncPlan)
    ensures
        p@ == artifact_plan_view(
            target@,
            remote_workspace@,
            local_workspace@,
            file_name.deep_view(),
        ),
{
    let mut source = connection_string(target);
    source.append(":");
    source.append(remote_workspace);
    source.append("/target/");
    let mut dest = String::from_str(local_workspace);
    dest.append("/target/");
    let mirror: bool = match file_name {
        Some(f) => {
            source.append(f.as_str());
            dest.append(f.as_str());
            false
        },
        None => true,
    };
    proof {
        assert(source@ =~= connection_view(target@) + ":"@ + remote_workspace@ + artifact_tail(
            file_name.deep_view(),
        ));
        assert(dest@ =~= local_workspace@ + artifact_tail(file_name.deep_view()));
    }
    let excludes: Vec<String> = Vec::new();
    proof {
        assert(excludes.deep_view() =~= Seq::<Seq<char>>::empty());
    }
    SyncPlan {
        source,
        dest,
        excludes,
        mirror,
        compress: true,
        port: target.ssh_port,
        remote_pre_command: None,
        progress: true,
    }
}

/// The lock-file retrieval plan: the remote workspace's lock file back to the
/// local workspace's lock file.
pub open spec fn lock_plan_view(
    t: RemoteView,
    remote_workspace: Seq<char>,
    local_workspace: Seq<char>,
) -> SyncPlanView {
    SyncPlanView {
        source: connection_view(t) + ":"@ + remote_workspace + "/Cargo.lock"@,
        dest: local_workspace + "/Cargo.lock"@,
        excludes: Seq::empty(),
        mirror: true,
        compress: true,
        port: t.ssh_port,
        remote_pre_command: None,
        progress: true,
    }
}

/// Plans the retrieval of the lock file from the build server.
pub fn lock_plan(target: &Remote, remote_workspace: &str, local_workspace: &str) -> (p: SyncPlan)
    ensures
        p@ == lock_plan_view(target@, remote_workspace@, local_workspace@),
{
    let mut source = connection_string(target);
    source.append(":");
    source.append(remote_workspace);
    source.append("/Cargo.lock");
    let mut dest = String::from_str(local_workspace);
    dest.append("/Cargo.lock");
    let excludes: Vec<String> = Vec::new();
    proof {
        assert(excludes.deep_view() =~= Seq::<Seq<char>>::empty());
    }
    SyncPlan {
        source,
        dest,
        excludes,
        mirror: true,
        compress: true,
        port: target.ssh_port,
        remote_pre_command: None,
        progress: true,
    }
}

/// Hidden-file law: the dotfile pattern stands among the outbound excludes
/// exactly when hidden files were not asked for, and the build-output
/// directory is excluded either way.
pub proof fn lemma_hidden_toggle(transfer_hidden: bool)
    ensures
        outbound_excludes(transfer_hidden).contains(".*"@) <==> !transfer_hidden,
        outbound_excludes(transfer_hidden).contains("target"@),
{
    reveal_strlit(".*");
    reveal_strlit("target");
    assert(outbound_excludes(transfer_hidden)[0] == "target"@);
    if !transfer_hidden {
        assert(outbound_excludes(false)[1] == ".*"@);
    }
}

} // verus!
