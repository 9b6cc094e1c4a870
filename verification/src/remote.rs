//! The remote target model: the connection and working-directory profile of
//! one build server, the partial records that configuration sources contribute,
//! and the command-line overrides laid over them.

use vstd::prelude::*;

verus! {

/// Built-in default SSH port of a remote target.
pub const DEFAULT_SSH_PORT: u16 = 22;

/// Mathematical image of a concrete remote target.
pub ghost struct RemoteView {
    pub name: Seq<char>,
    pub host: Seq<char>,
    pub user: Option<Seq<char>>,
    pub ssh_port: u16,
    pub temp_dir: Seq<char>,
    pub env_profile: Option<Seq<char>>,
}

/// One build server: where to connect and where to place build workspaces.
/// A target handed to the session runner must have a non-empty `host`;
/// the resolver guarantees that of everything it returns.
pub struct Remote {
    /// Identifier used to select among several configured remotes; empty when unnamed.
    pub name: String,
    /// Connection string; it may itself carry a login, as in `user@host`.
    pub host: String,
    /// Separate login identity, combined with `host` into the connection string.
    pub user: Option<String>,
    /// Port the transport connects to.
    pub ssh_port: u16,
    /// Base remote directory under which build workspaces are placed.
    pub temp_dir: String,
    /// Remote shell-environment file sourced before the build command runs.
    pub env_profile: Option<String>,
}

/// Mathematical image of a partial remote record.
pub ghost struct PartialRemoteView {
    pub name: Option<Seq<char>>,
    pub host: Option<Seq<char>>,
    pub user: Option<Seq<char>>,
    pub ssh_port: Option<u16>,
    pub temp_dir: Option<Seq<char>>,
    pub env_profile: Option<Seq<char>>,
}

/// One record of a configuration source. Every field is optional: records are
/// merge inputs, never executed directly.
pub struct PartialRemote {
    pub name: Option<String>,
    pub host: Option<String>,
    pub user: Option<String>,
    pub ssh_port: Option<u16>,
    pub temp_dir: Option<String>,
    pub env_profile: Option<String>,
}

/// Mathematical image of the command-line overrides.
pub ghost struct RemoteOptsView {
    pub name: Option<Seq<char>>,
    pub host: Option<Seq<char>>,
    pub user: Option<Seq<char>>,
    pub ssh_port: Option<u16>,
    pub temp_dir: Option<Seq<char>>,
    pub env: Option<Seq<char>>,
}

/// The remote-target fields a user may supply on the command line, plus the
/// selection fields: `name` picks a configured remote, `host` can synthesize
/// one where no configured remote matches.
pub struct RemoteOpts {
    pub name: Option<String>,
    pub host: Option<String>,
    pub user: Option<String>,
    pub ssh_port: Option<u16>,
    pub temp_dir: Option<String>,
    pub env: Option<String>,
}

impl View for Remote {
    type V = RemoteView;

    open spec fn view(&self) -> RemoteView {
        RemoteView {
            name: self.name.deep_view(),
            host: self.host.deep_view(),
            user: self.user.deep_view(),
            ssh_port: self.ssh_port,
            temp_dir: self.temp_dir.deep_view(),
            env_profile: self.env_profile.deep_view(),
        }
    }
}

impl DeepView for Remote {
    type V = RemoteView;

    open spec fn deep_view(&self) -> RemoteView {
        self.view()
    }
}

impl View for PartialRemote {
    type V = PartialRemoteView;

    open spec fn view(&self) -> PartialRemoteView {
        PartialRemoteView {
            name: self.name.deep_view(),
            host: self.host.deep_view(),
            user: self.user.deep_view(),
            ssh_port: self.ssh_port,
            temp_dir: self.temp_dir.deep_view(),
            env_profile: self.env_profile.deep_view(),
        }
    }
}

impl DeepView for PartialRemote {
    type V = PartialRemoteView;

    open spec fn deep_view(&self) -> PartialRemoteView {
        self.view()
    }
}

impl View for RemoteOpts {
    type V = RemoteOptsView;

    open spec fn view(&self) -> RemoteOptsView {
        RemoteOptsView {
            name: self.name.deep_view(),
            host: self.host.deep_view(),
            user: self.user.deep_view(),
            ssh_port: self.ssh_port,
            temp_dir: self.temp_dir.deep_view(),
            env: self.env.deep_view(),
        }
    }
}

/// The built-in defaults: the lowest-precedence layer of resolution. Its
/// `host` is empty, so the defaults alone never name a usable target.
pub open spec fn default_remote_view() -> RemoteView {
    RemoteView {
        name: Seq::empty(),
        host: Seq::empty(),
        user: None,
        ssh_port: DEFAULT_SSH_PORT,
        temp_dir: "~/remote-builds"@,
        env_profile: None,
    }
}

impl Default for Remote {
    /// The built-in default remote target.
    fn default() -> (r: Remote)
        ensures
            r@ == default_remote_view(),
    {
        Remote {
            name: String::new(),
            host: String::new(),
            user: None,
            ssh_port: DEFAULT_SSH_PORT,
            temp_dir: String::from_str("~/remote-builds"),
            env_profile: None,
        }
    }
}

impl Clone for Remote {
    fn clone(&self) -> (r: Remote)
        ensures
            r@ == self@,
    {
        Remote {
            name: self.name.clone(),
            host: self.host.clone(),
            user: clone_opt(&self.user),
            ssh_port: self.ssh_port,
            temp_dir: self.temp_dir.clone(),
            env_profile: clone_opt(&self.env_profile),
        }
    }
}

/// Clones an optional string, keeping its contents.
pub fn clone_opt(o: &Option<String>) -> (r: Option<String>)
    ensures
        r.deep_view() == o.deep_view(),
{
    match o {
        Some(s) => Some(s.clone()),
        None => None,
    }
}

/// A partial record completed against the built-in defaults: each absent
/// field takes the default value.
pub open spec fn from_partial_view(p: PartialRemoteView) -> RemoteView {
    RemoteView {
        name: or_default(p.name, default_remote_view().name),
        host: or_default(p.host, default_remote_view().host),
        user: p.user,
        ssh_port: or_default_port(p.ssh_port, DEFAULT_SSH_PORT),
        temp_dir: or_default(p.temp_dir, default_remote_view().temp_dir),
        env_profile: p.env_profile,
    }
}

/// An optional field's value where present, else the fallback.
pub open spec fn or_default(o: Option<Seq<char>>, d: Seq<char>) -> Seq<char> {
    match o {
        Some(s) => s,
        None => d,
    }
}

/// An optional port where present, else the fallback.
pub open spec fn or_default_port(o: Option<u16>, d: u16) -> u16 {
    match o {
        Some(p) => p,
        None => d,
    }
}

impl Remote {
    /// Completes a partial configuration record: absent fields take the
    /// built-in defaults.
    pub fn from_partial(p: &PartialRemote) -> (r: Remote)
        ensures
            r@ == from_partial_view(p@),
    {
        let d = Remote::default();
        Remote {
            name: match &p.name {
                Some(n) => n.clone(),
                None => d.name,
            },
            host: match &p.host {
                Some(h) => h.clone(),
                None => d.host,
            },
            user: clone_opt(&p.user),
            ssh_port: match p.ssh_port {
                Some(s) => s,
                None => d.ssh_port,
            },
            temp_dir: match &p.temp_dir {
                Some(t) => t.clone(),
                None => d.temp_dir,
            },
            env_profile: clone_opt(&p.env_profile),
        }
    }
}

/// The connection string the transport is given: the separate login identity
/// joined to the host when one is set, the bare host otherwise.
pub open spec fn connection_view(r: RemoteView) -> Seq<char> {
    match r.user {
        Some(u) => u + "@"@ + r.host,
        None => r.host,
    }
}

/// Builds the connection string of a remote target.
pub fn connection_string(r: &Remote) -> (s: String)
    ensures
        s@ == connection_view(r@),
{
    match &r.user {
        Some(u) => {
            let mut s = u.clone();
            s.append("@");
            s.append(r.host.as_str());
            s
        },
        None => r.host.clone(),
    }
}

} // verus!
