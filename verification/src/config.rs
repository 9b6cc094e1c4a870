//! Layered configuration resolution: the partial remote records contributed
//! by the configuration sources are flattened in precedence order, a
//! blueprint is selected among them, and the command-line overrides are laid
//! field by field over the blueprint and the built-in defaults.

use vstd::prelude::*;

use crate::remote::{
    default_remote_view, from_partial_view, or_default, or_default_port, PartialRemote,
    PartialRemoteView, Remote, RemoteOpts, RemoteOptsView, RemoteView, DEFAULT_SSH_PORT,
};

verus! {

/// Mathematical image of the flattened configuration.
pub ghost struct ConfigView {
    pub remotes: Seq<RemoteView>,
}

/// The configured remotes of every source, flattened into one candidate
/// list in precedence order and completed against the built-in defaults.
pub struct Config {
    remotes: Vec<Remote>,
}

impl View for Config {
    type V = ConfigView;

    closed spec fn view(&self) -> ConfigView {
        ConfigView { remotes: self.remotes.deep_view() }
    }
}

/// One source's records, completed against the built-in defaults.
pub open spec fn completed(src: Seq<PartialRemoteView>) -> Seq<RemoteView> {
    src.map_values(|p: PartialRemoteView| from_partial_view(p))
}

/// The candidate list contributed by the sources from index `i` on:
/// earlier sources come first, and within a source declaration order is kept.
pub open spec fn flattened_from(sources: Seq<Seq<PartialRemoteView>>, i: int) -> Seq<RemoteView>
    decreases sources.len() - i,
{
    if i < 0 || i >= sources.len() {
        Seq::empty()
    } else {
        completed(sources[i]) + flattened_from(sources, i + 1)
    }
}

/// The full candidate list of an ordered set of configuration sources.
pub open spec fn flattened_view(sources: Seq<Seq<PartialRemoteView>>) -> Seq<RemoteView> {
    flattened_from(sources, 0)
}

/// The first candidate at or after index `i` whose name matches.
pub open spec fn find_named_from(rs: Seq<RemoteView>, name: Seq<char>, i: int) -> Option<
    RemoteView,
>
    decreases rs.len() - i,
{
    if i < 0 || i >= rs.len() {
        None
    } else if rs[i].name == name {
        Some(rs[i])
    } else {
        find_named_from(rs, name, i + 1)
    }
}

/// The first candidate whose name matches the selector.
pub open spec fn find_named(rs: Seq<RemoteView>, name: Seq<char>) -> Option<RemoteView> {
    find_named_from(rs, name, 0)
}

/// The blueprint: the configured remote selected before command-line
/// overrides are laid on top. With a name selector, the first candidate of
/// that name; without one, the first candidate of the list.
pub open spec fn blueprint_view(rs: Seq<RemoteView>, opts: RemoteOptsView) -> Option<RemoteView> {
    match opts.name {
        Some(n) => find_named(rs, n),
        None => if rs.len() > 0 {
            Some(rs[0])
        } else {
            None
        },
    }
}

/// Field-by-field overlay: the command-line value where present, else the
/// blueprint's value.
pub open spec fn merge_view(opts: RemoteOptsView, bp: RemoteView) -> RemoteView {
    RemoteView {
        name: or_default(opts.name, bp.name),
        host: or_default(opts.host, bp.host),
        user: match opts.user {
            Some(u) => Some(u),
            None => bp.user,
        },
        ssh_port: or_default_port(opts.ssh_port, bp.ssh_port),
        temp_dir: or_default(opts.temp_dir, bp.temp_dir),
        env_profile: match opts.env {
            Some(e) => Some(e),
            None => bp.env_profile,
        },
    }
}

/// A merged target is usable only with a non-empty host.
pub open spec fn checked_host(m: RemoteView) -> Option<RemoteView> {
    if m.host.len() > 0 {
        Some(m)
    } else {
        None
    }
}

/// The whole resolution: select a blueprint; where none is configured, a
/// command-line host synthesizes one equal to the built-in defaults; merge
/// the overrides over it; fail unless a non-empty host came out.
pub open spec fn resolve_view(rs: Seq<RemoteView>, opts: RemoteOptsView) -> Option<RemoteView> {
    match blueprint_view(rs, opts) {
        Some(bp) => checked_host(merge_view(opts, bp)),
        None => if opts.host.is_some() {
            checked_host(merge_view(opts, default_remote_view()))
        } else {
            None
        },
    }
}

proof fn lemma_find_named_member(rs: Seq<RemoteView>, name: Seq<char>, i: int)
    requires
        find_named_from(rs, name, i) is Some,
    ensures
        exists|k: int|
            i <= k < rs.len() && rs[k] == find_named_from(rs, name, i).unwrap() && rs[k].name
                == name,
    decreases rs.len() - i,
{
    if 0 <= i < rs.len() && rs[i].name != name {
        lemma_find_named_member(rs, name, i + 1);
    }
}

proof fn lemma_find_named_absent(rs: Seq<RemoteView>, name: Seq<char>, i: int)
    requires
        forall|j: int| i <= j < rs.len() ==> rs[j].name != name,
    ensures
        find_named_from(rs, name, i) is None,
    decreases rs.len() - i,
{
    if 0 <= i < rs.len() {
        lemma_find_named_absent(rs, name, i + 1);
    }
}

proof fn lemma_find_named_first(rs: Seq<RemoteView>, name: Seq<char>, i: int, k: int)
    requires
        0 <= i <= k < rs.len(),
        rs[k].name == name,
        forall|j: int| i <= j < k ==> rs[j].name != name,
    ensures
        find_named_from(rs, name, i) == Some(rs[k]),
    decreases rs.len() - i,
{
    if 0 <= i < rs.len() && i < k {
        lemma_find_named_first(rs, name, i + 1, k);
    }
}

/// Source-precedence law: the records of the first (highest-precedence)
/// source open the flattened candidate list, in declaration order, so an
/// unnamed selection always favours the earliest source that has a record.
pub proof fn lemma_source_precedence(sources: Seq<Seq<PartialRemoteView>>, j: int)
    requires
        sources.len() > 0,
        0 <= j < sources[0].len(),
    ensures
        flattened_view(sources).len() >= sources[0].len(),
        flattened_view(sources)[j] == from_partial_view(sources[0][j]),
{
}

/// Precedence law: for any field the command line supplies, a successful
/// resolution carries the command-line value, whatever any configuration
/// source said.
pub proof fn lemma_cli_precedence(rs: Seq<RemoteView>, opts: RemoteOptsView)
    requires
        resolve_view(rs, opts) is Some,
    ensures
        opts.name is Some ==> resolve_view(rs, opts).unwrap().name == opts.name.unwrap(),
        opts.host is Some ==> resolve_view(rs, opts).unwrap().host == opts.host.unwrap(),
        opts.user is Some ==> resolve_view(rs, opts).unwrap().user == opts.user,
        opts.ssh_port is Some ==> resolve_view(rs, opts).unwrap().ssh_port
            == opts.ssh_port.unwrap(),
        opts.temp_dir is Some ==> resolve_view(rs, opts).unwrap().temp_dir
            == opts.temp_dir.unwrap(),
        opts.env is Some ==> resolve_view(rs, opts).unwrap().env_profile == opts.env,
{
}

/// Default-fill law at the record level: a partial record that leaves a field
/// out is completed with the built-in default for that field.
pub proof fn lemma_partial_default_fill(p: PartialRemoteView)
    ensures
        p.ssh_port is None ==> from_partial_view(p).ssh_port == DEFAULT_SSH_PORT,
        p.temp_dir is None ==> from_partial_view(p).temp_dir == default_remote_view().temp_dir,
        p.name is None ==> from_partial_view(p).name == default_remote_view().name,
        p.host is None ==> from_partial_view(p).host == default_remote_view().host,
{
}

/// Default-fill law for resolution: where neither the command line nor any
/// candidate carries a port or a temporary directory of its own, a successful
/// resolution uses the built-in defaults for both.
pub proof fn lemma_default_fill(rs: Seq<RemoteView>, opts: RemoteOptsView)
    requires
        opts.ssh_port is None,
        opts.temp_dir is None,
        forall|i: int|
            0 <= i < rs.len() ==> rs[i].ssh_port == DEFAULT_SSH_PORT && rs[i].temp_dir
                == default_remote_view().temp_dir,
        resolve_view(rs, opts) is Some,
    ensures
        resolve_view(rs, opts).unwrap().ssh_port == DEFAULT_SSH_PORT,
        resolve_view(rs, opts).unwrap().temp_dir == default_remote_view().temp_dir,
{
    if opts.name is Some && find_named(rs, opts.name.unwrap()) is Some {
        lemma_find_named_member(rs, opts.name.unwrap(), 0);
    }
}

/// Named-selection law, positive half: selecting a name resolves through the
/// first candidate of that name; in particular, with no command-line host,
/// that candidate's host is used.
pub proof fn lemma_named_selection(rs: Seq<RemoteView>, opts: RemoteOptsView, k: int)
    requires
        opts.name is Some,
        opts.host is None,
        0 <= k < rs.len(),
        rs[k].name == opts.name.unwrap(),
        forall|j: int| 0 <= j < k ==> rs[j].name != opts.name.unwrap(),
        rs[k].host.len() > 0,
    ensures
        resolve_view(rs, opts) is Some,
        resolve_view(rs, opts).unwrap().host == rs[k].host,
{
    lemma_find_named_first(rs, opts.name.unwrap(), 0, k);
}

/// Named-selection law, negative half: a selector no candidate is named by,
/// with no command-line host, resolves to nothing.
pub proof fn lemma_unknown_name_not_found(rs: Seq<RemoteView>, opts: RemoteOptsView)
    requires
        opts.name is Some,
        opts.host is None,
        forall|j: int| 0 <= j < rs.len() ==> rs[j].name != opts.name.unwrap(),
    ensures
        resolve_view(rs, opts) is None,
{
    lemma_find_named_absent(rs, opts.name.unwrap(), 0);
}

/// No-remote law: with no configured candidate and no command-line host,
/// resolution yields nothing at all.
pub proof fn lemma_no_remote_not_found(rs: Seq<RemoteView>, opts: RemoteOptsView)
    requires
        rs.len() == 0,
        opts.host is None,
    ensures
        resolve_view(rs, opts) is None,
{
    if opts.name is Some {
        lemma_find_named_absent(rs, opts.name.unwrap(), 0);
    }
}

/// No-remote law, second half: whatever comes out of resolution has a
/// non-empty host, so every target the session runner sees is usable.
pub proof fn lemma_resolved_host_nonempty(rs: Seq<RemoteView>, opts: RemoteOptsView)
    ensures
        resolve_view(rs, opts) is Some ==> resolve_view(rs, opts).unwrap().host.len() > 0,
{
}

/// Finds the index of the first remote with the given name.
fn find_named_exec(remotes: &Vec<Remote>, name: &String) -> (r: Option<usize>)
    ensures
        match r {
            Some(i) => i < remotes@.len() && find_named(remotes.deep_view(), name@) == Some(
                remotes.deep_view()[i as int],
            ),
            None => find_named(remotes.deep_view(), name@) is None,
        },
{
    let mut k: usize = 0;
    while k < remotes.len()
        invariant
            k <= remotes@.len(),
            find_named(remotes.deep_view(), name@) == find_named_from(
                remotes.deep_view(),
                name@,
                k as int,
            ),
        decreases remotes@.len() - k,
    {
        if remotes[k].name == *name {
            return Some(k);
        }
        k += 1;
    }
    None
}

impl Config {
    /// Flattens the configured remotes of every source into one candidate
    /// list, earlier (higher-precedence) sources first, completing each
    /// partial record against the built-in defaults.
    pub fn from_sources(sources: &Vec<Vec<PartialRemote>>) -> (c: Config)
        ensures
            c@.remotes == flattened_view(sources.deep_view()),
    {
        let ghost sv = sources.deep_view();
        let mut remotes: Vec<Remote> = Vec::new();
        let mut i: usize = 0;
        while i < sources.len()
            invariant
                sv == sources.deep_view(),
                i <= sources@.len(),
                sv.len() == sources@.len(),
                flattened_view(sv) == remotes.deep_view() + flattened_from(sv, i as int),
            decreases sources@.len() - i,
        {
            let src = &sources[i];
            let ghost before = remotes.deep_view();
            let mut j: usize = 0;
            while j < src.len()
                invariant
                    sv == sources.deep_view(),
                    i < sources@.len(),
                    sv.len() == sources@.len(),
                    src == &sources[i as int],
                    j <= src@.len(),
                    remotes.deep_view() =~= before + completed(src.deep_view()).take(j as int),
                decreases src@.len() - j,
            {
                let r = Remote::from_partial(&src[j]);
                let ghost rv = r@;
                let ghost prev = remotes.deep_view();
                remotes.push(r);
                proof {
                    assert(src.deep_view()[j as int] == src@[j as int]@);
                    assert(rv == completed(src.deep_view())[j as int]);
                    assert(remotes.deep_view() =~= prev.push(rv));
                    assert(completed(src.deep_view()).take(j + 1) =~= completed(
                        src.deep_view(),
                    ).take(j as int).push(rv));
                    assert(prev.push(rv) =~= before + completed(src.deep_view()).take(j + 1));
                }
                j += 1;
            }
            proof {
                assert(completed(src.deep_view()).take(src@.len() as int) =~= completed(
                    src.deep_view(),
                ));
                assert(sv[i as int] == src.deep_view());
                assert(flattened_from(sv, i as int) == completed(sv[i as int]) + flattened_from(
                    sv,
                    i + 1,
                ));
                assert(remotes.deep_view() + flattened_from(sv, i + 1) =~= before + (completed(
                    sv[i as int],
                ) + flattened_from(sv, i + 1)));
            }
            i += 1;
        }
        proof {
            assert(flattened_from(sv, sv.len() as int) =~= Seq::<RemoteView>::empty());
            assert(remotes.deep_view() + Seq::<RemoteView>::empty() =~= remotes.deep_view());
        }
        Config { remotes }
    }

    /// Resolves the single concrete remote target of a session: the
    /// command-line overrides laid over the selected blueprint, over the
    /// built-in defaults. `None` exactly when no usable host comes out.
    pub fn get_remote(&self, opts: &RemoteOpts) -> (r: Option<Remote>)
        ensures
            r.deep_view() == resolve_view(self@.remotes, opts@),
    {
        let ghost rs = self@.remotes;
        let config_remote: Option<Remote> = match &opts.name {
            Some(n) => match find_named_exec(&self.remotes, n) {
                Some(i) => Some(self.remotes[i].clone()),
                None => None,
            },
            None => if self.remotes.len() > 0 {
                Some(self.remotes[0].clone())
            } else {
                None
            },
        };
        proof {
            assert(config_remote.deep_view() == blueprint_view(rs, opts@));
        }
        let bp: Remote = match config_remote {
            Some(r) => r,
            None => {
                if opts.host.is_some() {
                    Remote::default()
                } else {
                    return None;
                }
            },
        };
        let merged = Remote {
            name: match &opts.name {
                Some(n) => n.clone(),
                None => bp.name,
            },
            host: match &opts.host {
                Some(h) => h.clone(),
                None => bp.host,
            },
            user: match &opts.user {
                Some(u) => Some(u.clone()),
                None => bp.user,
            },
            ssh_port: match opts.ssh_port {
                Some(p) => p,
                None => bp.ssh_port,
            },
            temp_dir: match &opts.temp_dir {
                Some(t) => t.clone(),
                None => bp.temp_dir,
            },
            env_profile: match &opts.env {
                Some(e) => Some(e.clone()),
                None => bp.env_profile,
            },
        };
        if merged.host.as_str().is_empty() {
            None
        } else {
            Some(merged)
        }
    }
}

} // verus!
