use cargo_remote::config::Config;
use cargo_remote::remote::{PartialRemote, Remote, RemoteOpts};

fn partial(name: Option<&str>, host: Option<&str>, port: Option<u16>) -> PartialRemote {
    PartialRemote {
        name: name.map(String::from),
        host: host.map(String::from),
        user: None,
        ssh_port: port,
        temp_dir: None,
        env_profile: None,
    }
}

fn no_opts() -> RemoteOpts {
    RemoteOpts {
        name: None,
        host: None,
        user: None,
        ssh_port: None,
        temp_dir: None,
        env: None,
    }
}

#[test]
fn cli_port_overrides_config_port() {
    let sources = vec![vec![partial(Some("a"), Some("h1"), Some(2200))]];
    let conf = Config::from_sources(&sources);
    let mut opts = no_opts();
    opts.ssh_port = Some(22);
    let r = conf.get_remote(&opts).expect("a configured remote resolves");
    assert_eq!(r.ssh_port, 22);
    assert_eq!(r.host, "h1");
}

#[test]
fn absent_fields_take_builtin_defaults() {
    let sources = vec![vec![partial(None, Some("box"), None)]];
    let conf = Config::from_sources(&sources);
    let r = conf.get_remote(&no_opts()).expect("a configured remote resolves");
    assert_eq!(r.ssh_port, 22);
    assert_eq!(r.temp_dir, "~/remote-builds");
    assert_eq!(r.name, "");
    assert_eq!(r.host, "box");
    assert_eq!(r.user, None);
    assert_eq!(r.env_profile, None);
}

#[test]
fn named_selection_picks_matching_remote() {
    let sources = vec![vec![
        partial(Some("a"), Some("h1"), None),
        partial(Some("b"), Some("h2"), None),
    ]];
    let conf = Config::from_sources(&sources);

    let mut opts = no_opts();
    opts.name = Some(String::from("a"));
    assert_eq!(conf.get_remote(&opts).unwrap().host, "h1");

    opts.name = Some(String::from("b"));
    assert_eq!(conf.get_remote(&opts).unwrap().host, "h2");
}

#[test]
fn unknown_name_without_cli_host_is_not_found() {
    let sources = vec![vec![
        partial(Some("a"), Some("h1"), None),
        partial(Some("b"), Some("h2"), None),
    ]];
    let conf = Config::from_sources(&sources);
    let mut opts = no_opts();
    opts.name = Some(String::from("c"));
    assert!(conf.get_remote(&opts).is_none());
}

#[test]
fn empty_sources_and_empty_cli_are_not_found() {
    let conf = Config::from_sources(&Vec::new());
    assert!(conf.get_remote(&no_opts()).is_none());
}

#[test]
fn cli_host_alone_synthesizes_default_backed_target() {
    let conf = Config::from_sources(&Vec::new());
    let mut opts = no_opts();
    opts.host = Some(String::from("adhoc"));
    let r = conf.get_remote(&opts).expect("a CLI host is sufficient");
    assert_eq!(r.host, "adhoc");
    assert_eq!(r.ssh_port, 22);
    assert_eq!(r.temp_dir, "~/remote-builds");
}

#[test]
fn unnamed_selection_takes_first_candidate_across_sources() {
    let project_local = vec![partial(Some("p"), Some("project-box"), None)];
    let user_global = vec![partial(Some("g"), Some("global-box"), None)];
    let conf = Config::from_sources(&vec![project_local, user_global]);
    let r = conf.get_remote(&no_opts()).unwrap();
    assert_eq!(r.host, "project-box");
}

#[test]
fn hostless_candidate_without_cli_host_is_not_found() {
    let sources = vec![vec![partial(Some("a"), None, Some(2200))]];
    let conf = Config::from_sources(&sources);
    let mut opts = no_opts();
    opts.name = Some(String::from("a"));
    assert!(conf.get_remote(&opts).is_none());
}

#[test]
fn hostless_candidate_with_cli_host_resolves() {
    let sources = vec![vec![partial(Some("a"), None, Some(2200))]];
    let conf = Config::from_sources(&sources);
    let mut opts = no_opts();
    opts.name = Some(String::from("a"));
    opts.host = Some(String::from("h"));
    let r = conf.get_remote(&opts).unwrap();
    assert_eq!(r.host, "h");
    assert_eq!(r.ssh_port, 2200);
}

#[test]
fn every_cli_field_wins_over_config() {
    let sources = vec![vec![PartialRemote {
        name: Some(String::from("a")),
        host: Some(String::from("h1")),
        user: Some(String::from("carol")),
        ssh_port: Some(2200),
        temp_dir: Some(String::from("/srv/builds")),
        env_profile: Some(String::from("/etc/profile")),
    }]];
    let conf = Config::from_sources(&sources);
    let opts = RemoteOpts {
        name: Some(String::from("a")),
        host: Some(String::from("h9")),
        user: Some(String::from("dan")),
        ssh_port: Some(9),
        temp_dir: Some(String::from("/tmp/builds")),
        env: Some(String::from("/home/dan/.profile")),
    };
    let r = conf.get_remote(&opts).unwrap();
    assert_eq!(r.name, "a");
    assert_eq!(r.host, "h9");
    assert_eq!(r.user.as_deref(), Some("dan"));
    assert_eq!(r.ssh_port, 9);
    assert_eq!(r.temp_dir, "/tmp/builds");
    assert_eq!(r.env_profile.as_deref(), Some("/home/dan/.profile"));
}

#[test]
fn from_partial_fills_every_absent_field() {
    let r = Remote::from_partial(&partial(None, None, None));
    assert_eq!(r.name, "");
    assert_eq!(r.host, "");
    assert_eq!(r.ssh_port, 22);
    assert_eq!(r.temp_dir, "~/remote-builds");
}

#[test]
fn duplicate_names_resolve_to_the_higher_precedence_source() {
    // Two sources both define a remote named "a": the earlier
    // (project-local) source wins.
    let project_local = vec![partial(Some("a"), Some("h-local"), None)];
    let user_global = vec![partial(Some("a"), Some("h-global"), None)];
    let conf = Config::from_sources(&vec![project_local, user_global]);
    let mut opts = no_opts();
    opts.name = Some(String::from("a"));
    assert_eq!(conf.get_remote(&opts).unwrap().host, "h-local");
}
