use cargo_remote::plan::{artifact_plan, lock_plan, outbound_plan};
use cargo_remote::remote::{connection_string, Remote};

fn target() -> Remote {
    Remote {
        name: String::from("a"),
        host: String::from("builder"),
        user: None,
        ssh_port: 2222,
        temp_dir: String::from("~/remote-builds"),
        env_profile: None,
    }
}

#[test]
fn outbound_plan_shape() {
    let p = outbound_plan(&target(), "/home/alice/proj", "~/remote-builds/42", false);
    assert_eq!(p.source, "/home/alice/proj/");
    assert_eq!(p.dest, "builder:~/remote-builds/42");
    assert!(p.mirror);
    assert!(p.compress);
    assert!(p.progress);
    assert_eq!(p.port, 2222);
    assert_eq!(
        p.remote_pre_command.as_deref(),
        Some("mkdir -p ~/remote-builds && rsync")
    );
}

#[test]
fn dotfiles_excluded_unless_hidden_requested() {
    let without = outbound_plan(&target(), "/p", "/tmp/b", false);
    assert_eq!(without.excludes, vec!["target".to_string(), ".*".to_string()]);

    let with = outbound_plan(&target(), "/p", "/tmp/b", true);
    assert_eq!(with.excludes, vec!["target".to_string()]);
    assert!(!with.excludes.iter().any(|e| e == ".*"));
}

#[test]
fn artifact_plan_mirrors_whole_directory_without_file_name() {
    let p = artifact_plan(&target(), "/tmp/b/ws", "/home/alice/proj/ws", &None);
    assert_eq!(p.source, "builder:/tmp/b/ws/target/");
    assert_eq!(p.dest, "/home/alice/proj/ws/target/");
    assert!(p.mirror);
    assert!(p.excludes.is_empty());
    assert_eq!(p.remote_pre_command, None);
}

#[test]
fn artifact_plan_with_file_name_does_not_mirror() {
    let name = Some(String::from("app.tar"));
    let p = artifact_plan(&target(), "/tmp/b/ws", "/home/alice/proj/ws", &name);
    assert_eq!(p.source, "builder:/tmp/b/ws/target/app.tar");
    assert_eq!(p.dest, "/home/alice/proj/ws/target/app.tar");
    assert!(!p.mirror);
}

#[test]
fn lock_plan_shape() {
    let p = lock_plan(&target(), "/tmp/b/ws", "/home/alice/proj/ws");
    assert_eq!(p.source, "builder:/tmp/b/ws/Cargo.lock");
    assert_eq!(p.dest, "/home/alice/proj/ws/Cargo.lock");
    assert!(p.mirror);
    assert_eq!(p.port, 2222);
}

#[test]
fn connection_string_combines_user_and_host() {
    let mut t = target();
    assert_eq!(connection_string(&t), "builder");
    t.user = Some(String::from("carol"));
    assert_eq!(connection_string(&t), "carol@builder");
}
