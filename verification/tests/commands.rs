use dirsync::command::sync_directory;
use dirsync::config::{parse_config, parse_destination, DestinationSpec, UsageError};
use dirsync::orchestrator::plan_startup;

#[test]
fn local_invocation_has_no_secure_shell() {
    let source = String::from("/a/");
    let destination = String::from("/b/");
    let inv = sync_directory(&source, &destination, None);
    assert!(inv.mkdir_command.is_none());
    assert_eq!(
        inv.sync_command,
        "rsync -aP --delete --exclude='/.git' --filter=\"dir-merge,- .syncignore\" /a/ /b/"
    );
}

#[test]
fn remote_invocation_wraps_in_secure_shell() {
    let source = String::from("/a/");
    let destination = String::from("user@host:/b/");
    let key = String::from("/home/me/.ssh/id_ed25519");
    let inv = sync_directory(&source, &destination, Some(&key));
    assert_eq!(
        inv.mkdir_command.as_deref(),
        Some("ssh -n -o StrictHostKeyChecking=no -i /home/me/.ssh/id_ed25519 user@host 'mkdir -p /b/'")
    );
    assert_eq!(
        inv.sync_command,
        "rsync -aP --delete --exclude='/.git' --filter=\"dir-merge,- .syncignore\" -e \"ssh -i /home/me/.ssh/id_ed25519 -o StrictHostKeyChecking=no\" /a/ user@host:/b/"
    );
}

#[test]
fn remote_invocation_without_key_leaves_clause_empty() {
    let source = String::from("/a/");
    let destination = String::from("user@host:/b/");
    let inv = sync_directory(&source, &destination, None);
    assert_eq!(
        inv.mkdir_command.as_deref(),
        Some("ssh -n -o StrictHostKeyChecking=no  user@host 'mkdir -p /b/'")
    );
    assert_eq!(
        inv.sync_command,
        "rsync -aP --delete --exclude='/.git' --filter=\"dir-merge,- .syncignore\" -e \"ssh  -o StrictHostKeyChecking=no\" /a/ user@host:/b/"
    );
}

#[test]
fn destination_with_colon_is_remote() {
    match parse_destination(&String::from("user@host:/b/")) {
        DestinationSpec::Remote { user_host, remote_path } => {
            assert_eq!(user_host, "user@host");
            assert_eq!(remote_path, "/b/");
        },
        DestinationSpec::Local { .. } => panic!("expected a remote destination"),
    }
}

#[test]
fn remote_path_keeps_everything_after_the_separator() {
    match parse_destination(&String::from("user@host:/b/:c")) {
        DestinationSpec::Remote { user_host, remote_path } => {
            assert_eq!(user_host, "user@host");
            assert_eq!(remote_path, "/b/:c");
        },
        DestinationSpec::Local { .. } => panic!("expected a remote destination"),
    }
}

#[test]
fn non_ascii_address_splits_by_characters() {
    match parse_destination(&String::from("usér@höst:/bücher/")) {
        DestinationSpec::Remote { user_host, remote_path } => {
            assert_eq!(user_host, "usér@höst");
            assert_eq!(remote_path, "/bücher/");
        },
        DestinationSpec::Local { .. } => panic!("expected a remote destination"),
    }
}

#[test]
fn plain_path_is_local() {
    match parse_destination(&String::from("/b/")) {
        DestinationSpec::Local { path } => assert_eq!(path, "/b/"),
        DestinationSpec::Remote { .. } => panic!("expected a local destination"),
    }
}

#[test]
fn drive_style_prefix_is_local() {
    match parse_destination(&String::from("C:/data")) {
        DestinationSpec::Local { path } => assert_eq!(path, "C:/data"),
        DestinationSpec::Remote { .. } => panic!("expected a local destination"),
    }
}

#[test]
fn empty_destination_is_local() {
    match parse_destination(&String::new()) {
        DestinationSpec::Local { path } => assert_eq!(path, ""),
        DestinationSpec::Remote { .. } => panic!("expected a local destination"),
    }
}

#[test]
fn single_letter_drive_prefix_is_local() {
    match parse_destination(&String::from("a:b")) {
        DestinationSpec::Local { path } => assert_eq!(path, "a:b"),
        DestinationSpec::Remote { .. } => panic!("expected a local destination"),
    }
}

#[test]
fn two_letter_prefix_before_colon_is_remote() {
    match parse_destination(&String::from("ab:c")) {
        DestinationSpec::Remote { user_host, remote_path } => {
            assert_eq!(user_host, "ab");
            assert_eq!(remote_path, "c");
        },
        DestinationSpec::Local { .. } => panic!("expected a remote destination"),
    }
}

#[test]
fn two_arguments_configure_without_credential() {
    let args = vec![String::from("/a/"), String::from("/b/")];
    let config = parse_config(&args).unwrap();
    assert_eq!(config.source_path, "/a/");
    assert!(config.credential_path.is_none());
    match config.destination_spec {
        DestinationSpec::Local { path } => assert_eq!(path, "/b/"),
        DestinationSpec::Remote { .. } => panic!("expected a local destination"),
    }
}

#[test]
fn third_argument_is_the_credential_path() {
    let args = vec![
        String::from("/a/"),
        String::from("user@host:/b/"),
        String::from("/home/me/.ssh/id_ed25519"),
    ];
    let config = parse_config(&args).unwrap();
    assert_eq!(config.credential_path.as_deref(), Some("/home/me/.ssh/id_ed25519"));
}

#[test]
fn too_few_arguments_is_a_usage_error() {
    let args = vec![String::from("/a/")];
    let err = parse_config(&args).unwrap_err();
    assert_eq!(err, UsageError::NotEnoughParameters);
    assert_eq!(err.message(), "Error: not enough parameters.");
    assert!(plan_startup(&args).is_err());
    assert!(plan_startup(&Vec::new()).is_err());
}

#[test]
fn startup_plans_exactly_one_full_sync() {
    let args = vec![String::from("/a/"), String::from("/b/")];
    let plan = plan_startup(&args).unwrap();
    assert!(plan.initial_sync.mkdir_command.is_none());
    assert_eq!(
        plan.initial_sync.sync_command,
        "rsync -aP --delete --exclude='/.git' --filter=\"dir-merge,- .syncignore\" /a/ /b/"
    );
    assert_eq!(plan.config.source_path, "/a/");
}

#[test]
fn remote_startup_plans_the_pre_step_first() {
    let args = vec![
        String::from("/a/"),
        String::from("user@host:/b/"),
        String::from("/home/me/.ssh/id_ed25519"),
    ];
    let plan = plan_startup(&args).unwrap();
    assert_eq!(
        plan.initial_sync.mkdir_command.as_deref(),
        Some("ssh -n -o StrictHostKeyChecking=no -i /home/me/.ssh/id_ed25519 user@host 'mkdir -p /b/'")
    );
}
