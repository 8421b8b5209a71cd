use dirsync::cli::CliRunner;

#[test]
fn empty_registry_selects_nothing() {
    let runner = CliRunner::new();
    assert_eq!(runner.select_command(&String::from("backup")), None);
}

#[test]
fn selection_folds_the_raw_name_to_lower_case() {
    let mut runner = CliRunner::new();
    runner.register_command("deploy");
    runner.register_command("backup");
    assert_eq!(runner.select_command(&String::from("DEPLOY")), Some(0));
    assert_eq!(runner.select_command(&String::from("Backup")), Some(1));
    assert_eq!(runner.select_command(&String::from("backup")), Some(1));
}

#[test]
fn names_lists_registrations_in_order() {
    let mut runner = CliRunner::new();
    runner.register_command("deploy");
    runner.register_command("backup");
    assert_eq!(runner.names(), &vec![String::from("deploy"), String::from("backup")]);
}

#[test]
fn unknown_name_selects_nothing() {
    let mut runner = CliRunner::new();
    runner.register_command("deploy");
    assert_eq!(runner.select_command(&String::from("restore")), None);
}
