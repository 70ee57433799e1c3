use cmake_reconfigure::invocation::InvocationArgs;
use cmake_reconfigure::plan::is_existing_directory;
use cmake_reconfigure::plan::plan_reconfigure;

fn invocation(build_directory: &str, trailing: &[&str]) -> InvocationArgs {
    InvocationArgs {
        build_directory: build_directory.to_string(),
        trailing_args: trailing.iter().map(|s| s.to_string()).collect(),
    }
}

#[test]
fn named_flag_sets_directory() {
    let plan = plan_reconfigure(&invocation("/tmp/build", &[]));
    assert_eq!(plan.build_directory, "/tmp/build");
    assert_eq!(plan.cache_file, "/tmp/build/CMakeCache.txt");
    assert_eq!(plan.command_args, vec!["-B".to_string(), "/tmp/build".to_string()]);
}

#[test]
fn no_arguments_defaults_to_current_directory() {
    let plan = plan_reconfigure(&invocation(".", &[]));
    assert_eq!(plan.build_directory, ".");
    assert_eq!(plan.cache_file, "./CMakeCache.txt");
    assert_eq!(plan.command_args, vec!["-B".to_string(), ".".to_string()]);
}

#[test]
fn trailing_flag_overrides_named_option() {
    let plan = plan_reconfigure(&invocation(".", &["--foo", "-B", "/tmp/other", "bar"]));
    assert_eq!(plan.build_directory, "/tmp/other");
    assert_eq!(plan.cache_file, "/tmp/other/CMakeCache.txt");
    assert_eq!(
        plan.command_args,
        vec![
            "-B".to_string(),
            "/tmp/other".to_string(),
            "--foo".to_string(),
            "-B".to_string(),
            "/tmp/other".to_string(),
            "bar".to_string(),
        ]
    );
}

#[test]
fn trailing_flag_without_value_keeps_named_option() {
    let plan = plan_reconfigure(&invocation("/tmp/build", &["fast", "-B"]));
    assert_eq!(plan.build_directory, "/tmp/build");
    assert_eq!(
        plan.command_args,
        vec![
            "-B".to_string(),
            "/tmp/build".to_string(),
            "fast".to_string(),
            "-B".to_string(),
        ]
    );
}

#[test]
fn first_trailing_flag_occurrence_wins() {
    let plan = plan_reconfigure(&invocation(".", &["-B", "/tmp/a", "-B", "/tmp/b"]));
    assert_eq!(plan.build_directory, "/tmp/a");
}

#[test]
fn trailing_arguments_pass_through_in_order() {
    let trailing = ["--target", "install", "-DFOO=bar", "--", "-v"];
    let plan = plan_reconfigure(&invocation("build", &trailing));
    assert_eq!(plan.command_args.len(), 2 + trailing.len());
    for (i, t) in trailing.iter().enumerate() {
        assert_eq!(plan.command_args[2 + i], *t);
    }
}

#[test]
fn deletion_targets_cache_when_directory_exists() {
    let plan = plan_reconfigure(&invocation("/tmp/build", &[]));
    assert_eq!(
        plan.cache_deletion_target(true),
        Some("/tmp/build/CMakeCache.txt".to_string())
    );
}

#[test]
fn no_deletion_when_directory_is_missing() {
    let plan = plan_reconfigure(&invocation("/tmp/build", &[]));
    assert_eq!(plan.cache_deletion_target(false), None);
}

#[test]
fn current_directory_is_an_existing_directory() {
    assert!(is_existing_directory("."));
}

#[test]
fn missing_path_is_no_directory() {
    assert!(!is_existing_directory("/no/such/directory/anywhere"));
}

#[test]
fn file_path_is_no_directory() {
    assert!(!is_existing_directory("/dev/null"));
}
