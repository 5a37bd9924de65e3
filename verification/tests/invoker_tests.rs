use wdk_build::invoker::{
    CompileOutcome, build_compiler_args, compile_outcome, compiler_override_variable,
    default_compiler_path, descriptor_file_name, resolve_compiler_path,
};

#[test]
fn include_paths_render_in_order_with_descriptor_last() {
    let paths = vec!["C:\\inc1".to_owned(), "C:\\inc2".to_owned()];
    let args = build_compiler_args(&paths);
    assert_eq!(args, vec!["/I C:\\inc1", "/I C:\\inc2", "resources.rc"]);
}

#[test]
fn no_include_paths_leaves_only_the_descriptor() {
    let args = build_compiler_args(&Vec::new());
    assert_eq!(args, vec!["resources.rc"]);
}

#[test]
fn descriptor_file_name_is_fixed() {
    assert_eq!(descriptor_file_name(), "resources.rc");
}

#[test]
fn override_variable_is_fixed() {
    assert_eq!(compiler_override_variable(), "PATH_TO_RC");
}

#[test]
fn environment_override_wins_over_fallback() {
    let resolved = resolve_compiler_path(Some("C:\\tools\\rc.exe".to_owned()), default_compiler_path());
    assert_eq!(resolved, "C:\\tools\\rc.exe");
}

#[test]
fn missing_override_falls_back() {
    let resolved = resolve_compiler_path(None, default_compiler_path());
    assert_eq!(
        resolved,
        "D:\\EWDK\\content\\Program Files\\Windows Kits\\10\\bin\\10.0.22621.0\\x86\\rc.exe"
    );
}

#[test]
fn successful_exit_does_not_terminate_the_build() {
    assert_eq!(compile_outcome(Some(true)), CompileOutcome::Success);
}

#[test]
fn failing_exit_terminates_the_build() {
    assert_eq!(compile_outcome(Some(false)), CompileOutcome::CompilerFailed);
}

#[test]
fn spawn_failure_terminates_the_build() {
    assert_eq!(compile_outcome(None), CompileOutcome::SpawnFailed);
}
