use fbksd_core::docker::Docker;

#[test]
fn test_run() {
    let args = Docker::new("fbksd-ci").run_args("fbksd", &["--version"]);
    assert_eq!(
        args,
        vec!["run", "--gpus", "all", "--network", "", "fbksd-ci", "fbksd", "--version"]
    );
}
