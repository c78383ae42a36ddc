use fbksd_core::ci::{parse_project_id, CIConfig, CIEnv, CIError, CIFile, CIProjInclude, ProjectInfo};
use fbksd_core::system_config::SystemConfig;

fn system() -> SystemConfig {
    SystemConfig {
        max_num_workspaces: 3,
        unpublished_days_limit: 1,
        spps: vec![2, 4, 8],
        configs: vec![
            (String::from("config"), String::from("fbksd-ci:old")),
            (String::from("default"), String::from("fbksd-ci:latest")),
        ],
        mailer_smtp_domain: String::new(),
        mailer_email_user: String::new(),
        mailer_email_password: String::new(),
        mailer_polling_rate: 20,
        mailer_timeout: 120,
    }
}

fn entry(file: &str) -> CIProjInclude {
    CIProjInclude {
        project: String::from("fbksd/fbksd_ci_config"),
        git_ref: String::from("master"),
        file: String::from(file),
    }
}

fn env() -> CIEnv {
    CIEnv {
        project_id: Some(String::from("42")),
        commit_sha: Some(String::from("abc1234")),
        user_email: Some(String::from("u@x")),
        token: Some(String::from("t")),
    }
}

fn error_of(file: CIFile) -> CIError {
    CIConfig::load(file, &system()).unwrap_err()
}

#[test]
fn the_include_selects_the_image() {
    let config = CIConfig::load(CIFile::Parsed(vec![entry("/default.yml")]), &system()).unwrap();
    assert_eq!(config.docker_img(), "fbksd-ci:latest");
    let config = CIConfig::load(CIFile::Parsed(vec![entry("/config.yml")]), &system()).unwrap();
    assert_eq!(config.docker_img(), "fbksd-ci:old");
}

#[test]
fn two_includes_are_a_bad_config() {
    let file = CIFile::Parsed(vec![entry("/default.yml"), entry("/config.yml")]);
    assert_eq!(error_of(file), CIError::BadCIConfig);
    assert_eq!(error_of(CIFile::Parsed(vec![])), CIError::BadCIConfig);
}

#[test]
fn an_unknown_include_file_has_no_image() {
    assert_eq!(
        error_of(CIFile::Parsed(vec![entry("/other.yml")])),
        CIError::CIConfigImageNotFound
    );
    assert_eq!(
        error_of(CIFile::Parsed(vec![entry("default.yml")])),
        CIError::CIConfigImageNotFound
    );
    assert_eq!(
        error_of(CIFile::Parsed(vec![entry("/default.yaml")])),
        CIError::CIConfigImageNotFound
    );
    assert_eq!(error_of(CIFile::Parsed(vec![entry("/")])), CIError::CIConfigImageNotFound);
}

#[test]
fn the_include_has_to_name_the_project_and_the_branch() {
    let mut other = entry("/default.yml");
    other.project = String::from("someone/else");
    assert_eq!(error_of(CIFile::Parsed(vec![other])), CIError::CIConfigMissingInclude);
    let mut branch = entry("/default.yml");
    branch.git_ref = String::from("dev");
    assert_eq!(error_of(CIFile::Parsed(vec![branch])), CIError::CIConfigMissingInclude);
}

#[test]
fn a_missing_or_unreadable_file_is_told_apart() {
    assert_eq!(error_of(CIFile::Missing), CIError::CIConfigNotFound);
    assert_eq!(error_of(CIFile::Malformed), CIError::Unspecified);
}

#[test]
fn the_job_is_put_together_from_the_environment() {
    let info =
        ProjectInfo::load(env(), CIFile::Parsed(vec![entry("/default.yml")]), &system()).unwrap();
    assert_eq!(info.id, 42);
    assert_eq!(info.commit_sha, "abc1234");
    assert_eq!(info.user_email, "u@x");
    assert_eq!(info.token, "t");
    assert_eq!(info.docker_img, "fbksd-ci:latest");
}

#[test]
fn each_missing_variable_is_named() {
    let file = || CIFile::Parsed(vec![entry("/default.yml")]);
    let mut e = env();
    e.token = None;
    assert_eq!(
        ProjectInfo::load(e, file(), &system()).unwrap_err(),
        CIError::MissingEnvVar(String::from("FBKSD_TOKEN"))
    );
    let mut e = env();
    e.user_email = None;
    assert_eq!(
        ProjectInfo::load(e, file(), &system()).unwrap_err(),
        CIError::MissingEnvVar(String::from("GITLAB_USER_EMAIL"))
    );
    let mut e = env();
    e.commit_sha = None;
    e.token = None;
    assert_eq!(
        ProjectInfo::load(e, file(), &system()).unwrap_err(),
        CIError::MissingEnvVar(String::from("CI_COMMIT_SHORT_SHA"))
    );
    let mut e = env();
    e.project_id = None;
    assert_eq!(
        ProjectInfo::load(e, CIFile::Missing, &system()).unwrap_err(),
        CIError::MissingEnvVar(String::from("CI_PROJECT_ID"))
    );
}

#[test]
fn the_project_id_is_a_positive_integer() {
    let mut e = env();
    e.project_id = Some(String::from("0"));
    assert_eq!(
        ProjectInfo::load(e, CIFile::Missing, &system()).unwrap_err(),
        CIError::InvalidID
    );
    assert_eq!(parse_project_id("42"), Some(42));
    assert_eq!(parse_project_id("007"), Some(7));
    assert_eq!(parse_project_id("2147483647"), Some(2147483647));
    assert_eq!(parse_project_id("2147483648"), None);
    assert_eq!(parse_project_id("99999999999999999999"), None);
    assert_eq!(parse_project_id(""), None);
    assert_eq!(parse_project_id("-1"), None);
    assert_eq!(parse_project_id("+1"), None);
    assert_eq!(parse_project_id("4 2"), None);
    assert_eq!(parse_project_id("12a"), None);
    assert_eq!(parse_project_id("0"), None);
}

#[test]
fn a_bad_config_comes_after_a_bad_id() {
    let mut e = env();
    e.project_id = Some(String::from("x"));
    assert_eq!(
        ProjectInfo::load(e, CIFile::Missing, &system()).unwrap_err(),
        CIError::InvalidID
    );
    assert_eq!(
        ProjectInfo::load(env(), CIFile::Missing, &system()).unwrap_err(),
        CIError::CIConfigNotFound
    );
}

#[test]
fn ci_errors_have_their_texts() {
    assert_eq!(
        CIError::MissingEnvVar(String::from("X")).message(),
        "missing CI environment variable: X"
    );
    assert_eq!(CIError::CIConfigNotFound.message(), "\".gitlab-ci.yml\" file not found");
    assert_eq!(
        CIError::CIConfigMissingInclude.message(),
        "\".gitlab-ci.yml\" file missing correct \"include\" statement"
    );
    assert_eq!(
        CIError::CIConfigImageNotFound.message(),
        "config in \".gitlab-ci.yml\" was not found"
    );
    assert_eq!(CIError::BadCIConfig.message(), "bad \".gitlab-ci.yml\" format");
    assert_eq!(CIError::Unspecified.message(), "unspecified error");
    assert_eq!(CIError::InvalidID.message(), "the project id is not a positive integer");
}

#[test]
fn an_alias_is_looked_up_in_the_system_configuration() {
    let s = system();
    assert_eq!(s.image("default"), Some(&String::from("fbksd-ci:latest")));
    assert_eq!(s.image("nope"), None);
}
