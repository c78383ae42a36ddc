//! What the CI host tells about a job, and the rules that a technique's
//! `.gitlab-ci.yml` has to meet.

use crate::system_config::{config_views, image_of, SystemConfig};
use crate::text::{ends_with, same, starts_with};
use vstd::prelude::*;
use vstd::string::*;

verus! {

/// Why the CI context of a job is not accepted.
#[derive(Debug, PartialEq, Eq)]
pub enum CIError {
    /// The named environment variable is not set.
    MissingEnvVar(String),
    /// The project id is not a positive integer.
    InvalidID,
    CIConfigNotFound,
    CIConfigMissingInclude,
    CIConfigImageNotFound,
    BadCIConfig,
    Unspecified,
}

/// Mathematical content of a `CIError`.
pub ghost enum CIErrorView {
    MissingEnvVar(Seq<char>),
    InvalidID,
    CIConfigNotFound,
    CIConfigMissingInclude,
    CIConfigImageNotFound,
    BadCIConfig,
    Unspecified,
}

impl View for CIError {
    type V = CIErrorView;

    open spec fn view(&self) -> CIErrorView {
        match self {
            CIError::MissingEnvVar(name) => CIErrorView::MissingEnvVar(name@),
            CIError::InvalidID => CIErrorView::InvalidID,
            CIError::CIConfigNotFound => CIErrorView::CIConfigNotFound,
            CIError::CIConfigMissingInclude => CIErrorView::CIConfigMissingInclude,
            CIError::CIConfigImageNotFound => CIErrorView::CIConfigImageNotFound,
            CIError::BadCIConfig => CIErrorView::BadCIConfig,
            CIError::Unspecified => CIErrorView::Unspecified,
        }
    }
}

impl CIErrorView {
    /// The text shown to a user for this error.
    pub open spec fn message(self) -> Seq<char> {
        match self {
            CIErrorView::MissingEnvVar(name) => "missing CI environment variable: "@ + name,
            CIErrorView::InvalidID => "the project id is not a positive integer"@,
            CIErrorView::CIConfigNotFound => "\".gitlab-ci.yml\" file not found"@,
            CIErrorView::CIConfigMissingInclude =>
                "\".gitlab-ci.yml\" file missing correct \"include\" statement"@,
            CIErrorView::CIConfigImageNotFound => "config in \".gitlab-ci.yml\" was not found"@,
            CIErrorView::BadCIConfig => "bad \".gitlab-ci.yml\" format"@,
            CIErrorView::Unspecified => "unspecified error"@,
        }
    }
}

impl CIError {
    /// The text shown to a user for this error.
    pub fn message(&self) -> (text: String)
        ensures
            text@ == self@.message(),
    {
        match self {
            CIError::MissingEnvVar(name) => {
                let mut text = String::from_str("missing CI environment variable: ");
                text.append(name.as_str());
                text
            },
            CIError::InvalidID => String::from_str("the project id is not a positive integer"),
            CIError::CIConfigNotFound => String::from_str("\".gitlab-ci.yml\" file not found"),
            CIError::CIConfigMissingInclude => String::from_str(
                "\".gitlab-ci.yml\" file missing correct \"include\" statement",
            ),
            CIError::CIConfigImageNotFound => String::from_str(
                "config in \".gitlab-ci.yml\" was not found",
            ),
            CIError::BadCIConfig => String::from_str("bad \".gitlab-ci.yml\" format"),
            CIError::Unspecified => String::from_str("unspecified error"),
        }
    }
}

/// One `include` entry of a `.gitlab-ci.yml`.
#[derive(Debug)]
pub struct CIProjInclude {
    pub project: String,
    /// The branch, written `ref` in the file.
    pub git_ref: String,
    pub file: String,
}

/// Mathematical content of a `CIProjInclude`.
pub ghost struct CIProjIncludeView {
    pub project: Seq<char>,
    pub git_ref: Seq<char>,
    pub file: Seq<char>,
}

impl View for CIProjInclude {
    type V = CIProjIncludeView;

    open spec fn view(&self) -> CIProjIncludeView {
        CIProjIncludeView { project: self.project@, git_ref: self.git_ref@, file: self.file@ }
    }
}

/// The content of each include.
pub open spec fn include_views(list: Seq<CIProjInclude>) -> Seq<CIProjIncludeView> {
    list.map_values(|i: CIProjInclude| i@)
}

/// What reading a technique's `.gitlab-ci.yml` gave.
#[derive(Debug)]
pub enum CIFile {
    /// There is no such file.
    Missing,
    /// The file is not of the expected form.
    Malformed,
    /// The `include` entries of the file.
    Parsed(Vec<CIProjInclude>),
}

/// Mathematical content of a `CIFile`.
pub ghost enum CIFileView {
    Missing,
    Malformed,
    Parsed(Seq<CIProjIncludeView>),
}

impl View for CIFile {
    type V = CIFileView;

    open spec fn view(&self) -> CIFileView {
        match self {
            CIFile::Missing => CIFileView::Missing,
            CIFile::Malformed => CIFileView::Malformed,
            CIFile::Parsed(list) => CIFileView::Parsed(include_views(list@)),
        }
    }
}

/// The alias that an include file names: what stands between the leading `/` and the
/// trailing `.yml`, where the name has that form.
pub open spec fn alias_of(file: Seq<char>) -> Option<Seq<char>> {
    if file.len() >= 5 && starts_with(file, "/"@) && ends_with(file, ".yml"@) {
        Some(file.subrange(1, file.len() - 4))
    } else {
        None
    }
}

/// The image that a `.gitlab-ci.yml` selects. The file has to hold exactly one include,
/// of the project `fbksd/fbksd_ci_config` at `master`, whose file names an alias that the
/// system configuration offers.
pub open spec fn selected_image(file: CIFileView, configs: Seq<(Seq<char>, Seq<char>)>) -> Result<
    Seq<char>,
    CIErrorView,
> {
    match file {
        CIFileView::Missing => Err(CIErrorView::CIConfigNotFound),
        CIFileView::Malformed => Err(CIErrorView::Unspecified),
        CIFileView::Parsed(includes) => if includes.len() != 1 {
            Err(CIErrorView::BadCIConfig)
        } else if includes[0].project != "fbksd/fbksd_ci_config"@ || includes[0].git_ref
            != "master"@ {
            Err(CIErrorView::CIConfigMissingInclude)
        } else {
            match alias_of(includes[0].file) {
                None => Err(CIErrorView::CIConfigImageNotFound),
                Some(alias) => match image_of(configs, alias) {
                    Some(image) => Ok(image),
                    None => Err(CIErrorView::CIConfigImageNotFound),
                },
            }
        },
    }
}

/// The CI configuration of a technique, once it was found to meet the rules.
#[derive(Debug)]
pub struct CIConfig {
    entry: CIProjInclude,
    docker_img: String,
}

/// Mathematical content of a `CIConfig`.
pub ghost struct CIConfigView {
    pub entry: CIProjIncludeView,
    pub docker_img: Seq<char>,
}

impl View for CIConfig {
    type V = CIConfigView;

    closed spec fn view(&self) -> CIConfigView {
        CIConfigView { entry: self.entry@, docker_img: self.docker_img@ }
    }
}

/// The selected image of a result, with an error as its content.
pub open spec fn image_result(r: Result<CIConfig, CIError>) -> Result<Seq<char>, CIErrorView> {
    match r {
        Ok(config) => Ok(config@.docker_img),
        Err(e) => Err(e@),
    }
}

fn alias(file: &str) -> (found: Option<&str>)
    ensures
        match found {
            Some(a) => alias_of(file@) == Some(a@),
            None => alias_of(file@) is None,
        },
{
    proof {
        reveal_strlit("/");
        reveal_strlit(".yml");
    }
    let n = file.unicode_len();
    if n < 5 {
        return None;
    }
    if !same(file.substring_char(0, 1), "/") {
        return None;
    }
    if !same(file.substring_char(n - 4, n), ".yml") {
        return None;
    }
    Some(file.substring_char(1, n - 4))
}

impl CIConfig {
    /// Checks what was read from a `.gitlab-ci.yml` and looks up the image it selects.
    ///
    /// Fails with `CIConfigNotFound` where there is no file, with `Unspecified` where
    /// it could not be parsed, with `BadCIConfig` where it does not hold exactly one
    /// include, with `CIConfigMissingInclude` where the include is not of the project
    /// `fbksd/fbksd_ci_config` at `master`, and with `CIConfigImageNotFound` where its
    /// file is not `/<alias>.yml` for an alias of the system configuration.
    pub fn load(file: CIFile, sys_config: &SystemConfig) -> (r: Result<CIConfig, CIError>)
        ensures
            image_result(r) == selected_image(file@, config_views(sys_config.configs@)),
            r is Ok ==> file@ == CIFileView::Parsed(seq![r->Ok_0@.entry]),
    {
        match file {
            CIFile::Missing => Err(CIError::CIConfigNotFound),
            CIFile::Malformed => Err(CIError::Unspecified),
            CIFile::Parsed(mut includes) => {
                if includes.len() != 1 {
                    return Err(CIError::BadCIConfig);
                }
                let ghost given = include_views(includes@);
                let entry = includes.remove(0);
                assert(given =~= seq![entry@]);
                if !same(entry.project.as_str(), "fbksd/fbksd_ci_config") || !same(
                    entry.git_ref.as_str(),
                    "master",
                ) {
                    return Err(CIError::CIConfigMissingInclude);
                }
                let image = match alias(entry.file.as_str()) {
                    None => {
                        return Err(CIError::CIConfigImageNotFound);
                    },
                    Some(a) => match sys_config.image(a) {
                        None => {
                            return Err(CIError::CIConfigImageNotFound);
                        },
                        Some(image) => image.clone(),
                    },
                };
                Ok(CIConfig { entry, docker_img: image })
            },
        }
    }

    /// The container image that the configuration selects.
    pub fn docker_img(&self) -> (image: &str)
        ensures
            image@ == self@.docker_img,
    {
        self.docker_img.as_str()
    }
}

/// Identity of the CI job on whose behalf an operation runs.
#[derive(Debug)]
pub struct ProjectInfo {
    /// Project id given by the CI host.
    pub id: i32,
    pub commit_sha: String,
    pub user_email: String,
    /// Container image in which the technique is built and run.
    pub docker_img: String,
    pub token: String,
}

/// Mathematical content of a `ProjectInfo`.
pub ghost struct ProjectInfoView {
    pub id: int,
    pub commit_sha: Seq<char>,
    pub user_email: Seq<char>,
    pub docker_img: Seq<char>,
    pub token: Seq<char>,
}

impl View for ProjectInfo {
    type V = ProjectInfoView;

    open spec fn view(&self) -> ProjectInfoView {
        ProjectInfoView {
            id: self.id as int,
            commit_sha: self.commit_sha@,
            user_email: self.user_email@,
            docker_img: self.docker_img@,
            token: self.token@,
        }
    }
}

impl Clone for ProjectInfo {
    fn clone(&self) -> (copy: Self)
        ensures
            copy == *self,
    {
        ProjectInfo {
            id: self.id,
            commit_sha: self.commit_sha.clone(),
            user_email: self.user_email.clone(),
            docker_img: self.docker_img.clone(),
            token: self.token.clone(),
        }
    }
}

/// The environment variables that the CI host sets for a job, each as it was found.
#[derive(Debug)]
pub struct CIEnv {
    /// `CI_PROJECT_ID`
    pub project_id: Option<String>,
    /// `CI_COMMIT_SHORT_SHA`
    pub commit_sha: Option<String>,
    /// `GITLAB_USER_EMAIL`
    pub user_email: Option<String>,
    /// `FBKSD_TOKEN`
    pub token: Option<String>,
}

/// Mathematical content of a `CIEnv`.
pub ghost struct CIEnvView {
    pub project_id: Option<Seq<char>>,
    pub commit_sha: Option<Seq<char>>,
    pub user_email: Option<Seq<char>>,
    pub token: Option<Seq<char>>,
}

impl View for CIEnv {
    type V = CIEnvView;

    open spec fn view(&self) -> CIEnvView {
        CIEnvView {
            project_id: crate::schema::text_view(self.project_id),
            commit_sha: crate::schema::text_view(self.commit_sha),
            user_email: crate::schema::text_view(self.user_email),
            token: crate::schema::text_view(self.token),
        }
    }
}

/// The value of a decimal digit, if the character is one.
pub open spec fn digit_value(c: char) -> Option<int> {
    if c == '0' {
        Some(0int)
    } else if c == '1' {
        Some(1int)
    } else if c == '2' {
        Some(2int)
    } else if c == '3' {
        Some(3int)
    } else if c == '4' {
        Some(4int)
    } else if c == '5' {
        Some(5int)
    } else if c == '6' {
        Some(6int)
    } else if c == '7' {
        Some(7int)
    } else if c == '8' {
        Some(8int)
    } else if c == '9' {
        Some(9int)
    } else {
        None
    }
}

/// The number that a string of decimal digits writes; nothing where the string is
/// empty or holds another character.
pub open spec fn number_of(text: Seq<char>) -> Option<int>
    decreases text.len(),
{
    if text.len() == 0 {
        None
    } else {
        match digit_value(text.last()) {
            None => None,
            Some(d) => if text.len() == 1 {
                Some(d)
            } else {
                match number_of(text.drop_last()) {
                    None => None,
                    Some(n) => Some(n * 10 + d),
                }
            },
        }
    }
}

/// The project id that a text writes: a positive integer that fits an `i32`.
pub open spec fn project_id_of(text: Seq<char>) -> Option<int> {
    match number_of(text) {
        Some(n) => if 1 <= n <= i32::MAX {
            Some(n)
        } else {
            None
        },
        None => None,
    }
}

fn digit(c: char) -> (d: Option<i32>)
    ensures
        match d {
            Some(d) => digit_value(c) == Some(d as int) && 0 <= d <= 9,
            None => digit_value(c) is None,
        },
{
    if c == '0' {
        Some(0)
    } else if c == '1' {
        Some(1)
    } else if c == '2' {
        Some(2)
    } else if c == '3' {
        Some(3)
    } else if c == '4' {
        Some(4)
    } else if c == '5' {
        Some(5)
    } else if c == '6' {
        Some(6)
    } else if c == '7' {
        Some(7)
    } else if c == '8' {
        Some(8)
    } else if c == '9' {
        Some(9)
    } else {
        None
    }
}

/// Reads a project id: decimal digits that write a positive integer within `i32`.
pub fn parse_project_id(text: &str) -> (id: Option<i32>)
    ensures
        match id {
            Some(id) => project_id_of(text@) == Some(id as int),
            None => project_id_of(text@) is None,
        },
{
    let n = text.unicode_len();
    if n == 0 {
        return None;
    }
    let mut value: i32 = 0;
    let mut i: usize = 0;
    while i < n
        invariant
            n == text@.len(),
            i <= n,
            0 <= value,
            i > 0 ==> number_of(text@.take(i as int)) == Some(value as int),
            i == 0 ==> value == 0,
        decreases n - i,
    {
        proof {
            assert(text@.take(i + 1).drop_last() =~= text@.take(i as int));
            assert(text@.take(i + 1).last() == text@[i as int]);
        }
        match digit(text.get_char(i)) {
            None => {
                proof {
                    lemma_number_none(text@, i as int);
                }
                return None;
            },
            Some(d) => {
                if value > (i32::MAX - d) / 10 {
                    proof {
                        assert(value * 10 + d > i32::MAX);
                        lemma_number_large(text@, i + 1);
                    }
                    return None;
                }
                value = value * 10 + d;
            },
        }
        i += 1;
    }
    assert(text@.take(n as int) =~= text@);
    if value >= 1 {
        Some(value)
    } else {
        None
    }
}

/// A text with a character that is no digit writes no number.
proof fn lemma_number_none(text: Seq<char>, at: int)
    requires
        0 <= at < text.len(),
        digit_value(text[at]) is None,
    ensures
        number_of(text) is None,
    decreases text.len(),
{
    if at < text.len() - 1 {
        lemma_number_none(text.drop_last(), at);
    }
}

/// A text of which a prefix already writes a number beyond `i32` writes none, or one
/// beyond `i32`.
proof fn lemma_number_large(text: Seq<char>, upto: int)
    requires
        1 <= upto <= text.len(),
        number_of(text.take(upto)) is Some,
        number_of(text.take(upto))->0 > i32::MAX,
    ensures
        number_of(text) is Some ==> number_of(text)->0 > i32::MAX,
    decreases text.len() - upto,
{
    if upto < text.len() {
        assert(text.take(upto + 1).drop_last() =~= text.take(upto));
        if number_of(text.take(upto + 1)) is Some {
            lemma_number_large(text, upto + 1);
        } else {
            lemma_number_prefix_none(text, upto + 1);
        }
    } else {
        assert(text.take(upto) =~= text);
    }
}

/// A text of which a prefix writes no number writes none.
proof fn lemma_number_prefix_none(text: Seq<char>, upto: int)
    requires
        1 <= upto <= text.len(),
        number_of(text.take(upto)) is None,
    ensures
        number_of(text) is None,
    decreases text.len() - upto,
{
    if upto < text.len() {
        assert(text.take(upto + 1).drop_last() =~= text.take(upto));
        lemma_number_prefix_none(text, upto + 1);
    } else {
        assert(text.take(upto) =~= text);
    }
}

/// The content of a result of `ProjectInfo::load`.
pub open spec fn project_result(r: Result<ProjectInfo, CIError>) -> Result<
    ProjectInfoView,
    CIErrorView,
> {
    match r {
        Ok(info) => Ok(info@),
        Err(e) => Err(e@),
    }
}

/// What the CI context of a job amounts to: the first variable that is missing, in the
/// order id, commit, e-mail, token; else an id that is no positive integer; else what
/// is wrong with the `.gitlab-ci.yml`; else the identity of the job with the image
/// that the file selects.
pub open spec fn project_of(
    env: CIEnvView,
    file: CIFileView,
    configs: Seq<(Seq<char>, Seq<char>)>,
) -> Result<ProjectInfoView, CIErrorView> {
    if env.project_id is None {
        Err(CIErrorView::MissingEnvVar("CI_PROJECT_ID"@))
    } else if env.commit_sha is None {
        Err(CIErrorView::MissingEnvVar("CI_COMMIT_SHORT_SHA"@))
    } else if env.user_email is None {
        Err(CIErrorView::MissingEnvVar("GITLAB_USER_EMAIL"@))
    } else if env.token is None {
        Err(CIErrorView::MissingEnvVar("FBKSD_TOKEN"@))
    } else {
        match project_id_of(env.project_id->0) {
            None => Err(CIErrorView::InvalidID),
            Some(id) => match selected_image(file, configs) {
                Err(e) => Err(e),
                Ok(image) => Ok(
                    ProjectInfoView {
                        id,
                        commit_sha: env.commit_sha->0,
                        user_email: env.user_email->0,
                        docker_img: image,
                        token: env.token->0,
                    },
                ),
            },
        }
    }
}

impl ProjectInfo {
    /// Puts together the identity of a job from the variables of the CI host and the
    /// technique's `.gitlab-ci.yml`.
    pub fn load(env: CIEnv, file: CIFile, sys_config: &SystemConfig) -> (r: Result<
        ProjectInfo,
        CIError,
    >)
        ensures
            project_result(r) == project_of(env@, file@, config_views(sys_config.configs@)),
    {
        let id_text = match env.project_id {
            Some(text) => text,
            None => {
                return Err(CIError::MissingEnvVar(String::from_str("CI_PROJECT_ID")));
            },
        };
        let commit_sha = match env.commit_sha {
            Some(text) => text,
            None => {
                return Err(CIError::MissingEnvVar(String::from_str("CI_COMMIT_SHORT_SHA")));
            },
        };
        let user_email = match env.user_email {
            Some(text) => text,
            None => {
                return Err(CIError::MissingEnvVar(String::from_str("GITLAB_USER_EMAIL")));
            },
        };
        let token = match env.token {
            Some(text) => text,
            None => {
                return Err(CIError::MissingEnvVar(String::from_str("FBKSD_TOKEN")));
            },
        };
        let id = match parse_project_id(id_text.as_str()) {
            Some(id) => id,
            None => {
                return Err(CIError::InvalidID);
            },
        };
        match CIConfig::load(file, sys_config) {
            Err(e) => Err(e),
            Ok(config) => Ok(
                ProjectInfo {
                    id,
                    commit_sha,
                    user_email,
                    docker_img: String::from_str(config.docker_img()),
                    token,
                },
            ),
        }
    }
}

} // verus!
