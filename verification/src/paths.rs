//! The layout of the data root: every file and directory that the system uses.
//!
//! Paths are strings with `/` between their parts. Each function takes the data root
//! as its first argument.

use crate::info::TechniqueType;
use crate::text::{decimal, decimal_string};
use vstd::prelude::*;
use vstd::string::*;

verus! {

/// The lock file that serialises every change under the data root.
pub const LOCK_FILE: &'static str = "/var/lock/fbksd.lock";

/// Directory of a workspace that holds the binaries of the technique.
pub const TECH_INSTALL_DIR: &'static str = "install";

/// Directory of a workspace that holds the results of the technique.
pub const TECH_RESULTS_DIR: &'static str = "results";

/// Whether the path starts at the root of the file system.
pub open spec fn is_absolute(path: Seq<char>) -> bool {
    path.len() > 0 && path[0] == '/'
}

/// `part` appended to `base` as a further part of the path: an absolute `part`
/// replaces `base`, and a `/` is put between the two unless `base` is empty or
/// already ends in one.
#[verifier::opaque]
pub open spec fn joined(base: Seq<char>, part: Seq<char>) -> Seq<char> {
    if is_absolute(part) {
        part
    } else if base.len() > 0 && base.last() != '/' {
        base + seq!['/'] + part
    } else {
        base + part
    }
}

/// Appends `part` to `base` as a further part of the path.
pub fn join(base: &str, part: &str) -> (path: String)
    ensures
        path@ == joined(base@, part@),
{
    reveal(joined);
    if part.unicode_len() > 0 && part.get_char(0) == '/' {
        return String::from_str(part);
    }
    let n = base.unicode_len();
    let mut path = String::from_str(base);
    if n > 0 && base.get_char(n - 1) != '/' {
        proof {
            reveal_strlit("/");
        }
        path.append("/");
        assert(path@ =~= base@ + seq!['/']);
    }
    path.append(part);
    path
}

/// The system configuration file.
pub open spec fn spec_config_path(root: Seq<char>) -> Seq<char> {
    joined(root, "config.json"@)
}

/// The file of the persisted state.
pub open spec fn spec_database_path(root: Seq<char>) -> Seq<char> {
    joined(root, "server.db"@)
}

/// The directory of all workspaces.
pub open spec fn spec_workspaces_path(root: Seq<char>) -> Seq<char> {
    joined(root, "workspaces"@)
}

/// The scene corpus.
pub open spec fn spec_scenes_path(root: Seq<char>) -> Seq<char> {
    joined(root, "scenes"@)
}

/// The image quality metrics.
pub open spec fn spec_iqa_path(root: Seq<char>) -> Seq<char> {
    joined(root, "iqa"@)
}

/// The renderers.
pub open spec fn spec_renderers_path(root: Seq<char>) -> Seq<char> {
    joined(root, "renderers"@)
}

/// The template of the results page.
pub open spec fn spec_page_path(root: Seq<char>) -> Seq<char> {
    joined(root, "page"@)
}

/// The one scratch workspace.
pub open spec fn spec_tmp_workspace_path(root: Seq<char>) -> Seq<char> {
    joined(root, "tmp/workspace"@)
}

/// The public results page.
pub open spec fn spec_public_page_path(root: Seq<char>) -> Seq<char> {
    joined(root, "public"@)
}

/// The directory of a technique: its group's directory under the workspaces, then its id
/// in decimal.
pub open spec fn spec_tech_data_path(root: Seq<char>, group: TechniqueType, id: int) -> Seq<char> {
    joined(joined(spec_workspaces_path(root), group.spec_as_str()), decimal(id))
}

/// A workspace of a technique: the technique's directory, then the uuid.
pub open spec fn spec_tech_workspace_path(
    root: Seq<char>,
    group: TechniqueType,
    id: int,
    uuid: Seq<char>,
) -> Seq<char> {
    joined(spec_tech_data_path(root, group, id), uuid)
}

/// The system configuration file, `config.json` under the data root.
pub fn config_path(root: &str) -> (path: String)
    ensures
        path@ == spec_config_path(root@),
{
    join(root, "config.json")
}

/// The file of the persisted state, `server.db` under the data root.
pub fn database_path(root: &str) -> (path: String)
    ensures
        path@ == spec_database_path(root@),
{
    join(root, "server.db")
}

/// The directory of all workspaces, `workspaces` under the data root.
pub fn workspaces_path(root: &str) -> (path: String)
    ensures
        path@ == spec_workspaces_path(root@),
{
    join(root, "workspaces")
}

/// The scene corpus, `scenes` under the data root.
pub fn scenes_path(root: &str) -> (path: String)
    ensures
        path@ == spec_scenes_path(root@),
{
    join(root, "scenes")
}

/// The image quality metrics, `iqa` under the data root.
pub fn iqa_path(root: &str) -> (path: String)
    ensures
        path@ == spec_iqa_path(root@),
{
    join(root, "iqa")
}

/// The renderers, `renderers` under the data root.
pub fn renderers_path(root: &str) -> (path: String)
    ensures
        path@ == spec_renderers_path(root@),
{
    join(root, "renderers")
}

/// The template of the results page, `page` under the data root.
pub fn page_path(root: &str) -> (path: String)
    ensures
        path@ == spec_page_path(root@),
{
    join(root, "page")
}

/// The one scratch workspace, `tmp/workspace` under the data root.
pub fn tmp_workspace_path(root: &str) -> (path: String)
    ensures
        path@ == spec_tmp_workspace_path(root@),
{
    join(root, "tmp/workspace")
}

/// The public results page, `public` under the data root.
pub fn public_page_path(root: &str) -> (path: String)
    ensures
        path@ == spec_public_page_path(root@),
{
    join(root, "public")
}

/// The workspaces of all denoisers.
pub fn denoisers_workspaces_path(root: &str) -> (path: String)
    ensures
        path@ == joined(spec_workspaces_path(root@), TechniqueType::DENOISER.spec_as_str()),
{
    join(workspaces_path(root).as_str(), "denoisers")
}

/// The workspaces of all samplers.
pub fn samplers_workspaces_path(root: &str) -> (path: String)
    ensures
        path@ == joined(spec_workspaces_path(root@), TechniqueType::SAMPLER.spec_as_str()),
{
    join(workspaces_path(root).as_str(), "samplers")
}

/// The directory of a technique.
pub fn tech_data_path(root: &str, group: TechniqueType, id: i32) -> (path: String)
    ensures
        path@ == spec_tech_data_path(root@, group, id as int),
{
    let base = match group {
        TechniqueType::DENOISER => denoisers_workspaces_path(root),
        TechniqueType::SAMPLER => samplers_workspaces_path(root),
    };
    join(base.as_str(), decimal_string(id).as_str())
}

/// The copy of a technique's source code, `project` in its directory.
pub fn tech_project_src_path(root: &str, group: TechniqueType, id: i32) -> (path: String)
    ensures
        path@ == joined(spec_tech_data_path(root@, group, id as int), "project"@),
{
    join(tech_data_path(root, group, id).as_str(), "project")
}

/// A workspace of a technique.
pub fn tech_workspace_path(root: &str, group: TechniqueType, id: i32, uuid: &str) -> (path: String)
    ensures
        path@ == spec_tech_workspace_path(root@, group, id as int, uuid@),
{
    join(tech_data_path(root, group, id).as_str(), uuid)
}

/// The binaries of a workspace, `install` in it.
pub fn tech_install_path(root: &str, group: TechniqueType, id: i32, uuid: &str) -> (path: String)
    ensures
        path@ == joined(spec_tech_workspace_path(root@, group, id as int, uuid@), "install"@),
{
    join(tech_workspace_path(root, group, id, uuid).as_str(), TECH_INSTALL_DIR)
}

/// The results of a workspace, `results` in it.
pub fn tech_results_path(root: &str, group: TechniqueType, id: i32, uuid: &str) -> (path: String)
    ensures
        path@ == joined(spec_tech_workspace_path(root@, group, id as int, uuid@), "results"@),
{
    join(tech_workspace_path(root, group, id, uuid).as_str(), TECH_RESULTS_DIR)
}

/// The link `published` in a technique's directory, which leads to its published
/// workspace.
pub fn tech_published_wp_path(root: &str, group: TechniqueType, id: i32) -> (path: String)
    ensures
        path@ == spec_tech_workspace_path(root@, group, id as int, "published"@),
{
    tech_workspace_path(root, group, id, "published")
}

/// The binaries of a technique's published workspace.
pub fn tech_published_install_path(root: &str, group: TechniqueType, id: i32) -> (path: String)
    ensures
        path@ == joined(
            spec_tech_workspace_path(root@, group, id as int, "published"@),
            "install"@,
        ),
{
    join(tech_published_wp_path(root, group, id).as_str(), TECH_INSTALL_DIR)
}

/// The results of a technique's published workspace.
pub fn tech_published_results_path(root: &str, group: TechniqueType, id: i32) -> (path: String)
    ensures
        path@ == joined(
            spec_tech_workspace_path(root@, group, id as int, "published"@),
            "results"@,
        ),
{
    join(tech_published_wp_path(root, group, id).as_str(), TECH_RESULTS_DIR)
}

/// Where the system lives: the data root, and the user and group that own the public
/// page. The three are fixed when a process starts.
#[derive(Debug)]
pub struct Environment {
    /// `FBKSD_DATA_ROOT`
    pub data_root: String,
    /// `FBKSD_WWW_USER`
    pub www_user: String,
    /// `FBKSD_WWW_GROUP`
    pub www_group: String,
}

/// The path with a `/` at its end, which names what the directory holds.
pub open spec fn contents_of(path: Seq<char>) -> Seq<char> {
    joined(path, Seq::empty())
}

/// The path with a `/` at its end, which names what the directory holds.
pub fn contents(path: &str) -> (all: String)
    ensures
        all@ == contents_of(path@),
{
    proof {
        reveal_strlit("");
        assert(""@ =~= Seq::<char>::empty());
    }
    join(path, "")
}

/// The directory of a group under a directory.
pub open spec fn spec_group_path(base: Seq<char>, group: TechniqueType) -> Seq<char> {
    joined(base, group.spec_as_str())
}

/// The results of a technique on a page: `data`, the group, the short name.
pub open spec fn spec_page_data_path(page: Seq<char>, group: TechniqueType, name: Seq<char>)
    -> Seq<char> {
    joined(joined(joined(page, "data"@), group.spec_as_str()), name)
}

/// The results of a technique on a page.
pub fn page_data_path(page: &str, group: TechniqueType, name: &str) -> (path: String)
    ensures
        path@ == spec_page_data_path(page@, group, name@),
{
    join(join(join(page, "data").as_str(), group.as_str()).as_str(), name)
}

/// The private page of a workspace: the uuid under the public page.
pub open spec fn spec_private_page_path(root: Seq<char>, uuid: Seq<char>) -> Seq<char> {
    joined(spec_public_page_path(root), uuid)
}

/// The private page of a workspace.
pub fn private_page_path(root: &str, uuid: &str) -> (path: String)
    ensures
        path@ == spec_private_page_path(root@, uuid@),
{
    join(public_page_path(root).as_str(), uuid)
}

/// The binaries of a technique in the scratch workspace: the group, then the id.
pub open spec fn spec_tmp_install_path(root: Seq<char>, group: TechniqueType, id: int) -> Seq<
    char,
> {
    joined(joined(spec_tmp_workspace_path(root), group.spec_as_str()), decimal(id))
}

/// The binaries of a technique in the scratch workspace.
pub fn tmp_install_path(root: &str, group: TechniqueType, id: i32) -> (path: String)
    ensures
        path@ == spec_tmp_install_path(root@, group, id as int),
{
    join(
        join(tmp_workspace_path(root).as_str(), group.as_str()).as_str(),
        decimal_string(id).as_str(),
    )
}

/// The results of a technique in the scratch workspace: `results/.current`, the
/// group, the short name.
pub open spec fn spec_tmp_results_path(root: Seq<char>, group: TechniqueType, name: Seq<char>)
    -> Seq<char> {
    joined(
        joined(joined(spec_tmp_workspace_path(root), "results/.current"@), group.spec_as_str()),
        name,
    )
}

/// The results of a technique in the scratch workspace.
pub fn tmp_results_path(root: &str, group: TechniqueType, name: &str) -> (path: String)
    ensures
        path@ == spec_tmp_results_path(root@, group, name@),
{
    join(
        join(
            join(tmp_workspace_path(root).as_str(), "results/.current").as_str(),
            group.as_str(),
        ).as_str(),
        name,
    )
}

} // verus!
