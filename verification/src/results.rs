//! Where the results of a technique lie in its workspace, and what the names of the
//! files say.

use crate::ci::{parse_project_id, project_id_of};
use crate::info::TechniqueType;
use crate::paths::{join, joined};
use crate::schema::text_view;
use crate::text::{decimal, decimal_string};
use crate::utils::{component_views, components, components_of};
use crate::wrappers::{capture_group, regex_group};
use vstd::prelude::*;
use vstd::string::*;

verus! {

/// The pattern that matches the log of every run in a workspace.
pub open spec fn logs_pattern_of(workspace: Seq<char>) -> Seq<char> {
    joined(workspace, "results/*/*/*_log.json"@)
}

/// The pattern that matches the log of every run in a workspace.
pub fn logs_pattern(workspace: &str) -> (pattern: String)
    ensures
        pattern@ == logs_pattern_of(workspace@),
{
    join(workspace, "results/*/*/*_log.json")
}

/// The scene that a log belongs to: the name of the directory that holds the log.
pub open spec fn scene_of_log(path: Seq<char>) -> Option<Seq<char>> {
    let list = components_of(path);
    if list.len() >= 2 {
        Some(list[list.len() - 2].text())
    } else {
        None
    }
}

/// The scene that a log belongs to; nothing where the log lies in no directory.
pub fn scene_name_of_log(path: &str) -> (scene: Option<String>)
    ensures
        text_view(scene) == scene_of_log(path@),
{
    let list = components(path);
    if list.len() >= 2 {
        let c = &list[list.len() - 2];
        assert(c@ == component_views(list@)[list.len() - 2]);
        Some(String::from_str(c.as_str()))
    } else {
        None
    }
}

/// The pattern that matches the metric files of a run at the given sample budget.
pub open spec fn value_files_pattern_of(spp: int) -> Seq<char> {
    decimal(spp) + "_0_*_value.json"@
}

/// The pattern that matches the metric files of a run at the given sample budget.
pub fn value_files_pattern(spp: i32) -> (pattern: String)
    ensures
        pattern@ == value_files_pattern_of(spp as int),
{
    let mut pattern = decimal_string(spp);
    pattern.append("_0_*_value.json");
    pattern
}

/// The regular expression that the name of a metric file matches: the sample budget,
/// `_0_`, the acronym of the metric, `_value.json`.
pub const VALUE_FILE: &'static str = "(\\d+)_0_([^/]+)_value.json$";

/// The acronym of the metric whose value a file holds, as the second group of
/// `VALUE_FILE` captures it; nothing where the path does not match.
pub fn metric_of_value_file(path: &str) -> (metric: Option<String>)
    ensures
        text_view(metric) == regex_group(VALUE_FILE@, path@, 2),
{
    capture_group(VALUE_FILE, path, 2)
}

/// The regular expression that the path of a published workspace of the group
/// matches; its first group is the id of the technique.
pub open spec fn published_pattern_of(group: TechniqueType) -> Seq<char> {
    "workspaces/"@ + group.spec_as_str() + "/(\\d+)/published"@
}

/// The id that a captured text writes, if it writes one.
pub open spec fn captured_id(captured: Option<Seq<char>>) -> Option<int> {
    match captured {
        Some(text) => project_id_of(text),
        None => None,
    }
}

/// Reads the id of a technique from what was captured of a path: decimal digits that
/// write a positive integer within `i32`.
pub fn technique_id_of(captured: Option<String>) -> (id: Option<i32>)
    ensures
        match id {
            Some(id) => captured_id(text_view(captured)) == Some(id as int),
            None => captured_id(text_view(captured)) is None,
        },
{
    match captured {
        Some(text) => parse_project_id(text.as_str()),
        None => None,
    }
}

/// The id of the technique whose published workspace a path leads to, read from the
/// first group that the pattern of the group captures in the path.
pub fn published_technique_id(group: TechniqueType, path: &str) -> (id: Option<i32>)
    ensures
        match id {
            Some(id) => captured_id(regex_group(published_pattern_of(group), path@, 1)) == Some(
                id as int,
            ),
            None => captured_id(regex_group(published_pattern_of(group), path@, 1)) is None,
        },
{
    let mut pattern = String::from_str("workspaces/");
    pattern.append(group.as_str());
    pattern.append("/(\\d+)/published");
    technique_id_of(capture_group(pattern.as_str(), path, 1))
}

} // verus!
