//! The steps that an operation asks its caller to carry out on the file system.
//!
//! The operations of this library decide; they touch neither files nor processes.
//! Each one hands back the steps to take, in their order. A caller carries them out
//! one after the other and stops at the first that fails.

use crate::config::{Config, ConfigView};
use crate::info::TechniqueType;
use crate::text::texts;
use vstd::prelude::*;
use vstd::string::*;

verus! {

/// One step for the caller to carry out.
#[derive(Debug)]
pub enum Action {
    /// Store the state of the database.
    Commit,
    /// Create a directory; its parent exists.
    CreateDir(String),
    /// Create a directory and the directories above it that are missing.
    CreateDirAll(String),
    /// Remove a directory with all it holds.
    RemoveDirAll(String),
    /// Remove a directory with all it holds, if it is there.
    RemoveDirAllIfPresent(String),
    /// Remove a file or a link.
    RemoveFile(String),
    /// Create the symbolic link `link`, which leads to `target`.
    Symlink { target: String, link: String },
    /// Create the symbolic link `link`, which leads to `target`, in place of the link
    /// that may be there.
    ReplaceLink { target: String, link: String },
    /// Copy a file.
    CopyFile { src: String, dest: String },
    /// Run a program and wait for it; it has to end with success.
    Run { program: String, args: Vec<String> },
    /// Run a program in the directory `dir` and wait for it; it has to end with success.
    RunIn { dir: String, program: String, args: Vec<String> },
    /// Move each path that matches the pattern into the directory `dest`.
    MoveEach { pattern: String, dest: String },
    /// Load the published techniques and, where one is given, the workspace of that
    /// technique in place of its published one, and write the data files of the
    /// results page under `page`.
    ExportPage { page: String, workspace: Option<(TechniqueType, i32, String)> },
    /// Write a benchmark configuration to a file, as JSON.
    WriteConfig { path: String, config: Config },
}

/// Mathematical content of an `Action`.
pub ghost enum ActionView {
    Commit,
    CreateDir(Seq<char>),
    CreateDirAll(Seq<char>),
    RemoveDirAll(Seq<char>),
    RemoveDirAllIfPresent(Seq<char>),
    RemoveFile(Seq<char>),
    Symlink { target: Seq<char>, link: Seq<char> },
    ReplaceLink { target: Seq<char>, link: Seq<char> },
    CopyFile { src: Seq<char>, dest: Seq<char> },
    Run { program: Seq<char>, args: Seq<Seq<char>> },
    RunIn { dir: Seq<char>, program: Seq<char>, args: Seq<Seq<char>> },
    MoveEach { pattern: Seq<char>, dest: Seq<char> },
    ExportPage { page: Seq<char>, workspace: Option<(TechniqueType, int, Seq<char>)> },
    WriteConfig { path: Seq<char>, config: ConfigView },
}

/// A workspace named by group, technique id and uuid, as mathematical values.
pub open spec fn workspace_ref_view(w: Option<(TechniqueType, i32, String)>) -> Option<
    (TechniqueType, int, Seq<char>),
> {
    match w {
        Some(w) => Some((w.0, w.1 as int, w.2@)),
        None => None,
    }
}

impl View for Action {
    type V = ActionView;

    open spec fn view(&self) -> ActionView {
        match self {
            Action::Commit => ActionView::Commit,
            Action::CreateDir(p) => ActionView::CreateDir(p@),
            Action::CreateDirAll(p) => ActionView::CreateDirAll(p@),
            Action::RemoveDirAll(p) => ActionView::RemoveDirAll(p@),
            Action::RemoveDirAllIfPresent(p) => ActionView::RemoveDirAllIfPresent(p@),
            Action::RemoveFile(p) => ActionView::RemoveFile(p@),
            Action::Symlink { target, link } => ActionView::Symlink {
                target: target@,
                link: link@,
            },
            Action::ReplaceLink { target, link } => ActionView::ReplaceLink {
                target: target@,
                link: link@,
            },
            Action::CopyFile { src, dest } => ActionView::CopyFile { src: src@, dest: dest@ },
            Action::Run { program, args } => ActionView::Run {
                program: program@,
                args: texts(args@),
            },
            Action::RunIn { dir, program, args } => ActionView::RunIn {
                dir: dir@,
                program: program@,
                args: texts(args@),
            },
            Action::MoveEach { pattern, dest } => ActionView::MoveEach {
                pattern: pattern@,
                dest: dest@,
            },
            Action::ExportPage { page, workspace } => ActionView::ExportPage {
                page: page@,
                workspace: workspace_ref_view(*workspace),
            },
            Action::WriteConfig { path, config } => ActionView::WriteConfig {
                path: path@,
                config: config@,
            },
        }
    }
}

/// The content of each step.
pub open spec fn action_views(steps: Seq<Action>) -> Seq<ActionView> {
    steps.map_values(|a: Action| a@)
}

/// `mv src dest`
pub open spec fn move_step(src: Seq<char>, dest: Seq<char>) -> ActionView {
    ActionView::Run { program: "mv"@, args: seq![src, dest] }
}

/// `rsync -a src dest`, with `--ignore-existing` where files that are already at the
/// destination are to be left alone.
pub open spec fn sync_step(src: Seq<char>, dest: Seq<char>, ignore_existing: bool) -> ActionView {
    if ignore_existing {
        ActionView::Run { program: "rsync"@, args: seq!["-a"@, "--ignore-existing"@, src, dest] }
    } else {
        ActionView::Run { program: "rsync"@, args: seq!["-a"@, src, dest] }
    }
}

/// The arguments of the `rsync` that copies the images of a results directory and
/// nothing else, and removes from the destination what the source does not hold.
pub open spec fn image_sync_args(src: Seq<char>, dest: Seq<char>, ignore_existing: bool) -> Seq<
    Seq<char>,
> {
    let head = seq![
        "-a"@,
        "--include"@,
        "*.png"@,
        "--include"@,
        "*/"@,
        "--exclude"@,
        "*"@,
        "--delete"@,
    ];
    if ignore_existing {
        head + seq!["--ignore-existing"@, src, dest]
    } else {
        head + seq![src, dest]
    }
}

/// Moves `src` to `dest` with `mv`.
pub fn move_path(src: &str, dest: &str) -> (step: Action)
    ensures
        step@ == move_step(src@, dest@),
{
    let mut args: Vec<String> = Vec::new();
    args.push(String::from_str(src));
    args.push(String::from_str(dest));
    assert(texts(args@) =~= seq![src@, dest@]);
    Action::Run { program: String::from_str("mv"), args }
}

/// Copies `src` to `dest` with `rsync -a`.
pub fn sync_path(src: &str, dest: &str, ignore_existing: bool) -> (step: Action)
    ensures
        step@ == sync_step(src@, dest@, ignore_existing),
{
    let mut args: Vec<String> = Vec::new();
    args.push(String::from_str("-a"));
    if ignore_existing {
        args.push(String::from_str("--ignore-existing"));
    }
    args.push(String::from_str(src));
    args.push(String::from_str(dest));
    assert(texts(args@) =~= if ignore_existing {
        seq!["-a"@, "--ignore-existing"@, src@, dest@]
    } else {
        seq!["-a"@, src@, dest@]
    });
    Action::Run { program: String::from_str("rsync"), args }
}

/// Copies the images of the results directory `src` to `dest` with `rsync`.
pub fn sync_images(src: &str, dest: &str, ignore_existing: bool) -> (step: Action)
    ensures
        step@ == (ActionView::Run {
            program: "rsync"@,
            args: image_sync_args(src@, dest@, ignore_existing),
        }),
{
    let mut args: Vec<String> = Vec::new();
    args.push(String::from_str("-a"));
    args.push(String::from_str("--include"));
    args.push(String::from_str("*.png"));
    args.push(String::from_str("--include"));
    args.push(String::from_str("*/"));
    args.push(String::from_str("--exclude"));
    args.push(String::from_str("*"));
    args.push(String::from_str("--delete"));
    if ignore_existing {
        args.push(String::from_str("--ignore-existing"));
    }
    args.push(String::from_str(src));
    args.push(String::from_str(dest));
    assert(texts(args@) =~= image_sync_args(src@, dest@, ignore_existing));
    Action::Run { program: String::from_str("rsync"), args }
}

/// `chown -R user:group path`
pub open spec fn own_step(user: Seq<char>, group: Seq<char>, path: Seq<char>) -> ActionView {
    ActionView::Run { program: "chown"@, args: seq!["-R"@, user + seq![':'] + group, path] }
}

/// Hands a directory and all it holds to a user and a group, with `chown -R`.
pub fn own_path(user: &str, group: &str, path: &str) -> (step: Action)
    ensures
        step@ == own_step(user@, group@, path@),
{
    proof {
        reveal_strlit(":");
    }
    let mut owner = String::from_str(user);
    owner.append(":");
    owner.append(group);
    assert(owner@ =~= user@ + seq![':'] + group@);
    let mut args: Vec<String> = Vec::new();
    args.push(String::from_str("-R"));
    args.push(owner);
    args.push(String::from_str(path));
    assert(texts(args@) =~= seq!["-R"@, user@ + seq![':'] + group@, path@]);
    Action::Run { program: String::from_str("chown"), args }
}

/// Appends the steps of `more` to `steps`.
pub fn append_steps(steps: &mut Vec<Action>, more: Vec<Action>)
    ensures
        action_views(final(steps)@) == action_views(old(steps)@) + action_views(more@),
{
    let mut more = more;
    let ghost all = action_views(more@);
    steps.append(&mut more);
    assert(action_views(steps@) =~= action_views(old(steps)@) + all);
}

} // verus!
