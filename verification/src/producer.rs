//! What the producer does for a CI job: it registers the technique, queues the task
//! and tells the user so.

use crate::actions::{action_views, Action, ActionView};
use crate::ci::{ProjectInfo, ProjectInfoView};
use crate::db;
use crate::db::Database;
use crate::error::Error;
use crate::info::{TechniqueInfo, TechniqueInfoView};
use crate::model::DatabaseView;
use crate::operations::steps_view;
use crate::paths::{contents, contents_of, joined, spec_tech_data_path, tech_project_src_path};
use crate::text::texts;
use vstd::prelude::*;
use vstd::string::*;

verus! {

/// What the user is told once a build was queued.
pub const BUILD_QUEUED: &'static str =
    "Build task was queued. You will receive a notification by e-mail when the tasks is executed.";

/// What the user is told once a benchmark run was queued.
pub const RUN_QUEUED: &'static str =
    "Benchmark execution task was queued. You will receive a notification by e-mail when the tasks is executed.";

/// Length of the longest line of a text: the lines are what stands between the line
/// feeds, and `current` is the length of the line that the text is read into.
pub open spec fn longest_line(text: Seq<char>, current: nat) -> nat
    decreases text.len(),
{
    if text.len() == 0 {
        current
    } else if text[0] == '\n' {
        let rest = longest_line(text.drop_first(), 0);
        if current > rest {
            current
        } else {
            rest
        }
    } else {
        longest_line(text.drop_first(), current + 1)
    }
}

/// A row of `count` stars.
pub open spec fn stars(count: nat) -> Seq<char> {
    Seq::new(count, |i: int| '*')
}

/// A message between two rows of stars as wide as its longest line.
pub open spec fn banner(msg: Seq<char>) -> Seq<char> {
    let row = stars(longest_line(msg, 0));
    row + seq!['\n'] + msg + seq!['\n'] + row
}

fn width(msg: &str) -> (w: usize)
    ensures
        w == longest_line(msg@, 0),
{
    let n = msg.unicode_len();
    let mut best: usize = 0;
    let mut current: usize = 0;
    let mut i: usize = 0;
    assert(msg@.skip(0) =~= msg@);
    while i < n
        invariant
            n == msg@.len(),
            i <= n,
            current <= i,
            best <= i,
            longest_line(msg@, 0) == if best > longest_line(msg@.skip(i as int), current as nat) {
                best as nat
            } else {
                longest_line(msg@.skip(i as int), current as nat)
            },
        decreases n - i,
    {
        proof {
            assert(msg@.skip(i as int).drop_first() =~= msg@.skip(i + 1));
            assert(msg@.skip(i as int)[0] == msg@[i as int]);
        }
        if msg.get_char(i) == '\n' {
            if current > best {
                best = current;
            }
            current = 0;
        } else {
            current = current + 1;
        }
        i += 1;
    }
    assert(msg@.skip(n as int).len() == 0);
    if current > best {
        current
    } else {
        best
    }
}

fn row_of_stars(count: usize) -> (row: String)
    ensures
        row@ == stars(count as nat),
{
    let mut row = String::new();
    let mut i: usize = 0;
    assert(row@ =~= stars(0));
    while i < count
        invariant
            i <= count,
            row@ == stars(i as nat),
        decreases count - i,
    {
        proof {
            reveal_strlit("*");
        }
        row.append("*");
        i += 1;
        assert(row@ =~= stars(i as nat));
    }
    row
}

/// The text that shows a message to the user: the message between two rows of stars
/// as wide as its longest line.
pub fn print_msg(msg: &str) -> (text: String)
    ensures
        text@ == banner(msg@),
{
    proof {
        reveal_strlit("\n");
    }
    let row = row_of_stars(width(msg));
    let mut text = row.clone();
    text.append("\n");
    text.append(msg);
    text.append("\n");
    text.append(row.as_str());
    assert(text@ =~= banner(msg@));
    text
}

/// The steps that follow a queued build: the state is stored, and the source of the
/// technique, which lies in the current directory, is copied to its place under the
/// data root.
#[verifier::opaque]
pub open spec fn install_steps(root: Seq<char>, info: ProjectInfoView, tech: TechniqueInfoView)
    -> Seq<ActionView> {
    let src = joined(spec_tech_data_path(root, tech.technique_type, info.id), "project"@);
    seq![
        ActionView::Commit,
        ActionView::CreateDirAll(src),
        ActionView::Run { program: "rsync"@, args: seq!["-a"@, "."@, contents_of(src)] },
    ]
}

/// The state after a technique was registered and its build queued. A registration
/// that went through stays where the queue turns the build down.
pub open spec fn installed(v: DatabaseView, info: ProjectInfoView, tech: TechniqueInfoView)
    -> DatabaseView {
    let registered = v.register(info, tech);
    if registered.1 is Err {
        v
    } else {
        registered.0.push_build_task(info).0
    }
}

/// What an installation comes to: the error of the registration, else the error of the
/// queue, else the steps that follow.
pub open spec fn install_outcome(
    v: DatabaseView,
    root: Seq<char>,
    info: ProjectInfoView,
    tech: TechniqueInfoView,
) -> Result<Seq<ActionView>, Error> {
    match v.register(info, tech).1 {
        Err(e) => Err(e),
        Ok(_) => match v.register(info, tech).0.push_build_task(info).1 {
            Err(e) => Err(e),
            Ok(_) => Ok(install_steps(root, info, tech)),
        },
    }
}

/// Registers the technique of a CI job and queues its build. Where the queue turns the
/// build down, the technique stays registered.
pub fn install(db: &mut Database, root: &str, info: &ProjectInfo, tech: &TechniqueInfo) -> (r:
    Result<Vec<Action>, Error>)
    requires
        old(db).wf(),
    ensures
        final(db).wf(),
        final(db)@ == installed(old(db)@, info@, tech@),
        steps_view(r) == install_outcome(old(db)@, root@, info@, tech@),
{
    proof {
        crate::invariants::lemma_register(db@, info@, tech@);
        crate::invariants::lemma_enqueue(
            db@.register(info@, tech@).0,
            crate::schema::TaskType::Build,
            info@,
            None,
        );
    }
    match db::register(db, info, tech) {
        Ok(()) => {},
        Err(e) => {
            return Err(e);
        },
    }
    match db::push_build_task(db, info) {
        Ok(()) => {},
        Err(e) => {
            return Err(e);
        },
    }
    proof {
        reveal(install_steps);
    }
    let src = tech_project_src_path(root, tech.technique_type, info.id);
    let mut args: Vec<String> = Vec::new();
    args.push(String::from_str("-a"));
    args.push(String::from_str("."));
    args.push(contents(src.as_str()));
    assert(texts(args@) =~= seq!["-a"@, "."@, contents_of(src@)]);
    let mut steps: Vec<Action> = Vec::new();
    steps.push(Action::Commit);
    steps.push(Action::CreateDirAll(src));
    steps.push(Action::Run { program: String::from_str("rsync"), args });
    assert(action_views(steps@) =~= install_steps(root@, info@, tech@));
    Ok(steps)
}

} // verus!
