//! The administrative tasks of the control tool, as steps on the file system.

use crate::actions::{
    action_views, append_steps, sync_path, sync_step, Action, ActionView,
};
use crate::docker::{mount_flags, mount_value, slice_texts, Docker, DockerView};
use crate::page::ints;
use crate::paths::{
    contents, contents_of, join, joined, public_page_path, renderers_path, scenes_path,
    spec_public_page_path, spec_renderers_path, spec_scenes_path, spec_tech_workspace_path,
    spec_tmp_results_path, spec_tmp_workspace_path, tech_workspace_path, tmp_results_path,
    tmp_workspace_path, Environment, LOCK_FILE,
};
use crate::publishing::{
    export_images, export_reference_images, permission_step, public_image_steps,
    reference_image_steps, set_public_page_permissions,
};
use crate::staging::{
    create_tmp_workspace, published_views, steps_option_view, tmp_workspace_steps, Published,
    PublishedView,
};
use crate::text::texts;
use crate::workspace as wp;
use vstd::prelude::*;
use vstd::string::*;

verus! {

/// The container in which the control tool runs a command: the lock file and the
/// scratch workspace are mounted writable, the renderers and the scenes read-only
/// inside the scratch workspace.
pub open spec fn tool_container(root: Seq<char>, image: Seq<char>) -> DockerView {
    DockerView {
        image,
        args: Seq::empty(),
        env_vars: Seq::empty(),
        mounts: seq![
            "-v"@,
            mount_value("/var/lock/fbksd.lock"@, "/var/lock/fbksd.lock"@, false),
            "-v"@,
            mount_value(spec_tmp_workspace_path(root), "/mnt/fbksd-data/tmp/workspace"@, false),
            "-v"@,
            mount_value(
                spec_renderers_path(root),
                "/mnt/fbksd-data/tmp/workspace/renderers"@,
                true,
            ),
            "-v"@,
            mount_value(spec_scenes_path(root), "/mnt/fbksd-data/tmp/workspace/scenes"@, true),
        ],
        cmd_args: Seq::empty(),
        network: Seq::empty(),
        wd: Seq::empty(),
    }
}

/// The arguments of the `docker` that runs a command of the control tool in a
/// container of the given image.
pub fn docker_run(root: &str, image: &str, command: &str, command_args: &[&str]) -> (args: Vec<
    String,
>)
    ensures
        texts(args@) == tool_container(root@, image@).run_args(command@, slice_texts(command_args@)),
{
    let tmp = tmp_workspace_path(root);
    let renderers = renderers_path(root);
    let scenes = scenes_path(root);
    let writable = [(LOCK_FILE, LOCK_FILE), (tmp.as_str(), "/mnt/fbksd-data/tmp/workspace")];
    let read_only = [
        (renderers.as_str(), "/mnt/fbksd-data/tmp/workspace/renderers"),
        (scenes.as_str(), "/mnt/fbksd-data/tmp/workspace/scenes"),
    ];
    let mut docker = Docker::new(image);
    docker.mounts(writable.as_slice());
    docker.mounts_ro(read_only.as_slice());
    proof {
        lemma_two_mounts(writable@, false);
        lemma_two_mounts(read_only@, true);
        assert(docker@.mounts =~= tool_container(root@, image@).mounts);
    }
    docker.run_args(command, command_args)
}

/// The mount flags of two pairs, written out.
proof fn lemma_two_mounts(pairs: Seq<(&str, &str)>, read_only: bool)
    requires
        pairs.len() == 2,
    ensures
        mount_flags(pairs, read_only) == seq![
            "-v"@,
            mount_value(pairs[0].0@, pairs[0].1@, read_only),
            "-v"@,
            mount_value(pairs[1].0@, pairs[1].1@, read_only),
        ],
{
    reveal_with_fuel(mount_flags, 3);
    let a = pairs.drop_last();
    assert(a.drop_last() =~= Seq::<(&str, &str)>::empty());
    assert(mount_flags(pairs, read_only) =~= seq![
        "-v"@,
        mount_value(pairs[0].0@, pairs[0].1@, read_only),
        "-v"@,
        mount_value(pairs[1].0@, pairs[1].1@, read_only),
    ]);
}

/// The steps that bring the public page up to date: the data files are written, the
/// reference images of the corpus and the images of the published workspaces are
/// copied, and the page is handed to the web server. There are none where a
/// reference image lies in no directory.
pub open spec fn update_page_steps(
    root: Seq<char>,
    user: Seq<char>,
    owner_group: Seq<char>,
    corpus: Seq<wp::RendererView>,
    published: Seq<PublishedView>,
) -> Option<Seq<ActionView>> {
    match reference_image_steps(root, corpus) {
        None => None,
        Some(images) => Some(
            seq![ActionView::ExportPage { page: spec_public_page_path(root), workspace: None }]
                + images + public_image_steps(root, published) + seq![
                permission_step(user, owner_group, root),
            ],
        ),
    }
}

/// Plans the update of the public page from the published workspaces.
pub fn update_page(env: &Environment, workspace: &wp::Workspace, published: &Vec<Published>) -> (steps:
    Option<Vec<Action>>)
    ensures
        steps_option_view(steps) == update_page_steps(
            env.data_root@,
            env.www_user@,
            env.www_group@,
            workspace@.renderers,
            published_views(published@),
        ),
{
    let root = env.data_root.as_str();
    let images = match export_reference_images(root, workspace) {
        Some(images) => images,
        None => {
            return None;
        },
    };
    let mut steps: Vec<Action> = Vec::new();
    steps.push(Action::ExportPage { page: public_page_path(root), workspace: None });
    let ghost head = action_views(steps@);
    let ghost listed = action_views(images@);
    append_steps(&mut steps, images);
    let more = export_images(root, published);
    let ghost exported = action_views(more@);
    append_steps(&mut steps, more);
    let own = set_public_page_permissions(env);
    let ghost before = action_views(steps@);
    steps.push(own);
    assert(action_views(steps@) =~= before + seq![own@]);
    assert(action_views(steps@) =~= head + listed + exported + seq![own@]);
    Some(steps)
}

/// The step that saves the results that a run of all techniques left for one
/// published workspace: they are copied beside the results that are there.
#[verifier::opaque]
pub open spec fn keep_step(root: Seq<char>, p: PublishedView) -> ActionView {
    sync_step(
        contents_of(spec_tmp_results_path(root, p.group, p.short_name)),
        joined(spec_tech_workspace_path(root, p.group, p.id, p.uuid), "results/"@),
        true,
    )
}

/// The steps that save the results of every published workspace.
pub open spec fn keep_steps(root: Seq<char>, published: Seq<PublishedView>) -> Seq<ActionView> {
    published.map_values(|p: PublishedView| keep_step(root, p))
}

/// The two runs of `fbksd` in a container of the image: the benchmark, then the
/// metrics.
pub open spec fn run_steps(root: Seq<char>, image: Seq<char>) -> Seq<ActionView> {
    let tmp = spec_tmp_workspace_path(root);
    seq![
        ActionView::RunIn {
            dir: tmp,
            program: "docker"@,
            args: tool_container(root, image).run_args("fbksd"@, seq!["run"@]),
        },
        ActionView::RunIn {
            dir: tmp,
            program: "docker"@,
            args: tool_container(root, image).run_args("fbksd"@, seq!["results"@, "compute"@]),
        },
    ]
}

/// The steps that run every published technique on the whole corpus: the scratch
/// workspace is set up with the published techniques in it; the benchmark and the
/// metrics run in a container; the results are saved; and the public page is brought
/// up to date.
pub open spec fn run_all_steps(
    root: Seq<char>,
    user: Seq<char>,
    owner_group: Seq<char>,
    image: Seq<char>,
    corpus: Seq<wp::RendererView>,
    published: Seq<PublishedView>,
    spps: Seq<int>,
) -> Option<Seq<ActionView>> {
    match update_page_steps(root, user, owner_group, corpus, published) {
        None => None,
        Some(page) => Some(
            tmp_workspace_steps(root, true, published, spps) + run_steps(root, image)
                + keep_steps(root, published) + page,
        ),
    }
}

fn keep_results(root: &str, published: &Vec<Published>) -> (steps: Vec<Action>)
    ensures
        action_views(steps@) == keep_steps(root@, published_views(published@)),
{
    let ghost all = keep_steps(root@, published_views(published@));
    let mut steps: Vec<Action> = Vec::new();
    let mut i: usize = 0;
    while i < published.len()
        invariant
            i <= published.len(),
            all == keep_steps(root@, published_views(published@)),
            action_views(steps@) == all.take(i as int),
        decreases published.len() - i,
    {
        let p = &published[i];
        let ghost before = action_views(steps@);
        let step = sync_path(
            contents(tmp_results_path(root, p.group, p.short_name.as_str()).as_str()).as_str(),
            join(tech_workspace_path(root, p.group, p.id, p.uuid.as_str()).as_str(), "results/").as_str(),
            true,
        );
        proof {
            reveal(keep_step);
        }
        steps.push(step);
        assert(action_views(steps@) =~= before.push(step@));
        i += 1;
        assert(action_views(steps@) =~= all.take(i as int));
    }
    assert(all.take(i as int) =~= all);
    steps
}

fn run_in_container(root: &str, image: &str) -> (steps: Vec<Action>)
    ensures
        action_views(steps@) == run_steps(root@, image@),
{
    let tmp = tmp_workspace_path(root);
    let run = ["run"];
    let compute = ["results", "compute"];
    let mut steps: Vec<Action> = Vec::new();
    steps.push(
        Action::RunIn {
            dir: tmp.clone(),
            program: String::from_str("docker"),
            args: docker_run(root, image, "fbksd", run.as_slice()),
        },
    );
    steps.push(
        Action::RunIn {
            dir: tmp,
            program: String::from_str("docker"),
            args: docker_run(root, image, "fbksd", compute.as_slice()),
        },
    );
    assert(slice_texts(run@) =~= seq!["run"@]);
    assert(slice_texts(compute@) =~= seq!["results"@, "compute"@]);
    assert(action_views(steps@) =~= run_steps(root@, image@));
    steps
}

/// Plans a run of every published technique on the whole corpus, in a container of
/// the given image, with the update of the public page at its end.
pub fn run_all(
    env: &Environment,
    image: &str,
    workspace: &wp::Workspace,
    published: &Vec<Published>,
    spps: &[i32],
) -> (steps: Option<Vec<Action>>)
    ensures
        steps_option_view(steps) == run_all_steps(
            env.data_root@,
            env.www_user@,
            env.www_group@,
            image@,
            workspace@.renderers,
            published_views(published@),
            ints(spps@),
        ),
{
    let root = env.data_root.as_str();
    let page = match update_page(env, workspace, published) {
        Some(page) => page,
        None => {
            return None;
        },
    };
    let mut steps = create_tmp_workspace(root, true, published, spps);
    append_steps(&mut steps, run_in_container(root, image));
    append_steps(&mut steps, keep_results(root, published));
    append_steps(&mut steps, page);
    Some(steps)
}

} // verus!
