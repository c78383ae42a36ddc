//! The worker: the container that a task runs in, and the message that tells how it
//! ended.

use crate::db;
use crate::db::Database;
use crate::docker::{env_flags, mount_value, Docker, DockerView};
use crate::error::Error;
use crate::paths::{
    iqa_path, renderers_path, scenes_path, spec_iqa_path, spec_renderers_path,
    spec_scenes_path, spec_tmp_workspace_path, tmp_workspace_path, LOCK_FILE,
};
use crate::schema::{Task, TaskType, TaskView};
use crate::text::{concat, texts};
use vstd::prelude::*;
use vstd::string::*;

verus! {

/// Seconds that the worker waits before it looks again into an empty queue.
pub const POLLING_INTERVAL: u64 = 10;

/// The data root as a container sees it.
pub const CONTAINER_DATA_ROOT: &'static str = "/mnt/fbksd-data";

/// The network that the containers share with the server.
pub const CONTAINER_NETWORK: &'static str = "fbksd-net";

/// The entry point of the CI runner in a container.
pub const CONTAINER_COMMAND: &'static str = "fbksd-ci";

/// The subcommand of the CI runner that carries out a task of the given kind.
pub open spec fn spec_subcommand(kind: TaskType) -> Seq<char> {
    match kind {
        TaskType::Build => "install"@,
        TaskType::RunBenchmark => "run"@,
        TaskType::PublishResults => "publish"@,
    }
}

/// The subcommand of the CI runner that carries out a task of the given kind.
pub fn subcommand(kind: TaskType) -> (name: &'static str)
    ensures
        name@ == spec_subcommand(kind),
{
    match kind {
        TaskType::Build => "install",
        TaskType::RunBenchmark => "run",
        TaskType::PublishResults => "publish",
    }
}

/// The environment that a task passes to its container: the data root as the
/// container sees it, the address of the server, and for a publication the uuid of
/// the workspace to publish.
pub open spec fn task_env(server_addr: Seq<char>, task: TaskView) -> Seq<Seq<char>> {
    let base = seq![
        "FBKSD_DATA_ROOT=/mnt/fbksd-data"@,
        "FBKSD_SERVER_ADDR="@ + server_addr,
    ];
    match (task.task_type, task.task_data) {
        (TaskType::PublishResults, Some(uuid)) => base.push("FBKSD_PUBLISH="@ + uuid),
        _ => base,
    }
}

/// The writable mounts of a container: the scratch workspace and the lock file.
pub open spec fn task_mounts(root: Seq<char>) -> Seq<Seq<char>> {
    seq![
        "-v"@,
        mount_value(spec_tmp_workspace_path(root), "/mnt/fbksd-data/tmp/workspace"@, false),
        "-v"@,
        mount_value("/var/lock/fbksd.lock"@, "/var/lock/fbksd.lock"@, false),
    ]
}

/// The read-only mounts of a container: the scenes, the renderers and the metrics.
pub open spec fn task_mounts_ro(root: Seq<char>) -> Seq<Seq<char>> {
    seq![
        "-v"@,
        mount_value(spec_scenes_path(root), "/mnt/fbksd-data/scenes"@, true),
        "-v"@,
        mount_value(spec_renderers_path(root), "/mnt/fbksd-data/renderers"@, true),
        "-v"@,
        mount_value(spec_iqa_path(root), "/mnt/fbksd-data/iqa"@, true),
    ]
}

/// The container of a task: the image that the task names, on the network of the
/// server, with the mounts and the environment of a task.
pub open spec fn task_container(root: Seq<char>, server_addr: Seq<char>, task: TaskView)
    -> DockerView {
    DockerView {
        image: task.docker_img,
        args: Seq::empty(),
        env_vars: env_flags(task_env(server_addr, task)),
        mounts: task_mounts(root) + task_mounts_ro(root),
        cmd_args: Seq::empty(),
        network: "fbksd-net"@,
        wd: Seq::empty(),
    }
}

/// The arguments of the `docker` that carries out a task.
pub open spec fn task_args(root: Seq<char>, server_addr: Seq<char>, task: TaskView) -> Seq<
    Seq<char>,
> {
    task_container(root, server_addr, task).run_args(
        "fbksd-ci"@,
        seq![spec_subcommand(task.task_type)],
    )
}

/// The container in which a task is carried out.
pub fn build(root: &str, server_addr: &str, task: &Task) -> (docker: Docker)
    ensures
        docker@ == task_container(root@, server_addr@, task@),
{
    let mut docker = Docker::new(task.docker_img.as_str());
    let addr = concat("FBKSD_SERVER_ADDR=", server_addr);
    match (&task.task_type, &task.task_data) {
        (TaskType::PublishResults, Some(uuid)) => {
            let publish = concat("FBKSD_PUBLISH=", uuid.as_str());
            let vars = [
                "FBKSD_DATA_ROOT=/mnt/fbksd-data",
                addr.as_str(),
                publish.as_str(),
            ];
            docker.env_vars(vars.as_slice());
            assert(crate::docker::slice_texts(vars@) =~= task_env(server_addr@, task@));
        },
        _ => {
            let vars = ["FBKSD_DATA_ROOT=/mnt/fbksd-data", addr.as_str()];
            docker.env_vars(vars.as_slice());
            assert(crate::docker::slice_texts(vars@) =~= task_env(server_addr@, task@));
        },
    }
    let tmp = tmp_workspace_path(root);
    let scenes = scenes_path(root);
    let renderers = renderers_path(root);
    let iqa = iqa_path(root);
    let writable = [(tmp.as_str(), "/mnt/fbksd-data/tmp/workspace"), (LOCK_FILE, LOCK_FILE)];
    let read_only = [
        (scenes.as_str(), "/mnt/fbksd-data/scenes"),
        (renderers.as_str(), "/mnt/fbksd-data/renderers"),
        (iqa.as_str(), "/mnt/fbksd-data/iqa"),
    ];
    docker.mounts(writable.as_slice());
    docker.mounts_ro(read_only.as_slice());
    docker.network(CONTAINER_NETWORK);
    proof {
        lemma_mounts(writable@, false);
        lemma_mounts(read_only@, true);
        assert(docker@.mounts =~= task_mounts(root@) + task_mounts_ro(root@));
    }
    docker
}

/// The mount flags of a short list, written out.
proof fn lemma_mounts(pairs: Seq<(&str, &str)>, read_only: bool)
    ensures
        pairs.len() == 2 ==> crate::docker::mount_flags(pairs, read_only) == seq![
            "-v"@,
            mount_value(pairs[0].0@, pairs[0].1@, read_only),
            "-v"@,
            mount_value(pairs[1].0@, pairs[1].1@, read_only),
        ],
        pairs.len() == 3 ==> crate::docker::mount_flags(pairs, read_only) == seq![
            "-v"@,
            mount_value(pairs[0].0@, pairs[0].1@, read_only),
            "-v"@,
            mount_value(pairs[1].0@, pairs[1].1@, read_only),
            "-v"@,
            mount_value(pairs[2].0@, pairs[2].1@, read_only),
        ],
{
    reveal_with_fuel(crate::docker::mount_flags, 4);
    if pairs.len() == 2 {
        let a = pairs.drop_last();
        assert(a.drop_last() =~= Seq::<(&str, &str)>::empty());
        assert(crate::docker::mount_flags(pairs, read_only) =~= seq![
            "-v"@,
            mount_value(pairs[0].0@, pairs[0].1@, read_only),
            "-v"@,
            mount_value(pairs[1].0@, pairs[1].1@, read_only),
        ]);
    }
    if pairs.len() == 3 {
        let a = pairs.drop_last();
        let b = a.drop_last();
        assert(b.drop_last() =~= Seq::<(&str, &str)>::empty());
        assert(crate::docker::mount_flags(pairs, read_only) =~= seq![
            "-v"@,
            mount_value(pairs[0].0@, pairs[0].1@, read_only),
            "-v"@,
            mount_value(pairs[1].0@, pairs[1].1@, read_only),
            "-v"@,
            mount_value(pairs[2].0@, pairs[2].1@, read_only),
        ]);
    }
}

/// The arguments of the `docker` that carries out a task: the container of the task
/// runs the CI runner with the subcommand of the task's kind.
pub fn execute_task(root: &str, server_addr: &str, task: &Task) -> (args: Vec<String>)
    ensures
        texts(args@) == task_args(root@, server_addr@, task@),
{
    let docker = build(root, server_addr, task);
    let command = [subcommand(task.task_type)];
    let args = docker.run_args(CONTAINER_COMMAND, command.as_slice());
    assert(crate::docker::slice_texts(command@) =~= seq![spec_subcommand(task@.task_type)]);
    args
}

/// The subject of the message that tells how a task ended.
pub const STATUS_SUBJECT: &'static str = "FBKSD status update";

/// The text of the message that tells how a task ended. A task succeeded where its
/// container was started and ended with the exit code 0.
pub open spec fn status_text(exit_code: Option<int>) -> Seq<char> {
    if exit_code == Some(0int) {
        "Task succeeded."@
    } else {
        "Task failed."@
    }
}

/// The exit code as a mathematical integer.
pub open spec fn code_view(exit_code: Option<i32>) -> Option<int> {
    match exit_code {
        Some(code) => Some(code as int),
        None => None,
    }
}

/// Queues the message that tells the owner of a technique how a task ended: it goes
/// to the address that the task keeps, that of the user who had it queued.
/// `exit_code` is the exit code of the container, or nothing where the container could
/// not be started. The task itself is gone from the queue already: it is not tried
/// again.
pub fn report(db: &mut Database, task: &Task, exit_code: Option<i32>) -> (r: Result<(), Error>)
    requires
        old(db).wf(),
    ensures
        final(db).wf(),
        final(db)@ == old(db)@.push_msg_task(
            task@.user_email,
            "FBKSD status update"@,
            status_text(code_view(exit_code)),
        ).0,
        r == old(db)@.push_msg_task(
            task@.user_email,
            "FBKSD status update"@,
            status_text(code_view(exit_code)),
        ).1,
{
    let to = task.user_email.as_str();
    let succeeded = match exit_code {
        Some(code) => code == 0,
        None => false,
    };
    if succeeded {
        db::push_msg_task(db, to, STATUS_SUBJECT, "Task succeeded.")
    } else {
        db::push_msg_task(db, to, STATUS_SUBJECT, "Task failed.")
    }
}

} // verus!
