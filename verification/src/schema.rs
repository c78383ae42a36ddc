//! The rows of the tables, and the numbers under which their enumerations are stored.

use crate::info::TechniqueType;
use vstd::prelude::*;
use vstd::string::*;

verus! {

impl TechniqueType {
    /// The integer under which the group is stored.
    pub open spec fn spec_code(self) -> int {
        match self {
            TechniqueType::DENOISER => 0,
            TechniqueType::SAMPLER => 1,
        }
    }

    /// The group that a stored integer stands for: 0 is a denoiser, anything else a sampler.
    pub open spec fn spec_from_code(code: int) -> TechniqueType {
        if code == 0 {
            TechniqueType::DENOISER
        } else {
            TechniqueType::SAMPLER
        }
    }

    /// The integer under which the group is stored.
    pub fn code(&self) -> (code: i32)
        ensures
            code == self.spec_code(),
    {
        match self {
            TechniqueType::DENOISER => 0,
            TechniqueType::SAMPLER => 1,
        }
    }

    /// The group that a stored integer stands for.
    pub fn from_code(code: i32) -> (group: TechniqueType)
        ensures
            group == TechniqueType::spec_from_code(code as int),
    {
        if code == 0 {
            TechniqueType::DENOISER
        } else {
            TechniqueType::SAMPLER
        }
    }
}

/// A registered technique: one row of the `techniques` table.
#[derive(Debug)]
pub struct Technique {
    /// Project id given by the CI host.
    pub id: i32,
    pub technique_type: TechniqueType,
    pub short_name: String,
    pub full_name: String,
    pub citation: String,
    pub comment: String,
}

/// Mathematical content of a `Technique`.
pub ghost struct TechniqueView {
    pub id: int,
    pub technique_type: TechniqueType,
    pub short_name: Seq<char>,
    pub full_name: Seq<char>,
    pub citation: Seq<char>,
    pub comment: Seq<char>,
}

impl View for Technique {
    type V = TechniqueView;

    open spec fn view(&self) -> TechniqueView {
        TechniqueView {
            id: self.id as int,
            technique_type: self.technique_type,
            short_name: self.short_name@,
            full_name: self.full_name@,
            citation: self.citation@,
            comment: self.comment@,
        }
    }
}

impl Clone for Technique {
    fn clone(&self) -> (copy: Self)
        ensures
            copy == *self,
    {
        Technique {
            id: self.id,
            technique_type: self.technique_type,
            short_name: self.short_name.clone(),
            full_name: self.full_name.clone(),
            citation: self.citation.clone(),
            comment: self.comment.clone(),
        }
    }
}

/// Where a workspace stands on its way to the public page.
#[derive(Clone, Copy, Debug, PartialEq, Eq, Structural)]
pub enum WorkspaceStatus {
    /// No results were published from it yet.
    New,
    /// Its results are staged on a private page.
    Finished,
    /// Its results are on the public page.
    Published,
}

impl WorkspaceStatus {
    /// The integer under which the status is stored.
    pub open spec fn spec_code(self) -> int {
        match self {
            WorkspaceStatus::New => 0,
            WorkspaceStatus::Finished => 1,
            WorkspaceStatus::Published => 2,
        }
    }

    /// The integer under which the status is stored.
    pub fn code(&self) -> (code: i32)
        ensures
            code == self.spec_code(),
    {
        match self {
            WorkspaceStatus::New => 0,
            WorkspaceStatus::Finished => 1,
            WorkspaceStatus::Published => 2,
        }
    }

    /// The status that a stored integer stands for, if it stands for one.
    pub fn from_code(code: i32) -> (status: Option<WorkspaceStatus>)
        ensures
            match status {
                Some(s) => s.spec_code() == code,
                None => code < 0 || code > 2,
            },
    {
        if code == 0 {
            Some(WorkspaceStatus::New)
        } else if code == 1 {
            Some(WorkspaceStatus::Finished)
        } else if code == 2 {
            Some(WorkspaceStatus::Published)
        } else {
            None
        }
    }
}

/// A result slot of a technique: one row of the `workspaces` table.
/// Times are seconds since the Unix epoch.
#[derive(Debug)]
pub struct Workspace {
    pub technique_id: i32,
    pub uuid: String,
    pub commit_sha: String,
    pub docker_image: String,
    pub status: WorkspaceStatus,
    pub creation_time: i64,
    pub finish_time: Option<i64>,
    pub publication_time: Option<i64>,
}

/// Mathematical content of a `Workspace`.
pub ghost struct WorkspaceView {
    pub technique_id: int,
    pub uuid: Seq<char>,
    pub commit_sha: Seq<char>,
    pub docker_image: Seq<char>,
    pub status: WorkspaceStatus,
    pub creation_time: int,
    pub finish_time: Option<int>,
    pub publication_time: Option<int>,
}

/// A stored time as a mathematical integer.
pub open spec fn time_view(t: Option<i64>) -> Option<int> {
    match t {
        Some(s) => Some(s as int),
        None => None,
    }
}

impl View for Workspace {
    type V = WorkspaceView;

    open spec fn view(&self) -> WorkspaceView {
        WorkspaceView {
            technique_id: self.technique_id as int,
            uuid: self.uuid@,
            commit_sha: self.commit_sha@,
            docker_image: self.docker_image@,
            status: self.status,
            creation_time: self.creation_time as int,
            finish_time: time_view(self.finish_time),
            publication_time: time_view(self.publication_time),
        }
    }
}

impl Clone for Workspace {
    fn clone(&self) -> (copy: Self)
        ensures
            copy == *self,
    {
        Workspace {
            technique_id: self.technique_id,
            uuid: self.uuid.clone(),
            commit_sha: self.commit_sha.clone(),
            docker_image: self.docker_image.clone(),
            status: self.status,
            creation_time: self.creation_time,
            finish_time: self.finish_time,
            publication_time: self.publication_time,
        }
    }
}

/// The kinds of deferred work.
#[derive(Clone, Copy, Debug, PartialEq, Eq, Structural)]
pub enum TaskType {
    Build,
    RunBenchmark,
    PublishResults,
}

/// The two classes of the task queue. Every high task is served before any normal one.
#[derive(Clone, Copy, Debug, PartialEq, Eq, Structural)]
pub enum Priority {
    Normal,
    High,
}

impl TaskType {
    /// The integer under which the kind is stored.
    pub open spec fn spec_code(self) -> int {
        match self {
            TaskType::Build => 0,
            TaskType::RunBenchmark => 1,
            TaskType::PublishResults => 2,
        }
    }

    /// The kind that a stored integer stands for: 0 is a build, 2 a publication,
    /// anything else a benchmark run.
    pub open spec fn spec_from_code(code: int) -> TaskType {
        if code == 0 {
            TaskType::Build
        } else if code == 2 {
            TaskType::PublishResults
        } else {
            TaskType::RunBenchmark
        }
    }

    /// The class in which a task of this kind waits: builds are high, the others normal.
    pub open spec fn spec_priority(self) -> Priority {
        match self {
            TaskType::Build => Priority::High,
            _ => Priority::Normal,
        }
    }

    /// The integer under which the kind is stored.
    pub fn code(&self) -> (code: i32)
        ensures
            code == self.spec_code(),
    {
        match self {
            TaskType::Build => 0,
            TaskType::RunBenchmark => 1,
            TaskType::PublishResults => 2,
        }
    }

    /// The kind that a stored integer stands for.
    pub fn from_code(code: i32) -> (kind: TaskType)
        ensures
            kind == TaskType::spec_from_code(code as int),
    {
        if code == 0 {
            TaskType::Build
        } else if code == 2 {
            TaskType::PublishResults
        } else {
            TaskType::RunBenchmark
        }
    }

    /// The class in which a task of this kind waits.
    pub fn priority(&self) -> (class: Priority)
        ensures
            class == self.spec_priority(),
    {
        match self {
            TaskType::Build => Priority::High,
            _ => Priority::Normal,
        }
    }
}

/// A unit of deferred work: one row of one of the two task tables.
#[derive(Debug)]
pub struct Task {
    /// Row id, increasing in the order of arrival within its table.
    pub id: i32,
    pub technique_id: i32,
    pub commit_sha: String,
    pub docker_img: String,
    pub task_type: TaskType,
    /// For a publication, the uuid of the workspace to publish.
    pub task_data: Option<String>,
    /// The owner of the technique: the user on whose behalf the task was queued, who
    /// is told how it ended.
    pub user_email: String,
}

/// Mathematical content of a `Task`.
pub ghost struct TaskView {
    pub id: int,
    pub technique_id: int,
    pub commit_sha: Seq<char>,
    pub docker_img: Seq<char>,
    pub task_type: TaskType,
    pub task_data: Option<Seq<char>>,
    pub user_email: Seq<char>,
}

/// An optional string as an optional sequence of characters.
pub open spec fn text_view(t: Option<String>) -> Option<Seq<char>> {
    match t {
        Some(s) => Some(s@),
        None => None,
    }
}

impl View for Task {
    type V = TaskView;

    open spec fn view(&self) -> TaskView {
        TaskView {
            id: self.id as int,
            technique_id: self.technique_id as int,
            commit_sha: self.commit_sha@,
            docker_img: self.docker_img@,
            task_type: self.task_type,
            task_data: text_view(self.task_data),
            user_email: self.user_email@,
        }
    }
}

impl Task {
    /// The kind of work that the task asks for.
    pub fn get_type(&self) -> (kind: TaskType)
        ensures
            kind == self.task_type,
    {
        self.task_type
    }
}

impl Clone for Task {
    fn clone(&self) -> (copy: Self)
        ensures
            copy == *self,
    {
        let data = match &self.task_data {
            Some(s) => Some(s.clone()),
            None => None,
        };
        Task {
            id: self.id,
            technique_id: self.technique_id,
            commit_sha: self.commit_sha.clone(),
            docker_img: self.docker_img.clone(),
            task_type: self.task_type,
            task_data: data,
            user_email: self.user_email.clone(),
        }
    }
}

/// An outbound e-mail: one row of the `message_tasks` table.
#[derive(Debug)]
pub struct MessageTask {
    /// Row id, increasing in the order of arrival.
    pub id: i32,
    pub to_address: String,
    pub subject: String,
    pub text: String,
}

/// Mathematical content of a `MessageTask`.
pub ghost struct MessageTaskView {
    pub id: int,
    pub to_address: Seq<char>,
    pub subject: Seq<char>,
    pub text: Seq<char>,
}

impl View for MessageTask {
    type V = MessageTaskView;

    open spec fn view(&self) -> MessageTaskView {
        MessageTaskView {
            id: self.id as int,
            to_address: self.to_address@,
            subject: self.subject@,
            text: self.text@,
        }
    }
}

impl Clone for MessageTask {
    fn clone(&self) -> (copy: Self)
        ensures
            copy == *self,
    {
        MessageTask {
            id: self.id,
            to_address: self.to_address.clone(),
            subject: self.subject.clone(),
            text: self.text.clone(),
        }
    }
}

/// The mathematical content of each technique row.
pub open spec fn technique_views(rows: Seq<Technique>) -> Seq<TechniqueView> {
    rows.map_values(|t: Technique| t@)
}

/// The mathematical content of each workspace row.
pub open spec fn workspace_views(rows: Seq<Workspace>) -> Seq<WorkspaceView> {
    rows.map_values(|w: Workspace| w@)
}

/// The mathematical content of each task row.
pub open spec fn task_views(rows: Seq<Task>) -> Seq<TaskView> {
    rows.map_values(|t: Task| t@)
}

/// The mathematical content of each message row.
pub open spec fn message_views(rows: Seq<MessageTask>) -> Seq<MessageTaskView> {
    rows.map_values(|m: MessageTask| m@)
}

} // verus!
