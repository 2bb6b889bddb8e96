//! The environment: where tasks and configuration are kept under a root
//! directory, and what each operation on it changes on disk.

use crate::context_switch::{FileRead, FileReadView, TaskFile};
use crate::text::{str_eq, trim, trim_spec, views};
use vstd::prelude::*;
use vstd::string::StringExecFns;

verus! {

/// The path of the entry `part` of the directory `base`.
pub open spec fn join_spec(base: Seq<char>, part: Seq<char>) -> Seq<char> {
    base + "/"@ + part
}

/// The path of the entry `part` of the directory `base`.
pub fn join(base: &str, part: &str) -> (path: String)
    ensures
        path@ == join_spec(base@, part@),
{
    let mut path = String::from_str(base);
    path.append("/");
    path.append(part);
    path
}

/// Why an operation on the environment fails.
#[derive(Debug, Clone, PartialEq, Eq)]
pub enum EnvError {
    /// No current task is recorded.
    NotSet,
    /// There is no task of that name.
    NotFound(String),
    /// There is a task of that name already.
    AlreadyExists(String),
    /// The task is the current one.
    IsCurrent,
    /// Reading or writing failed; the text says what was being done.
    Io(String),
}

/// What an [`EnvError`] stands for.
pub enum EnvErrorView {
    NotSet,
    NotFound(Seq<char>),
    AlreadyExists(Seq<char>),
    IsCurrent,
    Io(Seq<char>),
}

impl EnvErrorView {
    /// The error in words, as the user is told.
    pub open spec fn message(self) -> Seq<char> {
        match self {
            EnvErrorView::NotSet => "No current task set"@,
            EnvErrorView::NotFound(name) => "Task '"@ + name + "' does not exist"@,
            EnvErrorView::AlreadyExists(name) => "Task '"@ + name + "' already exists"@,
            EnvErrorView::IsCurrent => "Cannot delete the current task"@,
            EnvErrorView::Io(what) => what,
        }
    }
}

impl View for EnvError {
    type V = EnvErrorView;

    open spec fn view(&self) -> EnvErrorView {
        match self {
            EnvError::NotSet => EnvErrorView::NotSet,
            EnvError::NotFound(name) => EnvErrorView::NotFound(name@),
            EnvError::AlreadyExists(name) => EnvErrorView::AlreadyExists(name@),
            EnvError::IsCurrent => EnvErrorView::IsCurrent,
            EnvError::Io(what) => EnvErrorView::Io(what@),
        }
    }
}

impl EnvError {
    /// The error in words, as the user is told.
    pub fn message(&self) -> (text: String)
        ensures
            text@ == self@.message(),
    {
        match self {
            EnvError::NotSet => "No current task set".to_owned(),
            EnvError::NotFound(name) => {
                let mut text = String::from_str("Task '");
                text.append(name.as_str());
                text.append("' does not exist");
                text
            },
            EnvError::AlreadyExists(name) => {
                let mut text = String::from_str("Task '");
                text.append(name.as_str());
                text.append("' already exists");
                text
            },
            EnvError::IsCurrent => "Cannot delete the current task".to_owned(),
            EnvError::Io(what) => what.clone(),
        }
    }
}

/// One change to the file system, for the caller to make. Where it fails, the
/// operation that asked for it fails with [`EnvError::Io`] of `context`.
#[derive(Debug, Clone, PartialEq, Eq)]
pub enum FsOp {
    /// Create the directory and the directories above it that are missing.
    CreateDirAll { path: String, context: String },
    /// Write the file, replacing what it held.
    WriteFile { path: String, content: String, context: String },
    /// Remove the directory with all that is in it.
    RemoveDirAll { path: String, context: String },
}

/// What an [`FsOp`] stands for.
pub enum FsOpView {
    CreateDirAll { path: Seq<char>, context: Seq<char> },
    WriteFile { path: Seq<char>, content: Seq<char>, context: Seq<char> },
    RemoveDirAll { path: Seq<char>, context: Seq<char> },
}

impl View for FsOp {
    type V = FsOpView;

    open spec fn view(&self) -> FsOpView {
        match self {
            FsOp::CreateDirAll { path, context } => FsOpView::CreateDirAll {
                path: path@,
                context: context@,
            },
            FsOp::WriteFile { path, content, context } => FsOpView::WriteFile {
                path: path@,
                content: content@,
                context: context@,
            },
            FsOp::RemoveDirAll { path, context } => FsOpView::RemoveDirAll {
                path: path@,
                context: context@,
            },
        }
    }
}

/// The views of the changes of `v`, in order.
pub open spec fn op_views(v: Seq<FsOp>) -> Seq<FsOpView> {
    v.map_values(|op: FsOp| op@)
}

/// The content of a new task's `instructions.md`.
pub open spec fn default_instructions() -> Seq<char> {
    "# Task Instructions\n\nAdd your instructions here.\n"@
}

/// The content of a new task's `state.md`.
pub open spec fn default_state() -> Seq<char> {
    "# Task State\n\nTask state will be tracked here.\n"@
}

/// The content of a new task's `config.toml`.
pub open spec fn default_task_config() -> Seq<char> {
    "# Task Configuration\ncli = \"q chat\"\n"@
}

/// The content of a new environment's `config.toml`.
pub open spec fn default_config() -> Seq<char> {
    "# Grill Configuration\ndefault_cli = \"q chat\"\n\n[clis]\nq = \"q chat\"\n"@
}

/// The paths of an environment: where it keeps its files under a root
/// directory.
pub struct EnvPaths {
    pub grill_dir: Seq<char>,
    pub tasks_dir: Seq<char>,
    pub config_file: Seq<char>,
    pub current_task_file: Seq<char>,
}

impl EnvPaths {
    /// The paths of the environment under `root`: the directory `.grill`, and in
    /// it the directory `tasks` and the files `config.toml` and `current_task`.
    pub open spec fn under(root: Seq<char>) -> EnvPaths {
        let grill_dir = join_spec(root, ".grill"@);
        EnvPaths {
            grill_dir,
            tasks_dir: join_spec(grill_dir, "tasks"@),
            config_file: join_spec(grill_dir, "config.toml"@),
            current_task_file: join_spec(grill_dir, "current_task"@),
        }
    }

    /// The directory of the task `name`.
    pub open spec fn task_dir(self, name: Seq<char>) -> Seq<char> {
        join_spec(self.tasks_dir, name)
    }

    /// The configuration file of the task `name`.
    pub open spec fn task_config_file(self, name: Seq<char>) -> Seq<char> {
        join_spec(self.task_dir(name), "config.toml"@)
    }

    /// The file `file` of the task `name`.
    pub open spec fn task_file(self, name: Seq<char>, file: TaskFile) -> Seq<char> {
        join_spec(self.task_dir(name), file.name_spec())
    }

    /// Whether the environment is there: its directory and its configuration
    /// file both exist.
    pub open spec fn is_there(self, grill_dir_exists: bool, config_file_exists: bool) -> bool {
        grill_dir_exists && config_file_exists
    }

    /// The changes that make the task `name`: its directory and the three files
    /// in it, with their first contents. A task that exists is not made again.
    pub open spec fn create_task(self, name: Seq<char>, task_dir_exists: bool) -> Result<
        Seq<FsOpView>,
        EnvErrorView,
    > {
        if task_dir_exists {
            Err(EnvErrorView::AlreadyExists(name))
        } else {
            let dir = self.task_dir(name);
            Ok(
                seq![
                    FsOpView::CreateDirAll {
                        path: dir,
                        context: "Failed to create task directory for '"@ + name + "'"@,
                    },
                    FsOpView::WriteFile {
                        path: join_spec(dir, "instructions.md"@),
                        content: default_instructions(),
                        context: "Failed to create instructions file for task '"@ + name + "'"@,
                    },
                    FsOpView::WriteFile {
                        path: join_spec(dir, "state.md"@),
                        content: default_state(),
                        context: "Failed to create state file for task '"@ + name + "'"@,
                    },
                    FsOpView::WriteFile {
                        path: join_spec(dir, "config.toml"@),
                        content: default_task_config(),
                        context: "Failed to create config file for task '"@ + name + "'"@,
                    },
                ],
            )
        }
    }

    /// The changes that set the environment up, from what of it exists: the
    /// directory of the tasks is made; a configuration file and a record of the
    /// current task are written only where there is none; and with that record
    /// the task `default` is made.
    pub open spec fn init_ops(
        self,
        config_file_exists: bool,
        current_task_file_exists: bool,
        default_task_exists: bool,
    ) -> Seq<FsOpView> {
        seq![
            FsOpView::CreateDirAll {
                path: self.tasks_dir,
                context: "Failed to create tasks directory"@,
            },
        ] + (if config_file_exists {
            Seq::empty()
        } else {
            seq![
                FsOpView::WriteFile {
                    path: self.config_file,
                    content: default_config(),
                    context: "Failed to write default config file"@,
                },
            ]
        }) + (if current_task_file_exists {
            Seq::empty()
        } else {
            seq![
                FsOpView::WriteFile {
                    path: self.current_task_file,
                    content: "default"@,
                    context: "Failed to write current task file"@,
                },
            ] + (match self.create_task("default"@, default_task_exists) {
                Ok(ops) => ops,
                Err(_) => Seq::empty(),
            })
        })
    }

    /// Why setting the environment up fails once its changes are made, if it
    /// does: the task `default` is to be made and exists already.
    pub open spec fn init_failure(
        self,
        current_task_file_exists: bool,
        default_task_exists: bool,
    ) -> Option<EnvErrorView> {
        if !current_task_file_exists && default_task_exists {
            Some(EnvErrorView::AlreadyExists("default"@))
        } else {
            None
        }
    }

    /// The name of the current task, from what reading the file that records it
    /// gave: the content without the whitespace around it.
    pub open spec fn get_current_task(self, read: FileReadView) -> Result<Seq<char>, EnvErrorView> {
        match read {
            FileReadView::Missing => Err(EnvErrorView::NotSet),
            FileReadView::Unreadable(_) => Err(
                EnvErrorView::Io("Failed to read current task file"@),
            ),
            FileReadView::Text(text) => Ok(trim_spec(text)),
        }
    }

    /// The directory of the task `name`, which must exist.
    pub open spec fn get_task_dir(self, name: Seq<char>, task_dir_exists: bool) -> Result<
        Seq<char>,
        EnvErrorView,
    > {
        if task_dir_exists {
            Ok(self.task_dir(name))
        } else {
            Err(EnvErrorView::NotFound(name))
        }
    }

    /// The change that records the task `name`, which must exist, as the current
    /// one.
    pub open spec fn set_current_task(self, name: Seq<char>, task_dir_exists: bool) -> Result<
        Seq<FsOpView>,
        EnvErrorView,
    > {
        if task_dir_exists {
            Ok(
                seq![
                    FsOpView::WriteFile {
                        path: self.current_task_file,
                        content: name,
                        context: "Failed to set current task to '"@ + name + "'"@,
                    },
                ],
            )
        } else {
            Err(EnvErrorView::NotFound(name))
        }
    }

    /// Whether the task `name` is the current one: the file that records the
    /// current task was read, and holds the name, with or without whitespace
    /// around it. `current` is what reading that file gave.
    pub open spec fn is_current_task(self, name: Seq<char>, current: FileReadView) -> bool {
        current matches FileReadView::Text(text) && trim_spec(text) == name
    }

    /// The change that deletes the task `name`, which must exist and must not be
    /// the current one. `current` is what reading the file that records the
    /// current task gave; where no current task is on record, none stands in the
    /// way.
    pub open spec fn delete_task(
        self,
        name: Seq<char>,
        task_dir_exists: bool,
        current: FileReadView,
    ) -> Result<Seq<FsOpView>, EnvErrorView> {
        if !task_dir_exists {
            Err(EnvErrorView::NotFound(name))
        } else if self.is_current_task(name, current) {
            Err(EnvErrorView::IsCurrent)
        } else {
            Ok(
                seq![
                    FsOpView::RemoveDirAll {
                        path: self.task_dir(name),
                        context: "Failed to delete task '"@ + name + "'"@,
                    },
                ],
            )
        }
    }
}

/// An entry of a directory.
#[derive(Debug, Clone, PartialEq, Eq)]
pub struct DirEntry {
    /// The name of the entry, where it is valid Unicode.
    pub name: Option<String>,
    /// Whether the entry is a directory.
    pub is_dir: bool,
}

/// What a [`DirEntry`] stands for.
pub struct DirEntryView {
    pub name: Option<Seq<char>>,
    pub is_dir: bool,
}

impl View for DirEntry {
    type V = DirEntryView;

    open spec fn view(&self) -> DirEntryView {
        DirEntryView {
            name: match self.name {
                Some(name) => Some(name@),
                None => None,
            },
            is_dir: self.is_dir,
        }
    }
}

/// The views of the entries of `v`, in order.
pub open spec fn entry_views(v: Seq<DirEntry>) -> Seq<DirEntryView> {
    v.map_values(|e: DirEntry| e@)
}

/// The names of the tasks among the entries of the directory of the tasks: the
/// names of the directories, in the order of the entries. An entry whose name is
/// not valid Unicode is passed over.
pub open spec fn task_names(entries: Seq<DirEntryView>) -> Seq<Seq<char>>
    decreases entries.len(),
{
    if entries.len() == 0 {
        Seq::empty()
    } else {
        let before = task_names(entries.drop_last());
        let entry = entries.last();
        if entry.is_dir && entry.name is Some {
            before.push(entry.name->0)
        } else {
            before
        }
    }
}

/// What setting the environment up asks for.
#[derive(Debug, Clone, PartialEq, Eq)]
pub struct InitPlan {
    /// The changes to make, in order.
    pub ops: Vec<FsOp>,
    /// Why the operation fails once the changes are made, if it does.
    pub failure: Option<EnvError>,
}

/// Represents the grill environment
#[derive(Clone)]
pub struct Environment {
    grill_dir: String,
    tasks_dir: String,
    config_file: String,
    current_task_file: String,
}

impl View for Environment {
    type V = EnvPaths;

    closed spec fn view(&self) -> EnvPaths {
        EnvPaths {
            grill_dir: self.grill_dir@,
            tasks_dir: self.tasks_dir@,
            config_file: self.config_file@,
            current_task_file: self.current_task_file@,
        }
    }
}

/// The views of the changes of a plan, or of its error.
pub open spec fn plan_view(plan: Result<Vec<FsOp>, EnvError>) -> Result<Seq<FsOpView>, EnvErrorView> {
    match plan {
        Ok(ops) => Ok(op_views(ops@)),
        Err(e) => Err(e@),
    }
}

/// The view of a text, or of the error in its place.
pub open spec fn text_view(text: Result<String, EnvError>) -> Result<Seq<char>, EnvErrorView> {
    match text {
        Ok(text) => Ok(text@),
        Err(e) => Err(e@),
    }
}

fn quoted(before: &str, name: &str) -> (text: String)
    ensures
        text@ == before@ + name@ + "'"@,
{
    let mut text = String::from_str(before);
    text.append(name);
    text.append("'");
    text
}

impl Environment {
    /// Create a new environment instance
    pub fn new(root_dir: &str) -> (env: Environment)
        ensures
            env@ == EnvPaths::under(root_dir@),
    {
        let grill_dir = join(root_dir, ".grill");
        let tasks_dir = join(grill_dir.as_str(), "tasks");
        let config_file = join(grill_dir.as_str(), "config.toml");
        let current_task_file = join(grill_dir.as_str(), "current_task");
        Environment { grill_dir, tasks_dir, config_file, current_task_file }
    }

    /// The directory of the environment.
    pub fn get_grill_dir(&self) -> (path: String)
        ensures
            path@ == self@.grill_dir,
    {
        self.grill_dir.clone()
    }

    /// The directory that holds the task directories.
    pub fn get_tasks_dir(&self) -> (path: String)
        ensures
            path@ == self@.tasks_dir,
    {
        self.tasks_dir.clone()
    }

    /// Get the path to the config file
    pub fn get_config_path(&self) -> (path: String)
        ensures
            path@ == self@.config_file,
    {
        self.config_file.clone()
    }

    /// The file that records the current task.
    pub fn get_current_task_path(&self) -> (path: String)
        ensures
            path@ == self@.current_task_file,
    {
        self.current_task_file.clone()
    }

    /// The directory of the task `name`, whether it exists or not.
    pub fn task_dir(&self, name: &str) -> (path: String)
        ensures
            path@ == self@.task_dir(name@),
    {
        join(self.tasks_dir.as_str(), name)
    }

    /// The configuration file of the task `name`, whether it exists or not.
    pub fn task_config_path(&self, name: &str) -> (path: String)
        ensures
            path@ == self@.task_config_file(name@),
    {
        let dir = self.task_dir(name);
        join(dir.as_str(), "config.toml")
    }

    /// The file `file` of the task `name`, whether it exists or not.
    pub fn task_file_path(&self, name: &str, file: TaskFile) -> (path: String)
        ensures
            path@ == self@.task_file(name@, file),
    {
        let dir = self.task_dir(name);
        join(dir.as_str(), file.file_name())
    }

    /// Check if the environment exists, from whether its directory and its
    /// configuration file do.
    pub fn is_there(&self, grill_dir_exists: bool, config_file_exists: bool) -> (there: bool)
        ensures
            there == self@.is_there(grill_dir_exists, config_file_exists),
    {
        grill_dir_exists && config_file_exists
    }

    /// Initialize a new grill environment: says what to change on disk, from
    /// whether the configuration file, the record of the current task and the
    /// directory of the task `default` exist.
    pub fn init(
        &self,
        config_file_exists: bool,
        current_task_file_exists: bool,
        default_task_exists: bool,
    ) -> (plan: InitPlan)
        ensures
            op_views(plan.ops@) == self@.init_ops(
                config_file_exists,
                current_task_file_exists,
                default_task_exists,
            ),
            match plan.failure {
                Some(e) => Some(e@),
                None => None,
            } == self@.init_failure(current_task_file_exists, default_task_exists),
    {
        let mut ops: Vec<FsOp> = Vec::new();
        let mut failure: Option<EnvError> = None;
        ops.push(
            FsOp::CreateDirAll {
                path: self.tasks_dir.clone(),
                context: "Failed to create tasks directory".to_owned(),
            },
        );
        if !config_file_exists {
            ops.push(
                FsOp::WriteFile {
                    path: self.config_file.clone(),
                    content:
                        "# Grill Configuration\ndefault_cli = \"q chat\"\n\n[clis]\nq = \"q chat\"\n".to_owned(),
                    context: "Failed to write default config file".to_owned(),
                },
            );
        }
        if !current_task_file_exists {
            ops.push(
                FsOp::WriteFile {
                    path: self.current_task_file.clone(),
                    content: "default".to_owned(),
                    context: "Failed to write current task file".to_owned(),
                },
            );
            match self.create_task("default", default_task_exists) {
                Ok(mut task_ops) => {
                    let ghost before = op_views(ops@);
                    let ghost added = op_views(task_ops@);
                    ops.append(&mut task_ops);
                    assert(op_views(ops@) =~= before + added);
                },
                Err(e) => {
                    failure = Some(e);
                },
            }
        }
        assert(op_views(ops@) =~= self@.init_ops(
            config_file_exists,
            current_task_file_exists,
            default_task_exists,
        ));
        InitPlan { ops, failure }
    }

    /// List all tasks, from the entries of the directory of the tasks; `None`
    /// where that directory does not exist.
    pub fn list_tasks(&self, entries: Option<Vec<DirEntry>>) -> (tasks: Vec<String>)
        ensures
            views(tasks@) == match entries {
                Some(entries) => task_names(entry_views(entries@)),
                None => Seq::empty(),
            },
    {
        let mut tasks: Vec<String> = Vec::new();
        let entries = match entries {
            Some(entries) => entries,
            None => {
                assert(views(tasks@) =~= Seq::empty());
                return tasks;
            },
        };
        let mut i: usize = 0;
        assert(entry_views(entries@).take(0) =~= Seq::empty());
        assert(views(tasks@) =~= Seq::empty());
        while i < entries.len()
            invariant
                i <= entries.len(),
                views(tasks@) == task_names(entry_views(entries@).take(i as int)),
            decreases entries.len() - i,
        {
            let ghost all = entry_views(entries@);
            assert(all.take(i + 1).drop_last() =~= all.take(i as int));
            assert(all.take(i + 1).last() == entries@[i as int]@);
            if entries[i].is_dir {
                match &entries[i].name {
                    Some(name) => {
                        let ghost before = views(tasks@);
                        tasks.push(name.clone());
                        assert(views(tasks@) =~= before.push(name@));
                    },
                    None => {},
                }
            }
            i += 1;
        }
        assert(entry_views(entries@).take(i as int) =~= entry_views(entries@));
        tasks
    }

    /// Create a new task: says what to change on disk, from whether the task's
    /// directory exists.
    pub fn create_task(&self, name: &str, task_dir_exists: bool) -> (plan: Result<
        Vec<FsOp>,
        EnvError,
    >)
        ensures
            plan_view(plan) == self@.create_task(name@, task_dir_exists),
    {
        if task_dir_exists {
            return Err(EnvError::AlreadyExists(name.to_owned()));
        }
        let dir = self.task_dir(name);
        let mut ops: Vec<FsOp> = Vec::new();
        ops.push(
            FsOp::CreateDirAll {
                path: dir.clone(),
                context: quoted("Failed to create task directory for '", name),
            },
        );
        ops.push(
            FsOp::WriteFile {
                path: join(dir.as_str(), "instructions.md"),
                content: "# Task Instructions\n\nAdd your instructions here.\n".to_owned(),
                context: quoted("Failed to create instructions file for task '", name),
            },
        );
        ops.push(
            FsOp::WriteFile {
                path: join(dir.as_str(), "state.md"),
                content: "# Task State\n\nTask state will be tracked here.\n".to_owned(),
                context: quoted("Failed to create state file for task '", name),
            },
        );
        ops.push(
            FsOp::WriteFile {
                path: join(dir.as_str(), "config.toml"),
                content: "# Task Configuration\ncli = \"q chat\"\n".to_owned(),
                context: quoted("Failed to create config file for task '", name),
            },
        );
        assert(op_views(ops@) =~= self@.create_task(name@, task_dir_exists)->Ok_0);
        Ok(ops)
    }

    /// Get the current task name, from what reading the file that records it
    /// gave.
    pub fn get_current_task(&self, read: FileRead) -> (task: Result<String, EnvError>)
        ensures
            text_view(task) == self@.get_current_task(read@),
    {
        match read {
            FileRead::Missing => Err(EnvError::NotSet),
            FileRead::Unreadable(_) => Err(
                EnvError::Io("Failed to read current task file".to_owned()),
            ),
            FileRead::Text(text) => Ok(trim(text.as_str())),
        }
    }

    /// Get the path to a task directory, from whether the directory exists.
    pub fn get_task_dir(&self, name: &str, task_dir_exists: bool) -> (dir: Result<String, EnvError>)
        ensures
            text_view(dir) == self@.get_task_dir(name@, task_dir_exists),
    {
        if task_dir_exists {
            Ok(self.task_dir(name))
        } else {
            Err(EnvError::NotFound(name.to_owned()))
        }
    }

    /// Set the current task: says what to change on disk, from whether the
    /// task's directory exists.
    pub fn set_current_task(&self, name: &str, task_dir_exists: bool) -> (plan: Result<
        Vec<FsOp>,
        EnvError,
    >)
        ensures
            plan_view(plan) == self@.set_current_task(name@, task_dir_exists),
    {
        if !task_dir_exists {
            return Err(EnvError::NotFound(name.to_owned()));
        }
        let mut ops: Vec<FsOp> = Vec::new();
        ops.push(
            FsOp::WriteFile {
                path: self.current_task_file.clone(),
                content: name.to_owned(),
                context: quoted("Failed to set current task to '", name),
            },
        );
        assert(op_views(ops@) =~= self@.set_current_task(name@, task_dir_exists)->Ok_0);
        Ok(ops)
    }

    /// Whether the task `name` is the current one, from what reading the file
    /// that records the current task gave.
    pub fn is_current_task(&self, name: &str, current: &FileRead) -> (is_current: bool)
        ensures
            is_current == self@.is_current_task(name@, current@),
    {
        match current {
            FileRead::Text(text) => {
                let recorded = trim(text.as_str());
                str_eq(recorded.as_str(), name)
            },
            _ => false,
        }
    }

    /// Delete a task: says what to change on disk, from whether the task's
    /// directory exists and from what reading the file that records the current
    /// task gave.
    pub fn delete_task(&self, name: &str, task_dir_exists: bool, current: FileRead) -> (plan:
        Result<Vec<FsOp>, EnvError>)
        ensures
            plan_view(plan) == self@.delete_task(name@, task_dir_exists, current@),
    {
        if !task_dir_exists {
            return Err(EnvError::NotFound(name.to_owned()));
        }
        if self.is_current_task(name, &current) {
            return Err(EnvError::IsCurrent);
        }
        let mut ops: Vec<FsOp> = Vec::new();
        ops.push(
            FsOp::RemoveDirAll {
                path: self.task_dir(name),
                context: quoted("Failed to delete task '", name),
            },
        );
        assert(op_views(ops@) =~= self@.delete_task(name@, task_dir_exists, current@)->Ok_0);
        Ok(ops)
    }
}

} // verus!
