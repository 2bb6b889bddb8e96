//! A model of the disk, and what the operations of the environment come to on
//! it.

use crate::context_switch::FileReadView;
use crate::environment::{
    default_instructions, default_state, default_task_config, join_spec, EnvErrorView, EnvPaths,
    FsOpView,
};
use crate::text::starts_with_spec;
use vstd::prelude::*;

verus! {

/// What a path of the disk holds.
pub enum Node {
    /// A directory.
    Dir,
    /// A file, with its content.
    File(Seq<char>),
}

/// A disk, as far as the environment looks at it: what each path holds.
pub struct Disk {
    pub nodes: Map<Seq<char>, Node>,
}

impl Disk {
    /// Whether something is at `path`.
    pub open spec fn has(self, path: Seq<char>) -> bool {
        self.nodes.dom().contains(path)
    }

    /// What reading the file at `path` gives.
    pub open spec fn read(self, path: Seq<char>) -> FileReadView {
        if !self.has(path) {
            FileReadView::Missing
        } else {
            match self.nodes[path] {
                Node::File(content) => FileReadView::Text(content),
                Node::Dir => FileReadView::Unreadable("Is a directory"@),
            }
        }
    }

    /// Whether `path` lies under the directory `dir`.
    pub open spec fn under(path: Seq<char>, dir: Seq<char>) -> bool {
        starts_with_spec(path, dir + "/"@)
    }

    /// The disk after the change `op` was made. Making a directory makes the
    /// directories above it too, and leaves what is there as it is; writing a
    /// file replaces what the path held; removing a directory removes all that
    /// lies under it.
    pub open spec fn apply(self, op: FsOpView) -> Disk {
        match op {
            FsOpView::CreateDirAll { path, .. } => Disk {
                nodes: Map::new(
                    |p: Seq<char>| self.has(p) || p == path || Disk::under(path, p),
                    |p: Seq<char>|
                        if self.has(p) {
                            self.nodes[p]
                        } else {
                            Node::Dir
                        },
                ),
            },
            FsOpView::WriteFile { path, content, .. } => Disk {
                nodes: self.nodes.insert(path, Node::File(content)),
            },
            FsOpView::RemoveDirAll { path, .. } => Disk {
                nodes: self.nodes.restrict(
                    Set::new(|p: Seq<char>| p != path && !Disk::under(p, path)),
                ),
            },
        }
    }

    /// The disk after the changes `ops` were made, in order.
    pub open spec fn apply_all(self, ops: Seq<FsOpView>) -> Disk
        decreases ops.len(),
    {
        if ops.len() == 0 {
            self
        } else {
            self.apply_all(ops.drop_last()).apply(ops.last())
        }
    }

    /// The disk after the environment was set up on it.
    pub open spec fn after_init(self, env: EnvPaths) -> Disk {
        self.apply_all(
            env.init_ops(
                self.has(env.config_file),
                self.has(env.current_task_file),
                self.has(env.task_dir("default"@)),
            ),
        )
    }
}

proof fn lemma_apply_one(disk: Disk, a: FsOpView)
    ensures
        disk.apply_all(seq![a]) == disk.apply(a),
{
    assert(seq![a].drop_last() =~= Seq::<FsOpView>::empty());
    assert(disk.apply_all(Seq::<FsOpView>::empty()) == disk);
}

proof fn lemma_apply_four(disk: Disk, a: FsOpView, b: FsOpView, c: FsOpView, d: FsOpView)
    ensures
        disk.apply_all(seq![a, b, c, d]) == disk.apply(a).apply(b).apply(c).apply(d),
{
    lemma_apply_one(disk, a);
    assert(seq![a, b].drop_last() =~= seq![a]);
    assert(seq![a, b, c].drop_last() =~= seq![a, b]);
    assert(seq![a, b, c, d].drop_last() =~= seq![a, b, c]);
    assert(disk.apply_all(seq![a, b]) == disk.apply_all(seq![a]).apply(b));
    assert(disk.apply_all(seq![a, b, c]) == disk.apply_all(seq![a, b]).apply(c));
    assert(disk.apply_all(seq![a, b, c, d]) == disk.apply_all(seq![a, b, c]).apply(d));
}

proof fn lemma_apply_concat(disk: Disk, first: Seq<FsOpView>, second: Seq<FsOpView>)
    ensures
        disk.apply_all(first + second) == disk.apply_all(first).apply_all(second),
    decreases second.len(),
{
    if second.len() == 0 {
        assert(first + second =~= first);
    } else {
        lemma_apply_concat(disk, first, second.drop_last());
        assert((first + second).drop_last() =~= first + second.drop_last());
        assert((first + second).last() == second.last());
    }
}

/// The paths of the three files of a task differ from each other and from the
/// task's directory.
proof fn lemma_task_files_differ(dir: Seq<char>)
    ensures
        join_spec(dir, "instructions.md"@) != join_spec(dir, "state.md"@),
        join_spec(dir, "instructions.md"@) != join_spec(dir, "config.toml"@),
        join_spec(dir, "state.md"@) != join_spec(dir, "config.toml"@),
        join_spec(dir, "instructions.md"@) != dir,
        join_spec(dir, "state.md"@) != dir,
        join_spec(dir, "config.toml"@) != dir,
{
    reveal_strlit("instructions.md");
    reveal_strlit("state.md");
    reveal_strlit("config.toml");
    reveal_strlit("/");
    assert(join_spec(dir, "instructions.md"@).len() == dir.len() + 16);
    assert(join_spec(dir, "state.md"@).len() == dir.len() + 9);
    assert(join_spec(dir, "config.toml"@).len() == dir.len() + 12);
}

/// After a task that did not exist was created, its directory is found, and its
/// three files hold their first contents.
pub proof fn law_create_then_find(env: EnvPaths, disk: Disk, name: Seq<char>)
    requires
        !disk.has(env.task_dir(name)),
    ensures
        ({
            let dir = env.task_dir(name);
            let plan = env.create_task(name, disk.has(dir));
            &&& plan is Ok
            &&& ({
                let after = disk.apply_all(plan->Ok_0);
                &&& env.get_task_dir(name, after.has(dir)) == Ok::<Seq<char>, EnvErrorView>(dir)
                &&& after.read(join_spec(dir, "instructions.md"@)) == FileReadView::Text(
                    default_instructions(),
                )
                &&& after.read(join_spec(dir, "state.md"@)) == FileReadView::Text(default_state())
                &&& after.read(join_spec(dir, "config.toml"@)) == FileReadView::Text(
                    default_task_config(),
                )
            })
        }),
{
    let dir = env.task_dir(name);
    let ops = env.create_task(name, false)->Ok_0;
    lemma_task_files_differ(dir);
    lemma_apply_four(disk, ops[0], ops[1], ops[2], ops[3]);
    assert(ops =~= seq![ops[0], ops[1], ops[2], ops[3]]);
}

/// The path that a change is made at.
pub open spec fn path_of(op: FsOpView) -> Seq<char> {
    match op {
        FsOpView::CreateDirAll { path, .. } => path,
        FsOpView::WriteFile { path, .. } => path,
        FsOpView::RemoveDirAll { path, .. } => path,
    }
}

/// Changes that remove nothing leave what is there, and leave it as it is where
/// they do not write to it.
proof fn lemma_kept(disk: Disk, ops: Seq<FsOpView>, path: Seq<char>)
    requires
        forall|i: int| 0 <= i < ops.len() ==> !((#[trigger] ops[i]) is RemoveDirAll),
        disk.has(path),
    ensures
        disk.apply_all(ops).has(path),
        (forall|i: int| 0 <= i < ops.len() && (#[trigger] ops[i]) is WriteFile ==> path_of(ops[i])
            != path) ==> disk.apply_all(ops).nodes[path] == disk.nodes[path],
    decreases ops.len(),
{
    if ops.len() > 0 {
        let before = ops.drop_last();
        assert forall|i: int| 0 <= i < before.len() implies !((#[trigger] before[i]) is RemoveDirAll) by {
            assert(before[i] == ops[i]);
        }
        lemma_kept(disk, before, path);
        assert(!(ops[ops.len() - 1] is RemoveDirAll));
        if forall|i: int| 0 <= i < ops.len() && (#[trigger] ops[i]) is WriteFile ==> path_of(ops[i])
            != path {
            assert forall|i: int| 0 <= i < before.len() && (#[trigger] before[i]) is WriteFile implies path_of(
                before[i],
            ) != path by {
                assert(before[i] == ops[i]);
            }
            assert(ops[ops.len() - 1] is WriteFile ==> path_of(ops[ops.len() - 1]) != path);
        }
    }
}

/// The files of the environment under `root` are not among the paths of its
/// tasks, and differ from each other; its directory lies above that of its
/// tasks.
proof fn lemma_env_files_apart(root: Seq<char>, rest: Seq<char>)
    ensures
        ({
            let env = EnvPaths::under(root);
            &&& env.config_file != env.current_task_file
            &&& env.config_file != env.tasks_dir
            &&& env.current_task_file != env.tasks_dir
            &&& env.config_file != env.tasks_dir + rest
            &&& env.current_task_file != env.tasks_dir + rest
            &&& !Disk::under(env.config_file, env.tasks_dir + rest)
            &&& !Disk::under(env.current_task_file, env.tasks_dir + rest)
            &&& Disk::under(env.tasks_dir, env.grill_dir)
        }),
{
    reveal_strlit(".grill");
    reveal_strlit("tasks");
    reveal_strlit("config.toml");
    reveal_strlit("current_task");
    reveal_strlit("/");
    let env = EnvPaths::under(root);
    let g = env.grill_dir.len() as int;
    assert(env.config_file[g + 1] == 'c');
    assert(env.config_file[g + 2] == 'o');
    assert(env.current_task_file[g + 1] == 'c');
    assert(env.current_task_file[g + 2] == 'u');
    assert(env.tasks_dir[g + 1] == 't');
    assert((env.tasks_dir + rest)[g + 1] == 't');
    let above = env.tasks_dir + rest + "/"@;
    assert(above[g + 1] == 't');
    if Disk::under(env.config_file, env.tasks_dir + rest) {
        assert(env.config_file.subrange(0, above.len() as int)[g + 1] == above[g + 1]);
    }
    if Disk::under(env.current_task_file, env.tasks_dir + rest) {
        assert(env.current_task_file.subrange(0, above.len() as int)[g + 1] == above[g + 1]);
    }
    assert(env.tasks_dir.subrange(0, g + 1) =~= env.grill_dir + "/"@);
}

/// Deleting a task fails as `NotFound` exactly when the task does not exist, and
/// as `IsCurrent` exactly when it exists and is the current one. Otherwise the
/// task is deleted: it is not found afterwards, and what lies outside its
/// directory, the record of the current task with it, is as it was.
pub proof fn law_delete_task(root: Seq<char>, disk: Disk, name: Seq<char>)
    ensures
        ({
            let env = EnvPaths::under(root);
            let dir = env.task_dir(name);
            let current = disk.read(env.current_task_file);
            let plan = env.delete_task(name, disk.has(dir), current);
            &&& plan == Err::<Seq<FsOpView>, EnvErrorView>(EnvErrorView::NotFound(name))
                <==> !disk.has(dir)
            &&& plan == Err::<Seq<FsOpView>, EnvErrorView>(EnvErrorView::IsCurrent) <==> disk.has(
                dir,
            ) && env.is_current_task(name, current)
            &&& disk.has(dir) && !env.is_current_task(name, current) ==> plan is Ok && ({
                let after = disk.apply_all(plan->Ok_0);
                &&& !after.has(dir)
                &&& env.get_task_dir(name, after.has(dir)) == Err::<Seq<char>, EnvErrorView>(
                    EnvErrorView::NotFound(name),
                )
                &&& forall|p: Seq<char>|
                    p != dir && !Disk::under(p, dir) ==> (#[trigger] after.has(p)) == disk.has(p)
                        && (disk.has(p) ==> after.nodes[p] == disk.nodes[p])
                &&& after.read(env.current_task_file) == current
            })
        }),
{
    let env = EnvPaths::under(root);
    let dir = env.task_dir(name);
    let current = disk.read(env.current_task_file);
    if disk.has(dir) && !env.is_current_task(name, current) {
        let ops = env.delete_task(name, true, current)->Ok_0;
        lemma_apply_one(disk, ops[0]);
        assert(ops =~= seq![ops[0]]);
        assert(dir =~= env.tasks_dir + ("/"@ + name));
        lemma_env_files_apart(root, "/"@ + name);
    }
}

/// Setting the environment up never overwrites a configuration file or a record
/// of the current task that is there. After it the environment is there, with
/// a record of the current task. Setting it up once more writes no file and
/// changes nothing.
pub proof fn law_init_is_idempotent(root: Seq<char>, disk: Disk)
    ensures
        ({
            let env = EnvPaths::under(root);
            let after = disk.after_init(env);
            &&& env.is_there(after.has(env.grill_dir), after.has(env.config_file))
            &&& after.has(env.current_task_file)
            &&& disk.has(env.config_file) ==> after.nodes[env.config_file]
                == disk.nodes[env.config_file]
            &&& disk.has(env.current_task_file) ==> after.nodes[env.current_task_file]
                == disk.nodes[env.current_task_file]
            &&& env.init_ops(
                after.has(env.config_file),
                after.has(env.current_task_file),
                after.has(env.task_dir("default"@)),
            ) == seq![
                FsOpView::CreateDirAll {
                    path: env.tasks_dir,
                    context: "Failed to create tasks directory"@,
                },
            ]
            &&& after.after_init(env) == after
        }),
{
    let env = EnvPaths::under(root);
    let has_config = disk.has(env.config_file);
    let has_current = disk.has(env.current_task_file);
    let has_default = disk.has(env.task_dir("default"@));
    let ops = env.init_ops(has_config, has_current, has_default);
    let after = disk.after_init(env);
    let dir = env.task_dir("default"@);
    let mkdir = seq![
        FsOpView::CreateDirAll { path: env.tasks_dir, context: "Failed to create tasks directory"@ },
    ];
    let config = if has_config {
        Seq::empty()
    } else {
        seq![
            FsOpView::WriteFile {
                path: env.config_file,
                content: crate::environment::default_config(),
                context: "Failed to write default config file"@,
            },
        ]
    };
    let task = match env.create_task("default"@, has_default) {
        Ok(ops) => ops,
        Err(_) => Seq::empty(),
    };
    let current = if has_current {
        Seq::empty()
    } else {
        seq![
            FsOpView::WriteFile {
                path: env.current_task_file,
                content: "default"@,
                context: "Failed to write current task file"@,
            },
        ] + task
    };
    assert(ops == mkdir + config + current);
    lemma_apply_concat(disk, mkdir + config, current);
    lemma_apply_concat(disk, mkdir, config);
    let d1 = disk.apply_all(mkdir);
    let d2 = d1.apply_all(config);
    assert(after == d2.apply_all(current));
    lemma_apply_one(disk, mkdir[0]);
    assert(mkdir =~= seq![mkdir[0]]);
    // the paths of the task `default`
    reveal_strlit("/");
    let slash_default = "/"@ + "default"@;
    assert(dir =~= env.tasks_dir + slash_default);
    assert(join_spec(dir, "instructions.md"@) =~= env.tasks_dir + (slash_default + "/"@
        + "instructions.md"@));
    assert(join_spec(dir, "state.md"@) =~= env.tasks_dir + (slash_default + "/"@ + "state.md"@));
    assert(join_spec(dir, "config.toml"@) =~= env.tasks_dir + (slash_default + "/"@
        + "config.toml"@));
    lemma_env_files_apart(root, slash_default);
    lemma_env_files_apart(root, slash_default + "/"@ + "instructions.md"@);
    lemma_env_files_apart(root, slash_default + "/"@ + "state.md"@);
    lemma_env_files_apart(root, slash_default + "/"@ + "config.toml"@);
    assert forall|i: int| 0 <= i < task.len() implies path_of(#[trigger] task[i]) != env.config_file
        && path_of(task[i]) != env.current_task_file && !(task[i] is RemoveDirAll) by {}
    assert forall|i: int| 0 <= i < current.len() implies !((#[trigger] current[i]) is RemoveDirAll)
        && path_of(current[i]) != env.config_file && (i >= 1 ==> path_of(current[i])
        != env.current_task_file) by {
        if i >= 1 {
            assert(current[i] == task[i - 1]);
        }
    }
    assert forall|i: int| 0 <= i < config.len() implies !((#[trigger] config[i]) is RemoveDirAll)
        && path_of(config[i]) != env.current_task_file by {}
    // what the first change makes: the directory of the tasks and those above it
    assert(d1.has(env.tasks_dir));
    assert(d1.has(env.grill_dir));
    assert(has_config ==> d1.has(env.config_file) && d1.nodes[env.config_file]
        == disk.nodes[env.config_file]);
    assert(has_current ==> d1.has(env.current_task_file) && d1.nodes[env.current_task_file]
        == disk.nodes[env.current_task_file]);
    // the configuration file
    if has_config {
        assert(d2 == d1);
    } else {
        lemma_apply_one(d1, config[0]);
        assert(config =~= seq![config[0]]);
    }
    assert(d2.has(env.config_file));
    lemma_kept(d2, current, env.config_file);
    // the record of the current task
    if has_current {
        lemma_kept(d1, config, env.current_task_file);
        assert(after == d2);
    } else {
        let write = seq![current[0]];
        assert(current =~= write + task);
        lemma_apply_concat(d2, write, task);
        lemma_apply_one(d2, current[0]);
        lemma_kept(d2.apply_all(write), task, env.current_task_file);
    }
    // once more
    let again = env.init_ops(
        after.has(env.config_file),
        after.has(env.current_task_file),
        after.has(env.task_dir("default"@)),
    );
    assert(again =~= mkdir);
    lemma_apply_one(after, mkdir[0]);
    assert forall|p: Seq<char>| p == env.tasks_dir || Disk::under(env.tasks_dir, p) implies after.has(
        p,
    ) by {
        assert(d1.has(p));
        lemma_kept(d1, config, p);
        lemma_kept(d2, current, p);
    }
    assert(after.apply(mkdir[0]).nodes =~= after.nodes);
}

} // verus!
