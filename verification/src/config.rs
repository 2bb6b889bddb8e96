//! The global configuration and the configuration of a task.

use crate::text::str_eq;
use vstd::prelude::*;

verus! {

/// The views of the pairs of `v`, in order.
pub open spec fn pair_views(v: Seq<(String, String)>) -> Seq<(Seq<char>, Seq<char>)> {
    v.map_values(|p: (String, String)| (p.0@, p.1@))
}

/// No name occurs twice among the first parts of the pairs of `v`.
pub open spec fn distinct_names(v: Seq<(Seq<char>, Seq<char>)>) -> bool {
    forall|i: int, j: int| 0 <= i < j < v.len() ==> (#[trigger] v[i]).0 != (#[trigger] v[j]).0
}

/// The command that starts the child where nothing else is configured.
pub open spec fn default_cli_spec() -> Seq<char> {
    "q chat"@
}

/// The command that starts the child where nothing else is configured.
pub fn default_cli() -> (cli: String)
    ensures
        cli@ == default_cli_spec(),
{
    "q chat".to_owned()
}

/// Global configuration for grill
#[derive(Debug, PartialEq, Eq)]
pub struct Config {
    /// Default CLI to use
    pub default_cli: String,
    /// Available CLIs, each a name and the command that starts it
    pub clis: Vec<(String, String)>,
    /// Hooks to run on task switch, each a name and a command
    pub hooks: Vec<(String, String)>,
}

/// What a [`Config`] stands for.
pub struct ConfigView {
    pub default_cli: Seq<char>,
    pub clis: Seq<(Seq<char>, Seq<char>)>,
    pub hooks: Seq<(Seq<char>, Seq<char>)>,
}

impl ConfigView {
    /// No CLI and no hook is named twice.
    pub open spec fn wf(self) -> bool {
        distinct_names(self.clis) && distinct_names(self.hooks)
    }

    /// The configuration that holds where no file says otherwise: the default
    /// CLI, known under the name `q`, and no hooks.
    pub open spec fn initial() -> ConfigView {
        ConfigView {
            default_cli: default_cli_spec(),
            clis: seq![("q"@, "q chat"@)],
            hooks: Seq::empty(),
        }
    }
}

impl View for Config {
    type V = ConfigView;

    open spec fn view(&self) -> ConfigView {
        ConfigView {
            default_cli: self.default_cli@,
            clis: pair_views(self.clis@),
            hooks: pair_views(self.hooks@),
        }
    }
}

impl Default for Config {
    fn default() -> (config: Config)
        ensures
            config@ == ConfigView::initial(),
            config@.wf(),
    {
        let mut clis: Vec<(String, String)> = Vec::new();
        clis.push(("q".to_owned(), "q chat".to_owned()));
        let config = Config { default_cli: default_cli(), clis, hooks: Vec::new() };
        assert(config@.clis =~= ConfigView::initial().clis);
        assert(config@.hooks =~= ConfigView::initial().hooks);
        config
    }
}

impl Config {
    /// Get the default CLI command
    pub fn get_default_cli(&self) -> (cli: &str)
        ensures
            cli@ == self@.default_cli,
    {
        self.default_cli.as_str()
    }

    /// Whether no CLI and no hook is named twice.
    pub fn is_valid(&self) -> (valid: bool)
        ensures
            valid == self@.wf(),
    {
        has_distinct_names(&self.clis) && has_distinct_names(&self.hooks)
    }
}

/// Whether no name occurs twice among the first parts of the pairs of `v`.
pub fn has_distinct_names(v: &Vec<(String, String)>) -> (distinct: bool)
    ensures
        distinct == distinct_names(pair_views(v@)),
{
    let mut j: usize = 0;
    while j < v.len()
        invariant
            j <= v.len(),
            forall|a: int, b: int|
                0 <= a < b < j ==> (#[trigger] pair_views(v@)[a]).0 != (#[trigger] pair_views(
                    v@,
                )[b]).0,
        decreases v.len() - j,
    {
        let mut i: usize = 0;
        while i < j
            invariant
                i <= j < v.len(),
                forall|a: int| 0 <= a < i ==> (#[trigger] pair_views(v@)[a]).0 != pair_views(v@)[j as int].0,
            decreases j - i,
        {
            if str_eq(v[i].0.as_str(), v[j].0.as_str()) {
                assert(pair_views(v@)[i as int].0 == pair_views(v@)[j as int].0);
                return false;
            }
            i += 1;
        }
        j += 1;
    }
    true
}

/// Task-specific configuration
#[derive(Debug, PartialEq, Eq)]
pub struct TaskConfig {
    /// CLI to use for the task
    pub cli: Option<String>,
    /// Task-specific hooks, each a name and a command
    pub hooks: Vec<(String, String)>,
}

/// What a [`TaskConfig`] stands for.
pub struct TaskConfigView {
    pub cli: Option<Seq<char>>,
    pub hooks: Seq<(Seq<char>, Seq<char>)>,
}

impl TaskConfigView {
    /// No hook is named twice.
    pub open spec fn wf(self) -> bool {
        distinct_names(self.hooks)
    }

    /// The configuration of a task that has no configuration file: no CLI of its
    /// own and no hooks.
    pub open spec fn initial() -> TaskConfigView {
        TaskConfigView { cli: None, hooks: Seq::empty() }
    }
}

impl View for TaskConfig {
    type V = TaskConfigView;

    open spec fn view(&self) -> TaskConfigView {
        TaskConfigView {
            cli: match self.cli {
                Some(cli) => Some(cli@),
                None => None,
            },
            hooks: pair_views(self.hooks@),
        }
    }
}

impl Default for TaskConfig {
    fn default() -> (config: TaskConfig)
        ensures
            config@ == TaskConfigView::initial(),
            config@.wf(),
    {
        let config = TaskConfig { cli: None, hooks: Vec::new() };
        assert(config@.hooks =~= TaskConfigView::initial().hooks);
        config
    }
}

impl TaskConfig {
    /// Get the CLI command of the task
    pub fn get_cli(&self) -> (cli: Option<&str>)
        ensures
            match cli {
                Some(cli) => self@.cli == Some(cli@),
                None => self@.cli is None,
            },
    {
        match &self.cli {
            Some(cli) => Some(cli.as_str()),
            None => None,
        }
    }
}

/// The command that starts the child for a task: the task's own CLI where its
/// configuration names one, the default CLI of the global configuration
/// otherwise.
pub open spec fn resolved_cli(task: TaskConfigView, global: ConfigView) -> Seq<char> {
    match task.cli {
        Some(cli) => cli,
        None => global.default_cli,
    }
}

} // verus!
