//! Workflows and their configuration.
use crate::model::{self, Duplicate};
use crate::text::same;
use vstd::prelude::*;

verus! {

/// The workflows on offer and the defaults that hold for all of them.
#[derive(Debug)]
pub struct Config {
    pub workflows: Vec<Workflow>,
    pub default_workflow: Option<String>,
    /// Whether an agent runs sandboxed where its step does not say.
    pub default_sandbox_mode: bool,
}

/// What a [`Config`] holds.
#[verifier::ext_equal]
pub struct ConfigView {
    pub workflows: Seq<WorkflowView>,
    pub default_workflow: Option<Seq<char>>,
    pub default_sandbox_mode: bool,
}

impl DeepView for Config {
    type V = ConfigView;

    open spec fn deep_view(&self) -> ConfigView {
        ConfigView {
            workflows: self.workflows.deep_view(),
            default_workflow: self.default_workflow.deep_view(),
            default_sandbox_mode: self.default_sandbox_mode,
        }
    }
}

impl Clone for Config {
    fn clone(&self) -> (r: Self)
        ensures
            r.deep_view() == self.deep_view(),
    {
        Config {
            workflows: self.workflows.duplicate(),
            default_workflow: self.default_workflow.duplicate(),
            default_sandbox_mode: self.default_sandbox_mode,
        }
    }
}

impl Duplicate for Config {
    fn duplicate(&self) -> (r: Self) {
        self.clone()
    }
}

/// A named list of steps.
#[derive(Debug)]
pub struct Workflow {
    pub name: String,
    pub description: Option<String>,
    pub steps: Vec<WorkflowStep>,
}

/// What a [`Workflow`] holds.
#[verifier::ext_equal]
pub struct WorkflowView {
    pub name: Seq<char>,
    pub description: Option<Seq<char>>,
    pub steps: Seq<WorkflowStepView>,
}

impl DeepView for Workflow {
    type V = WorkflowView;

    open spec fn deep_view(&self) -> WorkflowView {
        WorkflowView {
            name: self.name@,
            description: self.description.deep_view(),
            steps: self.steps.deep_view(),
        }
    }
}

impl Clone for Workflow {
    fn clone(&self) -> (r: Self)
        ensures
            r.deep_view() == self.deep_view(),
    {
        Workflow {
            name: self.name.clone(),
            description: self.description.duplicate(),
            steps: self.steps.duplicate(),
        }
    }
}

impl Duplicate for Workflow {
    fn duplicate(&self) -> (r: Self) {
        self.clone()
    }
}

/// One step: an agent prompt, a shell command, or nothing.
#[derive(Debug)]
pub struct WorkflowStep {
    pub name: String,
    pub command: Option<String>,
    pub claude: Option<ClaudeStep>,
    pub description: Option<String>,
}

/// What a [`WorkflowStep`] holds.
#[verifier::ext_equal]
pub struct WorkflowStepView {
    pub name: Seq<char>,
    pub command: Option<Seq<char>>,
    pub claude: Option<ClaudeStepView>,
    pub description: Option<Seq<char>>,
}

impl DeepView for WorkflowStep {
    type V = WorkflowStepView;

    open spec fn deep_view(&self) -> WorkflowStepView {
        WorkflowStepView {
            name: self.name@,
            command: self.command.deep_view(),
            claude: self.claude.deep_view(),
            description: self.description.deep_view(),
        }
    }
}

impl Clone for WorkflowStep {
    fn clone(&self) -> (r: Self)
        ensures
            r.deep_view() == self.deep_view(),
    {
        WorkflowStep {
            name: self.name.clone(),
            command: self.command.duplicate(),
            claude: self.claude.duplicate(),
            description: self.description.duplicate(),
        }
    }
}

impl Duplicate for WorkflowStep {
    fn duplicate(&self) -> (r: Self) {
        self.clone()
    }
}

/// What an agent is started with.
#[derive(Debug)]
pub struct ClaudeStep {
    pub prompt: String,
    pub model: Option<String>,
    pub allowed_tools: Option<Vec<String>>,
    pub permission_mode: Option<String>,
    pub extra_args: Option<Vec<String>>,
    /// Whether the agent runs sandboxed; `None` takes the default of the configuration.
    pub sandbox_mode: Option<bool>,
}

/// What a [`ClaudeStep`] holds.
#[verifier::ext_equal]
pub struct ClaudeStepView {
    pub prompt: Seq<char>,
    pub model: Option<Seq<char>>,
    pub allowed_tools: Option<Seq<Seq<char>>>,
    pub permission_mode: Option<Seq<char>>,
    pub extra_args: Option<Seq<Seq<char>>>,
    pub sandbox_mode: Option<bool>,
}

impl DeepView for ClaudeStep {
    type V = ClaudeStepView;

    open spec fn deep_view(&self) -> ClaudeStepView {
        ClaudeStepView {
            prompt: self.prompt@,
            model: self.model.deep_view(),
            allowed_tools: self.allowed_tools.deep_view(),
            permission_mode: self.permission_mode.deep_view(),
            extra_args: self.extra_args.deep_view(),
            sandbox_mode: self.sandbox_mode,
        }
    }
}

impl Clone for ClaudeStep {
    fn clone(&self) -> (r: Self)
        ensures
            r.deep_view() == self.deep_view(),
    {
        ClaudeStep {
            prompt: self.prompt.clone(),
            model: self.model.duplicate(),
            allowed_tools: self.allowed_tools.duplicate(),
            permission_mode: self.permission_mode.duplicate(),
            extra_args: self.extra_args.duplicate(),
            sandbox_mode: self.sandbox_mode,
        }
    }
}

impl Duplicate for ClaudeStep {
    fn duplicate(&self) -> (r: Self) {
        self.clone()
    }
}

/// The names of some workflows.
pub open spec fn workflow_names(workflows: Seq<WorkflowView>) -> Seq<Seq<char>> {
    Seq::new(workflows.len(), |i: int| workflows[i].name)
}

/// A step of the default workflow.
pub open spec fn default_step(
    name: Seq<char>,
    command: Seq<char>,
    description: Seq<char>,
) -> WorkflowStepView {
    WorkflowStepView {
        name,
        command: Some(command),
        claude: None,
        description: Some(description),
    }
}

/// The configuration that holds where none is given: one workflow of three steps.
pub open spec fn default_config() -> ConfigView {
    ConfigView {
        workflows: seq![
            WorkflowView {
                name: "default"@,
                description: Some("標準的な分析→実装→テストの3ステップ"@),
                steps: seq![
                    default_step("分析"@, "echo 'Analyzing issue context'"@, "Issue内容の分析を実施"@),
                    default_step("実装"@, "echo 'Implementing changes'"@, "コード変更を適用"@),
                    default_step("テスト"@, "echo 'Running tests'"@, "テストスイートを実行"@),
                ],
            },
        ],
        default_workflow: Some("default"@),
        default_sandbox_mode: true,
    }
}

impl ConfigView {
    /// The place of the default workflow: the first of the given default name, or the first
    /// of all.
    pub open spec fn default_index(self) -> int {
        match self.default_workflow {
            Some(name) => match model::first_index(workflow_names(self.workflows), name) {
                Some(i) => i,
                None => 0,
            },
            None => 0,
        }
    }
}

/// Whether agents run sandboxed where nothing else is said.
pub fn default_sandbox_mode() -> (r: bool)
    ensures
        r,
{
    true
}

/// Whether an agent runs sandboxed: what its step says, else the default.
pub fn sandbox_enabled(step: &ClaudeStep, default_mode: bool) -> (r: bool)
    ensures
        r == (match step.sandbox_mode {
            Some(mode) => mode,
            None => default_mode,
        }),
{
    match step.sandbox_mode {
        Some(mode) => mode,
        None => default_mode,
    }
}

/// Returns the place of the first workflow of a name.
pub fn find_workflow(workflows: &Vec<Workflow>, name: &str) -> (r: Option<usize>)
    ensures
        match r {
            Some(i) => model::first_index(workflow_names(workflows.deep_view()), name@) == Some(
                i as int,
            ),
            None => model::first_index(workflow_names(workflows.deep_view()), name@) is None,
        },
        r matches Some(i) ==> i < workflows.len(),
{
    let ghost names = workflow_names(workflows.deep_view());
    proof {
        model::first_index_is_first(names, name@);
    }
    for i in 0..workflows.len()
        invariant
            names == workflow_names(workflows.deep_view()),
            forall|j: int| 0 <= j < i ==> names[j] != name@,
            match model::first_index(names, name@) {
                Some(k) => 0 <= k < names.len() && names[k] == name@ && forall|j: int|
                    0 <= j < k ==> names[j] != name@,
                None => forall|j: int| 0 <= j < names.len() ==> names[j] != name@,
            },
    {
        assert(names[i as int] == workflows@[i as int].name@);
        if same(workflows[i].name.as_str(), name) {
            return Some(i);
        }
    }
    None
}

fn default_step_of(name: &str, command: &str, description: &str) -> (r: WorkflowStep)
    ensures
        r.deep_view() == default_step(name@, command@, description@),
{
    WorkflowStep {
        name: name.to_owned(),
        command: Some(command.to_owned()),
        claude: None,
        description: Some(description.to_owned()),
    }
}

impl Default for Config {
    fn default() -> (r: Self)
        ensures
            r.deep_view() == default_config(),
    {
        let steps = vec![
            default_step_of("分析", "echo 'Analyzing issue context'", "Issue内容の分析を実施"),
            default_step_of("実装", "echo 'Implementing changes'", "コード変更を適用"),
            default_step_of("テスト", "echo 'Running tests'", "テストスイートを実行"),
        ];
        let workflow = Workflow {
            name: "default".to_owned(),
            description: Some("標準的な分析→実装→テストの3ステップ".to_owned()),
            steps,
        };
        assert(workflow.deep_view() =~= default_config().workflows[0]);
        Config {
            workflows: vec![workflow],
            default_workflow: Some("default".to_owned()),
            default_sandbox_mode: default_sandbox_mode(),
        }
    }
}

impl Config {
    /// Returns the configuration that was read, if there is one; without any workflow in it,
    /// or without a file, the default configuration.
    pub fn load(read: Option<Config>) -> (r: Config)
        ensures
            r.deep_view() == (match read.deep_view() {
                Some(config) => if config.workflows.len() == 0 {
                    default_config()
                } else {
                    config
                },
                None => default_config(),
            }),
            r.workflows.len() > 0,
    {
        let config = match read {
            Some(config) => config,
            None => Config::default(),
        };
        if config.workflows.len() == 0 {
            let config = Config::default();
            assert(config.deep_view().workflows.len() == 1);
            config
        } else {
            config
        }
    }

    /// Returns the default workflow.
    pub fn default_workflow(&self) -> (r: &Workflow)
        requires
            self.workflows.len() > 0,
        ensures
            r.deep_view() == self.deep_view().workflows[self.deep_view().default_index()],
            0 <= self.deep_view().default_index() < self.workflows.len(),
    {
        if let Some(name) = &self.default_workflow {
            if let Some(i) = find_workflow(&self.workflows, name.as_str()) {
                return &self.workflows[i];
            }
        }
        &self.workflows[0]
    }

    /// Returns the first workflow of a name.
    pub fn workflow_by_name(&self, name: &str) -> (r: Option<&Workflow>)
        ensures
            match model::first_index(workflow_names(self.deep_view().workflows), name@) {
                Some(i) => 0 <= i < self.workflows.len() && (r matches Some(w) && w.deep_view()
                    == self.deep_view().workflows[i]),
                None => r is None,
            },
    {
        match find_workflow(&self.workflows, name) {
            Some(i) => Some(&self.workflows[i]),
            None => None,
        }
    }
}

impl Workflow {
    /// Returns the steps.
    pub fn steps(&self) -> (r: &[WorkflowStep])
        ensures
            r@ == self.steps@,
    {
        self.steps.as_slice()
    }
}

} // verus!
