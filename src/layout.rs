//! The fixed plan of steps that builds a new project: directories, rendered
//! files, metadata generation and the repository set-up.
use vstd::prelude::*;
use vstd::string::StringExecFns;
use crate::template::Template;

verus! {

/// Directory of the library's sources, relative to the project root.
pub const SOURCE_DIR: &'static str = "src";

/// Directory of the build tool's configuration.
pub const TOOL_DIR: &'static str = ".cargo";

/// Directory that the metadata generator fills later.
pub const METADATA_DIR: &'static str = "sql";

/// Extension of the control file, whose stem is the project name.
pub const CONTROL_EXT: &'static str = ".control";

pub const MANIFEST_FILE: &'static str = "Cargo.toml";

pub const TOOL_CONFIG_FILE: &'static str = ".cargo/config";

pub const SOURCE_STUB_FILE: &'static str = "src/lib.rs";

pub const IGNORE_FILE: &'static str = ".gitignore";

/// One step of building a project. Paths are relative to the project root,
/// with `/` between components.
#[derive(Debug)]
pub enum Step {
    /// Create the directory and any missing parents; an existing one is fine.
    MakeDir(String),
    /// Create or truncate the file and write the text into it.
    WriteFile(String, String),
    /// Make the project root the process's working directory.
    EnterProjectRoot,
    /// Run the metadata generator in the working directory.
    GenerateMetadata,
    /// Make the working directory what it was before `EnterProjectRoot`.
    RestoreWorkingDir,
    /// Initialise a version-control repository in the project root.
    InitRepository,
    /// Stage every file of the project root in that repository.
    StageAll,
}

/// What a step is, with its texts as character sequences.
pub enum StepView {
    MakeDir(Seq<char>),
    WriteFile(Seq<char>, Seq<char>),
    EnterProjectRoot,
    GenerateMetadata,
    RestoreWorkingDir,
    InitRepository,
    StageAll,
}

impl View for Step {
    type V = StepView;

    open spec fn view(&self) -> StepView {
        match self {
            Step::MakeDir(p) => StepView::MakeDir(p@),
            Step::WriteFile(p, c) => StepView::WriteFile(p@, c@),
            Step::EnterProjectRoot => StepView::EnterProjectRoot,
            Step::GenerateMetadata => StepView::GenerateMetadata,
            Step::RestoreWorkingDir => StepView::RestoreWorkingDir,
            Step::InitRepository => StepView::InitRepository,
            Step::StageAll => StepView::StageAll,
        }
    }
}

/// Path of the control file of a project called `name`.
pub open spec fn control_file(name: Seq<char>) -> Seq<char> {
    name + CONTROL_EXT@
}

/// The steps that build a project called `name`, in the order they run.
pub open spec fn plan(name: Seq<char>) -> Seq<StepView> {
    seq![
        StepView::MakeDir(SOURCE_DIR@),
        StepView::MakeDir(TOOL_DIR@),
        StepView::MakeDir(METADATA_DIR@),
        StepView::WriteFile(control_file(name), Template::Control.rendered(name)),
        StepView::WriteFile(MANIFEST_FILE@, Template::Manifest.rendered(name)),
        StepView::WriteFile(TOOL_CONFIG_FILE@, Template::ToolConfig.rendered(name)),
        StepView::WriteFile(SOURCE_STUB_FILE@, Template::SourceStub.rendered(name)),
        StepView::WriteFile(IGNORE_FILE@, Template::IgnoreRules.rendered(name)),
        StepView::EnterProjectRoot,
        StepView::GenerateMetadata,
        StepView::RestoreWorkingDir,
        StepView::InitRepository,
        StepView::StageAll,
    ]
}

/// The views of a sequence of steps.
pub open spec fn views(s: Seq<Step>) -> Seq<StepView> {
    s.map_values(|x: Step| x@)
}

fn write_step(path: &str, t: Template, name: &str) -> (r: Step)
    ensures
        r@ == StepView::WriteFile(path@, t.rendered(name@)),
{
    Step::WriteFile(String::from_str(path), t.render(name))
}

/// Builds the steps for a project called `name`.
pub fn scaffold_steps(name: &str) -> (r: Vec<Step>)
    ensures
        views(r@) == plan(name@),
{
    let mut steps: Vec<Step> = Vec::new();
    steps.push(Step::MakeDir(String::from_str(SOURCE_DIR)));
    steps.push(Step::MakeDir(String::from_str(TOOL_DIR)));
    steps.push(Step::MakeDir(String::from_str(METADATA_DIR)));
    let control = String::from_str(name).concat(CONTROL_EXT);
    steps.push(Step::WriteFile(control, Template::Control.render(name)));
    steps.push(write_step(MANIFEST_FILE, Template::Manifest, name));
    steps.push(write_step(TOOL_CONFIG_FILE, Template::ToolConfig, name));
    steps.push(write_step(SOURCE_STUB_FILE, Template::SourceStub, name));
    steps.push(write_step(IGNORE_FILE, Template::IgnoreRules, name));
    steps.push(Step::EnterProjectRoot);
    steps.push(Step::GenerateMetadata);
    steps.push(Step::RestoreWorkingDir);
    steps.push(Step::InitRepository);
    steps.push(Step::StageAll);
    assert(views(steps@) =~= plan(name@));
    steps
}

} // verus!
