//! What a run of the driver does to the world it works on, and what then
//! holds of whole runs over the planned steps.
//!
//! The model tracks the process's working directory and the tree under the
//! project root that the steps write. A step that succeeds has the effect its
//! kind names; the metadata generator and the repository steps leave the
//! modelled tree alone (the generator fills the metadata directory later, and
//! the repository lives in a directory of its own). A step that fails is taken
//! to change nothing.
use vstd::prelude::*;
use crate::layout::{
    StepView, plan, control_file, SOURCE_DIR, TOOL_DIR, METADATA_DIR, MANIFEST_FILE,
    TOOL_CONFIG_FILE, SOURCE_STUB_FILE, IGNORE_FILE, CONTROL_EXT,
};
use crate::pipeline::{Decision, decide};

verus! {

/// The process's working directory.
pub enum WorkDir {
    /// Where it was when the run began.
    Before,
    /// The root of the new project.
    ProjectRoot,
}

/// The working directory and the tree under the project root, with paths
/// relative to that root.
pub struct World {
    pub cwd: WorkDir,
    pub dirs: Set<Seq<char>>,
    pub files: Map<Seq<char>, Seq<char>>,
}

/// The effect of a step that succeeded.
pub open spec fn effect(s: StepView, w: World) -> World {
    match s {
        StepView::MakeDir(p) => World { dirs: w.dirs.insert(p), ..w },
        StepView::WriteFile(p, c) => World { files: w.files.insert(p, c), ..w },
        StepView::EnterProjectRoot => World { cwd: WorkDir::ProjectRoot, ..w },
        StepView::RestoreWorkingDir => World { cwd: WorkDir::Before, ..w },
        _ => w,
    }
}

/// The world and the result (`true` for success) of a run that has reached
/// the step at `pos`; `oks[i]` is whether the step at `i` succeeds when it runs.
pub open spec fn run_from(
    steps: Seq<StepView>,
    oks: Seq<bool>,
    pos: nat,
    deferred: bool,
    w: World,
) -> (World, bool)
    decreases steps.len() - pos,
{
    if pos >= steps.len() || pos >= oks.len() {
        (w, false)
    } else {
        let ok = oks[pos as int];
        let next = if ok {
            effect(steps[pos as int], w)
        } else {
            w
        };
        match decide(steps, pos as int, deferred, ok) {
            Decision::Continue(held) => run_from(steps, oks, pos + 1, held, next),
            Decision::Stop => (next, ok && !deferred),
        }
    }
}

/// A whole run of `steps` from the world `w`.
pub open spec fn run(steps: Seq<StepView>, oks: Seq<bool>, w: World) -> (World, bool) {
    run_from(steps, oks, 0, false, w)
}

/// Outcomes in which every one of `n` steps succeeds.
pub open spec fn all_succeed(n: nat) -> Seq<bool> {
    Seq::new(n, |i: int| true)
}

/// The world before anything is written: an empty project root.
pub open spec fn empty_world() -> World {
    World { cwd: WorkDir::Before, dirs: Set::empty(), files: Map::empty() }
}

/// A project name as a name of one file: not empty, with no `/`.
pub open spec fn valid_name(name: Seq<char>) -> bool {
    name.len() > 0 && !name.contains('/')
}

/// Whether the path `p` lies inside the directory `d`.
pub open spec fn in_dir(d: Seq<char>, p: Seq<char>) -> bool {
    p.len() > d.len() && p.take(d.len() as int) == d && p[d.len() as int] == '/'
}

/// The number of planned steps.
pub open spec fn plan_len() -> nat {
    13
}

/// The tree that a run of the plan for `name` leaves when every step succeeds.
pub open spec fn built(name: Seq<char>, w: World) -> World {
    run(plan(name), all_succeed(plan_len()), w).0
}

/// A run of the plan for `name` in which all steps succeed: it succeeds, and
/// every directory and file of the plan is in place over what was there.
pub proof fn lemma_successful_run(name: Seq<char>, w: World)
    ensures
        run(plan(name), all_succeed(plan_len()), w).1,
        built(name, w).cwd == WorkDir::Before,
        built(name, w).dirs == w.dirs.insert(SOURCE_DIR@).insert(TOOL_DIR@).insert(METADATA_DIR@),
        built(name, w).files == plan_files(name, w.files),
{
    reveal_with_fuel(run_from, 14);
}

/// The files over `f` after the plan for `name` wrote its files, in order.
pub open spec fn plan_files(name: Seq<char>, f: Map<Seq<char>, Seq<char>>) -> Map<Seq<char>, Seq<char>> {
    let p = plan(name);
    f.insert(p[3]->WriteFile_0, p[3]->WriteFile_1)
        .insert(p[4]->WriteFile_0, p[4]->WriteFile_1)
        .insert(p[5]->WriteFile_0, p[5]->WriteFile_1)
        .insert(p[6]->WriteFile_0, p[6]->WriteFile_1)
        .insert(p[7]->WriteFile_0, p[7]->WriteFile_1)
}

/// From an empty project root, a run in which every step succeeds leaves
/// exactly the three directories and five files of the layout, every file
/// holds text, none lies in the metadata directory, and the working
/// directory is back where it was.
pub proof fn lemma_fresh_layout(name: Seq<char>)
    requires
        valid_name(name),
    ensures
        run(plan(name), all_succeed(plan_len()), empty_world()).1,
        built(name, empty_world()).cwd == WorkDir::Before,
        built(name, empty_world()).dirs == set![SOURCE_DIR@, TOOL_DIR@, METADATA_DIR@],
        built(name, empty_world()).files.dom() == set![
            control_file(name),
            MANIFEST_FILE@,
            TOOL_CONFIG_FILE@,
            SOURCE_STUB_FILE@,
            IGNORE_FILE@,
        ],
        forall|p: Seq<char>| #[trigger]
            built(name, empty_world()).files.contains_key(p) ==> built(
                name,
                empty_world(),
            ).files[p].len() > 0 && !in_dir(METADATA_DIR@, p),
{
    let w = empty_world();
    lemma_successful_run(name, w);
    let b = built(name, w);
    assert(b.dirs =~= set![SOURCE_DIR@, TOOL_DIR@, METADATA_DIR@]);
    assert(b.files.dom() =~= set![
        control_file(name),
        MANIFEST_FILE@,
        TOOL_CONFIG_FILE@,
        SOURCE_STUB_FILE@,
        IGNORE_FILE@,
    ]);
    reveal_strlit("sql");
    reveal_strlit(".control");
    reveal_strlit("Cargo.toml");
    reveal_strlit(".cargo/config");
    reveal_strlit("src/lib.rs");
    reveal_strlit(".gitignore");
    reveal_strlit("comment = 'A PostgreSQL extension'\ndefault_version = '0.0.0'\nmodule_pathname = '$libdir/");
    reveal_strlit("[package]\nname = \"");
    reveal_strlit("[build]\n# Postgres symbols won't be available until runtime\nrustflags = [\"-C\", \"link-args=-Wl,-undefined,dynamic_lookup\"]\n");
    reveal_strlit(".DS_Store\n.idea/\n/target\n*.iml\n**/*.rs.bk\nCargo.lock\nsql/*.generated.sql\n");
    reveal_strlit("use pgx::*;\n\npg_module_magic!();\n\n/// Greets the caller from inside the database.\npub fn hello() -> &'static str {\n    \"Hello, ");
    let c = control_file(name);
    assert(c[3] != '/') by {
        if name.len() > 3 {
            assert(c[3] == name[3]);
        } else {
            assert(c[3] == CONTROL_EXT@[3 - name.len()]);
        }
    }
    let d = METADATA_DIR@;
    assert(!in_dir(d, c));
    assert(!in_dir(d, MANIFEST_FILE@));
    assert(!in_dir(d, TOOL_CONFIG_FILE@));
    assert(!in_dir(d, IGNORE_FILE@));
    assert(!in_dir(d, SOURCE_STUB_FILE@)) by {
        assert(SOURCE_STUB_FILE@.take(3)[1] != d[1]);
    }
    let p = plan(name);
    assert(p[3]->WriteFile_1.len() > 0);
    assert(p[4]->WriteFile_1.len() > 0);
    assert(p[5]->WriteFile_1.len() > 0);
    assert(p[6]->WriteFile_1.len() > 0);
    assert(p[7]->WriteFile_1.len() > 0);
}

/// Running the plan again over what a successful run built succeeds and
/// changes nothing: each file is written over with the same text, and no
/// directory is added twice.
pub proof fn lemma_rerun_idempotent(name: Seq<char>, w: World)
    ensures
        run(plan(name), all_succeed(plan_len()), built(name, w)).1,
        built(name, built(name, w)) == built(name, w),
{
    lemma_successful_run(name, w);
    let b = built(name, w);
    lemma_successful_run(name, b);
    let b2 = built(name, b);
    assert(b2.dirs =~= b.dirs);
    assert(b2.files =~= b.files);
}

/// When every step before the repository's initialisation succeeds and that
/// one fails, the run fails and leaves every directory and file that the
/// earlier steps made, as a successful run leaves them.
pub proof fn lemma_repository_failure_keeps_tree(name: Seq<char>, oks: Seq<bool>, w: World)
    requires
        oks.len() == plan_len(),
        forall|i: int| 0 <= i < 11 ==> oks[i],
        !oks[11],
    ensures
        !run(plan(name), oks, w).1,
        run(plan(name), oks, w).0 == built(name, w),
{
    reveal_with_fuel(run_from, 14);
    assert(oks[0] && oks[1] && oks[2] && oks[3] && oks[4] && oks[5] && oks[6] && oks[7]);
    assert(oks[8] && oks[9] && oks[10]);
}

/// A run that succeeds leaves the working directory where it was.
pub proof fn lemma_success_restores_working_dir(name: Seq<char>, oks: Seq<bool>, w: World)
    requires
        oks.len() == plan_len(),
        w.cwd == WorkDir::Before,
    ensures
        run(plan(name), oks, w).1 ==> run(plan(name), oks, w).0.cwd == WorkDir::Before,
{
    reveal_with_fuel(run_from, 14);
}

/// Whatever fails, the working directory ends where it was, as long as the
/// step that restores it can: a run never leaves it in the project root
/// because a step failed.
pub proof fn lemma_working_dir_restored(name: Seq<char>, oks: Seq<bool>, w: World)
    requires
        oks.len() == plan_len(),
        w.cwd == WorkDir::Before,
        oks[10],
    ensures
        run(plan(name), oks, w).0.cwd == WorkDir::Before,
{
    reveal_with_fuel(run_from, 14);
}

/// When the metadata generator fails, the run fails, the working directory is
/// restored, no repository step runs, and the tree is what the earlier steps
/// wrote.
pub proof fn lemma_generator_failure(name: Seq<char>, oks: Seq<bool>, w: World)
    requires
        oks.len() == plan_len(),
        w.cwd == WorkDir::Before,
        forall|i: int| 0 <= i < 9 ==> oks[i],
        !oks[9],
        oks[10],
    ensures
        !run(plan(name), oks, w).1,
        run(plan(name), oks, w).0 == built(name, w),
{
    reveal_with_fuel(run_from, 14);
    assert(oks[0] && oks[1] && oks[2] && oks[3] && oks[4] && oks[5] && oks[6] && oks[7]);
    assert(oks[8]);
}

} // verus!
