//! Planning an extraction run: from a job and a blueprint to the directory
//! to write below and the files to write, in order.

use vstd::prelude::*;
use crate::artifact::{output_path, ArtifactView, XcFileMeta};
use crate::blueprint::{Blueprint, NodeView};
use crate::config::{JobView, WatchState, YankConfig};
use crate::text::text_view;
use crate::walker::{artifact_views, collect_nodes};

verus! {

/// Why an extraction or a watch could not be carried out.
#[derive(Debug, Clone, Copy, PartialEq, Eq, Structural)]
pub enum YankError {
    /// The source could not be read.
    InputNotFound,
    /// The source is not a blueprint.
    ParseError,
    /// A directory or file operation failed.
    IoError,
    /// The path could not be subscribed to.
    WatchSetupError,
}

/// What one file write is: where, relative to the write root, and what.
pub struct WriteView {
    pub path: Seq<char>,
    pub content: Seq<char>,
}

/// One file to write.
#[derive(Debug)]
pub struct PlannedWrite {
    /// The path of the file, relative to the write root.
    pub path: String,
    /// The full text of the file.
    pub content: String,
}

impl View for PlannedWrite {
    type V = WriteView;

    open spec fn view(&self) -> WriteView {
        WriteView { path: self.path@, content: self.content@ }
    }
}

impl Clone for PlannedWrite {
    fn clone(&self) -> (r: PlannedWrite)
        ensures
            r@ == self@,
    {
        PlannedWrite { path: self.path.clone(), content: self.content.clone() }
    }
}

/// What an extraction plan is.
pub struct PlanView {
    pub root: Option<Seq<char>>,
    pub writes: Seq<WriteView>,
}

/// What one extraction run is to do.
#[derive(Debug)]
pub struct ExtractionPlan {
    /// The directory to create and write below, where the job asks for one.
    pub root: Option<String>,
    /// The files to write, in traversal order. Where two share a path the
    /// later one is written over the earlier.
    pub writes: Vec<PlannedWrite>,
}

/// The writes of a list, each by its view.
pub open spec fn write_views(writes: Seq<PlannedWrite>) -> Seq<WriteView> {
    writes.map_values(|w: PlannedWrite| w@)
}

impl View for ExtractionPlan {
    type V = PlanView;

    open spec fn view(&self) -> PlanView {
        PlanView { root: text_view(self.root), writes: write_views(self.writes@) }
    }
}

/// The write that an artifact calls for.
pub open spec fn write_of(a: ArtifactView, collate: bool) -> WriteView {
    WriteView { path: output_path(a, collate), content: a.file.content }
}

/// The writes that a list of artifacts calls for, one each, in order.
pub open spec fn planned_writes(artifacts: Seq<ArtifactView>, collate: bool) -> Seq<WriteView> {
    Seq::new(artifacts.len(), |i: int| write_of(artifacts[i], collate))
}

/// The plan for a component tree: every file of the tree, below `root`.
pub open spec fn plan_of(roots: Seq<NodeView>, root: Option<Seq<char>>, collate: bool) -> PlanView {
    PlanView { root, writes: planned_writes(collect_nodes(roots, Seq::empty()), collate) }
}

/// What a job asks of a component tree, where `stem` is the stem of the
/// job's source path. Whether there is anything to write is decided first:
/// a tree without files gives the empty plan, which has no root, whatever
/// the job and the path. Otherwise the plan holds every file of the tree,
/// below a directory named by the stem where the job scopes its output to a
/// folder. A job that has files to write into a folder and whose source
/// path has no stem names no source.
pub open spec fn yank_of(job: JobView, stem: Option<Seq<char>>, roots: Seq<NodeView>) -> Result<
    PlanView,
    YankError,
> {
    let writes = planned_writes(collect_nodes(roots, Seq::empty()), job.collate);
    if writes.len() == 0 || !job.folder {
        Ok(PlanView { root: None, writes })
    } else if stem is Some {
        Ok(PlanView { root: stem, writes })
    } else {
        Err(YankError::InputNotFound)
    }
}

/// A planning result by its view.
pub open spec fn outcome_view(r: Result<ExtractionPlan, YankError>) -> Result<PlanView, YankError> {
    match r {
        Ok(plan) => Ok(plan@),
        Err(e) => Err(e),
    }
}

/// The stem of a path given as text, as `std::path::Path::file_stem` reads
/// it: the final component without its extension, where there is one.
pub uninterp spec fn file_stem_of(path: Seq<char>) -> Option<Seq<char>>;

/// Calls `std::path::Path::file_stem` on `path`. The contract names the
/// result and claims nothing else: that the call gives the same stem for the
/// same text.
#[verifier::external_body]
fn file_stem(path: &str) -> (r: Option<String>)
    ensures
        text_view(r) == file_stem_of(path@),
{
    match std::path::Path::new(path).file_stem() {
        Some(stem) => Some(stem.to_string_lossy().into_owned()),
        None => None,
    }
}

/// The writes that `artifacts` call for, one each, in order.
pub fn plan_writes(artifacts: &Vec<XcFileMeta>, collate: bool) -> (r: Vec<PlannedWrite>)
    ensures
        write_views(r@) == planned_writes(artifact_views(artifacts@), collate),
{
    let ghost want = planned_writes(artifact_views(artifacts@), collate);
    let mut r: Vec<PlannedWrite> = Vec::new();
    let mut i: usize = 0;
    while i < artifacts.len()
        invariant
            i <= artifacts.len(),
            want == planned_writes(artifact_views(artifacts@), collate),
            write_views(r@) == want.take(i as int),
        decreases artifacts.len() - i,
    {
        let ghost prior = write_views(r@);
        let item = PlannedWrite {
            path: artifacts[i].output_path(collate),
            content: artifacts[i].file_content().to_owned(),
        };
        r.push(item);
        assert(write_views(r@) =~= prior.push(item@));
        i += 1;
    }
    r
}

/// The plan for a blueprint: every file of its component tree, written
/// below `root` where there is one.
pub fn plan_extraction(blueprint: &Blueprint, root: Option<String>, collate: bool) -> (r:
    ExtractionPlan)
    ensures
        r@ == plan_of(blueprint.roots(), text_view(root), collate),
{
    let artifacts = blueprint.artifacts();
    let writes = plan_writes(&artifacts, collate);
    ExtractionPlan { root, writes }
}

/// Plans the run that `config` asks for on `blueprint`. A blueprint without
/// files gives the empty plan. Where there are files and the job scopes its
/// output to a folder, the folder is named by the stem of the job's source
/// path; without a stem there is no plan.
pub fn yank_from_config(config: &YankConfig, blueprint: &Blueprint) -> (r: Result<
    ExtractionPlan,
    YankError,
>)
    ensures
        outcome_view(r) == yank_of(config@, file_stem_of(config.file_name@), blueprint.roots()),
{
    let artifacts = blueprint.artifacts();
    let writes = plan_writes(&artifacts, !config.disable_collate);
    if writes.len() == 0 || !config.folder {
        Ok(ExtractionPlan { root: None, writes })
    } else {
        match file_stem(config.file_name.as_str()) {
            Some(stem) => Ok(ExtractionPlan { root: Some(stem), writes }),
            None => Err(YankError::InputNotFound),
        }
    }
}

/// What reading and parsing the source of a job gave.
#[derive(Debug)]
pub enum Source {
    /// The source could not be read.
    Missing,
    /// The source was read and is not a blueprint.
    Malformed,
    /// The source is this blueprint.
    Parsed(Blueprint),
}

/// What a job asks for, given what reading its source gave.
pub open spec fn yank_of_source(job: JobView, stem: Option<Seq<char>>, source: Source) -> Result<
    PlanView,
    YankError,
> {
    match source {
        Source::Missing => Err(YankError::InputNotFound),
        Source::Malformed => Err(YankError::ParseError),
        Source::Parsed(blueprint) => yank_of(job, stem, blueprint.roots()),
    }
}

/// Plans the run that `config` asks for, or says why there is none: the
/// source could not be read, is not a blueprint, or is not named by the
/// job's path.
pub fn yank_from_config_with_result(config: &YankConfig, source: &Source) -> (r: Result<
    ExtractionPlan,
    YankError,
>)
    ensures
        outcome_view(r) == yank_of_source(config@, file_stem_of(config.file_name@), *source),
{
    match source {
        Source::Missing => Err(YankError::InputNotFound),
        Source::Malformed => Err(YankError::ParseError),
        Source::Parsed(blueprint) => yank_from_config(config, blueprint),
    }
}

/// How a job is begun.
#[derive(Debug, Clone, Copy, PartialEq, Eq, Structural)]
pub enum Entry {
    /// Subscribe to changes of the job's source path, then run once per
    /// change.
    Watch,
    /// Run once.
    Extract,
}

/// How the job `config` is begun: a job that asks for a watch sets one up; a
/// job that already runs inside a watch, or asks for none, is a single run.
pub fn yank_xenon_code_from_config(config: &YankConfig) -> (r: Entry)
    ensures
        r == (if config.watch == WatchState::Requested { Entry::Watch } else { Entry::Extract }),
{
    match config.watch {
        WatchState::Requested => Entry::Watch,
        _ => Entry::Extract,
    }
}

} // verus!
