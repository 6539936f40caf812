//! Importing a skill: copying a directory tree into the project, under the
//! name of the directory it comes from.

use crate::command::result_view;
use crate::path::{file_name, file_name_spec, join, join_spec, Platform};
use crate::report::{
    done_result, failure, EngineError, EngineErrorView, ErrorKind, ExecResult, ExecResultView,
};
use crate::text::{concat2, is_blank, trim, trimmed};
use vstd::prelude::*;
use vstd::string::*;

verus! {

/// What an entry of a directory is.
#[derive(Clone, Copy, Debug, PartialEq, Eq, Structural)]
pub enum EntryKind {
    Directory,
    File,
    /// A symbolic link or anything else that is neither directory nor file.
    Other,
}

/// One entry of a directory listing.
pub struct DirEntry {
    pub name: String,
    pub kind: EntryKind,
}

/// What a [`DirEntry`] holds, as mathematical values.
pub struct DirEntryView {
    pub name: Seq<char>,
    pub kind: EntryKind,
}

impl View for DirEntry {
    type V = DirEntryView;

    open spec fn view(&self) -> DirEntryView {
        DirEntryView { name: self.name@, kind: self.kind }
    }
}

/// One thing to do for an entry.
pub enum CopyStep {
    /// Copy the directory `from` to `to`: create `to`, list `from`, and do
    /// the steps for its entries.
    Descend { from: String, to: String },
    /// Copy the file `from` to `to`.
    CopyFile { from: String, to: String },
}

/// What a [`CopyStep`] holds, as mathematical values.
pub enum CopyStepView {
    Descend { from: Seq<char>, to: Seq<char> },
    CopyFile { from: Seq<char>, to: Seq<char> },
}

impl View for CopyStep {
    type V = CopyStepView;

    open spec fn view(&self) -> CopyStepView {
        match self {
            CopyStep::Descend { from, to } => CopyStepView::Descend { from: from@, to: to@ },
            CopyStep::CopyFile { from, to } => CopyStepView::CopyFile { from: from@, to: to@ },
        }
    }
}

/// The views of a listing.
pub open spec fn entries_view(entries: Seq<DirEntry>) -> Seq<DirEntryView> {
    Seq::new(entries.len(), |i: int| entries[i]@)
}

/// The views of a list of steps.
pub open spec fn steps_view(steps: Seq<CopyStep>) -> Seq<CopyStepView> {
    Seq::new(steps.len(), |i: int| steps[i]@)
}

/// The step for one entry: directories are descended into, files are copied,
/// everything else is passed over.
pub open spec fn step_for(platform: Platform, src: Seq<char>, dest: Seq<char>, entry: DirEntryView) -> Option<
    CopyStepView,
> {
    let from = join_spec(platform, src, entry.name);
    let to = join_spec(platform, dest, entry.name);
    match entry.kind {
        EntryKind::Directory => Some(CopyStepView::Descend { from, to }),
        EntryKind::File => Some(CopyStepView::CopyFile { from, to }),
        EntryKind::Other => None,
    }
}

/// The steps for the entries of one directory, in the order of the listing.
pub open spec fn copy_steps_spec(
    platform: Platform,
    src: Seq<char>,
    dest: Seq<char>,
    entries: Seq<DirEntryView>,
) -> Seq<CopyStepView>
    decreases entries.len(),
{
    if entries.len() == 0 {
        Seq::empty()
    } else {
        let before = copy_steps_spec(platform, src, dest, entries.drop_last());
        match step_for(platform, src, dest, entries.last()) {
            Some(step) => before.push(step),
            None => before,
        }
    }
}

/// Copies one level of a directory tree: says what to do for each entry of
/// `src`, whose copy is `dest`. The host has passed [`copy_begin`], created
/// `dest` and listed `src`;
/// it descends where it is told to and comes back here with the listing of
/// the directory below.
pub fn copy_dir_recursive(platform: Platform, src: &str, dest: &str, entries: &Vec<DirEntry>) -> (steps:
    Vec<CopyStep>)
    ensures
        steps_view(steps@) == copy_steps_spec(platform, src@, dest@, entries_view(entries@)),
{
    let mut steps: Vec<CopyStep> = Vec::new();
    let ghost all = entries_view(entries@);
    let n = entries.len();
    let mut i: usize = 0;
    proof {
        assert(steps_view(steps@) =~= copy_steps_spec(platform, src@, dest@, all.take(0)));
    }
    while i < n
        invariant
            i <= n,
            n == entries.len(),
            all == entries_view(entries@),
            steps_view(steps@) == copy_steps_spec(platform, src@, dest@, all.take(i as int)),
        decreases n - i,
    {
        let entry = &entries[i];
        let ghost before = steps_view(steps@);
        proof {
            let cur = all.take(i as int + 1);
            assert(cur.drop_last() =~= all.take(i as int));
            assert(cur.last() == entry@);
        }
        match entry.kind {
            EntryKind::Directory => {
                let from = join(platform, src, entry.name.as_str());
                let to = join(platform, dest, entry.name.as_str());
                steps.push(CopyStep::Descend { from, to });
                proof {
                    assert(steps_view(steps@) =~= before.push(
                        step_for(platform, src@, dest@, entry@)->0,
                    ));
                }
            },
            EntryKind::File => {
                let from = join(platform, src, entry.name.as_str());
                let to = join(platform, dest, entry.name.as_str());
                steps.push(CopyStep::CopyFile { from, to });
                proof {
                    assert(steps_view(steps@) =~= before.push(
                        step_for(platform, src@, dest@, entry@)->0,
                    ));
                }
            },
            EntryKind::Other => {
                proof {
                    assert(steps_view(steps@) =~= before);
                }
            },
        }
        i = i + 1;
    }
    proof {
        assert(all.take(n as int) =~= all);
    }
    steps
}

/// No step is made for an entry that is neither directory nor file, and
/// every step stays inside the two directories it was made for.
pub proof fn lemma_copy_steps(
    platform: Platform,
    src: Seq<char>,
    dest: Seq<char>,
    entries: Seq<DirEntryView>,
)
    ensures
        copy_steps_spec(platform, src, dest, entries).len() <= entries.len(),
        (forall|i: int| 0 <= i < entries.len() ==> (#[trigger] entries[i]).kind == EntryKind::Other)
            ==> copy_steps_spec(platform, src, dest, entries).len() == 0,
        (forall|i: int| 0 <= i < entries.len() ==> (#[trigger] entries[i]).kind != EntryKind::Other)
            ==> copy_steps_spec(platform, src, dest, entries).len() == entries.len(),
    decreases entries.len(),
{
    if entries.len() > 0 {
        let front = entries.drop_last();
        lemma_copy_steps(platform, src, dest, front);
        assert(forall|i: int| 0 <= i < front.len() ==> front[i] == entries[i]);
        assert(entries.last() == entries[entries.len() - 1]);
    }
}

/// What went wrong while a directory was copied.
pub enum CopyFailure {
    /// The source is no directory.
    NotADirectory,
    /// The destination directory could not be created.
    CreateDir { error: String },
    /// The source directory could not be listed.
    ReadDir { error: String },
    /// An entry of the listing could not be read or classified.
    Entry { error: String },
    /// A file could not be copied.
    CopyFile { from: String, to: String, error: String },
}

/// What a [`CopyFailure`] holds, as mathematical values.
pub enum CopyFailureView {
    NotADirectory,
    CreateDir { error: Seq<char> },
    ReadDir { error: Seq<char> },
    Entry { error: Seq<char> },
    CopyFile { from: Seq<char>, to: Seq<char>, error: Seq<char> },
}

impl View for CopyFailure {
    type V = CopyFailureView;

    open spec fn view(&self) -> CopyFailureView {
        match self {
            CopyFailure::NotADirectory => CopyFailureView::NotADirectory,
            CopyFailure::CreateDir { error } => CopyFailureView::CreateDir { error: error@ },
            CopyFailure::ReadDir { error } => CopyFailureView::ReadDir { error: error@ },
            CopyFailure::Entry { error } => CopyFailureView::Entry { error: error@ },
            CopyFailure::CopyFile { from, to, error } => CopyFailureView::CopyFile {
                from: from@,
                to: to@,
                error: error@,
            },
        }
    }
}

/// What the user reads when copying `src` to `dest` went wrong.
pub open spec fn copy_failure_text(src: Seq<char>, dest: Seq<char>, what: CopyFailureView) -> Seq<char> {
    match what {
        CopyFailureView::NotADirectory => "Source is not a directory: "@ + src,
        CopyFailureView::CreateDir { error } => "Failed to create dir "@ + dest + ": "@ + error,
        CopyFailureView::ReadDir { error } => "Failed to read dir "@ + src + ": "@ + error,
        CopyFailureView::Entry { error } => error,
        CopyFailureView::CopyFile { from, to, error } => "Failed to copy "@ + from + " -> "@ + to
            + ": "@ + error,
    }
}

/// The failure of copying the directory `src` to `dest`.
pub fn copy_failure(src: &str, dest: &str, what: CopyFailure) -> (e: EngineError)
    ensures
        e@ == failure(ErrorKind::Host, copy_failure_text(src@, dest@, what@)),
{
    let message = match what {
        CopyFailure::NotADirectory => concat2("Source is not a directory: ", src),
        CopyFailure::CreateDir { error } => {
            let mut m = concat2("Failed to create dir ", dest);
            m.append(": ");
            m.append(error.as_str());
            m
        },
        CopyFailure::ReadDir { error } => {
            let mut m = concat2("Failed to read dir ", src);
            m.append(": ");
            m.append(error.as_str());
            m
        },
        CopyFailure::Entry { error } => error,
        CopyFailure::CopyFile { from, to, error } => {
            let mut m = concat2("Failed to copy ", from.as_str());
            m.append(" -> ");
            m.append(to.as_str());
            m.append(": ");
            m.append(error.as_str());
            m
        },
    };
    EngineError::new(ErrorKind::Host, message)
}

/// How the copy of a directory begins: a source that is no directory ends it
/// before anything is created.
pub open spec fn copy_begin_spec(src: Seq<char>, dest: Seq<char>, source_is_dir: bool) -> Result<
    (),
    EngineErrorView,
> {
    if source_is_dir {
        Ok(())
    } else {
        Err(failure(ErrorKind::Host, copy_failure_text(src, dest, CopyFailureView::NotADirectory)))
    }
}

/// The views inside the first step of a copy.
pub open spec fn begin_view(result: Result<(), EngineError>) -> Result<(), EngineErrorView> {
    match result {
        Ok(_) => Ok(()),
        Err(e) => Err(e@),
    }
}

/// The copy of the directory `src` to `dest`, first step, taken before the
/// destination is created or the source is listed: the source must be a
/// directory.
pub fn copy_begin(src: &str, dest: &str, source_is_dir: bool) -> (next: Result<(), EngineError>)
    ensures
        begin_view(next) == copy_begin_spec(src@, dest@, source_is_dir),
        source_is_dir <==> next is Ok,
{
    if source_is_dir {
        Ok(())
    } else {
        Err(copy_failure(src, dest, CopyFailure::NotADirectory))
    }
}

/// An import whose source and destination are known. Next: look whether the
/// destination exists.
pub struct SkillImport {
    source: String,
    dest: String,
}

/// An import that may go ahead. Next: remove the destination if told to,
/// then copy.
pub struct SkillCopy {
    source: String,
    dest: String,
    remove_first: bool,
}

/// What a [`SkillImport`] holds, as mathematical values.
pub struct SkillImportView {
    pub source: Seq<char>,
    pub dest: Seq<char>,
}

/// What a [`SkillCopy`] holds, as mathematical values.
pub struct SkillCopyView {
    pub source: Seq<char>,
    pub dest: Seq<char>,
    pub remove_first: bool,
}

impl View for SkillImport {
    type V = SkillImportView;

    closed spec fn view(&self) -> SkillImportView {
        SkillImportView { source: self.source@, dest: self.dest@ }
    }
}

impl View for SkillCopy {
    type V = SkillCopyView;

    closed spec fn view(&self) -> SkillCopyView {
        SkillCopyView { source: self.source@, dest: self.dest@, remove_first: self.remove_first }
    }
}

/// Where the skill named `name` lies in the project: `.opencode/skill/<name>`.
pub open spec fn skill_dir_spec(platform: Platform, project_dir: Seq<char>, name: Seq<char>) -> Seq<
    char,
> {
    join_spec(
        platform,
        join_spec(platform, join_spec(platform, project_dir, ".opencode"@), "skill"@),
        name,
    )
}

/// How an import begins: both directories are trimmed and must not be empty;
/// the skill is named after the final component of the source directory.
pub open spec fn import_spec(platform: Platform, project_dir: Seq<char>, source_dir: Seq<char>) -> Result<
    SkillImportView,
    EngineErrorView,
> {
    if is_blank(project_dir) {
        Err(failure(ErrorKind::Validation, "projectDir is required"@))
    } else if is_blank(source_dir) {
        Err(failure(ErrorKind::Validation, "sourceDir is required"@))
    } else {
        match file_name_spec(platform, trimmed(source_dir)) {
            Some(name) => Ok(
                SkillImportView {
                    source: trimmed(source_dir),
                    dest: skill_dir_spec(platform, trimmed(project_dir), name),
                },
            ),
            None => Err(
                failure(ErrorKind::Validation, "Failed to infer skill name from directory"@),
            ),
        }
    }
}

/// An existing destination is replaced only when overwriting was asked for.
pub open spec fn checked_spec(import: SkillImportView, exists: bool, overwrite: bool) -> Result<
    SkillCopyView,
    EngineErrorView,
> {
    if exists && !overwrite {
        Err(failure(ErrorKind::Host, "Skill already exists at "@ + import.dest))
    } else {
        Ok(SkillCopyView { source: import.source, dest: import.dest, remove_first: exists })
    }
}

/// The failure to remove the destination that is to be replaced.
pub open spec fn removal_failure(dest: Seq<char>, error: Seq<char>) -> EngineErrorView {
    failure(ErrorKind::Host, "Failed to remove existing skill dir "@ + dest + ": "@ + error)
}

/// The result of an import that succeeded.
pub open spec fn imported_result(dest: Seq<char>) -> ExecResultView {
    done_result("Imported skill to "@ + dest)
}

/// The views inside the first step's result.
pub open spec fn import_view(result: Result<SkillImport, EngineError>) -> Result<
    SkillImportView,
    EngineErrorView,
> {
    match result {
        Ok(import) => Ok(import@),
        Err(e) => Err(e@),
    }
}

/// The views inside the second step's result.
pub open spec fn copy_view(result: Result<SkillCopy, EngineError>) -> Result<
    SkillCopyView,
    EngineErrorView,
> {
    match result {
        Ok(copy) => Ok(copy@),
        Err(e) => Err(e@),
    }
}

/// The skill import, first step.
pub fn import_skill(platform: Platform, project_dir: &str, source_dir: &str) -> (next: Result<
    SkillImport,
    EngineError,
>)
    ensures
        import_view(next) == import_spec(platform, project_dir@, source_dir@),
{
    let project_dir = trim(project_dir);
    if project_dir.as_str().unicode_len() == 0 {
        return Err(EngineError::new(ErrorKind::Validation, "projectDir is required".to_owned()));
    }
    let source = trim(source_dir);
    if source.as_str().unicode_len() == 0 {
        return Err(EngineError::new(ErrorKind::Validation, "sourceDir is required".to_owned()));
    }
    match file_name(platform, source.as_str()) {
        Some(name) => {
            let config = join(platform, project_dir.as_str(), ".opencode");
            let skills = join(platform, config.as_str(), "skill");
            let dest = join(platform, skills.as_str(), name.as_str());
            Ok(SkillImport { source, dest })
        },
        None => Err(
            EngineError::new(
                ErrorKind::Validation,
                "Failed to infer skill name from directory".to_owned(),
            ),
        ),
    }
}

impl SkillImport {
    /// The path whose existence the host has to look up.
    pub fn dest(&self) -> (dest: String)
        ensures
            dest@ == self@.dest,
    {
        self.dest.clone()
    }

    /// Takes whether the destination exists and whether it may be replaced.
    pub fn destination_checked(self, exists: bool, overwrite: bool) -> (next: Result<
        SkillCopy,
        EngineError,
    >)
        ensures
            copy_view(next) == checked_spec(self@, exists, overwrite),
    {
        if exists && !overwrite {
            Err(
                EngineError::new(
                    ErrorKind::Host,
                    concat2("Skill already exists at ", self.dest.as_str()),
                ),
            )
        } else {
            Ok(SkillCopy { source: self.source, dest: self.dest, remove_first: exists })
        }
    }
}

impl SkillCopy {
    /// The directory to copy.
    pub fn source(&self) -> (source: String)
        ensures
            source@ == self@.source,
    {
        self.source.clone()
    }

    /// The directory to copy it to.
    pub fn dest(&self) -> (dest: String)
        ensures
            dest@ == self@.dest,
    {
        self.dest.clone()
    }

    /// Whether the destination has to be removed, with all it holds, before
    /// the copy.
    pub fn remove_first(&self) -> (remove: bool)
        ensures
            remove == self@.remove_first,
    {
        self.remove_first
    }

    /// The failure of the import when the destination could not be removed.
    pub fn removal_failed(&self, error: &str) -> (e: EngineError)
        ensures
            e@ == removal_failure(self@.dest, error@),
    {
        let mut message = concat2("Failed to remove existing skill dir ", self.dest.as_str());
        message.append(": ");
        message.append(error);
        EngineError::new(ErrorKind::Host, message)
    }

    /// Takes the outcome of the copy: its failure is the import's, its
    /// success is reported with the destination.
    pub fn finish(self, copied: Result<(), EngineError>) -> (result: Result<ExecResult, EngineError>)
        ensures
            result_view(result) == match copied {
                Ok(_) => Ok(imported_result(self@.dest)),
                Err(e) => Err(e@),
            },
    {
        match copied {
            Ok(_) => Ok(ExecResult::done(concat2("Imported skill to ", self.dest.as_str()))),
            Err(e) => Err(e),
        }
    }
}

} // verus!
