//! The engine's configuration file: where it lies for a scope, and what
//! reading and writing it come to.

use crate::command::result_view;
use crate::path::{join, join_spec, parent, parent_spec};
use crate::report::{
    done_result, failure, EngineError, EngineErrorView, ErrorKind, ExecResult, ExecResultView,
    OpencodeConfigFile, OpencodeConfigFileView,
};
use crate::resolver::{HostEnv, HostEnvView};
use crate::text::{blank, concat2, is_blank, same_text};
use vstd::prelude::*;
use vstd::string::*;

verus! {

/// The directory under which the global configuration lies:
/// `XDG_CONFIG_HOME` when set, else `.config` under `HOME` when set.
pub open spec fn config_base_spec(host: HostEnvView) -> Option<Seq<char>> {
    match host.xdg_config_home {
        Some(x) => Some(x),
        None => match host.home {
            Some(h) => Some(join_spec(host.platform, h, ".config"@)),
            None => None,
        },
    }
}

/// The path of the configuration file for `scope`: `opencode.json` in the
/// project directory, or `opencode/opencode.json` under the global base.
pub open spec fn config_path_spec(scope: Seq<char>, project_dir: Seq<char>, host: HostEnvView) -> Result<
    Seq<char>,
    EngineErrorView,
> {
    let p = host.platform;
    if scope == "project"@ {
        if is_blank(project_dir) {
            Err(failure(ErrorKind::Validation, "projectDir is required"@))
        } else {
            Ok(join_spec(p, project_dir, "opencode.json"@))
        }
    } else if scope == "global"@ {
        match config_base_spec(host) {
            Some(base) => Ok(join_spec(p, join_spec(p, base, "opencode"@), "opencode.json"@)),
            None => Err(failure(ErrorKind::Host, "Unable to resolve config directory"@)),
        }
    } else {
        Err(failure(ErrorKind::Validation, "scope must be 'project' or 'global'"@))
    }
}

/// The views inside a path result.
pub open spec fn path_view(result: Result<String, EngineError>) -> Result<Seq<char>, EngineErrorView> {
    match result {
        Ok(path) => Ok(path@),
        Err(e) => Err(e@),
    }
}

/// The path of the configuration file for `scope`, which is `project` or
/// `global`.
pub fn resolve_opencode_config_path(scope: &str, project_dir: &str, host: &HostEnv) -> (path: Result<
    String,
    EngineError,
>)
    ensures
        path_view(path) == config_path_spec(scope@, project_dir@, host@),
{
    let p = host.platform;
    if same_text(scope, "project") {
        if blank(project_dir) {
            return Err(EngineError::new(ErrorKind::Validation, "projectDir is required".to_owned()));
        }
        Ok(join(p, project_dir, "opencode.json"))
    } else if same_text(scope, "global") {
        let base = match &host.xdg_config_home {
            Some(x) => x.clone(),
            None => match &host.home {
                Some(h) => join(p, h.as_str(), ".config"),
                None => {
                    return Err(
                        EngineError::new(
                            ErrorKind::Host,
                            "Unable to resolve config directory".to_owned(),
                        ),
                    );
                },
            },
        };
        let dir = join(p, base.as_str(), "opencode");
        Ok(join(p, dir.as_str(), "opencode.json"))
    } else {
        Err(
            EngineError::new(
                ErrorKind::Validation,
                "scope must be 'project' or 'global'".to_owned(),
            ),
        )
    }
}

/// What the file at `path` was found to be: absent, or present with its
/// content.
pub open spec fn found_file(path: Seq<char>, content: Option<Seq<char>>) -> OpencodeConfigFileView {
    OpencodeConfigFileView { path, exists: content is Some, content }
}

/// The failure to read a file that exists.
pub open spec fn read_failure(path: Seq<char>, error: Seq<char>) -> EngineErrorView {
    failure(ErrorKind::Host, "Failed to read "@ + path + ": "@ + error)
}

/// What a read comes to, given what the host found at the path: nothing, the
/// content, or an error.
pub open spec fn loaded_spec(path: Seq<char>, found: Option<Result<Seq<char>, Seq<char>>>) -> Result<
    OpencodeConfigFileView,
    EngineErrorView,
> {
    match found {
        None => Ok(found_file(path, None)),
        Some(Ok(content)) => Ok(found_file(path, Some(content))),
        Some(Err(error)) => Err(read_failure(path, error)),
    }
}

/// The views inside what the host found.
pub open spec fn found_view(found: Option<Result<String, String>>) -> Option<
    Result<Seq<char>, Seq<char>>,
> {
    match found {
        None => None,
        Some(Ok(content)) => Some(Ok(content@)),
        Some(Err(error)) => Some(Err(error@)),
    }
}

/// The views inside the result of a read.
pub open spec fn file_view(result: Result<OpencodeConfigFile, EngineError>) -> Result<
    OpencodeConfigFileView,
    EngineErrorView,
> {
    match result {
        Ok(file) => Ok(file@),
        Err(e) => Err(e@),
    }
}

/// A read under way: the host looks whether the file exists and reads it.
pub struct ConfigRead {
    path: String,
}

impl ConfigRead {
    /// The path of the file.
    pub closed spec fn target(&self) -> Seq<char> {
        self.path@
    }

    /// The file to look for.
    pub fn path(&self) -> (path: String)
        ensures
            path@ == self.target(),
    {
        self.path.clone()
    }

    /// Takes what the host found: `None` when the file does not exist, else
    /// its content or the error of reading it.
    pub fn loaded(self, found: Option<Result<String, String>>) -> (file: Result<
        OpencodeConfigFile,
        EngineError,
    >)
        ensures
            file_view(file) == loaded_spec(self.target(), found_view(found)),
    {
        match found {
            None => Ok(OpencodeConfigFile { path: self.path, exists: false, content: None }),
            Some(Ok(content)) => Ok(
                OpencodeConfigFile { path: self.path, exists: true, content: Some(content) },
            ),
            Some(Err(error)) => {
                let mut message = concat2("Failed to read ", self.path.as_str());
                message.append(": ");
                message.append(error.as_str());
                Err(EngineError::new(ErrorKind::Host, message))
            },
        }
    }
}

/// The views inside the first step of a read.
pub open spec fn read_view(result: Result<ConfigRead, EngineError>) -> Result<Seq<char>, EngineErrorView> {
    match result {
        Ok(read) => Ok(read.target()),
        Err(e) => Err(e@),
    }
}

/// Reading the configuration, first step: the path for the scope, which
/// must be one of the two literal values as it stands.
pub fn read_opencode_config(scope: &str, project_dir: &str, host: &HostEnv) -> (read: Result<
    ConfigRead,
    EngineError,
>)
    ensures
        read_view(read) == config_path_spec(scope@, project_dir@, host@),
{
    match resolve_opencode_config_path(scope, project_dir, host) {
        Ok(path) => Ok(ConfigRead { path }),
        Err(e) => Err(e),
    }
}

/// A write under way: the host creates the directory with all its parents.
pub struct ConfigWrite {
    dir: String,
    path: String,
    content: String,
}

/// A write whose directory exists: the host writes the file.
pub struct ConfigWriteFile {
    path: String,
    content: String,
}

/// What a [`ConfigWrite`] holds, as mathematical values.
pub struct ConfigWriteView {
    pub dir: Seq<char>,
    pub path: Seq<char>,
    pub content: Seq<char>,
}

impl View for ConfigWrite {
    type V = ConfigWriteView;

    closed spec fn view(&self) -> ConfigWriteView {
        ConfigWriteView { dir: self.dir@, path: self.path@, content: self.content@ }
    }
}

/// How a write begins: the file is the one that is read for the same scope,
/// the directory is the one it lies in.
pub open spec fn write_plan_spec(
    scope: Seq<char>,
    project_dir: Seq<char>,
    content: Seq<char>,
    host: HostEnvView,
) -> Result<ConfigWriteView, EngineErrorView> {
    match config_path_spec(scope, project_dir, host) {
        Ok(path) => Ok(ConfigWriteView { dir: parent_spec(host.platform, path), path, content }),
        Err(e) => Err(e),
    }
}

/// The views inside the first step of a write.
pub open spec fn write_view(result: Result<ConfigWrite, EngineError>) -> Result<
    ConfigWriteView,
    EngineErrorView,
> {
    match result {
        Ok(write) => Ok(write@),
        Err(e) => Err(e@),
    }
}

/// The failure to create the directory of the file.
pub open spec fn create_dir_failure(dir: Seq<char>, error: Seq<char>) -> EngineErrorView {
    failure(ErrorKind::Host, "Failed to create config dir "@ + dir + ": "@ + error)
}

/// The failure to write the file.
pub open spec fn write_failure(path: Seq<char>, error: Seq<char>) -> EngineErrorView {
    failure(ErrorKind::Host, "Failed to write "@ + path + ": "@ + error)
}

/// The result of a write that succeeded.
pub open spec fn written_result(path: Seq<char>) -> ExecResultView {
    done_result("Wrote "@ + path)
}

/// Writing the configuration, first step.
pub fn write_opencode_config(scope: &str, project_dir: &str, content: String, host: &HostEnv) -> (write:
    Result<ConfigWrite, EngineError>)
    ensures
        write_view(write) == write_plan_spec(scope@, project_dir@, content@, host@),
{
    match resolve_opencode_config_path(scope, project_dir, host) {
        Ok(path) => {
            let dir = parent(host.platform, path.as_str());
            Ok(ConfigWrite { dir, path, content })
        },
        Err(e) => Err(e),
    }
}

impl ConfigWrite {
    /// The directory to create.
    pub fn dir(&self) -> (dir: String)
        ensures
            dir@ == self@.dir,
    {
        self.dir.clone()
    }

    /// Takes the outcome of creating the directory.
    pub fn dir_created(self, outcome: Result<(), String>) -> (next: Result<ConfigWriteFile, EngineError>)
        ensures
            match outcome {
                Ok(_) => next is Ok && next->Ok_0.target() == self@.path && next->Ok_0.text()
                    == self@.content,
                Err(error) => next is Err && next->Err_0@ == create_dir_failure(self@.dir, error@),
            },
    {
        match outcome {
            Ok(_) => Ok(ConfigWriteFile { path: self.path, content: self.content }),
            Err(error) => {
                let mut message = concat2("Failed to create config dir ", self.dir.as_str());
                message.append(": ");
                message.append(error.as_str());
                Err(EngineError::new(ErrorKind::Host, message))
            },
        }
    }
}

impl ConfigWriteFile {
    /// The path of the file.
    pub closed spec fn target(&self) -> Seq<char> {
        self.path@
    }

    /// The content to write.
    pub closed spec fn text(&self) -> Seq<char> {
        self.content@
    }

    /// The file to write.
    pub fn path(&self) -> (path: String)
        ensures
            path@ == self.target(),
    {
        self.path.clone()
    }

    /// What to write into it.
    pub fn content(&self) -> (content: String)
        ensures
            content@ == self.text(),
    {
        self.content.clone()
    }

    /// Takes the outcome of writing the file.
    pub fn written(self, outcome: Result<(), String>) -> (result: Result<ExecResult, EngineError>)
        ensures
            result_view(result) == match outcome {
                Ok(_) => Ok(written_result(self.target())),
                Err(error) => Err(write_failure(self.target(), error@)),
            },
    {
        match outcome {
            Ok(_) => Ok(ExecResult::done(concat2("Wrote ", self.path.as_str()))),
            Err(error) => {
                let mut message = concat2("Failed to write ", self.path.as_str());
                message.append(": ");
                message.append(error.as_str());
                Err(EngineError::new(ErrorKind::Host, message))
            },
        }
    }
}

/// What a read of `scope` comes to on a store of files that holds `store`.
pub open spec fn read_model(
    scope: Seq<char>,
    project_dir: Seq<char>,
    host: HostEnvView,
    store: Map<Seq<char>, Seq<char>>,
) -> Result<OpencodeConfigFileView, EngineErrorView> {
    match config_path_spec(scope, project_dir, host) {
        Ok(path) => loaded_spec(
            path,
            if store.dom().contains(path) {
                Some(Ok(store[path]))
            } else {
                None
            },
        ),
        Err(e) => Err(e),
    }
}

/// The store of files after a write that succeeded.
pub open spec fn store_after(store: Map<Seq<char>, Seq<char>>, write: ConfigWriteView) -> Map<
    Seq<char>,
    Seq<char>,
> {
    store.insert(write.path, write.content)
}

/// Writing a configuration and reading it back with the same scope and
/// project directory finds the file and gives the content that was written,
/// character for character, on a store that keeps what is written to it.
pub proof fn lemma_config_round_trip(
    scope: Seq<char>,
    project_dir: Seq<char>,
    content: Seq<char>,
    host: HostEnvView,
    store: Map<Seq<char>, Seq<char>>,
)
    requires
        write_plan_spec(scope, project_dir, content, host) is Ok,
    ensures
        ({
            let write = write_plan_spec(scope, project_dir, content, host)->Ok_0;
            let read = read_model(scope, project_dir, host, store_after(store, write));
            &&& read is Ok
            &&& read->Ok_0.exists
            &&& read->Ok_0.content == Some(content)
            &&& read->Ok_0.path == write.path
        }),
{
}

/// The project scope resolves for every project directory that is not blank.
pub proof fn lemma_project_scope_resolves(project_dir: Seq<char>, host: HostEnvView)
    requires
        !is_blank(project_dir),
    ensures
        config_path_spec("project"@, project_dir, host) == Ok::<Seq<char>, EngineErrorView>(
            join_spec(host.platform, project_dir, "opencode.json"@),
        ),
{
}

/// A scope other than the two literal values is a validation error, and so
/// is the project scope without a project directory.
pub proof fn lemma_bad_scope_is_validation_error(
    scope: Seq<char>,
    project_dir: Seq<char>,
    host: HostEnvView,
)
    requires
        (scope != "project"@ && scope != "global"@) || (scope == "project"@ && is_blank(project_dir)),
    ensures
        config_path_spec(scope, project_dir, host) is Err,
        config_path_spec(scope, project_dir, host)->Err_0.kind == ErrorKind::Validation,
{
    reveal_strlit("project");
    reveal_strlit("global");
}

/// With a scope other than the two literal values as they stand, or with the
/// project scope and no project directory, reading and writing fail as
/// validation errors in their first step: nothing is looked up, no directory
/// is to be created and no file to be written.
pub proof fn lemma_bad_scope_plans_nothing(
    scope: Seq<char>,
    project_dir: Seq<char>,
    content: Seq<char>,
    host: HostEnvView,
    store: Map<Seq<char>, Seq<char>>,
)
    requires
        (scope != "project"@ && scope != "global"@) || (scope == "project"@ && is_blank(project_dir)),
    ensures
        write_plan_spec(scope, project_dir, content, host) is Err,
        write_plan_spec(scope, project_dir, content, host)->Err_0.kind == ErrorKind::Validation,
        read_model(scope, project_dir, host, store) is Err,
        read_model(scope, project_dir, host, store)->Err_0.kind == ErrorKind::Validation,
{
    lemma_bad_scope_is_validation_error(scope, project_dir, host);
}

} // verus!
