//! Where the bundled server lies relative to the running binary, and how it
//! is to be started.
//!
//! The layout is that of an application bundle: the directory above the
//! binary's own directory holds `Resources`, which holds the server under
//! `bin` and the model data under `models`. Paths are texts with `/`
//! between their parts.

use vstd::prelude::*;
use vstd::string::StringExecFns;
use vstd::string::StrSliceExecFns;
use crate::error::ProcessSpawnError;

verus! {

/// What `std::path::Path::parent` gives for a path written as text: the
/// path without its last component, or nothing where the path is empty or
/// ends in a root. It goes by the path's text alone, read with the
/// separators of the platform that the library is built for.
pub uninterp spec fn parent_text(path: Seq<char>) -> Option<Seq<char>>;

/// The bundle directory of a binary: the directory above the one that the
/// binary lies in.
pub open spec fn bundle_dir_text(exe_path: Seq<char>) -> Option<Seq<char>> {
    match parent_text(exe_path) {
        Some(exe_dir) => parent_text(exe_dir),
        None => None,
    }
}

/// Whether a separator has to stand between `dir` and what is joined to it:
/// not after an empty text, and not after a separator.
pub open spec fn needs_separator(dir: Seq<char>) -> bool {
    dir.len() > 0 && dir.last() != '/'
}

/// `dir` with the relative path `rest` below it.
pub open spec fn join_text(dir: Seq<char>, rest: Seq<char>) -> Seq<char> {
    if needs_separator(dir) {
        dir + seq!['/'] + rest
    } else {
        dir + rest
    }
}

/// The resources directory of the bundle.
pub open spec fn resources_dir_text(bundle_dir: Seq<char>) -> Seq<char> {
    join_text(bundle_dir, "Resources"@)
}

/// The server executable inside the bundle.
pub open spec fn server_binary_text(bundle_dir: Seq<char>) -> Seq<char> {
    join_text(resources_dir_text(bundle_dir), "bin/mlx-audio-server"@)
}

/// The directory of model data inside the bundle.
pub open spec fn models_dir_text(bundle_dir: Seq<char>) -> Seq<char> {
    join_text(resources_dir_text(bundle_dir), "models"@)
}

/// One environment variable for the server process.
pub struct EnvVar {
    pub name: String,
    pub value: String,
}

/// An environment variable as plain texts.
pub struct EnvVarView {
    pub name: Seq<char>,
    pub value: Seq<char>,
}

impl View for EnvVar {
    type V = EnvVarView;

    open spec fn view(&self) -> EnvVarView {
        EnvVarView { name: self.name@, value: self.value@ }
    }
}

/// All that is needed to start the server process.
pub struct LaunchSpec {
    /// Path of the executable.
    pub program: String,
    /// Variables to set for the process, besides those it inherits.
    pub env: Vec<EnvVar>,
    /// Whether the process writes to the caller's own standard output and
    /// standard error, with nothing captured.
    pub inherit_output: bool,
}

/// A launch description as plain values.
pub struct LaunchSpecView {
    pub program: Seq<char>,
    pub env: Seq<EnvVarView>,
    pub inherit_output: bool,
}

impl View for LaunchSpec {
    type V = LaunchSpecView;

    open spec fn view(&self) -> LaunchSpecView {
        LaunchSpecView {
            program: self.program@,
            env: self.env@.map_values(|var: EnvVar| var@),
            inherit_output: self.inherit_output,
        }
    }
}

/// The launch of the server of the bundle in `bundle_dir`: the bundled
/// executable, with the home and the cache of the model library both set
/// to the bundle's model directory, and with the caller's output streams.
pub open spec fn launch_spec_view(bundle_dir: Seq<char>) -> LaunchSpecView {
    LaunchSpecView {
        program: server_binary_text(bundle_dir),
        env: seq![
            EnvVarView { name: "HF_HOME"@, value: models_dir_text(bundle_dir) },
            EnvVarView { name: "TRANSFORMERS_CACHE"@, value: models_dir_text(bundle_dir) },
        ],
        inherit_output: true,
    }
}

/// The paths inside the bundle are the bundle directory joined with one
/// relative path each, and the resources directory stands before both.
pub proof fn lemma_layout_texts(bundle_dir: Seq<char>)
    ensures
        server_binary_text(bundle_dir) == join_text(
            bundle_dir,
            "Resources/bin/mlx-audio-server"@,
        ),
        models_dir_text(bundle_dir) == join_text(bundle_dir, "Resources/models"@),
        server_binary_text(bundle_dir) == resources_dir_text(bundle_dir)
            + "/bin/mlx-audio-server"@,
        models_dir_text(bundle_dir) == resources_dir_text(bundle_dir) + "/models"@,
        bundle_dir.is_prefix_of(resources_dir_text(bundle_dir)),
{
    reveal_strlit("Resources");
    reveal_strlit("bin/mlx-audio-server");
    reveal_strlit("models");
    reveal_strlit("/bin/mlx-audio-server");
    reveal_strlit("/models");
    reveal_strlit("Resources/bin/mlx-audio-server");
    reveal_strlit("Resources/models");
    let resources = resources_dir_text(bundle_dir);
    assert(resources.last() == 's');
    assert(needs_separator(resources));
    assert(server_binary_text(bundle_dir) =~= join_text(
        bundle_dir,
        "Resources/bin/mlx-audio-server"@,
    ));
    assert(models_dir_text(bundle_dir) =~= join_text(bundle_dir, "Resources/models"@));
    assert(server_binary_text(bundle_dir) =~= resources + "/bin/mlx-audio-server"@);
    assert(models_dir_text(bundle_dir) =~= resources + "/models"@);
}

/// A join puts nothing but one separator between its two parts, and none
/// where the first part is empty or ends in one already.
pub proof fn lemma_join_text(dir: Seq<char>, rest: Seq<char>)
    ensures
        dir.is_prefix_of(join_text(dir, rest)),
        rest.is_suffix_of(join_text(dir, rest)),
        join_text(dir, rest).len() == dir.len() + rest.len() + (if needs_separator(dir) {
            1nat
        } else {
            0nat
        }),
        join_text(Seq::empty(), rest) == rest,
{
    let joined = join_text(dir, rest);
    assert(joined.subrange(0, dir.len() as int) =~= dir);
    assert(joined.subrange(joined.len() - rest.len(), joined.len() as int) =~= rest);
    assert(join_text(Seq::empty(), rest) =~= rest);
}

/// The launch sets exactly two variables, under different names and to the
/// same directory.
pub proof fn lemma_launch_env(bundle_dir: Seq<char>)
    ensures
        launch_spec_view(bundle_dir).env.len() == 2,
        launch_spec_view(bundle_dir).env[0].name != launch_spec_view(bundle_dir).env[1].name,
        launch_spec_view(bundle_dir).env[0].value == launch_spec_view(bundle_dir).env[1].value,
        launch_spec_view(bundle_dir).env[0].value == join_text(
            bundle_dir,
            "Resources/models"@,
        ),
{
    reveal_strlit("HF_HOME");
    reveal_strlit("TRANSFORMERS_CACHE");
    assert("HF_HOME"@.len() != "TRANSFORMERS_CACHE"@.len());
    lemma_layout_texts(bundle_dir);
}

/// Calls `std::path::Path::parent` on the path that `path` spells and hands
/// the result back as text. Believed, not proved: the result is what
/// `parent_text` names for that text.
#[verifier::external_body]
fn path_parent(path: &str) -> (parent: Option<String>)
    ensures
        match parent {
            Some(dir) => parent_text(path@) == Some(dir@),
            None => parent_text(path@) is None,
        },
{
    match std::path::Path::new(path).parent() {
        Some(dir) => Some(dir.to_string_lossy().into_owned()),
        None => None,
    }
}

/// The bundle directory of the binary at `exe_path`, if the path has one.
pub fn bundle_dir(exe_path: &str) -> (dir: Option<String>)
    ensures
        match dir {
            Some(dir) => bundle_dir_text(exe_path@) == Some(dir@),
            None => bundle_dir_text(exe_path@) is None,
        },
{
    match path_parent(exe_path) {
        Some(exe_dir) => path_parent(exe_dir.as_str()),
        None => None,
    }
}

/// Joins the relative path `rest` to `dir`, with one separator between them
/// unless `dir` is empty or ends in one.
pub fn join_path(dir: &str, rest: &str) -> (joined: String)
    ensures
        joined@ == join_text(dir@, rest@),
{
    let length: usize = dir.unicode_len();
    let mut joined = String::from_str(dir);
    if length > 0 && dir.get_char(length - 1) != '/' {
        proof {
            reveal_strlit("/");
            assert("/"@ =~= seq!['/']);
        }
        joined.append("/");
    }
    joined.append(rest);
    joined
}

/// The resources directory of the bundle in `bundle_dir`.
pub fn resources_dir(bundle_dir: &str) -> (dir: String)
    ensures
        dir@ == resources_dir_text(bundle_dir@),
{
    join_path(bundle_dir, "Resources")
}

/// The path of the bundled server executable.
pub fn server_binary(bundle_dir: &str) -> (path: String)
    ensures
        path@ == server_binary_text(bundle_dir@),
        path@ == join_text(bundle_dir@, "Resources/bin/mlx-audio-server"@),
{
    proof {
        lemma_layout_texts(bundle_dir@);
    }
    let resources = resources_dir(bundle_dir);
    join_path(resources.as_str(), "bin/mlx-audio-server")
}

/// The path of the bundled model data.
pub fn models_dir(bundle_dir: &str) -> (path: String)
    ensures
        path@ == models_dir_text(bundle_dir@),
        path@ == join_text(bundle_dir@, "Resources/models"@),
{
    proof {
        lemma_layout_texts(bundle_dir@);
    }
    let resources = resources_dir(bundle_dir);
    join_path(resources.as_str(), "models")
}

/// Describes the launch of the server of the bundle in `bundle_dir`.
pub fn launch_from_bundle(bundle_dir: &str) -> (spec: LaunchSpec)
    ensures
        spec@ == launch_spec_view(bundle_dir@),
{
    let home = EnvVar { name: String::from_str("HF_HOME"), value: models_dir(bundle_dir) };
    let cache = EnvVar {
        name: String::from_str("TRANSFORMERS_CACHE"),
        value: models_dir(bundle_dir),
    };
    let mut env: Vec<EnvVar> = Vec::new();
    env.push(home);
    env.push(cache);
    let spec = LaunchSpec { program: server_binary(bundle_dir), env, inherit_output: true };
    assert(spec@.env =~= launch_spec_view(bundle_dir@).env);
    spec
}

/// Describes the launch of the bundled server for the running binary at
/// `exe_path`.
///
/// A binary that lies too close to the root to have a bundle directory has
/// no server to go with it: that is reported as a missing executable.
pub fn launch_spec(exe_path: &str) -> (res: Result<LaunchSpec, ProcessSpawnError>)
    ensures
        match bundle_dir_text(exe_path@) {
            Some(dir) => res is Ok && res->Ok_0@ == launch_spec_view(dir),
            None => res is Err && res->Err_0 == ProcessSpawnError::ExecutableMissing,
        },
{
    match bundle_dir(exe_path) {
        Some(dir) => Ok(launch_from_bundle(dir.as_str())),
        None => Err(ProcessSpawnError::ExecutableMissing),
    }
}

} // verus!
