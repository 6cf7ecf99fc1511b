//! Linux, and other systems that follow the XDG base directory and user
//! directory conventions.
//!
//! Each base directory is the value of an environment variable if that value
//! is an absolute path, and a fixed place below the home directory otherwise.
//! A user directory is what the `xdg-user-dir` helper prints, if that is an
//! absolute path. Without a home directory that is known and absolute there
//! are no directories at all.

use crate::path::{absolute, is_absolute, join, joined, pop, popped, Style};
use crate::path::{
    lemma_joined_absolute, lemma_joined_below, lemma_popped_joined, lemma_popped_prefix,
};
use crate::text::{join_words, joined_words, lowercase_words, lowered, split_words, text_of, words};
use crate::{home_of, known_home, view_of, with_home, Error};
use crate::{BaseDirs, BaseDirsView, ProjectDirs, ProjectDirsView, UserDirs, UserDirsView};
use vstd::prelude::*;

verus! {

/// An environment variable that overrides the place of a base directory.
#[derive(Clone, Copy, Debug, PartialEq, Eq, Structural)]
pub enum Variable {
    CacheHome,
    ConfigHome,
    DataHome,
    RuntimeDir,
    BinHome,
}

/// The name under which a variable stands in the environment.
pub open spec fn variable_name(variable: Variable) -> Seq<char> {
    match variable {
        Variable::CacheHome => "XDG_CACHE_HOME"@,
        Variable::ConfigHome => "XDG_CONFIG_HOME"@,
        Variable::DataHome => "XDG_DATA_HOME"@,
        Variable::RuntimeDir => "XDG_RUNTIME_DIR"@,
        Variable::BinHome => "XDG_BIN_HOME"@,
    }
}

impl Variable {
    /// The name under which the variable stands in the environment.
    pub fn name(&self) -> (name: &'static str)
        ensures
            name@ == variable_name(*self),
    {
        match self {
            Variable::CacheHome => "XDG_CACHE_HOME",
            Variable::ConfigHome => "XDG_CONFIG_HOME",
            Variable::DataHome => "XDG_DATA_HOME",
            Variable::RuntimeDir => "XDG_RUNTIME_DIR",
            Variable::BinHome => "XDG_BIN_HOME",
        }
    }
}

/// The program that is run, once for each category, to learn where a user
/// directory is.
pub const HELPER: &'static str = "xdg-user-dir";

/// A kind of user directory that the `xdg-user-dir` helper can be asked for.
#[derive(Clone, Copy, Debug, PartialEq, Eq, Structural)]
pub enum Category {
    Music,
    Desktop,
    Documents,
    Download,
    Pictures,
    PublicShare,
    Templates,
    Videos,
}

/// The word by which the helper knows a category.
pub open spec fn category_keyword(category: Category) -> Seq<char> {
    match category {
        Category::Music => "MUSIC"@,
        Category::Desktop => "DESKTOP"@,
        Category::Documents => "DOCUMENTS"@,
        Category::Download => "DOWNLOAD"@,
        Category::Pictures => "PICTURES"@,
        Category::PublicShare => "PUBLICSHARE"@,
        Category::Templates => "TEMPLATES"@,
        Category::Videos => "VIDEOS"@,
    }
}

impl Category {
    /// The argument with which the helper is run to ask for this category.
    pub fn keyword(&self) -> (word: &'static str)
        ensures
            word@ == category_keyword(*self),
    {
        match self {
            Category::Music => "MUSIC",
            Category::Desktop => "DESKTOP",
            Category::Documents => "DOCUMENTS",
            Category::Download => "DOWNLOAD",
            Category::Pictures => "PICTURES",
            Category::PublicShare => "PUBLICSHARE",
            Category::Templates => "TEMPLATES",
            Category::Videos => "VIDEOS",
        }
    }
}

/// What the process knows of the user: the home directory, and the value of
/// each variable that can override a base directory. A field is `None` where
/// the home directory could not be determined or the variable is not set.
#[derive(Debug, Clone)]
pub struct Environment {
    pub home: Option<String>,
    pub xdg_cache_home: Option<String>,
    pub xdg_config_home: Option<String>,
    pub xdg_data_home: Option<String>,
    pub xdg_runtime_dir: Option<String>,
    pub xdg_bin_home: Option<String>,
}

/// One run of the `xdg-user-dir` helper: whether it ended well, and what it
/// printed. `printed` is `None` where the helper could not be run or what it
/// printed is no text.
#[derive(Debug, Clone)]
pub struct HelperRun {
    pub ended_well: bool,
    pub printed: Option<String>,
}

/// The run of the `xdg-user-dir` helper for each category.
#[derive(Debug, Clone)]
pub struct HelperOutput {
    pub music: HelperRun,
    pub desktop: HelperRun,
    pub documents: HelperRun,
    pub download: HelperRun,
    pub pictures: HelperRun,
    pub publicshare: HelperRun,
    pub templates: HelperRun,
    pub videos: HelperRun,
}

/// The value of a variable as far as it counts: a value that is set and is
/// an absolute path. The empty value is not absolute and so does not count.
pub open spec fn accepted(value: Option<String>) -> Option<Seq<char>> {
    match value {
        Some(path) => if absolute(Style::Unix, path@) {
            Some(path@)
        } else {
            None
        },
        None => None,
    }
}

/// The value of a variable if it counts, and `rel` below `home` otherwise.
pub open spec fn accepted_or(value: Option<String>, home: Seq<char>, rel: Seq<char>) -> Seq<char> {
    match accepted(value) {
        Some(path) => path,
        None => joined(Style::Unix, home, rel),
    }
}

/// `text` without the line feed that ends it, if one does.
pub open spec fn without_newline(text: Seq<char>) -> Seq<char> {
    if text.len() > 0 && text.last() == '\n' {
        text.drop_last()
    } else {
        text
    }
}

/// The directory that the helper named: what it printed, without the line
/// feed at the end, if that is an absolute path. There is none where the
/// helper printed nothing, or anything but an absolute path.
pub open spec fn named_dir(printed: Option<String>) -> Option<Seq<char>> {
    match printed {
        Some(printed) => if absolute(Style::Unix, without_newline(printed@)) {
            Some(without_newline(printed@))
        } else {
            None
        },
        None => None,
    }
}

/// The directory that one run of the helper gives: the directory that it
/// named, if it ended well.
pub open spec fn answered(run: HelperRun) -> Option<Seq<char>> {
    if run.ended_well {
        named_dir(run.printed)
    } else {
        None
    }
}

impl Environment {
    /// `$XDG_CACHE_HOME`, or `.cache` below the home directory.
    pub open spec fn cache_dir(&self) -> Seq<char>
        recommends
            self.home is Some,
    {
        accepted_or(self.xdg_cache_home, self.home->0@, ".cache"@)
    }

    /// `$XDG_CONFIG_HOME`, or `.config` below the home directory.
    pub open spec fn config_dir(&self) -> Seq<char>
        recommends
            self.home is Some,
    {
        accepted_or(self.xdg_config_home, self.home->0@, ".config"@)
    }

    /// `$XDG_DATA_HOME`, or `.local/share` below the home directory.
    pub open spec fn data_dir(&self) -> Seq<char>
        recommends
            self.home is Some,
    {
        accepted_or(self.xdg_data_home, self.home->0@, ".local/share"@)
    }

    /// `$XDG_BIN_HOME`, or `bin` beside the data directory.
    pub open spec fn executable_dir(&self) -> Seq<char>
        recommends
            self.home is Some,
    {
        match accepted(self.xdg_bin_home) {
            Some(path) => path,
            None => joined(Style::Unix, popped(self.data_dir()), "bin"@),
        }
    }

    /// The base directories that follow from this environment.
    pub open spec fn base_dirs(&self) -> BaseDirsView
        recommends
            self.home is Some,
    {
        BaseDirsView {
            home_dir: self.home->0@,
            cache_dir: self.cache_dir(),
            config_dir: self.config_dir(),
            data_dir: self.data_dir(),
            data_local_dir: self.data_dir(),
            executable_dir: Some(self.executable_dir()),
            runtime_dir: accepted(self.xdg_runtime_dir),
        }
    }

    /// The user directories that follow from this environment and from the
    /// runs of the helper.
    pub open spec fn user_dirs(&self, output: HelperOutput) -> UserDirsView
        recommends
            self.home is Some,
    {
        UserDirsView {
            home_dir: self.home->0@,
            audio_dir: answered(output.music),
            desktop_dir: answered(output.desktop),
            document_dir: answered(output.documents),
            download_dir: answered(output.download),
            font_dir: Some(joined(Style::Unix, self.data_dir(), "fonts"@)),
            picture_dir: answered(output.pictures),
            public_dir: answered(output.publicshare),
            template_dir: answered(output.templates),
            video_dir: answered(output.videos),
        }
    }

    /// The directories of the project with the given fragment: the fragment
    /// below each base directory.
    pub open spec fn project_dirs(&self, project_path: Seq<char>) -> ProjectDirsView
        recommends
            self.home is Some,
    {
        ProjectDirsView {
            project_path: project_path,
            cache_dir: joined(Style::Unix, self.cache_dir(), project_path),
            config_dir: joined(Style::Unix, self.config_dir(), project_path),
            data_dir: joined(Style::Unix, self.data_dir(), project_path),
            data_local_dir: joined(Style::Unix, self.data_dir(), project_path),
            runtime_dir: match accepted(self.xdg_runtime_dir) {
                Some(path) => Some(joined(Style::Unix, path, project_path)),
                None => None,
            },
        }
    }
}

/// The fragment that names a project on Linux: the words of the application
/// name in lower case, with a hyphen between each two. White space around
/// the name and between its words is dropped.
pub open spec fn fragment(application: Seq<char>) -> Seq<char> {
    joined_words(lowered(words(application)), "-"@)
}

/// With a home directory that can be used, every base directory is absolute.
pub proof fn lemma_base_dirs_absolute(env: Environment)
    requires
        home_of(Style::Unix, env.home) is Ok,
    ensures
        env.base_dirs().all_absolute(Style::Unix),
{
    let home = env.home->0@;
    lemma_joined_absolute(Style::Unix, home, ".cache"@);
    lemma_joined_absolute(Style::Unix, home, ".config"@);
    lemma_joined_absolute(Style::Unix, home, ".local/share"@);
    lemma_popped_prefix(env.data_dir());
    lemma_joined_absolute(Style::Unix, popped(env.data_dir()), "bin"@);
}

/// Where neither `$XDG_BIN_HOME` nor `$XDG_DATA_HOME` counts, the executable
/// directory is `.local/bin` below the home directory.
pub proof fn lemma_executable_dir_default(env: Environment)
    requires
        env.home is Some,
        accepted(env.xdg_bin_home) is None,
        accepted(env.xdg_data_home) is None,
    ensures
        env.executable_dir() == joined(
            Style::Unix,
            joined(Style::Unix, env.home->0@, ".local"@),
            "bin"@,
        ),
{
    reveal_strlit(".local/share");
    reveal_strlit(".local");
    reveal_strlit("share");
    assert(".local/share"@ =~= ".local"@.push('/') + "share"@);
    lemma_popped_joined(env.home->0@, ".local"@, "share"@);
}

/// With a home directory that can be used, every user directory that is
/// present is absolute, whatever the helper printed.
pub proof fn lemma_user_dirs_absolute(env: Environment, output: HelperOutput)
    requires
        home_of(Style::Unix, env.home) is Ok,
    ensures
        env.user_dirs(output).all_absolute(Style::Unix),
{
    lemma_joined_absolute(Style::Unix, env.home->0@, ".local/share"@);
    lemma_joined_absolute(Style::Unix, env.data_dir(), "fonts"@);
}

/// With a home directory that can be used, every directory of a project is
/// absolute, whatever the fragment.
pub proof fn lemma_project_dirs_absolute(env: Environment, project_path: Seq<char>)
    requires
        home_of(Style::Unix, env.home) is Ok,
    ensures
        env.project_dirs(project_path).all_absolute(Style::Unix),
{
    lemma_base_dirs_absolute(env);
    lemma_joined_absolute(Style::Unix, env.cache_dir(), project_path);
    lemma_joined_absolute(Style::Unix, env.config_dir(), project_path);
    lemma_joined_absolute(Style::Unix, env.data_dir(), project_path);
    if accepted(env.xdg_runtime_dir) is Some {
        lemma_joined_absolute(Style::Unix, accepted(env.xdg_runtime_dir)->0, project_path);
    }
}

/// Each directory of a project lies below the base directory of the same
/// kind, whatever the fragment: the base directory is a prefix of it, and
/// the project has a runtime directory exactly where the user has one.
pub proof fn lemma_project_dirs_below_base(env: Environment, project_path: Seq<char>)
    ensures
        env.base_dirs().cache_dir.is_prefix_of(env.project_dirs(project_path).cache_dir),
        env.base_dirs().config_dir.is_prefix_of(env.project_dirs(project_path).config_dir),
        env.base_dirs().data_dir.is_prefix_of(env.project_dirs(project_path).data_dir),
        env.base_dirs().data_local_dir.is_prefix_of(env.project_dirs(project_path).data_local_dir),
        env.base_dirs().runtime_dir is Some <==> env.project_dirs(project_path).runtime_dir is Some,
        env.base_dirs().runtime_dir is Some ==> env.base_dirs().runtime_dir->0.is_prefix_of(
            env.project_dirs(project_path).runtime_dir->0,
        ),
{
    lemma_joined_below(Style::Unix, env.cache_dir(), project_path);
    lemma_joined_below(Style::Unix, env.config_dir(), project_path);
    lemma_joined_below(Style::Unix, env.data_dir(), project_path);
    if accepted(env.xdg_runtime_dir) is Some {
        lemma_joined_below(Style::Unix, accepted(env.xdg_runtime_dir)->0, project_path);
    }
}

/// Keeps a path only if it is absolute.
pub fn is_absolute_path(path: String) -> (kept: Option<String>)
    ensures
        text_of(kept) == accepted(Some(path)),
{
    if is_absolute(Style::Unix, path.as_str()) {
        Some(path)
    } else {
        None
    }
}

/// The value of a variable, if it is set to an absolute path.
fn overriding(value: &Option<String>) -> (kept: Option<String>)
    ensures
        text_of(kept) == accepted(*value),
{
    match value {
        Some(path) => is_absolute_path(path.clone()),
        None => None,
    }
}

/// The value of a variable if it is set to an absolute path, and `rel` below
/// `home` otherwise.
fn overriding_or(value: &Option<String>, home: &str, rel: &str) -> (dir: String)
    ensures
        dir@ == accepted_or(*value, home@, rel@),
{
    match overriding(value) {
        Some(path) => path,
        None => join(Style::Unix, home, rel),
    }
}

/// The directory that one run of the helper gives. A run that did not end
/// well gives none, whatever it printed; one that ended well gives what it
/// printed, without the line feed at the end, if that is an absolute path.
pub fn helper_answer(ended_well: bool, printed: Option<String>) -> (answer: Option<String>)
    ensures
        text_of(answer) == (if ended_well {
            named_dir(printed)
        } else {
            None
        }),
{
    if !ended_well {
        return None;
    }
    match printed {
        Some(printed) => {
            let text: &str = printed.as_str();
            let len: usize = text.unicode_len();
            let end: usize = if len > 0 && text.get_char(len - 1) == '\n' {
                len - 1
            } else {
                len
            };
            is_absolute_path(String::from_str(text.substring_char(0, end)))
        },
        None => None,
    }
}

/// The directory that a run of the helper gives.
fn answer_of(run: &HelperRun) -> (answer: Option<String>)
    ensures
        text_of(answer) == answered(*run),
{
    let printed = match &run.printed {
        Some(printed) => Some(printed.clone()),
        None => None,
    };
    helper_answer(run.ended_well, printed)
}

/// The base directories of the user, each of them absolute. There are none
/// where the home directory is not known or is not an absolute path.
pub fn base_dirs(env: &Environment) -> (dirs: Result<BaseDirs, Error>)
    ensures
        view_of(dirs) == with_home(home_of(Style::Unix, env.home), env.base_dirs()),
        dirs is Ok ==> dirs->Ok_0@.all_absolute(Style::Unix),
{
    let home = match known_home(Style::Unix, &env.home) {
        Ok(home) => home,
        Err(error) => {
            return Err(error);
        },
    };
    let home_dir: &str = home.as_str();
    let cache_dir = overriding_or(&env.xdg_cache_home, home_dir, ".cache");
    let config_dir = overriding_or(&env.xdg_config_home, home_dir, ".config");
    let data_dir = overriding_or(&env.xdg_data_home, home_dir, ".local/share");
    let data_local_dir = data_dir.clone();
    let runtime_dir = overriding(&env.xdg_runtime_dir);
    let executable_dir = match overriding(&env.xdg_bin_home) {
        Some(path) => path,
        None => {
            let beside = pop(data_dir.as_str());
            join(Style::Unix, beside.as_str(), "bin")
        },
    };
    proof {
        lemma_base_dirs_absolute(*env);
    }
    Ok(
        BaseDirs {
            home_dir: home,
            cache_dir: cache_dir,
            config_dir: config_dir,
            data_dir: data_dir,
            data_local_dir: data_local_dir,
            executable_dir: Some(executable_dir),
            runtime_dir: runtime_dir,
        },
    )
}

/// The user directories, each that is present absolute. There are none where
/// the home directory is not known or is not an absolute path.
pub fn user_dirs(env: &Environment, output: &HelperOutput) -> (dirs: Result<UserDirs, Error>)
    ensures
        view_of(dirs) == with_home(home_of(Style::Unix, env.home), env.user_dirs(*output)),
        dirs is Ok ==> dirs->Ok_0@.all_absolute(Style::Unix),
{
    let home = match known_home(Style::Unix, &env.home) {
        Ok(home) => home,
        Err(error) => {
            return Err(error);
        },
    };
    let data_dir = overriding_or(&env.xdg_data_home, home.as_str(), ".local/share");
    let font_dir = join(Style::Unix, data_dir.as_str(), "fonts");
    proof {
        lemma_user_dirs_absolute(*env, *output);
    }
    Ok(
        UserDirs {
            home_dir: home,
            audio_dir: answer_of(&output.music),
            desktop_dir: answer_of(&output.desktop),
            document_dir: answer_of(&output.documents),
            download_dir: answer_of(&output.download),
            font_dir: Some(font_dir),
            picture_dir: answer_of(&output.pictures),
            public_dir: answer_of(&output.publicshare),
            template_dir: answer_of(&output.templates),
            video_dir: answer_of(&output.videos),
        },
    )
}

/// The directories of the project with the given fragment, each of them
/// absolute and below the base directory of its kind. There are none where
/// the home directory is not known or is not an absolute path. The fragment
/// is taken as it is.
pub fn project_dirs_from_path(env: &Environment, project_path: String) -> (dirs: Result<
    ProjectDirs,
    Error,
>)
    ensures
        view_of(dirs) == with_home(
            home_of(Style::Unix, env.home),
            env.project_dirs(project_path@),
        ),
        dirs is Ok ==> dirs->Ok_0@.all_absolute(Style::Unix),
{
    let home = match known_home(Style::Unix, &env.home) {
        Ok(home) => home,
        Err(error) => {
            return Err(error);
        },
    };
    let home_dir: &str = home.as_str();
    let fragment: &str = project_path.as_str();
    let cache_home = overriding_or(&env.xdg_cache_home, home_dir, ".cache");
    let config_home = overriding_or(&env.xdg_config_home, home_dir, ".config");
    let data_home = overriding_or(&env.xdg_data_home, home_dir, ".local/share");
    let cache_dir = join(Style::Unix, cache_home.as_str(), fragment);
    let config_dir = join(Style::Unix, config_home.as_str(), fragment);
    let data_dir = join(Style::Unix, data_home.as_str(), fragment);
    let data_local_dir = data_dir.clone();
    let runtime_dir = match overriding(&env.xdg_runtime_dir) {
        Some(path) => Some(join(Style::Unix, path.as_str(), fragment)),
        None => None,
    };
    proof {
        lemma_project_dirs_absolute(*env, project_path@);
    }
    Ok(
        ProjectDirs {
            project_path: project_path,
            cache_dir: cache_dir,
            config_dir: config_dir,
            data_dir: data_dir,
            data_local_dir: data_local_dir,
            runtime_dir: runtime_dir,
        },
    )
}

/// The directories of the project that the application name stands for.
/// There are none where the home directory is not known or is not an
/// absolute path. Qualifier and organization play no part on Linux.
pub fn project_dirs_from(
    env: &Environment,
    _qualifier: &str,
    _organization: &str,
    application: &str,
) -> (dirs: Result<ProjectDirs, Error>)
    ensures
        view_of(dirs) == with_home(
            home_of(Style::Unix, env.home),
            env.project_dirs(fragment(application@)),
        ),
        dirs is Ok ==> dirs->Ok_0@.all_absolute(Style::Unix),
{
    project_dirs_from_path(env, trim_and_lowercase_then_replace_spaces(application, "-"))
}

/// The words of `name` in lower case, with `replacement` between each two.
/// White space around the name is dropped, and so is the white space between
/// its words, however long.
pub fn trim_and_lowercase_then_replace_spaces(name: &str, replacement: &str) -> (buf: String)
    ensures
        buf@ == joined_words(lowered(words(name@)), replacement@),
{
    let parts = split_words(name);
    let lower = lowercase_words(&parts);
    join_words(&lower, replacement)
}

} // verus!
