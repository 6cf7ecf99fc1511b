//! Standard directories of a user, and the directories of one application
//! below them, on Linux, macOS and Windows.
//!
//! The library reads nothing itself. What it needs to know of the machine
//! (environment variables, the answers of helper programs and of the system)
//! is handed to it as plain values, and it says which directories follow from
//! them. A directory is a path, written as text.
//!
//! Every directory that the library names is absolute. Where the home
//! directory is not known or is not an absolute path, no directories are
//! named and an `Error` says why.

use crate::path::{absolute, is_absolute, Style};
use crate::sys::{project_dirs_from, sanitize, sanitize_qualified, sanitized, System};
use crate::text::unqualified;
use vstd::prelude::*;

pub mod ext;
pub mod lin;
pub mod mac;
pub mod path;
pub mod sys;
pub mod text;
pub mod win;

verus! {

/// Why no directories can be named.
#[derive(Clone, Copy, Debug, PartialEq, Eq, Structural)]
pub enum Error {
    /// The home directory of the user could not be determined. On Windows:
    /// the system named no profile folder.
    HomeUnknown,
    /// What was given as the home directory is not an absolute path.
    HomeNotAbsolute,
    /// Windows named no roaming or no local application data folder, or
    /// named one by a path that is not absolute.
    AppDataUnknown,
}

/// The words in which an error is reported.
pub open spec fn diagnostic(error: Error) -> Seq<char> {
    match error {
        Error::HomeUnknown => "the home directory of the user cannot be determined"@,
        Error::HomeNotAbsolute => "the home directory of the user is not an absolute path"@,
        Error::AppDataUnknown => "the application data folders of the user cannot be determined"@,
    }
}

impl Error {
    /// The words in which the error is reported.
    pub fn message(&self) -> (text: String)
        ensures
            text@ == diagnostic(*self),
    {
        match self {
            Error::HomeUnknown => String::from_str(
                "the home directory of the user cannot be determined",
            ),
            Error::HomeNotAbsolute => String::from_str(
                "the home directory of the user is not an absolute path",
            ),
            Error::AppDataUnknown => String::from_str(
                "the application data folders of the user cannot be determined",
            ),
        }
    }
}

/// The home directory as far as it can be used: it has to be known and to
/// be an absolute path.
pub open spec fn home_of(style: Style, home: Option<String>) -> Result<Seq<char>, Error> {
    match home {
        Some(home) => if absolute(style, home@) {
            Ok(home@)
        } else {
            Err(Error::HomeNotAbsolute)
        },
        None => Err(Error::HomeUnknown),
    }
}

/// `dirs` if the home directory can be used, and else the reason why it
/// cannot.
pub open spec fn with_home<V>(home: Result<Seq<char>, Error>, dirs: V) -> Result<V, Error> {
    match home {
        Ok(_) => Ok(dirs),
        Err(error) => Err(error),
    }
}

/// What the outcome of a resolver holds: the view of the directories, or the
/// error.
pub open spec fn view_of<T: View>(outcome: Result<T, Error>) -> Result<T::V, Error> {
    match outcome {
        Ok(dirs) => Ok(dirs@),
        Err(error) => Err(error),
    }
}

/// The home directory, if it is known and absolute.
pub fn known_home(style: Style, home: &Option<String>) -> (known: Result<String, Error>)
    ensures
        match known {
            Ok(path) => home_of(style, *home) == Ok::<Seq<char>, Error>(path@),
            Err(error) => home_of(style, *home) == Err::<Seq<char>, Error>(error),
        },
{
    match home {
        Some(path) => if is_absolute(style, path.as_str()) {
            Ok(path.clone())
        } else {
            Err(Error::HomeNotAbsolute)
        },
        None => Err(Error::HomeUnknown),
    }
}

/// What a `BaseDirs` holds, each path as text.
pub struct BaseDirsView {
    pub home_dir: Seq<char>,
    pub cache_dir: Seq<char>,
    pub config_dir: Seq<char>,
    pub data_dir: Seq<char>,
    pub data_local_dir: Seq<char>,
    pub executable_dir: Option<Seq<char>>,
    pub runtime_dir: Option<Seq<char>>,
}

/// The standard directories of a user that applications work in and the user
/// does not look into: cache, configuration and data.
#[derive(Debug, Clone)]
pub struct BaseDirs {
    home_dir: String,
    cache_dir: String,
    config_dir: String,
    data_dir: String,
    data_local_dir: String,
    executable_dir: Option<String>,
    runtime_dir: Option<String>,
}

impl View for BaseDirs {
    type V = BaseDirsView;

    closed spec fn view(&self) -> BaseDirsView {
        BaseDirsView {
            home_dir: self.home_dir@,
            cache_dir: self.cache_dir@,
            config_dir: self.config_dir@,
            data_dir: self.data_dir@,
            data_local_dir: self.data_local_dir@,
            executable_dir: text::text_of(self.executable_dir),
            runtime_dir: text::text_of(self.runtime_dir),
        }
    }
}

/// What a `UserDirs` holds, each path as text.
pub struct UserDirsView {
    pub home_dir: Seq<char>,
    pub audio_dir: Option<Seq<char>>,
    pub desktop_dir: Option<Seq<char>>,
    pub document_dir: Option<Seq<char>>,
    pub download_dir: Option<Seq<char>>,
    pub font_dir: Option<Seq<char>>,
    pub picture_dir: Option<Seq<char>>,
    pub public_dir: Option<Seq<char>>,
    pub template_dir: Option<Seq<char>>,
    pub video_dir: Option<Seq<char>>,
}

/// The standard directories of a user that the user works in: documents,
/// music, pictures and the like. Each is absent where the platform or the
/// desktop does not define it.
#[derive(Debug, Clone)]
pub struct UserDirs {
    home_dir: String,
    audio_dir: Option<String>,
    desktop_dir: Option<String>,
    document_dir: Option<String>,
    download_dir: Option<String>,
    font_dir: Option<String>,
    picture_dir: Option<String>,
    public_dir: Option<String>,
    template_dir: Option<String>,
    video_dir: Option<String>,
}

impl View for UserDirs {
    type V = UserDirsView;

    closed spec fn view(&self) -> UserDirsView {
        UserDirsView {
            home_dir: self.home_dir@,
            audio_dir: text::text_of(self.audio_dir),
            desktop_dir: text::text_of(self.desktop_dir),
            document_dir: text::text_of(self.document_dir),
            download_dir: text::text_of(self.download_dir),
            font_dir: text::text_of(self.font_dir),
            picture_dir: text::text_of(self.picture_dir),
            public_dir: text::text_of(self.public_dir),
            template_dir: text::text_of(self.template_dir),
            video_dir: text::text_of(self.video_dir),
        }
    }
}

/// What a `ProjectDirs` holds, each path as text.
pub struct ProjectDirsView {
    pub project_path: Seq<char>,
    pub cache_dir: Seq<char>,
    pub config_dir: Seq<char>,
    pub data_dir: Seq<char>,
    pub data_local_dir: Seq<char>,
    pub runtime_dir: Option<Seq<char>>,
}

/// The directories of one application: below the user's cache, configuration
/// and data directories, each under the same fragment that names the project.
#[derive(Debug, Clone)]
pub struct ProjectDirs {
    project_path: String,
    cache_dir: String,
    config_dir: String,
    data_dir: String,
    data_local_dir: String,
    runtime_dir: Option<String>,
}

impl View for ProjectDirs {
    type V = ProjectDirsView;

    closed spec fn view(&self) -> ProjectDirsView {
        ProjectDirsView {
            project_path: self.project_path@,
            cache_dir: self.cache_dir@,
            config_dir: self.config_dir@,
            data_dir: self.data_dir@,
            data_local_dir: self.data_local_dir@,
            runtime_dir: text::text_of(self.runtime_dir),
        }
    }
}

impl BaseDirsView {
    /// Every directory that is present is absolute.
    pub open spec fn all_absolute(self, style: Style) -> bool {
        &&& absolute(style, self.home_dir)
        &&& absolute(style, self.cache_dir)
        &&& absolute(style, self.config_dir)
        &&& absolute(style, self.data_dir)
        &&& absolute(style, self.data_local_dir)
        &&& self.executable_dir is Some ==> absolute(style, self.executable_dir->0)
        &&& self.runtime_dir is Some ==> absolute(style, self.runtime_dir->0)
    }
}

impl UserDirsView {
    /// Every directory that is present is absolute.
    pub open spec fn all_absolute(self, style: Style) -> bool {
        &&& absolute(style, self.home_dir)
        &&& self.audio_dir is Some ==> absolute(style, self.audio_dir->0)
        &&& self.desktop_dir is Some ==> absolute(style, self.desktop_dir->0)
        &&& self.document_dir is Some ==> absolute(style, self.document_dir->0)
        &&& self.download_dir is Some ==> absolute(style, self.download_dir->0)
        &&& self.font_dir is Some ==> absolute(style, self.font_dir->0)
        &&& self.picture_dir is Some ==> absolute(style, self.picture_dir->0)
        &&& self.public_dir is Some ==> absolute(style, self.public_dir->0)
        &&& self.template_dir is Some ==> absolute(style, self.template_dir->0)
        &&& self.video_dir is Some ==> absolute(style, self.video_dir->0)
    }
}

impl ProjectDirsView {
    /// Every directory that is present is absolute. The fragment is no directory and need not be.
    pub open spec fn all_absolute(self, style: Style) -> bool {
        &&& absolute(style, self.cache_dir)
        &&& absolute(style, self.config_dir)
        &&& absolute(style, self.data_dir)
        &&& absolute(style, self.data_local_dir)
        &&& self.runtime_dir is Some ==> absolute(style, self.runtime_dir->0)
    }
}

impl BaseDirs {
    /// The user's home directory.
    ///
    /// | Platform | Value |
    /// | -------- | ----- |
    /// | Linux | `$HOME` |
    /// | macOS | `$HOME` |
    /// | Windows | `{FOLDERID_Profile}` |
    pub fn home_dir(&self) -> (dir: &str)
        ensures
            dir@ == self@.home_dir,
    {
        self.home_dir.as_str()
    }

    /// The directory for data that can be made again.
    ///
    /// | Platform | Value |
    /// | -------- | ----- |
    /// | Linux | `$XDG_CACHE_HOME` or `$HOME/.cache` |
    /// | macOS | `$HOME/Library/Caches` |
    /// | Windows | `{FOLDERID_LocalAppData}\cache` |
    pub fn cache_dir(&self) -> (dir: &str)
        ensures
            dir@ == self@.cache_dir,
    {
        self.cache_dir.as_str()
    }

    /// The directory for configuration.
    ///
    /// | Platform | Value |
    /// | -------- | ----- |
    /// | Linux | `$XDG_CONFIG_HOME` or `$HOME/.config` |
    /// | macOS | `$HOME/Library/Preferences` |
    /// | Windows | `{FOLDERID_RoamingAppData}` |
    pub fn config_dir(&self) -> (dir: &str)
        ensures
            dir@ == self@.config_dir,
    {
        self.config_dir.as_str()
    }

    /// The directory for data that follows the user from machine to machine.
    ///
    /// | Platform | Value |
    /// | -------- | ----- |
    /// | Linux | `$XDG_DATA_HOME` or `$HOME/.local/share` |
    /// | macOS | `$HOME/Library/Application Support` |
    /// | Windows | `{FOLDERID_RoamingAppData}` |
    pub fn data_dir(&self) -> (dir: &str)
        ensures
            dir@ == self@.data_dir,
    {
        self.data_dir.as_str()
    }

    /// The directory for data that stays on this machine.
    ///
    /// | Platform | Value |
    /// | -------- | ----- |
    /// | Linux | `$XDG_DATA_HOME` or `$HOME/.local/share` |
    /// | macOS | `$HOME/Library/Application Support` |
    /// | Windows | `{FOLDERID_LocalAppData}` |
    pub fn data_local_dir(&self) -> (dir: &str)
        ensures
            dir@ == self@.data_local_dir,
    {
        self.data_local_dir.as_str()
    }

    /// The directory for the user's own programs, where the platform has one.
    ///
    /// | Platform | Value |
    /// | -------- | ----- |
    /// | Linux | `$XDG_BIN_HOME` or `$XDG_DATA_HOME/../bin` or `$HOME/.local/bin` |
    /// | macOS | – |
    /// | Windows | – |
    pub fn executable_dir(&self) -> (dir: Option<&str>)
        ensures
            text::str_of(dir) == self@.executable_dir,
    {
        match &self.executable_dir {
            Some(dir) => Some(dir.as_str()),
            None => None,
        }
    }

    /// The directory for sockets and other files that live as long as the session, where the platform has one.
    ///
    /// | Platform | Value |
    /// | -------- | ----- |
    /// | Linux | `$XDG_RUNTIME_DIR` |
    /// | macOS | – |
    /// | Windows | – |
    pub fn runtime_dir(&self) -> (dir: Option<&str>)
        ensures
            text::str_of(dir) == self@.runtime_dir,
    {
        match &self.runtime_dir {
            Some(dir) => Some(dir.as_str()),
            None => None,
        }
    }
}

impl UserDirs {
    /// The user's home directory.
    ///
    /// | Platform | Value |
    /// | -------- | ----- |
    /// | Linux | `$HOME` |
    /// | macOS | `$HOME` |
    /// | Windows | `{FOLDERID_Profile}` |
    pub fn home_dir(&self) -> (dir: &str)
        ensures
            dir@ == self@.home_dir,
    {
        self.home_dir.as_str()
    }

    /// The directory for music, if there is one.
    ///
    /// | Platform | Value |
    /// | -------- | ----- |
    /// | Linux | `xdg-user-dir MUSIC` |
    /// | macOS | `$HOME/Music` |
    /// | Windows | `{FOLDERID_Music}` |
    pub fn audio_dir(&self) -> (dir: Option<&str>)
        ensures
            text::str_of(dir) == self@.audio_dir,
    {
        match &self.audio_dir {
            Some(dir) => Some(dir.as_str()),
            None => None,
        }
    }

    /// The desktop directory, if there is one.
    ///
    /// | Platform | Value |
    /// | -------- | ----- |
    /// | Linux | `xdg-user-dir DESKTOP` |
    /// | macOS | `$HOME/Desktop` |
    /// | Windows | `{FOLDERID_Desktop}` |
    pub fn desktop_dir(&self) -> (dir: Option<&str>)
        ensures
            text::str_of(dir) == self@.desktop_dir,
    {
        match &self.desktop_dir {
            Some(dir) => Some(dir.as_str()),
            None => None,
        }
    }

    /// The directory for documents, if there is one.
    ///
    /// | Platform | Value |
    /// | -------- | ----- |
    /// | Linux | `xdg-user-dir DOCUMENTS` |
    /// | macOS | `$HOME/Documents` |
    /// | Windows | `{FOLDERID_Documents}` |
    pub fn document_dir(&self) -> (dir: Option<&str>)
        ensures
            text::str_of(dir) == self@.document_dir,
    {
        match &self.document_dir {
            Some(dir) => Some(dir.as_str()),
            None => None,
        }
    }

    /// The directory for downloads, if there is one.
    ///
    /// | Platform | Value |
    /// | -------- | ----- |
    /// | Linux | `xdg-user-dir DOWNLOAD` |
    /// | macOS | `$HOME/Downloads` |
    /// | Windows | `{FOLDERID_Downloads}` |
    pub fn download_dir(&self) -> (dir: Option<&str>)
        ensures
            text::str_of(dir) == self@.download_dir,
    {
        match &self.download_dir {
            Some(dir) => Some(dir.as_str()),
            None => None,
        }
    }

    /// The directory for the user's fonts, if there is one.
    ///
    /// | Platform | Value |
    /// | -------- | ----- |
    /// | Linux | `$XDG_DATA_HOME/fonts` or `$HOME/.local/share/fonts` |
    /// | macOS | `$HOME/Library/Fonts` |
    /// | Windows | – |
    pub fn font_dir(&self) -> (dir: Option<&str>)
        ensures
            text::str_of(dir) == self@.font_dir,
    {
        match &self.font_dir {
            Some(dir) => Some(dir.as_str()),
            None => None,
        }
    }

    /// The directory for pictures, if there is one.
    ///
    /// | Platform | Value |
    /// | -------- | ----- |
    /// | Linux | `xdg-user-dir PICTURES` |
    /// | macOS | `$HOME/Pictures` |
    /// | Windows | `{FOLDERID_Pictures}` |
    pub fn picture_dir(&self) -> (dir: Option<&str>)
        ensures
            text::str_of(dir) == self@.picture_dir,
    {
        match &self.picture_dir {
            Some(dir) => Some(dir.as_str()),
            None => None,
        }
    }

    /// The directory for what the user shares, if there is one.
    ///
    /// | Platform | Value |
    /// | -------- | ----- |
    /// | Linux | `xdg-user-dir PUBLICSHARE` |
    /// | macOS | `$HOME/Public` |
    /// | Windows | `{FOLDERID_Public}` |
    pub fn public_dir(&self) -> (dir: Option<&str>)
        ensures
            text::str_of(dir) == self@.public_dir,
    {
        match &self.public_dir {
            Some(dir) => Some(dir.as_str()),
            None => None,
        }
    }

    /// The directory for templates, if there is one.
    ///
    /// | Platform | Value |
    /// | -------- | ----- |
    /// | Linux | `xdg-user-dir TEMPLATES` |
    /// | macOS | – |
    /// | Windows | `{FOLDERID_Templates}` |
    pub fn template_dir(&self) -> (dir: Option<&str>)
        ensures
            text::str_of(dir) == self@.template_dir,
    {
        match &self.template_dir {
            Some(dir) => Some(dir.as_str()),
            None => None,
        }
    }

    /// The directory for videos, if there is one.
    ///
    /// | Platform | Value |
    /// | -------- | ----- |
    /// | Linux | `xdg-user-dir VIDEOS` |
    /// | macOS | `$HOME/Movies` |
    /// | Windows | `{FOLDERID_Videos}` |
    pub fn video_dir(&self) -> (dir: Option<&str>)
        ensures
            text::str_of(dir) == self@.video_dir,
    {
        match &self.video_dir {
            Some(dir) => Some(dir.as_str()),
            None => None,
        }
    }
}

impl ProjectDirs {
    /// The fragment that names the project: the part of each directory that lies below the user's standard directory.
    pub fn project_path(&self) -> (dir: &str)
        ensures
            dir@ == self@.project_path,
    {
        self.project_path.as_str()
    }

    /// The project's directory for data that can be made again.
    ///
    /// | Platform | Value |
    /// | -------- | ----- |
    /// | Linux | `$XDG_CACHE_HOME/<project_path>` or `$HOME/.cache/<project_path>` |
    /// | macOS | `$HOME/Library/Caches/<project_path>` |
    /// | Windows | `{FOLDERID_LocalAppData}\<project_path>\cache` |
    pub fn cache_dir(&self) -> (dir: &str)
        ensures
            dir@ == self@.cache_dir,
    {
        self.cache_dir.as_str()
    }

    /// The project's directory for configuration.
    ///
    /// | Platform | Value |
    /// | -------- | ----- |
    /// | Linux | `$XDG_CONFIG_HOME/<project_path>` or `$HOME/.config/<project_path>` |
    /// | macOS | `$HOME/Library/Preferences/<project_path>` |
    /// | Windows | `{FOLDERID_RoamingAppData}\<project_path>\config` |
    pub fn config_dir(&self) -> (dir: &str)
        ensures
            dir@ == self@.config_dir,
    {
        self.config_dir.as_str()
    }

    /// The project's directory for data that follows the user from machine to machine.
    ///
    /// | Platform | Value |
    /// | -------- | ----- |
    /// | Linux | `$XDG_DATA_HOME/<project_path>` or `$HOME/.local/share/<project_path>` |
    /// | macOS | `$HOME/Library/Application Support/<project_path>` |
    /// | Windows | `{FOLDERID_RoamingAppData}\<project_path>\data` |
    pub fn data_dir(&self) -> (dir: &str)
        ensures
            dir@ == self@.data_dir,
    {
        self.data_dir.as_str()
    }

    /// The project's directory for data that stays on this machine.
    ///
    /// | Platform | Value |
    /// | -------- | ----- |
    /// | Linux | `$XDG_DATA_HOME/<project_path>` or `$HOME/.local/share/<project_path>` |
    /// | macOS | `$HOME/Library/Application Support/<project_path>` |
    /// | Windows | `{FOLDERID_LocalAppData}\<project_path>\data` |
    pub fn data_local_dir(&self) -> (dir: &str)
        ensures
            dir@ == self@.data_local_dir,
    {
        self.data_local_dir.as_str()
    }

    /// The project's directory for files that live as long as the session, where the platform has one.
    ///
    /// | Platform | Value |
    /// | -------- | ----- |
    /// | Linux | `$XDG_RUNTIME_DIR/<project_path>` |
    /// | macOS | – |
    /// | Windows | – |
    pub fn runtime_dir(&self) -> (dir: Option<&str>)
        ensures
            text::str_of(dir) == self@.runtime_dir,
    {
        match &self.runtime_dir {
            Some(dir) => Some(dir.as_str()),
            None => None,
        }
    }
}

impl BaseDirs {
    /// The base directories of the user of `system`, or the reason why they
    /// cannot be named. Each of them is absolute.
    pub fn new(system: &System) -> (dirs: Result<BaseDirs, Error>)
        ensures
            view_of(dirs) == system.base_dirs(),
            dirs is Ok ==> dirs->Ok_0@.all_absolute(system.platform().style()),
    {
        match system {
            System::Linux { environment, helper } => lin::base_dirs(environment),
            System::MacOs { home } => mac::base_dirs(home),
            System::Windows { folders } => win::base_dirs(folders),
        }
    }
}

impl UserDirs {
    /// The user directories of the user of `system`, or the reason why they
    /// cannot be named. Each that is present is absolute.
    pub fn new(system: &System) -> (dirs: Result<UserDirs, Error>)
        ensures
            view_of(dirs) == system.user_dirs(),
            dirs is Ok ==> dirs->Ok_0@.all_absolute(system.platform().style()),
    {
        match system {
            System::Linux { environment, helper } => lin::user_dirs(environment, helper),
            System::MacOs { home } => mac::user_dirs(home),
            System::Windows { folders } => win::user_dirs(folders),
        }
    }
}

impl ProjectDirs {
    /// The directories of the project with the given fragment, or the reason
    /// why they cannot be named. The fragment is taken as it is, and always
    /// as a path below the user's directories: what names a project well on
    /// one platform may not do so on another.
    pub fn from_path(system: &System, project_path: String) -> (dirs: Result<ProjectDirs, Error>)
        ensures
            view_of(dirs) == system.project_dirs(project_path@),
            dirs is Ok ==> dirs->Ok_0@.all_absolute(system.platform().style()),
    {
        match system {
            System::Linux { environment, helper } => lin::project_dirs_from_path(
                environment,
                project_path,
            ),
            System::MacOs { home } => mac::project_dirs_from_path(home, project_path),
            System::Windows { folders } => win::project_dirs_from_path(folders, project_path),
        }
    }

    /// The directories of the project that qualifier, organization and
    /// application name, or the reason why they cannot be named. Each of the
    /// three names may be empty.
    pub fn from(system: &System, qualifier: &str, organization: &str, application: &str) -> (dirs:
        Result<ProjectDirs, Error>)
        ensures
            view_of(dirs) == system.project_dirs(
                sanitized(system.platform(), qualifier@, organization@, application@),
            ),
            dirs is Ok ==> dirs->Ok_0@.all_absolute(system.platform().style()),
    {
        project_dirs_from(system, qualifier, organization, application)
    }

    /// The directories of the project with the given name, or the reason why
    /// they cannot be named. The name is taken as an application name
    /// without qualifier or organization.
    pub fn from_project_name(system: &System, project_name: &str) -> (dirs: Result<
        ProjectDirs,
        Error,
    >)
        ensures
            view_of(dirs) == system.project_dirs(
                sanitized(system.platform(), Seq::empty(), Seq::empty(), project_name@),
            ),
            dirs is Ok ==> dirs->Ok_0@.all_absolute(system.platform().style()),
    {
        proof {
            reveal_strlit("");
        }
        let fragment = sanitize(system.platform(), "", "", project_name);
        ProjectDirs::from_path(system, fragment)
    }

    /// The directories of the project with the given dotted name, such as
    /// `org.foo.BarApp`, or the reason why they cannot be named. The part of
    /// the name behind its last dot is taken as the project's name.
    pub fn from_qualified_name(system: &System, qualified_name: &str) -> (dirs: Result<
        ProjectDirs,
        Error,
    >)
        ensures
            view_of(dirs) == system.project_dirs(
                sanitized(
                    system.platform(),
                    Seq::empty(),
                    Seq::empty(),
                    unqualified(qualified_name@),
                ),
            ),
            dirs is Ok ==> dirs->Ok_0@.all_absolute(system.platform().style()),
    {
        let fragment = sanitize_qualified(system.platform(), qualified_name);
        ProjectDirs::from_path(system, fragment)
    }
}

} // verus!
