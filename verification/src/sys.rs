//! The system whose directories are resolved: which platform it is, and what
//! it told of itself.

use crate::lin::{fragment, trim_and_lowercase_then_replace_spaces, Environment, HelperOutput};
use crate::mac::{bundle_id, bundle_identifier};
use crate::path::Style;
use crate::text::{strip_qualification, unqualified};
use crate::win::{project_path, segments, KnownFolders};
use crate::{home_of, view_of, with_home, Error};
use crate::{BaseDirsView, ProjectDirs, ProjectDirsView, UserDirsView};
use vstd::prelude::*;

verus! {

/// A platform, with its way of naming the directories of a project.
#[derive(Clone, Copy, Debug, PartialEq, Eq, Structural)]
pub enum Platform {
    Linux,
    MacOs,
    Windows,
}

/// What is known of the system, by platform.
#[derive(Debug, Clone)]
pub enum System {
    /// The environment of the process, and the runs of the `xdg-user-dir`
    /// helper.
    Linux { environment: Environment, helper: HelperOutput },
    /// The home directory, or `None` if it could not be determined.
    MacOs { home: Option<String> },
    /// The known folders as the system named them.
    Windows { folders: KnownFolders },
}

impl Platform {
    /// The dialect in which the platform writes its paths.
    pub open spec fn spec_style(self) -> Style {
        match self {
            Platform::Linux => Style::Unix,
            Platform::MacOs => Style::Unix,
            Platform::Windows => Style::Windows,
        }
    }

    /// The dialect in which the platform writes its paths.
    #[verifier::when_used_as_spec(spec_style)]
    pub fn style(self) -> (style: Style)
        ensures
            style == self.spec_style(),
    {
        match self {
            Platform::Linux => Style::Unix,
            Platform::MacOs => Style::Unix,
            Platform::Windows => Style::Windows,
        }
    }
}

/// The fragment that names a project on the given platform.
///
/// On Linux: the words of the application name in lower case, with a hyphen
/// between each two. On macOS: those of qualifier, organization and
/// application that are not empty, with a dot between each two and hyphens
/// for white space. On Windows: the application below the organization.
pub open spec fn sanitized(
    platform: Platform,
    qualifier: Seq<char>,
    organization: Seq<char>,
    application: Seq<char>,
) -> Seq<char> {
    match platform {
        Platform::Linux => fragment(application),
        Platform::MacOs => bundle_id(qualifier, organization, application),
        Platform::Windows => segments(organization, application),
    }
}

impl System {
    /// The platform of the system.
    pub open spec fn spec_platform(&self) -> Platform {
        match self {
            System::Linux { .. } => Platform::Linux,
            System::MacOs { .. } => Platform::MacOs,
            System::Windows { .. } => Platform::Windows,
        }
    }

    /// The base directories of the user, or the reason why there are none:
    /// the home directory (on Windows, the profile folder) is not known or
    /// not absolute, or Windows did not name its application data folders.
    pub open spec fn base_dirs(&self) -> Result<BaseDirsView, Error> {
        match self {
            System::Linux { environment, helper } => with_home(
                home_of(Style::Unix, environment.home),
                environment.base_dirs(),
            ),
            System::MacOs { home } => with_home(
                home_of(Style::Unix, *home),
                crate::mac::base_dirs_at(home->0@),
            ),
            System::Windows { folders } => folders.base_dirs(),
        }
    }

    /// The user directories, or the reason why there are none: the home
    /// directory (on Windows, the profile folder) is not known or not
    /// absolute.
    pub open spec fn user_dirs(&self) -> Result<UserDirsView, Error> {
        match self {
            System::Linux { environment, helper } => with_home(
                home_of(Style::Unix, environment.home),
                environment.user_dirs(*helper),
            ),
            System::MacOs { home } => with_home(
                home_of(Style::Unix, *home),
                crate::mac::user_dirs_at(home->0@),
            ),
            System::Windows { folders } => folders.user_dirs(),
        }
    }

    /// The directories of the project with the given fragment, or the reason
    /// why there are none: the home directory is not known or not absolute
    /// on Linux and macOS; Windows did not name its application data
    /// folders.
    pub open spec fn project_dirs(&self, project_path: Seq<char>) -> Result<
        ProjectDirsView,
        Error,
    > {
        match self {
            System::Linux { environment, helper } => with_home(
                home_of(Style::Unix, environment.home),
                environment.project_dirs(project_path),
            ),
            System::MacOs { home } => with_home(
                home_of(Style::Unix, *home),
                crate::mac::project_dirs_at(home->0@, project_path),
            ),
            System::Windows { folders } => folders.project_dirs(project_path),
        }
    }

    /// The platform of the system.
    #[verifier::when_used_as_spec(spec_platform)]
    pub fn platform(&self) -> (platform: Platform)
        ensures
            platform == self.spec_platform(),
    {
        match self {
            System::Linux { .. } => Platform::Linux,
            System::MacOs { .. } => Platform::MacOs,
            System::Windows { .. } => Platform::Windows,
        }
    }
}

/// The fragment that names a project on the given platform, from qualifier,
/// organization and application. Each of the three may be empty.
pub fn sanitize(platform: Platform, qualifier: &str, organization: &str, application: &str) -> (name:
    String)
    ensures
        name@ == sanitized(platform, qualifier@, organization@, application@),
{
    match platform {
        Platform::Linux => trim_and_lowercase_then_replace_spaces(application, "-"),
        Platform::MacOs => bundle_identifier(qualifier, organization, application),
        Platform::Windows => project_path(organization, application),
    }
}

/// The fragment that names a project on the given platform, from a dotted
/// name such as `org.foo.BarApp`: the part behind the last dot is taken as
/// the application name, without qualifier or organization.
pub fn sanitize_qualified(platform: Platform, qualified_name: &str) -> (name: String)
    ensures
        name@ == sanitized(
            platform,
            Seq::empty(),
            Seq::empty(),
            unqualified(qualified_name@),
        ),
{
    proof {
        reveal_strlit("");
    }
    sanitize(platform, "", "", strip_qualification(qualified_name))
}

/// The sanitizer gives the same fragment whenever it is run on the same
/// names: any two of its results for one platform and one triple are equal.
pub proof fn lemma_sanitize_repeatable(
    platform: Platform,
    qualifier: &str,
    organization: &str,
    application: &str,
    first: String,
    second: String,
)
    requires
        call_ensures(sanitize, (platform, qualifier, organization, application), first),
        call_ensures(sanitize, (platform, qualifier, organization, application), second),
    ensures
        first@ == second@,
{
}

/// Every directory that the library names is absolute: each base directory,
/// each user directory that is present, and each directory of a project,
/// whatever its fragment and whatever the system told.
pub proof fn lemma_directories_absolute(system: System, project_path: Seq<char>)
    ensures
        system.base_dirs() is Ok ==> system.base_dirs()->Ok_0.all_absolute(
            system.platform().style(),
        ),
        system.user_dirs() is Ok ==> system.user_dirs()->Ok_0.all_absolute(
            system.platform().style(),
        ),
        system.project_dirs(project_path) is Ok ==> system.project_dirs(
            project_path,
        )->Ok_0.all_absolute(system.platform().style()),
{
    match system {
        System::Linux { environment, helper } => {
            if home_of(Style::Unix, environment.home) is Ok {
                crate::lin::lemma_base_dirs_absolute(environment);
                crate::lin::lemma_user_dirs_absolute(environment, helper);
                crate::lin::lemma_project_dirs_absolute(environment, project_path);
            }
        },
        System::MacOs { home } => {
            if home_of(Style::Unix, home) is Ok {
                crate::mac::lemma_base_dirs_absolute(home->0@);
                crate::mac::lemma_user_dirs_absolute(home->0@);
                crate::mac::lemma_project_dirs_absolute(home->0@, project_path);
            }
        },
        System::Windows { folders } => {
            if folders.base_dirs() is Ok {
                crate::win::lemma_base_dirs_absolute(folders);
            }
            if folders.user_dirs() is Ok {
                crate::win::lemma_user_dirs_absolute(folders);
            }
            if folders.project_dirs(project_path) is Ok {
                crate::win::lemma_project_dirs_absolute(folders, project_path);
            }
        },
    }
}

/// Where a user has base directories, a project has directories too, and
/// each lies below the base directory of the same kind, whatever the
/// fragment: the base directory is a prefix of it, and the project has a
/// runtime directory exactly where the user has one. The one exception is
/// the cache directory on Windows, which lies in the project's own folder
/// below local application data.
pub proof fn lemma_project_dirs_below_base(system: System, project_path: Seq<char>)
    requires
        system.base_dirs() is Ok,
    ensures
        system.project_dirs(project_path) is Ok,
        system.platform() != Platform::Windows ==> system.base_dirs()->Ok_0.cache_dir.is_prefix_of(
            system.project_dirs(project_path)->Ok_0.cache_dir,
        ),
        system.platform() == Platform::Windows
            ==> system.base_dirs()->Ok_0.data_local_dir.is_prefix_of(
            system.project_dirs(project_path)->Ok_0.cache_dir,
        ),
        system.base_dirs()->Ok_0.config_dir.is_prefix_of(
            system.project_dirs(project_path)->Ok_0.config_dir,
        ),
        system.base_dirs()->Ok_0.data_dir.is_prefix_of(
            system.project_dirs(project_path)->Ok_0.data_dir,
        ),
        system.base_dirs()->Ok_0.data_local_dir.is_prefix_of(
            system.project_dirs(project_path)->Ok_0.data_local_dir,
        ),
        system.base_dirs()->Ok_0.runtime_dir is Some <==> system.project_dirs(
            project_path,
        )->Ok_0.runtime_dir is Some,
        system.base_dirs()->Ok_0.runtime_dir is Some
            ==> system.base_dirs()->Ok_0.runtime_dir->0.is_prefix_of(
            system.project_dirs(project_path)->Ok_0.runtime_dir->0,
        ),
{
    match system {
        System::Linux { environment, helper } => {
            crate::lin::lemma_project_dirs_below_base(environment, project_path);
        },
        System::MacOs { home } => {
            crate::mac::lemma_project_dirs_below_base(home->0@, project_path);
        },
        System::Windows { folders } => {
            crate::win::lemma_project_dirs_below_base(folders, project_path);
        },
    }
}

/// The directories of the project that qualifier, organization and
/// application name on the system's platform, or the reason why there are
/// none.
pub fn project_dirs_from(
    system: &System,
    qualifier: &str,
    organization: &str,
    application: &str,
) -> (dirs: Result<ProjectDirs, Error>)
    ensures
        view_of(dirs) == system.project_dirs(
            sanitized(system.platform(), qualifier@, organization@, application@),
        ),
        dirs is Ok ==> dirs->Ok_0@.all_absolute(system.platform().style()),
{
    let fragment = sanitize(system.platform(), qualifier, organization, application);
    ProjectDirs::from_path(system, fragment)
}

} // verus!
