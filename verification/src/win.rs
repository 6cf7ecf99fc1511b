//! Windows.
//!
//! Every directory is, or lies below, a known folder of the system. What the
//! system answered for each known folder is handed in. A folder that it
//! could not name, or named by a path that is not absolute, is absent;
//! without the folders that the directories are made of there are no
//! directories at all. There is no runtime directory, no executable
//! directory and no directory for fonts.

use crate::path::{absolute_only, join, joined, keep_absolute, Style};
use crate::path::{lemma_joined_absolute, lemma_joined_below};
use crate::{home_of, known_home, view_of, Error};
use crate::{BaseDirs, BaseDirsView, ProjectDirs, ProjectDirsView, UserDirs, UserDirsView};
use vstd::prelude::*;

verus! {

/// The path of each known folder that the library asks for, as the system
/// gave it. A field is `None` where the system gave none.
#[derive(Debug, Clone)]
pub struct KnownFolders {
    /// `FOLDERID_Profile`
    pub profile: Option<String>,
    /// `FOLDERID_RoamingAppData`
    pub roaming_app_data: Option<String>,
    /// `FOLDERID_LocalAppData`
    pub local_app_data: Option<String>,
    /// `FOLDERID_Music`
    pub music: Option<String>,
    /// `FOLDERID_Desktop`
    pub desktop: Option<String>,
    /// `FOLDERID_Documents`
    pub documents: Option<String>,
    /// `FOLDERID_Downloads`
    pub downloads: Option<String>,
    /// `FOLDERID_Pictures`
    pub pictures: Option<String>,
    /// `FOLDERID_Public`
    pub public: Option<String>,
    /// `FOLDERID_Templates`
    pub templates: Option<String>,
    /// `FOLDERID_Videos`
    pub videos: Option<String>,
}

impl KnownFolders {
    /// The roaming application data folder, if it can be used: if the system
    /// named it by an absolute path.
    pub open spec fn roaming(&self) -> Option<Seq<char>> {
        absolute_only(Style::Windows, self.roaming_app_data)
    }

    /// The local application data folder, if it can be used.
    pub open spec fn local(&self) -> Option<Seq<char>> {
        absolute_only(Style::Windows, self.local_app_data)
    }

    /// `dirs` if both application data folders can be used, and else the
    /// error that says that they cannot.
    pub open spec fn with_app_data<V>(&self, dirs: V) -> Result<V, Error> {
        if self.roaming() is Some && self.local() is Some {
            Ok(dirs)
        } else {
            Err(Error::AppDataUnknown)
        }
    }

    /// The base directories: configuration and data are the roaming
    /// application data folder, local data is the local application data
    /// folder, and the cache is its subfolder `cache`.
    pub open spec fn base_view(&self) -> BaseDirsView
        recommends
            self.profile is Some,
            self.roaming() is Some,
            self.local() is Some,
    {
        BaseDirsView {
            home_dir: self.profile->0@,
            cache_dir: joined(Style::Windows, self.local()->0, "cache"@),
            config_dir: self.roaming()->0,
            data_dir: self.roaming()->0,
            data_local_dir: self.local()->0,
            executable_dir: None,
            runtime_dir: None,
        }
    }

    /// The user directories: each is the known folder of its kind, if the
    /// system named it by an absolute path.
    pub open spec fn user_view(&self) -> UserDirsView
        recommends
            self.profile is Some,
    {
        UserDirsView {
            home_dir: self.profile->0@,
            audio_dir: absolute_only(Style::Windows, self.music),
            desktop_dir: absolute_only(Style::Windows, self.desktop),
            document_dir: absolute_only(Style::Windows, self.documents),
            download_dir: absolute_only(Style::Windows, self.downloads),
            font_dir: None,
            picture_dir: absolute_only(Style::Windows, self.pictures),
            public_dir: absolute_only(Style::Windows, self.public),
            template_dir: absolute_only(Style::Windows, self.templates),
            video_dir: absolute_only(Style::Windows, self.videos),
        }
    }

    /// The project's folder below local application data.
    pub open spec fn local_project(&self, project_path: Seq<char>) -> Seq<char>
        recommends
            self.local() is Some,
    {
        joined(Style::Windows, self.local()->0, project_path)
    }

    /// The project's folder below roaming application data.
    pub open spec fn roaming_project(&self, project_path: Seq<char>) -> Seq<char>
        recommends
            self.roaming() is Some,
    {
        joined(Style::Windows, self.roaming()->0, project_path)
    }

    /// The directories of the project with the given fragment: `cache` and
    /// `data` in the project's folder below local application data, `config`
    /// and `data` in the one below roaming application data.
    pub open spec fn project_view(&self, project_path: Seq<char>) -> ProjectDirsView
        recommends
            self.roaming() is Some,
            self.local() is Some,
    {
        ProjectDirsView {
            project_path: project_path,
            cache_dir: joined(Style::Windows, self.local_project(project_path), "cache"@),
            config_dir: joined(Style::Windows, self.roaming_project(project_path), "config"@),
            data_dir: joined(Style::Windows, self.roaming_project(project_path), "data"@),
            data_local_dir: joined(Style::Windows, self.local_project(project_path), "data"@),
            runtime_dir: None,
        }
    }

    /// The base directories, or the reason why there are none: the profile
    /// folder is not named, or not by an absolute path; or one of the
    /// application data folders cannot be used.
    pub open spec fn base_dirs(&self) -> Result<BaseDirsView, Error> {
        match home_of(Style::Windows, self.profile) {
            Ok(_) => self.with_app_data(self.base_view()),
            Err(error) => Err(error),
        }
    }

    /// The user directories, or the reason why there are none: the profile
    /// folder is not named, or not by an absolute path.
    pub open spec fn user_dirs(&self) -> Result<UserDirsView, Error> {
        match home_of(Style::Windows, self.profile) {
            Ok(_) => Ok(self.user_view()),
            Err(error) => Err(error),
        }
    }

    /// The directories of the project with the given fragment, or the reason
    /// why there are none: one of the application data folders cannot be
    /// used.
    pub open spec fn project_dirs(&self, project_path: Seq<char>) -> Result<
        ProjectDirsView,
        Error,
    > {
        self.with_app_data(self.project_view(project_path))
    }
}

/// The fragment that names a project on Windows: the organization and, below
/// it, the application, each written as it is.
pub open spec fn segments(organization: Seq<char>, application: Seq<char>) -> Seq<char> {
    joined(Style::Windows, organization, application)
}

/// Every base directory is absolute.
pub proof fn lemma_base_dirs_absolute(folders: KnownFolders)
    requires
        folders.base_dirs() is Ok,
    ensures
        folders.base_view().all_absolute(Style::Windows),
{
    lemma_joined_absolute(Style::Windows, folders.local()->0, "cache"@);
}

/// Every user directory that is present is absolute.
pub proof fn lemma_user_dirs_absolute(folders: KnownFolders)
    requires
        folders.user_dirs() is Ok,
    ensures
        folders.user_view().all_absolute(Style::Windows),
{
}

/// Every directory of a project is absolute, whatever the fragment.
pub proof fn lemma_project_dirs_absolute(folders: KnownFolders, project_path: Seq<char>)
    requires
        folders.project_dirs(project_path) is Ok,
    ensures
        folders.project_view(project_path).all_absolute(Style::Windows),
{
    lemma_joined_absolute(Style::Windows, folders.local()->0, project_path);
    lemma_joined_absolute(Style::Windows, folders.roaming()->0, project_path);
    lemma_joined_absolute(Style::Windows, folders.local_project(project_path), "cache"@);
    lemma_joined_absolute(Style::Windows, folders.local_project(project_path), "data"@);
    lemma_joined_absolute(Style::Windows, folders.roaming_project(project_path), "config"@);
    lemma_joined_absolute(Style::Windows, folders.roaming_project(project_path), "data"@);
}

/// The configuration and data directories of a project lie below the base
/// directories of the same kind, whatever the fragment: the base directory
/// is a prefix of each. The cache directory of a project lies in the
/// project's own folder below local application data, beside its local data
/// and not below the user's cache directory.
pub proof fn lemma_project_dirs_below_base(folders: KnownFolders, project_path: Seq<char>)
    ensures
        folders.base_view().config_dir.is_prefix_of(folders.project_view(project_path).config_dir),
        folders.base_view().data_dir.is_prefix_of(folders.project_view(project_path).data_dir),
        folders.base_view().data_local_dir.is_prefix_of(
            folders.project_view(project_path).data_local_dir,
        ),
        folders.base_view().data_local_dir.is_prefix_of(
            folders.project_view(project_path).cache_dir,
        ),
{
    lemma_joined_below(Style::Windows, folders.local()->0, project_path);
    lemma_joined_below(Style::Windows, folders.roaming()->0, project_path);
    lemma_joined_below(Style::Windows, folders.local_project(project_path), "cache"@);
    lemma_joined_below(Style::Windows, folders.local_project(project_path), "data"@);
    lemma_joined_below(Style::Windows, folders.roaming_project(project_path), "config"@);
    lemma_joined_below(Style::Windows, folders.roaming_project(project_path), "data"@);
}

/// The base directories of the user, each of them absolute, or the reason
/// why there are none.
pub fn base_dirs(folders: &KnownFolders) -> (dirs: Result<BaseDirs, Error>)
    ensures
        view_of(dirs) == folders.base_dirs(),
        dirs is Ok ==> dirs->Ok_0@.all_absolute(Style::Windows),
{
    let home_dir = match known_home(Style::Windows, &folders.profile) {
        Ok(home) => home,
        Err(error) => {
            return Err(error);
        },
    };
    let roaming = keep_absolute(Style::Windows, &folders.roaming_app_data);
    let local = keep_absolute(Style::Windows, &folders.local_app_data);
    match (roaming, local) {
        (Some(data_dir), Some(data_local_dir)) => {
            let cache_dir = join(Style::Windows, data_local_dir.as_str(), "cache");
            let config_dir = data_dir.clone();
            proof {
                lemma_base_dirs_absolute(*folders);
            }
            Ok(
                BaseDirs {
                    home_dir: home_dir,
                    cache_dir: cache_dir,
                    config_dir: config_dir,
                    data_dir: data_dir,
                    data_local_dir: data_local_dir,
                    executable_dir: None,
                    runtime_dir: None,
                },
            )
        },
        _ => Err(Error::AppDataUnknown),
    }
}

/// The user directories, each that is present absolute, or the reason why
/// there are none.
pub fn user_dirs(folders: &KnownFolders) -> (dirs: Result<UserDirs, Error>)
    ensures
        view_of(dirs) == folders.user_dirs(),
        dirs is Ok ==> dirs->Ok_0@.all_absolute(Style::Windows),
{
    let home_dir = match known_home(Style::Windows, &folders.profile) {
        Ok(home) => home,
        Err(error) => {
            return Err(error);
        },
    };
    Ok(
        UserDirs {
            home_dir: home_dir,
            audio_dir: keep_absolute(Style::Windows, &folders.music),
            desktop_dir: keep_absolute(Style::Windows, &folders.desktop),
            document_dir: keep_absolute(Style::Windows, &folders.documents),
            download_dir: keep_absolute(Style::Windows, &folders.downloads),
            font_dir: None,
            picture_dir: keep_absolute(Style::Windows, &folders.pictures),
            public_dir: keep_absolute(Style::Windows, &folders.public),
            template_dir: keep_absolute(Style::Windows, &folders.templates),
            video_dir: keep_absolute(Style::Windows, &folders.videos),
        },
    )
}

/// The directories of the project with the given fragment, each of them
/// absolute, or the reason why there are none. The fragment is taken as it
/// is.
pub fn project_dirs_from_path(folders: &KnownFolders, project_path: String) -> (dirs: Result<
    ProjectDirs,
    Error,
>)
    ensures
        view_of(dirs) == folders.project_dirs(project_path@),
        dirs is Ok ==> dirs->Ok_0@.all_absolute(Style::Windows),
{
    let roaming = keep_absolute(Style::Windows, &folders.roaming_app_data);
    let local = keep_absolute(Style::Windows, &folders.local_app_data);
    match (local, roaming) {
        (Some(app_data_local), Some(app_data_roaming)) => {
            let fragment: &str = project_path.as_str();
            let app_data_local = join(Style::Windows, app_data_local.as_str(), fragment);
            let app_data_roaming = join(Style::Windows, app_data_roaming.as_str(), fragment);
            let cache_dir = join(Style::Windows, app_data_local.as_str(), "cache");
            let data_local_dir = join(Style::Windows, app_data_local.as_str(), "data");
            let config_dir = join(Style::Windows, app_data_roaming.as_str(), "config");
            let data_dir = join(Style::Windows, app_data_roaming.as_str(), "data");
            proof {
                lemma_project_dirs_absolute(*folders, project_path@);
            }
            Ok(
                ProjectDirs {
                    project_path: project_path,
                    cache_dir: cache_dir,
                    config_dir: config_dir,
                    data_dir: data_dir,
                    data_local_dir: data_local_dir,
                    runtime_dir: None,
                },
            )
        },
        _ => Err(Error::AppDataUnknown),
    }
}

/// The fragment that names a project: the application below the
/// organization.
pub fn project_path(organization: &str, application: &str) -> (fragment: String)
    ensures
        fragment@ == segments(organization@, application@),
{
    join(Style::Windows, organization, application)
}

/// The directories of the project that organization and application name,
/// or the reason why there are none. The qualifier plays no part on Windows.
pub fn project_dirs_from(
    folders: &KnownFolders,
    _qualifier: &str,
    organization: &str,
    application: &str,
) -> (dirs: Result<ProjectDirs, Error>)
    ensures
        view_of(dirs) == folders.project_dirs(segments(organization@, application@)),
        dirs is Ok ==> dirs->Ok_0@.all_absolute(Style::Windows),
{
    project_dirs_from_path(folders, project_path(organization, application))
}

} // verus!
