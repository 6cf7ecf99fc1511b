//! macOS.
//!
//! Every directory is a fixed place below the home directory. No environment
//! variable is consulted; there is no runtime directory, no executable
//! directory and no directory for templates. Without a home directory that
//! is known and absolute there are no directories at all.

use crate::path::{absolute, join, joined, Style};
use crate::path::{lemma_joined_absolute, lemma_joined_below};
use crate::text::{hyphenated, replace_whitespace};
use crate::{home_of, known_home, view_of, with_home, Error};
use crate::{BaseDirs, BaseDirsView, ProjectDirs, ProjectDirsView, UserDirs, UserDirsView};
use vstd::prelude::*;

verus! {

/// The base directories below `home`.
pub open spec fn base_dirs_at(home: Seq<char>) -> BaseDirsView {
    BaseDirsView {
        home_dir: home,
        cache_dir: joined(Style::Unix, home, "Library/Caches"@),
        config_dir: joined(Style::Unix, home, "Library/Preferences"@),
        data_dir: joined(Style::Unix, home, "Library/Application Support"@),
        data_local_dir: joined(Style::Unix, home, "Library/Application Support"@),
        executable_dir: None,
        runtime_dir: None,
    }
}

/// The user directories below `home`.
pub open spec fn user_dirs_at(home: Seq<char>) -> UserDirsView {
    UserDirsView {
        home_dir: home,
        audio_dir: Some(joined(Style::Unix, home, "Music"@)),
        desktop_dir: Some(joined(Style::Unix, home, "Desktop"@)),
        document_dir: Some(joined(Style::Unix, home, "Documents"@)),
        download_dir: Some(joined(Style::Unix, home, "Downloads"@)),
        font_dir: Some(joined(Style::Unix, home, "Library/Fonts"@)),
        picture_dir: Some(joined(Style::Unix, home, "Pictures"@)),
        public_dir: Some(joined(Style::Unix, home, "Public"@)),
        template_dir: None,
        video_dir: Some(joined(Style::Unix, home, "Movies"@)),
    }
}

/// The directories, below `home`, of the project with the given fragment.
pub open spec fn project_dirs_at(home: Seq<char>, project_path: Seq<char>) -> ProjectDirsView {
    ProjectDirsView {
        project_path: project_path,
        cache_dir: joined(Style::Unix, base_dirs_at(home).cache_dir, project_path),
        config_dir: joined(Style::Unix, base_dirs_at(home).config_dir, project_path),
        data_dir: joined(Style::Unix, base_dirs_at(home).data_dir, project_path),
        data_local_dir: joined(Style::Unix, base_dirs_at(home).data_local_dir, project_path),
        runtime_dir: None,
    }
}

/// `first` and `second` with a dot between them; where one of them is
/// empty, the other alone.
pub open spec fn dotted(first: Seq<char>, second: Seq<char>) -> Seq<char> {
    if first.len() == 0 {
        second
    } else if second.len() == 0 {
        first
    } else {
        first.push('.') + second
    }
}

/// The bundle identifier that names a project on macOS: those of qualifier,
/// organization and application that are not empty, with a dot between each
/// two, and with a hyphen in place of each white-space character of the
/// organization and of the application.
pub open spec fn bundle_id(
    qualifier: Seq<char>,
    organization: Seq<char>,
    application: Seq<char>,
) -> Seq<char> {
    dotted(dotted(qualifier, hyphenated(organization)), hyphenated(application))
}

/// With an absolute home directory, every base directory is absolute.
pub proof fn lemma_base_dirs_absolute(home: Seq<char>)
    requires
        absolute(Style::Unix, home),
    ensures
        base_dirs_at(home).all_absolute(Style::Unix),
{
    lemma_joined_absolute(Style::Unix, home, "Library/Caches"@);
    lemma_joined_absolute(Style::Unix, home, "Library/Preferences"@);
    lemma_joined_absolute(Style::Unix, home, "Library/Application Support"@);
}

/// With an absolute home directory, every user directory is absolute.
pub proof fn lemma_user_dirs_absolute(home: Seq<char>)
    requires
        absolute(Style::Unix, home),
    ensures
        user_dirs_at(home).all_absolute(Style::Unix),
{
    lemma_joined_absolute(Style::Unix, home, "Music"@);
    lemma_joined_absolute(Style::Unix, home, "Desktop"@);
    lemma_joined_absolute(Style::Unix, home, "Documents"@);
    lemma_joined_absolute(Style::Unix, home, "Downloads"@);
    lemma_joined_absolute(Style::Unix, home, "Library/Fonts"@);
    lemma_joined_absolute(Style::Unix, home, "Pictures"@);
    lemma_joined_absolute(Style::Unix, home, "Public"@);
    lemma_joined_absolute(Style::Unix, home, "Movies"@);
}

/// With an absolute home directory, every directory of a project is
/// absolute, whatever the fragment.
pub proof fn lemma_project_dirs_absolute(home: Seq<char>, project_path: Seq<char>)
    requires
        absolute(Style::Unix, home),
    ensures
        project_dirs_at(home, project_path).all_absolute(Style::Unix),
{
    lemma_base_dirs_absolute(home);
    lemma_joined_absolute(Style::Unix, base_dirs_at(home).cache_dir, project_path);
    lemma_joined_absolute(Style::Unix, base_dirs_at(home).config_dir, project_path);
    lemma_joined_absolute(Style::Unix, base_dirs_at(home).data_dir, project_path);
}

/// Each directory of a project lies below the base directory of the same
/// kind, whatever the fragment: the base directory is a prefix of it.
pub proof fn lemma_project_dirs_below_base(home: Seq<char>, project_path: Seq<char>)
    ensures
        base_dirs_at(home).cache_dir.is_prefix_of(project_dirs_at(home, project_path).cache_dir),
        base_dirs_at(home).config_dir.is_prefix_of(project_dirs_at(home, project_path).config_dir),
        base_dirs_at(home).data_dir.is_prefix_of(project_dirs_at(home, project_path).data_dir),
        base_dirs_at(home).data_local_dir.is_prefix_of(
            project_dirs_at(home, project_path).data_local_dir,
        ),
{
    lemma_joined_below(Style::Unix, base_dirs_at(home).cache_dir, project_path);
    lemma_joined_below(Style::Unix, base_dirs_at(home).config_dir, project_path);
    lemma_joined_below(Style::Unix, base_dirs_at(home).data_dir, project_path);
}

/// The base directories of the user whose home directory is `home`, each of
/// them absolute. There are none where the home directory is not known or is
/// not an absolute path.
pub fn base_dirs(home: &Option<String>) -> (dirs: Result<BaseDirs, Error>)
    ensures
        view_of(dirs) == with_home(home_of(Style::Unix, *home), base_dirs_at(home->0@)),
        dirs is Ok ==> dirs->Ok_0@.all_absolute(Style::Unix),
{
    let home = match known_home(Style::Unix, home) {
        Ok(home) => home,
        Err(error) => {
            return Err(error);
        },
    };
    let home_dir: &str = home.as_str();
    let cache_dir = join(Style::Unix, home_dir, "Library/Caches");
    let config_dir = join(Style::Unix, home_dir, "Library/Preferences");
    let data_dir = join(Style::Unix, home_dir, "Library/Application Support");
    let data_local_dir = data_dir.clone();
    proof {
        lemma_base_dirs_absolute(home@);
    }
    Ok(
        BaseDirs {
            home_dir: home,
            cache_dir: cache_dir,
            config_dir: config_dir,
            data_dir: data_dir,
            data_local_dir: data_local_dir,
            executable_dir: None,
            runtime_dir: None,
        },
    )
}

/// The user directories of the user whose home directory is `home`, each of
/// them absolute. There are none where the home directory is not known or is
/// not an absolute path.
pub fn user_dirs(home: &Option<String>) -> (dirs: Result<UserDirs, Error>)
    ensures
        view_of(dirs) == with_home(home_of(Style::Unix, *home), user_dirs_at(home->0@)),
        dirs is Ok ==> dirs->Ok_0@.all_absolute(Style::Unix),
{
    let home = match known_home(Style::Unix, home) {
        Ok(home) => home,
        Err(error) => {
            return Err(error);
        },
    };
    let home_dir: &str = home.as_str();
    let audio_dir = join(Style::Unix, home_dir, "Music");
    let desktop_dir = join(Style::Unix, home_dir, "Desktop");
    let document_dir = join(Style::Unix, home_dir, "Documents");
    let download_dir = join(Style::Unix, home_dir, "Downloads");
    let font_dir = join(Style::Unix, home_dir, "Library/Fonts");
    let picture_dir = join(Style::Unix, home_dir, "Pictures");
    let public_dir = join(Style::Unix, home_dir, "Public");
    let video_dir = join(Style::Unix, home_dir, "Movies");
    proof {
        lemma_user_dirs_absolute(home@);
    }
    Ok(
        UserDirs {
            home_dir: home,
            audio_dir: Some(audio_dir),
            desktop_dir: Some(desktop_dir),
            document_dir: Some(document_dir),
            download_dir: Some(download_dir),
            font_dir: Some(font_dir),
            picture_dir: Some(picture_dir),
            public_dir: Some(public_dir),
            template_dir: None,
            video_dir: Some(video_dir),
        },
    )
}

/// The directories of the project with the given fragment, each of them
/// absolute and below the base directory of its kind. There are none where
/// the home directory is not known or is not an absolute path. The fragment
/// is taken as it is.
pub fn project_dirs_from_path(home: &Option<String>, project_path: String) -> (dirs: Result<
    ProjectDirs,
    Error,
>)
    ensures
        view_of(dirs) == with_home(
            home_of(Style::Unix, *home),
            project_dirs_at(home->0@, project_path@),
        ),
        dirs is Ok ==> dirs->Ok_0@.all_absolute(Style::Unix),
{
    let home = match known_home(Style::Unix, home) {
        Ok(home) => home,
        Err(error) => {
            return Err(error);
        },
    };
    let home_dir: &str = home.as_str();
    let fragment: &str = project_path.as_str();
    let cache_home = join(Style::Unix, home_dir, "Library/Caches");
    let config_home = join(Style::Unix, home_dir, "Library/Preferences");
    let data_home = join(Style::Unix, home_dir, "Library/Application Support");
    let cache_dir = join(Style::Unix, cache_home.as_str(), fragment);
    let config_dir = join(Style::Unix, config_home.as_str(), fragment);
    let data_dir = join(Style::Unix, data_home.as_str(), fragment);
    let data_local_dir = data_dir.clone();
    proof {
        lemma_project_dirs_absolute(home@, project_path@);
    }
    Ok(
        ProjectDirs {
            project_path: project_path,
            cache_dir: cache_dir,
            config_dir: config_dir,
            data_dir: data_dir,
            data_local_dir: data_local_dir,
            runtime_dir: None,
        },
    )
}

/// Writes `second` behind `first`, after a dot if neither is empty.
fn dot(first: String, second: &str) -> (both: String)
    ensures
        both@ == dotted(first@, second@),
{
    if first.as_str().unicode_len() == 0 {
        String::from_str(second)
    } else if second.unicode_len() == 0 {
        first
    } else {
        proof {
            reveal_strlit(".");
        }
        let mut both = first;
        both.append(".");
        both.append(second);
        both
    }
}

/// The bundle identifier that names a project.
pub fn bundle_identifier(qualifier: &str, organization: &str, application: &str) -> (id: String)
    ensures
        id@ == bundle_id(qualifier@, organization@, application@),
{
    let organization = replace_whitespace(organization);
    let application = replace_whitespace(application);
    let id = dot(String::from_str(qualifier), organization.as_str());
    dot(id, application.as_str())
}

/// The directories of the project that qualifier, organization and
/// application name. There are none where the home directory is not known or
/// is not an absolute path.
pub fn project_dirs_from(
    home: &Option<String>,
    qualifier: &str,
    organization: &str,
    application: &str,
) -> (dirs: Result<ProjectDirs, Error>)
    ensures
        view_of(dirs) == with_home(
            home_of(Style::Unix, *home),
            project_dirs_at(home->0@, bundle_id(qualifier@, organization@, application@)),
        ),
        dirs is Ok ==> dirs->Ok_0@.all_absolute(Style::Unix),
{
    project_dirs_from_path(home, bundle_identifier(qualifier, organization, application))
}

} // verus!
