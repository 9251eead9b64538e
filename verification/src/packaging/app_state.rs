//! The state of the application and the request to generate packages.
use vstd::prelude::*;
use std::path::PathBuf;
use super::progress::ProgressMessage;

verus! {

#[verifier::external_type_specification]
#[verifier::external_body]
pub struct ExPathBuf(PathBuf);

/// `PathBuf::clone`: a path equal to the one cloned.
pub assume_specification[ <PathBuf as Clone>::clone ](p: &PathBuf) -> (r: PathBuf)
    ensures
        r == *p,
;

/// What the application shows and edits: the paths and the name of the app to package, and
/// the latest progress message.
#[derive(Clone)]
pub struct AppState {
    pub executable_path: Option<PathBuf>,
    pub original_icon_path: Option<PathBuf>,
    pub target_packages_directory_path: Option<PathBuf>,
    pub app_name_lowercase: String,
    pub progress_message: ProgressMessage,
}

impl AppState {
    /// The state with the given paths and name, and no progress message yet.
    pub fn new(
        executable_path: Option<PathBuf>,
        original_icon_path: Option<PathBuf>,
        target_packages_directory_path: Option<PathBuf>,
        app_name_lowercase: String,
    ) -> (r: Self)
        ensures
            r == (AppState {
                executable_path,
                original_icon_path,
                target_packages_directory_path,
                app_name_lowercase,
                progress_message: ProgressMessage::Nop,
            }),
    {
        Self {
            executable_path,
            original_icon_path,
            target_packages_directory_path,
            app_name_lowercase,
            progress_message: ProgressMessage::Nop,
        }
    }
}

/// What handling an event of the interface asks for.
#[derive(Default, Copy, Clone, Debug)]
pub enum AppMessageResult {
    /// Should generate packages
    GeneratePackages,
    /// The event handler discarded the event: the result when there is nothing to do.
    #[default]
    Nop,
}

/// What the task that generates packages is given.
#[derive(Default, Clone, Debug)]
pub struct GeneratePackagesTaskPayload {
    pub executable_path: PathBuf,
    pub other_executables: Vec<PathBuf>,
    pub original_icon_path: PathBuf,
    pub app_name_lower_case: String,
    pub target_directory_path: PathBuf,
}

impl AppState {
    /// All the fields that generating packages needs are filled: the three paths, and the
    /// name of the app.
    pub open spec fn fields_filled(self) -> bool {
        &&& self.executable_path is Some
        &&& self.original_icon_path is Some
        &&& self.target_packages_directory_path is Some
        &&& self.app_name_lowercase@.len() > 0
    }

    /// What asking to generate packages leads to, given whether the executable path exists,
    /// the icon path points to a file and the target path to a directory: the request for the
    /// task, or the message that says why it cannot run. A missing field comes first, then
    /// the executable, the icon and the target directory, in this order.
    pub fn generate_packages_request(
        &self,
        executable_exists: bool,
        icon_is_file: bool,
        target_is_dir: bool,
    ) -> (r: Result<GeneratePackagesTaskPayload, ProgressMessage>)
        ensures
            !self.fields_filled() ==> r == Err::<GeneratePackagesTaskPayload, ProgressMessage>(
                ProgressMessage::NotAllFieldsAreFilled,
            ),
            self.fields_filled() && !executable_exists ==> r == Err::<
                GeneratePackagesTaskPayload,
                ProgressMessage,
            >(ProgressMessage::ExecutablePathDoesNotPointToAFile),
            self.fields_filled() && executable_exists && !icon_is_file ==> r == Err::<
                GeneratePackagesTaskPayload,
                ProgressMessage,
            >(ProgressMessage::SourceIconPathDoesNotPointToAFile),
            self.fields_filled() && executable_exists && icon_is_file && !target_is_dir ==> r
                == Err::<GeneratePackagesTaskPayload, ProgressMessage>(
                ProgressMessage::TargetDirectoryPathIsNotADirectory,
            ),
            self.fields_filled() && executable_exists && icon_is_file && target_is_dir ==> (r
                matches Ok(p) && p.executable_path == self.executable_path->0
                && p.other_executables@.len() == 0 && p.original_icon_path
                == self.original_icon_path->0 && p.app_name_lower_case == self.app_name_lowercase
                && p.target_directory_path == self.target_packages_directory_path->0),
    {
        let (executable_path, original_icon_path, target_directory_path) = match (
            &self.executable_path,
            &self.original_icon_path,
            &self.target_packages_directory_path,
        ) {
            (Some(e), Some(o), Some(t)) => (e, o, t),
            _ => return Err(ProgressMessage::NotAllFieldsAreFilled),
        };
        if self.app_name_lowercase.as_str().is_empty() {
            return Err(ProgressMessage::NotAllFieldsAreFilled);
        }
        if !executable_exists {
            return Err(ProgressMessage::ExecutablePathDoesNotPointToAFile);
        }
        if !icon_is_file {
            return Err(ProgressMessage::SourceIconPathDoesNotPointToAFile);
        }
        if !target_is_dir {
            return Err(ProgressMessage::TargetDirectoryPathIsNotADirectory);
        }
        Ok(
            GeneratePackagesTaskPayload {
                executable_path: executable_path.clone(),
                other_executables: Vec::new(),
                original_icon_path: original_icon_path.clone(),
                app_name_lower_case: self.app_name_lowercase.clone(),
                target_directory_path: target_directory_path.clone(),
            },
        )
    }
}

} // verus!
