//! The names that the package of a macOS app is made of.
use vstd::prelude::*;
use vstd::string::StringExecFns;
use crate::string::{capitalize_first_letter, capitalized};

verus! {

/// The names that make up the package of an app: the app's name, its bundle identifier and
/// version, the name of its icons file, and the directories and file of the package relative
/// to the directory where it is placed.
pub struct PackageNames {
    pub app_name: String,
    pub bundle_identifier: String,
    pub version: String,
    pub icns_file_name: String,
    pub contents_directory: String,
    pub executables_directory: String,
    pub resources_directory: String,
    pub info_plist_file_name: String,
}

impl PackageNames {
    /// The names for the app of that name in lower case: the app is named with its first
    /// letter in upper case, its bundle is identified under `com.takarum.apps.`, and its
    /// contents go in the directory `<App name>.app/Contents/`.
    pub fn of(app_name_lower_case: &str) -> (r: PackageNames)
        ensures
            r.app_name@ == capitalized(app_name_lower_case@),
            r.bundle_identifier@ == "com.takarum.apps."@ + app_name_lower_case@,
            r.version@ == "0.1.0"@,
            r.icns_file_name@ == app_name_lower_case@ + ".icns"@,
            r.contents_directory@ == capitalized(app_name_lower_case@) + ".app/Contents/"@,
            r.executables_directory@ == "MacOS/"@,
            r.resources_directory@ == "Resources/"@,
            r.info_plist_file_name@ == "Info.plist"@,
    {
        let app_name = capitalize_first_letter(app_name_lower_case);
        let mut bundle_identifier = String::from_str("com.takarum.apps.");
        bundle_identifier.append(app_name_lower_case);
        let mut icns_file_name = String::from_str(app_name_lower_case);
        icns_file_name.append(".icns");
        let mut contents_directory = app_name.clone();
        contents_directory.append(".app/Contents/");
        PackageNames {
            app_name,
            bundle_identifier,
            version: String::from_str("0.1.0"),
            icns_file_name,
            contents_directory,
            executables_directory: String::from_str("MacOS/"),
            resources_directory: String::from_str("Resources/"),
            info_plist_file_name: String::from_str("Info.plist"),
        }
    }
}

} // verus!
