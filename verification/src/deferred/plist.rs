//! The entries of the Info.plist file of a macOS app.
use vstd::prelude::*;
use vstd::string::StringExecFns;

verus! {

/// The value of an entry of a property list.
#[derive(Debug, Clone)]
pub enum PlistEntryValue {
    Text(String),
    Flag(bool),
    Texts(Vec<String>),
}

/// The entry has the key and the text value.
pub open spec fn is_text_entry(e: (String, PlistEntryValue), key: Seq<char>, value: Seq<char>) -> bool {
    &&& e.0@ == key
    &&& e.1 matches PlistEntryValue::Text(s) && s@ == value
}

/// The entry has the key and the flag value.
pub open spec fn is_flag_entry(e: (String, PlistEntryValue), key: Seq<char>, value: bool) -> bool {
    &&& e.0@ == key
    &&& e.1 matches PlistEntryValue::Flag(b) && b == value
}

/// The sentence that asks for a permission on behalf of the app: "An application in", the
/// name of the app and what it would do.
pub open spec fn usage_description(name: Seq<char>, purpose: Seq<char>) -> Seq<char> {
    "An application in "@ + name + " "@ + purpose
}

/// An entry with a text value.
fn text_entry(key: &str, value: &str) -> (r: (String, PlistEntryValue))
    ensures
        is_text_entry(r, key@, value@),
{
    (String::from_str(key), PlistEntryValue::Text(String::from_str(value)))
}

/// An entry with a flag value.
fn flag_entry(key: &str, value: bool) -> (r: (String, PlistEntryValue))
    ensures
        is_flag_entry(r, key@, value),
{
    (String::from_str(key), PlistEntryValue::Flag(value))
}

/// An entry that asks for a permission on behalf of the app.
fn usage_entry(key: &str, name: &str, purpose: &str) -> (r: (String, PlistEntryValue))
    ensures
        is_text_entry(r, key@, usage_description(name@, purpose@)),
{
    let mut text = String::from_str("An application in ");
    text.append(name);
    text.append(" ");
    text.append(purpose);
    (String::from_str(key), PlistEntryValue::Text(text))
}

/// The entries of the Info.plist file of a macOS app, each key once, in the order of the
/// file: the development region, the executable, the identifier, the version of the
/// dictionary format, the name, the package type, the version, the platforms, the build
/// version, the icon file, the high resolution and graphics switching flags, the main nib
/// file, the display name, the appearance, and the sentences that ask for permissions.
#[verifier::rlimit(50)]
pub fn plist_entries(
    executable_name: &str,
    name: &str,
    bundle_identifier: String,
    version_string: String,
    icns_file_path: String,
) -> (r: Vec<(String, PlistEntryValue)>)
    ensures
        r@.len() == 25,
        is_text_entry(r@[0], "CFBundleDevelopmentRegion"@, "en"@),
        is_text_entry(r@[1], "CFBundleExecutable"@, executable_name@),
        is_text_entry(r@[2], "CFBundleIdentifier"@, bundle_identifier@),
        is_text_entry(r@[3], "CFBundleInfoDictionaryVersion"@, "0.6.0"@),
        is_text_entry(r@[4], "CFBundleName"@, name@),
        is_text_entry(r@[5], "CFBundlePackageType"@, "APPL"@),
        is_text_entry(r@[6], "CFBundleShortVersionString"@, version_string@),
        r@[7].0@ == "CFBundleSupportedPlatforms"@,
        r@[7].1 matches PlistEntryValue::Texts(v) && v@.len() == 1 && v@[0]@ == "MacOSX"@,
        is_text_entry(r@[8], "CFBundleVersion"@, "1"@),
        is_text_entry(r@[9], "CFBundleIconFile"@, icns_file_path@),
        is_flag_entry(r@[10], "NSHighResolutionCapable"@, true),
        is_text_entry(r@[11], "NSMainNibFile"@, ""@),
        is_flag_entry(r@[12], "NSSupportsAutomaticGraphicsSwitching"@, true),
        is_text_entry(r@[13], "CFBundleDisplayName"@, name@),
        is_text_entry(r@[14], "NSRequiresAquaSystemAppearance"@, "NO"@),
        is_text_entry(
            r@[15],
            "NSAppleEventsUsageDescription"@,
            usage_description(name@, "would like to access AppleScript."@),
        ),
        is_text_entry(
            r@[16],
            "NSCalendarsUsageDescription"@,
            usage_description(name@, "would like to access calendar data."@),
        ),
        is_text_entry(
            r@[17],
            "NSCameraUsageDescription"@,
            usage_description(name@, "would like to access the camera."@),
        ),
        is_text_entry(
            r@[18],
            "NSContactsUsageDescription"@,
            usage_description(name@, "wants to access your contacts."@),
        ),
        is_text_entry(
            r@[19],
            "NSLocationAlwaysUsageDescription"@,
            usage_description(
                name@,
                "would like to access your location information, even in the background."@,
            ),
        ),
        is_text_entry(
            r@[20],
            "NSLocationUsageDescription"@,
            usage_description(name@, "would like to access your location information."@),
        ),
        is_text_entry(
            r@[21],
            "NSLocationWhenInUseUsageDescription"@,
            usage_description(
                name@,
                "would like to access your location information while active."@,
            ),
        ),
        is_text_entry(
            r@[22],
            "NSMicrophoneUsageDescription"@,
            usage_description(name@, "would like to access your microphone."@),
        ),
        is_text_entry(
            r@[23],
            "NSRemindersUsageDescription"@,
            usage_description(name@, "would like to access your reminders."@),
        ),
        is_text_entry(
            r@[24],
            "NSSystemAdministrationUsageDescription"@,
            usage_description(name@, "requires elevated permissions."@),
        ),
{
    let mut entries: Vec<(String, PlistEntryValue)> = Vec::new();
    entries.push(text_entry("CFBundleDevelopmentRegion", "en"));
    entries.push(text_entry("CFBundleExecutable", executable_name));
    entries.push(
        (String::from_str("CFBundleIdentifier"), PlistEntryValue::Text(bundle_identifier)),
    );
    entries.push(text_entry("CFBundleInfoDictionaryVersion", "0.6.0"));
    entries.push(text_entry("CFBundleName", name));
    entries.push(text_entry("CFBundlePackageType", "APPL"));
    entries.push(
        (String::from_str("CFBundleShortVersionString"), PlistEntryValue::Text(version_string)),
    );
    let mut platforms: Vec<String> = Vec::new();
    platforms.push(String::from_str("MacOSX"));
    entries.push((String::from_str("CFBundleSupportedPlatforms"), PlistEntryValue::Texts(platforms)));
    entries.push(text_entry("CFBundleVersion", "1"));
    entries.push((String::from_str("CFBundleIconFile"), PlistEntryValue::Text(icns_file_path)));
    entries.push(flag_entry("NSHighResolutionCapable", true));
    entries.push(text_entry("NSMainNibFile", ""));
    entries.push(flag_entry("NSSupportsAutomaticGraphicsSwitching", true));
    entries.push(text_entry("CFBundleDisplayName", name));
    entries.push(text_entry("NSRequiresAquaSystemAppearance", "NO"));
    entries.push(
        usage_entry("NSAppleEventsUsageDescription", name, "would like to access AppleScript."),
    );
    entries.push(
        usage_entry("NSCalendarsUsageDescription", name, "would like to access calendar data."),
    );
    entries.push(usage_entry("NSCameraUsageDescription", name, "would like to access the camera."));
    entries.push(usage_entry("NSContactsUsageDescription", name, "wants to access your contacts."));
    entries.push(
        usage_entry(
            "NSLocationAlwaysUsageDescription",
            name,
            "would like to access your location information, even in the background.",
        ),
    );
    entries.push(
        usage_entry(
            "NSLocationUsageDescription",
            name,
            "would like to access your location information.",
        ),
    );
    entries.push(
        usage_entry(
            "NSLocationWhenInUseUsageDescription",
            name,
            "would like to access your location information while active.",
        ),
    );
    entries.push(
        usage_entry("NSMicrophoneUsageDescription", name, "would like to access your microphone."),
    );
    entries.push(
        usage_entry("NSRemindersUsageDescription", name, "would like to access your reminders."),
    );
    entries.push(
        usage_entry("NSSystemAdministrationUsageDescription", name, "requires elevated permissions."),
    );
    entries
}

} // verus!
