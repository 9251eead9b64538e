use jihaz::data_format::DataFormat;
use jihaz::deferred::icons::IconTaskMessage;
use jihaz::deferred::plist::{plist_entries, PlistEntryValue};
use jihaz::deferred::message::DeferredTaskMessage;
use jihaz::packaging::package_names::PackageNames;
use jihaz::string::capitalize_first_letter;
use jihaz::directory_walk::{descend_into_directory, has_extension};
use jihaz::packaging::app_state::{AppMessageResult, AppState, GeneratePackagesTaskPayload};
use jihaz::packaging::progress::{ProgressMessage, ProgressMessageQueue};
use jihaz::packaging::tablet::{
    create_generational_view_id, rebuild_information, view_id_to_index_generation, Change,
    ChangeDirection, ChangeKind,
};
use jihaz::range::Range2;
use jihaz::sys_task::{Error, SystemTaskHandle, SystemTaskState};
use std::path::PathBuf;

fn pair(r: &Range2) -> (usize, usize) {
    (r.index, r.len)
}

fn info(direction: ChangeDirection, kind: ChangeKind, len: usize, prev_len: usize) -> [(usize, usize); 3] {
    let i = rebuild_information(&Change::new(direction, kind), len, prev_len);
    [pair(&i.remained), pair(&i.removed), pair(&i.added)]
}

#[test]
fn views_kept_removed_and_added() {
    assert_eq!(info(ChangeDirection::End, ChangeKind::Shift, 7, 4), [(3, 1), (0, 3), (4, 3)]);
    assert_eq!(info(ChangeDirection::Start, ChangeKind::Shift, 4, 6), [(0, 2), (2, 2), (0, 2)]);
    assert_eq!(info(ChangeDirection::End, ChangeKind::Addition, 6, 4), [(0, 4), (0, 0), (4, 2)]);
    assert_eq!(info(ChangeDirection::Start, ChangeKind::Addition, 6, 4), [(0, 4), (0, 0), (0, 2)]);
    assert_eq!(info(ChangeDirection::End, ChangeKind::Removal, 2, 5), [(0, 2), (2, 3), (0, 0)]);
    assert_eq!(info(ChangeDirection::Start, ChangeKind::Removal, 2, 5), [(3, 2), (0, 3), (0, 0)]);
}

#[test]
fn view_ids_pack_index_and_generation() {
    let id = create_generational_view_id(5, 2);
    assert_eq!(id, (2u64 << 32) | 5);
    assert_eq!(view_id_to_index_generation(id), (5, 2));
    let id = create_generational_view_id(u32::MAX as usize, u32::MAX);
    assert_eq!(id, u64::MAX);
    assert_eq!(view_id_to_index_generation(id), (u32::MAX as usize, u32::MAX));
    assert_eq!(view_id_to_index_generation(0), (0, 0));
}

#[test]
fn application_state() {
    let state = AppState::new(Some(PathBuf::from("/bin/app")), None, None, "app".to_string());
    assert_eq!(state.executable_path, Some(PathBuf::from("/bin/app")));
    assert!(state.original_icon_path.is_none() && state.target_packages_directory_path.is_none());
    assert_eq!(state.app_name_lowercase, "app");
    assert!(matches!(state.progress_message, ProgressMessage::Nop));
    assert!(matches!(AppMessageResult::default(), AppMessageResult::Nop));
    let payload = GeneratePackagesTaskPayload::default();
    assert!(payload.other_executables.is_empty());
}

#[test]
fn progress_messages() {
    let mut m = ProgressMessage::began_production("app".to_string(), "/tmp".to_string());
    assert!(matches!(
        &m,
        ProgressMessage::BeganProducingIconsAndGeneratingPackages { app_name_lowercase, target_packages_directory_path }
            if app_name_lowercase == "app" && target_packages_directory_path == "/tmp"
    ));
    m.set(ProgressMessage::written_executable("/x".to_string(), true));
    assert!(matches!(&m, ProgressMessage::WrittenExecutable { executable_path, is_main: true } if executable_path == "/x"));
    m.set(ProgressMessage::finished("app".to_string(), "/tmp".to_string()));
    assert!(matches!(&m, ProgressMessage::FinishedProducingIconsAndGeneratingPackages { .. }));
    let from_task = ProgressMessage::from(DeferredTaskMessage::IconsMessage(IconTaskMessage::finished(
        "a.icns".to_string(),
    )));
    assert!(matches!(
        from_task,
        ProgressMessage::DefferedTask(DeferredTaskMessage::IconsMessage(IconTaskMessage::FinishedProducingIcons { .. }))
    ));
}

#[test]
fn icon_task_messages() {
    let mut m = IconTaskMessage::began_production("a.svg".to_string());
    assert!(matches!(&m, IconTaskMessage::BeganProducingIcons { source_svg_path } if source_svg_path == "a.svg"));
    m.set(IconTaskMessage::written_icons_file("a.icns".to_string(), "ICNS".to_string()));
    assert!(matches!(&m, IconTaskMessage::WrittenIconsFile { icons_file_kind, .. } if icons_file_kind == "ICNS"));
    m.set(IconTaskMessage::encoding_png(64, 512));
    assert!(matches!(m, IconTaskMessage::EncodingPNG { png_dimension: 64, source_svg_size: 512 }));
    m.set(IconTaskMessage::written_png(64, "64x64.png".to_string()));
    assert!(matches!(&m, IconTaskMessage::WrittenPNG { png_dimension: 64, png_path } if png_path == "64x64.png"));
    m.set(IconTaskMessage::finished("a.icns".to_string()));
    assert!(matches!(&m, IconTaskMessage::FinishedProducingIcons { target_icons_file_path } if target_icons_file_path == "a.icns"));
}

#[test]
fn info_plist_entries() {
    let entries = plist_entries(
        "hikma",
        "Hikma",
        "com.takarum.apps.hikma".to_string(),
        "0.1.0".to_string(),
        "hikma.icns".to_string(),
    );
    assert_eq!(entries.len(), 25);
    let text = |i: usize| match &entries[i].1 {
        PlistEntryValue::Text(t) => t.clone(),
        other => panic!("entry {i} is {:?}", other),
    };
    assert_eq!(entries[0].0, "CFBundleDevelopmentRegion");
    assert_eq!(text(0), "en");
    assert_eq!(entries[1].0, "CFBundleExecutable");
    assert_eq!(text(1), "hikma");
    assert_eq!(text(2), "com.takarum.apps.hikma");
    assert_eq!(text(6), "0.1.0");
    assert!(matches!(&entries[7].1, PlistEntryValue::Texts(v) if v == &vec!["MacOSX".to_string()]));
    assert!(matches!(entries[10].1, PlistEntryValue::Flag(true)));
    assert_eq!(entries[13].0, "CFBundleDisplayName");
    assert_eq!(text(13), "Hikma");
    assert_eq!(entries[15].0, "NSAppleEventsUsageDescription");
    assert_eq!(text(15), "An application in Hikma would like to access AppleScript.");
    assert_eq!(text(24), "An application in Hikma requires elevated permissions.");
    let mut keys: Vec<&String> = entries.iter().map(|e| &e.0).collect();
    keys.sort();
    keys.dedup();
    assert_eq!(keys.len(), 25);
}

#[test]
fn generating_packages_needs_filled_and_existing_paths() {
    let empty = AppState::new(None, None, None, String::new());
    assert!(matches!(empty.generate_packages_request(true, true, true), Err(ProgressMessage::NotAllFieldsAreFilled)));
    let state = AppState::new(
        Some(PathBuf::from("/bin/app")),
        Some(PathBuf::from("/icons/app.svg")),
        Some(PathBuf::from("/Applications")),
        "app".to_string(),
    );
    let mut no_name = state.clone();
    no_name.app_name_lowercase = String::new();
    assert!(matches!(no_name.generate_packages_request(true, true, true), Err(ProgressMessage::NotAllFieldsAreFilled)));
    assert!(matches!(
        state.generate_packages_request(false, true, true),
        Err(ProgressMessage::ExecutablePathDoesNotPointToAFile)
    ));
    assert!(matches!(
        state.generate_packages_request(true, false, false),
        Err(ProgressMessage::SourceIconPathDoesNotPointToAFile)
    ));
    assert!(matches!(
        state.generate_packages_request(true, true, false),
        Err(ProgressMessage::TargetDirectoryPathIsNotADirectory)
    ));
    let payload = state.generate_packages_request(true, true, true).unwrap();
    assert_eq!(payload.executable_path, PathBuf::from("/bin/app"));
    assert_eq!(payload.original_icon_path, PathBuf::from("/icons/app.svg"));
    assert_eq!(payload.target_directory_path, PathBuf::from("/Applications"));
    assert_eq!(payload.app_name_lower_case, "app");
    assert!(payload.other_executables.is_empty());
}

#[test]
fn progress_messages_in_order() {
    let mut queue = ProgressMessageQueue::new();
    assert!(!queue.has_messages());
    assert!(queue.next_message().is_none());
    queue.push_message(ProgressMessage::NotAllFieldsAreFilled);
    queue.append_more_messages(vec![ProgressMessage::Nop, ProgressMessage::OtherError("e".to_string())]);
    assert!(queue.has_messages());
    assert!(matches!(queue.next_message(), Some(ProgressMessage::NotAllFieldsAreFilled)));
    assert!(matches!(queue.next_message(), Some(ProgressMessage::Nop)));
    assert!(matches!(queue.next_message(), Some(ProgressMessage::OtherError(e)) if e == "e"));
    assert!(queue.next_message().is_none());
}

#[test]
fn data_formats_held_as_text() {
    assert!(DataFormat::Json.is_text());
    assert!(DataFormat::JsonPretty.is_text());
    assert!(!DataFormat::Bincode.is_text());
}

#[test]
fn one_system_task_handle_at_a_time() {
    let mut state = SystemTaskState::new();
    assert!(SystemTaskHandle::try_global(&state).is_none());
    let handle = SystemTaskHandle::activate(&mut state).unwrap();
    assert_eq!(SystemTaskHandle::global(&state), handle);
    assert!(state.handle_created());
    assert_eq!(SystemTaskHandle::activate(&mut state), Err(Error::SystemTaskHandleAlreadyExists));
    handle.quit();
    handle.finished(&mut state);
    assert!(SystemTaskHandle::try_global(&state).is_none());
    assert!(!state.handle_created());
    assert!(SystemTaskHandle::activate(&mut state).is_ok());
}

#[test]
fn messages_as_text() {
    let began = IconTaskMessage::began_production("/a/icon.svg".to_string());
    assert_eq!(began.text(), "Began producing icons from SVG file /a/icon.svg.");
    assert_eq!(
        IconTaskMessage::written_icons_file("/a/app.icns".to_string(), "ICNS".to_string()).text(),
        "Written ICNS icons file at /a/app.icns"
    );
    assert_eq!(
        IconTaskMessage::encoding_png(32, 1024).text(),
        "Encoding 32x32.png, from SVG of size 1024x1024"
    );
    assert_eq!(
        IconTaskMessage::written_png(512, "/a/512x512.png".to_string()).text(),
        "Saving PNG file 512x512.png, to path /a/512x512.png"
    );
    assert_eq!(
        IconTaskMessage::finished("/a/app.ico".to_string()).text(),
        "Finished producing icons to file: /a/app.ico"
    );
    let deferred = DeferredTaskMessage::IconsMessage(IconTaskMessage::encoding_png(0, 7));
    assert_eq!(deferred.text(), "Encoding 0x0.png, from SVG of size 7x7");
    let progress: ProgressMessage = DeferredTaskMessage::IconsMessage(began).into();
    assert_eq!(progress.text(), "Began producing icons from SVG file /a/icon.svg.");
    assert_eq!(
        ProgressMessage::WrittenExecutable { executable_path: "/b/app".to_string(), is_main: false }
            .text(),
        "Written secondary executable file for the app at /b/app"
    );
    assert_eq!(
        ProgressMessage::BeganProducingIconsAndGeneratingPackages {
            app_name_lowercase: "jihaz".to_string(),
            target_packages_directory_path: "/out".to_string(),
        }
        .text(),
        "Began producing icons and generating packages for app jihaz. Placing in /out."
    );
    assert_eq!(
        ProgressMessage::NotAllFieldsAreFilled.text(),
        "Can't generate packages. Not all of the needed fields are populated."
    );
    assert_eq!(ProgressMessage::OtherError("broken".to_string()).text(), "broken");
    assert_eq!(ProgressMessage::Nop.text(), "");
}

#[test]
fn first_letter_in_upper_case() {
    assert_eq!(capitalize_first_letter("tarteel"), "Tarteel");
    assert_eq!(capitalize_first_letter(""), "");
    assert_eq!(capitalize_first_letter("x"), "X");
    assert_eq!(capitalize_first_letter("Already"), "Already");
    assert_eq!(capitalize_first_letter("9lives"), "9lives");
    assert_eq!(capitalize_first_letter("élan"), "Élan");
    assert_eq!(capitalize_first_letter("ßig"), "SSig");
}

#[test]
fn names_of_an_app_package() {
    let names = PackageNames::of("tarteel");
    assert_eq!(names.app_name, "Tarteel");
    assert_eq!(names.bundle_identifier, "com.takarum.apps.tarteel");
    assert_eq!(names.version, "0.1.0");
    assert_eq!(names.icns_file_name, "tarteel.icns");
    assert_eq!(names.contents_directory, "Tarteel.app/Contents/");
    assert_eq!(names.executables_directory, "MacOS/");
    assert_eq!(names.resources_directory, "Resources/");
    assert_eq!(names.info_plist_file_name, "Info.plist");
}

#[test]
fn choices_of_a_directory_walk() {
    assert_eq!(descend_into_directory(1, None), Some(2));
    assert_eq!(descend_into_directory(1, Some(1)), None);
    assert_eq!(descend_into_directory(1, Some(3)), Some(2));
    assert_eq!(descend_into_directory(4, Some(3)), Some(5));
    assert!(has_extension(Some("json"), "json"));
    assert!(!has_extension(Some("jsonl"), "json"));
    assert!(!has_extension(Some("JSON"), "json"));
    assert!(!has_extension(None, "json"));
    assert!(has_extension(Some(""), ""));
    assert!(has_extension(Some("é"), "é"));
}
