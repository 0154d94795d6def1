use app_installer::install_utils::{
    add_message, add_spaces, aside_name, choose_start_menu, contains, copy_progress,
    find_executable, has_extension, is_renamed_aside, latest_zip, parse_arguments, removal_plan,
    update_progress, wants_space, Arguments, FileInfo, InstalledShortcut, Log, Removal, Severity,
    INSTALLER_NAME,
};

fn arguments(args: &[&str]) -> Option<Arguments> {
    let args: Vec<String> = args.iter().map(|arg| arg.to_string()).collect();
    parse_arguments(&args)
}

fn file(name: &str, modified: u64) -> FileInfo {
    FileInfo { name: name.to_string(), is_file: true, modified: Some(modified) }
}

fn directory(name: &str, modified: u64) -> FileInfo {
    FileInfo { name: name.to_string(), is_file: false, modified: Some(modified) }
}

#[test]
fn add_spaces_splits_camel_case() {
    assert_eq!(add_spaces("MyCoolApp"), "My Cool App");
    assert_eq!(add_spaces("myApp"), "my App");
    assert_eq!(add_spaces("aB"), "a B");
}

#[test]
fn add_spaces_leaves_other_names_alone() {
    assert_eq!(add_spaces(""), "");
    assert_eq!(add_spaces("app"), "app");
    assert_eq!(add_spaces("APP"), "APP");
    assert_eq!(add_spaces("A"), "A");
    assert_eq!(add_spaces("Ab"), "Ab");
    assert_eq!(add_spaces("My App"), "My App");
    assert_eq!(add_spaces("app2Go"), "app2Go");
    assert_eq!(add_spaces("my_App"), "my_App");
}

#[test]
fn add_spaces_knows_letters_beyond_ascii() {
    assert_eq!(add_spaces("caf\u{e9}Bar"), "caf\u{e9} Bar");
    assert_eq!(add_spaces("a\u{394}"), "a \u{394}");
    assert_eq!(add_spaces("HTMLParser"), "HTMLParser");
    assert_eq!(add_spaces("parseHTML"), "parse HTML");
}

#[test]
fn wants_space_needs_both() {
    assert!(wants_space(true, true));
    assert!(!wants_space(true, false));
    assert!(!wants_space(false, true));
    assert!(!wants_space(false, false));
}

#[test]
fn has_extension_compares_behind_the_last_dot() {
    assert!(has_extension("app.zip", "zip"));
    assert!(has_extension("a.zip", "zip"));
    assert!(has_extension("app-1.2.zip", "zip"));
    assert!(has_extension("archive.tar.zip", "zip"));
    assert!(has_extension("..zip", "zip"));
    assert!(has_extension(".hidden.zip", "zip"));
    assert!(has_extension("app.exe", "exe"));
    assert!(has_extension("name.", ""));
}

#[test]
fn has_extension_refuses_other_names() {
    assert!(!has_extension(".zip", "zip"));
    assert!(!has_extension("zip", "zip"));
    assert!(!has_extension("", "zip"));
    assert!(!has_extension("app.ZIP", "zip"));
    assert!(!has_extension("app.zip", "ZIP"));
    assert!(!has_extension("app.zipx", "zip"));
    assert!(!has_extension("app.xzip", "zip"));
    assert!(!has_extension("appzip", "zip"));
    assert!(!has_extension("app.zip.bak", "zip"));
    assert!(!has_extension("app.exe", "zip"));
    assert!(!has_extension("app.tar.zip", "tar.zip"));
    assert!(!has_extension(".", ""));
    assert!(!has_extension("name", ""));
}

#[test]
fn latest_zip_goes_by_time_not_by_name() {
    let listing = vec![file("b-middle.zip", 200), file("c-oldest.zip", 100), file("a-newest.zip", 300)];
    assert_eq!(latest_zip(&listing), Some(2));
    let listing = vec![file("z.zip", 300), file("y.zip", 200), file("x.zip", 100)];
    assert_eq!(latest_zip(&listing), Some(0));
    let listing = vec![file("a.zip", 1), file("z.zip", 3), file("m.zip", 2)];
    assert_eq!(latest_zip(&listing), Some(1));
}

#[test]
fn latest_zip_takes_the_last_of_equal_times() {
    let listing = vec![file("a.zip", 5), file("b.zip", 7), file("c.zip", 7), file("d.zip", 6)];
    assert_eq!(latest_zip(&listing), Some(2));
    let listing = vec![file("a.zip", 0), file("b.zip", 0)];
    assert_eq!(latest_zip(&listing), Some(1));
}

#[test]
fn latest_zip_passes_over_what_is_no_archive() {
    let listing = vec![
        file("old.zip", 10),
        file("notes.txt", 90),
        directory("folder.zip", 80),
        FileInfo { name: "unknown.zip".to_string(), is_file: true, modified: None },
        file(".zip", 70),
        file("newer.zip", 20),
        file("UPPER.ZIP", 60),
    ];
    assert_eq!(latest_zip(&listing), Some(5));
}

#[test]
fn latest_zip_of_nothing() {
    assert_eq!(latest_zip(&vec![]), None);
    assert_eq!(latest_zip(&vec![file("readme.md", 1), directory("a.zip", 2)]), None);
    assert_eq!(latest_zip(&vec![file("only.zip", u64::MAX)]), Some(0));
}

#[test]
fn find_executable_takes_the_first() {
    let listing = vec![
        file("readme.txt", 1),
        directory("bin.exe", 1),
        file("app.exe", 1),
        file("helper.exe", 1),
    ];
    assert_eq!(find_executable(&listing), Some(2));
    let unknown_time =
        vec![FileInfo { name: "app.exe".to_string(), is_file: true, modified: None }];
    assert_eq!(find_executable(&unknown_time), Some(0));
}

#[test]
fn find_executable_finds_none() {
    assert_eq!(find_executable(&vec![]), None);
    let listing = vec![file("app.EXE", 1), file("app.exe.bak", 1), directory("tool.exe", 1), file("exe", 1)];
    assert_eq!(find_executable(&listing), None);
}

#[test]
fn contains_finds_a_word_anywhere() {
    assert!(contains("C:\\Users\\me\\AppData\\Local\\Menu", "Local"));
    assert!(contains("Local", "Local"));
    assert!(contains("xLocal", "Local"));
    assert!(contains("Localx", "Local"));
    assert!(contains("LoLocal", "Local"));
    assert!(contains("anything", ""));
    assert!(contains("", ""));
    assert!(!contains("", "Local"));
    assert!(!contains("Loca", "Local"));
    assert!(!contains("local", "Local"));
    assert!(!contains("Loc al", "Local"));
}

#[test]
fn choose_start_menu_prefers_the_local_one() {
    let paths = vec![
        "C:\\ProgramData\\Start Menu".to_string(),
        "C:\\Users\\me\\AppData\\Local\\Start Menu".to_string(),
        "D:\\Local\\Other".to_string(),
    ];
    assert_eq!(choose_start_menu(&paths), Some(1));
    let none_local = vec!["C:\\ProgramData\\Menu".to_string(), "C:\\Roaming\\Menu".to_string()];
    assert_eq!(choose_start_menu(&none_local), Some(0));
    assert_eq!(choose_start_menu(&vec![]), None);
}

#[test]
fn removal_plan_follows_the_shortcut() {
    let shortcut = InstalledShortcut {
        shortcut_path: "menu/My App.lnk".to_string(),
        target_dir: "data/MyApp".to_string(),
        target_dir_exists: true,
    };
    assert_eq!(
        removal_plan(Some(shortcut.clone()), Some("default/MyApp".to_string())),
        vec![
            Removal::DirectoryTree("data/MyApp".to_string()),
            Removal::File("menu/My App.lnk".to_string()),
        ]
    );
    let dangling = InstalledShortcut { target_dir_exists: false, ..shortcut };
    assert_eq!(
        removal_plan(Some(dangling), Some("default/MyApp".to_string())),
        vec![Removal::File("menu/My App.lnk".to_string())]
    );
}

#[test]
fn removal_plan_falls_back_to_the_default_directory() {
    assert_eq!(
        removal_plan(None, Some("default/MyApp".to_string())),
        vec![Removal::DirectoryTree("default/MyApp".to_string())]
    );
    assert_eq!(removal_plan(None, None), vec![]);
}

#[test]
fn copy_progress_is_the_share_in_percent() {
    assert_eq!(copy_progress(0, 10), 0);
    assert_eq!(copy_progress(5, 10), 50);
    assert_eq!(copy_progress(1, 3), 33);
    assert_eq!(copy_progress(2, 3), 66);
    assert_eq!(copy_progress(199, 200), 99);
    assert_eq!(copy_progress(8192, 20000), 40);
    assert_eq!(copy_progress(10, 10), 100);
}

#[test]
fn copy_progress_at_the_edges() {
    assert_eq!(copy_progress(0, 0), 100);
    assert_eq!(copy_progress(7, 0), 100);
    assert_eq!(copy_progress(11, 10), 100);
    assert_eq!(copy_progress(u64::MAX - 1, u64::MAX), 99);
    assert_eq!(copy_progress(u64::MAX, u64::MAX), 100);
    assert_eq!(copy_progress(u64::MAX / 2, u64::MAX), 49);
}

#[test]
fn update_progress_empties_a_full_bar() {
    assert_eq!(update_progress(0), 0);
    assert_eq!(update_progress(42), 42);
    assert_eq!(update_progress(99), 99);
    assert_eq!(update_progress(100), 0);
    assert_eq!(update_progress(250), 0);
    assert_eq!(update_progress(u32::MAX), 0);
}

#[test]
fn aside_name_holds_name_and_stamp() {
    assert_eq!(aside_name("AppInstaller.exe", "20240131-120000"), "AppInstaller.exe.20240131-120000.old");
    assert_eq!(aside_name("a", ""), "a..old");
    assert_ne!(aside_name("AppInstaller.exe", "1"), aside_name("AppInstaller.exe", "2"));
}

#[test]
fn renamed_installers_are_recognised() {
    let exe = "AppInstaller.exe";
    assert!(is_renamed_aside(&aside_name(exe, "20240131-120000"), exe));
    assert!(is_renamed_aside(&aside_name(exe, ""), exe));
    assert!(is_renamed_aside("AppInstaller.exe.x.old", exe));
    assert!(is_renamed_aside("AppInstaller.exe..old", exe));
    assert!(!is_renamed_aside("AppInstaller.exe.old", exe));
    assert!(!is_renamed_aside("AppInstaller.exe", exe));
    assert!(!is_renamed_aside("AppInstaller.exe.x.ol", exe));
    assert!(!is_renamed_aside("AppInstaller.exe.x.OLD", exe));
    assert!(!is_renamed_aside("Other.exe.x.old", exe));
    assert!(!is_renamed_aside("AppInstaller.exe-x.old", exe));
    assert!(!is_renamed_aside("", exe));
    assert!(!is_renamed_aside(".old", exe));
}

#[test]
fn add_message_appends_in_order() {
    let mut log = Log::new(false);
    assert_eq!(log.len(), 0);
    assert!(!log.debug_enabled());
    assert!(add_message(&mut log, Severity::Info, "first", 10));
    assert!(add_message(&mut log, Severity::Error, "second", 11));
    assert_eq!(log.len(), 2);
    let first = log.get(0).unwrap();
    assert_eq!(first.severity, Severity::Info);
    assert_eq!(first.message, "first");
    assert_eq!(first.timestamp, 10);
    let second = log.get(1).unwrap();
    assert_eq!(second.severity, Severity::Error);
    assert_eq!(second.message, "second");
    assert_eq!(second.timestamp, 11);
    assert!(log.get(2).is_none());
}

#[test]
fn add_message_drops_debug_events_outside_debug_mode() {
    let mut log = Log::new(false);
    assert!(add_message(&mut log, Severity::Info, "kept", 1));
    assert!(!add_message(&mut log, Severity::Debug, "dropped", 2));
    assert_eq!(log.len(), 1);
    assert_eq!(log.get(0).unwrap().message, "kept");
    assert!(add_message(&mut log, Severity::Error, "kept too", 3));
    assert_eq!(log.len(), 2);
    assert_eq!(log.get(0).unwrap().message, "kept");
}

#[test]
fn add_message_keeps_debug_events_in_debug_mode() {
    let mut log = Log::new(true);
    assert!(log.debug_enabled());
    assert!(add_message(&mut log, Severity::Debug, "detail", 5));
    assert_eq!(log.len(), 1);
    assert_eq!(log.get(0).unwrap().severity, Severity::Debug);
    assert_eq!(log.get(0).unwrap().message, "detail");
}

#[test]
fn parse_arguments_reads_name_and_flag() {
    assert_eq!(
        arguments(&["MyApp"]),
        Some(Arguments { app_name: "MyApp".to_string(), debug: false })
    );
    assert_eq!(
        arguments(&["MyApp", "--debug"]),
        Some(Arguments { app_name: "MyApp".to_string(), debug: true })
    );
    assert_eq!(
        arguments(&["--debug", "MyApp"]),
        Some(Arguments { app_name: "MyApp".to_string(), debug: true })
    );
    assert_eq!(
        arguments(&["--debug", "MyApp", "--debug"]),
        Some(Arguments { app_name: "MyApp".to_string(), debug: true })
    );
}

#[test]
fn parse_arguments_takes_the_last_name() {
    assert_eq!(
        arguments(&["First", "Second"]),
        Some(Arguments { app_name: "Second".to_string(), debug: false })
    );
    assert_eq!(
        arguments(&["AppInstaller", "--debug", "Second"]),
        Some(Arguments { app_name: "Second".to_string(), debug: true })
    );
    assert_eq!(
        arguments(&["--Debug"]),
        Some(Arguments { app_name: "--Debug".to_string(), debug: false })
    );
}

#[test]
fn parse_arguments_wants_an_application() {
    assert_eq!(arguments(&[]), None);
    assert_eq!(arguments(&["--debug"]), None);
    assert_eq!(arguments(&["--debug", "--debug"]), None);
    assert_eq!(INSTALLER_NAME, "AppInstaller");
    assert_eq!(arguments(&["AppInstaller"]), None);
    assert_eq!(arguments(&["MyApp", "AppInstaller"]), None);
    assert_eq!(arguments(&["AppInstaller", "--debug"]), None);
}
