use wizard::kv::Kv;
use wizard::library::{
    get_recomends_winetricks, library_common, library_dotnet, library_vbrun, library_vcrun,
    library_wmp,
};
use wizard::message::{title, Msg};
use wizard::platform::{Platform, Session, SessionError};
use wizard::shell::{LoopAction, Shell};
use wizard::task::{first_failure, succeeded, Step, Task};
use wizard::text::{starts_with, str_eq};
use wizard::welcome::{build_dir, check_version, setup_next, welcome_next, SetupStage, WelcomeError};
use wizard::wine::{
    configure_entry, configure_next, contains, filter_roms, install_task, is_blank, next, prev,
    rom_add_task, rom_next, rom_run_task, set_arguments, set_selectable, toggle_exclusive,
    year_choices, env_add, ConfigureEntry, RomError,
};

fn owned(v: &[&str]) -> Vec<String> {
    v.iter().map(|s| s.to_string()).collect()
}

fn concat(parts: &[Vec<&'static str>]) -> Vec<&'static str> {
    parts.iter().flatten().copied().collect()
}

#[test]
fn recommend_early_year_takes_earliest_brackets() {
    let expected = concat(&[
        vec!["xact", "xact_x64", "xinput", "binkw32", "xaudio29", "openal"],
        vec!["vcrun6"],
        vec!["vb2run"],
        vec!["dotnet11", "dotnet11sp1"],
    ]);
    assert_eq!(get_recomends_winetricks(1990), expected);
}

#[test]
fn recommend_recent_year_takes_latest_brackets() {
    let expected = concat(&[
        library_common(),
        vec!["vcrun2017", "vcrun2019", "vcrun2022"],
        vec!["vb6run", "dx8vb"],
        vec!["dotnetcore2", "dotnetcore3", "dotnet6", "dotnet7", "dotnet8"],
    ]);
    assert_eq!(get_recomends_winetricks(2024), expected);
}

#[test]
fn recommend_changes_only_at_boundaries() {
    assert_eq!(get_recomends_winetricks(2009), get_recomends_winetricks(2010));
    assert_eq!(get_recomends_winetricks(2010), get_recomends_winetricks(2011));
    assert_ne!(get_recomends_winetricks(2011), get_recomends_winetricks(2012));
    assert_eq!(library_vcrun(2002), vec!["vcrun6"]);
    assert_eq!(library_vcrun(2003), vec!["vcrun2003", "vcrun2005", "vcrun2008"]);
    assert_eq!(library_vbrun(1993), vec!["vb2run"]);
    assert_eq!(library_vbrun(1994), vec!["vb2run", "vb3run", "vb4run"]);
    assert_eq!(library_vbrun(2001), vec!["vb3run", "vb4run", "dx8vb", "vb5run"]);
}

#[test]
fn dotnet_brackets_are_intervals() {
    let latest = vec!["dotnetcore2", "dotnetcore3", "dotnet6", "dotnet7", "dotnet8"];
    let before = vec!["dotnet48", "dotnetcore2", "dotnetcore3", "dotnet6", "dotnet7"];
    assert_eq!(library_dotnet(2021), before);
    assert_eq!(library_dotnet(2022), before);
    assert_eq!(library_dotnet(2023), before);
    assert_eq!(library_dotnet(2024), latest);
    assert_eq!(library_dotnet(2030), latest);
    assert_eq!(
        library_dotnet(2020),
        vec!["dotnet471", "dotnet472", "dotnet48", "dotnetcore2", "dotnetcore3"]
    );
    assert_eq!(library_dotnet(2007), vec!["dotnet20", "dotnet30sp1", "dotnet35"]);
}

#[test]
fn media_player_table_is_not_recommended() {
    assert_eq!(library_wmp(2005), vec!["wmp9"]);
    assert_eq!(library_wmp(2006), vec!["wmp10"]);
    assert_eq!(library_wmp(2007), vec!["wmp11"]);
    assert!(!get_recomends_winetricks(2005).contains(&"wmp9"));
}

#[test]
fn platform_names() {
    assert_eq!(Platform::from_str("linux"), Some(Platform::Linux));
    assert_eq!(Platform::from_str("wine_url"), Some(Platform::WineUrl));
    assert_eq!(Platform::from_str("rpcs3"), Some(Platform::Rcps3));
    assert_eq!(Platform::from_str("ryujinx"), None);
    assert_eq!(Platform::WineUrl.as_str(), "wine");
    assert_eq!(Platform::Pcsx2.as_str(), "pcsx2");
}

#[test]
fn leaving_custom_url_clears_it() {
    let mut s = Session::new();
    assert!(s.select_platform("wine_url"));
    s.set_url("http://example.org/wine.tar".to_string());
    let task = s.fetch_task().unwrap();
    assert_eq!(task.commands[0].last().unwrap(), "--url-dwarfs=http://example.org/wine.tar");
    assert_eq!(s.fetch_url_env.as_deref(), Some("http://example.org/wine.tar"));
    assert!(s.select_platform("linux"));
    assert_eq!(s.url, None);
    assert_eq!(s.fetch_url_env, None);
    assert!(s.select_platform("wine_url"));
    assert_eq!(s.url, None);
    assert_eq!(s.fetch_url_env, None);
}

#[test]
fn url_ignored_outside_custom_variant() {
    let mut s = Session::new();
    assert!(s.select_platform("wine"));
    s.set_url("http://example.org".to_string());
    assert_eq!(s.url, None);
    assert!(!s.select_platform("ryujinx"));
    assert_eq!(s.platform, Some(Platform::Wine));
}

#[test]
fn fetch_without_platform_fails() {
    let mut s = Session::new();
    assert!(matches!(s.fetch_task(), Err(SessionError::NoPlatform)));
}

#[test]
fn fetch_arguments() {
    let mut s = Session::new();
    s.select_platform("retroarch");
    let task = s.fetch_task().unwrap();
    assert_eq!(task.next, Some(Msg::DrawFetch));
    assert_eq!(
        task.commands,
        vec![owned(&["fetch", "--platform=retroarch", "--json=gameimage.fetch.json"])]
    );
}

#[test]
fn wine_dist_defaults_on_platform_screen() {
    let mut s = Session::new();
    s.select_platform("wine");
    s.enter_platform_screen();
    assert_eq!(s.wine_dist.as_deref(), Some("default"));
    s.set_wine_dist("staging".to_string());
    s.enter_platform_screen();
    assert_eq!(s.wine_dist.as_deref(), Some("staging"));
}

#[test]
fn session_year_and_query() {
    let mut s = Session::new();
    assert_eq!(s.year, 2024);
    s.set_year(1999);
    assert_eq!(s.year, 1999);
    assert!(!s.update_query("gam".to_string(), false));
    assert_eq!(s.query, "");
    assert!(s.update_query("game".to_string(), true));
    assert_eq!(s.query, "game");
    assert!(s.update_query(String::new(), false));
    assert_eq!(s.query, "");
}

#[test]
fn transition_silences_previous_callbacks() {
    let mut shell = Shell::new();
    assert_eq!(shell.step(Msg::DrawWelcome), LoopAction::Build(Msg::DrawWelcome));
    let h = shell.bind(Msg::DrawPlatform);
    assert_eq!(shell.fire(h), Some(Msg::DrawPlatform));
    assert_eq!(shell.step(Msg::WindUpdate), LoopAction::Flush);
    assert_eq!(shell.fire(h), Some(Msg::DrawPlatform));
    assert_eq!(shell.step(Msg::DrawPlatform), LoopAction::Build(Msg::DrawPlatform));
    assert!(shell.bindings.is_empty());
    let h2 = shell.bind(Msg::DrawWelcome);
    assert_eq!(h2.index, h.index);
    assert_eq!(shell.fire(h), None);
    assert_eq!(shell.fire(h2), Some(Msg::DrawWelcome));
}

#[test]
fn locked_window_fires_nothing() {
    let mut shell = Shell::new();
    shell.step(Msg::DrawWineConfigure);
    let h = shell.bind(Msg::DrawWineEnvironment);
    assert_eq!(shell.step(Msg::WindDeactivate), LoopAction::SetActive(false));
    assert_eq!(shell.fire(h), None);
    assert_eq!(shell.step(Msg::WindActivate), LoopAction::SetActive(true));
    assert_eq!(shell.fire(h), Some(Msg::DrawWineEnvironment));
}

#[test]
fn unmatched_and_quit_messages() {
    let mut shell = Shell::new();
    assert_eq!(shell.step(Msg::DrawFetch), LoopAction::Clear);
    assert_eq!(shell.screen, None);
    assert_eq!(shell.step(Msg::Quit), LoopAction::Quit);
    assert!(!shell.running);
}

#[test]
fn titles() {
    assert_eq!(title(Msg::DrawWelcome), Some("Welcome to GameImage"));
    assert_eq!(title(Msg::DrawLinuxDefault(true)), Some("Select the Main Binary"));
    assert_eq!(title(Msg::DrawRpcs3Bios), Some("Install the Bios and DLC Files"));
    assert_eq!(title(Msg::WindUpdate), None);
}

#[test]
fn bracket_on_success_and_failure() {
    let task = Task { commands: vec![owned(&["fetch"])], next: Some(Msg::DrawFetch), keep_going: false };
    let (start, commands, busy) = task.start();
    assert_eq!(start, vec![Msg::WindDeactivate]);
    assert_eq!(commands, vec![owned(&["fetch"])]);
    assert_eq!(busy.finish(&vec![Some(0)]), vec![Msg::WindActivate, Msg::DrawFetch]);
    let task = Task { commands: vec![owned(&["fetch"])], next: Some(Msg::DrawFetch), keep_going: false };
    let (_, _, busy) = task.start();
    assert_eq!(busy.finish(&vec![Some(2)]), vec![Msg::WindActivate]);
    let task = Task { commands: vec![owned(&["fetch"])], next: None, keep_going: false };
    let (_, _, busy) = task.start();
    assert_eq!(busy.finish(&vec![Some(0)]), vec![Msg::WindActivate]);
}

#[test]
fn exit_statuses() {
    assert!(succeeded(&vec![]));
    assert!(succeeded(&vec![Some(0), Some(0)]));
    assert!(!succeeded(&vec![Some(0), Some(1)]));
    assert!(!succeeded(&vec![None]));
}

#[test]
fn welcome_rejects_old_backend() {
    let (msgs, status) = welcome_next(None, Some("1.5.2"));
    assert_eq!(msgs, vec![Msg::WindActivate]);
    let err = status.unwrap_err();
    assert_eq!(err, WelcomeError::Outdated("1.5.2".to_string()));
    assert_eq!(err.describe(), "error: you should update to version 1.5.2");
}

#[test]
fn welcome_accepts_supported_backend() {
    let (msgs, status) = welcome_next(None, Some("1.6.3"));
    assert_eq!(msgs, vec![Msg::DrawPlatform]);
    assert!(status.is_ok());
    assert!(check_version(Some("1.6")).is_ok());
    assert!(check_version(Some("1.")).is_err());
}

#[test]
fn welcome_without_fetch_list() {
    let (msgs, status) = welcome_next(None, None);
    assert_eq!(msgs, vec![Msg::WindActivate]);
    let err = status.unwrap_err();
    assert_eq!(err, WelcomeError::Unreadable);
    assert_eq!(
        err.describe(),
        "error: could not read fetch.json, backend failed? No internet?"
    );
}

#[test]
fn build_directory_path() {
    assert_eq!(build_dir("/home/user"), "/home/user/build");
    assert_eq!(build_dir("/home/user/"), "/home/user/build");
    assert_eq!(build_dir(""), "build");
}

#[test]
fn text_helpers() {
    assert!(starts_with("1.6.0", "1.6"));
    assert!(!starts_with("1.5.2", "1.6"));
    assert!(!starts_with("1", "1.6"));
    assert!(str_eq("wine", "wine"));
    assert!(!str_eq("wine", "wine_url"));
}

#[test]
fn kv_round_trip() {
    let mut kv = Kv::new();
    assert_eq!(kv.get("WINEDEBUG"), None);
    kv.write("WINEDEBUG".to_string(), "-all".to_string());
    kv.write("DXVK_HUD".to_string(), "1".to_string());
    assert_eq!(kv.get("WINEDEBUG").as_deref(), Some("-all"));
    kv.write("WINEDEBUG".to_string(), "+all".to_string());
    assert_eq!(kv.get("WINEDEBUG").as_deref(), Some("+all"));
    assert_eq!(kv.entries.len(), 2);
    kv.erase("WINEDEBUG");
    assert!(!kv.contains_key("WINEDEBUG"));
    assert!(kv.contains_key("DXVK_HUD"));
    kv.erase("missing");
    assert_eq!(kv.entries.len(), 1);
}

#[test]
fn kv_from_pairs_later_entry_wins() {
    let kv = Kv::from_pairs(vec![
        ("a".to_string(), "1".to_string()),
        ("b".to_string(), "2".to_string()),
        ("a".to_string(), "3".to_string()),
    ]);
    assert_eq!(kv.entries.len(), 2);
    assert_eq!(kv.get("a").as_deref(), Some("3"));
    assert_eq!(kv.get("b").as_deref(), Some("2"));
}

#[test]
fn wine_navigation() {
    assert_eq!(prev(Msg::DrawWineRom), Some(Msg::DrawWineTricks));
    assert_eq!(prev(Msg::DrawWineEnvironment), Some(Msg::DrawWineConfigure));
    assert_eq!(prev(Msg::DrawPlatform), Some(Msg::DrawWelcome));
    assert_eq!(next(Msg::DrawWineName), Some(Msg::DrawWineIcon));
    assert_eq!(next(Msg::DrawWineCompress), Some(Msg::DrawCreator));
    assert_eq!(next(Msg::DrawWineRom), None);
}

#[test]
fn configure_creates_missing_prefix() {
    assert!(matches!(configure_next(true), Step::Show(Msg::DrawWineTricks)));
    match configure_next(false) {
        Step::Run(t) => {
            assert_eq!(t.next, Some(Msg::DrawWineTricks));
            assert_eq!(t.commands, vec![owned(&["install", "winetricks", "fontsmooth=rgb"])]);
        }
        _ => panic!("expected a task"),
    }
}

#[test]
fn configure_entries() {
    match configure_entry(ConfigureEntry::Dxvk, None) {
        Step::Run(t) => assert_eq!(t.commands, vec![owned(&["install", "winetricks", "-f", "dxvk"])]),
        _ => panic!("expected a task"),
    }
    match configure_entry(ConfigureEntry::CustomWine, Some("winecfg".to_string())) {
        Step::Run(t) => {
            assert_eq!(t.commands, vec![owned(&["install", "wine", "winecfg"])]);
            assert_eq!(t.next, None);
        }
        _ => panic!("expected a task"),
    }
    assert!(matches!(configure_entry(ConfigureEntry::CustomWinetricks, None), Step::Stay));
    assert!(matches!(
        configure_entry(ConfigureEntry::Environment, None),
        Step::Show(Msg::DrawWineEnvironment)
    ));
}

#[test]
fn install_one_command_per_library() {
    let t = install_task(&owned(&["dxvk", "vcrun6"]));
    assert_eq!(t.next, None);
    assert_eq!(
        t.commands,
        vec![
            owned(&["install", "winetricks", "-f", "-q", "dxvk"]),
            owned(&["install", "winetricks", "-f", "-q", "vcrun6"]),
        ]
    );
    assert!(install_task(&vec![]).commands.is_empty());
}

#[test]
fn executable_tasks() {
    let t = rom_add_task("setup.exe".to_string());
    assert_eq!(t.next, Some(Msg::DrawWineRom));
    assert_eq!(t.commands, vec![owned(&["install", "wine", "setup.exe"])]);
    let t = rom_run_task("game.exe".to_string());
    assert_eq!(t.commands, vec![owned(&["select", "rom", "game.exe"]), owned(&["test"])]);
    let t = rom_next(Some("game.exe".to_string())).unwrap();
    assert_eq!(t.next, Some(Msg::DrawWineCompress));
    assert_eq!(t.commands, vec![owned(&["select", "rom", "game.exe"])]);
    let err = rom_next(None).err().unwrap();
    assert_eq!(err, RomError::NoDefault);
    assert_eq!(err.describe(), "You must selected the default executable before continuing");
}

#[test]
fn search_ignores_case() {
    let paths = owned(&["drive_c/Game/GAME.EXE", "drive_c/Tools/setup.exe", "drive_c/Game/Ünïcode.exe"]);
    assert_eq!(filter_roms(&paths, "game"), owned(&["drive_c/Game/GAME.EXE", "drive_c/Game/Ünïcode.exe"]));
    assert_eq!(filter_roms(&paths, "SETUP"), owned(&["drive_c/Tools/setup.exe"]));
    assert_eq!(filter_roms(&paths, "ÜNÏ"), owned(&["drive_c/Game/Ünïcode.exe"]));
    assert_eq!(filter_roms(&paths, ""), paths);
    assert!(contains("abcabd", "abd"));
    assert!(!contains("abcab", "abd"));
}

#[test]
fn arguments_and_selectable_flags() {
    let mut kv = Kv::new();
    set_arguments(&mut kv, "game.exe".to_string(), "-windowed".to_string());
    assert_eq!(kv.get("game.exe").as_deref(), Some("-windowed"));
    set_arguments(&mut kv, "game.exe".to_string(), " \t\u{3000}".to_string());
    assert!(!kv.contains_key("game.exe"));
    assert!(is_blank(""));
    assert!(!is_blank(" x "));
    let mut flags = Kv::new();
    set_selectable(&mut flags, "game.exe".to_string(), true);
    assert_eq!(flags.get("game.exe").as_deref(), Some("1"));
    set_selectable(&mut flags, "game.exe".to_string(), false);
    assert!(!flags.contains_key("game.exe"));
}

#[test]
fn environment_entries() {
    let mut kv = Kv::new();
    assert!(!env_add(&mut kv, String::new(), "x".to_string()));
    assert!(kv.entries.is_empty());
    assert!(env_add(&mut kv, "WINEESYNC".to_string(), "1".to_string()));
    assert_eq!(kv.get("WINEESYNC").as_deref(), Some("1"));
}

#[test]
fn default_executable_is_exclusive() {
    assert_eq!(toggle_exclusive(3, 1), vec![false, true, false]);
    assert_eq!(toggle_exclusive(2, 5), vec![false, false]);
}

#[test]
fn year_menu() {
    let years = year_choices();
    assert_eq!(years.len(), 32);
    assert_eq!(years[0], 1993);
    assert_eq!(years[31], 2024);
}

#[test]
fn welcome_setup_stages() {
    assert_eq!(setup_next(SetupStage::CreateDir, true), Ok(Some(SetupStage::InitBuild)));
    assert_eq!(setup_next(SetupStage::InitBuild, true), Ok(Some(SetupStage::FetchSources)));
    assert_eq!(setup_next(SetupStage::FetchSources, true), Ok(None));
    assert_eq!(
        setup_next(SetupStage::CreateDir, false),
        Err(WelcomeError::Setup(SetupStage::CreateDir))
    );
}

#[test]
fn welcome_stays_when_directory_setup_fails() {
    let (msgs, status) = welcome_next(Some(SetupStage::CreateDir), Some("1.6.0"));
    assert_eq!(msgs, vec![Msg::WindActivate]);
    let err = status.unwrap_err();
    assert_eq!(err, WelcomeError::Setup(SetupStage::CreateDir));
    assert_eq!(err.describe(), "Could not create build directory");
    let (_, status) = welcome_next(Some(SetupStage::InitBuild), Some("1.6.0"));
    assert_eq!(status.unwrap_err().describe(), "Error to initialize build directory");
}

#[test]
fn run_stops_after_failed_select() {
    let t = rom_run_task("game.exe".to_string());
    assert!(!t.keep_going);
    let (_, _, busy) = t.start();
    assert_eq!(busy.next_command(&vec![]), Some(0));
    assert_eq!(busy.next_command(&vec![Some(1)]), None);
    assert_eq!(busy.next_command(&vec![Some(0)]), Some(1));
    assert_eq!(busy.next_command(&vec![Some(0), Some(0)]), None);
    assert_eq!(busy.finish(&vec![Some(1)]), vec![Msg::WindActivate]);
}

#[test]
fn install_keeps_going_after_failed_library() {
    let t = install_task(&owned(&["a", "b", "c"]));
    let (_, _, busy) = t.start();
    assert_eq!(busy.next_command(&vec![Some(1)]), Some(1));
    assert_eq!(busy.next_command(&vec![Some(1), None]), Some(2));
    assert_eq!(busy.next_command(&vec![Some(1), None, Some(0)]), None);
}

#[test]
fn partial_run_is_no_success() {
    let task = Task { commands: vec![owned(&["a"]), owned(&["b"])], next: Some(Msg::DrawWineCompress), keep_going: false };
    let (_, _, busy) = task.start();
    assert_eq!(busy.finish(&vec![Some(0)]), vec![Msg::WindActivate]);
}

#[test]
fn first_failed_invocation() {
    assert_eq!(first_failure(&vec![Some(0), Some(0)]), None);
    assert_eq!(first_failure(&vec![Some(0), None, Some(3)]), Some(1));
    assert_eq!(first_failure(&vec![Some(0), Some(3)]), Some(1));
}

#[test]
fn spent_generations_silence_every_callback() {
    let mut shell = Shell::new();
    shell.step(Msg::DrawWineRom);
    shell.epoch = u64::MAX;
    let h = shell.bind(Msg::DrawWineCompress);
    assert_eq!(shell.fire(h), Some(Msg::DrawWineCompress));
    assert_eq!(shell.step(Msg::DrawWineTricks), LoopAction::Build(Msg::DrawWineTricks));
    assert!(shell.spent);
    assert_eq!(shell.fire(h), None);
    let h2 = shell.bind(Msg::DrawWineRom);
    assert_eq!(shell.fire(h2), None);
}
