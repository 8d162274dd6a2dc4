use downloader_hub::bot_config::TelegramBotConfig;
use downloader_hub::config::{
    configured_or_found, copy_text, found_or_fallback, init, strip_leading, ActionsConfig,
    DumpConfigType, EndpointConfig, FoundPrograms, GlobalConfig, Globals, HelpersConfig,
    OnceConfig, ProgramPathConfig, ProjectConfig, TaskConfig, APPLICATION_NAME, FFMPEG_PROGRAM,
    FFPROBE_PROGRAM, IMAGEMAGICK_PROGRAM, ORGANIZATION_NAME, ORGANIZATION_QUALIFIER,
    SCENEDETECT_PROGRAM, YT_DLP_PROGRAM,
};
use downloader_hub::hub::ServerConfig;
use downloader_hub::text::chars_of;

fn some(s: &str) -> Option<String> {
    Some(s.to_string())
}

fn paths() -> ProgramPathConfig {
    ProgramPathConfig::new(some("/bin/yt-dlp"), some("/bin/ffmpeg"), some("/bin/ffprobe"), None, some("/bin/magick"))
}

fn endpoint(base: Option<&str>) -> EndpointConfig {
    EndpointConfig {
        twitter_screenshot_base_url: "https://twitter.igr.ec".to_string(),
        ocr_api_base_url: base.map(|b| b.to_string()),
    }
}

fn hub_config() -> downloader_hub::hub::Config {
    downloader_hub::hub::Config {
        server: ServerConfig { database_url: "sqlite::memory:".to_string() },
        dependency_paths: paths(),
        endpoint: endpoint(None),
        task: TaskConfig { yt_dlp_update_interval: Some(86_400) },
    }
}

fn bot_config() -> downloader_hub::bot_config::Config {
    downloader_hub::bot_config::Config {
        bot: TelegramBotConfig {
            api_url: "https://api.telegram.org".to_string(),
            bot_token: "SECRET-REDACTED".to_string(),
            about: None,
            owner_link: some("https://t.me/someone"),
        },
        dependency_paths: paths(),
        endpoint: endpoint(some("https://ocr.example/").as_deref()),
        task: TaskConfig { yt_dlp_update_interval: None },
    }
}

#[test]
fn the_project_is_known_under_its_names() {
    assert_eq!(APPLICATION_NAME, "downloader-hub");
    assert_eq!(ORGANIZATION_NAME, "allypost");
    assert_eq!(ORGANIZATION_QUALIFIER, "net");
}

#[test]
fn configured_paths_are_handed_out() {
    let config = paths();
    assert!(config.is_complete());
    assert_eq!(config.yt_dlp_path(), "/bin/yt-dlp");
    assert_eq!(config.ffmpeg_path(), "/bin/ffmpeg");
    assert_eq!(config.ffprobe_path(), "/bin/ffprobe");
    assert_eq!(config.scenedetect_path(), None);
    assert_eq!(config.imagemagick_path(), some("/bin/magick"));
    assert!(!ProgramPathConfig::default().is_complete());
    assert_eq!(ProgramPathConfig::default().scenedetect_path(), None);
}

#[test]
fn resolving_keeps_the_paths_that_are_configured() {
    let resolved = paths().resolve_paths();
    assert_eq!(resolved.yt_dlp_path(), "/bin/yt-dlp");
    assert_eq!(resolved.ffmpeg_path(), "/bin/ffmpeg");
    assert_eq!(resolved.ffprobe_path(), "/bin/ffprobe");
    assert_eq!(resolved.imagemagick_path(), some("/bin/magick"));
    let mut config = ProgramPathConfig::new(None, some("x"), None, some("y"), None);
    config.with_resolved_paths();
    assert_eq!(config.ffmpeg_path(), "x");
    assert_eq!(config.scenedetect_path(), some("y"));
    let copy = config.duplicate();
    assert_eq!(copy.ffmpeg_path(), "x");
}

#[test]
fn missing_paths_are_filled_in_from_what_was_found() {
    let mut config = ProgramPathConfig::new(None, some("/opt/ffmpeg"), None, None, some("/opt/magick"));
    config.fill_missing(FoundPrograms {
        yt_dlp: some("/usr/bin/yt-dlp"),
        ffmpeg: some("/usr/bin/ffmpeg"),
        ffprobe: None,
        scenedetect: some("/usr/bin/scenedetect"),
        imagemagick: None,
    });
    assert!(!config.is_complete());
    assert_eq!(config.scenedetect_path(), some("/usr/bin/scenedetect"));
    assert_eq!(config.imagemagick_path(), some("/opt/magick"));
    config.fill_missing(FoundPrograms {
        yt_dlp: some("/other/yt-dlp"),
        ffmpeg: None,
        ffprobe: some("/usr/bin/ffprobe"),
        scenedetect: None,
        imagemagick: None,
    });
    assert!(config.is_complete());
    assert_eq!(config.yt_dlp_path(), "/usr/bin/yt-dlp");
    assert_eq!(config.ffmpeg_path(), "/opt/ffmpeg");
    assert_eq!(config.ffprobe_path(), "/usr/bin/ffprobe");
}

#[test]
fn each_program_is_searched_under_its_own_name() {
    assert_eq!(YT_DLP_PROGRAM, "yt-dlp");
    assert_eq!(FFMPEG_PROGRAM, "ffmpeg");
    assert_eq!(FFPROBE_PROGRAM, "ffprobe");
    assert_eq!(SCENEDETECT_PROGRAM, "scenedetect");
    assert_eq!(IMAGEMAGICK_PROGRAM, "magick");
    let mut config = ProgramPathConfig::default();
    config.resolve_with(|name: &str| Some(format!("/found/{name}")));
    assert_eq!(config.yt_dlp_path(), "/found/yt-dlp");
    assert_eq!(config.ffmpeg_path(), "/found/ffmpeg");
    assert_eq!(config.ffprobe_path(), "/found/ffprobe");
    assert_eq!(config.scenedetect_path(), some("/found/scenedetect"));
    assert_eq!(config.imagemagick_path(), some("/found/magick"));
}

#[test]
fn a_configured_program_is_not_searched() {
    let searched = std::cell::RefCell::new(Vec::new());
    let mut config = ProgramPathConfig::new(None, some("/opt/ffmpeg"), None, some("/opt/sd"), None);
    config.resolve_with(|name: &str| {
        searched.borrow_mut().push(name.to_string());
        if name == "ffprobe" {
            None
        } else {
            Some(format!("/found/{name}"))
        }
    });
    assert_eq!(*searched.borrow(), vec!["yt-dlp", "ffprobe", "magick"]);
    assert!(!config.is_complete());
    assert_eq!(config.scenedetect_path(), some("/opt/sd"));
    assert_eq!(config.imagemagick_path(), some("/found/magick"));
    let copy = config.duplicate();
    let mut filled = copy;
    filled.resolve_with(|name: &str| Some(format!("/late/{name}")));
    assert_eq!(filled.yt_dlp_path(), "/found/yt-dlp");
    assert_eq!(filled.ffmpeg_path(), "/opt/ffmpeg");
    assert_eq!(filled.ffprobe_path(), "/late/ffprobe");
}

#[test]
fn a_path_that_is_found_fills_a_gap_only() {
    assert_eq!(configured_or_found(some("a"), some("b")), some("a"));
    assert_eq!(configured_or_found(some("a"), None), some("a"));
    assert_eq!(configured_or_found(None, some("b")), some("b"));
    assert_eq!(configured_or_found(None, None), None);
    assert_eq!(copy_text(&some("a")), some("a"));
    assert_eq!(copy_text(&None), None);
    assert_eq!(found_or_fallback(some("a"), "b".to_string()), "a");
    assert_eq!(found_or_fallback(None, "b".to_string()), "b");
}

#[test]
fn the_cache_directory_is_the_project_directory_or_the_fallback() {
    let dir = ProjectConfig::cache_dir("/tmp/downloader-hub".to_string());
    assert!(!dir.is_empty());
    assert_eq!(ProjectConfig.get_cache_dir("/tmp/downloader-hub".to_string()), dir);
    assert_eq!(ActionsConfig::cache_dir("/tmp/downloader-hub".to_string()), dir);
    assert_eq!(ProjectConfig::config_dir(), ProjectConfig.get_config_dir());
    assert_eq!(ProjectConfig::get_project_dir().is_some(), ProjectConfig::config_dir().is_some());
}

#[test]
fn leading_slashes_are_taken_off() {
    let strip = |s: &str| strip_leading(&chars_of(s), '/').into_iter().collect::<String>();
    assert_eq!(strip("/v1/x"), "v1/x");
    assert_eq!(strip("///v1//x/"), "v1//x/");
    assert_eq!(strip("v1"), "v1");
    assert_eq!(strip("///"), "");
    assert_eq!(strip(""), "");
    for s in ["", "/", "//a/b/", "a/b", "/a"] {
        assert_eq!(strip(s), s.trim_start_matches('/'));
    }
}

#[test]
fn the_ocr_address_is_the_path_joined_to_the_base() {
    let config = endpoint(Some("https://ocr.example/api/"));
    assert_eq!(config.ocr_api_url("/v1/text"), some("https://ocr.example/api/v1/text"));
    assert_eq!(config.ocr_api_url("v1/text"), some("https://ocr.example/api/v1/text"));
    assert_eq!(config.ocr_api_url("//v1/text?x=1"), some("https://ocr.example/api/v1/text?x=1"));
    assert_eq!(config.ocr_api_url(""), some("https://ocr.example/api/"));
    let config = endpoint(Some("https://ocr.example/api"));
    assert_eq!(config.ocr_api_url("/v1/text"), some("https://ocr.example/v1/text"));
    let config = endpoint(Some("https://ocr.example/api/"));
    assert_eq!(config.ocr_api_url("../up"), some("https://ocr.example/up"));
}

#[test]
fn without_a_base_there_is_no_ocr_address() {
    assert_eq!(endpoint(None).ocr_api_url("/v1/text"), None);
    assert_eq!(endpoint(Some("not an address")).ocr_api_url("/v1/text"), None);
    let copy = endpoint(Some("https://a/")).duplicate();
    assert_eq!(copy.ocr_api_base_url, some("https://a/"));
    assert_eq!(copy.twitter_screenshot_base_url, "https://twitter.igr.ec");
}

#[test]
fn a_cell_is_written_once() {
    let mut cell: OnceConfig<u32> = OnceConfig::new();
    assert!(!cell.is_set());
    assert_eq!(cell.set(1), Ok(()));
    assert!(cell.is_set());
    assert_eq!(cell.get(), &1);
    assert_eq!(cell.set(2), Err("Config already initialized".to_string()));
    assert_eq!(cell.get(), &1);
}

#[test]
fn the_configuration_of_the_providers_is_set_once() {
    let mut cell = OnceConfig::new();
    assert_eq!(init(&mut cell, endpoint(Some("https://a/")), paths()), Ok(()));
    let config = ActionsConfig::get_global(&cell);
    assert_eq!(config.endpoints().ocr_api_base_url, some("https://a/"));
    assert_eq!(config.dependency_paths().ffmpeg_path(), "/bin/ffmpeg");
    assert_eq!(
        init(&mut cell, endpoint(None), ProgramPathConfig::default()),
        Err("Config already initialized".to_string())
    );
    assert_eq!(ActionsConfig::get_global(&cell).endpoints().ocr_api_base_url, some("https://a/"));
}

#[test]
fn the_configuration_of_the_tasks_is_set_once() {
    let mut cell = OnceConfig::new();
    assert_eq!(
        downloader_hub::tasks::init(&mut cell, TaskConfig { yt_dlp_update_interval: Some(60) }),
        Ok(())
    );
    assert_eq!(
        downloader_hub::tasks::init(&mut cell, TaskConfig { yt_dlp_update_interval: None }),
        Err("Config already initialized".to_string())
    );
    assert_eq!(TaskConfig::get_global(&cell).yt_dlp_update_interval, Some(60));
}

#[test]
fn the_configuration_of_the_helpers_is_set_once() {
    let mut cell = OnceConfig::new();
    assert!(HelpersConfig::init_global(&mut cell, HelpersConfig { dependency_paths: paths() }).is_ok());
    assert_eq!(
        HelpersConfig::init_global(
            &mut cell,
            HelpersConfig { dependency_paths: ProgramPathConfig::default() }
        ),
        Err("Config already initialized".to_string())
    );
    let helpers = HelpersConfig::get_global(&cell);
    assert_eq!(helpers.dependency_paths().yt_dlp_path(), "/bin/yt-dlp");
    assert!(!helpers.get_cache_dir("/tmp/x".to_string()).is_empty());
}

#[test]
fn the_server_sets_every_configuration_at_startup() {
    let mut globals = Globals::new();
    assert_eq!(downloader_hub::hub::Config::init_parsed(hub_config(), &mut globals), Ok(()));
    assert_eq!(globals.actions.get().dependency_paths().ffmpeg_path(), "/bin/ffmpeg");
    assert_eq!(globals.helpers.get().dependency_paths().ffprobe_path(), "/bin/ffprobe");
    assert_eq!(globals.tasks.get().yt_dlp_update_interval, Some(86_400));
    let config = downloader_hub::hub::Config::global(&globals.config);
    assert_eq!(config.server().database_url, "sqlite::memory:");
    assert_eq!(
        downloader_hub::hub::Config::init_parsed(hub_config(), &mut globals),
        Err("Config already initialized".to_string())
    );
}

#[test]
fn startup_fails_where_a_configuration_is_set_already() {
    let mut globals: Globals<downloader_hub::hub::Config> = Globals::new();
    assert!(globals.tasks.set(TaskConfig { yt_dlp_update_interval: Some(1) }).is_ok());
    assert!(downloader_hub::hub::Config::init_parsed(hub_config(), &mut globals).is_err());
    assert!(globals.actions.is_set());
    assert!(globals.helpers.is_set());
    assert_eq!(globals.tasks.get().yt_dlp_update_interval, Some(1));
    assert!(!globals.config.is_set());
}

#[test]
fn the_bot_sets_every_configuration_at_startup() {
    let mut globals = Globals::new();
    assert_eq!(downloader_hub::bot_config::Config::init_parsed(bot_config(), &mut globals), Ok(()));
    let config = downloader_hub::bot_config::Config::global(&globals.config);
    assert_eq!(config.bot().api_url, "https://api.telegram.org");
    assert_eq!(config.bot().owner_link, some("https://t.me/someone"));
    assert_eq!(globals.actions.get().endpoints().ocr_api_base_url, some("https://ocr.example/"));
    assert!(downloader_hub::bot_config::Config::init_parsed(bot_config(), &mut globals).is_err());
}

#[test]
fn resolving_the_paths_of_a_program_changes_nothing_else() {
    let resolved = hub_config().resolve_paths();
    assert_eq!(resolved.server.database_url, "sqlite::memory:");
    assert_eq!(resolved.dependency_paths.yt_dlp_path(), "/bin/yt-dlp");
    assert_eq!(resolved.task.yt_dlp_update_interval, Some(86_400));
    let resolved = bot_config().resolve_paths();
    assert_eq!(resolved.bot.bot_token, "SECRET-REDACTED");
    assert_eq!(resolved.endpoint.ocr_api_base_url, some("https://ocr.example/"));
    let copy = bot_config().duplicate();
    assert_eq!(copy.bot.api_url, "https://api.telegram.org");
    let copy = hub_config().duplicate();
    assert_eq!(copy.server.database_url, "sqlite::memory:");
}

#[test]
fn a_configuration_is_written_out_as_json_or_toml() {
    assert_ne!(DumpConfigType::Json, DumpConfigType::Toml);
}
