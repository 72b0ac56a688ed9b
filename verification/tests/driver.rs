use std::path::PathBuf;

use playwright_driver::cli::{
    find_playwright_in_node_modules, try_bundled_cli, try_cli_js_env, try_driver_path_env, try_npm,
    try_user_cache_cli, try_user_cache_cli_in, CliProgress, CliSearch,
};
use playwright_driver::deno::{
    find_deno_executable, try_common_locations, try_home_directory, try_install_root,
    try_printed_path, try_search_path, DenoProgress,
};
use playwright_driver::driver::{get_driver_executable, DriverProgress};
use playwright_driver::error::Error;
use playwright_driver::host::{
    user_directory, Answer, BuildInfo, CommandLine, CommandOutput, Os, Question, UserDirectory,
};
use playwright_driver::location::{to_strings, Location, Root};
use playwright_driver::probe::{Probe, ProbeProgress, Progress};

const MISSING_DENO: &str =
    "Deno executable not found. Install Deno 2.x (https://deno.com) or add it to PATH.";

fn to_path(location: &Location) -> PathBuf {
    let root = match &location.root {
        Root::Text(path) => PathBuf::from(path),
        Root::Directory(path) => path.clone(),
    };
    location.joined.iter().fold(root, |path, component| path.join(component))
}

/// The starting point and the components, with a bar between them.
fn shown(location: &Location) -> String {
    let mut text = match &location.root {
        Root::Text(path) => path.clone(),
        Root::Directory(path) => format!("<{}>", path.display()),
    };
    for component in &location.joined {
        text = format!("{}|{}", text, component);
    }
    text
}

fn no_build() -> BuildInfo {
    BuildInfo { cli_js: None, driver_dir: None, driver_version: None, driver_platform: None }
}

fn full_build() -> BuildInfo {
    BuildInfo {
        cli_js: Some("/bundle/cli.js".to_string()),
        driver_dir: Some("/bundle".to_string()),
        driver_version: Some("1.60.0".to_string()),
        driver_platform: Some("linux".to_string()),
    }
}

/// The candidates of an attempt, first to last.
fn candidates(progress: ProbeProgress) -> Vec<String> {
    match progress {
        Progress::Pending(probe) => {
            let mut list = vec![shown(&probe.candidate)];
            list.extend(probe.rest.iter().map(shown));
            list
        }
        Progress::Settled(found) => {
            assert!(found.is_none());
            vec![]
        }
    }
}

/// Runs an attempt to its end on the file system of this machine.
fn settle(progress: ProbeProgress) -> Option<PathBuf> {
    let mut progress = progress;
    loop {
        match progress {
            Progress::Pending(probe) => {
                let exists = to_path(&probe.candidate).exists();
                progress = probe.resume(exists);
            }
            Progress::Settled(found) => return found.map(|location| to_path(&location)),
        }
    }
}

/// A machine with known answers, which remembers what it was asked.
struct Machine {
    existing: Vec<&'static str>,
    variables: Vec<(&'static str, &'static str)>,
    outputs: Vec<(&'static str, bool, &'static str)>,
    cache: Option<&'static str>,
    home: Option<&'static str>,
    asked: Vec<String>,
}

impl Machine {
    fn new() -> Machine {
        Machine {
            existing: vec![],
            variables: vec![],
            outputs: vec![],
            cache: None,
            home: None,
            asked: vec![],
        }
    }

    fn answer(&mut self, question: &Question<'_>) -> Answer {
        match question {
            Question::Exists(location) => {
                let path = shown(location);
                self.asked.push(format!("exists {}", path));
                Answer::Exists(self.existing.iter().any(|known| *known == path))
            }
            Question::Directory(UserDirectory::Cache) => {
                self.asked.push("cache".to_string());
                Answer::Directory(self.cache.map(PathBuf::from))
            }
            Question::Directory(UserDirectory::Home) => {
                self.asked.push("home".to_string());
                Answer::Directory(self.home.map(PathBuf::from))
            }
            Question::Variable(name) => {
                self.asked.push(format!("variable {}", name));
                let found = self.variables.iter().find(|(known, _)| known == name);
                Answer::Variable(found.map(|(_, value)| value.to_string()))
            }
            Question::Output(command) => {
                let line = format!("{} {}", command.program, command.args.join(" "));
                self.asked.push(format!("run {}", line));
                let found = self.outputs.iter().find(|(known, _, _)| *known == line);
                Answer::Output(found.map(|(_, success, stdout)| CommandOutput {
                    success: *success,
                    stdout: stdout.as_bytes().to_vec(),
                }))
            }
        }
    }

    fn driver(&mut self, build: BuildInfo, os: Os) -> Result<(String, String), Error> {
        let mut progress: DriverProgress = Progress::Pending(get_driver_executable(build, os));
        loop {
            match progress {
                Progress::Pending(search) => {
                    let answer = self.answer(&search.question());
                    progress = search.resume(answer);
                }
                Progress::Settled(result) => {
                    return result.map(|(deno, cli)| (shown(&deno), shown(&cli)));
                }
            }
        }
    }

    fn deno(&mut self, os: Os) -> Result<String, Error> {
        let mut progress: DenoProgress = Progress::Pending(find_deno_executable(os));
        loop {
            match progress {
                Progress::Pending(search) => {
                    let answer = self.answer(&search.question());
                    progress = search.resume(answer);
                }
                Progress::Settled(result) => return result.map(|deno| shown(&deno)),
            }
        }
    }

    fn cli(&mut self, build: BuildInfo) -> Option<String> {
        let mut progress: CliProgress = Progress::Pending(CliSearch::start(build));
        loop {
            match progress {
                Progress::Pending(search) => {
                    let answer = self.answer(&search.question());
                    progress = search.resume(answer);
                }
                Progress::Settled(found) => return found.map(|cli| shown(&cli)),
            }
        }
    }
}

/// Asks this machine for what a test may ask it: its files and the directories of its user.
fn ask_here(question: &Question<'_>) -> Answer {
    match question {
        Question::Exists(location) => Answer::Exists(to_path(location).exists()),
        Question::Directory(which) => user_directory(*which),
        Question::Variable(_) => Answer::Variable(None),
        Question::Output(_) => Answer::Output(None),
    }
}

fn os_here() -> Os {
    if std::path::MAIN_SEPARATOR == '\\' {
        Os::Windows
    } else {
        Os::Linux
    }
}

#[test]
fn test_find_deno_executable() {
    let mut progress: DenoProgress = Progress::Pending(find_deno_executable(os_here()));
    let result = loop {
        match progress {
            Progress::Pending(search) => {
                let answer = ask_here(&search.question());
                progress = search.resume(answer);
            }
            Progress::Settled(result) => break result,
        }
    };
    match result {
        Ok(deno_path) => {
            println!("Found deno at: {:?}", deno_path);
            assert!(to_path(&deno_path).exists());
        }
        Err(e) => {
            println!("Deno not found (expected if Deno not installed): {:?}", e);
        }
    }
}

#[test]
fn test_get_driver_executable() {
    let mut progress: DriverProgress =
        Progress::Pending(get_driver_executable(no_build(), os_here()));
    let result = loop {
        match progress {
            Progress::Pending(search) => {
                let answer = ask_here(&search.question());
                progress = search.resume(answer);
            }
            Progress::Settled(result) => break result,
        }
    };
    match result {
        Ok((deno, cli)) => {
            println!("Found Playwright driver:");
            println!("  Deno: {:?}", deno);
            println!("  CLI:  {:?}", cli);
            assert!(to_path(&deno).exists());
            assert!(to_path(&cli).exists());
        }
        Err(Error::ServerNotFound) => {
            println!("Playwright driver not found (expected in some environments)");
            println!(
                "This is OK - driver will be bundled at build time or can be installed via npm"
            );
        }
        Err(Error::LaunchFailed(msg)) => {
            println!("Deno not found (expected in some environments): {msg}");
        }
    }
}

#[test]
fn test_bundled_cli_detection() {
    let result = settle(try_bundled_cli(&no_build()));
    match result {
        Some(cli) => {
            println!("Found bundled driver cli.js: {:?}", cli);
            assert!(cli.exists());
        }
        None => {
            println!("No bundled driver (expected during development)");
        }
    }
}

#[test]
fn try_user_cache_cli_in_resolves_when_files_present() {
    let temp = tempfile::tempdir().unwrap();
    let mut builder = tempfile::Builder::new();
    builder.rand_bytes(0);
    let rust = builder.prefix("playwright-rust").tempdir_in(temp.path()).unwrap();
    let version = builder.prefix("1.60.0").tempdir_in(rust.path()).unwrap();
    let driver = builder.prefix("playwright-1.60.0-linux").tempdir_in(version.path()).unwrap();
    let package = builder.prefix("package").tempdir_in(driver.path()).unwrap();
    let file = builder.prefix("cli.js").tempfile_in(package.path()).unwrap();

    let cli = settle(try_user_cache_cli_in(temp.path().to_path_buf(), "1.60.0", "linux")).unwrap();
    assert!(cli.exists());
    assert_eq!(cli, file.path());
}

#[test]
fn try_user_cache_cli_in_returns_none_when_absent() {
    let temp = tempfile::tempdir().unwrap();
    let result = settle(try_user_cache_cli_in(temp.path().to_path_buf(), "1.60.0", "linux"));
    assert!(result.is_none());
}

#[test]
fn bundled_driver_dir_lives_under_out_dir() {
    // The default download location: OUT_DIR of the build.
    let sep = std::path::MAIN_SEPARATOR;
    let driver_dir = format!(
        "{sep}work{sep}target{sep}debug{sep}build{sep}playwright-rs-0a1b2c3d{sep}out{sep}driver"
    );
    let build = BuildInfo {
        cli_js: None,
        driver_dir: Some(driver_dir),
        driver_version: None,
        driver_platform: None,
    };
    let dir = match try_bundled_cli(&build) {
        Progress::Pending(probe) => to_path(&probe.candidate).display().to_string(),
        Progress::Settled(found) => panic!("unexpected: {:?}", found),
    };
    let build_marker = format!("{sep}build{sep}playwright-rs");
    let out_marker = format!("{sep}out{sep}");
    assert!(
        dir.contains(&build_marker) && dir.contains(&out_marker),
        "PLAYWRIGHT_DRIVER_DIR should sit under target/<profile>/build/playwright-rs-<hash>/out, got: {dir}"
    );
}

#[test]
fn bundled_cli_is_found_in_the_recorded_directory() {
    let temp = tempfile::tempdir().unwrap();
    let mut builder = tempfile::Builder::new();
    builder.rand_bytes(0);
    let package = builder.prefix("package").tempdir_in(temp.path()).unwrap();
    let file = builder.prefix("cli.js").tempfile_in(package.path()).unwrap();
    let build = BuildInfo {
        cli_js: Some(temp.path().join("elsewhere.js").display().to_string()),
        driver_dir: Some(temp.path().display().to_string()),
        driver_version: None,
        driver_platform: None,
    };
    assert_eq!(settle(try_bundled_cli(&build)), Some(file.path().to_path_buf()));
}

#[test]
fn each_source_offers_its_candidates() {
    assert_eq!(candidates(try_bundled_cli(&no_build())), Vec::<String>::new());
    assert_eq!(
        candidates(try_bundled_cli(&full_build())),
        vec!["/bundle/cli.js", "/bundle|package|cli.js"]
    );
    let cache = Some(PathBuf::from("/cache"));
    assert_eq!(
        candidates(try_user_cache_cli(cache.clone(), &full_build())),
        vec!["</cache>|playwright-rust|1.60.0|playwright-1.60.0-linux|package|cli.js"]
    );
    assert_eq!(candidates(try_user_cache_cli(None, &full_build())), Vec::<String>::new());
    let mut build = full_build();
    build.driver_version = None;
    assert_eq!(candidates(try_user_cache_cli(cache.clone(), &build)), Vec::<String>::new());
    build = full_build();
    build.driver_platform = None;
    assert_eq!(candidates(try_user_cache_cli(cache, &build)), Vec::<String>::new());
    assert_eq!(
        candidates(try_driver_path_env(Some("/driver".to_string()))),
        vec!["/driver|package|cli.js"]
    );
    assert_eq!(candidates(try_driver_path_env(None)), Vec::<String>::new());
    assert_eq!(candidates(try_cli_js_env(Some("/x/cli.js".to_string()))), vec!["/x/cli.js"]);
    assert_eq!(candidates(try_cli_js_env(None)), Vec::<String>::new());
    assert_eq!(
        candidates(find_playwright_in_node_modules("/nm")),
        vec!["/nm|playwright|cli.js", "/nm|@playwright|test|cli.js"]
    );
}

#[test]
fn npm_output_is_decoded_and_trimmed() {
    let printed = CommandOutput { success: true, stdout: b"  /opt/n\xc3\xa4h\xff \r\n".to_vec() };
    assert_eq!(
        candidates(try_npm(Some(printed))),
        vec!["/opt/n\u{e4}h\u{fffd}|playwright|cli.js", "/opt/n\u{e4}h\u{fffd}|@playwright|test|cli.js"]
    );
    let failed = CommandOutput { success: false, stdout: b"/opt\n".to_vec() };
    assert_eq!(candidates(try_npm(Some(failed))), Vec::<String>::new());
    assert_eq!(candidates(try_npm(None)), Vec::<String>::new());
    let empty = CommandOutput { success: true, stdout: vec![] };
    assert_eq!(
        candidates(try_npm(Some(empty))),
        vec!["|playwright|cli.js", "|@playwright|test|cli.js"]
    );
}

#[test]
fn each_source_of_deno_offers_its_candidates() {
    assert_eq!(candidates(try_printed_path(" /usr/bin/deno\n")), vec!["/usr/bin/deno"]);
    assert_eq!(
        candidates(try_printed_path("C:\\a\\deno.exe\r\nC:\\b\\deno.exe\r\n")),
        vec!["C:\\a\\deno.exe"]
    );
    assert_eq!(candidates(try_printed_path(" \r\n\t")), Vec::<String>::new());
    let printed = CommandOutput { success: true, stdout: b"/b\xff/deno\n".to_vec() };
    assert_eq!(candidates(try_search_path(Some(printed))), vec!["/b\u{fffd}/deno"]);
    let failed = CommandOutput { success: false, stdout: b"/usr/bin/deno\n".to_vec() };
    assert_eq!(candidates(try_search_path(Some(failed))), Vec::<String>::new());
    assert_eq!(candidates(try_search_path(None)), Vec::<String>::new());
    assert_eq!(
        candidates(try_install_root(Os::Linux, Some("/root".to_string()))),
        vec!["/root|bin|deno"]
    );
    assert_eq!(
        candidates(try_install_root(Os::Windows, Some("R".to_string()))),
        vec!["R|bin|deno.exe"]
    );
    assert_eq!(candidates(try_install_root(Os::Other, None)), Vec::<String>::new());
    assert_eq!(
        candidates(try_home_directory(Os::Other, Some(PathBuf::from("/home/a")))),
        vec!["</home/a>|.deno|bin|deno"]
    );
    assert_eq!(candidates(try_home_directory(Os::Other, None)), Vec::<String>::new());
    assert_eq!(
        candidates(try_common_locations(Os::Linux)),
        vec![
            "/usr/local/bin/deno",
            "/usr/bin/deno",
            "/opt/homebrew/bin/deno",
            "/opt/local/bin/deno"
        ]
    );
    assert_eq!(
        candidates(try_common_locations(Os::Windows)),
        vec![
            "C:\\Program Files\\deno\\deno.exe",
            "C:\\ProgramData\\chocolatey\\bin\\deno.exe"
        ]
    );
}

#[test]
fn sources_are_asked_in_order() {
    let mut machine = Machine::new();
    machine.cache = Some("/cache");
    machine.home = Some("/home/a");
    machine.variables = vec![
        ("PLAYWRIGHT_DRIVER_PATH", "/dp"),
        ("PLAYWRIGHT_CLI_JS", "/cj/cli.js"),
        ("DENO_INSTALL", "/di"),
    ];
    machine.outputs = vec![
        ("npm root -g", true, "/global\n"),
        ("npm root", true, "/local\n"),
        ("which deno", true, "/path/deno\n"),
    ];
    machine.existing = vec!["/local|@playwright|test|cli.js", "/opt/local/bin/deno"];
    let found = machine.driver(full_build(), Os::Linux).unwrap();
    assert_eq!(
        found,
        (
            "/opt/local/bin/deno".to_string(),
            "/local|@playwright|test|cli.js".to_string()
        )
    );
    let asked: Vec<&str> = machine.asked.iter().map(|q| q.as_str()).collect();
    assert_eq!(
        asked,
        vec![
            "exists /bundle/cli.js",
            "exists /bundle|package|cli.js",
            "cache",
            "exists </cache>|playwright-rust|1.60.0|playwright-1.60.0-linux|package|cli.js",
            "variable PLAYWRIGHT_DRIVER_PATH",
            "exists /dp|package|cli.js",
            "variable PLAYWRIGHT_CLI_JS",
            "exists /cj/cli.js",
            "run npm root -g",
            "exists /global|playwright|cli.js",
            "exists /global|@playwright|test|cli.js",
            "run npm root",
            "exists /local|playwright|cli.js",
            "exists /local|@playwright|test|cli.js",
            "run which deno",
            "exists /path/deno",
            "variable DENO_INSTALL",
            "exists /di|bin|deno",
            "home",
            "exists </home/a>|.deno|bin|deno",
            "exists /usr/local/bin/deno",
            "exists /usr/bin/deno",
            "exists /opt/homebrew/bin/deno",
            "exists /opt/local/bin/deno",
        ]
    );
    assert_eq!(machine.asked.len(), 24);
}

#[test]
fn earlier_sources_win() {
    let mut machine = Machine::new();
    machine.cache = Some("/cache");
    machine.variables =
        vec![("PLAYWRIGHT_DRIVER_PATH", "/dp"), ("PLAYWRIGHT_CLI_JS", "/cj/cli.js")];
    machine.outputs = vec![("npm root -g", true, "/global\n"), ("npm root", true, "/local\n")];
    let order = vec![
        "/bundle/cli.js",
        "/bundle|package|cli.js",
        "</cache>|playwright-rust|1.60.0|playwright-1.60.0-linux|package|cli.js",
        "/dp|package|cli.js",
        "/cj/cli.js",
        "/global|playwright|cli.js",
        "/global|@playwright|test|cli.js",
        "/local|playwright|cli.js",
        "/local|@playwright|test|cli.js",
    ];
    for first in 0..order.len() {
        machine.existing = order[first..].to_vec();
        assert_eq!(machine.cli(full_build()), Some(order[first].to_string()));
    }
    machine.existing = vec![];
    assert_eq!(machine.cli(full_build()), None);
}

#[test]
fn bundled_driver_is_primary() {
    let mut machine = Machine::new();
    machine.existing = vec!["/bundle/cli.js", "/cj/cli.js"];
    machine.variables = vec![("PLAYWRIGHT_CLI_JS", "/cj/cli.js")];
    assert_eq!(machine.cli(full_build()), Some("/bundle/cli.js".to_string()));
    assert_eq!(machine.asked, vec!["exists /bundle/cli.js"]);
}

#[test]
fn npm_is_the_last_resort() {
    let mut machine = Machine::new();
    machine.existing = vec!["/cj/cli.js"];
    machine.variables = vec![("PLAYWRIGHT_CLI_JS", "/cj/cli.js")];
    machine.outputs = vec![("npm root -g", true, "/global")];
    assert_eq!(machine.cli(no_build()), Some("/cj/cli.js".to_string()));
    assert!(machine.asked.iter().all(|question| !question.starts_with("run npm")));
}

#[test]
fn missing_driver_is_reported_before_missing_deno() {
    let mut machine = Machine::new();
    assert!(matches!(machine.driver(no_build(), Os::Linux), Err(Error::ServerNotFound)));
    assert_eq!(
        machine.asked,
        vec![
            "cache",
            "variable PLAYWRIGHT_DRIVER_PATH",
            "variable PLAYWRIGHT_CLI_JS",
            "run npm root -g",
            "run npm root"
        ]
    );
}

#[test]
fn missing_deno_is_reported() {
    let mut machine = Machine::new();
    machine.existing = vec!["/bundle/cli.js"];
    match machine.driver(full_build(), Os::Other) {
        Err(Error::LaunchFailed(message)) => assert_eq!(message, MISSING_DENO),
        other => panic!("unexpected: {:?}", other),
    }
}

#[test]
fn deno_is_found_in_the_order_of_its_sources() {
    let mut machine = Machine::new();
    machine.home = Some("H");
    machine.variables = vec![("DENO_INSTALL", "D")];
    machine.outputs = vec![("where deno", true, "P\\deno.exe\r\nQ\\deno.exe\r\n")];
    let order = vec![
        "P\\deno.exe",
        "D|bin|deno.exe",
        "<H>|.deno|bin|deno.exe",
        "C:\\Program Files\\deno\\deno.exe",
        "C:\\ProgramData\\chocolatey\\bin\\deno.exe",
    ];
    for first in 0..order.len() {
        machine.existing = order[first..].to_vec();
        assert_eq!(machine.deno(Os::Windows).unwrap(), order[first]);
    }
    machine.existing = vec!["Q\\deno.exe"];
    match machine.deno(Os::Windows) {
        Err(Error::LaunchFailed(message)) => assert_eq!(message, MISSING_DENO),
        other => panic!("unexpected: {:?}", other),
    }
}

#[test]
fn an_answer_to_another_question_changes_nothing() {
    let search = get_driver_executable(full_build(), Os::Linux);
    let search = match search.resume(Answer::Variable(Some("/x".to_string()))) {
        Progress::Pending(search) => search,
        Progress::Settled(result) => panic!("unexpected: {:?}", result),
    };
    match search.question() {
        Question::Exists(location) => assert_eq!(shown(location), "/bundle/cli.js"),
        other => panic!("unexpected: {:?}", other),
    }
}

#[test]
fn what_is_found_was_confirmed_on_a_changing_machine() {
    let build = BuildInfo {
        cli_js: Some("/a".to_string()),
        driver_dir: None,
        driver_version: None,
        driver_platform: None,
    };
    let mut progress: DriverProgress = Progress::Pending(get_driver_executable(build, Os::Linux));
    let answers = vec![
        Answer::Exists(false),
        Answer::Directory(None),
        Answer::Variable(None),
        Answer::Variable(Some("/a".to_string())),
        Answer::Exists(true),
        Answer::Output(None),
        Answer::Variable(Some("/d".to_string())),
        Answer::Exists(true),
    ];
    for answer in answers {
        progress = match progress {
            Progress::Pending(search) => search.resume(answer),
            settled => settled,
        };
    }
    match progress {
        Progress::Settled(Ok((deno, cli))) => {
            assert_eq!(shown(&deno), "/d|bin|deno");
            assert_eq!(shown(&cli), "/a");
        }
        other => panic!("unexpected: {:?}", other),
    }
}

#[test]
fn directories_of_the_user_are_those_of_the_process() {
    match user_directory(UserDirectory::Cache) {
        Answer::Directory(directory) => assert_eq!(directory, dirs::cache_dir()),
        other => panic!("unexpected: {:?}", other),
    }
    match user_directory(UserDirectory::Home) {
        Answer::Directory(directory) => assert_eq!(directory, dirs::home_dir()),
        other => panic!("unexpected: {:?}", other),
    }
}

#[test]
fn candidates_are_probed_in_order() {
    let list = vec![
        Location::text("/one".to_string()),
        Location::directory(PathBuf::from("/two")).join("x"),
        Location::text("/three".to_string()),
    ];
    let probe = match Probe::over(list) {
        Progress::Pending(probe) => probe,
        Progress::Settled(found) => panic!("unexpected: {:?}", found),
    };
    assert_eq!(shown(&probe.candidate), "/one");
    let probe = match probe.resume(false) {
        Progress::Pending(probe) => probe,
        Progress::Settled(found) => panic!("unexpected: {:?}", found),
    };
    assert_eq!(shown(&probe.candidate), "</two>|x");
    match probe.resume(true) {
        Progress::Settled(Some(found)) => assert_eq!(shown(&found), "</two>|x"),
        other => panic!("unexpected: {:?}", other),
    }
    assert!(matches!(Probe::over(vec![]), Progress::Settled(None)));
}

#[test]
fn command_lines_hold_their_arguments() {
    let command = CommandLine::new("npm", &["root", "-g"]);
    assert_eq!(command.program, "npm");
    assert_eq!(command.args, vec!["root", "-g"]);
    assert_eq!(to_strings(&[]), Vec::<String>::new());
}
