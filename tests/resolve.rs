use sheldon::cli::{
    from_args, Add, CompletionShell, Environment, RawCommand, RawOpt, Resolution, StartupError,
};
use sheldon::config::{
    collect_hooks, parse_hook, EditPlugin, GitProtocol, GitReference, Shell,
};
use sheldon::context::{ColorChoice, Output, Verbosity};
use sheldon::lock::LockMode;
use sheldon::paths::{join, lock_file_path, parent, resolve_paths, PathError};
use sheldon::{Command, Opt};

fn s(x: &str) -> String {
    x.to_string()
}

fn env_with_home() -> Environment {
    Environment {
        home: Some(s("/home/u")),
        config_home: None,
        data_home: None,
        stderr_is_terminal: false,
        version: s("1.2.3"),
    }
}

fn raw(command: RawCommand) -> RawOpt {
    RawOpt {
        quiet: false,
        non_interactive: false,
        verbose: false,
        color: ColorChoice::Never,
        data_dir: None,
        config_dir: None,
        config_file: None,
        profile: None,
        command,
    }
}

fn empty_add(name: &str) -> Add {
    Add {
        name: s(name),
        git: None,
        gist: None,
        github: None,
        remote: None,
        local: None,
        proto: None,
        branch: None,
        rev: None,
        tag: None,
        dir: None,
        uses: None,
        apply: None,
        profiles: None,
        hooks: None,
    }
}

fn run(r: Result<Resolution, StartupError>) -> Opt {
    match r {
        Ok(Resolution::Run(opt)) => opt,
        other => panic!("expected a command, got {:?}", other),
    }
}

#[test]
fn both_config_locations_used_verbatim() {
    let (cd, dd, cf) = resolve_paths(
        "/home/u",
        &None,
        &None,
        Some(s("/a")),
        None,
        Some(s("/b/c.toml")),
    )
    .unwrap();
    assert_eq!(cd, "/a");
    assert_eq!(cf, "/b/c.toml");
    assert_eq!(dd, "/home/u/.local/share/sheldon");
}

#[test]
fn config_dir_from_config_file() {
    let (cd, _, cf) =
        resolve_paths("/home/u", &None, &None, None, None, Some(s("/x/y.toml"))).unwrap();
    assert_eq!(cd, "/x");
    assert_eq!(cf, "/x/y.toml");
}

#[test]
fn config_file_without_parent_fails() {
    let err = resolve_paths("/home/u", &None, &None, None, None, Some(s("y.toml"))).unwrap_err();
    assert_eq!(err, PathError { path: s("y.toml") });
    assert_eq!(
        err.message(),
        "failed to get parent directory of config file path `y.toml`"
    );
}

#[test]
fn config_file_from_config_dir() {
    let (cd, dd, cf) =
        resolve_paths("/home/u", &None, &None, Some(s("/conf")), Some(s("/d")), None).unwrap();
    assert_eq!(cd, "/conf");
    assert_eq!(cf, "/conf/plugins.toml");
    assert_eq!(dd, "/d");
}

#[test]
fn defaults_under_home() {
    let (cd, dd, cf) = resolve_paths("/home/u", &None, &None, None, None, None).unwrap();
    assert_eq!(cd, "/home/u/.config/sheldon");
    assert_eq!(cf, "/home/u/.config/sheldon/plugins.toml");
    assert_eq!(dd, "/home/u/.local/share/sheldon");
}

#[test]
fn defaults_from_xdg_variables() {
    let (cd, dd, cf) = resolve_paths(
        "/home/u",
        &Some(s("/cfg")),
        &Some(s("/dat")),
        None,
        None,
        None,
    )
    .unwrap();
    assert_eq!(cd, "/cfg/sheldon");
    assert_eq!(cf, "/cfg/sheldon/plugins.toml");
    assert_eq!(dd, "/dat/sheldon");
}

#[test]
fn all_eight_path_combinations() {
    for mask in 0..8u8 {
        let config_dir = if mask & 1 != 0 { Some(s("/cd")) } else { None };
        let data_dir = if mask & 2 != 0 { Some(s("/dd")) } else { None };
        let config_file = if mask & 4 != 0 { Some(s("/f/p.toml")) } else { None };
        let (cd, dd, cf) =
            resolve_paths("/h", &None, &None, config_dir, data_dir, config_file).unwrap();
        let (want_cd, want_cf) = match (mask & 1 != 0, mask & 4 != 0) {
            (true, true) => ("/cd", "/f/p.toml"),
            (false, true) => ("/f", "/f/p.toml"),
            (true, false) => ("/cd", "/cd/plugins.toml"),
            (false, false) => ("/h/.config/sheldon", "/h/.config/sheldon/plugins.toml"),
        };
        let want_dd = if mask & 2 != 0 { "/dd" } else { "/h/.local/share/sheldon" };
        assert_eq!(cd, want_cd);
        assert_eq!(cf, want_cf);
        assert_eq!(dd, want_dd);
    }
}

#[test]
fn parent_of_paths() {
    assert_eq!(parent("/x/y.toml"), Some(s("/x")));
    assert_eq!(parent("/y.toml"), Some(s("/")));
    assert_eq!(parent("a/b/"), Some(s("a")));
    assert_eq!(parent("a//b"), Some(s("a")));
    assert_eq!(parent("y.toml"), None);
    assert_eq!(parent("/"), None);
    assert_eq!(parent(""), None);
}

#[test]
fn join_paths() {
    assert_eq!(join("/a", "b"), "/a/b");
    assert_eq!(join("/a/", "b"), "/a/b");
    assert_eq!(join("", "b"), "b");
}

#[test]
fn lock_file_by_profile() {
    assert_eq!(lock_file_path("/d", &None), "/d/plugins.lock");
    assert_eq!(lock_file_path("/d", &Some(s(""))), "/d/plugins.lock");
    assert_eq!(lock_file_path("/d", &Some(s("work"))), "/d/plugins.work.lock");
}

#[test]
fn lock_flags_table() {
    assert_eq!(LockMode::from_lock_flags(false, false), Some(LockMode::Normal));
    assert_eq!(LockMode::from_lock_flags(true, false), Some(LockMode::Update));
    assert_eq!(LockMode::from_lock_flags(false, true), Some(LockMode::Reinstall));
}

#[test]
fn source_flags_table() {
    assert_eq!(LockMode::from_source_flags(false, false, false), None);
    assert_eq!(LockMode::from_source_flags(true, false, false), Some(LockMode::Normal));
    assert_eq!(LockMode::from_source_flags(false, true, false), Some(LockMode::Update));
    assert_eq!(LockMode::from_source_flags(true, true, false), Some(LockMode::Update));
    assert_eq!(LockMode::from_source_flags(false, false, true), Some(LockMode::Reinstall));
    assert_eq!(LockMode::from_source_flags(true, false, true), Some(LockMode::Reinstall));
}

#[test]
fn git_reference_options() {
    assert_eq!(
        GitReference::from_options(Some(s("main")), None, None),
        Some(GitReference::Branch(s("main")))
    );
    assert_eq!(
        GitReference::from_options(None, Some(s("abc")), None),
        Some(GitReference::Rev(s("abc")))
    );
    assert_eq!(
        GitReference::from_options(None, None, Some(s("v1"))),
        Some(GitReference::Tag(s("v1")))
    );
    assert_eq!(GitReference::from_options(None, None, None), None);
    let first = GitReference::from_options(None, Some(s("abc")), None);
    let second = GitReference::from_options(None, Some(s("abc")), None);
    assert_eq!(first, second);
}

#[test]
fn verbosity_and_color() {
    assert_eq!(Verbosity::from_flags(true, false), Verbosity::Quiet);
    assert_eq!(Verbosity::from_flags(false, true), Verbosity::Verbose);
    assert_eq!(Verbosity::from_flags(false, false), Verbosity::Normal);
    for color in [ColorChoice::Auto, ColorChoice::Always, ColorChoice::Never] {
        for tty in [false, true] {
            assert_eq!(Output::from_flags(true, false, color, tty).verbosity, Verbosity::Quiet);
        }
    }
    assert!(ColorChoice::Auto.is_color(true));
    assert!(!ColorChoice::Auto.is_color(false));
    assert!(ColorChoice::Always.is_color(false));
    assert!(!ColorChoice::Never.is_color(true));
}

#[test]
fn hooks_keep_first_place_and_last_value() {
    let hooks = vec![
        (s("pre"), s("a")),
        (s("post"), s("b")),
        (s("pre"), s("c")),
    ];
    assert_eq!(
        collect_hooks(hooks),
        vec![(s("pre"), s("c")), (s("post"), s("b"))]
    );
    assert_eq!(collect_hooks(vec![]), vec![]);
}

#[test]
fn add_resolves_to_plugin() {
    let mut add = empty_add("foo");
    add.github = Some(s("user/repo"));
    add.branch = Some(s("main"));
    add.uses = Some(vec![s("*.plugin.zsh")]);
    let opt = run(from_args(raw(RawCommand::Add(Box::new(add))), env_with_home()));
    match opt.command {
        Command::Add { name, plugin } => {
            assert_eq!(name, "foo");
            assert_eq!(plugin.inner.github, Some(s("user/repo")));
            assert_eq!(plugin.inner.reference, Some(GitReference::Branch(s("main"))));
            assert_eq!(plugin.inner.uses, Some(vec![s("*.plugin.zsh")]));
            assert_eq!(plugin.inner.git, None);
            assert_eq!(plugin.inner.inline, None);
            assert_eq!(plugin.inner.hooks, None);
        }
        other => panic!("expected add, got {:?}", other),
    }
    assert_eq!(opt.ctx.lock_mode, None);
}

#[test]
fn add_moves_every_field() {
    let mut add = empty_add("bar");
    add.git = Some(s("https://example.com/r.git"));
    add.proto = Some(GitProtocol::Ssh);
    add.tag = Some(s("v2"));
    add.dir = Some(s("sub"));
    add.apply = Some(vec![s("source")]);
    add.profiles = Some(vec![s("work")]);
    add.hooks = Some(vec![(s("post"), s("echo"))]);
    let (name, plugin) = EditPlugin::from_add(add);
    assert_eq!(name, "bar");
    assert_eq!(plugin.inner.git, Some(s("https://example.com/r.git")));
    assert_eq!(plugin.inner.proto, Some(GitProtocol::Ssh));
    assert_eq!(plugin.inner.reference, Some(GitReference::Tag(s("v2"))));
    assert_eq!(plugin.inner.dir, Some(s("sub")));
    assert_eq!(plugin.inner.apply, Some(vec![s("source")]));
    assert_eq!(plugin.inner.profiles, Some(vec![s("work")]));
    assert_eq!(plugin.inner.hooks, Some(vec![(s("post"), s("echo"))]));
}

#[test]
fn source_update_with_profile() {
    let mut r = raw(RawCommand::Source { relock: false, update: true, reinstall: false });
    r.profile = Some(s("work"));
    let opt = run(from_args(r, env_with_home()));
    assert_eq!(opt.command, Command::Source);
    assert_eq!(opt.ctx.lock_mode, Some(LockMode::Update));
    assert!(opt.ctx.lock_file.ends_with("plugins.work.lock"));
    assert_eq!(opt.ctx.lock_file, "/home/u/.local/share/sheldon/plugins.work.lock");
    assert_eq!(opt.ctx.profile, Some(s("work")));
}

#[test]
fn missing_home_fails() {
    let mut env = env_with_home();
    env.home = None;
    let r = from_args(raw(RawCommand::Edit), env);
    assert_eq!(r, Err(StartupError::HomeDir));
    assert_eq!(
        StartupError::HomeDir.message(),
        "failed to determine the current user's home directory"
    );
}

#[test]
fn config_file_without_parent_stops_startup() {
    let mut r = raw(RawCommand::Edit);
    r.config_file = Some(s("y.toml"));
    let res = from_args(r, env_with_home());
    assert_eq!(res, Err(StartupError::Path(PathError { path: s("y.toml") })));
}

#[test]
fn config_home_variable_without_flags() {
    let mut env = env_with_home();
    env.config_home = Some(s("/cfg"));
    let opt = run(from_args(raw(RawCommand::Edit), env));
    assert_eq!(opt.ctx.config_dir, "/cfg/sheldon");
    assert_eq!(opt.ctx.config_file, "/cfg/sheldon/plugins.toml");
}

#[test]
fn context_fields() {
    let mut r = raw(RawCommand::Lock { update: false, reinstall: true });
    r.non_interactive = true;
    r.verbose = true;
    r.color = ColorChoice::Auto;
    r.data_dir = Some(s("/data"));
    let mut env = env_with_home();
    env.stderr_is_terminal = true;
    let opt = run(from_args(r, env));
    assert_eq!(opt.command, Command::Lock);
    assert_eq!(opt.ctx.version, "1.2.3");
    assert_eq!(opt.ctx.home, "/home/u");
    assert_eq!(opt.ctx.data_dir, "/data");
    assert_eq!(opt.ctx.lock_file, "/data/plugins.lock");
    assert_eq!(opt.ctx.clone_dir, "/data/repos");
    assert_eq!(opt.ctx.download_dir, "/data/downloads");
    assert_eq!(opt.ctx.lock_mode, Some(LockMode::Reinstall));
    assert!(!opt.ctx.interactive);
    assert_eq!(
        opt.ctx.output,
        Output { verbosity: Verbosity::Verbose, no_color: false }
    );
}

#[test]
fn simple_commands_pass_through() {
    let opt = run(from_args(raw(RawCommand::Init { shell: Some(Shell::Zsh) }), env_with_home()));
    assert_eq!(opt.command, Command::Init { shell: Some(Shell::Zsh) });
    let opt = run(from_args(raw(RawCommand::Remove { name: s("foo") }), env_with_home()));
    assert_eq!(opt.command, Command::Remove { name: s("foo") });
}

#[test]
fn leaf_actions_need_no_home() {
    let mut env = env_with_home();
    env.home = None;
    let r = from_args(raw(RawCommand::Completions { shell: CompletionShell::Fish }), env.clone());
    assert_eq!(r, Ok(Resolution::Completions { shell: CompletionShell::Fish }));
    let r = from_args(raw(RawCommand::Version), env);
    assert_eq!(r, Ok(Resolution::Version));
}

#[test]
fn hook_split_at_first_equals() {
    assert_eq!(parse_hook("post=echo a=b"), Some((s("post"), s("echo a=b"))));
    assert_eq!(parse_hook("=x"), Some((s(""), s("x"))));
    assert_eq!(parse_hook("post"), None);
}

#[test]
fn exclusive_options_detected() {
    assert!(raw(RawCommand::Edit).is_wf());
    let mut r = raw(RawCommand::Edit);
    r.quiet = true;
    r.verbose = true;
    assert!(!r.is_wf());
    assert!(!raw(RawCommand::Lock { update: true, reinstall: true }).is_wf());
    assert!(!raw(RawCommand::Source { relock: true, update: true, reinstall: true }).is_wf());
    assert!(raw(RawCommand::Source { relock: true, update: true, reinstall: false }).is_wf());
    let mut add = empty_add("x");
    add.branch = Some(s("a"));
    add.rev = Some(s("b"));
    assert!(!raw(RawCommand::Add(Box::new(add))).is_wf());
    let mut add = empty_add("x");
    add.tag = Some(s("t"));
    assert!(raw(RawCommand::Add(Box::new(add))).is_wf());
}
