use beachhead_companion::args::{args_transform, read_systemd_config, Args, USAGE};
use beachhead_companion::common::{Config, LogLevel, MissingContainerHandling, MissingEnvVarHandling};

#[test]
fn args_quiet_verbose() {
    let mut args: Args = Default::default();
    args.flag_quiet = true;
    args.flag_verbose = true;

    args_transform(&mut args);

    assert_eq!(args.flag_quiet, false);
    assert_eq!(args.flag_verbose, false);
}

#[test]
fn args_quiet() {
    let mut args: Args = Default::default();
    args.flag_quiet = true;
    args.flag_verbose = false;

    args_transform(&mut args);

    assert_eq!(args.flag_quiet, true);
    assert_eq!(args.flag_verbose, false);
}

#[test]
fn args_verbose() {
    let mut args: Args = Default::default();
    args.flag_quiet = false;
    args.flag_verbose = true;

    args_transform(&mut args);

    assert_eq!(args.flag_quiet, false);
    assert_eq!(args.flag_verbose, true);
}

#[test]
fn args_refresh_default() {
    let mut args: Args = Default::default();
    args.flag_expire = 60;
    args.flag_refresh = None;

    args_transform(&mut args);

    assert!(args.flag_refresh.is_some(), "flag_refresh should have a default");
    assert!(
        args.flag_refresh.unwrap() < args.flag_expire,
        "flag_refresh {} must be smaller than expire (60)",
        args.flag_refresh.unwrap()
    );
    assert!(
        args.flag_refresh.unwrap() <= args.flag_expire / 2,
        "flag_refresh {} must be no more than half of expire (30)",
        args.flag_refresh.unwrap()
    );
    assert!(
        args.flag_refresh.unwrap() >= args.flag_expire / 3,
        "flag_refresh {} must be at least a third of expire (20)",
        args.flag_refresh.unwrap()
    );
}

#[test]
fn args_refresh_custom() {
    let mut args: Args = Default::default();
    args.flag_expire = 60;
    args.flag_refresh = Some(50);

    args_transform(&mut args);

    assert_eq!(args.flag_expire, 60);
    assert_eq!(args.flag_refresh, Some(50));
}

#[test]
fn default_args_valid_config() {
    let mut args: Args = Default::default();
    args_transform(&mut args);
    let args_expire = args.flag_expire;

    let (config, _) = args.deconstruct();

    assert_eq!(config.expire_seconds, Some(args_expire));
}

#[test]
fn dry_run_is_never_quiet() {
    let mut args: Args = Default::default();
    args.flag_quiet = true;
    args.flag_dry_run = true;

    args_transform(&mut args);

    assert_eq!(args.flag_quiet, false);
    assert_eq!(args.flag_verbose, false);
    assert_eq!(args.flag_dry_run, true);
}

#[test]
fn refresh_defaults_to_45_percent_of_expire() {
    for (expire, refresh) in [(60u32, 27u32), (0, 0), (1, 0), (3, 1), (100, 45), (u32::MAX, 1_932_735_282)] {
        let mut args: Args = Default::default();
        args.flag_expire = expire;
        args_transform(&mut args);
        assert_eq!(args.flag_refresh, Some(refresh), "expire {}", expire);
        assert_eq!(args.flag_expire, expire);
    }
}

#[test]
fn transform_leaves_the_other_arguments_alone() {
    let mut args: Args = Default::default();
    args.flag_redis_host = "registry.internal".to_owned();
    args.flag_redis_port = 7000;
    args.arg_containers = vec!["web".to_owned(), "db".to_owned()];
    args.flag_enumerate = true;
    args.flag_systemd = true;
    args.flag_no_timestamp = true;

    args_transform(&mut args);

    assert_eq!(args.flag_redis_host, "registry.internal");
    assert_eq!(args.flag_redis_port, 7000);
    assert_eq!(args.arg_containers, vec!["web".to_owned(), "db".to_owned()]);
    assert!(args.flag_enumerate && args.flag_systemd && args.flag_no_timestamp);
    assert_eq!(args.flag_envvar, "BEACHHEAD_DOMAINS");
    assert_eq!(args.flag_key_prefix, "/beachhead/");
    assert_eq!(args.flag_docker_url, "unix://var/run/docker.sock");
}

#[test]
fn deconstruct_carries_the_arguments_over() {
    let mut args: Args = Default::default();
    args.flag_redis_host = "registry.internal".to_owned();
    args.flag_redis_port = 7000;
    args.flag_key_prefix = "/routes/".to_owned();
    args.flag_docker_url = "tcp://10.0.0.1:2375".to_owned();
    args.flag_envvar = "ROUTES".to_owned();
    args.flag_expire = 90;
    args.flag_refresh = Some(30);
    args.flag_enumerate = true;
    args.flag_dry_run = true;
    args.flag_docker_network = true;
    args.flag_systemd = true;
    args.arg_containers = vec!["web".to_owned(), "db".to_owned()];

    let (config, containers) = args.deconstruct();

    assert_eq!(config.redis_host, "registry.internal");
    assert_eq!(config.redis_port, 7000);
    assert_eq!(config.key_prefix, "/routes/");
    assert_eq!(config.docker_url, "tcp://10.0.0.1:2375");
    assert_eq!(config.envvar, "ROUTES");
    assert_eq!(config.expire_seconds, Some(90));
    assert_eq!(config.refresh_seconds, Some(30));
    assert!(config.enumerate && config.dry_run && config.docker_network && config.systemd);
    assert_eq!(config.watchdog_microseconds, None);
    assert_eq!(containers, vec!["web".to_owned(), "db".to_owned()]);
}

#[test]
fn interval_of_zero_means_none() {
    let mut args: Args = Default::default();
    args.flag_expire = 0;
    args.flag_refresh = Some(0);
    let (config, _) = args.deconstruct();
    assert_eq!(config.expire_seconds, None);
    assert_eq!(config.refresh_seconds, None);
}

#[test]
fn envvar_flags_choose_the_policy() {
    for (error, ignore, expected) in [
        (false, false, MissingEnvVarHandling::Automatic),
        (true, true, MissingEnvVarHandling::Automatic),
        (true, false, MissingEnvVarHandling::Report),
        (false, true, MissingEnvVarHandling::Ignore),
    ] {
        let mut args: Args = Default::default();
        args.flag_refresh = Some(10);
        args.flag_error_missing_envvar = error;
        args.flag_ignore_missing_envvar = ignore;
        let (config, _) = args.deconstruct();
        assert_eq!(config.missing_envvar, expected);
    }
}

#[test]
fn container_flag_chooses_the_policy() {
    let mut args: Args = Default::default();
    args.flag_refresh = Some(10);
    let (config, _) = args.clone().deconstruct();
    assert_eq!(config.missing_container, MissingContainerHandling::Ignore);
    args.flag_error_missing_container = true;
    let (config, _) = args.deconstruct();
    assert_eq!(config.missing_container, MissingContainerHandling::Report);
}

#[test]
fn default_arguments_give_the_default_configuration() {
    let mut args: Args = Default::default();
    args_transform(&mut args);
    let (config, containers) = args.deconstruct();
    let default = Config::default();
    assert_eq!(containers.len(), 0);
    assert_eq!(config.redis_host, default.redis_host);
    assert_eq!(config.redis_port, default.redis_port);
    assert_eq!(config.key_prefix, default.key_prefix);
    assert_eq!(config.docker_url, default.docker_url);
    assert_eq!(config.enumerate, default.enumerate);
    assert_eq!(config.envvar, default.envvar);
    assert_eq!(config.dry_run, default.dry_run);
    assert_eq!(config.expire_seconds, default.expire_seconds);
    assert_eq!(config.refresh_seconds, default.refresh_seconds);
    assert_eq!(config.docker_network, default.docker_network);
    assert_eq!(config.missing_envvar, default.missing_envvar);
    assert_eq!(config.missing_container, default.missing_container);
    assert_eq!(config.systemd, default.systemd);
    assert_eq!(config.watchdog_microseconds, default.watchdog_microseconds);
}

#[test]
fn verbosity_flags_choose_the_log_level() {
    let mut args: Args = Default::default();
    assert_eq!(args.log_level(), LogLevel::Info);
    args.flag_quiet = true;
    assert_eq!(args.log_level(), LogLevel::Warn);
    args.flag_verbose = true;
    assert_eq!(args.log_level(), LogLevel::Debug);
    args.flag_quiet = false;
    assert_eq!(args.log_level(), LogLevel::Debug);
}

#[test]
fn watchdog_interval_is_taken_over() {
    let mut config = Config::default();
    config.systemd = true;
    assert!(read_systemd_config(&mut config, Ok(30_000_000)).is_ok());
    assert_eq!(config.watchdog_microseconds, Some(30_000_000));
    assert!(read_systemd_config(&mut config, Ok(0)).is_ok());
    assert_eq!(config.watchdog_microseconds, None);
}

#[test]
fn watchdog_answer_is_not_looked_at_without_service_manager() {
    let mut config = Config::default();
    config.systemd = false;
    assert!(read_systemd_config(&mut config, Ok(30_000_000)).is_ok());
    assert_eq!(config.watchdog_microseconds, None);
    let failure = std::io::Error::new(std::io::ErrorKind::Other, "no answer");
    assert!(read_systemd_config(&mut config, Err(failure)).is_ok());
    assert_eq!(config.watchdog_microseconds, None);
}

#[test]
fn failed_watchdog_question_is_handed_back() {
    let mut config = Config::default();
    config.systemd = true;
    config.watchdog_microseconds = Some(5);
    let failure = std::io::Error::new(std::io::ErrorKind::PermissionDenied, "no answer");
    match read_systemd_config(&mut config, Err(failure)) {
        Err(error) => assert_eq!(error.kind(), std::io::ErrorKind::PermissionDenied),
        Ok(()) => panic!("expected the failure"),
    }
    assert_eq!(config.watchdog_microseconds, Some(5));
}

#[test]
fn docopt_spec() {
    docopt::Docopt::new(USAGE).unwrap();
}

#[test]
fn default_arguments_are_those_of_the_usage_text() {
    let parsed = docopt::Docopt::new(USAGE)
        .unwrap()
        .argv(vec!["beachhead-companion", "--enumerate"])
        .parse()
        .unwrap();
    let args: Args = Default::default();
    assert_eq!(parsed.get_bool("--verbose"), args.flag_verbose);
    assert_eq!(parsed.get_bool("--quiet"), args.flag_quiet);
    assert_eq!(parsed.get_str("--redis-host"), args.flag_redis_host);
    assert_eq!(parsed.get_str("--redis-port"), args.flag_redis_port.to_string());
    assert_eq!(parsed.get_str("--expire"), args.flag_expire.to_string());
    assert_eq!(parsed.get_str("--refresh"), "");
    assert_eq!(args.flag_refresh, None);
    assert_eq!(parsed.get_str("--docker-url"), args.flag_docker_url);
    assert_eq!(parsed.get_str("--envvar"), args.flag_envvar);
    assert_eq!(parsed.get_str("--key-prefix"), args.flag_key_prefix);
    assert_eq!(parsed.get_vec("<containers>").len(), args.arg_containers.len());
    assert_eq!(parsed.get_bool("--docker-network"), args.flag_docker_network);
    assert_eq!(parsed.get_bool("--dry-run"), args.flag_dry_run);
    assert_eq!(parsed.get_bool("--error-missing-envvar"), args.flag_error_missing_envvar);
    assert_eq!(parsed.get_bool("--error-missing-container"), args.flag_error_missing_container);
    assert_eq!(parsed.get_bool("--ignore-missing-envvar"), args.flag_ignore_missing_envvar);
    assert_eq!(parsed.get_bool("--systemd"), args.flag_systemd);
    assert_eq!(parsed.get_bool("--no-timestamp"), args.flag_no_timestamp);
    assert_eq!(parsed.get_bool("--enumerate"), true);
    assert_eq!(args.flag_enumerate, false);
}
