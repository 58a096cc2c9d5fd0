//! From command line arguments to a configuration.

use vstd::prelude::*;
use crate::common::Config;
use crate::common::LogLevel;
use crate::common::MissingContainerHandling;
use crate::common::MissingEnvVarHandling;

verus! {

/// How the daemon is called, in the notation of docopt.
pub const USAGE: &'static str = "
Usage: beachhead-companion [options] [--ignore-missing-envvar] [--error-missing-container] [--] <containers>...
       beachhead-companion [options] [--error-missing-envvar] --enumerate
       beachhead-companion --help
       beachhead-companion --version

Options:
    -h, --help          Show help (this message).
    --version           Show the version of beachhead-companion.
    --verbose           Show additional diagnostic output.
    --quiet             Only show warnings and errors.
    --no-timestamp      Don't include timestamp in log messages. Used in case timestamps get added
                        externally.
    --redis-host=HOST   Hostname or IP of the Redis server [default: localhost]
    --redis-port=PORT   Port of the Redis server [default: 6379]
    --expire=SECONDS    Number of seconds after which to expire registration.
                        0 means no expiration. [default: 60]
    --refresh=SECONDS   Number of seconds after which to refresh registrations.
                        Defaults to 45% of the expiration time. At least 10 seconds.
                        0 means set once and then exit.
    --key-prefix=KEY    Key prefix to use in redis. Will be followed by container name.
                        [default: /beachhead/]
    --docker-url=URL    URL to the docker socket. [default: unix://var/run/docker.sock]
    --docker-network    Whether to use the container hostname (set) or use the bridge
                        network IP (unset/default).
    --envvar=VAR        Name of the environment variable to look for in the container.
                        [default: BEACHHEAD_DOMAINS]
    --enumerate         Ask docker daemon for list of all running containers instead of
                        passing individual container names/ids. Enumeration will be repeated
                        on each refresh (containers can come and go)
    --systemd           Enable systemd service manager notifications (READY, WATCHDOG).
    --error-missing-envvar
                        Consider `envvar` missing on a container an error. Automatically enabled
                        for containers that are listed explicitly unless --ignore-missing-envvar
                        is present.
    --ignore-missing-envvar
                        Ignore missing `envvar` environment variables. Automatically enabled on
                        containers that are not explicitly listed unless --error-missing-envvar
                        is present.
    --error-missing-container
                        Consider an explicitly listed container that is missing/not running an
                        error. Defaults to false as it isn't really beachhead-companion's job
                        to monitor your containers.
    -n, --dry-run       Don't update registrations, just check container status and configuration.
                        Ignores --quiet.

The docker container with the supplied name needs to exist and have the BEACHHEAD_DOMAINS
environment variable set (or whatever is configured).
The environment variable lists 'domain-specs' separated by spaces. A domain-spec has the format
'DOMAIN[:http[=PORT]][:https[=PORT]]'. If neither 'http' not 'https' is specified, both
are assumed. Default ports are 80 for HTTP and 443 for HTTPS. Whether HTTP/2.0 is supported
or not does not concern the beachhead. If both the 'naked' and a 'www.' domain need to be
supported, you need to add both domains to the list.

Example:
  BEACHHEAD_DOMAINS=example.org admin.example.org:https app.example.org:http=8080:https=8043
    is parsed as
  example.org with http=80, https=443
  admin.example.org with https=443
  app.example.org with http=8080 and https=8043

One way to use beachhead-companion is to supply an explicit list of container names/ids to check
for domain specifications. Alternatively, you can have beachhead-companion check all containers
via the `--enumerate` flag.

Supports more fine-grained logging control via the RUST_LOG environment variable.
See http://rust-lang-nursery.github.io/log/env_logger for details.
";

/// The command line, parsed.
#[derive(Clone, Debug)]
pub struct Args {
    pub flag_verbose: bool,
    pub flag_quiet: bool,
    pub flag_redis_host: String,
    pub flag_redis_port: u16,
    /// Lifetime of a registration in seconds; 0 for registrations that stay.
    pub flag_expire: u32,
    /// Pause between two passes in seconds; 0 for a single pass; `None`
    /// where the command line does not say.
    pub flag_refresh: Option<u32>,
    pub flag_docker_url: String,
    pub flag_envvar: String,
    pub flag_key_prefix: String,
    /// The containers that are named explicitly.
    pub arg_containers: Vec<String>,
    pub flag_docker_network: bool,
    pub flag_dry_run: bool,
    pub flag_error_missing_envvar: bool,
    pub flag_error_missing_container: bool,
    pub flag_ignore_missing_envvar: bool,
    pub flag_enumerate: bool,
    pub flag_systemd: bool,
    pub flag_no_timestamp: bool,
}

impl Default for Args {
    /// The command line that names no container and sets no option.
    fn default() -> (args: Args)
        ensures
            !args.flag_verbose,
            !args.flag_quiet,
            args.flag_redis_host@ == "localhost"@,
            args.flag_redis_port == 6379,
            args.flag_expire == 60,
            args.flag_refresh is None,
            args.flag_docker_url@ == "unix://var/run/docker.sock"@,
            args.flag_envvar@ == "BEACHHEAD_DOMAINS"@,
            args.flag_key_prefix@ == "/beachhead/"@,
            args.arg_containers@.len() == 0,
            !args.flag_docker_network,
            !args.flag_dry_run,
            !args.flag_error_missing_envvar,
            !args.flag_error_missing_container,
            !args.flag_ignore_missing_envvar,
            !args.flag_enumerate,
            !args.flag_systemd,
            !args.flag_no_timestamp,
    {
        Args {
            flag_verbose: false,
            flag_quiet: false,
            flag_redis_host: "localhost".to_owned(),
            flag_redis_port: 6379,
            flag_expire: 60,
            flag_refresh: None,
            flag_docker_url: "unix://var/run/docker.sock".to_owned(),
            flag_envvar: "BEACHHEAD_DOMAINS".to_owned(),
            flag_key_prefix: "/beachhead/".to_owned(),
            arg_containers: Vec::new(),
            flag_docker_network: false,
            flag_dry_run: false,
            flag_error_missing_envvar: false,
            flag_error_missing_container: false,
            flag_ignore_missing_envvar: false,
            flag_enumerate: false,
            flag_systemd: false,
            flag_no_timestamp: false,
        }
    }
}

/// The pause between two passes where the command line gives none: 45
/// percent of the lifetime of a registration, rounded down.
pub open spec fn default_refresh(expire: u32) -> u32 {
    (expire * 45 / 100) as u32
}

/// The arguments after the rules that tie them together have been applied:
/// `--quiet` and `--verbose` together cancel each other, a dry run is never
/// quiet, and a missing refresh interval is derived from the lifetime of a
/// registration.
pub open spec fn transformed(args: Args) -> Args {
    let cancel = args.flag_quiet && args.flag_verbose;
    Args {
        flag_quiet: args.flag_quiet && !cancel && !args.flag_dry_run,
        flag_verbose: args.flag_verbose && !cancel,
        flag_refresh: match args.flag_refresh {
            Some(refresh) => Some(refresh),
            None => Some(default_refresh(args.flag_expire)),
        },
        ..args
    }
}

/// Applies the rules that tie the arguments together.
pub fn args_transform(args: &mut Args)
    ensures
        *final(args) == transformed(*old(args)),
        final(args).flag_refresh is Some,
{
    if args.flag_quiet && args.flag_verbose {
        args.flag_quiet = false;
        args.flag_verbose = false;
    }
    if args.flag_dry_run {
        args.flag_quiet = false;
    }
    if args.flag_refresh.is_none() {
        let scaled: u64 = args.flag_expire as u64 * 45;
        args.flag_refresh = Some((scaled / 100) as u32);
    }
}

/// The policy on missing environment variables that the two flags ask for:
/// one flag alone decides, both or none leave it to the kind of container.
pub open spec fn envvar_policy(error_missing: bool, ignore_missing: bool) -> MissingEnvVarHandling {
    if error_missing == ignore_missing {
        MissingEnvVarHandling::Automatic
    } else if error_missing {
        MissingEnvVarHandling::Report
    } else {
        MissingEnvVarHandling::Ignore
    }
}

/// The configuration that transformed arguments stand for. An interval of
/// 0 seconds means that there is none.
pub open spec fn config_of(args: Args) -> Config {
    Config {
        redis_host: args.flag_redis_host,
        redis_port: args.flag_redis_port,
        key_prefix: args.flag_key_prefix,
        docker_url: args.flag_docker_url,
        enumerate: args.flag_enumerate,
        envvar: args.flag_envvar,
        dry_run: args.flag_dry_run,
        expire_seconds: if args.flag_expire == 0 {
            None
        } else {
            Some(args.flag_expire)
        },
        refresh_seconds: if args.flag_refresh->0 == 0 {
            None
        } else {
            Some(args.flag_refresh->0)
        },
        docker_network: args.flag_docker_network,
        missing_envvar: envvar_policy(
            args.flag_error_missing_envvar,
            args.flag_ignore_missing_envvar,
        ),
        missing_container: if args.flag_error_missing_container {
            MissingContainerHandling::Report
        } else {
            MissingContainerHandling::Ignore
        },
        systemd: args.flag_systemd,
        watchdog_microseconds: None,
    }
}

impl Args {
    /// Splits the arguments into the configuration and the explicit
    /// containers. The refresh interval must be settled, as it is after
    /// `args_transform`.
    pub fn deconstruct(self) -> (out: (Config, Vec<String>))
        requires
            self.flag_refresh is Some,
        ensures
            out.0 == config_of(self),
            out.1 == self.arg_containers,
    {
        let refresh: u32 = match self.flag_refresh {
            Some(refresh) => refresh,
            None => 0,
        };
        let config = Config {
            redis_host: self.flag_redis_host,
            redis_port: self.flag_redis_port,
            key_prefix: self.flag_key_prefix,
            docker_url: self.flag_docker_url,
            enumerate: self.flag_enumerate,
            envvar: self.flag_envvar,
            dry_run: self.flag_dry_run,
            expire_seconds: if self.flag_expire == 0 {
                None
            } else {
                Some(self.flag_expire)
            },
            refresh_seconds: if refresh == 0 {
                None
            } else {
                Some(refresh)
            },
            docker_network: self.flag_docker_network,
            missing_envvar: match (
                self.flag_error_missing_envvar,
                self.flag_ignore_missing_envvar,
            ) {
                (true, true) => MissingEnvVarHandling::Automatic,
                (false, false) => MissingEnvVarHandling::Automatic,
                (true, _) => MissingEnvVarHandling::Report,
                (_, true) => MissingEnvVarHandling::Ignore,
            },
            missing_container: if self.flag_error_missing_container {
                MissingContainerHandling::Report
            } else {
                MissingContainerHandling::Ignore
            },
            systemd: self.flag_systemd,
            watchdog_microseconds: None,
        };
        (config, self.arg_containers)
    }

    /// How much of the log is shown: everything down to debugging output
    /// with `--verbose`, warnings and errors only with `--quiet`, else
    /// what is of general interest.
    pub fn log_level(&self) -> (level: LogLevel)
        ensures
            level == if self.flag_verbose {
                LogLevel::Debug
            } else if self.flag_quiet {
                LogLevel::Warn
            } else {
                LogLevel::Info
            },
    {
        match (self.flag_verbose, self.flag_quiet) {
            (false, false) => LogLevel::Info,
            (true, _) => LogLevel::Debug,
            (_, true) => LogLevel::Warn,
        }
    }
}

/// Takes over what the service manager says of its watchdog: `watchdog` is
/// its answer to the question for the watchdog interval in microseconds,
/// where 0 stands for no watchdog. A configuration without service manager
/// stays as it is, and the answer is not looked at. A failed question is
/// handed back and leaves the configuration as it is.
pub fn read_systemd_config(config: &mut Config, watchdog: Result<u64, std::io::Error>) -> (result:
    Result<(), std::io::Error>)
    ensures
        match (old(config).systemd, watchdog) {
            (true, Ok(interval)) => result is Ok && *final(config) == (Config {
                watchdog_microseconds: if interval == 0 {
                    None
                } else {
                    Some(interval)
                },
                ..*old(config)
            }),
            (true, Err(error)) => result == Err::<(), std::io::Error>(error) && *final(config)
                == *old(config),
            (false, _) => result is Ok && *final(config) == *old(config),
        },
{
    if config.systemd {
        match watchdog {
            Ok(0) => {
                config.watchdog_microseconds = None;
                Ok(())
            },
            Ok(interval) => {
                config.watchdog_microseconds = Some(interval);
                Ok(())
            },
            Err(error) => Err(error),
        }
    } else {
        Ok(())
    }
}

} // verus!
