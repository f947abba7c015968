//! Paths and names that depend on the deployment environment (`SOAR_ENV`).
//!
//! The environment variables are read by the caller and passed in; `None` stands for a
//! variable that is unset (or not valid Unicode).

use vstd::prelude::*;

use crate::text::str_eq;

verus! {

/// Whether the environment names a production or staging deployment.
pub open spec fn is_deployed(soar_env: Option<Seq<char>>) -> bool {
    soar_env == Some("production"@) || soar_env == Some("staging"@)
}

/// The characters of an optional string slice.
pub open spec fn opt_str(o: Option<&str>) -> Option<Seq<char>> {
    match o {
        Some(s) => Some(s@),
        None => None,
    }
}

fn env_is(soar_env: Option<&str>, name: &str) -> (r: bool)
    ensures
        r == (opt_str(soar_env) == Some(name@)),
{
    match soar_env {
        Some(e) => str_eq(e, name),
        None => false,
    }
}

/// The Unix socket path for inter-process communication.
pub open spec fn socket_path_spec(soar_env: Option<Seq<char>>, user: Option<Seq<char>>) -> Seq<char> {
    if is_deployed(soar_env) {
        "/var/run/soar/run.sock"@
    } else {
        "/tmp/soar-"@ + (match user {
            Some(u) => u,
            None => "default"@,
        }) + "/run.sock"@
    }
}

/// Get the Unix socket path for inter-process communication based on the environment:
/// production and staging use `/var/run/soar/run.sock`, any other environment a
/// per-user `/tmp/soar-{user}/run.sock` (user `default` when `USER` is unset).
pub fn socket_path(soar_env: Option<&str>, user: Option<&str>) -> (r: String)
    ensures
        r@ == socket_path_spec(opt_str(soar_env), opt_str(user)),
{
    if env_is(soar_env, "production") || env_is(soar_env, "staging") {
        String::from_str("/var/run/soar/run.sock")
    } else {
        let mut p = String::from_str("/tmp/soar-");
        match user {
            Some(u) => p.append(u),
            None => p.append("default"),
        }
        p.append("/run.sock");
        p
    }
}

/// The persistent queue directory.
pub open spec fn queue_dir_spec(
    soar_env: Option<Seq<char>>,
    xdg_data_home: Option<Seq<char>>,
    home: Option<Seq<char>>,
) -> Seq<char> {
    if is_deployed(soar_env) {
        "/var/lib/soar/queues"@
    } else {
        let data_home = match xdg_data_home {
            Some(d) => d,
            None => (match home {
                Some(h) => h,
                None => "/tmp"@,
            }) + "/.local/share"@,
        };
        data_home + "/soar/queues"@
    }
}

/// Get the persistent queue directory based on the environment: production and staging use
/// `/var/lib/soar/queues`, otherwise `$XDG_DATA_HOME/soar/queues`, with `XDG_DATA_HOME`
/// defaulting to `$HOME/.local/share` (and `HOME` to `/tmp`).
pub fn queue_dir(soar_env: Option<&str>, xdg_data_home: Option<&str>, home: Option<&str>) -> (r:
    String)
    ensures
        r@ == queue_dir_spec(opt_str(soar_env), opt_str(xdg_data_home), opt_str(home)),
{
    if env_is(soar_env, "production") || env_is(soar_env, "staging") {
        String::from_str("/var/lib/soar/queues")
    } else {
        let mut p = match xdg_data_home {
            Some(d) => String::from_str(d),
            None => {
                let mut h = match home {
                    Some(h) => String::from_str(h),
                    None => String::from_str("/tmp"),
                };
                h.append("/.local/share");
                h
            },
        };
        p.append("/soar/queues");
        p
    }
}

/// The NATS client name of a process.
pub open spec fn nats_client_name_spec(soar_env: Option<Seq<char>>, process: Seq<char>) -> Seq<char> {
    if soar_env == Some("production"@) {
        "soar-"@ + process
    } else if soar_env == Some("staging"@) {
        "soar-"@ + process + "-staging"@
    } else {
        "soar-"@ + process + "-dev"@
    }
}

/// Get the NATS client name for a given process based on the environment:
/// `soar-{process}` in production, `soar-{process}-staging` in staging and
/// `soar-{process}-dev` otherwise.
pub fn nats_client_name(soar_env: Option<&str>, process_name: &str) -> (r: String)
    ensures
        r@ == nats_client_name_spec(opt_str(soar_env), process_name@),
{
    let mut n = String::from_str("soar-");
    n.append(process_name);
    if env_is(soar_env, "production") {
    } else if env_is(soar_env, "staging") {
        n.append("-staging");
    } else {
        n.append("-dev");
    }
    n
}

/// The ingest configuration file path.
pub open spec fn ingest_config_path_spec(config: Option<Seq<char>>, soar_env: Option<Seq<char>>) -> Seq<char> {
    match config {
        Some(c) => c,
        None => if is_deployed(soar_env) {
            "/etc/soar/ingest.toml"@
        } else {
            "./ingest.toml"@
        },
    }
}

/// Resolve the ingest config file path: `SOAR_INGEST_CONFIG` when set, else
/// `/etc/soar/ingest.toml` in production and staging, else `./ingest.toml`.
pub fn ingest_config_path(soar_ingest_config: Option<&str>, soar_env: Option<&str>) -> (r: String)
    ensures
        r@ == ingest_config_path_spec(opt_str(soar_ingest_config), opt_str(soar_env)),
{
    match soar_ingest_config {
        Some(c) => String::from_str(c),
        None => if env_is(soar_env, "production") || env_is(soar_env, "staging") {
            String::from_str("/etc/soar/ingest.toml")
        } else {
            String::from_str("./ingest.toml")
        },
    }
}

/// The NATS topic prefix of live fixes.
pub open spec fn topic_prefix_spec(soar_env: Option<Seq<char>>) -> Seq<char> {
    if soar_env == Some("production"@) {
        "aircraft"@
    } else {
        "staging.aircraft"@
    }
}

/// Get the topic prefix based on the environment: `aircraft` in production,
/// `staging.aircraft` otherwise.
pub fn get_topic_prefix(soar_env: Option<&str>) -> (r: &'static str)
    ensures
        r@ == topic_prefix_spec(opt_str(soar_env)),
{
    if env_is(soar_env, "production") {
        "aircraft"
    } else {
        "staging.aircraft"
    }
}

} // verus!
