//! The arduino-cli daemon the helper spawns and owns: where its binary is, how
//! it is started, where it is dialed, and what each startup failure reports.
//! The process itself, the connection and the `Create`/`Init` handshake are run
//! by the host; this module decides their parameters and outcomes.

use vstd::prelude::*;
use crate::error::{Error, ErrorView};
use crate::grpc::cli::Instance;
use crate::resource::{join, spec_path_join};
use crate::text::{decimal, decimal_string, owned};

verus! {

/// The platform the helper was built for, which picks the bundled binary.
#[derive(Debug, Clone, Copy, PartialEq, Eq, Structural)]
pub enum Platform {
    Windows,
    MacOs,
    Linux,
}

/// The per-platform directory and executable name of the bundled arduino-cli.
pub open spec fn spec_bundled_parts(platform: Platform) -> (Seq<char>, Seq<char>) {
    match platform {
        Platform::Windows => ("arduino-cli_win_64bit"@, "arduino-cli.exe"@),
        Platform::MacOs => ("arduino-cli_mac_arm64"@, "arduino-cli"@),
        Platform::Linux => ("arduino-cli_linux_64bit"@, "arduino-cli"@),
    }
}

/// `<manifest_dir>/arduino-cli-binaries/<dir>/<exe>`.
pub open spec fn spec_bundled_cli_path(platform: Platform, manifest_dir: Seq<char>) -> Seq<char> {
    spec_path_join(
        spec_path_join(spec_path_join(manifest_dir, "arduino-cli-binaries"@), spec_bundled_parts(platform).0),
        spec_bundled_parts(platform).1,
    )
}

/// Dev default: the arduino-cli vendored in the crate's `arduino-cli-binaries/`
/// (under the crate directory `manifest_dir`), so an in-tree run works.
/// Packaged builds pass an explicit path instead.
pub fn bundled_cli_path(platform: Platform, manifest_dir: &str) -> (r: String)
    ensures
        r@ == spec_bundled_cli_path(platform, manifest_dir@),
{
    let (dir, exe) = match platform {
        Platform::Windows => ("arduino-cli_win_64bit", "arduino-cli.exe"),
        Platform::MacOs => ("arduino-cli_mac_arm64", "arduino-cli"),
        Platform::Linux => ("arduino-cli_linux_64bit", "arduino-cli"),
    };
    let base = join(&owned(manifest_dir), &owned("arduino-cli-binaries"));
    join(&join(&base, &owned(dir)), &owned(exe))
}

/// The arduino-cli to run: the caller's explicit override, verbatim, when
/// given; else the bundled dev default.
pub fn resolve_cli_path(override_path: Option<String>, platform: Platform, manifest_dir: &str) -> (r: String)
    ensures
        match override_path {
            Some(p) => r@ == p@,
            None => r@ == spec_bundled_cli_path(platform, manifest_dir@),
        },
{
    match override_path {
        Some(p) => p,
        None => bundled_cli_path(platform, manifest_dir),
    }
}

/// The daemon's arguments: serve gRPC on `port`, and (since the helper owns the
/// daemon's lifecycle) `--daemonize`, which turns off arduino-cli's own
/// parent-death exit.
pub fn daemon_args(port: u16) -> (r: Vec<String>)
    ensures
        r@.map_values(|s: String| s@) == seq!["daemon"@, "--port"@, decimal(port as nat), "--daemonize"@],
{
    let mut args: Vec<String> = Vec::new();
    args.push(owned("daemon"));
    args.push(owned("--port"));
    args.push(decimal_string(port as u64));
    args.push(owned("--daemonize"));
    proof {
        assert(args@.map_values(|s: String| s@) =~= seq!["daemon"@, "--port"@, decimal(port as nat), "--daemonize"@]);
    }
    args
}

/// The daemon's gRPC endpoint: plain HTTP/2 on loopback.
pub fn daemon_endpoint(port: u16) -> (r: String)
    ensures
        r@ == "http://127.0.0.1:"@ + decimal(port as nat),
{
    let mut s = owned("http://127.0.0.1:");
    s.append(decimal_string(port as u64).as_str());
    s
}

/// Spawning the binary failed: a `daemon` error naming it.
pub fn spawn_error(cli_path: &String, detail: &String) -> (r: Error)
    ensures
        r@ == ErrorView::Daemon("spawn "@ + cli_path@ + ": "@ + detail@),
{
    let mut m = owned("spawn ");
    m.append(cli_path.as_str());
    m.append(": ");
    m.append(detail.as_str());
    Error::Daemon(m)
}

/// The endpoint could not be parsed: a `daemon` error.
pub fn endpoint_error(detail: &String) -> (r: Error)
    ensures
        r@ == ErrorView::Daemon("invalid daemon endpoint: "@ + detail@),
{
    let mut m = owned("invalid daemon endpoint: ");
    m.append(detail.as_str());
    Error::Daemon(m)
}

/// A connection attempt failed. Before the deadline the host retries (`None`);
/// at or past it, dialing gives up with a `daemon` error naming the port.
pub fn connect_failed(past_deadline: bool, port: u16, detail: &String) -> (r: Option<Error>)
    ensures
        past_deadline ==> (r matches Some(e) && e@ == ErrorView::Daemon(
            "daemon not reachable on port "@ + decimal(port as nat) + ": "@ + detail@,
        )),
        !past_deadline ==> r is None,
{
    if past_deadline {
        let mut m = owned("daemon not reachable on port ");
        m.append(decimal_string(port as u64).as_str());
        m.append(": ");
        m.append(detail.as_str());
        Some(Error::Daemon(m))
    } else {
        None
    }
}

/// The instance `Create` returned, or a `daemon` error when it returned none.
pub fn created_instance(instance: Option<Instance>) -> (r: Result<Instance, Error>)
    ensures
        match instance {
            Some(i) => r == Ok::<Instance, Error>(i),
            None => r matches Err(e) && e@ == ErrorView::Daemon("Create returned no instance"@),
        },
{
    match instance {
        Some(i) => Ok(i),
        None => Err(Error::Daemon(owned("Create returned no instance"))),
    }
}

} // verus!
