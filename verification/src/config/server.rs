//! Server options for the message broker.
//!
//! The option values arrive pre-parsed; the library's job is only to hold
//! them and to render the command-line flag string handed to the broker.
//!
//! | Option               | Description                                                        |
//! |----------------------|--------------------------------------------------------------------|
//! | `--addr`             | Host address to bind to (default: 0.0.0.0 - all interfaces).       |
//! | `--port`             | Client port (default: 4222).                                       |
//! | `--pid`              | File to store the process ID.                                      |
//! | `--http_port`        | HTTP port for the monitoring dashboard (exclusive of `--https_port`). |
//! | `--https_port`       | HTTPS port for the monitoring dashboard (exclusive of `--http_port`). |
//! | `--config`           | Path to the broker's configuration file.                           |
//! | `--client_advertise` | Client host:port to advertise to other servers.                    |

use vstd::prelude::*;

verus! {

/// The view of one decimal digit.
pub open spec fn spec_digit(d: nat) -> Seq<char> {
    if d == 0 {
        "0"@
    } else if d == 1 {
        "1"@
    } else if d == 2 {
        "2"@
    } else if d == 3 {
        "3"@
    } else if d == 4 {
        "4"@
    } else if d == 5 {
        "5"@
    } else if d == 6 {
        "6"@
    } else if d == 7 {
        "7"@
    } else if d == 8 {
        "8"@
    } else {
        "9"@
    }
}

/// The decimal rendering of `n`, most significant digit first.
pub open spec fn spec_decimal(n: nat) -> Seq<char>
    decreases n,
{
    if n < 10 {
        spec_digit(n)
    } else {
        spec_decimal(n / 10) + spec_digit(n % 10)
    }
}

fn digit_str(d: usize) -> (r: &'static str)
    requires
        d < 10,
    ensures
        r@ == spec_digit(d as nat),
{
    match d {
        0 => "0",
        1 => "1",
        2 => "2",
        3 => "3",
        4 => "4",
        5 => "5",
        6 => "6",
        7 => "7",
        8 => "8",
        _ => "9",
    }
}

/// Renders `n` in decimal.
pub fn usize_to_string(n: usize) -> (r: String)
    ensures
        r@ == spec_decimal(n as nat),
    decreases n,
{
    if n < 10 {
        String::from_str(digit_str(n))
    } else {
        proof {
            assert(n / 10 < n) by (nonlinear_arith)
                requires
                    n >= 10,
            ;
        }
        let mut s = usize_to_string(n / 10);
        s.append(digit_str(n % 10));
        s
    }
}

/// The view of one rendered flag: ` --<name> <value>`.
pub open spec fn spec_flag(name: Seq<char>, value: Seq<char>) -> Seq<char> {
    " --"@ + name + " "@ + value
}

/// The view of an optional flag: empty when the option is absent.
pub open spec fn spec_opt_flag(name: Seq<char>, value: Option<String>) -> Seq<char> {
    match value {
        Some(v) => spec_flag(name, v@),
        None => Seq::empty(),
    }
}

/// Appends ` --<name> <value>` to `out`.
fn make_flag(out: &mut String, name: &str, value: &str)
    ensures
        final(out)@ == old(out)@ + spec_flag(name@, value@),
{
    out.append(" --");
    out.append(name);
    out.append(" ");
    out.append(value);
}

/// Appends the flag for an optional value, or nothing when it is absent.
fn make_opt_flag(out: &mut String, name: &str, value: &Option<String>)
    ensures
        final(out)@ == old(out)@ + spec_opt_flag(name@, *value),
{
    match value {
        Some(v) => make_flag(out, name, v.as_str()),
        None => (),
    }
}

/// Broker server options, with the broker's own defaults.
pub struct Server {
    /// Host address to bind to (default: 0.0.0.0 - all interfaces).
    pub addr: String,
    /// Client host:port to advertise to other servers (default: absent).
    pub client_advertise: Option<String>,
    /// Path to the broker's configuration file (default: absent).
    pub config: Option<String>,
    /// HTTP port for the monitoring dashboard, exclusive of `https_port`
    /// (default: absent).
    pub http_port: Option<String>,
    /// HTTPS port for the monitoring dashboard, exclusive of `http_port`
    /// (default: absent).
    pub https_port: Option<String>,
    /// File to store the process ID (default: absent).
    pub pid: Option<String>,
    /// Client port (default: 4222).
    pub port: usize,
}

pub fn default_port() -> (r: usize)
    ensures
        r == 4222,
{
    4222
}

pub fn default_addr() -> (r: String)
    ensures
        r@ == "0.0.0.0"@,
{
    String::from_str("0.0.0.0")
}

impl Default for Server {
    fn default() -> (r: Self)
        ensures
            r.is_default(),
    {
        Server {
            addr: default_addr(),
            client_advertise: None,
            config: None,
            http_port: None,
            https_port: None,
            pid: None,
            port: default_port(),
        }
    }
}

impl Server {
    /// Holds exactly when every option carries the broker's default.
    pub open spec fn is_default(self) -> bool {
        &&& self.addr@ == "0.0.0.0"@
        &&& self.client_advertise is None
        &&& self.config is None
        &&& self.http_port is None
        &&& self.https_port is None
        &&& self.pid is None
        &&& self.port == 4222
    }

    pub fn new() -> (r: Self)
        ensures
            r.is_default(),
    {
        Self::default()
    }

    /// The view of the full flag string: the mandatory `addr` flag, the
    /// present optional flags in a fixed order, then the `port` flag.
    pub open spec fn spec_flags(self) -> Seq<char> {
        spec_flag("addr"@, self.addr@) + spec_opt_flag("client_advertise"@, self.client_advertise)
            + spec_opt_flag("config"@, self.config) + spec_opt_flag("http_port"@, self.http_port)
            + spec_opt_flag("https_port"@, self.https_port) + spec_opt_flag("pid"@, self.pid)
            + spec_flag("port"@, spec_decimal(self.port as nat))
    }

    /// Renders the options as the broker's command-line flag string.
    pub fn to_string(&self) -> (r: String)
        ensures
            r@ == self.spec_flags(),
    {
        let mut out = String::new();
        make_flag(&mut out, "addr", self.addr.as_str());
        make_opt_flag(&mut out, "client_advertise", &self.client_advertise);
        make_opt_flag(&mut out, "config", &self.config);
        make_opt_flag(&mut out, "http_port", &self.http_port);
        make_opt_flag(&mut out, "https_port", &self.https_port);
        make_opt_flag(&mut out, "pid", &self.pid);
        let port = usize_to_string(self.port);
        make_flag(&mut out, "port", port.as_str());
        out
    }
}

} // verus!
