//! Host-agent configuration: where to reach the gateway, the single-use enrollment
//! token, and the durability knobs.
use crate::duration::Duration;
use crate::text::blank;
use crate::text::is_blank;
use crate::text::labelled;
use vstd::prelude::*;

verus! {

/// Default heartbeat cadence.
pub const DEFAULT_HEARTBEAT_MS: u64 = 15_000;

/// Default durable-spool cap before the agent stops accepting work.
pub const DEFAULT_SPOOL_CAP_BYTES: u64 = 64 * 1024 * 1024;

/// Reconnect backoff base.
pub const DEFAULT_BACKOFF_BASE_MS: u64 = 500;

/// Reconnect backoff cap.
pub const DEFAULT_BACKOFF_CAP_MS: u64 = 30_000;

/// Errors from loading or validating [`HostdConfig`].
#[derive(Debug, PartialEq, Eq)]
pub enum ConfigError {
    /// The config file could not be read.
    Read {
        /// The path that failed to read.
        path: String,
        /// What the failure says of itself.
        source: String,
    },
    /// The file was not a valid configuration.
    Parse {
        /// The path that failed to parse.
        path: String,
        /// What the failure says of itself.
        source: String,
    },
    /// A field held a value that the agent refuses to run with.
    Invalid(String),
}

impl ConfigError {
    /// What the failure says of itself.
    pub open spec fn message(self) -> Seq<char> {
        match self {
            ConfigError::Read { path, source } => "reading config "@ + path@ + ": "@ + source@,
            ConfigError::Parse { path, source } => "parsing config "@ + path@ + ": "@ + source@,
            ConfigError::Invalid(why) => "invalid config: "@ + why@,
        }
    }

    /// What the failure says of itself.
    pub fn to_string(&self) -> (s: String)
        ensures
            s@ == self.message(),
    {
        match self {
            ConfigError::Read { path, source } => {
                let mut s = labelled("reading config ", path.as_str());
                s.append(": ");
                s.append(source.as_str());
                s
            },
            ConfigError::Parse { path, source } => {
                let mut s = labelled("parsing config ", path.as_str());
                s.append(": ");
                s.append(source.as_str());
                s
            },
            ConfigError::Invalid(why) => labelled("invalid config: ", why.as_str()),
        }
    }
}

/// Reconnect backoff bounds.
#[derive(Debug, Clone, Copy, PartialEq, Eq, Structural)]
pub struct ReconnectConfig {
    /// Backoff base delay, milliseconds.
    pub base_ms: u64,
    /// Backoff cap, milliseconds.
    pub cap_ms: u64,
}

impl Default for ReconnectConfig {
    fn default() -> (c: Self)
        ensures
            c == (ReconnectConfig {
                base_ms: DEFAULT_BACKOFF_BASE_MS,
                cap_ms: DEFAULT_BACKOFF_CAP_MS,
            }),
    {
        ReconnectConfig { base_ms: DEFAULT_BACKOFF_BASE_MS, cap_ms: DEFAULT_BACKOFF_CAP_MS }
    }
}

impl ReconnectConfig {
    /// The backoff base as a span.
    #[must_use]
    pub fn base(self) -> (d: Duration)
        ensures
            d@ == self.base_ms * 1_000_000,
    {
        Duration::from_millis(self.base_ms)
    }

    /// The backoff cap as a span.
    #[must_use]
    pub fn cap(self) -> (d: Duration)
        ensures
            d@ == self.cap_ms * 1_000_000,
    {
        Duration::from_millis(self.cap_ms)
    }
}

/// The host agent's configuration.
#[derive(Debug, Clone, PartialEq, Eq)]
pub struct HostdConfig {
    /// Gateway control-channel endpoint.
    pub control_endpoint: String,
    /// Single-use enrollment token. Empty once the node holds a signed certificate.
    pub enroll_token: String,
    /// Directory the agent owns for durable state.
    pub data_dir: String,
    /// Advisory node name carried into the signing request.
    pub agent_name: Option<String>,
    /// Heartbeat cadence, milliseconds.
    pub heartbeat_interval_ms: u64,
    /// Durable-spool cap in bytes.
    pub spool_cap_bytes: u64,
    /// Reconnect backoff bounds.
    pub reconnect: ReconnectConfig,
}

/// A file within a directory, as a path: nothing before a name without a directory,
/// and one separator between the two.
pub open spec fn path_in(dir: Seq<char>, file: Seq<char>) -> Seq<char> {
    if dir.len() == 0 {
        file
    } else if dir.last() == '/' {
        dir + file
    } else {
        dir + seq!['/'] + file
    }
}

/// Computes [`path_in`].
fn join(dir: &str, file: &str) -> (s: String)
    ensures
        s@ == path_in(dir@, file@),
{
    let chars = crate::text::chars_of(dir);
    let mut s = dir.to_owned();
    if chars.len() > 0 && chars[chars.len() - 1] != '/' {
        s.push('/');
    }
    s.append(file);
    proof {
        assert(s@ =~= path_in(dir@, file@));
    }
    s
}

/// The complaint about the first field that the agent refuses to run with, or
/// `None` where it accepts them all.
pub open spec fn complaint(c: HostdConfig) -> Option<Seq<char>> {
    if blank(c.control_endpoint@) {
        Some("control_endpoint must not be empty"@)
    } else if c.heartbeat_interval_ms == 0 {
        Some("heartbeat_interval_ms must be greater than zero"@)
    } else if c.reconnect.base_ms == 0 || c.reconnect.cap_ms < c.reconnect.base_ms {
        Some("reconnect.base_ms must be > 0 and <= reconnect.cap_ms"@)
    } else {
        None
    }
}

impl HostdConfig {
    /// Rejects values the agent must not run with: an endpoint of nothing but white
    /// space, a heartbeat that would never rest, backoff bounds that make no sense.
    ///
    /// # Errors
    /// [`ConfigError::Invalid`] with the first complaint there is.
    pub fn validate(&self) -> (r: Result<(), ConfigError>)
        ensures
            match (r, complaint(*self)) {
                (Ok(_), None) => true,
                (Err(ConfigError::Invalid(text)), Some(why)) => text@ == why,
                _ => false,
            },
    {
        if is_blank(self.control_endpoint.as_str()) {
            return Err(ConfigError::Invalid("control_endpoint must not be empty".to_owned()));
        }
        if self.heartbeat_interval_ms == 0 {
            return Err(
                ConfigError::Invalid("heartbeat_interval_ms must be greater than zero".to_owned()),
            );
        }
        if self.reconnect.base_ms == 0 || self.reconnect.cap_ms < self.reconnect.base_ms {
            return Err(
                ConfigError::Invalid(
                    "reconnect.base_ms must be > 0 and <= reconnect.cap_ms".to_owned(),
                ),
            );
        }
        Ok(())
    }

    /// The heartbeat cadence as a span.
    #[must_use]
    pub fn heartbeat_interval(&self) -> (d: Duration)
        ensures
            d@ == self.heartbeat_interval_ms * 1_000_000,
    {
        Duration::from_millis(self.heartbeat_interval_ms)
    }

    /// The keystore path under the data directory.
    #[must_use]
    pub fn keystore_path(&self) -> (s: String)
        ensures
            s@ == path_in(self.data_dir@, "keystore.json"@),
    {
        join(self.data_dir.as_str(), "keystore.json")
    }

    /// The durable-spool path under the data directory.
    #[must_use]
    pub fn spool_path(&self) -> (s: String)
        ensures
            s@ == path_in(self.data_dir@, "spool.log"@),
    {
        join(self.data_dir.as_str(), "spool.log")
    }
}

/// The directory's last separator makes no difference to a path within it.
pub proof fn a_trailing_separator_makes_no_difference(dir: Seq<char>, file: Seq<char>)
    requires
        dir.len() > 0,
        dir.last() != '/',
    ensures
        path_in(dir + seq!['/'], file) == path_in(dir, file),
{
    assert((dir + seq!['/']).last() == '/');
}

/// A path within a directory starts with the directory and ends with the file, and
/// nothing but a separator stands between them; without a directory it is the file.
pub proof fn a_path_starts_with_its_directory(dir: Seq<char>, file: Seq<char>)
    ensures
        dir.is_prefix_of(path_in(dir, file)),
        file.is_suffix_of(path_in(dir, file)),
        path_in(dir, file).len() <= dir.len() + file.len() + 1,
        dir.len() == 0 ==> path_in(dir, file) == file,
        dir.len() > 0 ==> path_in(dir, file)[path_in(dir, file).len() - file.len() - 1] == '/',
{
    assert(dir =~= path_in(dir, file).subrange(0, dir.len() as int));
    let n = path_in(dir, file).len() as int;
    assert(file =~= path_in(dir, file).subrange(n - file.len(), n));
}

/// The keystore and the spool are two files of the data directory.
pub proof fn the_agents_files_are_kept_apart(c: HostdConfig, keystore: String, spool: String)
    requires
        call_ensures(HostdConfig::keystore_path, (&c,), keystore),
        call_ensures(HostdConfig::spool_path, (&c,), spool),
    ensures
        keystore@ != spool@,
        c.data_dir@.is_prefix_of(keystore@),
        c.data_dir@.is_prefix_of(spool@),
        "keystore.json"@.is_suffix_of(keystore@),
        "spool.log"@.is_suffix_of(spool@),
{
    a_path_starts_with_its_directory(c.data_dir@, "keystore.json"@);
    a_path_starts_with_its_directory(c.data_dir@, "spool.log"@);
    reveal_strlit("keystore.json");
    reveal_strlit("spool.log");
    assert("keystore.json"@.last() == 'n');
    assert("spool.log"@.last() == 'g');
    assert(keystore@.last() == 'n');
    assert(spool@.last() == 'g');
}

/// A configuration is accepted exactly where the agent can run with it: it has somewhere
/// to connect to, beats at some interval, and waits at least a millisecond and no longer
/// than its cap. Nothing else of it is judged.
pub proof fn a_configuration_is_accepted_if_it_can_run(c: HostdConfig, r: Result<(), ConfigError>)
    requires
        call_ensures(HostdConfig::validate, (&c,), r),
    ensures
        r is Ok <==> {
            &&& !blank(c.control_endpoint@)
            &&& c.heartbeat_interval_ms > 0
            &&& 0 < c.reconnect.base_ms <= c.reconnect.cap_ms
        },
        r is Err ==> r->Err_0 is Invalid,
{
}

/// A complaint starts with the name of the field that it is about, and where several are
/// at fault it is about the first of the endpoint, the heartbeat and the backoff.
pub proof fn a_complaint_names_its_field(c: HostdConfig, r: Result<(), ConfigError>)
    requires
        call_ensures(HostdConfig::validate, (&c,), r),
        r is Err,
    ensures
        "control_endpoint"@.is_prefix_of((r->Err_0->Invalid_0)@) <==> blank(c.control_endpoint@),
        "heartbeat_interval_ms"@.is_prefix_of((r->Err_0->Invalid_0)@) <==> !blank(
            c.control_endpoint@,
        ) && c.heartbeat_interval_ms == 0,
        "reconnect."@.is_prefix_of((r->Err_0->Invalid_0)@) <==> !blank(c.control_endpoint@)
            && c.heartbeat_interval_ms > 0,
{
    reveal_strlit("control_endpoint");
    reveal_strlit("heartbeat_interval_ms");
    reveal_strlit("reconnect.");
    reveal_strlit("control_endpoint must not be empty");
    reveal_strlit("heartbeat_interval_ms must be greater than zero");
    reveal_strlit("reconnect.base_ms must be > 0 and <= reconnect.cap_ms");
    let text = (r->Err_0->Invalid_0)@;
    assert("control_endpoint"@.is_prefix_of("control_endpoint must not be empty"@));
    assert("heartbeat_interval_ms"@.is_prefix_of(
        "heartbeat_interval_ms must be greater than zero"@,
    ));
    assert("reconnect."@.is_prefix_of("reconnect.base_ms must be > 0 and <= reconnect.cap_ms"@));
    assert("control_endpoint"@[0] == 'c');
    assert("heartbeat_interval_ms"@[0] == 'h');
    assert("reconnect."@[0] == 'r');
    if "control_endpoint"@.is_prefix_of(text) {
        assert(text[0] == 'c');
    }
    if "heartbeat_interval_ms"@.is_prefix_of(text) {
        assert(text[0] == 'h');
    }
    if "reconnect."@.is_prefix_of(text) {
        assert(text[0] == 'r');
    }
}

/// The spans of a configuration are its milliseconds, and an unconfigured backoff is one
/// that the agent accepts.
pub proof fn configured_spans_are_in_milliseconds(
    c: HostdConfig,
    beat: Duration,
    base: Duration,
    cap: Duration,
    d: ReconnectConfig,
    beat_ms: u128,
    base_ms: u128,
    cap_ms: u128,
)
    requires
        call_ensures(HostdConfig::heartbeat_interval, (&c,), beat),
        call_ensures(ReconnectConfig::base, (c.reconnect,), base),
        call_ensures(ReconnectConfig::cap, (c.reconnect,), cap),
        call_ensures(ReconnectConfig::default, (), d),
        call_ensures(Duration::as_millis, (&beat,), beat_ms),
        call_ensures(Duration::as_millis, (&base,), base_ms),
        call_ensures(Duration::as_millis, (&cap,), cap_ms),
    ensures
        beat_ms == c.heartbeat_interval_ms,
        base_ms == c.reconnect.base_ms,
        cap_ms == c.reconnect.cap_ms,
        0 < d.base_ms <= d.cap_ms,
{
}

} // verus!
