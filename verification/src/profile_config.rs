//! The static configuration of a profile, as its document states it.

use vstd::prelude::*;
use vstd::string::*;
use crate::text::{
    decimal, decimal_string, extra_texts, join_strings, joined, push_extra, texts,
};

verus! {

/// Why no launch arguments were built: the mode has no argument builder.
#[derive(Debug, Clone, Copy, PartialEq, Eq)]
pub struct Unimplemented;

/// What can be turned into the arguments that launch the client.
pub trait ToLaunchArgs {
    /// The arguments, in order, or why there are none.
    spec fn launch_args(&self) -> Result<Seq<Seq<char>>, Unimplemented>;

    /// Builds the arguments, in order.
    fn to_launch_args(&self) -> (r: Result<Vec<String>, Unimplemented>)
        ensures
            arg_texts(r) == self.launch_args(),
    ;
}

/// The texts of the arguments built, if any were.
pub open spec fn arg_texts(r: Result<Vec<String>, Unimplemented>) -> Result<
    Seq<Seq<char>>,
    Unimplemented,
> {
    match r {
        Ok(args) => Ok(texts(args@)),
        Err(e) => Err(e),
    }
}

/// Optional fields which allow a config to override its profile's default
/// metadata.
#[derive(Debug, Clone)]
pub struct MetadataOverride {
    pub display_name: Option<String>,
    pub pwd: Option<String>,
    pub bin_path: Option<String>,
}

/// Fields for a "Config file"-type `ProfileConfig`.
#[derive(Debug, Clone)]
pub struct ConfigFileOptions {
    pub config_path: String,
    pub extra_args: Option<Vec<String>>,
}

impl ToLaunchArgs for ConfigFileOptions {
    open spec fn launch_args(&self) -> Result<Seq<Seq<char>>, Unimplemented> {
        Ok(seq!["--config"@, self.config_path@] + extra_texts(self.extra_args))
    }

    fn to_launch_args(&self) -> (r: Result<Vec<String>, Unimplemented>) {
        let mut args: Vec<String> = Vec::new();
        args.push("--config".to_owned());
        args.push(self.config_path.clone());
        proof {
            assert(texts(args@) =~= seq!["--config"@, self.config_path@]);
        }
        push_extra(&mut args, &self.extra_args);
        Ok(args)
    }
}

/// A literal IP address to bind to, as text, with its family.
#[derive(Debug, Clone)]
pub enum BindHost {
    V4(String),
    V6(String),
}

/// The host of the remote server: a literal IPv6 address, or anything else
/// (a domain name or a literal IPv4 address).
#[derive(Debug, Clone)]
pub enum ServerHost {
    V6(String),
    Other(String),
}

/// The local address to bind to.
#[derive(Debug, Clone)]
pub struct BindAddr {
    pub host: BindHost,
    pub port: u16,
}

/// The address of the remote server.
#[derive(Debug, Clone)]
pub struct ServerAddr {
    pub host: ServerHost,
    pub port: u16,
}

impl BindAddr {
    /// `host:port` for an IPv4 address, `[host]:port` for an IPv6 address.
    pub open spec fn text(self) -> Seq<char> {
        match self.host {
            BindHost::V4(host) => host@ + seq![':'] + decimal(self.port as nat),
            BindHost::V6(host) => seq!['['] + host@ + seq![']', ':'] + decimal(self.port as nat),
        }
    }

    /// Writes the address as the client's command line takes it.
    pub fn render(&self) -> (s: String)
        ensures
            s@ == self.text(),
    {
        let port = decimal_string(self.port);
        match &self.host {
            BindHost::V4(host) => plain_addr(host, &port),
            BindHost::V6(host) => bracketed_addr(host, &port),
        }
    }
}

impl ServerAddr {
    /// `[host]:port` where the host is a literal IPv6 address, else
    /// `host:port`.
    pub open spec fn text(self) -> Seq<char> {
        match self.host {
            ServerHost::V6(host) => seq!['['] + host@ + seq![']', ':'] + decimal(self.port as nat),
            ServerHost::Other(host) => host@ + seq![':'] + decimal(self.port as nat),
        }
    }

    /// Writes the address as the client's command line takes it.
    pub fn render(&self) -> (s: String)
        ensures
            s@ == self.text(),
    {
        let port = decimal_string(self.port);
        match &self.host {
            ServerHost::V6(host) => bracketed_addr(host, &port),
            ServerHost::Other(host) => plain_addr(host, &port),
        }
    }
}

/// Writes `host:port`.
fn plain_addr(host: &String, port: &String) -> (s: String)
    ensures
        s@ == host@ + seq![':'] + port@,
{
    proof {
        reveal_strlit(":");
    }
    let mut s = host.clone();
    s.append(":");
    s.append(port.as_str());
    s
}

/// Writes `[host]:port`.
fn bracketed_addr(host: &String, port: &String) -> (s: String)
    ensures
        s@ == seq!['['] + host@ + seq![']', ':'] + port@,
{
    proof {
        reveal_strlit("[");
        reveal_strlit("]:");
    }
    let mut s = "[".to_owned();
    s.append(host.as_str());
    s.append("]:");
    s.append(port.as_str());
    s
}

/// Fields for a "Proxy"-type `ProfileConfig`.
///
/// Deliberately without `Debug`: the password must not reach diagnostic
/// output. Use `debug_string` instead.
#[derive(Clone)]
pub struct ProxyOptions {
    pub local_addr: BindAddr,
    pub server_addr: ServerAddr,
    pub password: String,
    pub encrypt_method: String,
    pub extra_args: Option<Vec<String>>,
}

/// What stands in for a password in diagnostic output, whatever the
/// password is.
pub fn password_omit(_password: &str) -> (shown: String)
    ensures
        shown@ == "*hidden*"@,
{
    "*hidden*".to_owned()
}

/// How a list of extra arguments shows in diagnostic output.
pub open spec fn extra_debug_text(extra: Option<Vec<String>>) -> Seq<char> {
    match extra {
        Some(more) => "["@ + joined(texts(more@), ", "@) + "]"@,
        None => "None"@,
    }
}

impl ProxyOptions {
    /// The options as diagnostic output shows them: every field by its text,
    /// but for the password, which shows as a fixed placeholder.
    pub open spec fn debug_text(self) -> Seq<char> {
        "ProxyOptions { local_addr: "@ + self.local_addr.text() + ", server_addr: "@
            + self.server_addr.text() + ", password: "@ + "*hidden*"@ + ", encrypt_method: "@
            + self.encrypt_method@ + ", extra_args: "@ + extra_debug_text(self.extra_args) + " }"@
    }

    /// Writes the options for diagnostic output, with the password left out.
    pub fn debug_string(&self) -> (out: String)
        ensures
            out@ == self.debug_text(),
    {
        let mut out = "ProxyOptions { local_addr: ".to_owned();
        out.append(self.local_addr.render().as_str());
        out.append(", server_addr: ");
        out.append(self.server_addr.render().as_str());
        out.append(", password: ");
        out.append(password_omit(self.password.as_str()).as_str());
        out.append(", encrypt_method: ");
        out.append(self.encrypt_method.as_str());
        out.append(", extra_args: ");
        match &self.extra_args {
            Some(more) => {
                out.append("[");
                out.append(join_strings(more, ", ").as_str());
                out.append("]");
            },
            None => {
                out.append("None");
            },
        }
        out.append(" }");
        out
    }
}

/// The diagnostic output of two sets of options that differ in nothing but
/// the password is the same: it tells nothing of the password.
pub proof fn lemma_debug_text_hides_password(a: ProxyOptions, b: ProxyOptions)
    requires
        a == (ProxyOptions { password: a.password, ..b }),
    ensures
        a.debug_text() == b.debug_text(),
{
}

impl ToLaunchArgs for ProxyOptions {
    open spec fn launch_args(&self) -> Result<Seq<Seq<char>>, Unimplemented> {
        Ok(
            seq![
                "--local-addr"@,
                self.local_addr.text(),
                "--server-addr"@,
                self.server_addr.text(),
                "--password"@,
                self.password@,
                "--encrypt-method"@,
                self.encrypt_method@,
            ] + extra_texts(self.extra_args),
        )
    }

    fn to_launch_args(&self) -> (r: Result<Vec<String>, Unimplemented>) {
        let mut args: Vec<String> = Vec::new();
        // local address
        args.push("--local-addr".to_owned());
        args.push(self.local_addr.render());
        // server address
        args.push("--server-addr".to_owned());
        args.push(self.server_addr.render());
        // password
        args.push("--password".to_owned());
        args.push(self.password.clone());
        // encrypt_method
        args.push("--encrypt-method".to_owned());
        args.push(self.encrypt_method.clone());
        proof {
            assert(texts(args@) =~= seq![
                "--local-addr"@,
                self.local_addr.text(),
                "--server-addr"@,
                self.server_addr.text(),
                "--password"@,
                self.password@,
                "--encrypt-method"@,
                self.encrypt_method@,
            ]);
        }
        // extra args
        push_extra(&mut args, &self.extra_args);
        Ok(args)
    }
}

/// Fields for a "Tun"-type `ProfileConfig`.
#[derive(Debug, Clone)]
pub struct TunOptions {
    pub extra_args: Option<Vec<String>>,
}

impl ToLaunchArgs for TunOptions {
    open spec fn launch_args(&self) -> Result<Seq<Seq<char>>, Unimplemented> {
        Err(Unimplemented)
    }

    fn to_launch_args(&self) -> (r: Result<Vec<String>, Unimplemented>) {
        Err(Unimplemented)
    }
}

/// The static configuration for a profile. Represents the file on disk
/// faithfully.
#[derive(Clone)]
#[allow(inconsistent_fields)]
pub enum ProfileConfig {
    /// The client is launched with an arbitrary config file.
    ConfigFile { metadata: MetadataOverride, opts: ConfigFileOptions },
    /// The client is launched in proxy mode.
    Proxy { metadata: MetadataOverride, opts: ProxyOptions },
    /// The client is launched in tun mode.
    Tun { metadata: MetadataOverride, opts: TunOptions },
}

impl ProfileConfig {
    /// The metadata override that the document carries, whatever its mode.
    pub open spec fn metadata_override(self) -> MetadataOverride {
        match self {
            ProfileConfig::ConfigFile { metadata, .. } => metadata,
            ProfileConfig::Proxy { metadata, .. } => metadata,
            ProfileConfig::Tun { metadata, .. } => metadata,
        }
    }

    /// The arguments that the mode's own options give.
    pub open spec fn launch_args(self) -> Result<Seq<Seq<char>>, Unimplemented> {
        match self {
            ProfileConfig::ConfigFile { opts, .. } => opts.launch_args(),
            ProfileConfig::Proxy { opts, .. } => opts.launch_args(),
            ProfileConfig::Tun { opts, .. } => opts.launch_args(),
        }
    }

    /// Builds the arguments that launch the client in this configuration.
    pub fn to_launch_args(&self) -> (r: Result<Vec<String>, Unimplemented>)
        ensures
            arg_texts(r) == self.launch_args(),
            r is Err <==> self is Tun,
    {
        match self {
            ProfileConfig::ConfigFile { opts, .. } => opts.to_launch_args(),
            ProfileConfig::Proxy { opts, .. } => opts.to_launch_args(),
            ProfileConfig::Tun { opts, .. } => opts.to_launch_args(),
        }
    }

    /// Gives the metadata override that the document carries, whatever its
    /// mode.
    pub fn get_metadata_override(&self) -> (mo: &MetadataOverride)
        ensures
            *mo == self.metadata_override(),
    {
        match self {
            ProfileConfig::ConfigFile { metadata, .. } => metadata,
            ProfileConfig::Proxy { metadata, .. } => metadata,
            ProfileConfig::Tun { metadata, .. } => metadata,
        }
    }
}

} // verus!
