//! The configuration of the transport.
use crate::error::{Error, ErrorKind, ErrorView};
use crate::{error, outside, url};
use vstd::prelude::*;
use vstd::string::*;

verus! {

/// The configuration of the transport.
#[derive(Clone, Debug)]
pub struct IrohTransportConfig {
    /// The URL of the relay to use as home relay. Without one, the relays that n0 provides are
    /// used.
    pub relay_url: Option<String>,
    /// Whether the relay may be reached in plain text (http) and not only encrypted (https).
    pub relay_allow_plain_text: bool,
    /// How many bytes a frame may have.
    pub max_frame_bytes: usize,
    /// How long establishing a connection to a peer may take, in seconds.
    pub connect_timeout_s: u32,
}

/// The configuration to start from: no relay of one's own, no plain text, frames of at most one
/// MiB, and a minute to connect.
pub open spec fn defaults() -> IrohTransportConfig {
    IrohTransportConfig {
        relay_url: None,
        relay_allow_plain_text: false,
        max_frame_bytes: 0x10_0000,
        connect_timeout_s: 60,
    }
}

impl Default for IrohTransportConfig {
    fn default() -> (r: IrohTransportConfig)
        ensures
            r == defaults(),
    {
        IrohTransportConfig {
            relay_url: None,
            relay_allow_plain_text: false,
            max_frame_bytes: 1024 * 1024,
            connect_timeout_s: 60,
        }
    }
}

/// The configuration of the module.
#[derive(Clone, Debug)]
pub struct IrohTransportModConfig {
    /// The configuration of the transport.
    pub iroh_transport: IrohTransportConfig,
}

impl Default for IrohTransportModConfig {
    fn default() -> (r: IrohTransportModConfig)
        ensures
            r.iroh_transport == defaults(),
    {
        IrohTransportModConfig { iroh_transport: IrohTransportConfig::default() }
    }
}

/// Whether a relay may be used, where `scheme` is what reading the scheme of its URL gave.
pub open spec fn relay_allowed(
    scheme: Result<Seq<char>, Seq<char>>,
    allow_plain_text: bool,
) -> Result<(), ErrorView> {
    match scheme {
        Err(e) => Err(error::caused(ErrorKind::BadRelayConfig, e)),
        Ok(s) => if s == "http"@ && !allow_plain_text {
            Err(error::plain(ErrorKind::PlainTextRelay))
        } else {
            Ok(())
        },
    }
}

/// Whether a configuration can be used.
pub open spec fn config_allowed(config: IrohTransportConfig) -> Result<(), ErrorView> {
    match config.relay_url {
        None => Ok(()),
        Some(relay) => relay_allowed(
            outside::url_scheme(relay@),
            config.relay_allow_plain_text,
        ),
    }
}

/// Whether a relay may be used, where `scheme` is what reading the scheme of its URL gave.
pub fn check_relay_scheme(scheme: Result<String, String>, allow_plain_text: bool) -> (r: Result<
    (),
    Error,
>)
    ensures
        error::unit_result(r) == relay_allowed(url::read_text(scheme), allow_plain_text),
{
    match scheme {
        Err(e) => Err(Error::caused_by(ErrorKind::BadRelayConfig, e)),
        Ok(s) => {
            if s == "http".to_owned() && !allow_plain_text {
                Err(Error::new(ErrorKind::PlainTextRelay))
            } else {
                Ok(())
            }
        },
    }
}

/// The factory of the transport.
#[derive(Debug)]
pub struct IrohTransportFactory;

impl IrohTransportFactory {
    /// A factory.
    pub fn create() -> (r: IrohTransportFactory)
        ensures
            r == IrohTransportFactory,
    {
        IrohTransportFactory
    }

    /// The configuration to start from.
    pub fn default_config(&self) -> (r: IrohTransportModConfig)
        ensures
            r.iroh_transport == defaults(),
    {
        IrohTransportModConfig::default()
    }

    /// Whether a configuration can be used: a relay must have a URL, and one that is reached in
    /// plain text must be allowed.
    pub fn validate_config(&self, config: &IrohTransportModConfig) -> (r: Result<(), Error>)
        ensures
            error::unit_result(r) == config_allowed(config.iroh_transport),
    {
        match &config.iroh_transport.relay_url {
            None => Ok(()),
            Some(relay) => check_relay_scheme(
                outside::read_url_scheme(relay.as_str()),
                config.iroh_transport.relay_allow_plain_text,
            ),
        }
    }
}

} // verus!
