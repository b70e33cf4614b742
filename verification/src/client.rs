//! The connection options of one broker endpoint.

use crate::config::MqttBrokerConfig;
use rumqttc::MqttOptions;
use vstd::prelude::*;

verus! {

/// Seconds of silence after which the client pings the broker.
pub const KEEP_ALIVE_SECS: u64 = 30;

/// How many requests may wait between a client and its connection.
pub const REQUEST_CAPACITY: usize = 100;

/// `rumqttc::MqttOptions`, carried through as an opaque value. What it holds
/// is spoken of through the four names below.
#[verifier::external_type_specification]
#[verifier::external_body]
pub struct ExMqttOptions(MqttOptions);

/// The client identifier that `options` holds: what
/// `MqttOptions::client_id` returns.
pub uninterp spec fn options_client_id(options: MqttOptions) -> Seq<char>;

/// The broker's host and port that `options` holds: what
/// `MqttOptions::broker_address` returns.
pub uninterp spec fn options_broker_address(options: MqttOptions) -> (Seq<char>, u16);

/// The user name and password that `options` holds, if any: the two fields
/// of what `MqttOptions::credentials` returns.
pub uninterp spec fn options_credentials(options: MqttOptions) -> Option<(Seq<char>, Seq<char>)>;

/// The keep-alive time that `options` holds, in whole seconds: what
/// `MqttOptions::keep_alive` returns.
pub uninterp spec fn options_keep_alive_secs(options: MqttOptions) -> u64;

/// Fresh options for a client `id` of the broker at `host` and `port`.
///
/// Calls `MqttOptions::new`. Trusted: that the result holds `id`, `host` and
/// `port` as given, no credentials, and the crate's default keep-alive time
/// of 60 seconds.
#[verifier::external_body]
fn new_options(id: &str, host: &str, port: u16) -> (options: MqttOptions)
    ensures
        options_client_id(options) == id@,
        options_broker_address(options) == (host@, port),
        options_credentials(options).is_none(),
        options_keep_alive_secs(options) == 60,
{
    MqttOptions::new(id, host, port)
}

/// Sets the user name and password.
///
/// Calls `MqttOptions::set_credentials`. Trusted: that afterwards the
/// options hold the two as given, and everything else as before.
#[verifier::external_body]
fn set_credentials(options: &mut MqttOptions, username: &str, password: &str)
    ensures
        options_credentials(*final(options)) == Some((username@, password@)),
        options_client_id(*final(options)) == options_client_id(*old(options)),
        options_broker_address(*final(options)) == options_broker_address(*old(options)),
        options_keep_alive_secs(*final(options)) == options_keep_alive_secs(*old(options)),
{
    options.set_credentials(username, password);
}

/// Sets the keep-alive time to `seconds`.
///
/// Calls `MqttOptions::set_keep_alive` with a duration of whole seconds,
/// which that function accepts whatever their number. Trusted: that
/// afterwards the options hold that time, and everything else as before.
#[verifier::external_body]
fn set_keep_alive(options: &mut MqttOptions, seconds: u64)
    ensures
        options_keep_alive_secs(*final(options)) == seconds,
        options_client_id(*final(options)) == options_client_id(*old(options)),
        options_broker_address(*final(options)) == options_broker_address(*old(options)),
        options_credentials(*final(options)) == options_credentials(*old(options)),
{
    options.set_keep_alive(std::time::Duration::from_secs(seconds));
}

/// The credentials that an endpoint logs in with: its user name and
/// password where it has both, none where either is missing.
pub open spec fn login_of(username: Option<Seq<char>>, password: Option<Seq<char>>) -> Option<
    (Seq<char>, Seq<char>),
> {
    match (username, password) {
        (Some(name), Some(secret)) => Some((name, secret)),
        _ => None,
    }
}

/// The options to connect to `config` with: its client identifier, host and
/// port; its credentials where it has both a user name and a password; and a
/// keep-alive time of [`KEEP_ALIVE_SECS`].
pub fn create_mqtt_options(config: &MqttBrokerConfig) -> (options: MqttOptions)
    ensures
        options_client_id(options) == config@.client_id,
        options_broker_address(options) == (config@.host, config@.port),
        options_credentials(options) == login_of(config@.username, config@.password),
        options_keep_alive_secs(options) == KEEP_ALIVE_SECS,
{
    let mut options = new_options(config.client_id.as_str(), config.host.as_str(), config.port);
    match &config.username {
        Some(username) => match &config.password {
            Some(password) => {
                set_credentials(&mut options, username.as_str(), password.as_str());
            },
            None => {},
        },
        None => {},
    }
    set_keep_alive(&mut options, KEEP_ALIVE_SECS);
    options
}

} // verus!
