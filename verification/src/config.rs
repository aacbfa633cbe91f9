//! The broker-only configuration file schema.
//!
//! An earlier, smaller configuration that names nothing but the broker
//! connection; kept alongside `settings` for collaborators that only need
//! to reach the broker.

use vstd::prelude::*;

verus! {

/// How to reach the transport broker.
#[derive(Debug, Clone, PartialEq, Eq)]
pub struct MqttBroker {
    /// The broker's host name.
    pub hostname: String,
    /// The broker's port.
    pub port: u16,
    /// The account to connect as.
    pub username: String,
    /// The account's password.
    pub password: String,
}

/// A configuration file holding only the broker connection.
#[derive(Debug, Clone, PartialEq, Eq)]
pub struct ApplicationConfig {
    /// The broker connection.
    pub broker: MqttBroker,
}

impl Default for ApplicationConfig {
    /// The configuration written on first start: an example broker.
    fn default() -> (r: Self)
        ensures
            r.broker.hostname@ == "mqtt.example.org"@,
            r.broker.port == 1883,
            r.broker.username@ == "username"@,
            r.broker.password@ == "password"@,
    {
        ApplicationConfig {
            broker: MqttBroker {
                hostname: "mqtt.example.org".to_string(),
                port: 1883,
                username: "username".to_string(),
                password: "password".to_string(),
            },
        }
    }
}

} // verus!
