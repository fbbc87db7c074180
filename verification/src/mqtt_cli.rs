//! The `mqtt` commands of the command line: to publish a message and to
//! subscribe to a topic.

use crate::mqtt_channel::QoS;
use crate::text::{decimal, decimal_text};
use vstd::prelude::*;

verus! {

/// Seconds to wait for the disconnection after a publication.
pub const DISCONNECT_TIMEOUT_SECS: u64 = 2;

/// What the command line asks for.
#[derive(Debug)]
pub enum TEdgeMqttCli {
    /// Publish a message on a topic.
    Pub { topic: String, message: String, qos: QoS, retain: bool },
    /// Subscribe to a topic.
    Sub { topic: String, qos: QoS, hide_topic: bool },
}

/// The certificate and the key by which a client tells who it is.
#[derive(Debug)]
pub struct ClientAuthConfig {
    pub cert_file: String,
    pub key_file: String,
}

/// The view of an optional text, empty where there is none.
pub open spec fn text_or_empty(text: Option<String>) -> Seq<char> {
    match text {
        Some(text) => text@,
        None => Seq::<char>::empty(),
    }
}

/// How a client tells who it is: not at all where it is configured with
/// neither a certificate nor a key; else with both, an absent one being
/// empty.
pub fn client_auth_config(cert_file: Option<String>, key_file: Option<String>) -> (r: Option<
    ClientAuthConfig,
>)
    ensures
        match r {
            None => cert_file is None && key_file is None,
            Some(config) => !(cert_file is None && key_file is None) && config.cert_file@
                == text_or_empty(cert_file) && config.key_file@ == text_or_empty(key_file),
        },
{
    if cert_file.is_none() && key_file.is_none() {
        None
    } else {
        Some(
            ClientAuthConfig {
                cert_file: match cert_file {
                    Some(file) => file,
                    None => String::new(),
                },
                key_file: match key_file {
                    Some(file) => file,
                    None => String::new(),
                },
            },
        )
    }
}

impl TEdgeMqttCli {
    /// The name under which the client of a command connects: `tedge-pub`
    /// or `tedge-sub`, a hyphen, and the number of the process.
    pub fn client_id(&self, pid: u32) -> (r: String)
        ensures
            r@ == (if self is Pub {
                "tedge-pub"@
            } else {
                "tedge-sub"@
            }) + "-"@ + decimal(pid as nat),
    {
        let mut id = match self {
            TEdgeMqttCli::Pub { .. } => String::from_str("tedge-pub"),
            TEdgeMqttCli::Sub { .. } => String::from_str("tedge-sub"),
        };
        id.append("-");
        id.append(decimal_text(pid as u64).as_str());
        id
    }
}

/// How the clients of the command line reach the broker.
#[derive(Debug)]
pub struct MqttClientSettings {
    pub host: String,
    pub port: u16,
    pub ca_file: Option<String>,
    pub ca_dir: Option<String>,
    pub cert_file: Option<String>,
    pub key_file: Option<String>,
}

/// What a client of the command line connects with.
#[derive(Debug)]
pub struct MqttConnection {
    pub host: String,
    pub port: u16,
    pub client_id: String,
    pub ca_file: Option<String>,
    pub ca_dir: Option<String>,
    pub client_auth_config: Option<ClientAuthConfig>,
}

/// A command of the command line, ready to run.
#[derive(Debug)]
pub enum MqttCommand {
    Publish {
        connection: MqttConnection,
        topic: String,
        message: String,
        qos: QoS,
        retain: bool,
        disconnect_timeout_secs: u64,
    },
    Subscribe { connection: MqttConnection, topic: String, qos: QoS, hide_topic: bool },
}

impl MqttCommand {
    /// The connection of the command.
    pub open spec fn connection(self) -> MqttConnection {
        match self {
            MqttCommand::Publish { connection, .. } => connection,
            MqttCommand::Subscribe { connection, .. } => connection,
        }
    }
}

impl TEdgeMqttCli {
    /// The command that the command line asks for: what it names, on a
    /// connection to the configured broker under the name of the client.
    pub fn build_command(self, settings: MqttClientSettings, pid: u32) -> (r: MqttCommand)
        ensures
            r.connection().host@ == settings.host@,
            r.connection().port == settings.port,
            r.connection().ca_file == settings.ca_file,
            r.connection().ca_dir == settings.ca_dir,
            r.connection().client_id@ == (if self is Pub {
                "tedge-pub"@
            } else {
                "tedge-sub"@
            }) + "-"@ + decimal(pid as nat),
            match r.connection().client_auth_config {
                None => settings.cert_file is None && settings.key_file is None,
                Some(config) => !(settings.cert_file is None && settings.key_file is None)
                    && config.cert_file@ == text_or_empty(settings.cert_file) && config.key_file@
                    == text_or_empty(settings.key_file),
            },
            match (self, r) {
                (
                    TEdgeMqttCli::Pub { topic, message, qos, retain },
                    MqttCommand::Publish {
                        topic: t,
                        message: m,
                        qos: q,
                        retain: kept,
                        disconnect_timeout_secs,
                        ..
                    },
                ) => t == topic && m == message && q == qos && kept == retain
                    && disconnect_timeout_secs == DISCONNECT_TIMEOUT_SECS,
                (
                    TEdgeMqttCli::Sub { topic, qos, hide_topic },
                    MqttCommand::Subscribe { topic: t, qos: q, hide_topic: hidden, .. },
                ) => t == topic && q == qos && hidden == hide_topic,
                _ => false,
            },
    {
        let connection = MqttConnection {
            host: settings.host,
            port: settings.port,
            client_id: self.client_id(pid),
            ca_file: settings.ca_file,
            ca_dir: settings.ca_dir,
            client_auth_config: client_auth_config(settings.cert_file, settings.key_file),
        };
        match self {
            TEdgeMqttCli::Pub { topic, message, qos, retain } => MqttCommand::Publish {
                connection,
                topic,
                message,
                qos,
                retain,
                disconnect_timeout_secs: DISCONNECT_TIMEOUT_SECS,
            },
            TEdgeMqttCli::Sub { topic, qos, hide_topic } => MqttCommand::Subscribe {
                connection,
                topic,
                qos,
                hide_topic,
            },
        }
    }
}

} // verus!
