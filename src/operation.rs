//! Resolution of one operation (listen or send, over either transport) from the
//! parameters given on the command line and those of a preset.
use vstd::prelude::*;

verus! {

/// Whether the process listens or sends.
#[derive(PartialEq, Eq, Structural, Clone, Copy, Debug)]
pub enum Role {
    Listen,
    Send,
}

/// The delivery guarantee asked of the broker.
#[derive(PartialEq, Eq, Structural, Clone, Copy, Debug)]
pub enum Guarantee {
    AtMostOnce,
    AtLeastOnce,
}

/// The broker port used when none is given.
pub const DEFAULT_PORT: u16 = 1883;

/// Parameters as given, each possibly absent.
pub struct Settings {
    pub addr: Option<String>,
    pub relay: Option<String>,
    pub port: Option<u16>,
    pub topic: Option<String>,
    pub message: Option<String>,
    pub auth: Option<String>,
}

/// The transport an operation runs over.
pub enum Transport {
    Direct { address: String },
    Relay { broker: String, port: u16, topic: String },
}

/// One fully resolved listen or send. `text` is the message for a sender and
/// the command template for a listener.
pub struct Operation {
    pub role: Role,
    pub transport: Transport,
    pub text: String,
    pub auth: Option<String>,
}

/// Why no operation could be resolved.
#[derive(PartialEq, Eq, Structural, Clone, Copy, Debug)]
pub enum ConfigError {
    /// Neither the command line nor the preset gives a message.
    MissingMessage,
    /// A broker is given without a topic.
    MissingTopic,
    /// Neither an address nor a broker is given.
    MissingTransport,
}

/// `a` when present, else `b`.
pub open spec fn pick<T>(a: Option<T>, b: Option<T>) -> Option<T> {
    if a is Some {
        a
    } else {
        b
    }
}

/// The broker port: a port given on the command line counts unless it is the
/// default one, then the preset's, then the default.
pub open spec fn merged_port(given: Option<u16>, preset: Option<u16>) -> u16 {
    match given {
        Some(p) if p != DEFAULT_PORT => p,
        _ => match preset {
            Some(p) => p,
            None => DEFAULT_PORT,
        },
    }
}

/// The operation that `given` (which takes precedence) and `preset` describe.
pub open spec fn resolved(role: Role, given: Settings, preset: Settings) -> Result<
    Operation,
    ConfigError,
> {
    let relay = pick(given.relay, preset.relay);
    let topic = pick(given.topic, preset.topic);
    let addr = pick(given.addr, preset.addr);
    let auth = pick(given.auth, preset.auth);
    match pick(given.message, preset.message) {
        None => Err(ConfigError::MissingMessage),
        Some(text) => match (relay, topic, addr) {
            (Some(_), None, _) => Err(ConfigError::MissingTopic),
            (Some(broker), Some(topic), _) => Ok(
                Operation {
                    role,
                    transport: Transport::Relay {
                        broker,
                        port: merged_port(given.port, preset.port),
                        topic,
                    },
                    text,
                    auth,
                },
            ),
            (None, _, Some(address)) => Ok(
                Operation { role, transport: Transport::Direct { address }, text, auth },
            ),
            (None, _, None) => Err(ConfigError::MissingTransport),
        },
    }
}

fn pick_text(a: Option<String>, b: Option<String>) -> (r: Option<String>)
    ensures
        r == pick(a, b),
{
    match a {
        Some(s) => Some(s),
        None => b,
    }
}

fn pick_port(given: Option<u16>, preset: Option<u16>) -> (r: u16)
    ensures
        r == merged_port(given, preset),
{
    match given {
        Some(p) if p != DEFAULT_PORT => p,
        _ => match preset {
            Some(p) => p,
            None => DEFAULT_PORT,
        },
    }
}

/// Resolves the operation for `role` from the parameters given on the command
/// line, falling back to those of a preset. A message is always required; a
/// broker needs a topic and takes precedence over an address.
pub fn resolve(role: Role, given: Settings, preset: Settings) -> (r: Result<Operation, ConfigError>)
    ensures
        r == resolved(role, given, preset),
{
    let port = pick_port(given.port, preset.port);
    let relay = pick_text(given.relay, preset.relay);
    let topic = pick_text(given.topic, preset.topic);
    let addr = pick_text(given.addr, preset.addr);
    let auth = pick_text(given.auth, preset.auth);
    let text = match pick_text(given.message, preset.message) {
        Some(t) => t,
        None => return Err(ConfigError::MissingMessage),
    };
    match relay {
        Some(broker) => match topic {
            Some(topic) => Ok(
                Operation { role, transport: Transport::Relay { broker, port, topic }, text, auth },
            ),
            None => Err(ConfigError::MissingTopic),
        },
        None => match addr {
            Some(address) => Ok(
                Operation { role, transport: Transport::Direct { address }, text, auth },
            ),
            None => Err(ConfigError::MissingTransport),
        },
    }
}

/// The client identity a role presents to the broker, distinct per role so
/// that a listener and a sender can share one broker.
pub fn client_id(role: Role) -> (r: &'static str)
    ensures
        r@ == (if role == Role::Listen {
            "crier-listener"@
        } else {
            "crier-sender"@
        }),
{
    match role {
        Role::Listen => "crier-listener",
        Role::Send => "crier-sender",
    }
}

/// The keep-alive interval of a role's broker session, in seconds.
pub fn keep_alive_secs(role: Role) -> (r: u64)
    ensures
        r == (if role == Role::Listen {
            60u64
        } else {
            5u64
        }),
{
    match role {
        Role::Listen => 60,
        Role::Send => 5,
    }
}

/// The guarantee a role asks of the broker: a listener subscribes at least
/// once, a sender publishes at most once.
pub fn relay_guarantee(role: Role) -> (r: Guarantee)
    ensures
        r == (if role == Role::Listen {
            Guarantee::AtLeastOnce
        } else {
            Guarantee::AtMostOnce
        }),
{
    match role {
        Role::Listen => Guarantee::AtLeastOnce,
        Role::Send => Guarantee::AtMostOnce,
    }
}

} // verus!
