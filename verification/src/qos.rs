//! Quality-of-service profiles for publishers and subscribers.
//!
//! A profile is immutable configuration data fixed when a publisher or
//! subscriber is created: reliability, durability, history policy and depth,
//! and optional deadline and lifespan. Presets are plain conversions into
//! the canonical profile shape.

use vstd::prelude::*;

use crate::time::Duration;

verus! {

/// Reliability of the communication.
#[derive(Debug, Clone, Copy, PartialEq, Eq, Structural)]
pub enum Reliability {
    /// Best effort delivery (may drop messages).
    BestEffort,
    /// Reliable delivery (guaranteed delivery).
    Reliable,
}

/// Durability of the communication.
#[derive(Debug, Clone, Copy, PartialEq, Eq, Structural)]
pub enum Durability {
    /// Volatile durability (no persistence).
    Volatile,
    /// Transient local durability (persistence on the publisher side).
    TransientLocal,
}

/// History policy.
#[derive(Debug, Clone, Copy, PartialEq, Eq, Structural)]
pub enum History {
    /// Keep the last N messages.
    KeepLast,
    /// Keep all messages.
    KeepAll,
}

/// Quality-of-service profile for publishers and subscribers.
#[derive(Debug, Clone, Copy, PartialEq, Eq, Structural)]
pub struct QosProfile {
    /// Reliability of the communication.
    pub reliability: Reliability,
    /// Durability of the communication.
    pub durability: Durability,
    /// History policy.
    pub history: History,
    /// Depth of the history queue.
    pub depth: usize,
    /// Deadline for receiving messages.
    pub deadline: Option<Duration>,
    /// Lifespan of messages.
    pub lifespan: Option<Duration>,
}

/// The profile used when none is given: reliable, volatile, keep the last
/// ten messages, no deadline, no lifespan.
pub open spec fn spec_default_profile() -> QosProfile {
    QosProfile {
        reliability: Reliability::Reliable,
        durability: Durability::Volatile,
        history: History::KeepLast,
        depth: 10,
        deadline: None,
        lifespan: None,
    }
}

impl Default for QosProfile {
    /// The default profile: reliable, volatile, keep last 10.
    fn default() -> (r: QosProfile)
        ensures
            r == spec_default_profile(),
    {
        QosProfile {
            reliability: Reliability::Reliable,
            durability: Durability::Volatile,
            history: History::KeepLast,
            depth: 10,
            deadline: None,
            lifespan: None,
        }
    }
}

impl QosProfile {
    /// Creates a new QoS profile with default values.
    pub fn new() -> (r: QosProfile)
        ensures
            r == spec_default_profile(),
    {
        QosProfile::default()
    }

    /// Sets the reliability of the QoS profile.
    pub fn reliability(self, reliability: Reliability) -> (r: QosProfile)
        ensures
            r == (QosProfile { reliability, ..self }),
    {
        QosProfile { reliability, ..self }
    }

    /// Sets the durability of the QoS profile.
    pub fn durability(self, durability: Durability) -> (r: QosProfile)
        ensures
            r == (QosProfile { durability, ..self }),
    {
        QosProfile { durability, ..self }
    }

    /// Sets the history policy of the QoS profile.
    pub fn history(self, history: History) -> (r: QosProfile)
        ensures
            r == (QosProfile { history, ..self }),
    {
        QosProfile { history, ..self }
    }

    /// Sets the depth of the history queue.
    pub fn depth(self, depth: usize) -> (r: QosProfile)
        ensures
            r == (QosProfile { depth, ..self }),
    {
        QosProfile { depth, ..self }
    }

    /// Sets the deadline for receiving messages.
    pub fn deadline(self, deadline: Duration) -> (r: QosProfile)
        ensures
            r == (QosProfile { deadline: Some(deadline), ..self }),
    {
        QosProfile { deadline: Some(deadline), ..self }
    }

    /// Sets the lifespan of messages.
    pub fn lifespan(self, lifespan: Duration) -> (r: QosProfile)
        ensures
            r == (QosProfile { lifespan: Some(lifespan), ..self }),
    {
        QosProfile { lifespan: Some(lifespan), ..self }
    }

    /// A profile for sensor data: high-frequency streams where the latest
    /// sample matters most, so delivery is best effort with a short history.
    pub fn sensor_data() -> (r: QosProfile)
        ensures
            r == (QosProfile {
                reliability: Reliability::BestEffort,
                durability: Durability::Volatile,
                history: History::KeepLast,
                depth: 5,
                deadline: None,
                lifespan: None,
            }),
    {
        QosProfile {
            reliability: Reliability::BestEffort,
            durability: Durability::Volatile,
            history: History::KeepLast,
            depth: 5,
            deadline: None,
            lifespan: None,
        }
    }

    /// A profile for parameters: low-frequency values where reliability and
    /// late-joiner delivery matter, so the last value is kept transient-local.
    pub fn parameters() -> (r: QosProfile)
        ensures
            r == (QosProfile {
                reliability: Reliability::Reliable,
                durability: Durability::TransientLocal,
                history: History::KeepLast,
                depth: 1,
                deadline: None,
                lifespan: None,
            }),
    {
        QosProfile {
            reliability: Reliability::Reliable,
            durability: Durability::TransientLocal,
            history: History::KeepLast,
            depth: 1,
            deadline: None,
            lifespan: None,
        }
    }

    /// A profile for services: reliable delivery with a one-second deadline.
    pub fn services() -> (r: QosProfile)
        ensures
            r == (QosProfile {
                reliability: Reliability::Reliable,
                durability: Durability::Volatile,
                history: History::KeepLast,
                depth: 10,
                deadline: Some(Duration { secs: 1, nanos: 0 }),
                lifespan: None,
            }),
    {
        QosProfile {
            reliability: Reliability::Reliable,
            durability: Durability::Volatile,
            history: History::KeepLast,
            depth: 10,
            deadline: Some(Duration::from_secs(1)),
            lifespan: None,
        }
    }
}

/// QoS preset for common use cases.
#[derive(Debug, Clone)]
pub enum QosPreset {
    /// Default QoS profile: reliable, volatile, keep last 10.
    Default,
    /// Optimized for sensor data: best effort, volatile, keep last 5.
    SensorData,
    /// Optimized for parameters: reliable, transient local, keep last 1.
    Parameters,
    /// Optimized for services: reliable, volatile, keep last 10, 1s deadline.
    Services,
    /// High throughput: best effort, volatile, keep last 100.
    HighThroughput,
    /// Low latency: best effort, volatile, keep last 1.
    LowLatency,
    /// Custom QoS profile.
    Custom(QosProfile),
}

impl Default for QosPreset {
    /// The default preset.
    fn default() -> (r: QosPreset)
        ensures
            r is Default,
    {
        QosPreset::Default
    }
}

/// The canonical profile a preset stands for.
pub open spec fn spec_preset_profile(preset: QosPreset) -> QosProfile {
    match preset {
        QosPreset::Default => spec_default_profile(),
        QosPreset::SensorData => QosProfile {
            reliability: Reliability::BestEffort,
            durability: Durability::Volatile,
            history: History::KeepLast,
            depth: 5,
            deadline: None,
            lifespan: None,
        },
        QosPreset::Parameters => QosProfile {
            reliability: Reliability::Reliable,
            durability: Durability::TransientLocal,
            history: History::KeepLast,
            depth: 1,
            deadline: None,
            lifespan: None,
        },
        QosPreset::Services => QosProfile {
            reliability: Reliability::Reliable,
            durability: Durability::Volatile,
            history: History::KeepLast,
            depth: 10,
            deadline: Some(Duration { secs: 1, nanos: 0 }),
            lifespan: None,
        },
        QosPreset::HighThroughput => QosProfile {
            reliability: Reliability::BestEffort,
            durability: Durability::Volatile,
            history: History::KeepLast,
            depth: 100,
            deadline: None,
            lifespan: None,
        },
        QosPreset::LowLatency => QosProfile {
            reliability: Reliability::BestEffort,
            durability: Durability::Volatile,
            history: History::KeepLast,
            depth: 1,
            deadline: None,
            lifespan: None,
        },
        QosPreset::Custom(profile) => profile,
    }
}

impl From<QosPreset> for QosProfile {
    /// Converts a preset into the canonical profile it stands for.
    fn from(preset: QosPreset) -> (r: QosProfile) {
        match preset {
            QosPreset::Default => QosProfile::default(),
            QosPreset::SensorData => QosProfile::sensor_data(),
            QosPreset::Parameters => QosProfile::parameters(),
            QosPreset::Services => QosProfile::services(),
            QosPreset::HighThroughput => QosProfile {
                reliability: Reliability::BestEffort,
                durability: Durability::Volatile,
                history: History::KeepLast,
                depth: 100,
                deadline: None,
                lifespan: None,
            },
            QosPreset::LowLatency => QosProfile {
                reliability: Reliability::BestEffort,
                durability: Durability::Volatile,
                history: History::KeepLast,
                depth: 1,
                deadline: None,
                lifespan: None,
            },
            QosPreset::Custom(profile) => profile,
        }
    }
}

impl vstd::std_specs::convert::FromSpecImpl<QosPreset> for QosProfile {
    open spec fn obeys_from_spec() -> bool {
        true
    }

    open spec fn from_spec(preset: QosPreset) -> QosProfile {
        spec_preset_profile(preset)
    }
}

} // verus!
