//! Providers of sandboxes: what they tell about a sandbox.

use vstd::prelude::*;

use crate::outside::{parse_instant, rfc3339_instant};
use crate::settings::{Label, SandboxProviderKind};
use crate::text::opt_text;

pub mod aca;

verus! {

/// The state of a sandbox, whoever provides it.
#[derive(Clone, Copy, Debug, PartialEq, Eq, Structural)]
pub enum SandboxStatus {
    Running,
    Stopped,
    Unknown,
}

/// What is known of a sandbox's network.
#[derive(Clone, Copy, Debug, PartialEq, Eq, Structural)]
pub enum SandboxNetwork {
    Unknown,
}

/// A moment: seconds since the Unix epoch, and nanoseconds on top. In a leap second these may
/// exceed a second's worth.
#[derive(Clone, Copy, Debug, PartialEq, Eq, Structural)]
pub struct Timestamp {
    pub seconds: i64,
    pub nanos: u32,
}

/// What is known of a sandbox's resources.
#[derive(Debug)]
pub struct InfoResources {
    /// The thousandths of a core, as they were written: a text that is not empty, and that is not
    /// checked to be a number.
    pub millicpu: Option<String>,
    pub memory_bytes: Option<u64>,
    pub disk_bytes: Option<u64>,
}

/// What is known of a sandbox, whoever provides it.
#[derive(Debug)]
pub struct SandboxInfo {
    pub provider: SandboxProviderKind,
    pub id: String,
    pub display_name: Option<String>,
    pub state: SandboxStatus,
    pub native_state: Option<String>,
    pub image: Option<String>,
    pub snapshot: Option<String>,
    pub region: Option<String>,
    pub web_url: Option<String>,
    pub working_directory: Option<String>,
    pub resources: InfoResources,
    pub network: SandboxNetwork,
    pub labels: Vec<Label>,
    pub created_at: Option<Timestamp>,
    pub last_activity_at: Option<Timestamp>,
}

/// The model of a [`SandboxInfo`].
#[verifier::ext_equal]
pub ghost struct InfoView {
    pub provider: SandboxProviderKind,
    pub id: Seq<char>,
    pub display_name: Option<Seq<char>>,
    pub state: SandboxStatus,
    pub native_state: Option<Seq<char>>,
    pub image: Option<Seq<char>>,
    pub snapshot: Option<Seq<char>>,
    pub region: Option<Seq<char>>,
    pub web_url: Option<Seq<char>>,
    pub working_directory: Option<Seq<char>>,
    pub millicpu: Option<Seq<char>>,
    pub memory_bytes: Option<u64>,
    pub disk_bytes: Option<u64>,
    pub network: SandboxNetwork,
    pub labels: Seq<Label>,
    pub created_at: Option<Timestamp>,
    pub last_activity_at: Option<Timestamp>,
}

impl View for SandboxInfo {
    type V = InfoView;

    open spec fn view(&self) -> InfoView {
        InfoView {
            provider: self.provider,
            id: self.id@,
            display_name: opt_text(self.display_name),
            state: self.state,
            native_state: opt_text(self.native_state),
            image: opt_text(self.image),
            snapshot: opt_text(self.snapshot),
            region: opt_text(self.region),
            web_url: opt_text(self.web_url),
            working_directory: opt_text(self.working_directory),
            millicpu: opt_text(self.resources.millicpu),
            memory_bytes: self.resources.memory_bytes,
            disk_bytes: self.resources.disk_bytes,
            network: self.network,
            labels: self.labels@,
            created_at: self.created_at,
            last_activity_at: self.last_activity_at,
        }
    }
}

/// The moment of a pair of seconds and nanoseconds.
pub open spec fn moment(instant: Option<(i64, u32)>) -> Option<Timestamp> {
    match instant {
        Some((seconds, nanos)) => Some(Timestamp { seconds, nanos }),
        None => None,
    }
}

/// Reads a moment in the form of RFC 3339.
pub fn parse_rfc3339(value: &str) -> (r: Option<Timestamp>)
    ensures
        r == moment(rfc3339_instant(value@)),
{
    match parse_instant(value) {
        Some((seconds, nanos)) => Some(Timestamp { seconds, nanos }),
        None => None,
    }
}

} // verus!
