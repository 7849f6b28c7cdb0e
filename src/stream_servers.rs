//! The capability contract shared by all backends, the decision policy, and the
//! registry entry that names, ranks and enables one backend.
use vstd::prelude::*;

use crate::api_v3::Progress;
use crate::restreamer::{progress_info_string, Restreamer};
use crate::switcher::{SwitchType, SwitchingScenes, Triggers};
use crate::text::{decimal, decimal_string};

verus! {

/// A bitrate floor given in kbit/s, in bit/s.
pub open spec fn floor_bps(kbit: u32) -> nat {
    kbit as nat * 1000
}

/// The decision policy. `reading` is the fetched bitrate in bit/s, or `None` when
/// the fetch failed.
pub open spec fn decision(reading: Option<nat>, triggers: Triggers) -> SwitchType {
    match reading {
        None => SwitchType::Offline,
        Some(bps) => {
            if triggers.offline is Some && 0 < bps && bps <= floor_bps(triggers.offline->0) {
                SwitchType::Offline
            } else if triggers.low is Some && bps <= floor_bps(triggers.low->0) {
                SwitchType::Low
            } else if bps == 0 {
                SwitchType::Previous
            } else {
                SwitchType::Normal
            }
        },
    }
}

/// A failed fetch is always `Offline`, whatever the thresholds.
pub proof fn lemma_failed_fetch_is_offline(triggers: Triggers)
    ensures
        decision(None, triggers) == SwitchType::Offline,
{
}

/// A successful fetch with a bitrate of exactly zero keeps the previous scene
/// when no low floor is set. (With a low floor set, zero is at or under it and
/// the decision is `Low`.)
pub proof fn lemma_zero_bitrate_keeps_previous(triggers: Triggers)
    requires
        triggers.low is None,
    ensures
        decision(Some(0), triggers) == SwitchType::Previous,
{
}

/// A positive bitrate at or under a set offline floor is `Offline`, whatever the
/// low floor.
pub proof fn lemma_under_offline_floor(bps: nat, triggers: Triggers)
    requires
        bps > 0,
        triggers.offline is Some,
        bps <= floor_bps(triggers.offline->0),
    ensures
        decision(Some(bps), triggers) == SwitchType::Offline,
{
}

/// A positive bitrate that the offline floor does not catch, at or under a set
/// low floor, is `Low`.
pub proof fn lemma_under_low_floor(bps: nat, triggers: Triggers)
    requires
        bps > 0,
        !(triggers.offline is Some && bps <= floor_bps(triggers.offline->0)),
        triggers.low is Some,
        bps <= floor_bps(triggers.low->0),
    ensures
        decision(Some(bps), triggers) == SwitchType::Low,
{
}

/// A positive bitrate above every set floor is `Normal`. (A bitrate of zero with
/// no floor set keeps the previous scene instead.)
pub proof fn lemma_above_floors_is_normal(bps: nat, triggers: Triggers)
    requires
        bps > 0,
        triggers.offline is Some ==> bps > floor_bps(triggers.offline->0),
        triggers.low is Some ==> bps > floor_bps(triggers.low->0),
    ensures
        decision(Some(bps), triggers) == SwitchType::Normal,
{
}

/// Both floors are inclusive: a bitrate equal to a positive offline floor is
/// `Offline`, and one equal to the low floor that the offline floor does not
/// catch is `Low`.
pub proof fn lemma_floors_are_inclusive(triggers: Triggers)
    ensures
        triggers.offline is Some && triggers.offline->0 > 0 ==> decision(
            Some(floor_bps(triggers.offline->0)),
            triggers,
        ) == SwitchType::Offline,
        triggers.low is Some && !(triggers.offline is Some && 0 < floor_bps(triggers.low->0)
            <= floor_bps(triggers.offline->0)) ==> decision(
            Some(floor_bps(triggers.low->0)),
            triggers,
        ) == SwitchType::Low,
{
}

/// A fetched bitrate in bit/s as a mathematical reading.
pub open spec fn reading_of(bitrate_bps: Option<u64>) -> Option<nat> {
    match bitrate_bps {
        Some(b) => Some(b as nat),
        None => None,
    }
}

/// Applies the decision policy to a fetched bitrate in bit/s (`None`: the fetch failed).
pub fn decide(bitrate_bps: Option<u64>, triggers: &Triggers) -> (r: SwitchType)
    ensures
        r == decision(reading_of(bitrate_bps), *triggers),
{
    let bps = match bitrate_bps {
        None => return SwitchType::Offline,
        Some(b) => b,
    };
    if let Some(offline) = triggers.offline {
        if bps > 0 && bps <= offline as u64 * 1000 {
            return SwitchType::Offline;
        }
    }
    if let Some(low) = triggers.low {
        if bps <= low as u64 * 1000 {
            return SwitchType::Low;
        }
    }
    if bps == 0 {
        SwitchType::Previous
    } else {
        SwitchType::Normal
    }
}

/// A bitrate reading for chat display; `None` means no usable reading.
#[derive(Debug)]
pub struct Bitrate {
    pub message: Option<String>,
}

impl View for Bitrate {
    type V = Option<Seq<char>>;

    open spec fn view(&self) -> Option<Seq<char>> {
        match self.message {
            Some(m) => Some(m@),
            None => None,
        }
    }
}

/// The chat message for a reading: the whole kbit/s, truncated, unless the fetch
/// failed or the bitrate is exactly zero.
pub open spec fn bitrate_message(reading: Option<nat>) -> Option<Seq<char>> {
    match reading {
        Some(bps) => if bps == 0 {
            None
        } else {
            Some(decimal(bps / 1000))
        },
        None => None,
    }
}

impl Bitrate {
    /// The chat message for a fetched bitrate in bit/s (`None`: the fetch failed).
    pub fn from_reading(bitrate_bps: Option<u64>) -> (r: Bitrate)
        ensures
            r@ == bitrate_message(reading_of(bitrate_bps)),
    {
        match bitrate_bps {
            Some(bps) => if bps == 0 {
                Bitrate { message: None }
            } else {
                Bitrate { message: Some(decimal_string(bps / 1000)) }
            },
            None => Bitrate { message: None },
        }
    }
}

/// What a backend fetches: its own snapshot type, and the bitrate the policy reads
/// from it.
pub trait Telemetry {
    type Stats;

    /// The snapshot's bitrate in bit/s.
    spec fn bitrate_bps(stats: Self::Stats) -> nat;
}

/// A fetched snapshot, or `None` when the fetch failed, as a bitrate reading.
pub open spec fn reading<T: Telemetry + ?Sized>(stats: Option<T::Stats>) -> Option<nat> {
    match stats {
        Some(s) => Some(T::bitrate_bps(s)),
        None => None,
    }
}

/// Which scene to switch to, given what the backend's fetch returned.
pub trait SwitchLogic: Telemetry {
    fn switch(&self, stats: &Option<Self::Stats>, triggers: &Triggers) -> (r: SwitchType)
        ensures
            r == decision(reading::<Self>(*stats), *triggers),
    ;
}

/// Chat commands over what the backend's fetch returned.
pub trait StreamServersCommands: Telemetry {
    /// The backend's one-line status text for a snapshot.
    spec fn source_info_text(stats: Self::Stats) -> Seq<char>;

    fn bitrate(&self, stats: &Option<Self::Stats>) -> (r: Bitrate)
        ensures
            r@ == bitrate_message(reading::<Self>(*stats)),
    ;

    fn source_info(&self, stats: &Option<Self::Stats>) -> (r: Option<String>)
        ensures
            r is Some <==> stats is Some,
            r is Some ==> r->0@ == Self::source_info_text(stats->0),
    ;
}

/// A pluggable backend: both capability sets.
pub trait Bsl: SwitchLogic + StreamServersCommands {

}

/// The backend kinds, each with its own configuration.
#[derive(Clone, Debug)]
pub enum Backend {
    Restreamer(Restreamer),
}

/// The kind of a backend, as named in configuration.
#[derive(Clone, Copy, Debug, PartialEq, Eq, Structural)]
pub enum BackendKind {
    Restreamer,
}

impl Backend {
    pub fn kind(&self) -> (r: BackendKind)
        ensures
            (self is Restreamer) <==> r == BackendKind::Restreamer,
    {
        match self {
            Backend::Restreamer(_) => BackendKind::Restreamer,
        }
    }

    /// The restreamer configuration, for operations only that backend has;
    /// `None` for any other kind.
    pub fn as_restreamer_mut(&mut self) -> (r: Option<&mut Restreamer>)
        ensures
            (r is Some) <==> (*old(self) is Restreamer),
            r matches Some(c) ==> *c == old(self)->Restreamer_0 && *final(self)
                == Backend::Restreamer(*final(c)),
    {
        match self {
            Backend::Restreamer(r) => Some(r),
        }
    }
}

/// A snapshot fetched from a backend, by kind.
#[derive(Clone, Debug)]
pub enum BackendStats {
    Restreamer(Progress),
}

impl Telemetry for Backend {
    type Stats = BackendStats;

    open spec fn bitrate_bps(stats: BackendStats) -> nat {
        match stats {
            BackendStats::Restreamer(p) => <Restreamer as Telemetry>::bitrate_bps(p),
        }
    }
}

impl SwitchLogic for Backend {
    fn switch(&self, stats: &Option<BackendStats>, triggers: &Triggers) -> (r: SwitchType) {
        let reading = match stats {
            Some(BackendStats::Restreamer(p)) => Some(p.bitrate_bps),
            None => None,
        };
        decide(reading, triggers)
    }
}

impl StreamServersCommands for Backend {
    open spec fn source_info_text(stats: BackendStats) -> Seq<char> {
        match stats {
            BackendStats::Restreamer(p) => <Restreamer as StreamServersCommands>::source_info_text(p),
        }
    }

    fn bitrate(&self, stats: &Option<BackendStats>) -> (r: Bitrate) {
        let reading = match stats {
            Some(BackendStats::Restreamer(p)) => Some(p.bitrate_bps),
            None => None,
        };
        Bitrate::from_reading(reading)
    }

    fn source_info(&self, stats: &Option<BackendStats>) -> (r: Option<String>) {
        match stats {
            Some(BackendStats::Restreamer(p)) => Some(progress_info_string(p)),
            None => None,
        }
    }
}

impl Bsl for Backend {

}

/// One configured backend: named, optionally ranked, optionally with scenes of
/// its own, optionally depending on another entry, and enabled or not.
pub struct StreamServer {
    /// The stream server
    pub stream_server: Backend,
    /// A name to differentiate in case of multiple stream servers
    pub name: String,
    /// Priority
    pub priority: Option<i32>,
    /// Override default scenes
    pub override_scenes: Option<SwitchingScenes>,
    pub depends_on: Option<DependsOn>,
    /// Stream server enabled
    pub enabled: bool,
}

impl StreamServer {
    /// An entry with only the required fields given: no priority, no scenes of
    /// its own, no dependency, enabled.
    pub fn new(stream_server: Backend, name: String) -> (r: StreamServer)
        ensures
            r.stream_server == stream_server,
            r.name == name,
            r.priority is None,
            r.override_scenes is None,
            r.depends_on is None,
            r.enabled,
    {
        StreamServer {
            stream_server,
            name,
            priority: None,
            override_scenes: None,
            depends_on: None,
            enabled: default_server_enabled(),
        }
    }
}

/// Another entry this one depends on, with the scenes to use in its place.
#[derive(Clone, Debug)]
pub struct DependsOn {
    pub name: String,
    pub backup_scenes: SwitchingScenes,
}

/// Entries are enabled unless the configuration says otherwise.
pub fn default_server_enabled() -> (r: bool)
    ensures
        r,
{
    true
}

} // verus!
