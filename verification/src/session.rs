//! Decision logic of a device session: the lifecycle state machine, the
//! choice of the notifying characteristic, the per-notification pipeline,
//! and validation of batch connect requests. The awaits — scanning,
//! connecting, subscribing, reading the stream — happen outside; each
//! outcome is handed back here as an event.

use vstd::prelude::*;

use crate::config::config_wf;
use crate::detect::CompetitorInfo;
use crate::detect::SimpleCombatEvent;
use crate::detect::SimpleEventDetector;
use crate::detect::spec_detector_step;
use crate::detect::spec_event_matches;
use crate::detect::spec_sample_accepted;
use crate::errors::BleError;
use crate::frame::parse_imu_data;
use crate::frame::spec_parse_imu_data;
use crate::stats::MaxStatsStore;
use crate::stats::StatsUpdate;
use crate::stats::spec_acceleration_exceeded;
use crate::stats::spec_exceeded_list;
use crate::stats::spec_force_exceeded;
use crate::stats::spec_lookup;
use crate::stats::spec_new_acceleration;
use crate::stats::spec_new_force;
use crate::stats::spec_new_velocity;
use crate::stats::spec_velocity_exceeded;
use crate::stats::store_wf;

verus! {

/// The phase a device session is in.
#[derive(Debug, Clone, Copy, PartialEq, Eq, Structural)]
pub enum SessionPhase {
    Discovering,
    Connecting,
    DiscoveringServices,
    Subscribing,
    Streaming,
    TerminatedOk,
    TerminatedErr,
}

/// The outcome of one awaited step, as the runtime reports it back.
#[derive(Debug, Clone, Copy, PartialEq, Eq, Structural)]
pub enum SessionEvent {
    DeviceFound,
    DeviceNotFound,
    Connected,
    ConnectRejected,
    CharacteristicFound,
    NoCharacteristic,
    Subscribed,
    SubscribeRejected,
    StreamEnded,
    StreamError,
    Cancelled,
}

/// The session lifecycle: each phase consumes the outcome of its awaited
/// step and either advances or terminates. A failure before streaming
/// aborts the session with the phase's error; a mid-stream transport
/// error terminates only this session; cancellation terminates cleanly
/// from any phase; any other outcome is ignored in a phase it does not
/// belong to.
pub open spec fn spec_session_step(p: SessionPhase, e: SessionEvent) -> (SessionPhase, Option<
    BleError,
>) {
    match (p, e) {
        (_, SessionEvent::Cancelled) => (SessionPhase::TerminatedOk, None),
        (SessionPhase::Discovering, SessionEvent::DeviceFound) => (SessionPhase::Connecting, None),
        (SessionPhase::Discovering, SessionEvent::DeviceNotFound) => (
            SessionPhase::TerminatedErr,
            Some(BleError::DeviceNotFound),
        ),
        (SessionPhase::Connecting, SessionEvent::Connected) => (
            SessionPhase::DiscoveringServices,
            None,
        ),
        (SessionPhase::Connecting, SessionEvent::ConnectRejected) => (
            SessionPhase::TerminatedErr,
            Some(BleError::ConnectFailed),
        ),
        (SessionPhase::DiscoveringServices, SessionEvent::CharacteristicFound) => (
            SessionPhase::Subscribing,
            None,
        ),
        (SessionPhase::DiscoveringServices, SessionEvent::NoCharacteristic) => (
            SessionPhase::TerminatedErr,
            Some(BleError::NoNotifyingCharacteristic),
        ),
        (SessionPhase::Subscribing, SessionEvent::Subscribed) => (SessionPhase::Streaming, None),
        (SessionPhase::Subscribing, SessionEvent::SubscribeRejected) => (
            SessionPhase::TerminatedErr,
            Some(BleError::SubscribeFailed),
        ),
        (SessionPhase::Streaming, SessionEvent::StreamEnded) => (SessionPhase::TerminatedOk, None),
        (SessionPhase::Streaming, SessionEvent::StreamError) => (
            SessionPhase::TerminatedErr,
            Some(BleError::TransportReadError),
        ),
        _ => (p, None),
    }
}

/// Advances the session state machine by one observed outcome.
pub fn session_advance(phase: SessionPhase, event: SessionEvent) -> (r: (SessionPhase, Option<
    BleError,
>))
    ensures
        r == spec_session_step(phase, event),
{
    match (phase, event) {
        (_, SessionEvent::Cancelled) => (SessionPhase::TerminatedOk, None),
        (SessionPhase::Discovering, SessionEvent::DeviceFound) => (SessionPhase::Connecting, None),
        (SessionPhase::Discovering, SessionEvent::DeviceNotFound) => (
            SessionPhase::TerminatedErr,
            Some(BleError::DeviceNotFound),
        ),
        (SessionPhase::Connecting, SessionEvent::Connected) => (
            SessionPhase::DiscoveringServices,
            None,
        ),
        (SessionPhase::Connecting, SessionEvent::ConnectRejected) => (
            SessionPhase::TerminatedErr,
            Some(BleError::ConnectFailed),
        ),
        (SessionPhase::DiscoveringServices, SessionEvent::CharacteristicFound) => (
            SessionPhase::Subscribing,
            None,
        ),
        (SessionPhase::DiscoveringServices, SessionEvent::NoCharacteristic) => (
            SessionPhase::TerminatedErr,
            Some(BleError::NoNotifyingCharacteristic),
        ),
        (SessionPhase::Subscribing, SessionEvent::Subscribed) => (SessionPhase::Streaming, None),
        (SessionPhase::Subscribing, SessionEvent::SubscribeRejected) => (
            SessionPhase::TerminatedErr,
            Some(BleError::SubscribeFailed),
        ),
        (SessionPhase::Streaming, SessionEvent::StreamEnded) => (SessionPhase::TerminatedOk, None),
        (SessionPhase::Streaming, SessionEvent::StreamError) => (
            SessionPhase::TerminatedErr,
            Some(BleError::TransportReadError),
        ),
        _ => (phase, None),
    }
}

/// The advertised properties of one characteristic, as far as the session
/// cares: whether it supports notifications.
#[derive(Debug, Clone, Copy, PartialEq, Eq, Structural)]
pub struct CharacteristicProps {
    pub notify: bool,
}

/// No characteristic of services `0..si` (and, within service `si`, none
/// of characteristics `0..ci`) advertises notification support.
pub open spec fn spec_no_notify_before(
    services: Seq<Seq<CharacteristicProps>>,
    si: int,
    ci: int,
) -> bool {
    &&& forall|s: int, c: int|
        0 <= s < si && 0 <= c < services[s].len() ==> !(#[trigger] services[s][c]).notify
    &&& forall|c: int| 0 <= c < ci ==> !(#[trigger] services[si][c]).notify
}

/// Selects the first characteristic, in service order then declaration
/// order, whose properties advertise notification support; `None` when no
/// service has one.
pub fn select_notify_characteristic(services: &Vec<Vec<CharacteristicProps>>) -> (r: Option<
    (usize, usize),
>)
    ensures
        r matches Some(p) ==> p.0 < services@.len() && p.1 < services@[p.0 as int]@.len()
            && services@[p.0 as int]@[p.1 as int].notify && spec_no_notify_before(
            services@.map_values(|v: Vec<CharacteristicProps>| v@),
            p.0 as int,
            p.1 as int,
        ),
        r is None ==> spec_no_notify_before(
            services@.map_values(|v: Vec<CharacteristicProps>| v@),
            services@.len() as int,
            0,
        ),
{
    let ghost flat = services@.map_values(|v: Vec<CharacteristicProps>| v@);
    let ns = services.len();
    let mut si: usize = 0;
    while si < ns
        invariant
            ns == services@.len(),
            si <= ns,
            flat == services@.map_values(|v: Vec<CharacteristicProps>| v@),
            spec_no_notify_before(flat, si as int, 0),
        decreases ns - si,
    {
        let nc = services[si].len();
        let mut ci: usize = 0;
        while ci < nc
            invariant
                ns == services@.len(),
                si < ns,
                nc == services@[si as int]@.len(),
                ci <= nc,
                flat == services@.map_values(|v: Vec<CharacteristicProps>| v@),
                spec_no_notify_before(flat, si as int, ci as int),
            decreases nc - ci,
        {
            if services[si][ci].notify {
                return Some((si, ci));
            }
            ci += 1;
        }
        si += 1;
    }
    None
}

/// One item of a batch connect request, as the caller hands it over;
/// any field may be missing. The person's body mass is in grams.
#[derive(Debug, Clone)]
pub struct ConnectRequest {
    pub device_id: Option<String>,
    pub competitor_id: Option<u8>,
    pub competitor_name: Option<String>,
    pub competitor_weight_grams: Option<u32>,
}

/// A batch connect item with every required field present.
#[derive(Debug, Clone)]
pub struct ValidConnectRequest {
    pub device_id: String,
    pub competitor: CompetitorInfo,
}

/// Validates one batch connect item: every field is required, and a
/// missing one rejects exactly that item with `InvalidRequest` — the rest
/// of the batch is unaffected.
pub fn validate_connect_request(req: &ConnectRequest) -> (r: Result<ValidConnectRequest, BleError>)
    ensures
        (r is Ok) == (req.device_id is Some && req.competitor_id is Some && req.competitor_name
            is Some && req.competitor_weight_grams is Some),
        r matches Ok(v) ==> (req.device_id matches Some(d) && v.device_id@ == d@) && (
        req.competitor_id matches Some(i) && v.competitor.id == i) && (req.competitor_name matches Some(
            n,
        ) && v.competitor.name@ == n@) && (req.competitor_weight_grams matches Some(w)
            && v.competitor.weight_grams == w),
        r is Err ==> r == Err::<ValidConnectRequest, BleError>(BleError::InvalidRequest),
{
    let device_id = match &req.device_id {
        Some(d) => d.clone(),
        None => {
            return Err(BleError::InvalidRequest);
        },
    };
    let id = match req.competitor_id {
        Some(i) => i,
        None => {
            return Err(BleError::InvalidRequest);
        },
    };
    let name = match &req.competitor_name {
        Some(n) => n.clone(),
        None => {
            return Err(BleError::InvalidRequest);
        },
    };
    let weight_grams = match req.competitor_weight_grams {
        Some(w) => w,
        None => {
            return Err(BleError::InvalidRequest);
        },
    };
    Ok(ValidConnectRequest { device_id, competitor: CompetitorInfo { id, name, weight_grams } })
}

/// Runs one raw notification through the whole pipeline: length gate,
/// frame decode, classification, and the record tracker. Exactly the
/// 14-byte payloads whose decoded sample the detector accepts produce an
/// event; everything else changes nothing. The stats outcome reports the
/// metrics on which the event set a new best, if any.
pub fn process_notification_data(
    detector: &mut SimpleEventDetector,
    stats: &mut MaxStatsStore,
    data: &[u8],
    timestamp: u64,
) -> (r: Option<(SimpleCombatEvent, Option<StatsUpdate>)>)
    requires
        config_wf(old(detector).config),
        store_wf(*old(stats)),
    ensures
        config_wf(final(detector).config),
        store_wf(*final(stats)),
        data@.len() != 14 ==> r is None && *final(detector) == *old(detector) && *final(stats)
            == *old(stats),
        data@.len() == 14 ==> (spec_parse_imu_data(data@, timestamp) matches Some(sample) && {
            &&& *final(detector) == spec_detector_step(*old(detector), sample)
            &&& (r is Some) == spec_sample_accepted(*old(detector), sample)
            &&& r is None ==> *final(stats) == *old(stats)
            &&& r matches Some(pair) ==> {
                let e = pair.0;
                &&& spec_event_matches(*old(detector), sample, e)
                &&& spec_lookup(final(stats).records@, e.fighter_id) matches Some(rec)
                    && rec.max_force as int == spec_new_force(old(stats).records@, e)
                    && rec.max_velocity as int == spec_new_velocity(old(stats).records@, e)
                    && rec.max_acceleration as int == spec_new_acceleration(old(stats).records@, e)
                &&& forall|id2: u8|
                    id2 != e.fighter_id ==> spec_lookup(final(stats).records@, id2) == spec_lookup(
                        old(stats).records@,
                        id2,
                    )
                &&& (pair.1 is Some) == (spec_force_exceeded(old(stats).records@, e)
                    || spec_velocity_exceeded(old(stats).records@, e) || spec_acceleration_exceeded(
                    old(stats).records@,
                    e,
                ))
                &&& pair.1 matches Some(u) ==> u.new_records@ == spec_exceeded_list(
                    spec_force_exceeded(old(stats).records@, e),
                    spec_velocity_exceeded(old(stats).records@, e),
                    spec_acceleration_exceeded(old(stats).records@, e),
                ) && (spec_lookup(final(stats).records@, e.fighter_id) matches Some(rec2)
                    && u.stats == rec2)
            }
        }),
{
    if data.len() != 14 {
        return None;
    }
    let sample = match parse_imu_data(data, timestamp) {
        Some(s) => s,
        None => {
            return None;
        },
    };
    let event = match detector.detect_event(&sample) {
        Some(e) => e,
        None => {
            return None;
        },
    };
    let update = stats.record(&event);
    Some((event, update))
}

} // verus!
