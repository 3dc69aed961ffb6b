//! The detection filter: turns a momentary "foreign piece seen" reading into
//! a window of fixed length during which the piece is steered away.
//!
//! Reading the sensor is left to the caller. A cycle starts with
//! [`DetectionFilter::evaluate`]; when it asks for a reading the caller takes
//! it and hands it to [`DetectionFilter::after_proximity`] and then to
//! [`DetectionFilter::after_hue`].
use crate::color::{classification, classify, Alliance, HueConfig};
use vstd::prelude::*;

verus! {

/// Default hold of a detection, in milliseconds.
pub const FILTER_INTERVAL_MS: u64 = 250;

/// Default proximity at or below which a piece counts as present, in
/// thousandths of the sensor's range.
pub const PROXIMITY_THRESHOLD: u32 = 500;

/// A failed read of the color/proximity sensor.
#[derive(Clone, Copy, Debug, PartialEq, Eq, Structural)]
pub struct SensorError;

/// Whether a foreign piece is being filtered in this cycle.
#[derive(Clone, Copy, Debug, PartialEq, Eq, Structural)]
pub enum FilterResult {
    Filtering,
    Idle,
}

/// What the filter needs next: a result, or a sensor reading.
#[derive(Clone, Copy, Debug, PartialEq, Eq, Structural)]
pub enum FilterStep {
    Done(FilterResult),
    ReadProximity,
    ReadHue,
}

/// When a foreign piece was first classified, in milliseconds.
#[derive(Clone, Copy, Debug, PartialEq, Eq, Structural)]
pub struct Detection {
    pub time: u64,
}

impl Detection {
    /// A detection made at `time`.
    pub fn new(time: u64) -> (r: Detection)
        ensures
            r.time == time,
    {
        Detection { time }
    }

    /// Whether a detection made at `time` still holds at `now`.
    pub open spec fn holds(time: int, now: int, hold: int) -> bool {
        now < time + hold
    }

    /// Whether this detection still holds at `now`, for a hold of `hold` ms.
    pub fn filters_at(&self, now: u64, hold: u64) -> (r: bool)
        ensures
            r == Self::holds(self.time as int, now as int, hold as int),
    {
        now < self.time || now - self.time < hold
    }
}

/// What `evaluate` does to a filter whose detection was made at `detected`
/// (if any): the detection afterwards and the step taken.
pub open spec fn evaluation(detected: Option<int>, now: int, own: Option<Alliance>, hold: int) -> (
    Option<int>,
    FilterStep,
) {
    match own {
        None => (detected, FilterStep::Done(FilterResult::Idle)),
        Some(_) => match detected {
            Some(t) => if Detection::holds(t, now, hold) {
                (detected, FilterStep::Done(FilterResult::Filtering))
            } else {
                (None, FilterStep::Done(FilterResult::Idle))
            },
            None => (None, FilterStep::ReadProximity),
        },
    }
}

/// The step after a proximity reading: a piece is close enough when the
/// reading is at most `threshold`; a failed read counts as no piece.
pub open spec fn proximity_step(reading: Result<u32, SensorError>, threshold: u32) -> FilterStep {
    match reading {
        Ok(p) => if p <= threshold {
            FilterStep::ReadHue
        } else {
            FilterStep::Done(FilterResult::Idle)
        },
        Err(_) => FilterStep::Done(FilterResult::Idle),
    }
}

/// What a hue reading taken at `now` does to a filter whose detection was
/// made at `detected`: a foreign piece starts a detection, unless one is
/// already live, which is kept.
pub open spec fn hue_outcome(
    detected: Option<int>,
    now: int,
    reading: Result<i64, SensorError>,
    own: Option<Alliance>,
    config: HueConfig,
) -> (Option<int>, FilterResult) {
    if detected is Some {
        (detected, FilterResult::Filtering)
    } else {
        match (own, reading) {
            (Some(a), Ok(h)) => if classification(h as int, a, config) is Some {
                (Some(now), FilterResult::Filtering)
            } else {
                (None, FilterResult::Idle)
            },
            _ => (None, FilterResult::Idle),
        }
    }
}

/// Debounce state: at most one live detection, held for a fixed time.
pub struct DetectionFilter {
    hold: u64,
    detection: Option<Detection>,
}

impl DetectionFilter {
    /// When the live detection was made, if there is one.
    pub closed spec fn detected_at(&self) -> Option<int> {
        match self.detection {
            Some(d) => Some(d.time as int),
            None => None,
        }
    }

    /// How long a detection holds, in milliseconds.
    pub closed spec fn hold_ms(&self) -> int {
        self.hold as int
    }

    /// A filter with no live detection whose detections hold for `hold` ms.
    pub fn new(hold: u64) -> (r: DetectionFilter)
        ensures
            r.detected_at() is None,
            r.hold_ms() == hold,
    {
        DetectionFilter { hold, detection: None }
    }

    /// The live detection, if any.
    pub fn detection(&self) -> (r: Option<Detection>)
        ensures
            self.detected_at() == (match r {
                Some(d) => Some(d.time as int),
                None => None::<int>,
            }),
    {
        self.detection
    }

    /// Starts a cycle at time `now` for a robot of alliance `own` (`None`:
    /// color sorting is off and nothing is ever filtered). A live detection
    /// answers without the sensor: it filters until its hold has passed and
    /// is then cleared. With none live, the sensor's proximity is asked for.
    pub fn evaluate(&mut self, now: u64, own: Option<Alliance>) -> (r: FilterStep)
        ensures
            final(self).hold_ms() == old(self).hold_ms(),
            (final(self).detected_at(), r) == evaluation(
                old(self).detected_at(),
                now as int,
                own,
                old(self).hold_ms(),
            ),
    {
        if own.is_none() {
            return FilterStep::Done(FilterResult::Idle);
        }
        match self.detection {
            Some(d) => {
                if d.filters_at(now, self.hold) {
                    FilterStep::Done(FilterResult::Filtering)
                } else {
                    self.detection = None;
                    FilterStep::Done(FilterResult::Idle)
                }
            },
            None => FilterStep::ReadProximity,
        }
    }

    /// Goes on from a proximity reading: asks for the hue when a piece is
    /// close enough, else the cycle is idle.
    pub fn after_proximity(reading: Result<u32, SensorError>, threshold: u32) -> (r: FilterStep)
        ensures
            r == proximity_step(reading, threshold),
    {
        match reading {
            Ok(p) => if p <= threshold {
                FilterStep::ReadHue
            } else {
                FilterStep::Done(FilterResult::Idle)
            },
            Err(_) => FilterStep::Done(FilterResult::Idle),
        }
    }

    /// Ends a cycle with a hue reading taken at `now`: a piece of the
    /// opposing alliance starts a detection and is filtered. A failed read,
    /// an unknown or own-color piece, or sorting being off leaves the cycle
    /// idle. A live detection is never replaced.
    pub fn after_hue(
        &mut self,
        now: u64,
        reading: Result<i64, SensorError>,
        own: Option<Alliance>,
        config: &HueConfig,
    ) -> (r: FilterResult)
        ensures
            final(self).hold_ms() == old(self).hold_ms(),
            (final(self).detected_at(), r) == hue_outcome(
                old(self).detected_at(),
                now as int,
                reading,
                own,
                *config,
            ),
    {
        if self.detection.is_some() {
            return FilterResult::Filtering;
        }
        match (own, reading) {
            (Some(a), Ok(h)) => {
                if classify(h, a, config).is_some() {
                    self.detection = Some(Detection::new(now));
                    FilterResult::Filtering
                } else {
                    FilterResult::Idle
                }
            },
            _ => FilterResult::Idle,
        }
    }
}

/// A detection made at `t` filters at every time in `[t, t + hold)`,
/// keeping itself, and at any time from `t + hold` on it is cleared and the
/// cycle is idle. Once cleared it is gone: the next cycle asks the sensor
/// again rather than clearing a second time.
pub proof fn lemma_detection_hold(t: int, now: int, later: int, own: Alliance, hold: int)
    requires
        t <= now,
    ensures
        now < t + hold ==> evaluation(Some(t), now, Some(own), hold) == (
            Some(t),
            FilterStep::Done(FilterResult::Filtering),
        ),
        now >= t + hold ==> evaluation(Some(t), now, Some(own), hold) == (
            None::<int>,
            FilterStep::Done(FilterResult::Idle),
        ),
        evaluation(None, later, Some(own), hold) == (None::<int>, FilterStep::ReadProximity),
{
}

/// A foreign piece seen at `t` by a filter with no live detection starts a
/// detection made at `t`, which then filters until `t + hold`.
pub proof fn lemma_detection_starts(
    t: int,
    h: i64,
    own: Alliance,
    config: HueConfig,
)
    requires
        classification(h as int, own, config) is Some,
    ensures
        hue_outcome(None, t, Ok(h), Some(own), config) == (Some(t), FilterResult::Filtering),
{
}

/// While a detection is live no other is created: neither evaluating nor a
/// hue reading, even of a foreign piece, moves it to another time.
pub proof fn lemma_single_detection(
    t: int,
    now: int,
    own: Option<Alliance>,
    hold: int,
    reading: Result<i64, SensorError>,
    config: HueConfig,
)
    ensures
        hue_outcome(Some(t), now, reading, own, config).0 == Some(t),
        evaluation(Some(t), now, own, hold).0 == Some(t) || evaluation(
            Some(t),
            now,
            own,
            hold,
        ).0 is None,
{
}

} // verus!
