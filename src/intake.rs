//! The actuator coordinator: one control cycle of the intake, from the
//! selected command and the two timers to the drive of each stage and the
//! position of its exit gate.
//!
//! The caller owns the hardware. Each cycle it calls [`Intake::update`] with
//! the time and the latest command; when the answer asks for a sensor
//! reading it takes one and passes it to [`Intake::proximity_read`] or
//! [`Intake::hue_read`], until it gets the outputs to write.
use crate::clear_window::{window_outcome, ClearWindow, REVERSE_INTERVAL_MS};
use crate::color::{Alliance, HueConfig};
use crate::command::{opens_clear_window, Command};
use crate::detection::{
    evaluation, hue_outcome, proximity_step, DetectionFilter, FilterResult, FilterStep,
    SensorError, FILTER_INTERVAL_MS, PROXIMITY_THRESHOLD,
};
use vstd::prelude::*;

verus! {

/// How a stage is driven. On the transport stages `Forward` pulls pieces in
/// and `Reverse` pushes them back out; on the exit stage `Forward` sends
/// pieces to the upper exit and `Reverse` to the lower one.
#[derive(Clone, Copy, Debug, PartialEq, Eq, Structural)]
pub enum Direction {
    Forward,
    Reverse,
    Stopped,
}

/// Position of the exit gate at the far end of the intake.
#[derive(Clone, Copy, Debug, PartialEq, Eq, Structural)]
pub enum GatePosition {
    Open,
    Closed,
}

impl GatePosition {
    /// Whether the exit gate piston is extended in this position: open is out.
    pub fn is_extended(&self) -> (r: bool)
        ensures
            r == (*self is Open),
    {
        match self {
            GatePosition::Open => true,
            GatePosition::Closed => false,
        }
    }
}

/// Everything written to the actuators in one cycle.
#[derive(Clone, Copy, Debug, PartialEq, Eq, Structural)]
pub struct Outputs {
    pub gate: GatePosition,
    pub stage0: Direction,
    pub stage1: Direction,
    pub stage2: Direction,
}

/// Drive of the exit stage that sends pieces to the upper exit.
pub open spec fn upper_exit() -> Direction {
    Direction::Forward
}

/// Drive of the exit stage that sends pieces to the lower exit.
pub open spec fn lower_exit() -> Direction {
    Direction::Reverse
}

/// Gate open, everything running backwards: what a clear window forces.
pub open spec fn forced_reverse() -> Outputs {
    Outputs {
        gate: GatePosition::Open,
        stage0: Direction::Reverse,
        stage1: Direction::Reverse,
        stage2: Direction::Reverse,
    }
}

/// The outputs for `command` when the clear window is (`clear`) or is not
/// active and the filter reports `filter`. While scoring, a foreign piece is
/// sent to the exit other than the one the command scores through; the
/// clear window overrides the filter.
pub open spec fn planned_outputs(command: Command, clear: bool, filter: FilterResult) -> Outputs {
    match command {
        Command::Stop => Outputs {
            gate: GatePosition::Closed,
            stage0: Direction::Stopped,
            stage1: Direction::Stopped,
            stage2: Direction::Stopped,
        },
        Command::Collect => Outputs {
            gate: GatePosition::Closed,
            stage0: Direction::Forward,
            stage1: Direction::Forward,
            stage2: Direction::Forward,
        },
        Command::ScoreLow => Outputs {
            gate: GatePosition::Closed,
            stage0: Direction::Reverse,
            stage1: Direction::Reverse,
            stage2: Direction::Reverse,
        },
        Command::ScoreMiddle => if clear {
            forced_reverse()
        } else {
            Outputs {
                gate: GatePosition::Open,
                stage0: Direction::Forward,
                stage1: Direction::Forward,
                stage2: if filter is Filtering {
                    upper_exit()
                } else {
                    lower_exit()
                },
            }
        },
        Command::ScoreLong => if clear {
            forced_reverse()
        } else {
            Outputs {
                gate: GatePosition::Open,
                stage0: Direction::Forward,
                stage1: Direction::Forward,
                stage2: if filter is Filtering {
                    lower_exit()
                } else {
                    upper_exit()
                },
            }
        },
    }
}

/// The outputs for one cycle: see [`planned_outputs`].
pub fn plan_outputs(command: Command, clear: bool, filter: FilterResult) -> (r: Outputs)
    ensures
        r == planned_outputs(command, clear, filter),
{
    let inward = Direction::Forward;
    let outward = Direction::Reverse;
    match command {
        Command::Stop => Outputs {
            gate: GatePosition::Closed,
            stage0: Direction::Stopped,
            stage1: Direction::Stopped,
            stage2: Direction::Stopped,
        },
        Command::Collect => Outputs {
            gate: GatePosition::Closed,
            stage0: inward,
            stage1: inward,
            stage2: inward,
        },
        Command::ScoreLow => Outputs {
            gate: GatePosition::Closed,
            stage0: outward,
            stage1: outward,
            stage2: outward,
        },
        Command::ScoreMiddle | Command::ScoreLong => {
            if clear {
                Outputs { gate: GatePosition::Open, stage0: outward, stage1: outward, stage2: outward }
            } else {
                let filtering = match filter {
                    FilterResult::Filtering => true,
                    FilterResult::Idle => false,
                };
                let to_upper = match command {
                    Command::ScoreMiddle => filtering,
                    _ => !filtering,
                };
                let stage2 = if to_upper {
                    Direction::Forward
                } else {
                    Direction::Reverse
                };
                Outputs { gate: GatePosition::Open, stage0: inward, stage1: inward, stage2 }
            }
        },
    }
}

/// The tunable constants of the intake.
#[derive(Clone, Copy, Debug, PartialEq, Eq, Structural)]
pub struct IntakeConfig {
    /// Reference hues and match tolerance.
    pub hue: HueConfig,
    /// Proximity at or below which a piece counts as present, in thousandths
    /// of the sensor's range.
    pub proximity_threshold: u32,
    /// How long a detection holds, in milliseconds.
    pub filter_interval_ms: u64,
    /// How long the clear window lasts, in milliseconds.
    pub reverse_interval_ms: u64,
}

impl IntakeConfig {
    /// The standard tuning: red at 0 and blue at -120 degrees within 30
    /// degrees, proximity threshold one half, 250 ms for both windows.
    pub fn standard() -> (r: IntakeConfig)
        ensures
            r.hue == HueConfig::standard_spec(),
            r.proximity_threshold == PROXIMITY_THRESHOLD,
            r.filter_interval_ms == FILTER_INTERVAL_MS,
            r.reverse_interval_ms == REVERSE_INTERVAL_MS,
    {
        IntakeConfig {
            hue: HueConfig::standard(),
            proximity_threshold: PROXIMITY_THRESHOLD,
            filter_interval_ms: FILTER_INTERVAL_MS,
            reverse_interval_ms: REVERSE_INTERVAL_MS,
        }
    }
}

/// What a cycle needs next: the outputs to write, or a sensor reading.
#[derive(Clone, Copy, Debug, PartialEq, Eq, Structural)]
pub enum CycleStep {
    Apply(Outputs),
    ReadProximity,
    ReadHue,
}

/// How a filter step shows in a cycle of `command` outside the clear window.
pub open spec fn cycle_step_of(command: Command, step: FilterStep) -> CycleStep {
    match step {
        FilterStep::Done(res) => CycleStep::Apply(planned_outputs(command, false, res)),
        FilterStep::ReadProximity => CycleStep::ReadProximity,
        FilterStep::ReadHue => CycleStep::ReadHue,
    }
}

/// The start of a cycle: from the clear window's opening time and the live
/// detection before it, the two afterwards and the step. Only a scoring
/// command outside its clear window consults the filter.
pub open spec fn cycle_start(
    opened: Option<int>,
    detected: Option<int>,
    now: int,
    command: Command,
    own: Option<Alliance>,
    config: IntakeConfig,
) -> (Option<int>, Option<int>, CycleStep) {
    let (w, clear) = window_outcome(opened, now, command, config.reverse_interval_ms as int);
    if !opens_clear_window(command) {
        (w, detected, CycleStep::Apply(planned_outputs(command, false, FilterResult::Idle)))
    } else if clear {
        (w, detected, CycleStep::Apply(planned_outputs(command, true, FilterResult::Idle)))
    } else {
        let (d, step) = evaluation(detected, now, own, config.filter_interval_ms as int);
        (w, d, cycle_step_of(command, step))
    }
}

/// The intake's control state: the clear window and the detection filter,
/// with the constants they run by.
pub struct Intake {
    config: IntakeConfig,
    filter: DetectionFilter,
    window: ClearWindow,
}

impl Intake {
    pub closed spec fn wf(&self) -> bool {
        &&& self.filter.hold_ms() == self.config.filter_interval_ms
        &&& self.window.duration_ms() == self.config.reverse_interval_ms
    }

    /// The constants the intake runs by.
    pub closed spec fn config_spec(&self) -> IntakeConfig {
        self.config
    }

    /// When the live detection was made, if there is one.
    pub closed spec fn detected_at(&self) -> Option<int> {
        self.filter.detected_at()
    }

    /// When the clear window was opened, if it is.
    pub closed spec fn opened_at(&self) -> Option<int> {
        self.window.opened_at()
    }

    /// A stopped intake: no clear window open, no detection live.
    pub fn new(config: IntakeConfig) -> (r: Intake)
        ensures
            r.wf(),
            r.config_spec() == config,
            r.detected_at() is None,
            r.opened_at() is None,
    {
        Intake {
            config,
            filter: DetectionFilter::new(config.filter_interval_ms),
            window: ClearWindow::new(config.reverse_interval_ms),
        }
    }

    /// The constants the intake runs by.
    pub fn config(&self) -> (r: IntakeConfig)
        ensures
            r == self.config_spec(),
    {
        self.config
    }

    /// Starts the cycle at `now` under `command`, for a robot of alliance
    /// `own` (`None`: color sorting off). Updates the clear window from the
    /// command; inside the window the outputs are forced into reverse;
    /// otherwise a scoring command consults the detection filter, which may
    /// ask for a proximity reading.
    pub fn update(&mut self, now: u64, command: Command, own: Option<Alliance>) -> (r: CycleStep)
        requires
            old(self).wf(),
        ensures
            final(self).wf(),
            final(self).config_spec() == old(self).config_spec(),
            (final(self).opened_at(), final(self).detected_at(), r) == cycle_start(
                old(self).opened_at(),
                old(self).detected_at(),
                now as int,
                command,
                own,
                old(self).config_spec(),
            ),
    {
        let clear = self.window.should_force_reverse(now, command);
        if !command.scores_through_gate() {
            return CycleStep::Apply(plan_outputs(command, false, FilterResult::Idle));
        }
        if clear {
            return CycleStep::Apply(plan_outputs(command, true, FilterResult::Idle));
        }
        let step = self.filter.evaluate(now, own);
        Self::step_of(command, step)
    }

    fn step_of(command: Command, step: FilterStep) -> (r: CycleStep)
        ensures
            r == cycle_step_of(command, step),
    {
        match step {
            FilterStep::Done(res) => CycleStep::Apply(plan_outputs(command, false, res)),
            FilterStep::ReadProximity => CycleStep::ReadProximity,
            FilterStep::ReadHue => CycleStep::ReadHue,
        }
    }

    /// Goes on with the proximity reading the cycle asked for: a piece close
    /// enough asks for its hue; otherwise, or on a failed read, the cycle
    /// ends with the idle outputs of `command`.
    pub fn proximity_read(&self, command: Command, reading: Result<u32, SensorError>) -> (r:
        CycleStep)
        ensures
            r == cycle_step_of(command, proximity_step(reading, self.config_spec().proximity_threshold)),
    {
        let step = DetectionFilter::after_proximity(reading, self.config.proximity_threshold);
        Self::step_of(command, step)
    }

    /// Ends the cycle at `now` with the hue reading it asked for: a piece of
    /// the opposing alliance starts a detection and is steered to the other
    /// exit; anything else leaves the normal routing of `command`.
    pub fn hue_read(
        &mut self,
        now: u64,
        command: Command,
        own: Option<Alliance>,
        reading: Result<i64, SensorError>,
    ) -> (r: Outputs)
        requires
            old(self).wf(),
        ensures
            final(self).wf(),
            final(self).config_spec() == old(self).config_spec(),
            final(self).opened_at() == old(self).opened_at(),
            ({
                let (d, res) = hue_outcome(
                    old(self).detected_at(),
                    now as int,
                    reading,
                    own,
                    old(self).config_spec().hue,
                );
                final(self).detected_at() == d && r == planned_outputs(command, false, res)
            }),
    {
        let res = self.filter.after_hue(now, reading, own, &self.config.hue);
        plan_outputs(command, false, res)
    }
}

/// The clear window wins over the filter: while it is active the outputs do
/// not depend on the filter's result, a scoring command runs everything
/// backwards, and a cycle inside it neither reads the sensor nor touches the
/// live detection.
pub proof fn lemma_clear_window_priority(
    command: Command,
    filter: FilterResult,
    opened: int,
    detected: Option<int>,
    now: int,
    own: Option<Alliance>,
    config: IntakeConfig,
)
    requires
        opens_clear_window(command),
        now < opened + config.reverse_interval_ms,
    ensures
        planned_outputs(command, true, filter) == planned_outputs(command, true, FilterResult::Idle),
        planned_outputs(command, true, filter) == forced_reverse(),
        cycle_start(Some(opened), detected, now, command, own, config) == (
            Some(opened),
            detected,
            CycleStep::Apply(forced_reverse()),
        ),
{
}

} // verus!
