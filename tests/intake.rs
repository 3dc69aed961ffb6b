use rainbots_intake::color::Alliance;
use rainbots_intake::command::Command;
use rainbots_intake::detection::{FilterResult, SensorError};
use rainbots_intake::intake::{
    plan_outputs, CycleStep, Direction, GatePosition, Intake, IntakeConfig, Outputs,
};

const RED: Option<Alliance> = Some(Alliance::Red);
const BLUE_PIECE: i64 = -12000;

fn outputs(gate: GatePosition, s0: Direction, s1: Direction, s2: Direction) -> Outputs {
    Outputs { gate, stage0: s0, stage1: s1, stage2: s2 }
}

fn forced_reverse() -> Outputs {
    outputs(GatePosition::Open, Direction::Reverse, Direction::Reverse, Direction::Reverse)
}

fn score_long(stage2: Direction) -> Outputs {
    outputs(GatePosition::Open, Direction::Forward, Direction::Forward, stage2)
}

#[test]
fn plan_outputs_table() {
    for filter in [FilterResult::Idle, FilterResult::Filtering] {
        for clear in [false, true] {
            assert_eq!(
                plan_outputs(Command::Stop, clear, filter),
                outputs(GatePosition::Closed, Direction::Stopped, Direction::Stopped, Direction::Stopped)
            );
            assert_eq!(
                plan_outputs(Command::Collect, clear, filter),
                outputs(GatePosition::Closed, Direction::Forward, Direction::Forward, Direction::Forward)
            );
            assert_eq!(
                plan_outputs(Command::ScoreLow, clear, filter),
                outputs(GatePosition::Closed, Direction::Reverse, Direction::Reverse, Direction::Reverse)
            );
        }
    }
    assert_eq!(
        plan_outputs(Command::ScoreMiddle, false, FilterResult::Idle),
        outputs(GatePosition::Open, Direction::Forward, Direction::Forward, Direction::Reverse)
    );
    assert_eq!(
        plan_outputs(Command::ScoreMiddle, false, FilterResult::Filtering),
        outputs(GatePosition::Open, Direction::Forward, Direction::Forward, Direction::Forward)
    );
    assert_eq!(
        plan_outputs(Command::ScoreLong, false, FilterResult::Idle),
        outputs(GatePosition::Open, Direction::Forward, Direction::Forward, Direction::Forward)
    );
    assert_eq!(
        plan_outputs(Command::ScoreLong, false, FilterResult::Filtering),
        outputs(GatePosition::Open, Direction::Forward, Direction::Forward, Direction::Reverse)
    );
}

#[test]
fn clear_window_wins_over_filter() {
    for command in [Command::ScoreMiddle, Command::ScoreLong] {
        assert_eq!(plan_outputs(command, true, FilterResult::Filtering), forced_reverse());
        assert_eq!(plan_outputs(command, true, FilterResult::Idle), forced_reverse());
    }
}

#[test]
fn clear_window_wins_in_a_cycle_with_live_detection() {
    let mut intake = Intake::new(IntakeConfig::standard());
    assert_eq!(intake.update(0, Command::ScoreLong, RED), CycleStep::Apply(forced_reverse()));
    assert_eq!(intake.update(300, Command::ScoreLong, RED), CycleStep::ReadProximity);
    assert_eq!(intake.proximity_read(Command::ScoreLong, Ok(100)), CycleStep::ReadHue);
    assert_eq!(
        intake.hue_read(300, Command::ScoreLong, RED, Ok(BLUE_PIECE)),
        score_long(Direction::Reverse)
    );
    assert_eq!(
        intake.update(340, Command::Collect, RED),
        CycleStep::Apply(outputs(
            GatePosition::Closed,
            Direction::Forward,
            Direction::Forward,
            Direction::Forward
        ))
    );
    assert_eq!(intake.update(360, Command::ScoreLong, RED), CycleStep::Apply(forced_reverse()));
    assert_eq!(intake.update(500, Command::ScoreLong, RED), CycleStep::Apply(forced_reverse()));
    assert_eq!(
        intake.update(610, Command::ScoreLong, RED),
        CycleStep::Apply(score_long(Direction::Forward))
    );
    assert_eq!(intake.update(620, Command::ScoreLong, RED), CycleStep::ReadProximity);
}

#[test]
fn scenario_collect_with_nothing_present() {
    let mut intake = Intake::new(IntakeConfig::standard());
    let step = intake.update(0, Command::Collect, RED);
    assert_eq!(
        step,
        CycleStep::Apply(outputs(
            GatePosition::Closed,
            Direction::Forward,
            Direction::Forward,
            Direction::Forward
        ))
    );
    assert_eq!(
        intake.proximity_read(Command::Collect, Ok(900)),
        CycleStep::Apply(outputs(
            GatePosition::Closed,
            Direction::Forward,
            Direction::Forward,
            Direction::Forward
        ))
    );
    assert_eq!(intake.update(10, Command::Collect, RED), step);
}

#[test]
fn scenario_score_long_clear_window() {
    let mut intake = Intake::new(IntakeConfig::standard());
    for t in (0..250).step_by(10) {
        assert_eq!(intake.update(t, Command::ScoreLong, RED), CycleStep::Apply(forced_reverse()));
    }
    assert_eq!(intake.update(249, Command::ScoreLong, RED), CycleStep::Apply(forced_reverse()));
    assert_eq!(intake.update(250, Command::ScoreLong, RED), CycleStep::ReadProximity);
    assert_eq!(
        intake.proximity_read(Command::ScoreLong, Ok(900)),
        CycleStep::Apply(score_long(Direction::Forward))
    );
}

#[test]
fn scenario_score_middle_rejects_foreign_piece() {
    let mut intake = Intake::new(IntakeConfig::standard());
    assert_eq!(intake.update(0, Command::ScoreMiddle, RED), CycleStep::Apply(forced_reverse()));
    assert_eq!(intake.update(300, Command::ScoreMiddle, RED), CycleStep::ReadProximity);
    assert_eq!(intake.proximity_read(Command::ScoreMiddle, Ok(200)), CycleStep::ReadHue);
    let upper = outputs(GatePosition::Open, Direction::Forward, Direction::Forward, Direction::Forward);
    let lower = outputs(GatePosition::Open, Direction::Forward, Direction::Forward, Direction::Reverse);
    assert_eq!(intake.hue_read(300, Command::ScoreMiddle, RED, Ok(BLUE_PIECE)), upper);
    for t in (310..550).step_by(10) {
        assert_eq!(intake.update(t, Command::ScoreMiddle, RED), CycleStep::Apply(upper));
    }
    assert_eq!(intake.update(549, Command::ScoreMiddle, RED), CycleStep::Apply(upper));
    assert_eq!(intake.update(550, Command::ScoreMiddle, RED), CycleStep::Apply(lower));
    assert_eq!(intake.update(560, Command::ScoreMiddle, RED), CycleStep::ReadProximity);
}

#[test]
fn own_color_piece_keeps_normal_routing() {
    let mut intake = Intake::new(IntakeConfig::standard());
    intake.update(0, Command::ScoreLong, RED);
    assert_eq!(intake.update(260, Command::ScoreLong, RED), CycleStep::ReadProximity);
    assert_eq!(intake.proximity_read(Command::ScoreLong, Ok(0)), CycleStep::ReadHue);
    assert_eq!(
        intake.hue_read(260, Command::ScoreLong, RED, Ok(100)),
        score_long(Direction::Forward)
    );
    assert_eq!(intake.update(270, Command::ScoreLong, RED), CycleStep::ReadProximity);
}

#[test]
fn sensor_failures_fail_open() {
    let mut intake = Intake::new(IntakeConfig::standard());
    intake.update(0, Command::ScoreLong, RED);
    assert_eq!(intake.update(260, Command::ScoreLong, RED), CycleStep::ReadProximity);
    assert_eq!(
        intake.proximity_read(Command::ScoreLong, Err(SensorError)),
        CycleStep::Apply(score_long(Direction::Forward))
    );
    assert_eq!(
        intake.hue_read(270, Command::ScoreLong, RED, Err(SensorError)),
        score_long(Direction::Forward)
    );
    assert_eq!(intake.update(280, Command::ScoreLong, RED), CycleStep::ReadProximity);
}

#[test]
fn sorting_off_never_reads_the_sensor() {
    let mut intake = Intake::new(IntakeConfig::standard());
    intake.update(0, Command::ScoreMiddle, None);
    assert_eq!(
        intake.update(300, Command::ScoreMiddle, None),
        CycleStep::Apply(outputs(
            GatePosition::Open,
            Direction::Forward,
            Direction::Forward,
            Direction::Reverse
        ))
    );
}

#[test]
fn stop_and_score_low_outputs() {
    let mut intake = Intake::new(IntakeConfig::standard());
    assert_eq!(
        intake.update(0, Command::Stop, RED),
        CycleStep::Apply(outputs(
            GatePosition::Closed,
            Direction::Stopped,
            Direction::Stopped,
            Direction::Stopped
        ))
    );
    assert_eq!(
        intake.update(10, Command::ScoreLow, RED),
        CycleStep::Apply(outputs(
            GatePosition::Closed,
            Direction::Reverse,
            Direction::Reverse,
            Direction::Reverse
        ))
    );
}

#[test]
fn custom_intervals_are_used() {
    let mut config = IntakeConfig::standard();
    config.reverse_interval_ms = 100;
    config.filter_interval_ms = 40;
    let mut intake = Intake::new(config);
    assert_eq!(intake.config(), config);
    assert_eq!(intake.update(0, Command::ScoreLong, RED), CycleStep::Apply(forced_reverse()));
    assert_eq!(intake.update(100, Command::ScoreLong, RED), CycleStep::ReadProximity);
    intake.proximity_read(Command::ScoreLong, Ok(0));
    intake.hue_read(100, Command::ScoreLong, RED, Ok(BLUE_PIECE));
    assert_eq!(
        intake.update(139, Command::ScoreLong, RED),
        CycleStep::Apply(score_long(Direction::Reverse))
    );
    assert_eq!(
        intake.update(140, Command::ScoreLong, RED),
        CycleStep::Apply(score_long(Direction::Forward))
    );
}

#[test]
fn standard_config_values() {
    let c = IntakeConfig::standard();
    assert_eq!(c.proximity_threshold, 500);
    assert_eq!(c.filter_interval_ms, 250);
    assert_eq!(c.reverse_interval_ms, 250);
    assert_eq!(c.hue.red_hue, 0);
    assert_eq!(c.hue.blue_hue, -12000);
    assert_eq!(c.hue.tolerance, 3000);
}

#[test]
fn command_defaults_to_stop() {
    assert_eq!(Command::default(), Command::Stop);
    assert!(Command::ScoreLong.scores_through_gate());
    assert!(Command::ScoreMiddle.scores_through_gate());
    assert!(!Command::ScoreLow.scores_through_gate());
    assert!(!Command::Collect.scores_through_gate());
    assert!(!Command::Stop.scores_through_gate());
}

#[test]
fn gate_position_piston() {
    assert!(GatePosition::Open.is_extended());
    assert!(!GatePosition::Closed.is_extended());
}
