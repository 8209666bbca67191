use labsweep::{
    encode_records, MeasurementRecord, SweepAction, SweepError, SweepEvent, SweepParameters,
    SweepPhase, SweepRun, OPERATING_WAVELENGTH_NM, ZEROING_SETTLE_MS,
};

/// A simulated bench: answers each action, and logs what was asked.
struct Bench {
    tec_on: bool,
    zero_fails: bool,
    fail_read_at: Option<usize>,
    persist_fails: bool,
    reads: usize,
    log: Vec<SweepAction>,
    emitted: Vec<MeasurementRecord>,
    persisted: Option<Vec<MeasurementRecord>>,
}

impl Bench {
    fn new() -> Bench {
        Bench {
            tec_on: true,
            zero_fails: false,
            fail_read_at: None,
            persist_fails: false,
            reads: 0,
            log: Vec::new(),
            emitted: Vec::new(),
            persisted: None,
        }
    }

    fn run(&mut self, params: SweepParameters) -> Result<(), SweepError> {
        let mut run = SweepRun::start(params)?;
        loop {
            let action = run.next_action();
            let event = match &action {
                SweepAction::QueryTecState => SweepEvent::TecState(self.tec_on),
                SweepAction::Zero if self.zero_fails => {
                    SweepEvent::Failed("IO error: connection reset".to_string())
                }
                SweepAction::ReadPower(_) => {
                    let i = self.reads;
                    self.reads += 1;
                    if self.fail_read_at == Some(i) {
                        SweepEvent::Failed("IO error: timed out".to_string())
                    } else {
                        SweepEvent::Power {
                            reading: format!("-{}.25", 10 + i),
                            timestamp: format!("2024-01-01T00:00:0{}+00:00", i),
                        }
                    }
                }
                SweepAction::Emit(record) => {
                    self.emitted.push(record.duplicate());
                    SweepEvent::Done
                }
                SweepAction::Persist => {
                    if self.persist_fails {
                        SweepEvent::Failed("disk full".to_string())
                    } else {
                        let copy = run.records().iter().map(|r| r.duplicate()).collect();
                        self.persisted = Some(copy);
                        SweepEvent::Done
                    }
                }
                SweepAction::Finish => break,
                _ => SweepEvent::Done,
            };
            self.log.push(action);
            run.advance(event);
        }
        assert!(run.is_finished());
        assert_eq!(run.phase(), SweepPhase::Finished);
        run.outcome().unwrap()
    }

    fn laser_commands(&self) -> Vec<bool> {
        self.log
            .iter()
            .filter_map(|a| match a {
                SweepAction::SetLaserOutput(on) => Some(*on),
                _ => None,
            })
            .collect()
    }
}

fn params(start_ua: i64, stop_ua: i64, step_ua: i64) -> SweepParameters {
    SweepParameters { start_ua, stop_ua, step_ua, module: 2, stabilization_delay_ms: 20 }
}

fn currents(records: &[MeasurementRecord]) -> Vec<i64> {
    records.iter().map(|r| r.current_ua).collect()
}

#[test]
fn three_point_sweep_scenario() {
    let mut bench = Bench::new();
    assert_eq!(bench.run(params(0, 10_000, 5_000)), Ok(()));
    let expected = vec![
        SweepAction::QueryTecState,
        SweepAction::Zero,
        SweepAction::Sleep(ZEROING_SETTLE_MS),
        SweepAction::SetLaserOutput(false),
        SweepAction::SetWavelength(OPERATING_WAVELENGTH_NM),
        SweepAction::SetLaserOutput(true),
    ];
    assert_eq!(bench.log[..6], expected[..]);
    assert_eq!(OPERATING_WAVELENGTH_NM, 980);
    assert_eq!(ZEROING_SETTLE_MS, 3000);
    let setpoints: Vec<i64> = bench
        .log
        .iter()
        .filter_map(|a| match a {
            SweepAction::SetCurrent(c) => Some(*c),
            _ => None,
        })
        .collect();
    assert_eq!(setpoints, vec![0, 5_000, 10_000]);
    let wavelength_syncs =
        bench.log.iter().filter(|a| matches!(a, SweepAction::SetWavelength(_))).count();
    assert_eq!(wavelength_syncs, 1);
    assert_eq!(bench.laser_commands(), vec![false, true, false]);
    assert_eq!(bench.log[bench.log.len() - 2], SweepAction::SetLaserOutput(false));
    assert_eq!(bench.log[bench.log.len() - 1], SweepAction::Persist);
    let persisted = bench.persisted.unwrap();
    assert_eq!(currents(&persisted), vec![0, 5_000, 10_000]);
    assert_eq!(bench.emitted, persisted);
    assert!(persisted.iter().all(|r| r.module == 2));
    assert_eq!(persisted[1].power_dbm, "-11.25");
}

#[test]
fn each_step_sets_waits_reads_and_emits() {
    let mut bench = Bench::new();
    assert_eq!(bench.run(params(1_000, 1_000, 1)), Ok(()));
    assert!(matches!(bench.log[6], SweepAction::SetCurrent(1_000)));
    assert_eq!(bench.log[7], SweepAction::Sleep(20));
    assert_eq!(bench.log[8], SweepAction::ReadPower(2));
    assert!(matches!(bench.log[9], SweepAction::Emit(_)));
}

#[test]
fn record_count_follows_the_bounds() {
    for (start, stop, step) in [(0, 10_000, 3_000), (-500, 500, 250), (7, 7, 5), (0, 9_999, 10_000)] {
        let mut bench = Bench::new();
        assert_eq!(bench.run(params(start, stop, step)), Ok(()));
        let got = currents(bench.persisted.as_ref().unwrap());
        let count = ((stop - start) / step + 1) as usize;
        assert_eq!(got.len(), count);
        assert!(got.windows(2).all(|w| w[0] <= w[1]));
        assert!(got.iter().all(|c| start <= *c && *c <= stop));
    }
    let mut bench = Bench::new();
    assert_eq!(bench.run(params(0, 10_000, 3_000)), Ok(()));
    assert_eq!(currents(bench.persisted.as_ref().unwrap()), vec![0, 3_000, 6_000, 9_000]);
}

#[test]
fn extreme_bounds_do_not_overflow() {
    let mut bench = Bench::new();
    assert_eq!(bench.run(params(i64::MAX - 10, i64::MAX, 6)), Ok(()));
    assert_eq!(currents(bench.persisted.as_ref().unwrap()), vec![i64::MAX - 10, i64::MAX - 4]);
}

#[test]
fn invalid_parameters_are_rejected_before_any_command() {
    for p in [params(0, 10, 0), params(0, 10, -5), params(11, 10, 1)] {
        let mut bench = Bench::new();
        assert_eq!(bench.run(p), Err(SweepError::InvalidParameters));
        assert!(bench.log.is_empty());
        assert!(bench.persisted.is_none());
    }
    assert_eq!(SweepError::InvalidParameters.message(), "Invalid sweep parameters");
}

#[test]
fn tec_off_is_a_safety_violation() {
    let mut bench = Bench::new();
    bench.tec_on = false;
    assert_eq!(bench.run(params(0, 10_000, 5_000)), Err(SweepError::SafetyViolation));
    assert_eq!(bench.log, vec![SweepAction::QueryTecState]);
    assert!(bench.persisted.is_none());
    assert_eq!(
        SweepError::SafetyViolation.message(),
        "TEC must be ON before starting the experiment"
    );
}

#[test]
fn zeroing_failure_aborts_before_priming() {
    let mut bench = Bench::new();
    bench.zero_fails = true;
    let err = bench.run(params(0, 10_000, 5_000)).unwrap_err();
    assert_eq!(err, SweepError::Zeroing("IO error: connection reset".to_string()));
    assert_eq!(err.message(), "Failed to perform zeroing: IO error: connection reset");
    assert_eq!(bench.log, vec![SweepAction::QueryTecState, SweepAction::Zero]);
    assert!(bench.laser_commands().is_empty());
    assert!(bench.persisted.is_none());
}

#[test]
fn failure_mid_sweep_keeps_partial_records() {
    let mut bench = Bench::new();
    bench.fail_read_at = Some(2);
    let err = bench.run(params(0, 10_000, 2_500)).unwrap_err();
    assert_eq!(err, SweepError::Device("IO error: timed out".to_string()));
    assert_eq!(err.message(), "IO error: timed out");
    assert_eq!(currents(bench.persisted.as_ref().unwrap()), vec![0, 2_500]);
    assert_eq!(bench.laser_commands(), vec![false, true, false]);
}

#[test]
fn persist_failure_is_reported() {
    let mut bench = Bench::new();
    bench.persist_fails = true;
    let err = bench.run(params(0, 1_000, 1_000)).unwrap_err();
    assert_eq!(err, SweepError::Persist("disk full".to_string()));
    assert_eq!(err.message(), "Failed to save CSV: disk full");
}

#[test]
fn unexpected_event_aborts() {
    let mut run = SweepRun::start(params(0, 1_000, 1_000)).unwrap();
    run.advance(SweepEvent::Done);
    assert_eq!(run.outcome(), Some(Err(SweepError::UnexpectedEvent)));
    assert_eq!(run.next_action(), SweepAction::Finish);
    assert!(run.records().is_empty());
    assert_eq!(run.params(), params(0, 1_000, 1_000));
}

fn sample_records() -> Vec<MeasurementRecord> {
    vec![
        MeasurementRecord {
            timestamp: "2024-05-01T10:00:00.000000+00:00".to_string(),
            current_ua: 0,
            power_dbm: "-40.125".to_string(),
            module: 1,
        },
        MeasurementRecord {
            timestamp: "2024-05-01T10:00:01.000000+00:00".to_string(),
            current_ua: 5_500,
            power_dbm: "-3.5,\"over\"".to_string(),
            module: 1,
        },
    ]
}

#[test]
fn artifact_bytes() {
    let bytes = encode_records(&sample_records());
    let text = String::from_utf8(bytes).unwrap();
    assert_eq!(
        text,
        "timestamp,current_ma,power_dbm,module\n\
         2024-05-01T10:00:00.000000+00:00,0,-40.125,1\n\
         2024-05-01T10:00:01.000000+00:00,5.5,\"-3.5,\"\"over\"\"\",1\n"
    );
    assert_eq!(
        String::from_utf8(encode_records(&Vec::new())).unwrap(),
        "timestamp,current_ma,power_dbm,module\n"
    );
}

#[test]
fn artifact_round_trip() {
    let records = sample_records();
    let bytes = encode_records(&records);
    let mut reader = csv::Reader::from_reader(bytes.as_slice());
    let header = reader.headers().unwrap().clone();
    assert_eq!(header.iter().collect::<Vec<_>>(), vec!["timestamp", "current_ma", "power_dbm", "module"]);
    let rows: Vec<csv::StringRecord> = reader.records().map(|r| r.unwrap()).collect();
    assert_eq!(rows.len(), records.len());
    for (row, record) in rows.iter().zip(records.iter()) {
        assert_eq!(&row[0], record.timestamp.as_str());
        let milli: f64 = row[1].parse().unwrap();
        assert_eq!((milli * 1000.0).round() as i64, record.current_ua);
        assert_eq!(&row[2], record.power_dbm.as_str());
        assert_eq!(row[3].parse::<u8>().unwrap(), record.module);
    }
}
