//! The current-sweep experiment as a state machine.
//!
//! The machine decides; the host performs. The host asks for the next action,
//! performs it on the instruments (or sleeps, emits, persists), and hands the
//! outcome back as an event. The machine holds the safety rules: the laser is
//! never armed unless the thermoelectric cooler reported itself on, offset
//! zeroing precedes the sweep, and every abort after priming has begun ends
//! with a best-effort "laser off".
//!
//! Currents are integers in microamperes, so the sweep visits exactly the
//! points `start + i * step` for `i` from zero while they do not pass `stop`.

use vstd::prelude::*;
use vstd::string::*;

use crate::record::MeasurementRecord;

verus! {

/// How long the power meter needs after offset zeroing, in milliseconds.
pub const ZEROING_SETTLE_MS: u64 = 3000;

/// The operating wavelength of the laser, in nanometres; the power meter is
/// calibrated to it before the sweep.
pub const OPERATING_WAVELENGTH_NM: u32 = 980;

/// What the sweep is asked to do.
#[derive(PartialEq, Eq, Structural, Clone, Copy, Debug)]
pub struct SweepParameters {
    /// The first current setpoint, in microamperes.
    pub start_ua: i64,
    /// The last current setpoint allowed, in microamperes.
    pub stop_ua: i64,
    /// The distance between setpoints, in microamperes.
    pub step_ua: i64,
    /// The power-meter module that is read.
    pub module: u8,
    /// How long to wait after each setpoint before reading, in milliseconds.
    pub stabilization_delay_ms: u64,
}

/// A positive step and a start not above the stop.
pub open spec fn valid_parameters(p: SweepParameters) -> bool {
    p.step_ua > 0 && p.start_ua <= p.stop_ua
}

/// The number of setpoints of a valid sweep.
pub open spec fn point_count(p: SweepParameters) -> int {
    (p.stop_ua - p.start_ua) / (p.step_ua as int) + 1
}

/// The `i`-th setpoint, in microamperes.
pub open spec fn point_current(p: SweepParameters, i: int) -> int {
    p.start_ua + i * p.step_ua
}

/// Why a sweep did not complete.
#[derive(Debug, PartialEq, Eq)]
pub enum SweepError {
    /// The step is not positive, or the start is above the stop.
    InvalidParameters,
    /// The thermoelectric cooler was off.
    SafetyViolation,
    /// Offset zeroing failed; the device's description is kept.
    Zeroing(String),
    /// An instrument command failed; the device's description is kept.
    Device(String),
    /// The host reported an event that does not answer the pending action.
    UnexpectedEvent,
    /// The measurements could not be persisted.
    Persist(String),
}

/// The human-readable description of a sweep error.
pub open spec fn sweep_error_text(e: SweepError) -> Seq<char> {
    match e {
        SweepError::InvalidParameters => "Invalid sweep parameters"@,
        SweepError::SafetyViolation => "TEC must be ON before starting the experiment"@,
        SweepError::Zeroing(m) => "Failed to perform zeroing: "@ + m@,
        SweepError::Device(m) => m@,
        SweepError::UnexpectedEvent => "Unexpected event for the pending sweep action"@,
        SweepError::Persist(m) => "Failed to save CSV: "@ + m@,
    }
}

impl SweepError {
    /// Describes the error for a person.
    pub fn message(&self) -> (r: String)
        ensures
            r@ == sweep_error_text(*self),
    {
        match self {
            SweepError::InvalidParameters => String::from_str("Invalid sweep parameters"),
            SweepError::SafetyViolation => String::from_str(
                "TEC must be ON before starting the experiment",
            ),
            SweepError::Zeroing(m) => String::from_str("Failed to perform zeroing: ").concat(
                m.as_str(),
            ),
            SweepError::Device(m) => m.clone(),
            SweepError::UnexpectedEvent => String::from_str(
                "Unexpected event for the pending sweep action",
            ),
            SweepError::Persist(m) => String::from_str("Failed to save CSV: ").concat(m.as_str()),
        }
    }

    /// A variant-for-variant copy.
    pub fn duplicate(&self) -> (r: SweepError)
        ensures
            r == *self,
    {
        match self {
            SweepError::InvalidParameters => SweepError::InvalidParameters,
            SweepError::SafetyViolation => SweepError::SafetyViolation,
            SweepError::Zeroing(m) => SweepError::Zeroing(m.clone()),
            SweepError::Device(m) => SweepError::Device(m.clone()),
            SweepError::UnexpectedEvent => SweepError::UnexpectedEvent,
            SweepError::Persist(m) => SweepError::Persist(m.clone()),
        }
    }
}

/// What the host is to do next.
#[derive(Debug, PartialEq, Eq)]
pub enum SweepAction {
    /// Query the current source's thermoelectric-cooler state; answer with
    /// `TecState` or `Failed`.
    QueryTecState,
    /// Send the power meter's offset-zeroing command; answer with `Done` or
    /// `Failed`.
    Zero,
    /// Sleep this many milliseconds; answer with `Done`.
    Sleep(u64),
    /// Switch the laser output on or off; answer with `Done` or `Failed`.
    SetLaserOutput(bool),
    /// Set the power meter's wavelength in nanometres; answer with `Done` or
    /// `Failed`.
    SetWavelength(u32),
    /// Set the current setpoint, in microamperes; answer with `Done` or
    /// `Failed`.
    SetCurrent(i64),
    /// Read the power of this module; answer with `Power` or `Failed`.
    ReadPower(u8),
    /// Hand this record to the live subscriber, best effort; answer with
    /// `Done` or `Failed`, which does not stop the sweep.
    Emit(MeasurementRecord),
    /// Persist the records collected so far; answer with `Done` or `Failed`.
    Persist,
    /// Nothing more: the sweep is over.
    Finish,
}

/// What the host reports after performing an action.
#[derive(Debug, PartialEq, Eq)]
pub enum SweepEvent {
    /// The thermoelectric cooler is on (`true`) or off.
    TecState(bool),
    /// The action succeeded.
    Done,
    /// The action failed, with the device's description.
    Failed(String),
    /// A power reading, verbatim, and the ISO-8601 UTC time it was taken.
    Power { reading: String, timestamp: String },
}

/// The stages of a sweep.
#[derive(PartialEq, Eq, Structural, Clone, Copy, Debug)]
pub enum SweepPhase {
    SafetyCheck,
    Zeroing,
    ZeroSettle,
    LaserOffBefore,
    SyncWavelength,
    LaserOn,
    SetCurrent,
    Stabilize,
    ReadPower,
    Emit,
    LaserOffAfter,
    Persist,
    Finished,
}

/// The mathematical state of a sweep.
pub struct SweepState {
    pub params: SweepParameters,
    pub phase: SweepPhase,
    /// The records collected, in acquisition order.
    pub records: Seq<MeasurementRecord>,
    /// The error that ended, or is ending, the sweep.
    pub error: Option<SweepError>,
}

/// The state in which every sweep with valid parameters begins.
pub open spec fn sweep_start(p: SweepParameters) -> SweepState {
    SweepState { params: p, phase: SweepPhase::SafetyCheck, records: Seq::empty(), error: None }
}

/// Ends the sweep at once, with no further command.
pub open spec fn finish_with(s: SweepState, e: SweepError) -> SweepState {
    SweepState { phase: SweepPhase::Finished, error: Some(e), ..s }
}

/// Aborts the sweep after priming has begun: the laser is switched off
/// first, and the records are persisted when there are any.
pub open spec fn abort_with(s: SweepState, e: SweepError) -> SweepState {
    SweepState { phase: SweepPhase::LaserOffAfter, error: Some(e), ..s }
}

/// The error for an event that reports a failure, or does not answer the
/// pending action.
pub open spec fn failure_of(e: SweepEvent) -> SweepError {
    match e {
        SweepEvent::Failed(m) => SweepError::Device(m),
        _ => SweepError::UnexpectedEvent,
    }
}

/// The zeroing error for an event that reports a failure.
pub open spec fn zeroing_failure_of(e: SweepEvent) -> SweepError {
    match e {
        SweepEvent::Failed(m) => SweepError::Zeroing(m),
        _ => SweepError::UnexpectedEvent,
    }
}

/// The persistence error for an event that reports a failure.
pub open spec fn persist_failure_of(e: SweepEvent) -> SweepError {
    match e {
        SweepEvent::Failed(m) => SweepError::Persist(m),
        _ => SweepError::UnexpectedEvent,
    }
}

/// The record made of a power reading at the current setpoint.
pub open spec fn record_of(s: SweepState, reading: String, timestamp: String) -> MeasurementRecord {
    MeasurementRecord {
        timestamp,
        current_ua: point_current(s.params, s.records.len() as int) as i64,
        power_dbm: reading,
        module: s.params.module,
    }
}

/// How a sweep moves on an event.
pub open spec fn next_state(s: SweepState, e: SweepEvent) -> SweepState {
    match s.phase {
        SweepPhase::SafetyCheck => match e {
            SweepEvent::TecState(true) => SweepState { phase: SweepPhase::Zeroing, ..s },
            SweepEvent::TecState(false) => finish_with(s, SweepError::SafetyViolation),
            _ => finish_with(s, failure_of(e)),
        },
        SweepPhase::Zeroing => match e {
            SweepEvent::Done => SweepState { phase: SweepPhase::ZeroSettle, ..s },
            _ => finish_with(s, zeroing_failure_of(e)),
        },
        SweepPhase::ZeroSettle => SweepState { phase: SweepPhase::LaserOffBefore, ..s },
        SweepPhase::LaserOffBefore => SweepState { phase: SweepPhase::SyncWavelength, ..s },
        SweepPhase::SyncWavelength => match e {
            SweepEvent::Done => SweepState { phase: SweepPhase::LaserOn, ..s },
            _ => abort_with(s, failure_of(e)),
        },
        SweepPhase::LaserOn => match e {
            SweepEvent::Done => SweepState { phase: SweepPhase::SetCurrent, ..s },
            _ => abort_with(s, failure_of(e)),
        },
        SweepPhase::SetCurrent => match e {
            SweepEvent::Done => SweepState { phase: SweepPhase::Stabilize, ..s },
            _ => abort_with(s, failure_of(e)),
        },
        SweepPhase::Stabilize => SweepState { phase: SweepPhase::ReadPower, ..s },
        SweepPhase::ReadPower => match e {
            SweepEvent::Power { reading, timestamp } => SweepState {
                phase: SweepPhase::Emit,
                records: s.records.push(record_of(s, reading, timestamp)),
                ..s
            },
            _ => abort_with(s, failure_of(e)),
        },
        SweepPhase::Emit => if s.records.len() < point_count(s.params) {
            SweepState { phase: SweepPhase::SetCurrent, ..s }
        } else {
            SweepState { phase: SweepPhase::LaserOffAfter, ..s }
        },
        SweepPhase::LaserOffAfter => if s.records.len() > 0 {
            SweepState { phase: SweepPhase::Persist, ..s }
        } else {
            SweepState { phase: SweepPhase::Finished, ..s }
        },
        SweepPhase::Persist => match e {
            SweepEvent::Done => SweepState { phase: SweepPhase::Finished, ..s },
            _ => SweepState {
                phase: SweepPhase::Finished,
                error: if s.error is Some {
                    s.error
                } else {
                    Some(persist_failure_of(e))
                },
                ..s
            },
        },
        SweepPhase::Finished => s,
    }
}

/// What the host is to do in a state.
pub open spec fn action_of(s: SweepState) -> SweepAction {
    match s.phase {
        SweepPhase::SafetyCheck => SweepAction::QueryTecState,
        SweepPhase::Zeroing => SweepAction::Zero,
        SweepPhase::ZeroSettle => SweepAction::Sleep(ZEROING_SETTLE_MS),
        SweepPhase::LaserOffBefore => SweepAction::SetLaserOutput(false),
        SweepPhase::SyncWavelength => SweepAction::SetWavelength(OPERATING_WAVELENGTH_NM),
        SweepPhase::LaserOn => SweepAction::SetLaserOutput(true),
        SweepPhase::SetCurrent => SweepAction::SetCurrent(
            point_current(s.params, s.records.len() as int) as i64,
        ),
        SweepPhase::Stabilize => SweepAction::Sleep(s.params.stabilization_delay_ms),
        SweepPhase::ReadPower => SweepAction::ReadPower(s.params.module),
        SweepPhase::Emit => SweepAction::Emit(s.records.last()),
        SweepPhase::LaserOffAfter => SweepAction::SetLaserOutput(false),
        SweepPhase::Persist => SweepAction::Persist,
        SweepPhase::Finished => SweepAction::Finish,
    }
}

/// The laser has not been touched yet in this phase.
pub open spec fn before_priming(ph: SweepPhase) -> bool {
    ph == SweepPhase::SafetyCheck || ph == SweepPhase::Zeroing || ph == SweepPhase::ZeroSettle
        || ph == SweepPhase::LaserOffBefore || ph == SweepPhase::SyncWavelength || ph
        == SweepPhase::LaserOn
}

/// A setpoint of the sweep is being worked on in this phase.
pub open spec fn stepping(ph: SweepPhase) -> bool {
    ph == SweepPhase::SetCurrent || ph == SweepPhase::Stabilize || ph == SweepPhase::ReadPower
}

impl SweepState {
    /// Every reachable state: valid parameters; the records are the first
    /// setpoints in order, on the configured module; a sweep that has not
    /// failed has not finished before recording every setpoint.
    pub open spec fn wf(self) -> bool {
        &&& valid_parameters(self.params)
        &&& self.records.len() <= point_count(self.params)
        &&& forall|i: int|
            0 <= i < self.records.len() ==> (#[trigger] self.records[i]).current_ua
                == point_current(self.params, i) && self.records[i].module == self.params.module
        &&& before_priming(self.phase) ==> self.records.len() == 0 && self.error is None
        &&& stepping(self.phase) ==> self.records.len() < point_count(self.params)
            && self.error is None
        &&& self.phase == SweepPhase::Emit ==> self.records.len() > 0 && self.error is None
        &&& self.phase == SweepPhase::Persist ==> self.records.len() > 0
        &&& (self.phase == SweepPhase::LaserOffAfter || self.phase == SweepPhase::Persist
            || self.phase == SweepPhase::Finished) ==> (self.error is None ==> self.records.len()
            == point_count(self.params))
    }
}

/// For a valid sweep, setpoint `i` (from zero) lies within the sweep exactly
/// when `i` is below the number of setpoints.
pub proof fn lemma_point_in_range(p: SweepParameters, i: int)
    requires
        valid_parameters(p),
        0 <= i,
    ensures
        i < point_count(p) <==> point_current(p, i) <= p.stop_ua,
        point_current(p, i) >= p.start_ua,
{
    let d = p.stop_ua - p.start_ua;
    let s = p.step_ua as int;
    let q = d / s;
    assert(d == s * q + d % s && 0 <= d % s < s) by {
        vstd::arithmetic::div_mod::lemma_fundamental_div_mod(d, s);
    }
    assert(i < q + 1 <==> i * s <= d) by (nonlinear_arith)
        requires
            d == s * q + d % s,
            0 <= d % s < s,
            s > 0,
            0 <= i,
    ;
    assert(i * s >= 0) by (nonlinear_arith)
        requires
            s > 0,
            0 <= i,
    ;
}

/// Setpoints grow with their index.
pub proof fn lemma_points_increase(p: SweepParameters, i: int, j: int)
    requires
        valid_parameters(p),
        0 <= i <= j,
    ensures
        point_current(p, i) <= point_current(p, j),
{
    assert(i * p.step_ua <= j * p.step_ua) by (nonlinear_arith)
        requires
            p.step_ua > 0,
            0 <= i <= j,
    ;
}

/// A sweep that finished without error recorded one measurement per
/// setpoint, `floor((stop - start) / step) + 1` of them, with currents that
/// never decrease and stay within `[start, stop]`.
pub proof fn lemma_completed_sweep(s: SweepState)
    requires
        s.wf(),
        s.phase == SweepPhase::Finished,
        s.error is None,
    ensures
        s.records.len() == (s.params.stop_ua - s.params.start_ua) / (s.params.step_ua as int) + 1,
        forall|i: int, j: int|
            0 <= i <= j < s.records.len() ==> (#[trigger] s.records[i]).current_ua
                <= (#[trigger] s.records[j]).current_ua,
        forall|i: int|
            0 <= i < s.records.len() ==> s.params.start_ua <= (#[trigger] s.records[i]).current_ua
                <= s.params.stop_ua,
{
    assert forall|i: int, j: int| 0 <= i <= j < s.records.len() implies (
    #[trigger] s.records[i]).current_ua <= (#[trigger] s.records[j]).current_ua by {
        lemma_points_increase(s.params, i, j);
    }
    assert forall|i: int| 0 <= i < s.records.len() implies s.params.start_ua <= (
    #[trigger] s.records[i]).current_ua <= s.params.stop_ua by {
        lemma_point_in_range(s.params, i);
    }
}

/// With the thermoelectric cooler reported off, the sweep ends at once with
/// a safety violation: the state query is the only command issued.
pub proof fn lemma_tec_off_aborts(p: SweepParameters)
    requires
        valid_parameters(p),
    ensures
        action_of(sweep_start(p)) == SweepAction::QueryTecState,
        next_state(sweep_start(p), SweepEvent::TecState(false)).phase == SweepPhase::Finished,
        next_state(sweep_start(p), SweepEvent::TecState(false)).error == Some(
            SweepError::SafetyViolation,
        ),
        next_state(sweep_start(p), SweepEvent::TecState(false)).records.len() == 0,
        action_of(next_state(sweep_start(p), SweepEvent::TecState(false))) == SweepAction::Finish,
{
}

/// One sweep in progress: its parameters, its stage, and the records so far.
pub struct SweepRun {
    params: SweepParameters,
    phase: SweepPhase,
    records: Vec<MeasurementRecord>,
    error: Option<SweepError>,
}

impl View for SweepRun {
    type V = SweepState;

    closed spec fn view(&self) -> SweepState {
        SweepState {
            params: self.params,
            phase: self.phase,
            records: self.records@,
            error: self.error,
        }
    }
}

/// The outcome that a finished sweep reports.
pub open spec fn outcome_of(s: SweepState) -> Option<Result<(), SweepError>> {
    if s.phase == SweepPhase::Finished {
        match s.error {
            None => Some(Ok(())),
            Some(e) => Some(Err(e)),
        }
    } else {
        None
    }
}

/// Every event keeps a reachable state reachable.
pub proof fn lemma_next_state_wf(s: SweepState, e: SweepEvent)
    requires
        s.wf(),
    ensures
        next_state(s, e).wf(),
{
    let n = next_state(s, e);
    if s.phase == SweepPhase::ReadPower {
        if let SweepEvent::Power { reading, timestamp } = e {
            let k = s.records.len() as int;
            lemma_point_in_range(s.params, k);
            assert forall|i: int| 0 <= i < n.records.len() implies (
            #[trigger] n.records[i]).current_ua == point_current(n.params, i)
                && n.records[i].module == n.params.module by {
                if i < k {
                    assert(n.records[i] == s.records[i]);
                }
            }
        }
    }
}

impl SweepRun {
    /// Starts a sweep. Invalid parameters are rejected here, before any
    /// action exists, so no instrument is touched.
    pub fn start(params: SweepParameters) -> (r: Result<SweepRun, SweepError>)
        ensures
            r is Ok <==> valid_parameters(params),
            r matches Ok(run) ==> run@ == sweep_start(params) && run@.wf(),
            r matches Err(e) ==> e == SweepError::InvalidParameters,
    {
        if params.step_ua <= 0 || params.start_ua > params.stop_ua {
            return Err(SweepError::InvalidParameters);
        }
        let run = SweepRun {
            params,
            phase: SweepPhase::SafetyCheck,
            records: Vec::new(),
            error: None,
        };
        assert(run@.records =~= Seq::<MeasurementRecord>::empty());
        Ok(run)
    }

    pub fn params(&self) -> (r: SweepParameters)
        ensures
            r == self@.params,
    {
        self.params
    }

    pub fn phase(&self) -> (r: SweepPhase)
        ensures
            r == self@.phase,
    {
        self.phase
    }

    /// The records collected so far, in acquisition order.
    pub fn records(&self) -> (r: &Vec<MeasurementRecord>)
        ensures
            r@ == self@.records,
    {
        &self.records
    }

    /// Whether the sweep is over.
    pub fn is_finished(&self) -> (r: bool)
        ensures
            r == (self@.phase == SweepPhase::Finished),
    {
        self.phase == SweepPhase::Finished
    }

    /// `Some` once the sweep is over: `Ok` when every setpoint was recorded and
    /// persisted, else the error that ended it.
    pub fn outcome(&self) -> (r: Option<Result<(), SweepError>>)
        ensures
            r == outcome_of(self@),
    {
        if self.phase == SweepPhase::Finished {
            match &self.error {
                None => Some(Ok(())),
                Some(e) => Some(Err(e.duplicate())),
            }
        } else {
            None
        }
    }

    fn current_setpoint(&self) -> (r: i64)
        requires
            self@.wf(),
            stepping(self@.phase),
        ensures
            r as int == point_current(self@.params, self@.records.len() as int),
    {
        proof {
            lemma_point_in_range(self.params, self.records@.len() as int);
        }
        let c: i128 = self.params.start_ua as i128 + (self.records.len() as i128)
            * (self.params.step_ua as i128);
        c as i64
    }

    /// What the host is to do next.
    pub fn next_action(&self) -> (r: SweepAction)
        requires
            self@.wf(),
        ensures
            r == action_of(self@),
    {
        match self.phase {
            SweepPhase::SafetyCheck => SweepAction::QueryTecState,
            SweepPhase::Zeroing => SweepAction::Zero,
            SweepPhase::ZeroSettle => SweepAction::Sleep(ZEROING_SETTLE_MS),
            SweepPhase::LaserOffBefore => SweepAction::SetLaserOutput(false),
            SweepPhase::SyncWavelength => SweepAction::SetWavelength(OPERATING_WAVELENGTH_NM),
            SweepPhase::LaserOn => SweepAction::SetLaserOutput(true),
            SweepPhase::SetCurrent => SweepAction::SetCurrent(self.current_setpoint()),
            SweepPhase::Stabilize => SweepAction::Sleep(self.params.stabilization_delay_ms),
            SweepPhase::ReadPower => SweepAction::ReadPower(self.params.module),
            SweepPhase::Emit => {
                let last = self.records.len() - 1;
                SweepAction::Emit(self.records[last].duplicate())
            },
            SweepPhase::LaserOffAfter => SweepAction::SetLaserOutput(false),
            SweepPhase::Persist => SweepAction::Persist,
            SweepPhase::Finished => SweepAction::Finish,
        }
    }

    fn fail(&mut self, e: SweepError, abort: bool)
        requires
            old(self)@.wf(),
        ensures
            final(self)@ == (if abort {
                abort_with(old(self)@, e)
            } else {
                finish_with(old(self)@, e)
            }),
    {
        self.error = Some(e);
        self.phase = if abort {
            SweepPhase::LaserOffAfter
        } else {
            SweepPhase::Finished
        };
    }

    /// Takes the host's report on the pending action.
    pub fn advance(&mut self, event: SweepEvent)
        requires
            old(self)@.wf(),
        ensures
            final(self)@ == next_state(old(self)@, event),
            final(self)@.wf(),
    {
        proof {
            lemma_next_state_wf(self@, event);
        }
        let ghost ev = event;
        match self.phase {
            SweepPhase::SafetyCheck => match event {
                SweepEvent::TecState(true) => self.phase = SweepPhase::Zeroing,
                SweepEvent::TecState(false) => self.fail(SweepError::SafetyViolation, false),
                SweepEvent::Failed(m) => self.fail(SweepError::Device(m), false),
                _ => self.fail(SweepError::UnexpectedEvent, false),
            },
            SweepPhase::Zeroing => match event {
                SweepEvent::Done => self.phase = SweepPhase::ZeroSettle,
                SweepEvent::Failed(m) => self.fail(SweepError::Zeroing(m), false),
                _ => self.fail(SweepError::UnexpectedEvent, false),
            },
            SweepPhase::ZeroSettle => self.phase = SweepPhase::LaserOffBefore,
            SweepPhase::LaserOffBefore => self.phase = SweepPhase::SyncWavelength,
            SweepPhase::SyncWavelength => match event {
                SweepEvent::Done => self.phase = SweepPhase::LaserOn,
                SweepEvent::Failed(m) => self.fail(SweepError::Device(m), true),
                _ => self.fail(SweepError::UnexpectedEvent, true),
            },
            SweepPhase::LaserOn => match event {
                SweepEvent::Done => self.phase = SweepPhase::SetCurrent,
                SweepEvent::Failed(m) => self.fail(SweepError::Device(m), true),
                _ => self.fail(SweepError::UnexpectedEvent, true),
            },
            SweepPhase::SetCurrent => match event {
                SweepEvent::Done => self.phase = SweepPhase::Stabilize,
                SweepEvent::Failed(m) => self.fail(SweepError::Device(m), true),
                _ => self.fail(SweepError::UnexpectedEvent, true),
            },
            SweepPhase::Stabilize => self.phase = SweepPhase::ReadPower,
            SweepPhase::ReadPower => match event {
                SweepEvent::Power { reading, timestamp } => {
                    let current_ua = self.current_setpoint();
                    let record = MeasurementRecord {
                        timestamp,
                        current_ua,
                        power_dbm: reading,
                        module: self.params.module,
                    };
                    self.records.push(record);
                    self.phase = SweepPhase::Emit;
                },
                SweepEvent::Failed(m) => self.fail(SweepError::Device(m), true),
                _ => self.fail(SweepError::UnexpectedEvent, true),
            },
            SweepPhase::Emit => {
                proof {
                    lemma_point_in_range(self.params, self.records@.len() as int);
                }
                let last = self.records.len() - 1;
                let next: i128 = self.records[last].current_ua as i128
                    + self.params.step_ua as i128;
                assert(next == point_current(self.params, self.records@.len() as int)) by (
                nonlinear_arith)
                    requires
                        next == point_current(self.params, last as int) + self.params.step_ua,
                        last + 1 == self.records@.len(),
                ;
                if next <= self.params.stop_ua as i128 {
                    self.phase = SweepPhase::SetCurrent;
                } else {
                    self.phase = SweepPhase::LaserOffAfter;
                }
            },
            SweepPhase::LaserOffAfter => {
                if self.records.len() > 0 {
                    self.phase = SweepPhase::Persist;
                } else {
                    self.phase = SweepPhase::Finished;
                }
            },
            SweepPhase::Persist => {
                match event {
                    SweepEvent::Done => {},
                    SweepEvent::Failed(m) => {
                        if self.error.is_none() {
                            self.error = Some(SweepError::Persist(m));
                        }
                    },
                    _ => {
                        if self.error.is_none() {
                            self.error = Some(SweepError::UnexpectedEvent);
                        }
                    },
                }
                self.phase = SweepPhase::Finished;
            },
            SweepPhase::Finished => {},
        }
    }
}

} // verus!
