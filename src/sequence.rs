use vstd::prelude::*;
use crate::error::BringUpError;
use crate::board::{board_assignment, claims_injective, lemma_board_claims_injective, BoardPins};
use crate::pwm::{Color, RgbDuty, FIRST_RGB_SLICE, SECOND_RGB_SLICE};
use st7567_rs::BacklightStatus;

verus! {

/// The display driver's backlight level, `st7567_rs::BacklightStatus`: a
/// public enum of two unit variants, `On` and `Off`, which Verus reads as is.
#[verifier::external_type_specification]
pub struct ExBacklightStatus(BacklightStatus);

/// Frequency of the external crystal the clock tree is derived from.
pub const XOSC_HZ: u32 = 12_000_000;
/// Clock rate of the display's serial bus.
pub const BUS_RATE_HZ: u32 = 10_000_000;

/// Level of the bus clock between transactions.
#[derive(Clone, Copy, Debug, PartialEq, Eq, Structural)]
pub enum BusPolarity {
    IdleLow,
    IdleHigh,
}

/// Clock edge on which the bus samples data.
#[derive(Clone, Copy, Debug, PartialEq, Eq, Structural)]
pub enum BusPhase {
    CaptureOnFirstTransition,
    CaptureOnSecondTransition,
}

/// Transaction mode of the serial bus.
#[derive(Clone, Copy, Debug, PartialEq, Eq, Structural)]
pub struct BusMode {
    pub polarity: BusPolarity,
    pub phase: BusPhase,
}

/// One step of bring-up, for the caller to carry out on the hardware.
pub enum Action {
    /// Take the singleton register set.
    TakePeripherals,
    /// Program the PLLs from the crystal and wait for lock.
    InitClocks { xosc_hz: u32 },
    /// Claim every line of the board for its role.
    ClaimPins,
    /// Start the shared timebase.
    StartTimer,
    /// Bring up the serial bus and pair it with its chip select.
    ConfigureBus { mode: BusMode, rate_hz: u32 },
    /// Build the display handle from its control lines and the bus device.
    BindDisplay,
    /// Drive the display backlight.
    SetBacklight(BacklightStatus),
    /// Run the display controller's reset and init sequence.
    InitDisplay,
    /// Set a PWM slice to phase-correct counting and enable it.
    EnablePwm { slice: u8 },
    /// Route the three LED channels and build the RGB sink.
    BindRgb,
    /// Bind the five buttons to their lines and the shared timebase.
    BindButtons,
    /// Hand the finished bundle to the caller.
    Deliver,
}

/// The mode the display's bus runs in.
pub open spec fn display_bus_mode() -> BusMode {
    BusMode { polarity: BusPolarity::IdleHigh, phase: BusPhase::CaptureOnSecondTransition }
}

/// Every step of bring-up, in the order they are carried out.
pub open spec fn plan() -> Seq<Action> {
    seq![
        Action::TakePeripherals,
        Action::InitClocks { xosc_hz: XOSC_HZ },
        Action::ClaimPins,
        Action::StartTimer,
        Action::ConfigureBus { mode: display_bus_mode(), rate_hz: BUS_RATE_HZ },
        Action::BindDisplay,
        Action::SetBacklight(BacklightStatus::Off),
        Action::InitDisplay,
        Action::EnablePwm { slice: FIRST_RGB_SLICE },
        Action::EnablePwm { slice: SECOND_RGB_SLICE },
        Action::BindRgb,
        Action::BindButtons,
        Action::Deliver,
    ]
}

/// Number of steps of bring-up.
pub const PLAN_LEN: usize = 13;
/// Position of the clock set-up in the plan.
pub const CLOCK_STEP: usize = 1;
/// Position of the display controller's init sequence in the plan.
pub const DISPLAY_INIT_STEP: usize = 7;

/// Whether step `a` configures something from a derived clock frequency.
pub open spec fn uses_derived_clock(a: Action) -> bool {
    match a {
        Action::StartTimer | Action::ConfigureBus { .. } | Action::EnablePwm { .. }
        | Action::BindRgb | Action::BindButtons => true,
        _ => false,
    }
}

/// The backlight after `steps`, starting from `initial`: the level the last
/// `SetBacklight` among them chose, or `initial` if none did.
pub open spec fn backlight_after(steps: Seq<Action>, initial: BacklightStatus) -> BacklightStatus
    decreases steps.len(),
{
    if steps.len() == 0 {
        initial
    } else {
        match steps.last() {
            Action::SetBacklight(b) => b,
            _ => backlight_after(steps.drop_last(), initial),
        }
    }
}

/// The step at position `i` of the plan.
pub fn plan_step(i: usize) -> (r: Action)
    requires
        i < PLAN_LEN,
    ensures
        r == plan()[i as int],
{
    match i {
        0 => Action::TakePeripherals,
        1 => Action::InitClocks { xosc_hz: XOSC_HZ },
        2 => Action::ClaimPins,
        3 => Action::StartTimer,
        4 => Action::ConfigureBus {
            mode: BusMode {
                polarity: BusPolarity::IdleHigh,
                phase: BusPhase::CaptureOnSecondTransition,
            },
            rate_hz: BUS_RATE_HZ,
        },
        5 => Action::BindDisplay,
        6 => Action::SetBacklight(BacklightStatus::Off),
        7 => Action::InitDisplay,
        8 => Action::EnablePwm { slice: FIRST_RGB_SLICE },
        9 => Action::EnablePwm { slice: SECOND_RGB_SLICE },
        10 => Action::BindRgb,
        11 => Action::BindButtons,
        _ => Action::Deliver,
    }
}

/// The clock tree is set up once, before every step that configures
/// something from a derived frequency.
pub proof fn lemma_clocks_first()
    ensures
        plan().len() == PLAN_LEN,
        plan()[CLOCK_STEP as int] == (Action::InitClocks { xosc_hz: XOSC_HZ }),
        forall|j: int| 0 <= j < PLAN_LEN && #[trigger] uses_derived_clock(plan()[j])
            ==> CLOCK_STEP < j,
        forall|j: int| 0 <= j < PLAN_LEN && j != CLOCK_STEP
            ==> !(#[trigger] plan()[j] is InitClocks),
{
}

/// Whatever level the backlight had at power-on, it is off when the display
/// controller's init sequence starts, and still off when bring-up ends.
pub proof fn lemma_backlight_dark(initial: BacklightStatus)
    ensures
        plan()[DISPLAY_INIT_STEP as int] is InitDisplay,
        backlight_after(plan().take(DISPLAY_INIT_STEP as int), initial) == BacklightStatus::Off,
        backlight_after(plan(), initial) == BacklightStatus::Off,
{
    reveal_with_fuel(backlight_after, 8);
    let p = plan();
    assert(p.take(7).last() == p[6]);
    assert(p.take(7).drop_last() =~= p.take(6));
    assert(p.last() == p[12]);
    assert(p.drop_last() =~= p.take(12));
    assert(p.take(12).drop_last() =~= p.take(11));
    assert(p.take(11).drop_last() =~= p.take(10));
    assert(p.take(10).drop_last() =~= p.take(9));
    assert(p.take(9).drop_last() =~= p.take(8));
    assert(p.take(8).drop_last() =~= p.take(7));
}

/// What the hardware reported after a step was carried out.
#[derive(Clone, Copy, Debug, PartialEq, Eq, Structural)]
pub enum Outcome {
    /// The step completed.
    Done,
    /// The PLLs never reported lock.
    ClockLockFailed,
    /// A bus transaction failed.
    TransactionFailed,
    /// The register set or a line had already been taken.
    AlreadyTaken,
}

/// The error that `o` ends bring-up with, if any.
pub open spec fn failure_of(o: Outcome) -> Option<BringUpError> {
    match o {
        Outcome::Done => None,
        Outcome::ClockLockFailed => Some(BringUpError::ClockLockFailure),
        Outcome::TransactionFailed => Some(BringUpError::BusTransactionFailure),
        Outcome::AlreadyTaken => Some(BringUpError::ResourceAlreadyClaimed),
    }
}

/// What the caller is to do next.
pub enum Next {
    /// Carry out this step and report its outcome.
    Do(Action),
    /// Stop: bring-up failed with this error.
    Halt(BringUpError),
    /// Nothing: every step is done.
    Finished,
}

/// Decides the steps of bring-up one at a time, from the outcomes of the
/// steps before.
#[derive(Debug)]
pub struct Sequencer {
    next: usize,
    failed: Option<BringUpError>,
}

impl View for Sequencer {
    type V = (nat, Option<BringUpError>);

    /// How many steps have completed, and the error that stopped bring-up.
    closed spec fn view(&self) -> (nat, Option<BringUpError>) {
        (self.next as nat, self.failed)
    }
}

/// The state reached by reporting `o` in state `s`: a completed step moves
/// on, a failed one stops bring-up for good, and once stopped or finished
/// nothing changes.
pub open spec fn step_spec(s: (nat, Option<BringUpError>), o: Outcome) -> (nat, Option<BringUpError>) {
    if s.1.is_some() || s.0 >= PLAN_LEN {
        s
    } else if o == Outcome::Done {
        ((s.0 + 1) as nat, None)
    } else {
        (s.0, failure_of(o))
    }
}

/// Whether every step of state `s` is done and none failed.
pub open spec fn finished_spec(s: (nat, Option<BringUpError>)) -> bool {
    s.0 == PLAN_LEN && s.1.is_none()
}

/// The steps that have completed in state `s`: always a prefix of the plan.
pub open spec fn completed(s: (nat, Option<BringUpError>)) -> Seq<Action> {
    plan().take(s.0 as int)
}

impl Sequencer {
    pub open spec fn wf(&self) -> bool {
        &&& self@.0 <= PLAN_LEN
        &&& self@.1.is_some() ==> self@.0 < PLAN_LEN
    }

    /// Nothing done yet.
    pub fn new() -> (r: Sequencer)
        ensures
            r.wf(),
            r@ == (0nat, None::<BringUpError>),
    {
        Sequencer { next: 0, failed: None }
    }

    /// The next thing to do.
    pub fn current(&self) -> (r: Next)
        requires
            self.wf(),
        ensures
            self@.1 matches Some(e) ==> r == Next::Halt(e),
            self@.1.is_none() && self@.0 < PLAN_LEN ==> r == Next::Do(plan()[self@.0 as int]),
            finished_spec(self@) ==> r is Finished,
    {
        match self.failed {
            Some(e) => Next::Halt(e),
            None => {
                if self.next < PLAN_LEN {
                    Next::Do(plan_step(self.next))
                } else {
                    Next::Finished
                }
            },
        }
    }

    /// Whether every step is done.
    pub fn is_finished(&self) -> (r: bool)
        ensures
            r == finished_spec(self@),
    {
        self.next == PLAN_LEN && self.failed.is_none()
    }

    /// Takes the outcome of the current step.
    pub fn report(&mut self, o: Outcome)
        requires
            old(self).wf(),
        ensures
            final(self).wf(),
            final(self)@ == step_spec(old(self)@, o),
    {
        if self.failed.is_some() || self.next >= PLAN_LEN {
            return;
        }
        match o {
            Outcome::Done => self.next = self.next + 1,
            Outcome::ClockLockFailed => self.failed = Some(BringUpError::ClockLockFailure),
            Outcome::TransactionFailed => self.failed = Some(BringUpError::BusTransactionFailure),
            Outcome::AlreadyTaken => self.failed = Some(BringUpError::ResourceAlreadyClaimed),
        }
    }

    /// What the caller holds once bring-up has finished, and nothing before:
    /// no partial bundle is ever described.
    pub fn summary(&self, pins: &BoardPins) -> (r: Option<BundleSummary>)
        requires
            self.wf(),
            pins.claims() == board_assignment(),
        ensures
            r.is_some() == finished_spec(self@),
            r matches Some(b) ==> b.spec_holds(pins),
    {
        if !self.is_finished() {
            return None;
        }
        let buttons = vec![
            ButtonBinding { pin: pins.button_a.id, timebase: TIMEBASE_ID },
            ButtonBinding { pin: pins.button_b.id, timebase: TIMEBASE_ID },
            ButtonBinding { pin: pins.button_c.id, timebase: TIMEBASE_ID },
            ButtonBinding { pin: pins.button_d.id, timebase: TIMEBASE_ID },
            ButtonBinding { pin: pins.button_e.id, timebase: TIMEBASE_ID },
        ];
        let b = BundleSummary {
            display_ready: true,
            backlight: BacklightStatus::Off,
            buttons,
            rgb: RgbDuty::off(),
            entropy_enabled: false,
        };
        proof {
            lemma_board_claims_injective();
            assert forall|initial: BacklightStatus|
                #[trigger] backlight_after(plan(), initial) == BacklightStatus::Off by {
                lemma_backlight_dark(initial);
            }
            assert(pins.claims()[9] == pins.button_a);
            assert(pins.claims()[10] == pins.button_b);
            assert(pins.claims()[11] == pins.button_c);
            assert(pins.claims()[12] == pins.button_d);
            assert(pins.claims()[13] == pins.button_e);
        }
        Some(b)
    }
}

/// Identity of the one timebase on the board.
pub const TIMEBASE_ID: u8 = 0;

/// A button: its input line and the timebase it reads.
#[derive(Clone, Copy, Debug, PartialEq, Eq, Structural)]
pub struct ButtonBinding {
    pub pin: u8,
    pub timebase: u8,
}

/// The state of every handle in the bundle handed to the caller.
pub struct BundleSummary {
    /// Whether the display controller finished its init sequence.
    pub display_ready: bool,
    /// The display backlight.
    pub backlight: BacklightStatus,
    /// The buttons, A to E.
    pub buttons: Vec<ButtonBinding>,
    /// The LED's duty cycles.
    pub rgb: RgbDuty,
    /// Whether the entropy source was enabled; it is left for the caller.
    pub entropy_enabled: bool,
}

impl BundleSummary {
    /// The display is initialized and dark whatever its power-on state, five
    /// buttons on distinct input lines share the one timebase, the LED is
    /// fully off and the entropy source is left disabled.
    pub open spec fn spec_holds(&self, pins: &BoardPins) -> bool {
        &&& self.display_ready
        &&& forall|initial: BacklightStatus|
            self.backlight == #[trigger] backlight_after(plan(), initial)
        &&& self.backlight == BacklightStatus::Off
        &&& self.buttons@.len() == 5
        &&& forall|i: int| 0 <= i < 5 ==> (#[trigger] self.buttons@[i]).timebase == TIMEBASE_ID
            && self.buttons@[i].pin == pins.claims()[9 + i].id
        &&& forall|i: int, j: int| 0 <= i < 5 && 0 <= j < 5 && i != j
            ==> self.buttons@[i].pin != self.buttons@[j].pin
        &&& forall|c: Color| #[trigger] self.rgb.spec_duty(c) == 0
        &&& !self.entropy_enabled
    }
}

/// Once every step is done, the steps carried out are the whole plan, in its
/// order; before that they are a strict prefix of it.
pub proof fn lemma_all_or_nothing(s: (nat, Option<BringUpError>))
    requires
        s.0 <= PLAN_LEN,
        s.1.is_some() ==> s.0 < PLAN_LEN,
    ensures
        finished_spec(s) ==> completed(s) == plan(),
        !finished_spec(s) ==> completed(s).len() < PLAN_LEN,
{
    if finished_spec(s) {
        assert(plan().take(PLAN_LEN as int) =~= plan());
    }
}

/// Whenever the sequencer asks for a step that runs from a derived clock,
/// the clock set-up is among the steps already completed; whenever it asks
/// for the display's init sequence, the backlight is already off, whatever
/// its power-on level.
pub proof fn lemma_ready_when_asked(s: (nat, Option<BringUpError>), initial: BacklightStatus)
    requires
        s.0 < PLAN_LEN,
    ensures
        uses_derived_clock(plan()[s.0 as int]) ==> completed(s).contains(
            Action::InitClocks { xosc_hz: XOSC_HZ },
        ),
        plan()[s.0 as int] is InitDisplay ==> backlight_after(completed(s), initial)
            == BacklightStatus::Off,
{
    lemma_clocks_first();
    lemma_backlight_dark(initial);
    if uses_derived_clock(plan()[s.0 as int]) {
        assert(completed(s)[CLOCK_STEP as int] == plan()[CLOCK_STEP as int]);
    }
    if plan()[s.0 as int] is InitDisplay {
        assert(s.0 == DISPLAY_INIT_STEP);
    }
}

/// A failure is final: from a failed state no outcome moves bring-up on.
pub proof fn lemma_failure_final(s: (nat, Option<BringUpError>), o: Outcome)
    requires
        s.1.is_some(),
    ensures
        step_spec(s, o) == s,
{
}

} // verus!
