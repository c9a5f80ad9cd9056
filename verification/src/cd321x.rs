//! The CD321x controller: its registers, modes and commands, and the
//! sequencer that runs the operations of the tool on it.
use vstd::prelude::*;
use crate::codec::{le_u16_value, le_u32_value, u16_from_le, u32_from_le, u32s_le_bytes, u32s_to_le};
use crate::error::Error;
use vstd::string::StringSliceAdditionalSpecFns;
use vstd::utf8::{encode_utf8, valid_utf8};

verus! {

/// Register that holds the controller's operating mode as four ASCII bytes.
pub const TPS_REG_MODE: u8 = 0x03;
/// Register that takes a four-byte command tag and reads back 0 when done.
pub const TPS_REG_CMD1: u8 = 0x08;
/// Register that takes the input data of a command.
pub const TPS_REG_DATA1: u8 = 0x09;
/// Register whose bit 0 tells whether a partner is connected.
pub const TPS_REG_POWER_STATUS: u8 = 0x3f;

/// What CMD1 reads back after an unknown command: the bytes "!CMD".
pub const INVALID_CMD: u32 = 0x444d4321;

/// Time a command may take, in nanoseconds (one second).
pub const CMD_TIMEOUT: u64 = 1_000_000_000;
/// Time a VDM transmission may take, in nanoseconds.
pub const VDM_TIMEOUT: u64 = 200_000_000;
/// Time to wait after a VDM transmission, in nanoseconds.
pub const VDM_RESPONSE_DELAY: u64 = 200_000_000;
/// How long to wait for the partner to come back after a reboot, in nanoseconds.
pub const RECONNECT_TIMEOUT: u64 = 3_000_000_000;
/// Pause between two connection checks, in nanoseconds.
pub const POLL_WAIT: u64 = 100_000_000;
/// Pause before and after waiting for the partner, in nanoseconds.
pub const RECONNECT_WAIT: u64 = 1_000_000_000;

/// Operating mode of the controller.
#[derive(Debug, Clone, Copy, PartialEq, Eq, Structural)]
pub enum TpsMode {
    App,
    Boot,
    Bist,
    Disc,
    Ptch,
    Dbma,
}

/// The four bytes by which the MODE register names a mode.
pub open spec fn mode_tag(m: TpsMode) -> Seq<u8> {
    match m {
        TpsMode::App => seq![0x41u8, 0x50u8, 0x50u8, 0x20u8],
        TpsMode::Boot => seq![0x42u8, 0x4fu8, 0x4fu8, 0x54u8],
        TpsMode::Bist => seq![0x42u8, 0x49u8, 0x53u8, 0x54u8],
        TpsMode::Disc => seq![0x44u8, 0x49u8, 0x53u8, 0x43u8],
        TpsMode::Ptch => seq![0x50u8, 0x54u8, 0x43u8, 0x48u8],
        TpsMode::Dbma => seq![0x44u8, 0x42u8, 0x4du8, 0x61u8],
    }
}

/// The mode that the bytes name, if any.
pub open spec fn mode_of_tag(b: Seq<u8>) -> Option<TpsMode> {
    if b == mode_tag(TpsMode::App) {
        Some(TpsMode::App)
    } else if b == mode_tag(TpsMode::Boot) {
        Some(TpsMode::Boot)
    } else if b == mode_tag(TpsMode::Bist) {
        Some(TpsMode::Bist)
    } else if b == mode_tag(TpsMode::Disc) {
        Some(TpsMode::Disc)
    } else if b == mode_tag(TpsMode::Ptch) {
        Some(TpsMode::Ptch)
    } else if b == mode_tag(TpsMode::Dbma) {
        Some(TpsMode::Dbma)
    } else {
        None
    }
}

fn is_tag(b: &[u8], c0: u8, c1: u8, c2: u8, c3: u8) -> (r: bool)
    ensures
        r == (b@ == seq![c0, c1, c2, c3]),
{
    if b.len() != 4 {
        return false;
    }
    let r = b[0] == c0 && b[1] == c1 && b[2] == c2 && b[3] == c3;
    if r {
        assert(b@ =~= seq![c0, c1, c2, c3]);
    }
    r
}

impl TpsMode {
    /// The mode named by the bytes of the MODE register, if they name one.
    pub fn from_tag(b: &[u8]) -> (r: Option<TpsMode>)
        ensures
            r == mode_of_tag(b@),
    {
        if is_tag(b, 0x41, 0x50, 0x50, 0x20) {
            Some(TpsMode::App)
        } else if is_tag(b, 0x42, 0x4f, 0x4f, 0x54) {
            Some(TpsMode::Boot)
        } else if is_tag(b, 0x42, 0x49, 0x53, 0x54) {
            Some(TpsMode::Bist)
        } else if is_tag(b, 0x44, 0x49, 0x53, 0x43) {
            Some(TpsMode::Disc)
        } else if is_tag(b, 0x50, 0x54, 0x43, 0x48) {
            Some(TpsMode::Ptch)
        } else if is_tag(b, 0x44, 0x42, 0x4d, 0x61) {
            Some(TpsMode::Dbma)
        } else {
            None
        }
    }

    /// Parses a mode name: "APP ", "BOOT", "BIST", "DISC", "PTCH" or "DBMa".
    pub fn from_str(input: &str) -> (r: Result<TpsMode, ()>)
        ensures
            r == (match mode_of_tag(input.spec_bytes()) {
                Some(m) => Ok(m),
                None => Err(()),
            }),
    {
        match TpsMode::from_tag(input.as_bytes()) {
            Some(m) => Ok(m),
            None => Err(()),
        }
    }
}

/// Whether CMD1 holds the "!CMD" answer to an unknown command.
pub fn is_invalid_cmd(val: u32) -> (r: bool)
    ensures
        r == (val == INVALID_CMD),
{
    val == INVALID_CMD
}

/// To which end of the cable a VDM goes.
#[derive(Debug, Clone, Copy, PartialEq, Eq, Structural)]
pub enum VdmSopType {
    Sop,
    SopPrime,
    SopPrimePrime,
    SopStar,
}

/// The two-bit code of a SOP type.
pub open spec fn sop_code(s: VdmSopType) -> u8 {
    match s {
        VdmSopType::Sop => 0,
        VdmSopType::SopPrime => 1,
        VdmSopType::SopPrimePrime => 2,
        VdmSopType::SopStar => 3,
    }
}

impl VdmSopType {
    /// The two-bit code of the SOP type.
    pub fn code(self) -> (r: u8)
        ensures
            r == sop_code(self),
    {
        match self {
            VdmSopType::Sop => 0,
            VdmSopType::SopPrime => 1,
            VdmSopType::SopPrimePrime => 2,
            VdmSopType::SopStar => 3,
        }
    }
}

/// Whether a VDM may carry that many data objects (one to seven).
pub open spec fn vdo_count_ok(n: int) -> bool {
    1 <= n <= 7
}

/// The data of a "VDMs" command: a header byte with the SOP type in the high
/// nibble and the number of objects in the low one, then each object in
/// little-endian order.
pub open spec fn vdms_data(sop: VdmSopType, vdos: Seq<u32>) -> Seq<u8> {
    seq![(sop_code(sop) * 16 + vdos.len()) as u8] + u32s_le_bytes(vdos)
}

/// Builds the data of a "VDMs" command; refuses an empty list or one of more
/// than seven objects.
pub fn vdms_payload(sop: VdmSopType, vdos: &[u32]) -> (r: Result<Vec<u8>, Error>)
    ensures
        match r {
            Ok(p) => vdo_count_ok(vdos@.len() as int) && p@ == vdms_data(sop, vdos@),
            Err(e) => !vdo_count_ok(vdos@.len() as int) && e == Error::InvalidArgument,
        },
{
    if vdos.len() == 0 || vdos.len() > 7 {
        return Err(Error::InvalidArgument);
    }
    let n: u8 = vdos.len() as u8;
    let c: u8 = sop.code();
    let header: u8 = (c << 4u8) | n;
    assert(header == c * 16 + n) by (bit_vector)
        requires
            header == (c << 4u8) | n,
            c < 4,
            n < 8,
    ;
    let mut p: Vec<u8> = Vec::new();
    p.push(header);
    let body = u32s_to_le(vdos);
    let mut i: usize = 0;
    while i < body.len()
        invariant
            i <= body@.len(),
            p@ == seq![header] + body@.take(i as int),
        decreases body@.len() - i,
    {
        p.push(body[i]);
        i = i + 1;
        assert(p@ =~= seq![header] + body@.take(i as int));
    }
    assert(body@.take(i as int) =~= body@);
    Ok(p)
}


// ------------------------------------------------------------------------
// The command sequencer
// ------------------------------------------------------------------------

/// One step of an operation on the controller.
pub enum Stage {
    /// Read the MODE register; go on only if it names this mode.
    ExpectMode(TpsMode),
    /// Run a four-character command with its input data: wait for CMD1 to be
    /// free, write DATA1 (unless the data is empty) and CMD1, poll CMD1 until
    /// it reads 0 or the timeout passes, then wait `delay` nanoseconds.
    Command { tag: [u8; 4], data: Vec<u8>, timeout: u64, delay: u64 },
    /// Wait `settle`, poll the power status until a partner is connected
    /// (pausing `poll_wait` between checks, giving up after `timeout`), then
    /// wait `settle` again.
    AwaitConnection { settle: u64, timeout: u64, poll_wait: u64 },
}

/// A stage, with its data as a sequence.
pub enum StageView {
    ExpectMode(TpsMode),
    Command { tag: Seq<u8>, data: Seq<u8>, timeout: u64, delay: u64 },
    AwaitConnection { settle: u64, timeout: u64, poll_wait: u64 },
}

impl View for Stage {
    type V = StageView;

    open spec fn view(&self) -> StageView {
        match self {
            Stage::ExpectMode(m) => StageView::ExpectMode(*m),
            Stage::Command { tag, data, timeout, delay } => StageView::Command {
                tag: tag@,
                data: data@,
                timeout: *timeout,
                delay: *delay,
            },
            Stage::AwaitConnection { settle, timeout, poll_wait } => StageView::AwaitConnection {
                settle: *settle,
                timeout: *timeout,
                poll_wait: *poll_wait,
            },
        }
    }
}

/// What the sequencer asks the caller to do next.
#[derive(Debug, PartialEq, Eq)]
pub enum BusAction {
    /// Read `len` bytes from register `reg`.
    Read { reg: u8, len: usize },
    /// Write `data` to register `reg`.
    Write { reg: u8, data: Vec<u8> },
    /// Wait this many nanoseconds.
    Sleep { nanos: u64 },
    /// The operation is over, with this result.
    Done(Result<(), Error>),
}

/// An action, with its data as a sequence.
pub enum ActionView {
    Read { reg: u8, len: usize },
    Write { reg: u8, data: Seq<u8> },
    Sleep { nanos: u64 },
    Done(Result<(), Error>),
}

impl View for BusAction {
    type V = ActionView;

    open spec fn view(&self) -> ActionView {
        match self {
            BusAction::Read { reg, len } => ActionView::Read { reg: *reg, len: *len },
            BusAction::Write { reg, data } => ActionView::Write { reg: *reg, data: data@ },
            BusAction::Sleep { nanos } => ActionView::Sleep { nanos: *nanos },
            BusAction::Done(r) => ActionView::Done(*r),
        }
    }
}

/// What came of the last action. `now` is a monotonic clock in nanoseconds,
/// read when the action completed.
#[derive(Debug)]
pub enum BusEvent {
    /// The read succeeded with these bytes.
    Read { data: Vec<u8>, now: u64 },
    /// The write succeeded.
    Wrote { now: u64 },
    /// The wait is over.
    Slept { now: u64 },
    /// The transfer failed.
    Failed(Error),
}

/// An event, with its data as a sequence.
pub enum EventView {
    Read { data: Seq<u8>, now: u64 },
    Wrote { now: u64 },
    Slept { now: u64 },
    Failed(Error),
}

impl View for BusEvent {
    type V = EventView;

    open spec fn view(&self) -> EventView {
        match self {
            BusEvent::Read { data, now } => EventView::Read { data: data@, now: *now },
            BusEvent::Wrote { now } => EventView::Wrote { now: *now },
            BusEvent::Slept { now } => EventView::Slept { now: *now },
            BusEvent::Failed(e) => EventView::Failed(*e),
        }
    }
}

/// Where the sequencer stands inside the current stage.
#[derive(Debug, Clone, Copy, PartialEq, Eq, Structural)]
pub enum Phase {
    /// No operation is running.
    Idle,
    /// Waiting for the MODE register.
    ModeRead,
    /// Waiting for CMD1, read to see that no command is running.
    BusyCheck,
    /// Waiting for the write of DATA1.
    DataWrite,
    /// Waiting for the write of the command tag to CMD1.
    TagWrite,
    /// Waiting for CMD1, polled since `start`.
    Poll { start: u64 },
    /// Waiting out the delay after a command.
    Settle,
    /// Waiting out the pause before looking for the partner.
    ReconnectSettle,
    /// Waiting for the power status, looked for since `start`.
    Probe { start: u64 },
    /// Waiting out the pause between two looks, looked for since `start`.
    ProbeWait { start: u64 },
    /// Waiting out the pause after the partner came back.
    Reconnected,
}

/// Nanoseconds from `start` to `now`, or zero if the clock reads earlier.
pub open spec fn elapsed(start: u64, now: u64) -> int {
    if now >= start {
        now - start
    } else {
        0
    }
}

/// Whether a phase belongs to a stage of that kind.
pub open spec fn phase_fits(p: Phase, s: StageView) -> bool {
    match p {
        Phase::Idle => true,
        Phase::ModeRead => s is ExpectMode,
        Phase::BusyCheck | Phase::TagWrite | Phase::Poll { .. } | Phase::Settle => s is Command,
        Phase::DataWrite => s is Command && s->Command_data.len() > 0,
        _ => s is AwaitConnection,
    }
}

/// The state of a device: its unlock key, the stages of the running
/// operation, the index of the current stage and the phase within it.
pub struct DeviceView {
    pub key: Seq<u8>,
    pub script: Seq<StageView>,
    pub next: int,
    pub phase: Phase,
}

/// Reading `reg` for `len` bytes.
pub open spec fn read_of(reg: u8, len: usize) -> ActionView {
    ActionView::Read { reg, len }
}

impl DeviceView {
    /// The state is consistent: a running phase belongs to an existing stage.
    pub open spec fn wf(self) -> bool {
        self.phase !is Idle ==> {
            &&& 0 <= self.next < self.script.len()
            &&& phase_fits(self.phase, self.script[self.next])
        }
    }

    /// The stage that is running.
    pub open spec fn current(self) -> StageView {
        self.script[self.next]
    }

    /// The same state in another phase.
    pub open spec fn with_phase(self, p: Phase) -> DeviceView {
        DeviceView { phase: p, ..self }
    }

    /// The operation ends with this error.
    pub open spec fn fail(self, e: Error) -> (DeviceView, ActionView) {
        (self.with_phase(Phase::Idle), ActionView::Done(Err(e)))
    }

    /// Starts stage `i`, or ends the operation with success after the last stage.
    pub open spec fn enter(self, i: int) -> (DeviceView, ActionView) {
        let d = DeviceView { next: i, ..self };
        if 0 <= i < self.script.len() {
            match self.script[i] {
                StageView::ExpectMode(_) => (
                    d.with_phase(Phase::ModeRead),
                    read_of(TPS_REG_MODE, 4),
                ),
                StageView::Command { .. } => (
                    d.with_phase(Phase::BusyCheck),
                    read_of(TPS_REG_CMD1, 4),
                ),
                StageView::AwaitConnection { settle, .. } => (
                    d.with_phase(Phase::ReconnectSettle),
                    ActionView::Sleep { nanos: settle },
                ),
            }
        } else {
            (d.with_phase(Phase::Idle), ActionView::Done(Ok(())))
        }
    }

    /// Whether the event answers the action that the state waits for: a
    /// read gives as many bytes as were asked (and the MODE register valid
    /// UTF-8), a write or a read may fail, a wait always ends.
    pub open spec fn accepts(self, e: EventView) -> bool {
        match self.phase {
            Phase::Idle => false,
            Phase::ModeRead => e is Failed || (e is Read && e->Read_data.len() == 4
                && valid_utf8(e->Read_data)),
            Phase::BusyCheck | Phase::Poll { .. } => e is Failed || (e is Read
                && e->Read_data.len() == 4),
            Phase::Probe { .. } => e is Failed || (e is Read && e->Read_data.len() == 2),
            Phase::DataWrite | Phase::TagWrite => e is Failed || e is Wrote,
            _ => e is Slept,
        }
    }
}

/// The stages as sequences.
pub open spec fn stages_view(s: Seq<Stage>) -> Seq<StageView> {
    s.map_values(|st: Stage| st@)
}

/// Starts an operation made of these stages.
pub open spec fn begin(key: Seq<u8>, script: Seq<StageView>) -> (DeviceView, ActionView) {
    DeviceView { key, script, next: 0, phase: Phase::Idle }.enter(0)
}

/// Refuses an operation before any transfer.
pub open spec fn reject(key: Seq<u8>, e: Error) -> (DeviceView, ActionView) {
    (DeviceView { key, script: Seq::empty(), next: 0, phase: Phase::Idle }, ActionView::Done(Err(e)))
}

/// The next state and action after `e`, for a state that waits for it.
pub open spec fn step_spec(d: DeviceView, e: EventView) -> (DeviceView, ActionView) {
    match d.phase {
        Phase::ModeRead => match e {
            EventView::Read { data, .. } => if mode_of_tag(data) == Some(
                d.current()->ExpectMode_0,
            ) {
                d.enter(d.next + 1)
            } else {
                d.fail(Error::TypecController)
            },
            EventView::Failed(err) => d.fail(err),
            _ => d.fail(Error::Device),
        },
        Phase::BusyCheck => match e {
            EventView::Read { data, .. } => {
                let v = le_u32_value(data);
                if v != 0 && v != INVALID_CMD {
                    d.fail(Error::TypecController)
                } else if d.current()->Command_data.len() > 0 {
                    (
                        d.with_phase(Phase::DataWrite),
                        ActionView::Write { reg: TPS_REG_DATA1, data: d.current()->Command_data },
                    )
                } else {
                    (
                        d.with_phase(Phase::TagWrite),
                        ActionView::Write { reg: TPS_REG_CMD1, data: d.current()->Command_tag },
                    )
                }
            },
            EventView::Failed(err) => d.fail(err),
            _ => d.fail(Error::Device),
        },
        Phase::DataWrite => match e {
            EventView::Wrote { .. } => (
                d.with_phase(Phase::TagWrite),
                ActionView::Write { reg: TPS_REG_CMD1, data: d.current()->Command_tag },
            ),
            EventView::Failed(err) => d.fail(err),
            _ => d.fail(Error::Device),
        },
        Phase::TagWrite => match e {
            EventView::Wrote { now } => (
                d.with_phase(Phase::Poll { start: now }),
                read_of(TPS_REG_CMD1, 4),
            ),
            EventView::Failed(err) => d.fail(err),
            _ => d.fail(Error::Device),
        },
        Phase::Poll { start } => match e {
            EventView::Read { data, now } => {
                let v = le_u32_value(data);
                if v == INVALID_CMD {
                    d.fail(Error::TypecController)
                } else if v == 0 {
                    (
                        d.with_phase(Phase::Settle),
                        ActionView::Sleep { nanos: d.current()->Command_delay },
                    )
                } else if elapsed(start, now) > d.current()->Command_timeout {
                    d.fail(Error::ControllerTimeout)
                } else {
                    (d, read_of(TPS_REG_CMD1, 4))
                }
            },
            EventView::Failed(err) => d.fail(err),
            _ => d.fail(Error::Device),
        },
        Phase::Settle => d.enter(d.next + 1),
        Phase::ReconnectSettle => match e {
            EventView::Slept { now } => (
                d.with_phase(Phase::Probe { start: now }),
                read_of(TPS_REG_POWER_STATUS, 2),
            ),
            _ => d.fail(Error::Device),
        },
        Phase::Probe { start } => match e {
            EventView::Read { data, .. } => if le_u16_value(data) % 2 == 1 {
                (
                    d.with_phase(Phase::Reconnected),
                    ActionView::Sleep { nanos: d.current()->AwaitConnection_settle },
                )
            } else {
                (
                    d.with_phase(Phase::ProbeWait { start }),
                    ActionView::Sleep { nanos: d.current()->AwaitConnection_poll_wait },
                )
            },
            _ => (
                d.with_phase(Phase::ProbeWait { start }),
                ActionView::Sleep { nanos: d.current()->AwaitConnection_poll_wait },
            ),
        },
        Phase::ProbeWait { start } => match e {
            EventView::Slept { now } => if elapsed(start, now)
                > d.current()->AwaitConnection_timeout {
                d.fail(Error::ReconnectTimeout)
            } else {
                (d.with_phase(Phase::Probe { start }), read_of(TPS_REG_POWER_STATUS, 2))
            },
            _ => d.fail(Error::Device),
        },
        Phase::Reconnected => d.enter(d.next + 1),
        Phase::Idle => (d, ActionView::Done(Err(Error::Device))),
    }
}


/// The driver of one controller. It holds the key that unlocks the
/// controller and runs one operation at a time: each call that starts an
/// operation, and each call of `step`, returns the next transfer to perform.
pub struct Device {
    key: Vec<u8>,
    script: Vec<Stage>,
    next: usize,
    phase: Phase,
}

impl View for Device {
    type V = DeviceView;

    closed spec fn view(&self) -> DeviceView {
        DeviceView {
            key: self.key@,
            script: stages_view(self.script@),
            next: self.next as int,
            phase: self.phase,
        }
    }
}

impl Device {
    /// The device is in a consistent state.
    pub open spec fn wf(&self) -> bool {
        self@.wf()
    }

    fn enter(&mut self, i: usize) -> (a: BusAction)
        requires
            i <= old(self).script@.len(),
        ensures
            (final(self)@, a@) == old(self)@.enter(i as int),
            final(self).wf(),
    {
        self.next = i;
        if i < self.script.len() {
            match &self.script[i] {
                Stage::ExpectMode(_) => {
                    self.phase = Phase::ModeRead;
                    BusAction::Read { reg: TPS_REG_MODE, len: 4 }
                },
                Stage::Command { .. } => {
                    self.phase = Phase::BusyCheck;
                    BusAction::Read { reg: TPS_REG_CMD1, len: 4 }
                },
                Stage::AwaitConnection { settle, .. } => {
                    let nanos = *settle;
                    self.phase = Phase::ReconnectSettle;
                    BusAction::Sleep { nanos }
                },
            }
        } else {
            self.phase = Phase::Idle;
            BusAction::Done(Ok(()))
        }
    }

    fn fail(&mut self, e: Error) -> (a: BusAction)
        ensures
            (final(self)@, a@) == old(self)@.fail(e),
            final(self).wf(),
    {
        self.phase = Phase::Idle;
        BusAction::Done(Err(e))
    }

    fn start(&mut self, script: Vec<Stage>) -> (a: BusAction)
        ensures
            (final(self)@, a@) == begin(old(self)@.key, stages_view(script@)),
            final(self).wf(),
    {
        self.script = script;
        self.phase = Phase::Idle;
        self.enter(0)
    }

    fn command_tag(&self) -> (t: [u8; 4])
        requires
            self.wf(),
            self@.phase !is Idle,
            self@.current() is Command,
        ensures
            t@ == self@.current()->Command_tag,
    {
        match &self.script[self.next] {
            Stage::Command { tag, .. } => *tag,
            _ => [0u8; 4],
        }
    }

    fn command_data(&self) -> (d: Vec<u8>)
        requires
            self.wf(),
            self@.phase !is Idle,
            self@.current() is Command,
        ensures
            d@ == self@.current()->Command_data,
    {
        match &self.script[self.next] {
            Stage::Command { data, .. } => vstd::slice::slice_to_vec(data.as_slice()),
            _ => Vec::new(),
        }
    }

    fn command_timing(&self) -> (r: (u64, u64))
        requires
            self.wf(),
            self@.phase !is Idle,
            self@.current() is Command,
        ensures
            r.0 == self@.current()->Command_timeout,
            r.1 == self@.current()->Command_delay,
    {
        match &self.script[self.next] {
            Stage::Command { timeout, delay, .. } => (*timeout, *delay),
            _ => (0, 0),
        }
    }

    fn await_timing(&self) -> (r: (u64, u64, u64))
        requires
            self.wf(),
            self@.phase !is Idle,
            self@.current() is AwaitConnection,
        ensures
            r.0 == self@.current()->AwaitConnection_settle,
            r.1 == self@.current()->AwaitConnection_timeout,
            r.2 == self@.current()->AwaitConnection_poll_wait,
    {
        match &self.script[self.next] {
            Stage::AwaitConnection { settle, timeout, poll_wait } => (*settle, *timeout, *poll_wait),
            _ => (0, 0, 0),
        }
    }

    fn expected_mode(&self) -> (m: TpsMode)
        requires
            self.wf(),
            self@.phase !is Idle,
            self@.current() is ExpectMode,
        ensures
            m == self@.current()->ExpectMode_0,
    {
        match &self.script[self.next] {
            Stage::ExpectMode(m) => *m,
            _ => TpsMode::App,
        }
    }

    /// Feeds the outcome of the last action to the running operation and
    /// returns the next action.
    pub fn step(&mut self, event: BusEvent) -> (a: BusAction)
        requires
            old(self).wf(),
            old(self)@.accepts(event@),
        ensures
            final(self).wf(),
            (final(self)@, a@) == step_spec(old(self)@, event@),
    {
        assert(stages_view(self.script@).len() == self.script@.len());
        assert(self@.next == self.next as int);
        assert(self.phase !is Idle ==> self.next < self.script.len());
        match self.phase {
            Phase::Idle => BusAction::Done(Err(Error::Device)),
            Phase::ModeRead => match event {
                BusEvent::Read { data, .. } => {
                    let expected = self.expected_mode();
                    let seen = Device::get_mode(data.as_slice());
                    match seen {
                        Ok(m) => {
                            if m == expected {
                                self.enter(self.next + 1)
                            } else {
                                self.fail(Error::TypecController)
                            }
                        },
                        Err(e) => self.fail(e),
                    }
                },
                BusEvent::Failed(err) => self.fail(err),
                _ => self.fail(Error::Device),
            },
            Phase::BusyCheck => match event {
                BusEvent::Read { data, .. } => {
                    let v = u32_from_le(data.as_slice());
                    if v != 0 && !is_invalid_cmd(v) {
                        self.fail(Error::TypecController)
                    } else {
                        let payload = self.command_data();
                        if payload.len() > 0 {
                            self.phase = Phase::DataWrite;
                            BusAction::Write { reg: TPS_REG_DATA1, data: payload }
                        } else {
                            let tag = self.command_tag();
                            self.phase = Phase::TagWrite;
                            BusAction::Write { reg: TPS_REG_CMD1, data: vstd::slice::slice_to_vec(tag.as_slice()) }
                        }
                    }
                },
                BusEvent::Failed(err) => self.fail(err),
                _ => self.fail(Error::Device),
            },
            Phase::DataWrite => match event {
                BusEvent::Wrote { .. } => {
                    let tag = self.command_tag();
                    self.phase = Phase::TagWrite;
                    BusAction::Write { reg: TPS_REG_CMD1, data: vstd::slice::slice_to_vec(tag.as_slice()) }
                },
                BusEvent::Failed(err) => self.fail(err),
                _ => self.fail(Error::Device),
            },
            Phase::TagWrite => match event {
                BusEvent::Wrote { now } => {
                    self.phase = Phase::Poll { start: now };
                    BusAction::Read { reg: TPS_REG_CMD1, len: 4 }
                },
                BusEvent::Failed(err) => self.fail(err),
                _ => self.fail(Error::Device),
            },
            Phase::Poll { start } => match event {
                BusEvent::Read { data, now } => {
                    let v = u32_from_le(data.as_slice());
                    let (timeout, delay) = self.command_timing();
                    if is_invalid_cmd(v) {
                        self.fail(Error::TypecController)
                    } else if v == 0 {
                        self.phase = Phase::Settle;
                        BusAction::Sleep { nanos: delay }
                    } else {
                        let waited: u64 = if now >= start { now - start } else { 0 };
                        if waited > timeout {
                            self.fail(Error::ControllerTimeout)
                        } else {
                            BusAction::Read { reg: TPS_REG_CMD1, len: 4 }
                        }
                    }
                },
                BusEvent::Failed(err) => self.fail(err),
                _ => self.fail(Error::Device),
            },
            Phase::Settle => self.enter(self.next + 1),
            Phase::ReconnectSettle => match event {
                BusEvent::Slept { now } => {
                    self.phase = Phase::Probe { start: now };
                    BusAction::Read { reg: TPS_REG_POWER_STATUS, len: 2 }
                },
                _ => self.fail(Error::Device),
            },
            Phase::Probe { start } => {
                let (settle, _timeout, poll_wait) = self.await_timing();
                let connected = match event {
                    BusEvent::Read { data, .. } => Device::check_connected(data.as_slice()),
                    _ => false,
                };
                if connected {
                    self.phase = Phase::Reconnected;
                    BusAction::Sleep { nanos: settle }
                } else {
                    self.phase = Phase::ProbeWait { start };
                    BusAction::Sleep { nanos: poll_wait }
                }
            },
            Phase::ProbeWait { start } => match event {
                BusEvent::Slept { now } => {
                    let (_settle, timeout, _poll_wait) = self.await_timing();
                    let waited: u64 = if now >= start { now - start } else { 0 };
                    if waited > timeout {
                        self.fail(Error::ReconnectTimeout)
                    } else {
                        self.phase = Phase::Probe { start };
                        BusAction::Read { reg: TPS_REG_POWER_STATUS, len: 2 }
                    }
                },
                _ => self.fail(Error::Device),
            },
            Phase::Reconnected => self.enter(self.next + 1),
        }
    }

    /// Decodes the four bytes of the MODE register.
    pub fn get_mode(buf: &[u8]) -> (r: Result<TpsMode, Error>)
        requires
            valid_utf8(buf@),
        ensures
            r == (match mode_of_tag(buf@) {
                Some(m) => Ok(m),
                None => Err(Error::TypecController),
            }),
    {
        match TpsMode::from_tag(buf) {
            Some(m) => Ok(m),
            None => Err(Error::TypecController),
        }
    }

    /// Whether the two bytes of the power status say that a partner is connected.
    pub fn check_connected(buf: &[u8]) -> (r: bool)
        requires
            buf@.len() == 2,
        ensures
            r == (le_u16_value(buf@) % 2 == 1),
            r == (buf@[0] % 2 == 1),
    {
        let power_status = u16_from_le(buf);
        assert(((power_status & 1) != 0) == (power_status % 2 == 1)) by (bit_vector);
        (power_status & 1) != 0
    }
}


// ------------------------------------------------------------------------
// The operations
// ------------------------------------------------------------------------

/// The command tag "LOCK": unlocks (or, with a zero key, locks) the controller.
pub open spec fn tag_lock() -> Seq<u8> {
    seq![0x4cu8, 0x4fu8, 0x43u8, 0x4bu8]
}

/// The command tag "DBMa": enters (data 1) or leaves (data 0) debug mode.
pub open spec fn tag_dbma() -> Seq<u8> {
    seq![0x44u8, 0x42u8, 0x4du8, 0x61u8]
}

/// The command tag "VDMs": sends a vendor-defined message.
pub open spec fn tag_vdms() -> Seq<u8> {
    seq![0x56u8, 0x44u8, 0x4du8, 0x73u8]
}

/// The command tag "DVEn": enables vendor functions on the local end.
pub open spec fn tag_dven() -> Seq<u8> {
    seq![0x44u8, 0x56u8, 0x45u8, 0x6eu8]
}

/// The command tag "DISC": simulates an unplug and replug.
pub open spec fn tag_disc() -> Seq<u8> {
    seq![0x44u8, 0x49u8, 0x53u8, 0x43u8]
}

/// A command with the default timeout and no delay after it.
pub open spec fn plain_command(tag: Seq<u8>, data: Seq<u8>) -> StageView {
    StageView::Command { tag, data, timeout: CMD_TIMEOUT, delay: 0 }
}

/// Unlocking with a key.
pub open spec fn lock_script(key: Seq<u8>) -> Seq<StageView> {
    seq![plain_command(tag_lock(), key)]
}

/// Entering or leaving debug mode, then checking that the controller is in
/// debug mode.
pub open spec fn dbma_script(debug: bool) -> Seq<StageView> {
    seq![
        plain_command(tag_dbma(), seq![if debug { 1u8 } else { 0u8 }]),
        StageView::ExpectMode(TpsMode::Dbma),
    ]
}

/// Checking for debug mode, then sending a VDM.
pub open spec fn vdms_script(sop: VdmSopType, vdos: Seq<u32>) -> Seq<StageView> {
    seq![
        StageView::ExpectMode(TpsMode::Dbma),
        StageView::Command {
            tag: tag_vdms(),
            data: vdms_data(sop, vdos),
            timeout: VDM_TIMEOUT,
            delay: VDM_RESPONSE_DELAY,
        },
    ]
}

/// Enabling vendor functions locally with these objects.
pub open spec fn dven_script(vdos: Seq<u32>) -> Seq<StageView> {
    seq![plain_command(tag_dven(), u32s_le_bytes(vdos))]
}

/// Opening a controller: it must run its application firmware; then it is
/// unlocked with the key and put into debug mode.
pub open spec fn new_script(key: Seq<u8>) -> Seq<StageView> {
    seq![StageView::ExpectMode(TpsMode::App)] + lock_script(key) + dbma_script(true)
}

/// The VDM objects that put the target into DFU mode.
pub open spec fn dfu_vdos() -> Seq<u32> {
    seq![0x5ac8012u32, 0x106u32, 0x80010000u32]
}

/// The VDM objects that reboot the target.
pub open spec fn reboot_vdos() -> Seq<u32> {
    seq![0x5ac8012u32, 0x105u32, 0x80000000u32]
}

/// The VDM objects that route the serial port.
pub open spec fn serial_vdos() -> Seq<u32> {
    seq![0x5ac8012u32, 0x1840306u32]
}

/// The VDM objects that enable Debug USB on the target.
pub open spec fn debugusb_vdos() -> Seq<u32> {
    seq![0x5ac8012u32, 0x1824606u32]
}

/// Rebooting the target, then waiting for it to come back.
pub open spec fn reboot_wait_script() -> Seq<StageView> {
    vdms_script(VdmSopType::SopStar, reboot_vdos()) + seq![
        StageView::AwaitConnection {
            settle: RECONNECT_WAIT,
            timeout: RECONNECT_TIMEOUT,
            poll_wait: POLL_WAIT,
        },
    ]
}

/// Putting the target into serial mode, then the local end too.
pub open spec fn serial_script() -> Seq<StageView> {
    vdms_script(VdmSopType::SopStar, serial_vdos()) + seq![StageView::ExpectMode(TpsMode::Dbma)]
        + dven_script(serial_vdos().subrange(1, 2))
}

/// Simulating an unplug, then checking that the controller is in debug mode.
pub open spec fn disconnect_script() -> Seq<StageView> {
    seq![plain_command(tag_disc(), seq![3u8]), StageView::ExpectMode(TpsMode::Dbma)]
}

/// The unlock key made from a device code: its UTF-8 bytes in reverse order.
pub open spec fn key_of_code(code: Seq<char>) -> Seq<u8> {
    encode_utf8(code).reverse()
}

proof fn lemma_stages_push(v: Seq<Stage>, x: Stage)
    ensures
        stages_view(v.push(x)) == stages_view(v).push(x@),
{
    assert(stages_view(v.push(x)) =~= stages_view(v).push(x@));
}

fn push_expect(s: &mut Vec<Stage>, m: TpsMode)
    ensures
        stages_view(final(s)@) == stages_view(old(s)@).push(StageView::ExpectMode(m)),
{
    proof {
        lemma_stages_push(s@, Stage::ExpectMode(m));
    }
    s.push(Stage::ExpectMode(m));
}

fn push_command(s: &mut Vec<Stage>, tag: [u8; 4], data: Vec<u8>, timeout: u64, delay: u64)
    ensures
        stages_view(final(s)@) == stages_view(old(s)@).push(
            StageView::Command { tag: tag@, data: data@, timeout, delay },
        ),
{
    let st = Stage::Command { tag, data, timeout, delay };
    proof {
        lemma_stages_push(s@, st);
    }
    s.push(st);
}

fn push_vdms(s: &mut Vec<Stage>, sop: VdmSopType, vdos: &[u32]) -> (r: Result<(), Error>)
    ensures
        match r {
            Ok(()) => vdo_count_ok(vdos@.len() as int) && stages_view(final(s)@) == stages_view(
                old(s)@,
            ) + vdms_script(sop, vdos@),
            Err(e) => !vdo_count_ok(vdos@.len() as int) && e == Error::InvalidArgument,
        },
{
    let payload = vdms_payload(sop, vdos)?;
    let ghost s0 = stages_view(s@);
    push_expect(s, TpsMode::Dbma);
    push_command(s, [0x56, 0x44, 0x4d, 0x73], payload, VDM_TIMEOUT, VDM_RESPONSE_DELAY);
    assert([0x56u8, 0x44u8, 0x4du8, 0x73u8]@ =~= tag_vdms());
    assert(stages_view(s@) =~= s0 + vdms_script(sop, vdos@));
    Ok(())
}

fn copy_bytes(b: &[u8]) -> (r: Vec<u8>)
    ensures
        r@ == b@,
{
    vstd::slice::slice_to_vec(b)
}

impl Device {
    /// Opens the controller with the device code of the host (for example
    /// "J314"): the key is the code's bytes in reverse order. The operation
    /// started checks that the controller runs its application firmware,
    /// unlocks it with the key and puts it into debug mode.
    pub fn new(code: String) -> (r: (Device, BusAction))
        ensures
            r.0.wf(),
            (r.0@, r.1@) == begin(key_of_code(code@), new_script(key_of_code(code@))),
    {
        let bytes = code.as_str().as_bytes();
        let mut key: Vec<u8> = Vec::new();
        let mut i: usize = bytes.len();
        while i > 0
            invariant
                i <= bytes@.len(),
                key@ == bytes@.subrange(i as int, bytes@.len() as int).reverse(),
            decreases i,
        {
            i = i - 1;
            key.push(bytes[i]);
            assert(key@ =~= bytes@.subrange(i as int, bytes@.len() as int).reverse());
        }
        assert(bytes@.subrange(0, bytes@.len() as int) =~= bytes@);
        let mut script: Vec<Stage> = Vec::new();
        push_expect(&mut script, TpsMode::App);
        push_command(&mut script, [0x4c, 0x4f, 0x43, 0x4b], copy_bytes(key.as_slice()), CMD_TIMEOUT, 0);
        let mut on: Vec<u8> = Vec::new();
        on.push(1u8);
        push_command(&mut script, [0x44, 0x42, 0x4d, 0x61], on, CMD_TIMEOUT, 0);
        push_expect(&mut script, TpsMode::Dbma);
        assert([0x4cu8, 0x4fu8, 0x43u8, 0x4bu8]@ =~= tag_lock());
        assert([0x44u8, 0x42u8, 0x4du8, 0x61u8]@ =~= tag_dbma());
        assert(stages_view(script@) =~= new_script(key@));
        let mut device = Device { key, script: Vec::new(), next: 0, phase: Phase::Idle };
        let a = device.start(script);
        (device, a)
    }

    /// Runs a command with the default timeout (one second) and no delay.
    pub fn exec_cmd(&mut self, cmd_tag: &[u8; 4], in_data: &[u8]) -> (a: BusAction)
        ensures
            final(self).wf(),
            (final(self)@, a@) == begin(
                old(self)@.key,
                seq![plain_command(cmd_tag@, in_data@)],
            ),
    {
        self.exec_cmd_with_timing(cmd_tag, in_data, CMD_TIMEOUT, 0)
    }

    /// Runs a command that may take `cmd_timeout` nanoseconds, then waits
    /// `res_delay` nanoseconds.
    pub fn exec_cmd_with_timing(
        &mut self,
        cmd_tag: &[u8; 4],
        in_data: &[u8],
        cmd_timeout: u64,
        res_delay: u64,
    ) -> (a: BusAction)
        ensures
            final(self).wf(),
            (final(self)@, a@) == begin(
                old(self)@.key,
                seq![
                    StageView::Command {
                        tag: cmd_tag@,
                        data: in_data@,
                        timeout: cmd_timeout,
                        delay: res_delay,
                    },
                ],
            ),
    {
        let mut script: Vec<Stage> = Vec::new();
        push_command(&mut script, *cmd_tag, copy_bytes(in_data), cmd_timeout, res_delay);
        assert(stages_view(script@) =~= seq![
            StageView::Command { tag: cmd_tag@, data: in_data@, timeout: cmd_timeout, delay: res_delay },
        ]);
        self.start(script)
    }

    /// Unlocks the controller with `key` (a zero key locks it again).
    pub fn lock(&mut self, key: &[u8]) -> (a: BusAction)
        ensures
            final(self).wf(),
            (final(self)@, a@) == begin(old(self)@.key, lock_script(key@)),
    {
        let a = self.exec_cmd(&[0x4c, 0x4f, 0x43, 0x4b], key);
        assert([0x4cu8, 0x4fu8, 0x43u8, 0x4bu8]@ =~= tag_lock());
        a
    }

    /// Enters (`debug`) or leaves debug mode; the controller must then
    /// report debug mode.
    pub fn dbma(&mut self, debug: bool) -> (a: BusAction)
        ensures
            final(self).wf(),
            (final(self)@, a@) == begin(old(self)@.key, dbma_script(debug)),
    {
        let mut data: Vec<u8> = Vec::new();
        data.push(if debug { 1u8 } else { 0u8 });
        let mut script: Vec<Stage> = Vec::new();
        push_command(&mut script, [0x44, 0x42, 0x4d, 0x61], data, CMD_TIMEOUT, 0);
        push_expect(&mut script, TpsMode::Dbma);
        assert([0x44u8, 0x42u8, 0x4du8, 0x61u8]@ =~= tag_dbma());
        assert(stages_view(script@) =~= dbma_script(debug));
        self.start(script)
    }

    /// Sends a VDM of one to seven objects; any other count is refused
    /// before any transfer. The controller must be in debug mode.
    pub fn vdms(&mut self, sop: VdmSopType, vdos: &[u32]) -> (a: BusAction)
        ensures
            final(self).wf(),
            (final(self)@, a@) == (if vdo_count_ok(vdos@.len() as int) {
                begin(old(self)@.key, vdms_script(sop, vdos@))
            } else {
                reject(old(self)@.key, Error::InvalidArgument)
            }),
    {
        let mut script: Vec<Stage> = Vec::new();
        match push_vdms(&mut script, sop, vdos) {
            Ok(()) => {
                assert(stages_view(script@) =~= vdms_script(sop, vdos@));
                self.start(script)
            },
            Err(e) => {
                self.script = Vec::new();
                self.next = 0;
                assert(stages_view(self.script@) =~= Seq::<StageView>::empty());
                self.fail(e)
            },
        }
    }

    /// Enables vendor functions on the local end with these objects.
    pub fn dven(&mut self, vdos: &[u32]) -> (a: BusAction)
        ensures
            final(self).wf(),
            (final(self)@, a@) == begin(old(self)@.key, dven_script(vdos@)),
    {
        let data = u32s_to_le(vdos);
        let a = self.exec_cmd(&[0x44, 0x56, 0x45, 0x6e], data.as_slice());
        assert([0x44u8, 0x56u8, 0x45u8, 0x6eu8]@ =~= tag_dven());
        a
    }

    /// Reboots the target into DFU mode.
    pub fn dfu(&mut self) -> (a: BusAction)
        ensures
            final(self).wf(),
            (final(self)@, a@) == begin(old(self)@.key, vdms_script(VdmSopType::SopStar, dfu_vdos())),
    {
        let vdos: [u32; 3] = [0x5ac8012, 0x106, 0x80010000];
        assert(vdos@ =~= dfu_vdos());
        self.vdms(VdmSopType::SopStar, vdos.as_slice())
    }

    /// Reboots the target into normal mode.
    pub fn reboot(&mut self) -> (a: BusAction)
        ensures
            final(self).wf(),
            (final(self)@, a@) == begin(
                old(self)@.key,
                vdms_script(VdmSopType::SopStar, reboot_vdos()),
            ),
    {
        let vdos: [u32; 3] = [0x5ac8012, 0x105, 0x80000000];
        assert(vdos@ =~= reboot_vdos());
        self.vdms(VdmSopType::SopStar, vdos.as_slice())
    }

    /// Reboots the target and waits for it to connect again: a pause of a
    /// second, checks every tenth of a second for up to three seconds, and a
    /// pause of a second once it is back.
    pub fn reboot_wait(&mut self) -> (a: BusAction)
        ensures
            final(self).wf(),
            (final(self)@, a@) == begin(old(self)@.key, reboot_wait_script()),
    {
        let vdos: [u32; 3] = [0x5ac8012, 0x105, 0x80000000];
        assert(vdos@ =~= reboot_vdos());
        let mut script: Vec<Stage> = Vec::new();
        let r = push_vdms(&mut script, VdmSopType::SopStar, vdos.as_slice());
        assert(r is Ok);
        let st = Stage::AwaitConnection {
            settle: RECONNECT_WAIT,
            timeout: RECONNECT_TIMEOUT,
            poll_wait: POLL_WAIT,
        };
        proof {
            lemma_stages_push(script@, st);
        }
        script.push(st);
        assert(stages_view(script@) =~= reboot_wait_script());
        self.start(script)
    }

    /// Puts the target into serial mode, then the local end too.
    pub fn serial(&mut self) -> (a: BusAction)
        ensures
            final(self).wf(),
            (final(self)@, a@) == begin(old(self)@.key, serial_script()),
    {
        let vdos: [u32; 2] = [0x5ac8012, 0x1840306];
        assert(vdos@ =~= serial_vdos());
        let mut script: Vec<Stage> = Vec::new();
        let r = push_vdms(&mut script, VdmSopType::SopStar, vdos.as_slice());
        assert(r is Ok);
        push_expect(&mut script, TpsMode::Dbma);
        let local: [u32; 1] = [0x1840306];
        assert(local@ =~= serial_vdos().subrange(1, 2));
        let data = u32s_to_le(local.as_slice());
        push_command(&mut script, [0x44, 0x56, 0x45, 0x6e], data, CMD_TIMEOUT, 0);
        assert([0x44u8, 0x56u8, 0x45u8, 0x6eu8]@ =~= tag_dven());
        assert(stages_view(script@) =~= serial_script());
        self.start(script)
    }

    /// Puts the target into Debug USB mode.
    pub fn debugusb(&mut self) -> (a: BusAction)
        ensures
            final(self).wf(),
            (final(self)@, a@) == begin(
                old(self)@.key,
                vdms_script(VdmSopType::SopStar, debugusb_vdos()),
            ),
    {
        let vdos: [u32; 2] = [0x5ac8012, 0x1824606];
        assert(vdos@ =~= debugusb_vdos());
        self.vdms(VdmSopType::SopStar, vdos.as_slice())
    }

    /// Simulates an unplug and replug of the cable.
    pub fn disconnect(&mut self) -> (a: BusAction)
        ensures
            final(self).wf(),
            (final(self)@, a@) == begin(old(self)@.key, disconnect_script()),
    {
        let mut data: Vec<u8> = Vec::new();
        data.push(3u8);
        let mut script: Vec<Stage> = Vec::new();
        push_command(&mut script, [0x44, 0x49, 0x53, 0x43], data, CMD_TIMEOUT, 0);
        push_expect(&mut script, TpsMode::Dbma);
        assert([0x44u8, 0x49u8, 0x53u8, 0x43u8]@ =~= tag_disc());
        assert(stages_view(script@) =~= disconnect_script());
        self.start(script)
    }

    /// Whether no operation is running.
    pub fn is_idle(&self) -> (r: bool)
        ensures
            r == (self@.phase is Idle),
    {
        match self.phase {
            Phase::Idle => true,
            _ => false,
        }
    }
}


/// The data of a VDM says what it carries: its first byte gives the SOP type
/// (high nibble) and the number of objects (low nibble), and each following
/// group of four bytes reads back, little-endian, as the object in that place.
pub proof fn law_vdms_data_readback(sop: VdmSopType, vdos: Seq<u32>, i: int)
    requires
        vdo_count_ok(vdos.len() as int),
        0 <= i < vdos.len(),
    ensures
        vdms_data(sop, vdos).len() == 1 + 4 * vdos.len(),
        vdms_data(sop, vdos)[0] / 16 == sop_code(sop),
        vdms_data(sop, vdos)[0] % 16 == vdos.len(),
        le_u32_value(vdms_data(sop, vdos).subrange(1 + 4 * i, 5 + 4 * i)) == vdos[i],
{
    crate::codec::law_u32s_le_readback(vdos, i);
    let body = u32s_le_bytes(vdos);
    assert(vdms_data(sop, vdos).subrange(1 + 4 * i, 5 + 4 * i) =~= body.subrange(4 * i, 4 * i + 4));
}


/// An operation that the tool runs on an opened controller.
#[derive(Debug, Clone, Copy, PartialEq, Eq, Structural)]
pub enum Operation {
    Dfu,
    Reboot,
    RebootWait,
    Serial,
    DebugUsb,
    Disconnect,
    /// Leaving debug mode.
    LeaveDebugMode,
    /// Locking the controller again with a zero key.
    Relock,
}

/// The stages of an operation.
pub open spec fn operation_script(op: Operation) -> Seq<StageView> {
    match op {
        Operation::Dfu => vdms_script(VdmSopType::SopStar, dfu_vdos()),
        Operation::Reboot => vdms_script(VdmSopType::SopStar, reboot_vdos()),
        Operation::RebootWait => reboot_wait_script(),
        Operation::Serial => serial_script(),
        Operation::DebugUsb => vdms_script(VdmSopType::SopStar, debugusb_vdos()),
        Operation::Disconnect => disconnect_script(),
        Operation::LeaveDebugMode => dbma_script(false),
        Operation::Relock => lock_script(seq![0u8, 0u8, 0u8, 0u8]),
    }
}

impl Device {
    /// Starts one of the tool's operations.
    pub fn begin_operation(&mut self, op: Operation) -> (a: BusAction)
        ensures
            final(self).wf(),
            (final(self)@, a@) == begin(old(self)@.key, operation_script(op)),
    {
        match op {
            Operation::Dfu => self.dfu(),
            Operation::Reboot => self.reboot(),
            Operation::RebootWait => self.reboot_wait(),
            Operation::Serial => self.serial(),
            Operation::DebugUsb => self.debugusb(),
            Operation::Disconnect => self.disconnect(),
            Operation::LeaveDebugMode => self.dbma(false),
            Operation::Relock => {
                let zero: [u8; 4] = [0, 0, 0, 0];
                assert(zero@ =~= seq![0u8, 0u8, 0u8, 0u8]);
                self.lock(zero.as_slice())
            },
        }
    }

    /// What releasing the controller runs: leaving debug mode, then locking
    /// it again with a zero key. Each is an operation of its own, run
    /// whatever came of the one before.
    pub fn release_operations() -> (r: Vec<Operation>)
        ensures
            r@ == seq![Operation::LeaveDebugMode, Operation::Relock],
    {
        let mut v: Vec<Operation> = Vec::new();
        v.push(Operation::LeaveDebugMode);
        v.push(Operation::Relock);
        assert(v@ =~= seq![Operation::LeaveDebugMode, Operation::Relock]);
        v
    }
}

} // verus!
