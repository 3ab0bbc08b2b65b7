//! The exchanges with a controller, as a sequence of requests and responses.
//!
//! A `Connection` decides; it moves no data. Beginning an operation gives the first
//! request for the transport. Each response of the transport is handed to `receive`,
//! which gives the next request, the result of the operation, or its failure. One
//! operation runs at a time: beginning another abandons the one in progress, and what
//! that one has already written stays written. Nothing is asked twice: a failure of
//! the transport ends the operation.

use vstd::prelude::*;
use crate::prostar_mppt::coil::Coil;
use crate::prostar_mppt::error::Error;
use crate::prostar_mppt::error::Operation;
use crate::prostar_mppt::field::SETTINGS_BASE;
use crate::prostar_mppt::field::SETTINGS_LEN;
use crate::prostar_mppt::plan::RegisterWrite;
use crate::prostar_mppt::settings::Settings;
use crate::prostar_mppt::stats::Stats;
use crate::prostar_mppt::stats::Timestamp;
use crate::prostar_mppt::stats::STATS_BASE;
use crate::prostar_mppt::stats::STATS_LEN;

verus! {

/// The speed of the serial line, in bits per second.
pub const BAUD_RATE: u32 = 9600;

/// The data bits of a character on the serial line. There is no parity bit.
pub const DATA_BITS: u8 = 8;

/// The stop bits of a character on the serial line.
pub const STOP_BITS: u8 = 2;

/// How long the transport waits for the controller, in seconds.
pub const TIMEOUT_SECONDS: u64 = 10;

/// How long the transport pauses before it writes a register of the configuration
/// block, in milliseconds.
pub const WRITE_PAUSE_MILLISECONDS: u64 = 100;

/// What the transport is asked to do.
#[allow(inconsistent_fields)]
#[derive(Debug, Clone, Copy, PartialEq, Eq, Structural)]
pub enum Request {
    /// Read `count` registers, the first at `address`.
    ReadRegisters { address: u16, count: u16 },
    /// Write `value` to the register at `address`.
    WriteRegister { address: u16, value: u16 },
    /// Read `count` coils, the first at `address`.
    ReadCoils { address: u16, count: u16 },
    /// Write `value` to the coil at `address`.
    WriteCoil { address: u16, value: bool },
}

/// What the transport answers.
#[derive(Debug, PartialEq, Eq)]
pub enum Response {
    /// The registers that were read.
    Registers(Vec<u16>),
    /// The coils that were read.
    Coils(Vec<bool>),
    /// The register or coil was written.
    Written,
    /// The transport could not carry out the request.
    Failed,
}

/// What an operation gives when it succeeds.
#[derive(Debug, Clone, Copy, PartialEq, Eq, Structural)]
pub enum Outcome {
    Stats(Stats),
    Settings(Settings),
    Coil(bool),
    /// The configuration or the coil was written.
    Written,
}

/// How far an operation has come.
#[derive(Debug, Clone, Copy, PartialEq, Eq, Structural)]
pub enum Progress {
    /// The operation goes on with this request.
    Send(Request),
    /// The operation has succeeded.
    Finished(Outcome),
    /// The operation has failed. Registers that it has written stay written.
    Failed(Error),
}

/// What a connection is waiting for.
pub enum Phase {
    /// Nothing: no operation is in progress.
    Idle,
    /// The telemetry block, for a reading stamped `timestamp`.
    AwaitStats { timestamp: Timestamp },
    /// The configuration block, to learn the configuration.
    AwaitSettings,
    /// The configuration block, to find what `settings` changes.
    AwaitCurrent { settings: Settings },
    /// The confirmation of `writes[index]`; the writes before it are confirmed.
    AwaitWrite { writes: Seq<RegisterWrite>, index: nat },
    /// The state of a coil.
    AwaitCoil { coil: Coil },
    /// The confirmation that a coil was written.
    AwaitCoilWrite { coil: Coil },
}

/// The request that reads the telemetry block.
pub open spec fn read_stats_request() -> Request {
    Request::ReadRegisters { address: STATS_BASE, count: STATS_LEN as u16 }
}

/// The request that reads the configuration block.
pub open spec fn read_settings_request() -> Request {
    Request::ReadRegisters { address: SETTINGS_BASE, count: SETTINGS_LEN as u16 }
}

/// The request that carries out a write of the configuration block.
pub open spec fn write_request(write: RegisterWrite) -> Request {
    Request::WriteRegister { address: write.field.spec_address(), value: write.value }
}

impl Phase {
    /// Whether nothing contradicts itself: a connection that waits for the
    /// confirmation of a write has that write.
    pub open spec fn consistent(self) -> bool {
        self matches Phase::AwaitWrite { writes, index } ==> index < writes.len()
    }

    /// Whether `response` is of the kind that answers the request that was sent last.
    pub open spec fn awaits(self, response: Response) -> bool {
        match self {
            Phase::Idle => false,
            Phase::AwaitStats { .. } | Phase::AwaitSettings | Phase::AwaitCurrent { .. } => {
                response is Registers || response is Failed
            },
            Phase::AwaitWrite { .. } | Phase::AwaitCoilWrite { .. } => {
                response is Written || response is Failed
            },
            Phase::AwaitCoil { .. } => response is Coils || response is Failed,
        }
    }

    /// The operation that is in progress, as a failure of the transport reports it.
    pub open spec fn operation(self) -> Operation
        recommends
            self.consistent(),
            !(self is Idle),
    {
        match self {
            Phase::AwaitStats { .. } => Operation::ReadStats,
            Phase::AwaitSettings => Operation::ReadSettings,
            Phase::AwaitCurrent { .. } => Operation::ReadCurrentSettings,
            Phase::AwaitWrite { writes, index } => Operation::WriteSetting(
                writes[index as int].field,
            ),
            Phase::AwaitCoil { coil } => Operation::ReadCoil(coil),
            Phase::AwaitCoilWrite { coil } => Operation::WriteCoil(coil),
            Phase::Idle => Operation::ReadStats,
        }
    }

    /// What a connection goes on to wait for after `response`, and how far the
    /// operation has then come.
    pub open spec fn after(self, response: Response) -> (Phase, Progress)
        recommends
            self.consistent(),
            self.awaits(response),
    {
        match (self, response) {
            (Phase::AwaitStats { timestamp }, Response::Registers(raw)) => (
                Phase::Idle,
                if raw@.len() == STATS_LEN {
                    Progress::Finished(Outcome::Stats(Stats::decoded(raw@, timestamp)))
                } else {
                    Progress::Failed(
                        Error::WrongSize {
                            operation: Operation::ReadStats,
                            expected: STATS_LEN,
                            found: raw@.len() as usize,
                        },
                    )
                },
            ),
            (Phase::AwaitSettings, Response::Registers(raw)) => (
                Phase::Idle,
                if raw@.len() == SETTINGS_LEN {
                    Progress::Finished(Outcome::Settings(Settings::decoded(raw@)))
                } else {
                    Progress::Failed(
                        Error::WrongSize {
                            operation: Operation::ReadSettings,
                            expected: SETTINGS_LEN,
                            found: raw@.len() as usize,
                        },
                    )
                },
            ),
            (Phase::AwaitCurrent { settings }, Response::Registers(raw)) => {
                let writes = settings.changes(raw@, SETTINGS_LEN as nat);
                if raw@.len() != SETTINGS_LEN {
                    (
                        Phase::Idle,
                        Progress::Failed(
                            Error::WrongSize {
                                operation: Operation::ReadCurrentSettings,
                                expected: SETTINGS_LEN,
                                found: raw@.len() as usize,
                            },
                        ),
                    )
                } else if writes.len() == 0 {
                    (Phase::Idle, Progress::Finished(Outcome::Written))
                } else {
                    (
                        Phase::AwaitWrite { writes, index: 0 },
                        Progress::Send(write_request(writes[0])),
                    )
                }
            },
            (Phase::AwaitWrite { writes, index }, Response::Written) => {
                if index + 1 < writes.len() {
                    (
                        Phase::AwaitWrite { writes, index: index + 1 },
                        Progress::Send(write_request(writes[index as int + 1])),
                    )
                } else {
                    (Phase::Idle, Progress::Finished(Outcome::Written))
                }
            },
            (Phase::AwaitCoil { coil }, Response::Coils(bits)) => (
                Phase::Idle,
                if bits@.len() == 1 {
                    Progress::Finished(Outcome::Coil(bits@[0]))
                } else {
                    Progress::Failed(
                        Error::WrongSize {
                            operation: Operation::ReadCoil(coil),
                            expected: 1,
                            found: bits@.len() as usize,
                        },
                    )
                },
            ),
            (Phase::AwaitCoilWrite { coil }, Response::Written) => (
                Phase::Idle,
                Progress::Finished(Outcome::Written),
            ),
            _ => (Phase::Idle, Progress::Failed(Error::Transport(self.operation()))),
        }
    }
}

impl Phase {
    /// Where a connection stands after it has taken `responses` in turn, and the
    /// progress that each of them made.
    pub open spec fn run(self, responses: Seq<Response>) -> (Phase, Seq<Progress>)
        decreases responses.len(),
    {
        if responses.len() == 0 {
            (self, Seq::empty())
        } else {
            let (phase, earlier) = self.run(responses.drop_last());
            let (next, progress) = phase.after(responses.last());
            (next, earlier.push(progress))
        }
    }
}

/// The responses of a transport that reads the configuration block `current` and then
/// confirms `count` writes.
pub open spec fn block_then_confirmations(current: Vec<u16>, count: nat) -> Seq<Response> {
    seq![Response::Registers(current)] + Seq::new(count, |i: int| Response::Written)
}

/// How the writing of a configuration runs while the transport does not fail.
///
/// After the configuration block has been read and `count` writes have been
/// confirmed, the connection has asked for the writes that the configuration changes,
/// one after the other and in the order of the block, and for nothing else. While
/// writes are left it waits for the confirmation of the next one, and a failure of
/// the transport then ends the operation with the field of that write named. Once
/// none is left the operation has succeeded.
pub proof fn lemma_write_settings_run(settings: Settings, current: Vec<u16>, count: nat)
    requires
        current@.len() == SETTINGS_LEN,
        count <= settings.changes(current@, SETTINGS_LEN as nat).len(),
    ensures
        ({
            let writes = settings.changes(current@, SETTINGS_LEN as nat);
            let (phase, progress) = (Phase::AwaitCurrent { settings }).run(
                block_then_confirmations(current, count),
            );
            &&& progress.len() == count + 1
            &&& forall|i: int|
                0 <= i <= count && i < writes.len() ==> #[trigger] progress[i] == Progress::Send(
                    write_request(writes[i]),
                )
            &&& count < writes.len() ==> {
                &&& phase == (Phase::AwaitWrite { writes, index: count })
                &&& phase.after(Response::Failed) == (
                    Phase::Idle,
                    Progress::Failed(
                        Error::Transport(Operation::WriteSetting(writes[count as int].field)),
                    ),
                )
            }
            &&& count == writes.len() ==> {
                &&& phase == Phase::Idle
                &&& progress[count as int] == Progress::Finished(Outcome::Written)
            }
        }),
    decreases count,
{
    let start = Phase::AwaitCurrent { settings };
    let writes = settings.changes(current@, SETTINGS_LEN as nat);
    let responses = block_then_confirmations(current, count);
    if count == 0 {
        assert(responses.drop_last() =~= Seq::<Response>::empty());
        assert(start.run(responses.drop_last()) == (start, Seq::<Progress>::empty()));
        assert(responses.last() == Response::Registers(current));
    } else {
        lemma_write_settings_run(settings, current, (count - 1) as nat);
        assert(responses.drop_last() =~= block_then_confirmations(current, (count - 1) as nat));
        assert(responses.last() == Response::Written);
    }
}

#[derive(Debug, Clone, Copy, PartialEq, Eq, Structural)]
enum Waiting {
    Nothing,
    Stats { timestamp: Timestamp },
    Settings,
    Current { settings: Settings },
    Write,
    CoilState { coil: Coil },
    CoilWrite { coil: Coil },
}

/// The state of the exchanges with one controller.
pub struct Connection {
    modbus_id: u8,
    waiting: Waiting,
    writes: Vec<RegisterWrite>,
    index: usize,
}

impl View for Connection {
    type V = Phase;

    closed spec fn view(&self) -> Phase {
        match self.waiting {
            Waiting::Nothing => Phase::Idle,
            Waiting::Stats { timestamp } => Phase::AwaitStats { timestamp },
            Waiting::Settings => Phase::AwaitSettings,
            Waiting::Current { settings } => Phase::AwaitCurrent { settings },
            Waiting::Write => Phase::AwaitWrite { writes: self.writes@, index: self.index as nat },
            Waiting::CoilState { coil } => Phase::AwaitCoil { coil },
            Waiting::CoilWrite { coil } => Phase::AwaitCoilWrite { coil },
        }
    }
}

impl Connection {
    #[verifier::type_invariant]
    spec fn consistent(self) -> bool {
        self.waiting is Write ==> self.index < self.writes@.len()
    }

    /// The bus address of the controller.
    pub closed spec fn spec_modbus_id(&self) -> u8 {
        self.modbus_id
    }

    /// The state of the exchanges with the controller at bus address `modbus_id`,
    /// before any exchange.
    pub fn new(modbus_id: u8) -> (connection: Connection)
        ensures
            connection@ == Phase::Idle,
            connection.spec_modbus_id() == modbus_id,
    {
        Connection { modbus_id, waiting: Waiting::Nothing, writes: Vec::new(), index: 0 }
    }

    /// The bus address of the controller.
    #[verifier::when_used_as_spec(spec_modbus_id)]
    pub fn modbus_id(&self) -> (id: u8)
        ensures
            id == self.spec_modbus_id(),
    {
        self.modbus_id
    }

    /// Whether no operation is in progress.
    pub fn is_idle(&self) -> (idle: bool)
        ensures
            idle == (self@ is Idle),
    {
        match self.waiting {
            Waiting::Nothing => true,
            _ => false,
        }
    }

    /// Whether `response` is of the kind that answers the request that was sent last.
    pub fn awaits(&self, response: &Response) -> (r: bool)
        ensures
            r == self@.awaits(*response),
            self@.consistent(),
    {
        proof {
            use_type_invariant(self);
        }
        match self.waiting {
            Waiting::Nothing => false,
            Waiting::Stats { .. } | Waiting::Settings | Waiting::Current { .. } => match response {
                Response::Registers(_) | Response::Failed => true,
                _ => false,
            },
            Waiting::Write | Waiting::CoilWrite { .. } => match response {
                Response::Written | Response::Failed => true,
                _ => false,
            },
            Waiting::CoilState { .. } => match response {
                Response::Coils(_) | Response::Failed => true,
                _ => false,
            },
        }
    }

    /// Begins to read the telemetry, for a reading stamped `timestamp`.
    pub fn stats(&mut self, timestamp: Timestamp) -> (request: Request)
        ensures
            request == read_stats_request(),
            final(self)@ == (Phase::AwaitStats { timestamp }),
            final(self).spec_modbus_id() == old(self).spec_modbus_id(),
    {
        self.waiting = Waiting::Stats { timestamp };
        Request::ReadRegisters { address: STATS_BASE, count: STATS_LEN as u16 }
    }

    /// Begins to read the configuration.
    pub fn read_settings(&mut self) -> (request: Request)
        ensures
            request == read_settings_request(),
            final(self)@ == Phase::AwaitSettings,
            final(self).spec_modbus_id() == old(self).spec_modbus_id(),
    {
        self.waiting = Waiting::Settings;
        Request::ReadRegisters { address: SETTINGS_BASE, count: SETTINGS_LEN as u16 }
    }

    /// Begins to write a configuration.
    ///
    /// The configuration is checked first, and whole: where a field has a value that
    /// it may not take, nothing is asked of the transport, and the error names the
    /// first such field. Otherwise the controller's configuration block is read, and
    /// then each register that differs is written, in the order of the block.
    pub fn write_settings(&mut self, settings: &Settings) -> (r: Result<Request, Error>)
        ensures
            final(self).spec_modbus_id() == old(self).spec_modbus_id(),
            settings.valid() ==> {
                &&& r == Ok::<Request, Error>(read_settings_request())
                &&& final(self)@ == (Phase::AwaitCurrent { settings: *settings })
            },
            !settings.valid() ==> {
                &&& final(self)@ == Phase::Idle
                &&& r matches Err(Error::OutOfRange { field, range })
                &&& settings.first_refused(0) == Some(field)
                &&& range == field.spec_range()
            },
    {
        match settings.validate() {
            Ok(()) => {
                self.waiting = Waiting::Current { settings: *settings };
                Ok(Request::ReadRegisters { address: SETTINGS_BASE, count: SETTINGS_LEN as u16 })
            },
            Err(e) => {
                self.waiting = Waiting::Nothing;
                Err(e)
            },
        }
    }

    /// Begins to read the state of a coil.
    pub fn read_coil(&mut self, coil: Coil) -> (request: Request)
        ensures
            request == (Request::ReadCoils { address: coil.spec_address(), count: 1 }),
            final(self)@ == (Phase::AwaitCoil { coil }),
            final(self).spec_modbus_id() == old(self).spec_modbus_id(),
    {
        self.waiting = Waiting::CoilState { coil };
        Request::ReadCoils { address: coil.address(), count: 1 }
    }

    /// Begins to write a coil.
    pub fn write_coil(&mut self, coil: Coil, value: bool) -> (request: Request)
        ensures
            request == (Request::WriteCoil { address: coil.spec_address(), value }),
            final(self)@ == (Phase::AwaitCoilWrite { coil }),
            final(self).spec_modbus_id() == old(self).spec_modbus_id(),
    {
        self.waiting = Waiting::CoilWrite { coil };
        Request::WriteCoil { address: coil.address(), value }
    }

    /// Takes the transport's answer to the request that was sent last, and says how
    /// the operation goes on.
    pub fn receive(&mut self, response: Response) -> (progress: Progress)
        requires
            old(self)@.awaits(response),
        ensures
            (final(self)@, progress) == old(self)@.after(response),
            final(self)@.consistent(),
            final(self).spec_modbus_id() == old(self).spec_modbus_id(),
    {
        proof {
            use_type_invariant(&*self);
        }
        let waiting = self.waiting;
        self.waiting = Waiting::Nothing;
        match (waiting, response) {
            (Waiting::Stats { timestamp }, Response::Registers(raw)) => {
                match Stats::decode(raw.as_slice(), timestamp) {
                    Ok(stats) => Progress::Finished(Outcome::Stats(stats)),
                    Err(e) => Progress::Failed(e),
                }
            },
            (Waiting::Settings, Response::Registers(raw)) => {
                match Settings::decode(raw.as_slice()) {
                    Ok(settings) => Progress::Finished(Outcome::Settings(settings)),
                    Err(e) => Progress::Failed(e),
                }
            },
            (Waiting::Current { settings }, Response::Registers(raw)) => {
                match settings.pending_writes(raw.as_slice()) {
                    Ok(writes) => {
                        if writes.len() == 0 {
                            Progress::Finished(Outcome::Written)
                        } else {
                            let first = writes[0];
                            self.writes = writes;
                            self.index = 0;
                            self.waiting = Waiting::Write;
                            Progress::Send(
                                Request::WriteRegister {
                                    address: first.address(),
                                    value: first.value,
                                },
                            )
                        }
                    },
                    Err(e) => Progress::Failed(e),
                }
            },
            (Waiting::Write, Response::Written) => {
                let count: usize = self.writes.len();
                if self.index + 1 < count {
                    self.index = self.index + 1;
                    self.waiting = Waiting::Write;
                    let next = self.writes[self.index];
                    Progress::Send(
                        Request::WriteRegister { address: next.address(), value: next.value },
                    )
                } else {
                    Progress::Finished(Outcome::Written)
                }
            },
            (Waiting::CoilState { coil }, Response::Coils(bits)) => {
                if bits.len() == 1 {
                    Progress::Finished(Outcome::Coil(bits[0]))
                } else {
                    Progress::Failed(
                        Error::WrongSize {
                            operation: Operation::ReadCoil(coil),
                            expected: 1,
                            found: bits.len(),
                        },
                    )
                }
            },
            (Waiting::CoilWrite { .. }, Response::Written) => Progress::Finished(Outcome::Written),
            (Waiting::Stats { .. }, _) => Progress::Failed(Error::Transport(Operation::ReadStats)),
            (Waiting::Settings, _) => Progress::Failed(Error::Transport(Operation::ReadSettings)),
            (Waiting::Current { .. }, _) => Progress::Failed(
                Error::Transport(Operation::ReadCurrentSettings),
            ),
            (Waiting::Write, _) => Progress::Failed(
                Error::Transport(Operation::WriteSetting(self.writes[self.index].field)),
            ),
            (Waiting::CoilState { coil }, _) => Progress::Failed(
                Error::Transport(Operation::ReadCoil(coil)),
            ),
            (Waiting::CoilWrite { coil }, _) => Progress::Failed(
                Error::Transport(Operation::WriteCoil(coil)),
            ),
            (Waiting::Nothing, _) => Progress::Failed(Error::Transport(Operation::ReadStats)),
        }
    }
}

} // verus!
