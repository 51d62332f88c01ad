//! The EC port driver: duty scaling, validation, and the byte-exchange
//! handshake with the embedded controller, modelled as a step machine.
//!
//! Every exchange with the EC is a fixed sequence of port operations, each
//! guarded by a wait on a status bit of the command port. The machine in this
//! module decides that sequence; the embedding program performs each requested
//! port operation and hands the observed byte (or a completion
//! acknowledgement) back to the machine.

use vstd::arithmetic::div_mod::lemma_div_is_ordered;
use vstd::prelude::*;

verus! {

/// Port the EC exchanges data bytes on.
pub const EC_DATA_PORT: u16 = 0x62;

/// Port the EC takes command bytes on; reading it yields the status byte.
pub const EC_COMMAND_PORT: u16 = 0x66;

/// Command byte that asks the EC to set the fan duty.
pub const SET_RPM_COMMAND: u8 = 0x99;

/// EC register holding the fan duty wire value.
pub const EC_REG_FAN_DUTY: u8 = 0x01;

/// EC register holding the CPU temperature.
pub const EC_REG_CPU_TEMP: u8 = 0x07;

/// Command byte that asks the EC to report a register.
pub const EC_SC_READ_COMMAND: u8 = 0x80;

/// Bit position of "input buffer full" in the status byte; a byte may be
/// written to the EC only while this bit reads 0.
pub const INPUT_BYTE_FLAG: u16 = 1;

/// Bit position of "output buffer full" in the status byte; the data port
/// holds a reply only while this bit reads 1.
pub const OUTPUT_BYTE_FLAG: u16 = 0;

/// How many times a status bit is checked before the operation is abandoned.
pub const MAX_WAIT_CHECKS: u8 = 100;

/// Why a hardware operation did not complete.
#[derive(Clone, Copy, Debug, PartialEq, Eq, Structural)]
pub enum HardwareError {
    /// Raw I/O permission on the two EC ports could not be obtained.
    PermissionDenied,
    /// A status bit never settled: `port` was polled, `data` is the last byte
    /// observed there, `flag` the bit position checked, `value` the level it
    /// never reached.
    Timeout { port: u16, data: u8, flag: u16, value: u8 },
    /// The requested duty lies outside 0..=100; no port was touched.
    ValidationError { duty: u8 },
}

/// The 8-bit wire encoding of a duty percentage: `d / 100 * 255`, rounded
/// toward zero.
pub open spec fn wire_of(d: int) -> int {
    d * 255 / 100
}

/// Scales a duty percentage to the byte sent to the EC.
pub fn duty_to_wire(duty: u8) -> (r: u8)
    requires
        duty <= 100,
    ensures
        r == wire_of(duty as int),
{
    let wide: u16 = duty as u16 * 255 / 100;
    proof {
        lemma_div_is_ordered(duty as int * 255, 25500int, 100);
    }
    wide as u8
}

/// The wire encoding never decreases when the duty rises: a higher requested
/// duty is never sent to the hardware as a lower byte.
pub proof fn lemma_wire_monotonic(d1: int, d2: int)
    requires
        0 <= d1 <= d2 <= 100,
    ensures
        wire_of(d1) <= wire_of(d2),
{
    lemma_div_is_ordered(d1 * 255, d2 * 255, 100);
}

/// What an exchange with the EC does: write a value into a register, or read
/// a register back. All bytes the protocol will put on the wire are fixed
/// here, before the first port is touched.
#[derive(Clone, Copy, Debug, PartialEq, Eq, Structural)]
pub enum EcOp {
    Write { cmd: u8, reg: u8, value: u8 },
    Read { reg: u8 },
}

/// Where an exchange stands. Each phase records which outside action is in
/// flight; the machine moves only when the outcome of that action is fed back.
#[derive(Clone, Copy, Debug, PartialEq, Eq, Structural)]
pub enum EcPhase {
    /// Port permission has been requested; expecting granted or denied.
    Acquire,
    /// The status byte has been requested for the wait guarding `stage`.
    WaitPoll { stage: u8 },
    /// A one-unit sleep is in flight after a failed status check at `stage`.
    WaitSleep { stage: u8 },
    /// The byte of `stage` has been put on the wire; expecting completion.
    WriteIssued { stage: u8 },
    /// The data port has been read to collect the reply of a read exchange.
    DataReadIssued,
    /// The exchange completed; no further action is accepted.
    Finished,
    /// The exchange failed; no further action is accepted.
    Failed,
}

/// What the machine asks the embedding program to do next.
#[derive(Clone, Copy, Debug, PartialEq, Eq, Structural)]
pub enum EcAction {
    /// Obtain raw I/O permission on the two EC ports, and nothing broader.
    RequestPorts,
    /// Read one byte from `port` and feed it back.
    ReadPort { port: u16 },
    /// Write `value` to `port` and feed an acknowledgement back.
    WritePort { port: u16, value: u8 },
    /// Sleep `ms` milliseconds and feed an acknowledgement back.
    SleepMs { ms: u64 },
    /// A write exchange completed.
    Done,
    /// A read exchange completed; `data` is the byte the EC reported.
    Output { data: u8 },
    /// The exchange failed; perform nothing further for it.
    Fail { err: HardwareError },
}

/// One in-flight exchange with the EC.
///
/// A write exchange has three stages, a read exchange two write stages and a
/// reply stage; `stage_write_port` and `stage_write_byte` give the byte each
/// write stage puts on the wire, `wait_flag` and `wait_target` the status bit
/// and level that must be observed before the stage may act. `checks` counts
/// the failed status checks of the wait currently in progress.
#[derive(Clone, Copy, Debug, PartialEq, Eq, Structural)]
pub struct EcMachine {
    pub op: EcOp,
    pub phase: EcPhase,
    pub checks: u8,
}

/// The reply stage of a read exchange: its wait watches the output bit and is
/// followed by a data-port read instead of a write.
pub open spec fn is_reply_stage(op: EcOp, stage: u8) -> bool {
    op is Read && stage == 2
}

/// Which status bit the wait before `stage` watches.
pub open spec fn wait_flag(op: EcOp, stage: u8) -> u16 {
    if is_reply_stage(op, stage) {
        OUTPUT_BYTE_FLAG
    } else {
        INPUT_BYTE_FLAG
    }
}

/// The level that bit must reach: 1 for "reply ready", 0 for "input empty".
pub open spec fn wait_target(op: EcOp, stage: u8) -> u8 {
    if is_reply_stage(op, stage) {
        1
    } else {
        0
    }
}

/// The port a write stage writes to: the command byte goes to the command
/// port, register and value bytes to the data port.
pub open spec fn stage_write_port(stage: u8) -> u16 {
    if stage == 0 {
        EC_COMMAND_PORT
    } else {
        EC_DATA_PORT
    }
}

/// The byte a write stage puts on the wire.
pub open spec fn stage_write_byte(op: EcOp, stage: u8) -> u8 {
    match op {
        EcOp::Write { cmd, reg, value } => {
            if stage == 0 {
                cmd
            } else if stage == 1 {
                reg
            } else {
                value
            }
        },
        EcOp::Read { reg } => {
            if stage == 0 {
                EC_SC_READ_COMMAND
            } else {
                reg
            }
        },
    }
}

/// The value of the status bit at position `flag` in an observed status byte.
pub open spec fn status_bit(data: u8, flag: u16) -> u16 {
    ((data as u16) >> flag) & 1
}

impl EcMachine {
    /// The phases and counters an exchange can actually be in: stages in
    /// range, the reply phase only for read exchanges, the check budget never
    /// exceeded.
    pub open spec fn wf(self) -> bool {
        &&& self.checks <= MAX_WAIT_CHECKS
        &&& match self.phase {
            EcPhase::Acquire => true,
            EcPhase::WaitPoll { stage } => stage < 3,
            EcPhase::WaitSleep { stage } => stage < 3,
            EcPhase::WriteIssued { stage } => stage < 3 && (self.op is Read ==> stage < 2),
            EcPhase::DataReadIssued => self.op is Read,
            EcPhase::Finished => true,
            EcPhase::Failed => true,
        }
    }

    /// The machine is waiting for the outcome of a port-permission request.
    pub open spec fn expects_grant(self) -> bool {
        self.phase is Acquire
    }

    /// The machine is waiting for a byte read from a port.
    pub open spec fn expects_byte(self) -> bool {
        self.phase is WaitPoll || self.phase is DataReadIssued
    }

    /// The machine is waiting for a write or a sleep to complete.
    pub open spec fn expects_ack(self) -> bool {
        self.phase is WaitSleep || self.phase is WriteIssued
    }
}

/// The move the machine makes when told whether port permission was granted.
pub open spec fn grant_step(pre: EcMachine, granted: bool) -> (EcMachine, EcAction)
    recommends
        pre.expects_grant(),
{
    if granted {
        (
            EcMachine { phase: EcPhase::WaitPoll { stage: 0 }, checks: 0, ..pre },
            EcAction::ReadPort { port: EC_COMMAND_PORT },
        )
    } else {
        (
            EcMachine { phase: EcPhase::Failed, ..pre },
            EcAction::Fail { err: HardwareError::PermissionDenied },
        )
    }
}

/// The move the machine makes on a byte read from a port.
///
/// In a wait: once the check budget is spent, the freshly observed byte goes
/// into the `Timeout` diagnostic and the exchange is abandoned; a settled bit
/// lets the stage act (write its byte, or collect the reply); a bit not yet
/// settled consumes one check and asks for a one-unit sleep. A byte arriving
/// for the reply stage's data-port read completes the exchange.
pub open spec fn byte_step(pre: EcMachine, data: u8) -> (EcMachine, EcAction)
    recommends
        pre.expects_byte(),
{
    match pre.phase {
        EcPhase::WaitPoll { stage } => {
            if pre.checks >= MAX_WAIT_CHECKS {
                (
                    EcMachine { phase: EcPhase::Failed, ..pre },
                    EcAction::Fail {
                        err: HardwareError::Timeout {
                            port: EC_COMMAND_PORT,
                            data,
                            flag: wait_flag(pre.op, stage),
                            value: wait_target(pre.op, stage),
                        },
                    },
                )
            } else if status_bit(data, wait_flag(pre.op, stage)) == wait_target(pre.op, stage) {
                if is_reply_stage(pre.op, stage) {
                    (
                        EcMachine { phase: EcPhase::DataReadIssued, ..pre },
                        EcAction::ReadPort { port: EC_DATA_PORT },
                    )
                } else {
                    (
                        EcMachine { phase: EcPhase::WriteIssued { stage }, ..pre },
                        EcAction::WritePort {
                            port: stage_write_port(stage),
                            value: stage_write_byte(pre.op, stage),
                        },
                    )
                }
            } else {
                (
                    EcMachine {
                        phase: EcPhase::WaitSleep { stage },
                        checks: (pre.checks + 1) as u8,
                        ..pre
                    },
                    EcAction::SleepMs { ms: 1 },
                )
            }
        },
        EcPhase::DataReadIssued => (
            EcMachine { phase: EcPhase::Finished, ..pre },
            EcAction::Output { data },
        ),
        _ => (pre, arbitrary()),
    }
}

/// The move the machine makes when a write or a sleep completes: after a
/// sleep, poll the status byte again; after a stage's write, either begin the
/// next stage's wait with a fresh check budget or, after the last write of a
/// write exchange, finish.
pub open spec fn ack_step(pre: EcMachine) -> (EcMachine, EcAction)
    recommends
        pre.expects_ack(),
{
    match pre.phase {
        EcPhase::WaitSleep { stage } => (
            EcMachine { phase: EcPhase::WaitPoll { stage }, ..pre },
            EcAction::ReadPort { port: EC_COMMAND_PORT },
        ),
        EcPhase::WriteIssued { stage } => {
            if stage >= 2 {
                (EcMachine { phase: EcPhase::Finished, ..pre }, EcAction::Done)
            } else {
                (
                    EcMachine {
                        phase: EcPhase::WaitPoll { stage: (stage + 1) as u8 },
                        checks: 0,
                        ..pre
                    },
                    EcAction::ReadPort { port: EC_COMMAND_PORT },
                )
            }
        },
        _ => (pre, arbitrary()),
    }
}

/// Feeds the outcome of a `RequestPorts` action back into the machine.
pub fn step_granted(m: &mut EcMachine, granted: bool) -> (a: EcAction)
    requires
        old(m).wf(),
        old(m).expects_grant(),
    ensures
        final(m).wf(),
        (*final(m), a) == grant_step(*old(m), granted),
{
    if granted {
        m.phase = EcPhase::WaitPoll { stage: 0 };
        m.checks = 0;
        EcAction::ReadPort { port: EC_COMMAND_PORT }
    } else {
        m.phase = EcPhase::Failed;
        EcAction::Fail { err: HardwareError::PermissionDenied }
    }
}

/// Feeds the byte observed by a `ReadPort` action back into the machine.
pub fn step_byte(m: &mut EcMachine, data: u8) -> (a: EcAction)
    requires
        old(m).wf(),
        old(m).expects_byte(),
    ensures
        final(m).wf(),
        (*final(m), a) == byte_step(*old(m), data),
{
    match m.phase {
        EcPhase::WaitPoll { stage } => {
            let flag = wait_flag_at(m.op, stage);
            let target = wait_target_at(m.op, stage);
            if m.checks >= MAX_WAIT_CHECKS {
                m.phase = EcPhase::Failed;
                EcAction::Fail {
                    err: HardwareError::Timeout { port: EC_COMMAND_PORT, data, flag, value: target },
                }
            } else if ((data as u16) >> flag) & 1 == target as u16 {
                if reply_stage_at(m.op, stage) {
                    m.phase = EcPhase::DataReadIssued;
                    EcAction::ReadPort { port: EC_DATA_PORT }
                } else {
                    m.phase = EcPhase::WriteIssued { stage };
                    EcAction::WritePort {
                        port: if stage == 0 {
                            EC_COMMAND_PORT
                        } else {
                            EC_DATA_PORT
                        },
                        value: stage_byte_at(m.op, stage),
                    }
                }
            } else {
                m.checks = m.checks + 1;
                m.phase = EcPhase::WaitSleep { stage };
                EcAction::SleepMs { ms: 1 }
            }
        },
        EcPhase::DataReadIssued => {
            m.phase = EcPhase::Finished;
            EcAction::Output { data }
        },
        _ => vstd::pervasive::unreached(),
    }
}

/// Feeds the completion of a `WritePort` or `SleepMs` action back into the
/// machine.
pub fn step_ack(m: &mut EcMachine) -> (a: EcAction)
    requires
        old(m).wf(),
        old(m).expects_ack(),
    ensures
        final(m).wf(),
        (*final(m), a) == ack_step(*old(m)),
{
    match m.phase {
        EcPhase::WaitSleep { stage } => {
            m.phase = EcPhase::WaitPoll { stage };
            EcAction::ReadPort { port: EC_COMMAND_PORT }
        },
        EcPhase::WriteIssued { stage } => {
            if stage >= 2 {
                m.phase = EcPhase::Finished;
                EcAction::Done
            } else {
                m.phase = EcPhase::WaitPoll { stage: stage + 1 };
                m.checks = 0;
                EcAction::ReadPort { port: EC_COMMAND_PORT }
            }
        },
        _ => vstd::pervasive::unreached(),
    }
}

fn wait_flag_at(op: EcOp, stage: u8) -> (r: u16)
    ensures
        r == wait_flag(op, stage),
{
    if reply_stage_at(op, stage) {
        OUTPUT_BYTE_FLAG
    } else {
        INPUT_BYTE_FLAG
    }
}

fn wait_target_at(op: EcOp, stage: u8) -> (r: u8)
    ensures
        r == wait_target(op, stage),
{
    if reply_stage_at(op, stage) {
        1
    } else {
        0
    }
}

fn reply_stage_at(op: EcOp, stage: u8) -> (r: bool)
    ensures
        r == is_reply_stage(op, stage),
{
    match op {
        EcOp::Read { .. } => stage == 2,
        EcOp::Write { .. } => false,
    }
}

fn stage_byte_at(op: EcOp, stage: u8) -> (r: u8)
    ensures
        r == stage_write_byte(op, stage),
{
    match op {
        EcOp::Write { cmd, reg, value } => {
            if stage == 0 {
                cmd
            } else if stage == 1 {
                reg
            } else {
                value
            }
        },
        EcOp::Read { reg } => {
            if stage == 0 {
                EC_SC_READ_COMMAND
            } else {
                reg
            }
        },
    }
}

/// Begins a raw write exchange: `cmd` to the command port, then the register
/// and value bytes to the data port, each behind an input-empty wait. Assumes
/// port permission is already held; the first action polls the status byte.
pub fn system_io_write(cmd: u16, port: u16, value: u16) -> (r: (EcMachine, EcAction))
    ensures
        r.0.wf(),
        r.0.op == (EcOp::Write { cmd: cmd as u8, reg: port as u8, value: value as u8 }),
        r.0.phase == (EcPhase::WaitPoll { stage: 0 }),
        r.0.checks == 0,
        r.1 == (EcAction::ReadPort { port: EC_COMMAND_PORT }),
{
    #[verifier::truncate]
    let m = EcMachine {
        op: EcOp::Write { cmd: cmd as u8, reg: port as u8, value: value as u8 },
        phase: EcPhase::WaitPoll { stage: 0 },
        checks: 0,
    };
    (m, EcAction::ReadPort { port: EC_COMMAND_PORT })
}

/// Begins a raw read exchange: the read command and the register byte go out
/// behind input-empty waits, then the reply is collected from the data port
/// once the output bit settles. Assumes port permission is already held.
pub fn system_io_read(port: u16) -> (r: (EcMachine, EcAction))
    ensures
        r.0.wf(),
        r.0.op == (EcOp::Read { reg: port as u8 }),
        r.0.phase == (EcPhase::WaitPoll { stage: 0 }),
        r.0.checks == 0,
        r.1 == (EcAction::ReadPort { port: EC_COMMAND_PORT }),
{
    #[verifier::truncate]
    let m = EcMachine {
        op: EcOp::Read { reg: port as u8 },
        phase: EcPhase::WaitPoll { stage: 0 },
        checks: 0,
    };
    (m, EcAction::ReadPort { port: EC_COMMAND_PORT })
}

/// Begins a set-fan-duty exchange, validating the duty first: a duty above
/// 100 is rejected with `ValidationError` and no machine is built, so no port
/// action of any kind is requested for it. A valid duty is scaled to its wire
/// byte; the exchange opens by requesting port permission.
pub fn set_fan_speed(speed: u8) -> (r: Result<(EcMachine, EcAction), HardwareError>)
    ensures
        speed > 100 <==> r is Err,
        r matches Err(e) ==> e == (HardwareError::ValidationError { duty: speed }),
        r matches Ok(p) ==> {
            &&& p.0.wf()
            &&& p.0.op == (EcOp::Write {
                cmd: SET_RPM_COMMAND,
                reg: EC_REG_FAN_DUTY,
                value: wire_of(speed as int) as u8,
            })
            &&& p.0.phase is Acquire
            &&& p.0.checks == 0
            &&& p.1 is RequestPorts
        },
{
    if speed > 100 {
        return Err(HardwareError::ValidationError { duty: speed });
    }
    let wire = duty_to_wire(speed);
    let m = EcMachine {
        op: EcOp::Write { cmd: SET_RPM_COMMAND, reg: EC_REG_FAN_DUTY, value: wire },
        phase: EcPhase::Acquire,
        checks: 0,
    };
    Ok((m, EcAction::RequestPorts))
}

/// Begins a CPU-temperature read exchange; it opens by requesting port
/// permission, then reads the temperature register.
pub fn get_cpu_temp() -> (r: (EcMachine, EcAction))
    ensures
        r.0.wf(),
        r.0.op == (EcOp::Read { reg: EC_REG_CPU_TEMP }),
        r.0.phase is Acquire,
        r.0.checks == 0,
        r.1 is RequestPorts,
{
    let m = EcMachine {
        op: EcOp::Read { reg: EC_REG_CPU_TEMP },
        phase: EcPhase::Acquire,
        checks: 0,
    };
    (m, EcAction::RequestPorts)
}

/// A wait whose status bit has stayed wrong through the whole check budget
/// ends the exchange with `Timeout`: the error names the polled port, the
/// last observed byte, the bit position checked and the level expected, and
/// the machine is failed — the abandoned exchange asks for no port write.
pub proof fn lemma_wait_timeout(pre: EcMachine, data: u8, stage: u8)
    requires
        pre.wf(),
        pre.phase == (EcPhase::WaitPoll { stage }),
        pre.checks == MAX_WAIT_CHECKS,
    ensures
        byte_step(pre, data).0.phase is Failed,
        byte_step(pre, data).1 == (EcAction::Fail {
            err: HardwareError::Timeout {
                port: EC_COMMAND_PORT,
                data,
                flag: wait_flag(pre.op, stage),
                value: wait_target(pre.op, stage),
            },
        }),
{
}

/// A failed machine accepts no further input at all: no step applies to it,
/// so an exchange that has reported `Timeout` or `PermissionDenied` performs
/// no further port operation.
pub proof fn lemma_failed_is_terminal(m: EcMachine)
    requires
        m.phase is Failed,
    ensures
        !m.expects_grant(),
        !m.expects_byte(),
        !m.expects_ack(),
{
}

/// Each status check that observes the wrong bit level consumes exactly one
/// unit of the check budget and asks only for a one-unit sleep — never for a
/// port write.
pub proof fn lemma_missed_check_counts(pre: EcMachine, data: u8, stage: u8)
    requires
        pre.wf(),
        pre.phase == (EcPhase::WaitPoll { stage }),
        pre.checks < MAX_WAIT_CHECKS,
        status_bit(data, wait_flag(pre.op, stage)) != wait_target(pre.op, stage),
    ensures
        byte_step(pre, data).0.phase == (EcPhase::WaitSleep { stage }),
        byte_step(pre, data).0.checks == pre.checks + 1,
        byte_step(pre, data).1 == (EcAction::SleepMs { ms: 1 }),
{
}

/// While the check budget lasts, a settled status bit lets the stage act: the
/// stage's prescribed byte goes to its prescribed port, or — in the reply
/// stage of a read — the reply is collected from the data port. No other port
/// write is ever requested.
pub proof fn lemma_settled_bit_acts(pre: EcMachine, data: u8, stage: u8)
    requires
        pre.wf(),
        pre.phase == (EcPhase::WaitPoll { stage }),
        pre.checks < MAX_WAIT_CHECKS,
        status_bit(data, wait_flag(pre.op, stage)) == wait_target(pre.op, stage),
    ensures
        !is_reply_stage(pre.op, stage) ==> byte_step(pre, data).1 == (EcAction::WritePort {
            port: stage_write_port(stage),
            value: stage_write_byte(pre.op, stage),
        }),
        is_reply_stage(pre.op, stage) ==> byte_step(pre, data).1 == (EcAction::ReadPort {
            port: EC_DATA_PORT,
        }),
{
}

} // verus!
