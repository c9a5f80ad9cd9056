//! Properties of the command sequencer that hold of every step.
use vstd::prelude::*;
use crate::cd321x::{
    begin, elapsed, mode_of_tag, step_spec, tag_vdms, vdms_data, vdms_script, vdo_count_ok,
    ActionView, DeviceView, EventView, Phase, StageView, TpsMode, VdmSopType, INVALID_CMD,
    TPS_REG_CMD1, TPS_REG_DATA1, TPS_REG_MODE, VDM_RESPONSE_DELAY, VDM_TIMEOUT,
};
use crate::codec::{le_u16_value, le_u32_value};
use crate::error::Error;

verus! {

/// CMD1 value that means no command is running: 0, or "!CMD" left over
/// from a refused command.
pub open spec fn cmd1_free(v: int) -> bool {
    v == 0 || v == INVALID_CMD
}

/// Every step keeps the state consistent, keeps the key and the stages of
/// the running operation, and never moves back to an earlier stage.
pub proof fn law_step_keeps_state(d: DeviceView, e: EventView)
    requires
        d.wf(),
        d.accepts(e),
    ensures
        step_spec(d, e).0.wf(),
        step_spec(d, e).0.key == d.key,
        step_spec(d, e).0.script == d.script,
        step_spec(d, e).0.next == d.next || step_spec(d, e).0.next == d.next + 1,
{
}

/// The sequencer reports an outcome exactly when it becomes idle, and it
/// reports success only when the last stage of the operation is over.
pub proof fn law_done_iff_idle(d: DeviceView, e: EventView)
    requires
        d.wf(),
        d.accepts(e),
    ensures
        (step_spec(d, e).1 is Done) <==> (step_spec(d, e).0.phase is Idle),
        step_spec(d, e).1 == ActionView::Done(Ok(())) ==> d.next == d.script.len() - 1,
{
}

/// Data and command tags are written only after CMD1 was read back free:
/// DATA1 right after that read, CMD1 right after it (when there is no data)
/// or right after the data went out. What is written is the running
/// command's data and tag.
pub proof fn law_writes_only_to_free_controller(d: DeviceView, e: EventView)
    requires
        d.wf(),
        d.accepts(e),
    ensures
        step_spec(d, e).1 matches ActionView::Write { reg, data } ==> {
            ||| {
                &&& reg == TPS_REG_DATA1
                &&& data == d.current()->Command_data
                &&& d.phase is BusyCheck
                &&& e matches EventView::Read { data: status, .. } && cmd1_free(
                    le_u32_value(status),
                )
            }
            ||| {
                &&& reg == TPS_REG_CMD1
                &&& data == d.current()->Command_tag
                &&& d.current()->Command_data.len() == 0
                &&& d.phase is BusyCheck
                &&& e matches EventView::Read { data: status, .. } && cmd1_free(
                    le_u32_value(status),
                )
            }
            ||| {
                &&& reg == TPS_REG_CMD1
                &&& data == d.current()->Command_tag
                &&& d.phase is DataWrite
                &&& e is Wrote
            }
        },
{
}

/// A command counts as done only when CMD1 was read back as 0.
pub proof fn law_command_done_only_on_zero(d: DeviceView, e: EventView)
    requires
        d.wf(),
        d.accepts(e),
        step_spec(d, e).0.phase is Settle,
        !(d.phase is Settle),
    ensures
        d.phase is Poll,
        e matches EventView::Read { data, .. } && le_u32_value(data) == 0,
{
}

/// A mode check lets the operation go on only if the MODE register names
/// the expected mode.
pub proof fn law_mode_check(d: DeviceView, e: EventView)
    requires
        d.wf(),
        d.accepts(e),
        d.phase is ModeRead,
    ensures
        step_spec(d, e).0.next == d.next + 1 <==> (e matches EventView::Read { data, .. }
            && mode_of_tag(data) == Some(d.current()->ExpectMode_0)),
{
}

/// A failed transfer ends the operation with that error, except while
/// waiting for the partner, where it counts as "not connected yet".
pub proof fn law_failure_ends_operation(d: DeviceView, e: EventView, err: Error)
    requires
        d.wf(),
        d.accepts(e),
        e == EventView::Failed(err),
    ensures
        !(d.phase is Probe) ==> step_spec(d, e) == d.fail(err),
        d.phase matches Phase::Probe { start } ==> step_spec(d, e) == (
            d.with_phase(Phase::ProbeWait { start }),
            ActionView::Sleep { nanos: d.current()->AwaitConnection_poll_wait },
        ),
{
}

/// The sequencer gives up on a command only when CMD1 still reads busy and
/// more than the command's timeout has passed since the tag was written;
/// it gives up on the partner only after more than the wait's timeout.
pub proof fn law_timeouts(d: DeviceView, e: EventView)
    requires
        d.wf(),
        d.accepts(e),
        !(e is Failed),
    ensures
        step_spec(d, e).1 == ActionView::Done(Err(Error::ControllerTimeout)) ==> {
            &&& d.phase matches Phase::Poll { start }
            &&& e matches EventView::Read { data, now }
            &&& !cmd1_free(le_u32_value(data))
            &&& elapsed(start, now) > d.current()->Command_timeout
        },
        step_spec(d, e).1 == ActionView::Done(Err(Error::ReconnectTimeout)) ==> {
            &&& d.phase matches Phase::ProbeWait { start }
            &&& e matches EventView::Slept { now }
            &&& elapsed(start, now) > d.current()->AwaitConnection_timeout
        },
{
}


/// What a command with data puts on the bus when the controller is free and
/// finishes in time: after the free CMD1 reading, DATA1 gets the data, CMD1
/// gets the tag, CMD1 is read back, and once it reads 0 the command's delay
/// is waited out before the next stage starts.
pub proof fn law_command_exchange(
    d: DeviceView,
    free: Seq<u8>,
    t1: u64,
    t2: u64,
    done: Seq<u8>,
    t3: u64,
    t4: u64,
)
    requires
        d.wf(),
        d.phase is BusyCheck,
        d.current()->Command_data.len() > 0,
        free.len() == 4,
        cmd1_free(le_u32_value(free)),
        done.len() == 4,
        le_u32_value(done) == 0,
    ensures
        ({
            let c = d.current();
            let (d1, a1) = step_spec(d, EventView::Read { data: free, now: t1 });
            let (d2, a2) = step_spec(d1, EventView::Wrote { now: t2 });
            let (d3, a3) = step_spec(d2, EventView::Wrote { now: t3 });
            let (d4, a4) = step_spec(d3, EventView::Read { data: done, now: t4 });
            let (d5, a5) = step_spec(d4, EventView::Slept { now: t4 });
            &&& a1 == ActionView::Write { reg: TPS_REG_DATA1, data: c->Command_data }
            &&& a2 == ActionView::Write { reg: TPS_REG_CMD1, data: c->Command_tag }
            &&& a3 == ActionView::Read { reg: TPS_REG_CMD1, len: 4 }
            &&& a4 == ActionView::Sleep { nanos: c->Command_delay }
            &&& (d5, a5) == d.enter(d.next + 1)
        }),
{
}


/// The actions that the sequencer asks for, one per event, from state `d` on.
pub open spec fn run_actions(d: DeviceView, es: Seq<EventView>) -> Seq<ActionView>
    decreases es.len(),
{
    if es.len() == 0 {
        Seq::empty()
    } else {
        let (d1, a) = step_spec(d, es[0]);
        seq![a] + run_actions(d1, es.drop_first())
    }
}

/// Two states that run the same stage, each as the last of its operation,
/// in the same phase.
pub open spec fn same_last_stage(d: DeviceView, c: DeviceView) -> bool {
    &&& d.phase == c.phase
    &&& d.phase !is Idle ==> {
        &&& 0 <= d.next && d.next == d.script.len() - 1
        &&& 0 <= c.next && c.next == c.script.len() - 1
        &&& d.current() == c.current()
    }
}

proof fn lemma_same_last_stage_step(d: DeviceView, c: DeviceView, e: EventView)
    requires
        same_last_stage(d, c),
    ensures
        step_spec(d, e).1 == step_spec(c, e).1,
        same_last_stage(step_spec(d, e).0, step_spec(c, e).0),
{
}

proof fn lemma_same_last_stage_run(d: DeviceView, c: DeviceView, es: Seq<EventView>)
    requires
        same_last_stage(d, c),
    ensures
        run_actions(d, es) == run_actions(c, es),
    decreases es.len(),
{
    if es.len() > 0 {
        lemma_same_last_stage_step(d, c, es[0]);
        lemma_same_last_stage_run(step_spec(d, es[0]).0, step_spec(c, es[0]).0, es.drop_first());
    }
}

/// Once its mode check reads debug mode, a VDM send runs exactly as the
/// timed command "VDMs" with the VDM data, a 200 ms timeout and a 200 ms
/// delay: the next action is the command's first, and whatever the bus
/// answers from then on, both ask for the same actions.
pub proof fn law_vdms_is_timed_command(
    key: Seq<u8>,
    sop: VdmSopType,
    vdos: Seq<u32>,
    mode: Seq<u8>,
    now: u64,
    es: Seq<EventView>,
)
    requires
        vdo_count_ok(vdos.len() as int),
        mode_of_tag(mode) == Some(TpsMode::Dbma),
    ensures
        ({
            let (d0, a0) = begin(key, vdms_script(sop, vdos));
            let (c0, b0) = begin(
                key,
                seq![
                    StageView::Command {
                        tag: tag_vdms(),
                        data: vdms_data(sop, vdos),
                        timeout: VDM_TIMEOUT,
                        delay: VDM_RESPONSE_DELAY,
                    },
                ],
            );
            let (d1, a1) = step_spec(d0, EventView::Read { data: mode, now });
            &&& a0 == ActionView::Read { reg: TPS_REG_MODE, len: 4 }
            &&& a1 == b0
            &&& run_actions(d1, es) == run_actions(c0, es)
        }),
{
    let (d0, a0) = begin(key, vdms_script(sop, vdos));
    let (c0, b0) = begin(
        key,
        seq![
            StageView::Command {
                tag: tag_vdms(),
                data: vdms_data(sop, vdos),
                timeout: VDM_TIMEOUT,
                delay: VDM_RESPONSE_DELAY,
            },
        ],
    );
    let (d1, a1) = step_spec(d0, EventView::Read { data: mode, now });
    assert(same_last_stage(d1, c0));
    lemma_same_last_stage_run(d1, c0, es);
}


/// Four bytes of CMD1 read back as 0 exactly when they are all zero, and as
/// the "!CMD" answer exactly when they are "!CMD".
pub proof fn lemma_cmd1_bytes(data: Seq<u8>)
    requires
        data.len() == 4,
    ensures
        le_u32_value(data) == 0 <==> data == seq![0u8, 0u8, 0u8, 0u8],
        le_u32_value(data) == INVALID_CMD <==> data == seq![0x21u8, 0x43u8, 0x4du8, 0x44u8],
{
    if data =~= seq![0u8, 0u8, 0u8, 0u8] {
    }
    if data =~= seq![0x21u8, 0x43u8, 0x4du8, 0x44u8] {
    }
    if le_u32_value(data) == 0 {
        assert(data =~= seq![0u8, 0u8, 0u8, 0u8]);
    }
    if le_u32_value(data) == INVALID_CMD {
        assert(data[3] == 0x44);
        assert(data[2] == 0x4d);
        assert(data[1] == 0x43);
        assert(data[0] == 0x21);
        assert(data =~= seq![0x21u8, 0x43u8, 0x4du8, 0x44u8]);
    }
}

/// The check before a command: CMD1 counts as free exactly when its four
/// bytes are all zero or spell "!CMD"; on any other reading the operation
/// ends as refused by the controller. When free, DATA1 (register 0x09) gets
/// the data if there is any, else CMD1 (register 0x08) gets the tag.
pub proof fn law_busy_check(d: DeviceView, data: Seq<u8>, now: u64)
    requires
        d.wf(),
        d.phase is BusyCheck,
        data.len() == 4,
    ensures
        ({
            let (d1, a) = step_spec(d, EventView::Read { data, now });
            let free = data == seq![0u8, 0u8, 0u8, 0u8] || data == seq![
                0x21u8,
                0x43u8,
                0x4du8,
                0x44u8,
            ];
            &&& !free ==> a == ActionView::Done(Err(Error::TypecController)) && d1.phase is Idle
            &&& free && d.current()->Command_data.len() > 0 ==> a == ActionView::Write {
                reg: 0x09,
                data: d.current()->Command_data,
            }
            &&& free && d.current()->Command_data.len() == 0 ==> a == ActionView::Write {
                reg: 0x08,
                data: d.current()->Command_tag,
            }
        }),
{
    lemma_cmd1_bytes(data);
}

/// Polling CMD1 after the command: "!CMD" means the controller refused the
/// command; all zero means it is done, and the command's delay follows;
/// anything else means it is still running, and the operation gives up
/// exactly when more than the command's timeout has passed since the tag
/// was written, else CMD1 (register 0x08) is read again.
pub proof fn law_poll(d: DeviceView, start: u64, data: Seq<u8>, now: u64)
    requires
        d.wf(),
        d.phase == (Phase::Poll { start }),
        data.len() == 4,
    ensures
        ({
            let (d1, a) = step_spec(d, EventView::Read { data, now });
            let timeout = d.current()->Command_timeout;
            let late = now >= start && now - start > timeout;
            &&& data == seq![0x21u8, 0x43u8, 0x4du8, 0x44u8] ==> a == ActionView::Done(
                Err(Error::TypecController),
            )
            &&& data == seq![0u8, 0u8, 0u8, 0u8] ==> d1.phase is Settle && a == ActionView::Sleep {
                nanos: d.current()->Command_delay,
            }
            &&& data != seq![0x21u8, 0x43u8, 0x4du8, 0x44u8] && data != seq![0u8, 0u8, 0u8, 0u8]
                ==> {
                &&& late ==> a == ActionView::Done(Err(Error::ControllerTimeout))
                &&& !late ==> d1 == d && a == ActionView::Read { reg: 0x08, len: 4 }
            }
        }),
{
    lemma_cmd1_bytes(data);
}

/// Waiting for the partner: a power-status reading counts as connected
/// exactly when bit 0 of its first (low) byte is set, whatever the other
/// bits; then the settle pause follows, else the pause between looks.
pub proof fn law_probe_connected(d: DeviceView, start: u64, data: Seq<u8>, now: u64)
    requires
        d.wf(),
        d.phase == (Phase::Probe { start }),
        data.len() == 2,
    ensures
        ({
            let (d1, a) = step_spec(d, EventView::Read { data, now });
            &&& data[0] % 2 == 1 ==> d1.phase is Reconnected && a == ActionView::Sleep {
                nanos: d.current()->AwaitConnection_settle,
            }
            &&& data[0] % 2 == 0 ==> d1.phase == (Phase::ProbeWait { start }) && a
                == ActionView::Sleep { nanos: d.current()->AwaitConnection_poll_wait }
        }),
{
    assert(le_u16_value(data) % 2 == data[0] % 2);
}

/// After the pause between looks, the wait gives up exactly when more than
/// its timeout has passed since it began, else the power status (register
/// 0x3f, two bytes) is read again.
pub proof fn law_probe_wait(d: DeviceView, start: u64, now: u64)
    requires
        d.wf(),
        d.phase == (Phase::ProbeWait { start }),
    ensures
        ({
            let (d1, a) = step_spec(d, EventView::Slept { now });
            let late = now >= start && now - start > d.current()->AwaitConnection_timeout;
            &&& late ==> a == ActionView::Done(Err(Error::ReconnectTimeout))
            &&& !late ==> d1.phase == (Phase::Probe { start }) && a == ActionView::Read {
                reg: 0x3f,
                len: 2,
            }
        }),
{
}

} // verus!
