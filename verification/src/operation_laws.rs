//! What each operation of the tool sends, byte for byte, and how a stage
//! begins on the bus.
use vstd::prelude::*;
use crate::cd321x::{
    debugusb_vdos, dfu_vdos, key_of_code, mode_of_tag, new_script, operation_script,
    reboot_vdos, serial_vdos, tag_dbma, tag_disc, tag_dven, tag_lock, tag_vdms, vdms_data,
    ActionView, DeviceView, Operation, StageView, TpsMode, VdmSopType,
};
use crate::codec::{u32_le_bytes, u32s_le_bytes};
use vstd::utf8::encode_utf8;

verus! {

proof fn lemma_le3(a: u32, b: u32, c: u32)
    ensures
        u32s_le_bytes(seq![a, b, c]) == u32_le_bytes(a) + u32_le_bytes(b) + u32_le_bytes(c),
{
    let s = seq![a, b, c];
    assert(s.drop_last() =~= seq![a, b]);
    assert(seq![a, b].drop_last() =~= seq![a]);
    lemma_le1(a);
    assert(u32s_le_bytes(seq![a, b]) =~= u32_le_bytes(a) + u32_le_bytes(b));
}

proof fn lemma_le2(a: u32, b: u32)
    ensures
        u32s_le_bytes(seq![a, b]) == u32_le_bytes(a) + u32_le_bytes(b),
{
    assert(seq![a, b].drop_last() =~= seq![a]);
    lemma_le1(a);
}

proof fn lemma_le1(a: u32)
    ensures
        u32s_le_bytes(seq![a]) == u32_le_bytes(a),
{
    assert(seq![a].drop_last() =~= Seq::<u32>::empty());
    assert(u32s_le_bytes(Seq::<u32>::empty()) =~= Seq::<u8>::empty());
    assert(u32s_le_bytes(seq![a]) =~= u32_le_bytes(a));
}

/// The VDM header of SOP* messages, and the object bytes that the
/// operations use, least significant byte first.
proof fn lemma_object_bytes()
    ensures
        u32_le_bytes(0x5ac8012) == seq![0x12u8, 0x80u8, 0xacu8, 0x05u8],
        u32_le_bytes(0x106) == seq![0x06u8, 0x01u8, 0x00u8, 0x00u8],
        u32_le_bytes(0x105) == seq![0x05u8, 0x01u8, 0x00u8, 0x00u8],
        u32_le_bytes(0x80010000) == seq![0x00u8, 0x00u8, 0x01u8, 0x80u8],
        u32_le_bytes(0x80000000) == seq![0x00u8, 0x00u8, 0x00u8, 0x80u8],
        u32_le_bytes(0x1840306) == seq![0x06u8, 0x03u8, 0x84u8, 0x01u8],
        u32_le_bytes(0x1824606) == seq![0x06u8, 0x46u8, 0x82u8, 0x01u8],
{
    assert(u32_le_bytes(0x5ac8012) =~= seq![0x12u8, 0x80u8, 0xacu8, 0x05u8]);
    assert(u32_le_bytes(0x106) =~= seq![0x06u8, 0x01u8, 0x00u8, 0x00u8]);
    assert(u32_le_bytes(0x105) =~= seq![0x05u8, 0x01u8, 0x00u8, 0x00u8]);
    assert(u32_le_bytes(0x80010000) =~= seq![0x00u8, 0x00u8, 0x01u8, 0x80u8]);
    assert(u32_le_bytes(0x80000000) =~= seq![0x00u8, 0x00u8, 0x00u8, 0x80u8]);
    assert(u32_le_bytes(0x1840306) =~= seq![0x06u8, 0x03u8, 0x84u8, 0x01u8]);
    assert(u32_le_bytes(0x1824606) =~= seq![0x06u8, 0x46u8, 0x82u8, 0x01u8]);
}

/// A "VDMs" command (tag bytes "VDMs") with 200 ms to complete and 200 ms
/// to wait after, behind a check that the controller is in debug mode.
pub open spec fn vdm_stages(data: Seq<u8>) -> Seq<StageView> {
    seq![
        StageView::ExpectMode(TpsMode::Dbma),
        StageView::Command {
            tag: seq![0x56u8, 0x44u8, 0x4du8, 0x73u8],
            data,
            timeout: 200_000_000,
            delay: 200_000_000,
        },
    ]
}

/// What each operation sends, byte for byte:
/// - DFU: the SOP* VDM of objects 0x5ac8012, 0x106, 0x80010000;
/// - reboot: the SOP* VDM of objects 0x5ac8012, 0x105, 0x80000000;
/// - reboot and wait: the same, then a one-second pause, looks at the power
///   status every 100 ms for up to three seconds, and a one-second pause;
/// - Debug USB: the SOP* VDM of objects 0x5ac8012, 0x1824606;
/// - serial: the SOP* VDM of objects 0x5ac8012, 0x1840306, a debug-mode
///   check, then "DVEn" with the object 0x1840306 for the local end;
/// - disconnect: "DISC" with data 3, then a debug-mode check;
/// - leaving debug mode: "DBMa" with data 0, then a debug-mode check;
/// - relocking: "LOCK" with a zero key.
/// Plain commands have one second to complete and no wait after.
pub proof fn law_operation_scripts()
    ensures
        operation_script(Operation::Dfu) == vdm_stages(
            seq![0x33u8, 0x12, 0x80, 0xac, 0x05, 0x06, 0x01, 0x00, 0x00, 0x00, 0x00, 0x01, 0x80],
        ),
        operation_script(Operation::Reboot) == vdm_stages(
            seq![0x33u8, 0x12, 0x80, 0xac, 0x05, 0x05, 0x01, 0x00, 0x00, 0x00, 0x00, 0x00, 0x80],
        ),
        operation_script(Operation::RebootWait) == vdm_stages(
            seq![0x33u8, 0x12, 0x80, 0xac, 0x05, 0x05, 0x01, 0x00, 0x00, 0x00, 0x00, 0x00, 0x80],
        ).push(
            StageView::AwaitConnection {
                settle: 1_000_000_000,
                timeout: 3_000_000_000,
                poll_wait: 100_000_000,
            },
        ),
        operation_script(Operation::DebugUsb) == vdm_stages(
            seq![0x32u8, 0x12, 0x80, 0xac, 0x05, 0x06, 0x46, 0x82, 0x01],
        ),
        operation_script(Operation::Serial) == vdm_stages(
            seq![0x32u8, 0x12, 0x80, 0xac, 0x05, 0x06, 0x03, 0x84, 0x01],
        ) + seq![
            StageView::ExpectMode(TpsMode::Dbma),
            StageView::Command {
                tag: seq![0x44u8, 0x56u8, 0x45u8, 0x6eu8],
                data: seq![0x06u8, 0x03, 0x84, 0x01],
                timeout: 1_000_000_000,
                delay: 0,
            },
        ],
        operation_script(Operation::Disconnect) == seq![
            StageView::Command {
                tag: seq![0x44u8, 0x49u8, 0x53u8, 0x43u8],
                data: seq![3u8],
                timeout: 1_000_000_000,
                delay: 0,
            },
            StageView::ExpectMode(TpsMode::Dbma),
        ],
        operation_script(Operation::LeaveDebugMode) == seq![
            StageView::Command {
                tag: seq![0x44u8, 0x42u8, 0x4du8, 0x61u8],
                data: seq![0u8],
                timeout: 1_000_000_000,
                delay: 0,
            },
            StageView::ExpectMode(TpsMode::Dbma),
        ],
        operation_script(Operation::Relock) == seq![
            StageView::Command {
                tag: seq![0x4cu8, 0x4fu8, 0x43u8, 0x4bu8],
                data: seq![0u8, 0, 0, 0],
                timeout: 1_000_000_000,
                delay: 0,
            },
        ],
{
    lemma_object_bytes();
    lemma_le3(0x5ac8012, 0x106, 0x80010000);
    lemma_le3(0x5ac8012, 0x105, 0x80000000);
    lemma_le2(0x5ac8012, 0x1824606);
    lemma_le2(0x5ac8012, 0x1840306);
    lemma_le1(0x1840306);
    assert(seq![0x5ac8012u32, 0x1840306u32].subrange(1, 2) =~= seq![0x1840306u32]);
    assert(tag_vdms() =~= seq![0x56u8, 0x44u8, 0x4du8, 0x73u8]);
    assert(tag_dven() =~= seq![0x44u8, 0x56u8, 0x45u8, 0x6eu8]);
    assert(tag_disc() =~= seq![0x44u8, 0x49u8, 0x53u8, 0x43u8]);
    assert(tag_dbma() =~= seq![0x44u8, 0x42u8, 0x4du8, 0x61u8]);
    assert(tag_lock() =~= seq![0x4cu8, 0x4fu8, 0x43u8, 0x4bu8]);
    assert(vdms_data(VdmSopType::SopStar, dfu_vdos()) =~= seq![
        0x33u8, 0x12, 0x80, 0xac, 0x05, 0x06, 0x01, 0x00, 0x00, 0x00, 0x00, 0x01, 0x80,
    ]);
    assert(vdms_data(VdmSopType::SopStar, reboot_vdos()) =~= seq![
        0x33u8, 0x12, 0x80, 0xac, 0x05, 0x05, 0x01, 0x00, 0x00, 0x00, 0x00, 0x00, 0x80,
    ]);
    assert(vdms_data(VdmSopType::SopStar, debugusb_vdos()) =~= seq![
        0x32u8, 0x12, 0x80, 0xac, 0x05, 0x06, 0x46, 0x82, 0x01,
    ]);
    assert(vdms_data(VdmSopType::SopStar, serial_vdos()) =~= seq![
        0x32u8, 0x12, 0x80, 0xac, 0x05, 0x06, 0x03, 0x84, 0x01,
    ]);
    assert(u32s_le_bytes(serial_vdos().subrange(1, 2)) =~= seq![0x06u8, 0x03, 0x84, 0x01]);
    assert(seq![0u8, 0u8, 0u8, 0u8] =~= seq![0u8, 0, 0, 0]);
    assert(operation_script(Operation::Dfu) =~= vdm_stages(
        seq![0x33u8, 0x12, 0x80, 0xac, 0x05, 0x06, 0x01, 0x00, 0x00, 0x00, 0x00, 0x01, 0x80],
    ));
    assert(operation_script(Operation::Reboot) =~= vdm_stages(
        seq![0x33u8, 0x12, 0x80, 0xac, 0x05, 0x05, 0x01, 0x00, 0x00, 0x00, 0x00, 0x00, 0x80],
    ));
    assert(operation_script(Operation::RebootWait) =~= vdm_stages(
        seq![0x33u8, 0x12, 0x80, 0xac, 0x05, 0x05, 0x01, 0x00, 0x00, 0x00, 0x00, 0x00, 0x80],
    ).push(
        StageView::AwaitConnection {
            settle: 1_000_000_000,
            timeout: 3_000_000_000,
            poll_wait: 100_000_000,
        },
    ));
    assert(operation_script(Operation::DebugUsb) =~= vdm_stages(
        seq![0x32u8, 0x12, 0x80, 0xac, 0x05, 0x06, 0x46, 0x82, 0x01],
    ));
    assert(operation_script(Operation::Serial) =~= vdm_stages(
        seq![0x32u8, 0x12, 0x80, 0xac, 0x05, 0x06, 0x03, 0x84, 0x01],
    ) + seq![
        StageView::ExpectMode(TpsMode::Dbma),
        StageView::Command {
            tag: seq![0x44u8, 0x56u8, 0x45u8, 0x6eu8],
            data: seq![0x06u8, 0x03, 0x84, 0x01],
            timeout: 1_000_000_000,
            delay: 0,
        },
    ]);
    assert(operation_script(Operation::Disconnect) =~= seq![
        StageView::Command {
            tag: seq![0x44u8, 0x49u8, 0x53u8, 0x43u8],
            data: seq![3u8],
            timeout: 1_000_000_000,
            delay: 0,
        },
        StageView::ExpectMode(TpsMode::Dbma),
    ]);
    assert(operation_script(Operation::LeaveDebugMode) =~= seq![
        StageView::Command {
            tag: seq![0x44u8, 0x42u8, 0x4du8, 0x61u8],
            data: seq![0u8],
            timeout: 1_000_000_000,
            delay: 0,
        },
        StageView::ExpectMode(TpsMode::Dbma),
    ]);
    assert(operation_script(Operation::Relock) =~= seq![
        StageView::Command {
            tag: seq![0x4cu8, 0x4fu8, 0x43u8, 0x4bu8],
            data: seq![0u8, 0, 0, 0],
            timeout: 1_000_000_000,
            delay: 0,
        },
    ]);
}

/// Opening a controller checks for the application firmware ("APP "),
/// unlocks it with "LOCK" and the key, enters debug mode with "DBMa" and
/// data 1, and checks for debug mode; both commands have one second.
pub proof fn law_open_script(key: Seq<u8>)
    ensures
        new_script(key) == seq![
            StageView::ExpectMode(TpsMode::App),
            StageView::Command {
                tag: seq![0x4cu8, 0x4fu8, 0x43u8, 0x4bu8],
                data: key,
                timeout: 1_000_000_000,
                delay: 0,
            },
            StageView::Command {
                tag: seq![0x44u8, 0x42u8, 0x4du8, 0x61u8],
                data: seq![1u8],
                timeout: 1_000_000_000,
                delay: 0,
            },
            StageView::ExpectMode(TpsMode::Dbma),
        ],
{
    assert(tag_dbma() =~= seq![0x44u8, 0x42u8, 0x4du8, 0x61u8]);
    assert(tag_lock() =~= seq![0x4cu8, 0x4fu8, 0x43u8, 0x4bu8]);
    assert(new_script(key) =~= seq![
        StageView::ExpectMode(TpsMode::App),
        StageView::Command {
            tag: seq![0x4cu8, 0x4fu8, 0x43u8, 0x4bu8],
            data: key,
            timeout: 1_000_000_000,
            delay: 0,
        },
        StageView::Command {
            tag: seq![0x44u8, 0x42u8, 0x4du8, 0x61u8],
            data: seq![1u8],
            timeout: 1_000_000_000,
            delay: 0,
        },
        StageView::ExpectMode(TpsMode::Dbma),
    ]);
}

/// The unlock key holds the UTF-8 bytes of the device code, last first.
pub proof fn law_key_of_code(code: Seq<char>)
    ensures
        key_of_code(code).len() == encode_utf8(code).len(),
        forall|i: int|
            0 <= i < encode_utf8(code).len() ==> #[trigger] key_of_code(code)[i] == encode_utf8(
                code,
            )[encode_utf8(code).len() - 1 - i],
{
}

/// The MODE register names each mode by four ASCII characters: "APP ",
/// "BOOT", "BIST", "DISC", "PTCH", "DBMa"; nothing else names a mode.
pub proof fn law_mode_names(b: Seq<u8>)
    ensures
        mode_of_tag(seq![0x41u8, 0x50, 0x50, 0x20]) == Some(TpsMode::App),
        mode_of_tag(seq![0x42u8, 0x4f, 0x4f, 0x54]) == Some(TpsMode::Boot),
        mode_of_tag(seq![0x42u8, 0x49, 0x53, 0x54]) == Some(TpsMode::Bist),
        mode_of_tag(seq![0x44u8, 0x49, 0x53, 0x43]) == Some(TpsMode::Disc),
        mode_of_tag(seq![0x50u8, 0x54, 0x43, 0x48]) == Some(TpsMode::Ptch),
        mode_of_tag(seq![0x44u8, 0x42, 0x4d, 0x61]) == Some(TpsMode::Dbma),
        mode_of_tag(b) is Some ==> b == seq![0x41u8, 0x50, 0x50, 0x20] || b == seq![
            0x42u8,
            0x4f,
            0x4f,
            0x54,
        ] || b == seq![0x42u8, 0x49, 0x53, 0x54] || b == seq![0x44u8, 0x49, 0x53, 0x43] || b
            == seq![0x50u8, 0x54, 0x43, 0x48] || b == seq![0x44u8, 0x42, 0x4d, 0x61],
{
    assert(seq![0x41u8, 0x50, 0x50, 0x20] =~= seq![0x41u8, 0x50u8, 0x50u8, 0x20u8]);
    assert(seq![0x42u8, 0x4f, 0x4f, 0x54] =~= seq![0x42u8, 0x4fu8, 0x4fu8, 0x54u8]);
    assert(seq![0x42u8, 0x49, 0x53, 0x54] =~= seq![0x42u8, 0x49u8, 0x53u8, 0x54u8]);
    assert(seq![0x44u8, 0x49, 0x53, 0x43] =~= seq![0x44u8, 0x49u8, 0x53u8, 0x43u8]);
    assert(seq![0x50u8, 0x54, 0x43, 0x48] =~= seq![0x50u8, 0x54u8, 0x43u8, 0x48u8]);
    assert(seq![0x44u8, 0x42, 0x4d, 0x61] =~= seq![0x44u8, 0x42u8, 0x4du8, 0x61u8]);
}

/// How each kind of stage begins: a mode check reads the MODE register
/// (0x03, four bytes), a command reads CMD1 (0x08, four bytes), and the wait
/// for the partner first pauses for its settle time; after the last stage
/// the operation ends with success.
pub proof fn law_stage_start(d: DeviceView, i: int)
    ensures
        (0 <= i < d.script.len() && (d.script[i] is ExpectMode) ==> (d.enter(i).1
            == (ActionView::Read { reg: 0x03, len: 4 }) && (d.enter(i).0.phase is ModeRead))),
        (0 <= i < d.script.len() && (d.script[i] is Command) ==> (d.enter(i).1
            == (ActionView::Read { reg: 0x08, len: 4 }) && (d.enter(i).0.phase is BusyCheck))),
        (0 <= i < d.script.len() && (d.script[i] is AwaitConnection) ==> (d.enter(i).1
            == (ActionView::Sleep { nanos: d.script[i]->AwaitConnection_settle }))),
        (i == d.script.len() ==> (d.enter(i).1 == ActionView::Done(Ok(())) && (d.enter(
            i,
        ).0.phase is Idle))),
{
}

} // verus!
