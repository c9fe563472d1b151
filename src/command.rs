//! The closed set of panel controller commands and their encoding on the bus.
use vstd::prelude::*;
use vstd::slice::{slice_subrange, slice_to_vec};
use crate::bus::{
    actions_of, burst, burst_count, data_bursts, BusAction, BusOp, Level, OutputLine, MAX_BURST,
};

verus! {

/// What a command puts on the bus: its opcode, its payload, and whether the
/// panel may assert its busy line after accepting it.
pub struct CommandFrame {
    pub opcode: u8,
    pub payload: Seq<u8>,
    pub blocking: bool,
}

/// A controller command; each variant carries exactly the payload its opcode takes.
#[derive(Clone, Debug, PartialEq, Eq)]
pub enum Command {
    /// 0x01: gate count (panel height minus one, little-endian, and scan flag).
    SetGateNumber,
    /// 0x02: power off.
    PowerOff,
    /// 0x03: gate driving voltage.
    SetGateVoltage,
    /// 0x04: source driving voltage.
    SetSourceVoltage,
    /// 0x07: deep sleep.
    Sleep,
    /// 0x0C: booster strength.
    SetBoosterStrength,
    /// 0x11: data entry sequence (scan direction).
    SetDataEntrySequence,
    /// 0x12: soft start (undocumented, required).
    Unknown0x12,
    /// 0x18: enable the internal temperature sensor.
    SetInternalSensorOn,
    /// 0x20: master activation, which runs the update sequence.
    Display,
    /// 0x22: display update control 2 (selects the waveform mode).
    UpdateSequence(u8),
    /// 0x24: write RAM register 1.
    WriteRegister1(Vec<u8>),
    /// 0x26: write RAM register 2.
    WriteRegister2(Vec<u8>),
    /// 0x2C: VCOM value.
    SetVComValue,
    /// 0x32: write the waveform look-up table.
    WriteLookUpTableRegister([u8; 105]),
    /// 0x37: display option bits.
    SetDisplayOption([u8; 10]),
    /// 0x3C: border waveform.
    SetBorder,
    /// 0x44: X start/end of the RAM window.
    SetXRamPosition([u8; 4]),
    /// 0x45: Y start/end of the RAM window.
    SetYRamPosition([u8; 4]),
    /// 0x46: undocumented initialisation step.
    Unknown0x46,
    /// 0x47: undocumented initialisation step.
    Unknown0x47,
    /// 0x49: RAM write pointer reset.
    Unknown0x49,
    /// 0x4E: RAM X write address.
    Unknown0x4E,
    /// 0x4F: RAM Y write address.
    Unknown0x4F,
    /// 0x50: VCOM and border setting before sleep.
    Unknown0x50,
}

/// Opcodes after which the panel may be busy.
pub open spec fn blocking_opcode(opcode: u8) -> bool {
    opcode == 0x20 || opcode == 0x46 || opcode == 0x47
}

impl View for Command {
    type V = CommandFrame;

    open spec fn view(&self) -> CommandFrame {
        let (opcode, payload) = match self {
            Command::SetGateNumber => (0x01u8, seq![0xDFu8, 0x01, 0x00]),
            Command::PowerOff => (0x02u8, Seq::<u8>::empty()),
            Command::SetGateVoltage => (0x03u8, seq![0x00u8]),
            Command::SetSourceVoltage => (0x04u8, seq![0x41u8, 0xA8, 0x32]),
            Command::Sleep => (0x07u8, seq![0xA5u8]),
            Command::SetBoosterStrength => (0x0Cu8, seq![0xAEu8, 0xC7, 0xC3, 0xC0, 0xC0]),
            Command::SetDataEntrySequence => (0x11u8, seq![0x03u8]),
            Command::Unknown0x12 => (0x12u8, Seq::<u8>::empty()),
            Command::SetInternalSensorOn => (0x18u8, seq![0x80u8]),
            Command::Display => (0x20u8, Seq::<u8>::empty()),
            Command::UpdateSequence(mode) => (0x22u8, seq![*mode]),
            Command::WriteRegister1(data) => (0x24u8, data@),
            Command::WriteRegister2(data) => (0x26u8, data@),
            Command::SetVComValue => (0x2Cu8, seq![0x44u8]),
            Command::WriteLookUpTableRegister(table) => (0x32u8, table@),
            Command::SetDisplayOption(bits) => (0x37u8, bits@),
            Command::SetBorder => (0x3Cu8, seq![0x00u8]),
            Command::SetXRamPosition(window) => (0x44u8, window@),
            Command::SetYRamPosition(window) => (0x45u8, window@),
            Command::Unknown0x46 => (0x46u8, seq![0xF7u8]),
            Command::Unknown0x47 => (0x47u8, seq![0xF7u8]),
            Command::Unknown0x49 => (0x49u8, seq![0x00u8]),
            Command::Unknown0x4E => (0x4Eu8, seq![0x00u8, 0x00]),
            Command::Unknown0x4F => (0x4Fu8, seq![0x00u8, 0x00]),
            Command::Unknown0x50 => (0x50u8, seq![0xF7u8]),
        };
        CommandFrame { opcode, payload, blocking: blocking_opcode(opcode) }
    }
}

/// The bus operations that issue one command: the opcode with the
/// data/command line low, then, for a non-empty payload, the line high and
/// the payload in bursts, then for a blocking command a wait for the panel.
pub open spec fn frame_actions(frame: CommandFrame) -> Seq<BusAction> {
    let head = seq![
        BusAction::SetLevel(OutputLine::DataCommand, Level::Low),
        BusAction::WriteCommand(frame.opcode),
    ];
    let data = if frame.payload.len() == 0 {
        Seq::<BusAction>::empty()
    } else {
        seq![BusAction::SetLevel(OutputLine::DataCommand, Level::High)] + data_bursts(frame.payload)
    };
    let tail = if frame.blocking {
        seq![BusAction::AwaitReady]
    } else {
        Seq::<BusAction>::empty()
    };
    head + data + tail
}

/// The bus operations that issue a sequence of commands, one after the other.
pub open spec fn frames_actions(frames: Seq<CommandFrame>) -> Seq<BusAction>
    decreases frames.len(),
{
    if frames.len() == 0 {
        Seq::empty()
    } else {
        frames_actions(frames.drop_last()) + frame_actions(frames.last())
    }
}

/// The models of a sequence of commands.
pub open spec fn frames_of(commands: Seq<Command>) -> Seq<CommandFrame> {
    commands.map_values(|c: Command| c@)
}

impl Command {
    /// The opcode byte and the payload bytes of the command.
    pub fn get_bytes(&self) -> (r: (u8, Vec<u8>))
        ensures
            r.0 == self@.opcode,
            r.1@ == self@.payload,
    {
        match self {
            Command::SetGateNumber => (0x01, vec![0xDF, 0x01, 0x00]),
            Command::PowerOff => (0x02, Vec::new()),
            Command::SetGateVoltage => (0x03, vec![0x00]),
            Command::SetSourceVoltage => (0x04, vec![0x41, 0xA8, 0x32]),
            Command::Sleep => (0x07, vec![0xA5]),
            Command::SetBoosterStrength => (0x0C, vec![0xAE, 0xC7, 0xC3, 0xC0, 0xC0]),
            Command::SetDataEntrySequence => (0x11, vec![0x03]),
            Command::Unknown0x12 => (0x12, Vec::new()),
            Command::SetInternalSensorOn => (0x18, vec![0x80]),
            Command::Display => (0x20, Vec::new()),
            Command::UpdateSequence(mode) => (0x22, vec![*mode]),
            Command::WriteRegister1(data) => (0x24, data.clone()),
            Command::WriteRegister2(data) => (0x26, data.clone()),
            Command::SetVComValue => (0x2C, vec![0x44]),
            Command::WriteLookUpTableRegister(table) => (0x32, slice_to_vec(table.as_slice())),
            Command::SetDisplayOption(bits) => (0x37, slice_to_vec(bits.as_slice())),
            Command::SetBorder => (0x3C, vec![0x00]),
            Command::SetXRamPosition(window) => (0x44, slice_to_vec(window.as_slice())),
            Command::SetYRamPosition(window) => (0x45, slice_to_vec(window.as_slice())),
            Command::Unknown0x46 => (0x46, vec![0xF7]),
            Command::Unknown0x47 => (0x47, vec![0xF7]),
            Command::Unknown0x49 => (0x49, vec![0x00]),
            Command::Unknown0x4E => (0x4E, vec![0x00, 0x00]),
            Command::Unknown0x4F => (0x4F, vec![0x00, 0x00]),
            Command::Unknown0x50 => (0x50, vec![0xF7]),
        }
    }

    /// Whether the caller must wait for the busy line after issuing the command.
    pub fn is_blocking(&self) -> (r: bool)
        ensures
            r == self@.blocking,
    {
        match self {
            Command::Unknown0x46 | Command::Unknown0x47 | Command::Display => true,
            _ => false,
        }
    }
}

/// Appends to `ops` the bus operations that issue `command`.
pub fn push_command(ops: &mut Vec<BusOp>, command: &Command)
    ensures
        actions_of(final(ops)@) == actions_of(old(ops)@) + frame_actions(command@),
{
    let (opcode, payload) = command.get_bytes();
    let ghost start = actions_of(ops@);
    ops.push(BusOp::SetLevel(OutputLine::DataCommand, Level::Low));
    ops.push(BusOp::WriteCommand(opcode));
    let ghost head = seq![
        BusAction::SetLevel(OutputLine::DataCommand, Level::Low),
        BusAction::WriteCommand(opcode),
    ];
    assert(actions_of(ops@) =~= start + head);
    let ghost mid = actions_of(ops@);
    if payload.len() > 0 {
        ops.push(BusOp::SetLevel(OutputLine::DataCommand, Level::High));
        let ghost lead = actions_of(ops@);
        assert(lead =~= mid + seq![BusAction::SetLevel(OutputLine::DataCommand, Level::High)]);
        let len = payload.len();
        let mut pos: usize = 0;
        let mut k: usize = 0;
        while pos < len
            invariant
                len == payload@.len(),
                len > 0,
                pos <= len,
                pos < len ==> pos == k * MAX_BURST && k < burst_count(len as nat),
                pos == len ==> k == burst_count(len as nat),
                actions_of(ops@) =~= lead + data_bursts(payload@).take(k as int),
            decreases len - pos,
        {
            let end = if len - pos > MAX_BURST { pos + MAX_BURST } else { len };
            let piece = slice_to_vec(slice_subrange(payload.as_slice(), pos, end));
            let ghost before = actions_of(ops@);
            ops.push(BusOp::WriteData(piece));
            assert(piece@ == burst(payload@, k as int));
            assert(data_bursts(payload@).take(k + 1) =~= data_bursts(payload@).take(k as int).push(
                BusAction::WriteData(burst(payload@, k as int)),
            ));
            assert(actions_of(ops@) =~= before.push(BusAction::WriteData(piece@)));
            pos = end;
            k = k + 1;
        }
        assert(data_bursts(payload@).take(k as int) =~= data_bursts(payload@));
    }
    let ghost after_data = actions_of(ops@);
    if command.is_blocking() {
        ops.push(BusOp::AwaitReady);
        assert(actions_of(ops@) =~= after_data.push(BusAction::AwaitReady));
    }
    assert(actions_of(ops@) =~= actions_of(old(ops)@) + frame_actions(command@));
}

/// Appends to `ops` the bus operations that issue each of `commands` in turn.
pub fn push_commands(ops: &mut Vec<BusOp>, commands: &Vec<Command>)
    ensures
        actions_of(final(ops)@) == actions_of(old(ops)@) + frames_actions(frames_of(commands@)),
{
    let mut i: usize = 0;
    while i < commands.len()
        invariant
            i <= commands@.len(),
            actions_of(ops@) == actions_of(old(ops)@) + frames_actions(
                frames_of(commands@).take(i as int),
            ),
        decreases commands@.len() - i,
    {
        push_command(ops, &commands[i]);
        let ghost frames = frames_of(commands@).take(i + 1);
        assert(frames.drop_last() =~= frames_of(commands@).take(i as int));
        assert(frames.last() == commands@[i as int]@);
        assert(actions_of(ops@) =~= actions_of(old(ops)@) + frames_actions(frames));
        i = i + 1;
    }
    assert(frames_of(commands@).take(i as int) =~= frames_of(commands@));
}

/// Encoding depends on nothing but the opcode and the payload: two commands
/// with the same opcode and the same payload put the same operations on the bus.
pub proof fn lemma_encoding_deterministic(a: Command, b: Command)
    requires
        a@.opcode == b@.opcode,
        a@.payload == b@.payload,
    ensures
        frame_actions(a@) == frame_actions(b@),
{
}

} // verus!
