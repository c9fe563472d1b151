//! The panel's power and update state machine.
use vstd::prelude::*;
use crate::bitplane::{encode_four_level, four_level_planes, lemma_packs_unique};
use crate::bus::{actions_of, BusAction, BusOp, Level, OutputLine};
use crate::command::{
    blocking_opcode, frame_actions, frames_actions, frames_of, push_command, push_commands,
    Command, CommandFrame,
};

verus! {

/// Width of the panel in pixels.
pub const DISPLAY_WIDTH: usize = 280;

/// Height of the panel in pixels.
pub const DISPLAY_HEIGHT: usize = 480;

/// Bytes in one RAM plane: one bit per pixel.
pub const PLANE_BYTES: usize = DISPLAY_WIDTH / 8 * DISPLAY_HEIGHT;

/// Gray levels that the panel shows.
pub const LEVELS: u8 = 4;

/// Update sequence that selects the four-level waveform.
pub const UPDATE_MODE: u8 = 0xCF;

/// Milliseconds to wait after the soft start.
pub const SOFT_START_DELAY_MS: u64 = 300;

/// Where the panel is in its life cycle.
#[derive(Clone, Copy, Debug, PartialEq, Eq, Structural)]
pub enum PanelState {
    /// Not initialised, or initialisation did not complete.
    Off,
    /// Initialised and able to show frames.
    Ready,
    /// In deep sleep; it must be initialised again before use.
    Asleep,
}

/// Why the driver refused an operation.
#[derive(Clone, Copy, Debug, PartialEq, Eq, Structural)]
pub enum PanelError {
    /// The panel has not been initialised since it was created, put to sleep
    /// or left in an unknown state.
    NotReady,
    /// A buffer does not have the length that the panel's geometry asks for.
    WrongLength,
}

/// A command frame from its opcode and payload.
pub open spec fn frame(opcode: u8, payload: Seq<u8>) -> CommandFrame {
    CommandFrame { opcode, payload, blocking: blocking_opcode(opcode) }
}

/// The waveform table of the four-level mode.
pub open spec fn four_level_lut() -> Seq<u8> {
    seq![
        0x2Au8, 0x06, 0x15, 0x00, 0x00, 0x00, 0x00, 0x00, 0x00, 0x00,
        0x28, 0x06, 0x14, 0x00, 0x00, 0x00, 0x00, 0x00, 0x00, 0x00,
        0x20, 0x06, 0x10, 0x00, 0x00, 0x00, 0x00, 0x00, 0x00, 0x00,
        0x14, 0x06, 0x28, 0x00, 0x00, 0x00, 0x00, 0x00, 0x00, 0x00,
        0x00, 0x00, 0x00, 0x00, 0x00, 0x00, 0x00, 0x00, 0x00, 0x00,
        0x00, 0x02, 0x02, 0x0A, 0x00, 0x00, 0x00, 0x08, 0x08, 0x02,
        0x00, 0x02, 0x02, 0x0A, 0x00, 0x00, 0x00, 0x00, 0x00, 0x00,
        0x00, 0x00, 0x00, 0x00, 0x00, 0x00, 0x00, 0x00, 0x00, 0x00,
        0x00, 0x00, 0x00, 0x00, 0x00, 0x00, 0x00, 0x00, 0x00, 0x00,
        0x00, 0x00, 0x00, 0x00, 0x00, 0x00, 0x00, 0x00, 0x00, 0x00,
        0x22, 0x22, 0x22, 0x22, 0x22,
    ]
}

/// The reset pulse: high, low, high, with a dwell after each level.
pub open spec fn reset_actions() -> Seq<BusAction> {
    seq![
        BusAction::SetLevel(OutputLine::Reset, Level::High),
        BusAction::Delay(30),
        BusAction::SetLevel(OutputLine::Reset, Level::Low),
        BusAction::Delay(3),
        BusAction::SetLevel(OutputLine::Reset, Level::High),
        BusAction::Delay(30),
    ]
}

/// The configuration commands sent after the soft start.
pub open spec fn config_frames() -> Seq<CommandFrame> {
    seq![
        frame(0x46, seq![0xF7u8]),
        frame(0x47, seq![0xF7u8]),
        frame(0x01, seq![0xDFu8, 0x01, 0x00]),
        frame(0x03, seq![0x00u8]),
        frame(0x04, seq![0x41u8, 0xA8, 0x32]),
        frame(0x11, seq![0x03u8]),
        frame(0x3C, seq![0x00u8]),
        frame(0x0C, seq![0xAEu8, 0xC7, 0xC3, 0xC0, 0xC0]),
        frame(0x18, seq![0x80u8]),
        frame(0x2C, seq![0x44u8]),
        frame(0x37, seq![0x00u8, 0x00, 0x00, 0x00, 0x00, 0x00, 0x00, 0x00, 0x00, 0x00]),
        frame(0x44, seq![0x00u8, 0x00, 0x17, 0x01]),
        frame(0x45, seq![0x00u8, 0x00, 0xDF, 0x01]),
        frame(0x22, seq![UPDATE_MODE]),
    ]
}

/// Everything that initialisation puts on the bus: the reset pulse, the soft
/// start and its settling delay, then the configuration commands.
pub open spec fn init_actions() -> Seq<BusAction> {
    reset_actions() + frame_actions(frame(0x12, Seq::empty())) + seq![
        BusAction::Delay(SOFT_START_DELAY_MS as nat),
    ] + frames_actions(config_frames())
}

/// The commands that show a frame: each plane goes to its RAM register after
/// the write address is set back to the origin, then the waveform table is
/// loaded and the update is started.
pub open spec fn draw_frames(plane1: Seq<u8>, plane2: Seq<u8>) -> Seq<CommandFrame> {
    seq![
        frame(0x49, seq![0x00u8]),
        frame(0x4E, seq![0x00u8, 0x00]),
        frame(0x4F, seq![0x00u8, 0x00]),
        frame(0x24, plane1),
        frame(0x4E, seq![0x00u8, 0x00]),
        frame(0x4F, seq![0x00u8, 0x00]),
        frame(0x26, plane2),
        frame(0x32, four_level_lut()),
        frame(0x22, seq![UPDATE_MODE]),
        frame(0x20, Seq::empty()),
    ]
}

/// The commands that put the panel to sleep.
pub open spec fn sleep_frames() -> Seq<CommandFrame> {
    seq![frame(0x50, seq![0xF7u8]), frame(0x02, Seq::empty()), frame(0x07, seq![0xA5u8])]
}

/// Everything that putting the panel to sleep puts on the bus: the sleep
/// commands, then both output lines driven low.
pub open spec fn sleep_actions() -> Seq<BusAction> {
    frames_actions(sleep_frames()) + seq![
        BusAction::SetLevel(OutputLine::DataCommand, Level::Low),
        BusAction::SetLevel(OutputLine::Reset, Level::Low),
    ]
}

/// A plane with every bit set.
pub open spec fn full_plane() -> Seq<u8> {
    Seq::new(PLANE_BYTES as nat, |i: int| 0xFFu8)
}

/// Initialisation starts with exactly three transitions of the reset line,
/// high, low, high, held for 30 ms, 3 ms and 30 ms, before anything else
/// reaches the bus.
pub proof fn lemma_init_begins_with_reset()
    ensures
        init_actions().take(6) == seq![
            BusAction::SetLevel(OutputLine::Reset, Level::High),
            BusAction::Delay(30),
            BusAction::SetLevel(OutputLine::Reset, Level::Low),
            BusAction::Delay(3),
            BusAction::SetLevel(OutputLine::Reset, Level::High),
            BusAction::Delay(30),
        ],
        forall|i: int| 6 <= i < init_actions().len() ==> !drives_reset(#[trigger] init_actions()[i]),
{
    assert(init_actions().take(6) =~= reset_actions());
    let soft_start = frame_actions(frame(0x12, Seq::empty()));
    let settle = seq![BusAction::Delay(SOFT_START_DELAY_MS as nat)];
    lemma_frames_keep_reset(config_frames());
    assert forall|i: int| 6 <= i < init_actions().len() implies !drives_reset(
        #[trigger] init_actions()[i],
    ) by {
        let j = i - 6;
        if j < soft_start.len() {
            assert(init_actions()[i] == soft_start[j]);
        } else if j < soft_start.len() + 1 {
            assert(init_actions()[i] == settle[j - soft_start.len()]);
        } else {
            assert(init_actions()[i] == frames_actions(config_frames())[j - soft_start.len() - 1]);
        }
    }
}

/// Whether an action drives the reset line.
pub open spec fn drives_reset(action: BusAction) -> bool {
    action is SetLevel && action->SetLevel_0 == OutputLine::Reset
}

proof fn lemma_frames_keep_reset(frames: Seq<CommandFrame>)
    ensures
        forall|i: int|
            0 <= i < frames_actions(frames).len() ==> !drives_reset(#[trigger] frames_actions(frames)[i]),
    decreases frames.len(),
{
    if frames.len() > 0 {
        lemma_frames_keep_reset(frames.drop_last());
        let head = frames_actions(frames.drop_last());
        let last = frame_actions(frames.last());
        assert forall|i: int| 0 <= i < frames_actions(frames).len() implies !drives_reset(
            #[trigger] frames_actions(frames)[i],
        ) by {
            if i >= head.len() {
                assert(frames_actions(frames)[i] == last[i - head.len()]);
            } else {
                assert(frames_actions(frames)[i] == head[i]);
            }
        }
    }
}

/// Order of the commands that show a frame: the RAM write pointer is reset
/// first, each register write comes right after the write address is set
/// back to the origin, and the waveform table is written after both planes
/// and right before the update sequence and the blocking master activation,
/// which come last; on the bus the frame ends by waiting for the panel.
pub proof fn lemma_draw_order(plane1: Seq<u8>, plane2: Seq<u8>)
    ensures
        ({
            let f = draw_frames(plane1, plane2);
            let n = f.len() as int;
            &&& f[0] == frame(0x49, seq![0x00u8])
            &&& forall|i: int|
                0 <= i < n && (#[trigger] f[i].opcode == 0x24 || f[i].opcode == 0x26) ==> 2 <= i
                    < n - 3 && f[i - 2] == frame(0x4E, seq![0x00u8, 0x00]) && f[i - 1] == frame(
                    0x4F,
                    seq![0x00u8, 0x00],
                )
            &&& f[n - 3] == frame(0x32, four_level_lut())
            &&& f[n - 2] == frame(0x22, seq![UPDATE_MODE])
            &&& f[n - 1] == frame(0x20, Seq::empty()) && f[n - 1].blocking
            &&& frames_actions(f).last() == BusAction::AwaitReady
        }),
{
    let f = draw_frames(plane1, plane2);
    assert(frames_actions(f) == frames_actions(f.drop_last()) + frame_actions(f.last()));
    assert(frame_actions(f.last()).last() == BusAction::AwaitReady);
}

/// The driver of one panel. It owns no hardware: each operation returns the
/// bus operations that carry it out, and the caller hands them to the transport.
pub struct Display {
    state: PanelState,
}

impl View for Display {
    type V = PanelState;

    closed spec fn view(&self) -> PanelState {
        self.state
    }
}

fn look_up_table() -> (table: [u8; 105])
    ensures
        table@ == four_level_lut(),
{
    let table: [u8; 105] = [
        0x2A, 0x06, 0x15, 0x00, 0x00, 0x00, 0x00, 0x00, 0x00, 0x00,
        0x28, 0x06, 0x14, 0x00, 0x00, 0x00, 0x00, 0x00, 0x00, 0x00,
        0x20, 0x06, 0x10, 0x00, 0x00, 0x00, 0x00, 0x00, 0x00, 0x00,
        0x14, 0x06, 0x28, 0x00, 0x00, 0x00, 0x00, 0x00, 0x00, 0x00,
        0x00, 0x00, 0x00, 0x00, 0x00, 0x00, 0x00, 0x00, 0x00, 0x00,
        0x00, 0x02, 0x02, 0x0A, 0x00, 0x00, 0x00, 0x08, 0x08, 0x02,
        0x00, 0x02, 0x02, 0x0A, 0x00, 0x00, 0x00, 0x00, 0x00, 0x00,
        0x00, 0x00, 0x00, 0x00, 0x00, 0x00, 0x00, 0x00, 0x00, 0x00,
        0x00, 0x00, 0x00, 0x00, 0x00, 0x00, 0x00, 0x00, 0x00, 0x00,
        0x00, 0x00, 0x00, 0x00, 0x00, 0x00, 0x00, 0x00, 0x00, 0x00,
        0x22, 0x22, 0x22, 0x22, 0x22,
    ];
    assert(table@ =~= four_level_lut());
    table
}

/// Appends the reset pulse to `ops`.
fn reset(ops: &mut Vec<BusOp>)
    ensures
        actions_of(final(ops)@) == actions_of(old(ops)@) + reset_actions(),
{
    ops.push(BusOp::SetLevel(OutputLine::Reset, Level::High));
    ops.push(BusOp::Delay(30));
    ops.push(BusOp::SetLevel(OutputLine::Reset, Level::Low));
    ops.push(BusOp::Delay(3));
    ops.push(BusOp::SetLevel(OutputLine::Reset, Level::High));
    ops.push(BusOp::Delay(30));
    assert(actions_of(ops@) =~= actions_of(old(ops)@) + reset_actions());
}

/// Appends the commands that show `register1` and `register2`.
fn push_frame(ops: &mut Vec<BusOp>, register1: &Vec<u8>, register2: &Vec<u8>)
    ensures
        actions_of(final(ops)@) == actions_of(old(ops)@) + frames_actions(
            draw_frames(register1@, register2@),
        ),
{
    let commands = vec![
        Command::Unknown0x49,
        Command::Unknown0x4E,
        Command::Unknown0x4F,
        Command::WriteRegister1(register1.clone()),
        Command::Unknown0x4E,
        Command::Unknown0x4F,
        Command::WriteRegister2(register2.clone()),
        Command::WriteLookUpTableRegister(look_up_table()),
        Command::UpdateSequence(UPDATE_MODE),
        Command::Display,
    ];
    assert(frames_of(commands@) =~= draw_frames(register1@, register2@));
    push_commands(ops, &commands);
}

impl Display {
    /// A driver for a panel that is not initialised yet.
    pub fn new() -> (display: Display)
        ensures
            display@ == PanelState::Off,
    {
        Display { state: PanelState::Off }
    }

    /// The state the panel is in.
    pub fn state(&self) -> (state: PanelState)
        ensures
            state == self@,
    {
        self.state
    }

    /// Initialises the panel from any state: pulses the reset line, then
    /// sends the soft start and the configuration commands.
    pub fn init(&mut self) -> (ops: Vec<BusOp>)
        ensures
            actions_of(ops@) == init_actions(),
            final(self)@ == PanelState::Ready,
    {
        let mut ops: Vec<BusOp> = Vec::new();
        reset(&mut ops);
        push_command(&mut ops, &Command::Unknown0x12);
        let ghost started = actions_of(ops@);
        ops.push(BusOp::Delay(SOFT_START_DELAY_MS));
        assert(actions_of(ops@) =~= started + seq![BusAction::Delay(SOFT_START_DELAY_MS as nat)]);
        let commands = vec![
            Command::Unknown0x46,
            Command::Unknown0x47,
            Command::SetGateNumber,
            Command::SetGateVoltage,
            Command::SetSourceVoltage,
            Command::SetDataEntrySequence,
            Command::SetBorder,
            Command::SetBoosterStrength,
            Command::SetInternalSensorOn,
            Command::SetVComValue,
            Command::SetDisplayOption([0x00, 0x00, 0x00, 0x00, 0x00, 0x00, 0x00, 0x00, 0x00, 0x00]),
            Command::SetXRamPosition([0x00, 0x00, 0x17, 0x01]),
            Command::SetYRamPosition([0x00, 0x00, 0xDF, 0x01]),
            Command::UpdateSequence(UPDATE_MODE),
        ];
        assert(frames_of(commands@) =~= config_frames());
        push_commands(&mut ops, &commands);
        assert(Seq::<BusAction>::empty() + reset_actions() =~= reset_actions());
        self.state = PanelState::Ready;
        ops
    }

    /// Shows a frame given as the two packed planes for RAM register 1 and
    /// RAM register 2.
    pub fn draw(&mut self, register1: &Vec<u8>, register2: &Vec<u8>) -> (r: Result<
        Vec<BusOp>,
        PanelError,
    >)
        ensures
            final(self)@ == old(self)@,
            old(self)@ != PanelState::Ready ==> r == Err::<Vec<BusOp>, PanelError>(
                PanelError::NotReady,
            ),
            old(self)@ == PanelState::Ready && (register1@.len() != PLANE_BYTES
                || register2@.len() != PLANE_BYTES) ==> r == Err::<Vec<BusOp>, PanelError>(
                PanelError::WrongLength,
            ),
            old(self)@ == PanelState::Ready && register1@.len() == PLANE_BYTES
                && register2@.len() == PLANE_BYTES ==> r is Ok && actions_of(r->Ok_0@)
                == frames_actions(draw_frames(register1@, register2@)),
    {
        if self.state != PanelState::Ready {
            return Err(PanelError::NotReady);
        }
        if register1.len() != PLANE_BYTES || register2.len() != PLANE_BYTES {
            return Err(PanelError::WrongLength);
        }
        let mut ops: Vec<BusOp> = Vec::new();
        push_frame(&mut ops, register1, register2);
        assert(Seq::<BusAction>::empty() + frames_actions(draw_frames(register1@, register2@))
            =~= frames_actions(draw_frames(register1@, register2@)));
        Ok(ops)
    }

    /// Shows a frame with every bit of both planes set.
    pub fn clear(&mut self) -> (r: Result<Vec<BusOp>, PanelError>)
        ensures
            final(self)@ == old(self)@,
            old(self)@ != PanelState::Ready ==> r == Err::<Vec<BusOp>, PanelError>(
                PanelError::NotReady,
            ),
            old(self)@ == PanelState::Ready ==> r is Ok && actions_of(r->Ok_0@) == frames_actions(
                draw_frames(full_plane(), full_plane()),
            ),
    {
        let plane: Vec<u8> = vec![0xFFu8; PLANE_BYTES];
        assert(plane@ =~= full_plane());
        self.draw(&plane, &plane)
    }

    /// Shows a frame given as one gray level in `0..LEVELS` per pixel,
    /// row-major, `DISPLAY_WIDTH` pixels to a row.
    pub fn render(&mut self, pixels: &Vec<u8>) -> (r: Result<Vec<BusOp>, PanelError>)
        ensures
            final(self)@ == old(self)@,
            old(self)@ != PanelState::Ready ==> r == Err::<Vec<BusOp>, PanelError>(
                PanelError::NotReady,
            ),
            old(self)@ == PanelState::Ready && pixels@.len() != DISPLAY_WIDTH * DISPLAY_HEIGHT
                ==> r == Err::<Vec<BusOp>, PanelError>(PanelError::WrongLength),
            old(self)@ == PanelState::Ready && pixels@.len() == DISPLAY_WIDTH * DISPLAY_HEIGHT
                ==> r is Ok && forall|plane1: Seq<u8>, plane2: Seq<u8>|
                #[trigger] four_level_planes(pixels@, plane1, plane2) ==> actions_of(r->Ok_0@)
                == frames_actions(draw_frames(plane1, plane2)),
    {
        if self.state != PanelState::Ready {
            return Err(PanelError::NotReady);
        }
        if pixels.len() != DISPLAY_WIDTH * DISPLAY_HEIGHT {
            return Err(PanelError::WrongLength);
        }
        let (register1, register2) = encode_four_level(pixels);
        let r = self.draw(&register1, &register2);
        assert forall|plane1: Seq<u8>, plane2: Seq<u8>|
            #[trigger] four_level_planes(pixels@, plane1, plane2) implies actions_of(r->Ok_0@)
            == frames_actions(draw_frames(plane1, plane2)) by {
            lemma_packs_unique(plane1, register1@, pixels@, 1, true);
            lemma_packs_unique(plane2, register2@, pixels@, 2, true);
        }
        r
    }

    /// Puts the panel into deep sleep and drives both output lines low.
    pub fn sleep(&mut self) -> (r: Result<Vec<BusOp>, PanelError>)
        ensures
            old(self)@ != PanelState::Ready ==> r == Err::<Vec<BusOp>, PanelError>(
                PanelError::NotReady,
            ) && final(self)@ == old(self)@,
            old(self)@ == PanelState::Ready ==> r is Ok && actions_of(r->Ok_0@) == sleep_actions()
                && final(self)@ == PanelState::Asleep,
    {
        if self.state != PanelState::Ready {
            return Err(PanelError::NotReady);
        }
        let mut ops: Vec<BusOp> = Vec::new();
        let commands = vec![Command::Unknown0x50, Command::PowerOff, Command::Sleep];
        assert(frames_of(commands@) =~= sleep_frames());
        push_commands(&mut ops, &commands);
        ops.push(BusOp::SetLevel(OutputLine::DataCommand, Level::Low));
        ops.push(BusOp::SetLevel(OutputLine::Reset, Level::Low));
        assert(actions_of(ops@) =~= sleep_actions());
        self.state = PanelState::Asleep;
        Ok(ops)
    }

    /// Records that the transport failed while carrying out an operation: the
    /// panel's state is unknown until it is initialised again.
    pub fn transport_failed(&mut self)
        ensures
            final(self)@ == PanelState::Off,
    {
        self.state = PanelState::Off;
    }
}

} // verus!
