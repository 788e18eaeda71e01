use vstd::prelude::*;
use crate::color::{TriColor, DEFAULT_BACKGROUND_COLOR};
use crate::command::Command;
use crate::constants::{lut_bytes, lut_tables, RefreshLut};
use crate::epd4in2b::{HEIGHT, WIDTH};
use crate::graphics::ConfigurationError;
use crate::interface::{emit, trace, BusOp, Op};

verus! {

/// The busy input of this controller reads low while it works.
pub const IS_BUSY_LOW: bool = true;

/// Power state of the panel.
#[derive(Clone, Copy, Debug, PartialEq, Eq, Structural)]
pub enum PanelState {
    Ready,
    Sleeping,
}

/// Mathematical model of the driver.
pub struct DriverView {
    pub color: TriColor,
    pub refresh: RefreshLut,
    pub state: PanelState,
}

impl DriverView {
    /// After initialisation (or wake-up): ready, colour and waveform kept.
    pub open spec fn initialized(self) -> DriverView {
        DriverView { state: PanelState::Ready, ..self }
    }

    /// After the sleep sequence.
    pub open spec fn asleep(self) -> DriverView {
        DriverView { state: PanelState::Sleeping, ..self }
    }
}

pub open spec fn cmd(c: Command) -> Op {
    Op::Command(c.addr())
}

pub open spec fn byte(b: u8) -> Op {
    Op::Data(seq![b])
}

pub open spec fn wait() -> Op {
    Op::WaitIdle(IS_BUSY_LOW)
}

pub open spec fn cmd_data(c: Command, d: Seq<u8>) -> Seq<Op> {
    seq![cmd(c), Op::Data(d)]
}

/// Bytes in one full plane of the panel.
pub open spec fn plane_bytes() -> u32 {
    (WIDTH / 8 * HEIGHT) as u32
}

/// The resolution command with width and height, high byte first.
pub open spec fn resolution_trace() -> Seq<Op> {
    seq![
        cmd(Command::ResolutionSetting),
        byte((WIDTH >> 8) as u8),
        byte(WIDTH as u8),
        byte((HEIGHT >> 8) as u8),
        byte(HEIGHT as u8),
    ]
}

/// Waiting for idle, then the five waveform tables of `mode`.
pub open spec fn lut_trace(mode: RefreshLut) -> Seq<Op> {
    let t = lut_tables(mode);
    seq![wait()] + cmd_data(t[0].0, t[0].1) + cmd_data(t[1].0, t[1].1) + cmd_data(t[2].0, t[2].1)
        + cmd_data(t[3].0, t[3].1) + cmd_data(t[4].0, t[4].1)
}

/// Reset, power and panel set-up, resolution, waveform tables, power on.
pub open spec fn init_trace(mode: RefreshLut) -> Seq<Op> {
    seq![Op::Reset(10_000, 10_000)] + cmd_data(Command::PowerSetting, seq![0x03u8, 0x00, 0x2b, 0x2b, 0xff])
        + cmd_data(Command::BoosterSoftStart, seq![0x17u8, 0x17, 0x17]) + cmd_data(
        Command::PanelSetting,
        seq![0x0Fu8],
    ) + cmd_data(Command::PllControl, seq![0x3Cu8]) + resolution_trace() + cmd_data(
        Command::VcmDcSetting,
        seq![0x12u8],
    ) + cmd_data(Command::VcomAndDataIntervalSetting, seq![0x7fu8]) + lut_trace(mode) + seq![
        cmd(Command::PowerOn),
        Op::DelayUs(5000),
        wait(),
    ]
}

/// Full frame on this two-plane panel: the buffer into the achromatic plane,
/// the same buffer into the chromatic plane, then data stop.
pub open spec fn update_frame_trace(buffer: Seq<u8>) -> Seq<Op> {
    seq![
        wait(),
        cmd(Command::DataStartTransmission1),
        Op::Data(buffer),
        cmd(Command::DataStartTransmission2),
        Op::Data(buffer),
        cmd(Command::DataStop),
    ]
}

pub open spec fn achromatic_trace(black: Seq<u8>) -> Seq<Op> {
    seq![cmd(Command::DataStartTransmission1), Op::Data(black)]
}

pub open spec fn chromatic_trace(chromatic: Seq<u8>) -> Seq<Op> {
    seq![cmd(Command::DataStartTransmission2), Op::Data(chromatic), wait()]
}

/// Waveform tables of `mode`, refresh, settle delay, wait for idle.
pub open spec fn display_trace(mode: RefreshLut) -> Seq<Op> {
    lut_trace(mode) + seq![cmd(Command::DisplayRefresh), Op::DelayUs(100_000), wait()]
}

/// Border floating, VCOM and panel off, four zero power bytes, power off,
/// wait for idle, deep sleep with its check byte.
pub open spec fn sleep_trace() -> Seq<Op> {
    seq![
        wait(),
        cmd(Command::VcomAndDataIntervalSetting),
        Op::Data(seq![0x7fu8]),
        cmd(Command::VcmDcSetting),
        cmd(Command::PanelSetting),
        cmd(Command::PowerSetting),
        byte(0x00),
        byte(0x00),
        byte(0x00),
        byte(0x00),
        cmd(Command::PowerOff),
        wait(),
        cmd(Command::DeepSleep),
        Op::Data(seq![0xA5u8]),
    ]
}

pub open spec fn clear_frame_trace(color: TriColor) -> Seq<Op> {
    seq![wait()] + resolution_trace() + seq![
        cmd(Command::DataStartTransmission1),
        Op::DataRepeat(color.byte_spec(), plane_bytes()),
        cmd(Command::DataStartTransmission2),
        Op::DataRepeat(color.byte_spec(), plane_bytes()),
    ]
}

/// A partial window is non-empty and its last column and last row,
/// `(x - x % 8) + width - 1` and `y + height - 1`, fit in a `u32`.
pub open spec fn window_fits(x: u32, y: u32, width: u32, height: u32) -> bool {
    &&& width >= 1
    &&& height >= 1
    &&& window_x_start(x) + width - 1 <= u32::MAX
    &&& y + height - 1 <= u32::MAX
}

/// First column of the partial window: `x` rounded down to a multiple of 8.
pub open spec fn window_x_start(x: u32) -> u32 {
    (x - x % 8) as u32
}

/// Last column of the partial window, `(start + width - 1) | 7`: the
/// requested end widened to the last column of its byte group.
pub open spec fn window_x_end(x: u32, width: u32) -> u32 {
    ((window_x_start(x) + width - 1) / 8 * 8 + 7) as u32
}

/// Last row of the partial window.
pub open spec fn window_y_end(y: u32, height: u32) -> u32 {
    (y + height - 1) as u32
}

/// The nine window bytes: start and end column, start and end row, each as a
/// big-endian 16-bit value, and last the byte 0x01 that makes the gates scan
/// the whole panel.
pub open spec fn window_trace(x: u32, y: u32, width: u32, height: u32) -> Seq<Op> {
    let xs = window_x_start(x);
    let xe = window_x_end(x, width);
    let ye = window_y_end(y, height);
    seq![
        byte((xs >> 8) as u8),
        byte(xs as u8),
        byte((xe >> 8) as u8),
        byte(xe as u8),
        byte((y >> 8) as u8),
        byte(y as u8),
        byte((ye >> 8) as u8),
        byte(ye as u8),
        byte(0x01),
    ]
}

/// A window buffer holds `width / 8 * height` bytes.
pub open spec fn window_len_ok(len: nat, width: u32, height: u32) -> bool {
    len == (width / 8) as nat * height as nat
}

pub open spec fn partial_frame_trace(
    color: TriColor,
    buffer: Seq<u8>,
    x: u32,
    y: u32,
    width: u32,
    height: u32,
) -> Seq<Op> {
    seq![wait(), cmd(Command::PartialIn), cmd(Command::PartialWindow)] + window_trace(
        x,
        y,
        width,
        height,
    ) + seq![
        Op::DelayUs(2000),
        cmd(Command::DataStartTransmission1),
        Op::Data(buffer),
        cmd(Command::DataStartTransmission2),
        Op::DataRepeat(color.byte_spec(), ((width / 8) * height) as u32),
        Op::DelayUs(2000),
        cmd(Command::PartialOut),
    ]
}

pub open spec fn old_frame_trace(buffer: Seq<u8>) -> Seq<Op> {
    seq![wait(), cmd(Command::DataStartTransmission1), Op::Data(buffer)]
}

pub open spec fn new_frame_trace(buffer: Seq<u8>) -> Seq<Op> {
    seq![wait()] + resolution_trace() + seq![cmd(Command::DataStartTransmission2), Op::Data(buffer)]
}

pub open spec fn partial_old_trace(buffer: Seq<u8>, x: u32, y: u32, width: u32, height: u32) -> Seq<Op> {
    seq![wait(), cmd(Command::PartialIn), cmd(Command::PartialWindow)] + window_trace(
        x,
        y,
        width,
        height,
    ) + seq![cmd(Command::DataStartTransmission1), Op::Data(buffer)]
}

pub open spec fn partial_new_trace(buffer: Seq<u8>, x: u32, y: u32, width: u32, height: u32) -> Seq<Op> {
    seq![wait()] + window_trace(x, y, width, height) + seq![
        cmd(Command::DataStartTransmission2),
        Op::Data(buffer),
        cmd(Command::PartialOut),
    ]
}

pub open spec fn clear_partial_trace(color: TriColor, x: u32, y: u32, width: u32, height: u32) -> Seq<Op> {
    let n = ((width / 8) * height) as u32;
    seq![wait()] + resolution_trace() + seq![cmd(Command::PartialIn), cmd(Command::PartialWindow)]
        + window_trace(x, y, width, height) + seq![
        cmd(Command::DataStartTransmission1),
        Op::DataRepeat(color.byte_spec(), n),
        cmd(Command::DataStartTransmission2),
        Op::DataRepeat(color.byte_spec(), n),
        cmd(Command::PartialOut),
    ]
}

pub struct Epd4in2bc {
    color: TriColor,
    refresh: RefreshLut,
    state: PanelState,
}

impl View for Epd4in2bc {
    type V = DriverView;

    closed spec fn view(&self) -> DriverView {
        DriverView { color: self.color, refresh: self.refresh, state: self.state }
    }
}

/// A one-byte payload.
fn one_byte(b: u8) -> (r: Vec<u8>)
    ensures
        r@ == seq![b],
{
    let v = vec![b];
    assert(v@ =~= seq![b]);
    v
}

impl Epd4in2bc {
    fn command(&self, ops: &mut Vec<BusOp>, c: Command)
        ensures
            trace(final(ops)@) == trace(old(ops)@).push(cmd(c)),
    {
        emit(ops, BusOp::Command(c.address()));
    }

    fn send_data(&self, ops: &mut Vec<BusOp>, data: Vec<u8>)
        ensures
            trace(final(ops)@) == trace(old(ops)@).push(Op::Data(data@)),
    {
        emit(ops, BusOp::Data(data));
    }

    fn send_byte(&self, ops: &mut Vec<BusOp>, b: u8)
        ensures
            trace(final(ops)@) == trace(old(ops)@).push(byte(b)),
    {
        self.send_data(ops, one_byte(b));
    }

    fn data_x_times(&self, ops: &mut Vec<BusOp>, value: u8, count: u32)
        ensures
            trace(final(ops)@) == trace(old(ops)@).push(Op::DataRepeat(value, count)),
    {
        emit(ops, BusOp::DataRepeat { value, count });
    }

    fn cmd_with_data(&self, ops: &mut Vec<BusOp>, c: Command, data: Vec<u8>)
        ensures
            trace(final(ops)@) == trace(old(ops)@) + cmd_data(c, data@),
    {
        let ghost d = data@;
        self.command(ops, c);
        self.send_data(ops, data);
        assert(trace(ops@) =~= trace(old(ops)@) + cmd_data(c, d));
    }

    fn wait_until_idle(&self, ops: &mut Vec<BusOp>)
        ensures
            trace(final(ops)@) == trace(old(ops)@).push(wait()),
    {
        emit(ops, BusOp::WaitIdle { busy_low: IS_BUSY_LOW });
    }

    fn send_resolution(&self, ops: &mut Vec<BusOp>)
        ensures
            trace(final(ops)@) == trace(old(ops)@) + resolution_trace(),
    {
        let w = WIDTH;
        let h = HEIGHT;
        self.command(ops, Command::ResolutionSetting);
        self.send_byte(ops, (w >> 8) as u8);
        self.send_byte(ops, w as u8);
        self.send_byte(ops, (h >> 8) as u8);
        self.send_byte(ops, h as u8);
        assert(trace(ops@) =~= trace(old(ops)@) + resolution_trace());
    }

    /// Waits for idle, then writes the five waveform tables to their registers.
    fn set_lut_helper(
        &self,
        ops: &mut Vec<BusOp>,
        lut_vcom: Vec<u8>,
        lut_ww: Vec<u8>,
        lut_bw: Vec<u8>,
        lut_wb: Vec<u8>,
        lut_bb: Vec<u8>,
    )
        ensures
            trace(final(ops)@) == trace(old(ops)@) + seq![wait()] + cmd_data(
                Command::LutForVcom,
                lut_vcom@,
            ) + cmd_data(Command::LutWhiteToWhite, lut_ww@) + cmd_data(Command::LutBlackToWhite, lut_bw@)
                + cmd_data(Command::LutWhiteToBlack, lut_wb@) + cmd_data(Command::LutBlackToBlack, lut_bb@),
    {
        let ghost t0 = trace(ops@);
        let ghost (a, b, c, d, e) = (lut_vcom@, lut_ww@, lut_bw@, lut_wb@, lut_bb@);
        self.wait_until_idle(ops);
        self.cmd_with_data(ops, Command::LutForVcom, lut_vcom);
        self.cmd_with_data(ops, Command::LutWhiteToWhite, lut_ww);
        self.cmd_with_data(ops, Command::LutBlackToWhite, lut_bw);
        self.cmd_with_data(ops, Command::LutWhiteToBlack, lut_wb);
        self.cmd_with_data(ops, Command::LutBlackToBlack, lut_bb);
        assert(trace(ops@) =~= t0 + seq![wait()] + cmd_data(Command::LutForVcom, a) + cmd_data(
            Command::LutWhiteToWhite,
            b,
        ) + cmd_data(Command::LutBlackToWhite, c) + cmd_data(Command::LutWhiteToBlack, d) + cmd_data(
            Command::LutBlackToBlack,
            e,
        ));
    }

    /// Makes `refresh_rate`, if given, the active refresh mode, then writes
    /// the active mode's waveform tables.
    pub fn set_lut(&mut self, ops: &mut Vec<BusOp>, refresh_rate: Option<RefreshLut>)
        ensures
            final(self)@ == (DriverView {
                refresh: match refresh_rate {
                    Some(m) => m,
                    None => old(self)@.refresh,
                },
                ..old(self)@
            }),
            trace(final(ops)@) == trace(old(ops)@) + lut_trace(final(self)@.refresh),
    {
        if let Some(refresh_lut) = refresh_rate {
            self.refresh = refresh_lut;
        }
        let (vcom, ww, bw, wb, bb) = lut_bytes(self.refresh);
        self.set_lut_helper(ops, vcom, ww, bw, wb, bb);
    }

    /// Resets and configures the controller and powers it on.
    pub fn init(&mut self, ops: &mut Vec<BusOp>)
        ensures
            final(self)@ == old(self)@.initialized(),
            trace(final(ops)@) == trace(old(ops)@) + init_trace(old(self)@.refresh),
    {
        let ghost t0 = trace(ops@);
        emit(ops, BusOp::Reset { initial_us: 10_000, duration_us: 10_000 });
        self.cmd_with_data(ops, Command::PowerSetting, vec![0x03, 0x00, 0x2b, 0x2b, 0xff]);
        let ghost t1 = trace(ops@);
        assert(t1 =~= t0 + (seq![Op::Reset(10_000, 10_000)] + cmd_data(
            Command::PowerSetting,
            seq![0x03u8, 0x00, 0x2b, 0x2b, 0xff],
        )));
        self.cmd_with_data(ops, Command::BoosterSoftStart, vec![0x17, 0x17, 0x17]);
        self.cmd_with_data(ops, Command::PanelSetting, one_byte(0x0F));
        self.cmd_with_data(ops, Command::PllControl, one_byte(0x3C));
        let ghost t2 = trace(ops@);
        assert(t2 =~= t1 + (cmd_data(Command::BoosterSoftStart, seq![0x17u8, 0x17, 0x17]) + cmd_data(
            Command::PanelSetting,
            seq![0x0Fu8],
        ) + cmd_data(Command::PllControl, seq![0x3Cu8])));
        self.send_resolution(ops);
        self.cmd_with_data(ops, Command::VcmDcSetting, one_byte(0x12));
        self.cmd_with_data(ops, Command::VcomAndDataIntervalSetting, one_byte(0x7f));
        let ghost t3 = trace(ops@);
        assert(t3 =~= t2 + (resolution_trace() + cmd_data(Command::VcmDcSetting, seq![0x12u8])
            + cmd_data(Command::VcomAndDataIntervalSetting, seq![0x7fu8])));
        self.set_lut(ops, None);
        let ghost t4 = trace(ops@);
        self.command(ops, Command::PowerOn);
        emit(ops, BusOp::DelayUs(5000));
        self.wait_until_idle(ops);
        self.state = PanelState::Ready;
        assert(trace(ops@) =~= t4 + seq![cmd(Command::PowerOn), Op::DelayUs(5000), wait()]);
        assert(trace(ops@) =~= t0 + init_trace(old(self)@.refresh));
    }

    /// A driver with the default background colour and quick waveforms; `ops`
    /// receives the initialisation sequence, which must complete before the
    /// driver is used.
    pub fn new(ops: &mut Vec<BusOp>) -> (r: Self)
        ensures
            r@ == (DriverView {
                color: DEFAULT_BACKGROUND_COLOR,
                refresh: RefreshLut::Quick,
                state: PanelState::Ready,
            }),
            trace(final(ops)@) == trace(old(ops)@) + init_trace(RefreshLut::Quick),
    {
        let mut epd = Epd4in2bc {
            color: DEFAULT_BACKGROUND_COLOR,
            refresh: RefreshLut::Quick,
            state: PanelState::Ready,
        };
        epd.init(ops);
        epd
    }

    /// Sends the achromatic plane, then the chromatic plane, which overrides
    /// it, and waits for idle.
    pub fn update_color_frame(&mut self, ops: &mut Vec<BusOp>, black: &[u8], chromatic: &[u8])
        ensures
            final(self)@ == old(self)@,
            trace(final(ops)@) == trace(old(ops)@) + achromatic_trace(black@) + chromatic_trace(
                chromatic@,
            ),
    {
        self.update_achromatic_frame(ops, black);
        self.update_chromatic_frame(ops, chromatic);
    }

    /// Sends only the achromatic plane; to be followed by
    /// `update_chromatic_frame`.
    pub fn update_achromatic_frame(&mut self, ops: &mut Vec<BusOp>, black: &[u8])
        ensures
            final(self)@ == old(self)@,
            trace(final(ops)@) == trace(old(ops)@) + achromatic_trace(black@),
    {
        self.command(ops, Command::DataStartTransmission1);
        self.send_data(ops, vstd::slice::slice_to_vec(black));
        assert(trace(ops@) =~= trace(old(ops)@) + achromatic_trace(black@));
    }

    /// Sends only the chromatic plane and waits for idle.
    pub fn update_chromatic_frame(&mut self, ops: &mut Vec<BusOp>, chromatic: &[u8])
        ensures
            final(self)@ == old(self)@,
            trace(final(ops)@) == trace(old(ops)@) + chromatic_trace(chromatic@),
    {
        self.command(ops, Command::DataStartTransmission2);
        self.send_data(ops, vstd::slice::slice_to_vec(chromatic));
        self.wait_until_idle(ops);
        assert(trace(ops@) =~= trace(old(ops)@) + chromatic_trace(chromatic@));
    }

    /// Powers the panel down into deep sleep.
    pub fn sleep(&mut self, ops: &mut Vec<BusOp>)
        ensures
            final(self)@ == old(self)@.asleep(),
            trace(final(ops)@) == trace(old(ops)@) + sleep_trace(),
    {
        self.wait_until_idle(ops);
        self.cmd_with_data(ops, Command::VcomAndDataIntervalSetting, one_byte(0x7f));
        self.command(ops, Command::VcmDcSetting);
        self.command(ops, Command::PanelSetting);
        self.command(ops, Command::PowerSetting);
        let mut i: u32 = 0;
        while i < 4
            invariant
                i <= 4,
                trace(ops@) == trace(old(ops)@) + sleep_trace().subrange(0, 6 + i as int),
            decreases 4 - i,
        {
            self.send_byte(ops, 0x00);
            assert(trace(ops@) =~= trace(old(ops)@) + sleep_trace().subrange(0, 6 + i + 1));
            i += 1;
        }
        self.command(ops, Command::PowerOff);
        self.wait_until_idle(ops);
        self.cmd_with_data(ops, Command::DeepSleep, one_byte(0xA5));
        self.state = PanelState::Sleeping;
        assert(trace(ops@) =~= trace(old(ops)@) + sleep_trace());
    }

    /// Brings the panel out of deep sleep by initialising it again.
    pub fn wake_up(&mut self, ops: &mut Vec<BusOp>)
        ensures
            final(self)@ == old(self)@.initialized(),
            trace(final(ops)@) == trace(old(ops)@) + init_trace(old(self)@.refresh),
    {
        self.init(ops)
    }

    pub fn set_background_color(&mut self, color: TriColor)
        ensures
            final(self)@ == (DriverView { color, ..old(self)@ }),
    {
        self.color = color;
    }

    pub fn background_color(&self) -> (r: &TriColor)
        ensures
            *r == self@.color,
    {
        &self.color
    }

    pub fn refresh_lut(&self) -> (r: RefreshLut)
        ensures
            r == self@.refresh,
    {
        self.refresh
    }

    pub fn state(&self) -> (r: PanelState)
        ensures
            r == self@.state,
    {
        self.state
    }

    pub fn width(&self) -> (r: u32)
        ensures
            r == WIDTH,
    {
        WIDTH
    }

    pub fn height(&self) -> (r: u32)
        ensures
            r == HEIGHT,
    {
        HEIGHT
    }

    /// Sends a full frame: `buffer` into the achromatic plane and again into
    /// the chromatic plane.
    pub fn update_frame(&mut self, ops: &mut Vec<BusOp>, buffer: &[u8])
        ensures
            final(self)@ == old(self)@,
            trace(final(ops)@) == trace(old(ops)@) + update_frame_trace(buffer@),
    {
        self.wait_until_idle(ops);
        self.command(ops, Command::DataStartTransmission1);
        self.send_data(ops, vstd::slice::slice_to_vec(buffer));
        self.cmd_with_data(ops, Command::DataStartTransmission2, vstd::slice::slice_to_vec(buffer));
        self.command(ops, Command::DataStop);
        assert(trace(ops@) =~= trace(old(ops)@) + update_frame_trace(buffer@));
    }

    /// Sends `buffer` for the window at (x, y) of `width` by `height`, the
    /// column range widened to whole bytes, and floods the window's second
    /// plane with the background colour's byte; a buffer whose length is not
    /// `width / 8 * height` is refused and nothing is sent.
    pub fn update_partial_frame(
        &mut self,
        ops: &mut Vec<BusOp>,
        buffer: &[u8],
        x: u32,
        y: u32,
        width: u32,
        height: u32,
    ) -> (r: Result<(), ConfigurationError>)
        requires
            window_fits(x, y, width, height),
            (width / 8) * height <= u32::MAX,
        ensures
            final(self)@ == old(self)@,
            r is Ok <==> window_len_ok(buffer@.len(), width, height),
            r is Err ==> r == Err::<(), _>(ConfigurationError::BufferSizeMismatch) && final(ops)@
                == old(ops)@,
            r is Ok ==> trace(final(ops)@) == trace(old(ops)@) + partial_frame_trace(
                old(self)@.color,
                buffer@,
                x,
                y,
                width,
                height,
            ),
    {
        if !Self::window_len_matches(buffer.len(), width, height) {
            return Err(ConfigurationError::BufferSizeMismatch);
        }
        let ghost t0 = trace(ops@);
        self.wait_until_idle(ops);
        self.command(ops, Command::PartialIn);
        self.command(ops, Command::PartialWindow);
        let ghost t1 = trace(ops@);
        self.shift_display(ops, x, y, width, height);
        let ghost t2 = trace(ops@);
        emit(ops, BusOp::DelayUs(2000));
        self.command(ops, Command::DataStartTransmission1);
        self.send_data(ops, vstd::slice::slice_to_vec(buffer));
        let color_value = self.color.get_byte_value();
        self.command(ops, Command::DataStartTransmission2);
        self.data_x_times(ops, color_value, width / 8 * height);
        emit(ops, BusOp::DelayUs(2000));
        self.command(ops, Command::PartialOut);
        assert(t1 =~= t0 + seq![wait(), cmd(Command::PartialIn), cmd(Command::PartialWindow)]);
        assert(trace(ops@) =~= t2 + seq![
            Op::DelayUs(2000),
            cmd(Command::DataStartTransmission1),
            Op::Data(buffer@),
            cmd(Command::DataStartTransmission2),
            Op::DataRepeat(old(self)@.color.byte_spec(), ((width / 8) * height) as u32),
            Op::DelayUs(2000),
            cmd(Command::PartialOut),
        ]);
        assert(trace(ops@) =~= t0 + partial_frame_trace(old(self)@.color, buffer@, x, y, width, height));
        Ok(())
    }

    fn window_len_matches(len: usize, width: u32, height: u32) -> (r: bool)
        ensures
            r == window_len_ok(len as nat, width, height),
    {
        let w8 = (width / 8) as u64;
        assert(w8 * (height as u64) <= 0x2000_0000u64 * 0x1_0000_0000u64) by (nonlinear_arith)
            requires
                w8 <= 0x2000_0000u64,
                height <= 0xffff_ffffu32,
        ;
        len as u64 == w8 * height as u64
    }

    /// Loads the active waveform tables, refreshes the panel and waits for it.
    pub fn display_frame(&mut self, ops: &mut Vec<BusOp>)
        ensures
            final(self)@ == old(self)@,
            trace(final(ops)@) == trace(old(ops)@) + display_trace(old(self)@.refresh),
    {
        self.set_lut(ops, None);
        let ghost t1 = trace(ops@);
        self.command(ops, Command::DisplayRefresh);
        emit(ops, BusOp::DelayUs(100_000));
        self.wait_until_idle(ops);
        assert(trace(ops@) =~= t1 + seq![cmd(Command::DisplayRefresh), Op::DelayUs(100_000), wait()]);
        assert(trace(ops@) =~= trace(old(ops)@) + display_trace(old(self)@.refresh));
    }

    /// A full frame followed by a refresh with the active waveform tables.
    pub fn update_and_display_frame(&mut self, ops: &mut Vec<BusOp>, buffer: &[u8])
        ensures
            final(self)@ == old(self)@,
            trace(final(ops)@) == trace(old(ops)@) + update_frame_trace(buffer@) + display_trace(
                old(self)@.refresh,
            ),
    {
        self.update_frame(ops, buffer);
        self.display_frame(ops);
    }

    /// Floods both planes with the background colour's byte value.
    pub fn clear_frame(&mut self, ops: &mut Vec<BusOp>)
        ensures
            final(self)@ == old(self)@,
            trace(final(ops)@) == trace(old(ops)@) + clear_frame_trace(old(self)@.color),
    {
        self.wait_until_idle(ops);
        self.send_resolution(ops);
        let ghost t1 = trace(ops@);
        let color_value = self.color.get_byte_value();
        self.command(ops, Command::DataStartTransmission1);
        self.data_x_times(ops, color_value, WIDTH / 8 * HEIGHT);
        self.command(ops, Command::DataStartTransmission2);
        self.data_x_times(ops, color_value, WIDTH / 8 * HEIGHT);
        assert(trace(ops@) =~= t1 + seq![
            cmd(Command::DataStartTransmission1),
            Op::DataRepeat(old(self)@.color.byte_spec(), plane_bytes()),
            cmd(Command::DataStartTransmission2),
            Op::DataRepeat(old(self)@.color.byte_spec(), plane_bytes()),
        ]);
        assert(trace(ops@) =~= trace(old(ops)@) + clear_frame_trace(old(self)@.color));
    }

    /// Sends the nine partial-window bytes for the window at (x, y) of
    /// `width` by `height`.
    pub fn shift_display(&mut self, ops: &mut Vec<BusOp>, x: u32, y: u32, width: u32, height: u32)
        requires
            window_fits(x, y, width, height),
        ensures
            final(self)@ == old(self)@,
            trace(final(ops)@) == trace(old(ops)@) + window_trace(x, y, width, height),
    {
        let start = x & !0x07u32;
        assert(start == x - x % 8) by (bit_vector)
            requires
                start == x & !0x07u32,
        ;
        let last = start + (width - 1);
        let end = last | 0x07;
        assert(end == last - last % 8 + 7) by (bit_vector)
            requires
                end == last | 0x07u32,
        ;
        let y_end = y + (height - 1);
        self.send_byte(ops, #[verifier::truncate] ((start >> 8) as u8));
        self.send_byte(ops, #[verifier::truncate] (start as u8));
        self.send_byte(ops, #[verifier::truncate] ((end >> 8) as u8));
        self.send_byte(ops, #[verifier::truncate] (end as u8));
        self.send_byte(ops, #[verifier::truncate] ((y >> 8) as u8));
        self.send_byte(ops, #[verifier::truncate] (y as u8));
        self.send_byte(ops, #[verifier::truncate] ((y_end >> 8) as u8));
        self.send_byte(ops, #[verifier::truncate] (y_end as u8));
        self.send_byte(ops, 0x01);
        assert(trace(ops@) =~= trace(old(ops)@) + window_trace(x, y, width, height));
    }

    /// Quick refresh, first half: the previous image into the first plane.
    pub fn update_old_frame(&mut self, ops: &mut Vec<BusOp>, buffer: &[u8])
        ensures
            final(self)@ == old(self)@,
            trace(final(ops)@) == trace(old(ops)@) + old_frame_trace(buffer@),
    {
        self.wait_until_idle(ops);
        self.command(ops, Command::DataStartTransmission1);
        self.send_data(ops, vstd::slice::slice_to_vec(buffer));
        assert(trace(ops@) =~= trace(old(ops)@) + old_frame_trace(buffer@));
    }

    /// Quick refresh, second half: the resolution again, then the new image
    /// into the second plane.
    pub fn update_new_frame(&mut self, ops: &mut Vec<BusOp>, buffer: &[u8])
        ensures
            final(self)@ == old(self)@,
            trace(final(ops)@) == trace(old(ops)@) + new_frame_trace(buffer@),
    {
        self.wait_until_idle(ops);
        self.send_resolution(ops);
        let ghost t1 = trace(ops@);
        self.command(ops, Command::DataStartTransmission2);
        self.send_data(ops, vstd::slice::slice_to_vec(buffer));
        assert(trace(ops@) =~= t1 + seq![cmd(Command::DataStartTransmission2), Op::Data(buffer@)]);
        assert(trace(ops@) =~= trace(old(ops)@) + new_frame_trace(buffer@));
    }

    /// Shows the frame sent by `update_old_frame` and `update_new_frame`.
    pub fn display_new_frame(&mut self, ops: &mut Vec<BusOp>)
        ensures
            final(self)@ == old(self)@,
            trace(final(ops)@) == trace(old(ops)@) + display_trace(old(self)@.refresh),
    {
        self.display_frame(ops)
    }

    /// `update_new_frame` followed by `display_frame`.
    pub fn update_and_display_new_frame(&mut self, ops: &mut Vec<BusOp>, buffer: &[u8])
        ensures
            final(self)@ == old(self)@,
            trace(final(ops)@) == trace(old(ops)@) + new_frame_trace(buffer@) + display_trace(
                old(self)@.refresh,
            ),
    {
        self.update_new_frame(ops, buffer);
        self.display_frame(ops);
    }

    /// Partial quick refresh, first half: enters partial mode, declares the
    /// window and sends the previous image of it; a buffer whose length is not
    /// `width / 8 * height` is refused and nothing is sent.
    pub fn update_partial_old_frame(
        &mut self,
        ops: &mut Vec<BusOp>,
        buffer: &[u8],
        x: u32,
        y: u32,
        width: u32,
        height: u32,
    ) -> (r: Result<(), ConfigurationError>)
        requires
            window_fits(x, y, width, height),
        ensures
            final(self)@ == old(self)@,
            r is Ok <==> window_len_ok(buffer@.len(), width, height),
            r is Err ==> r == Err::<(), _>(ConfigurationError::BufferSizeMismatch) && final(ops)@
                == old(ops)@,
            r is Ok ==> trace(final(ops)@) == trace(old(ops)@) + partial_old_trace(
                buffer@,
                x,
                y,
                width,
                height,
            ),
    {
        if !Self::window_len_matches(buffer.len(), width, height) {
            return Err(ConfigurationError::BufferSizeMismatch);
        }
        let ghost t0 = trace(ops@);
        self.wait_until_idle(ops);
        self.command(ops, Command::PartialIn);
        self.command(ops, Command::PartialWindow);
        let ghost t1 = trace(ops@);
        self.shift_display(ops, x, y, width, height);
        let ghost t2 = trace(ops@);
        self.command(ops, Command::DataStartTransmission1);
        self.send_data(ops, vstd::slice::slice_to_vec(buffer));
        assert(t1 =~= t0 + seq![wait(), cmd(Command::PartialIn), cmd(Command::PartialWindow)]);
        assert(trace(ops@) =~= t2 + seq![cmd(Command::DataStartTransmission1), Op::Data(buffer@)]);
        assert(trace(ops@) =~= t0 + partial_old_trace(buffer@, x, y, width, height));
        Ok(())
    }

    /// Partial quick refresh, second half: declares the window again, sends
    /// the new image of it and leaves partial mode; a buffer whose length is
    /// not `width / 8 * height` is refused and nothing is sent.
    pub fn update_partial_new_frame(
        &mut self,
        ops: &mut Vec<BusOp>,
        buffer: &[u8],
        x: u32,
        y: u32,
        width: u32,
        height: u32,
    ) -> (r: Result<(), ConfigurationError>)
        requires
            window_fits(x, y, width, height),
        ensures
            final(self)@ == old(self)@,
            r is Ok <==> window_len_ok(buffer@.len(), width, height),
            r is Err ==> r == Err::<(), _>(ConfigurationError::BufferSizeMismatch) && final(ops)@
                == old(ops)@,
            r is Ok ==> trace(final(ops)@) == trace(old(ops)@) + partial_new_trace(
                buffer@,
                x,
                y,
                width,
                height,
            ),
    {
        if !Self::window_len_matches(buffer.len(), width, height) {
            return Err(ConfigurationError::BufferSizeMismatch);
        }
        let ghost t0 = trace(ops@);
        self.wait_until_idle(ops);
        self.shift_display(ops, x, y, width, height);
        let ghost t2 = trace(ops@);
        self.command(ops, Command::DataStartTransmission2);
        self.send_data(ops, vstd::slice::slice_to_vec(buffer));
        self.command(ops, Command::PartialOut);
        assert(trace(ops@) =~= t2 + seq![
            cmd(Command::DataStartTransmission2),
            Op::Data(buffer@),
            cmd(Command::PartialOut),
        ]);
        assert(trace(ops@) =~= t0 + partial_new_trace(buffer@, x, y, width, height));
        Ok(())
    }

    /// Floods both planes of the window with the background colour's byte.
    pub fn clear_partial_frame(&mut self, ops: &mut Vec<BusOp>, x: u32, y: u32, width: u32, height: u32)
        requires
            window_fits(x, y, width, height),
            (width / 8) * height <= u32::MAX,
        ensures
            final(self)@ == old(self)@,
            trace(final(ops)@) == trace(old(ops)@) + clear_partial_trace(old(self)@.color, x, y, width, height),
    {
        let ghost t0 = trace(ops@);
        self.wait_until_idle(ops);
        self.send_resolution(ops);
        let color_value = self.color.get_byte_value();
        self.command(ops, Command::PartialIn);
        self.command(ops, Command::PartialWindow);
        let ghost t1 = trace(ops@);
        self.shift_display(ops, x, y, width, height);
        let ghost t2 = trace(ops@);
        let n = width / 8 * height;
        self.command(ops, Command::DataStartTransmission1);
        self.data_x_times(ops, color_value, n);
        self.command(ops, Command::DataStartTransmission2);
        self.data_x_times(ops, color_value, n);
        self.command(ops, Command::PartialOut);
        assert(t1 =~= t0 + seq![wait()] + resolution_trace() + seq![
            cmd(Command::PartialIn),
            cmd(Command::PartialWindow),
        ]);
        assert(trace(ops@) =~= t2 + seq![
            cmd(Command::DataStartTransmission1),
            Op::DataRepeat(old(self)@.color.byte_spec(), n),
            cmd(Command::DataStartTransmission2),
            Op::DataRepeat(old(self)@.color.byte_spec(), n),
            cmd(Command::PartialOut),
        ]);
        assert(trace(ops@) =~= t0 + clear_partial_trace(old(self)@.color, x, y, width, height));
    }
}

/// The partial window starts at `x` rounded down to a multiple of eight, fewer
/// than eight columns before `x`, and ends at `(start + width - 1) | 7`, the
/// last column of a byte group, no earlier than `start + width - 1` and fewer
/// than eight columns after it; rows are taken exactly as given.
pub proof fn lemma_partial_window_alignment(x: u32, y: u32, width: u32, height: u32)
    requires
        window_fits(x, y, width, height),
    ensures
        window_x_start(x) % 8 == 0,
        window_x_start(x) <= x < window_x_start(x) + 8,
        window_x_end(x, width) % 8 == 7,
        window_x_start(x) + width - 1 <= window_x_end(x, width) < window_x_start(x) + width + 7,
        window_y_end(y, height) == y + height - 1,
{
    let e = window_x_start(x) + width - 1;
    assert(e / 8 * 8 <= e < e / 8 * 8 + 8);
}

/// Initialising, sending a full frame, refreshing, sleeping and waking up
/// leaves the driver ready in the state it had after initialisation, so the
/// next refresh and the next wake-up send exactly what the first did (a full
/// frame depends on the buffer alone).
pub proof fn lemma_sleep_wake_round_trip(d: DriverView)
    ensures
        ({
            let ready = d.initialized();
            let woken = ready.asleep().initialized();
            &&& woken.state == PanelState::Ready
            &&& woken == ready
            &&& display_trace(woken.refresh) == display_trace(ready.refresh)
            &&& init_trace(ready.asleep().refresh) == init_trace(d.refresh)
        }),
{
}

/// The sleep sequence waits for idle before powering off, and ends with the
/// deep-sleep command followed by its check byte `0xA5`.
pub proof fn lemma_sleep_sequence()
    ensures
        ({
            let t = sleep_trace();
            let n = t.len() as int;
            &&& n >= 2
            &&& t[n - 2] == cmd(Command::DeepSleep)
            &&& t[n - 1] == Op::Data(seq![0xA5u8])
            &&& exists|i: int, j: int|
                0 <= i < j < n && #[trigger] t[i] == wait() && #[trigger] t[j] == cmd(Command::PowerOff)
                    && forall|k: int| 0 <= k < j ==> t[k] != cmd(Command::PowerOff)
        }),
{
    let t = sleep_trace();
    assert(t[0] == wait() && t[10] == cmd(Command::PowerOff));
    assert forall|k: int| 0 <= k < 10 implies t[k] != cmd(Command::PowerOff) by {}
}

} // verus!
