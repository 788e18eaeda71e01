use vstd::prelude::*;
use crate::command::Command;

verus! {

/// Which pair of waveform tables a refresh uses.
#[derive(Clone, Copy, Debug, PartialEq, Eq, Structural)]
pub enum RefreshLut {
    /// Full refresh: slower, no ghosting.
    Full,
    /// Quick refresh: faster, may leave ghosting.
    Quick,
}

/// Waveform table for VCOM, full refresh.
pub open spec fn lut_vcom0() -> Seq<u8> {
    seq![
        0x00, 0x17, 0x00, 0x00, 0x00, 0x02,
        0x00, 0x17, 0x17, 0x00, 0x00, 0x02,
        0x00, 0x0A, 0x01, 0x00, 0x00, 0x01,
        0x00, 0x0E, 0x0E, 0x00, 0x00, 0x02,
        0x00, 0x00, 0x00, 0x00, 0x00, 0x00,
        0x00, 0x00, 0x00, 0x00, 0x00, 0x00,
        0x00, 0x00, 0x00, 0x00, 0x00, 0x00,
        0x00, 0x00,
    ]
}

fn lut_vcom0_bytes() -> (r: Vec<u8>)
    ensures
        r@ == lut_vcom0(),
{
    let v = vec![
        0x00, 0x17, 0x00, 0x00, 0x00, 0x02,
        0x00, 0x17, 0x17, 0x00, 0x00, 0x02,
        0x00, 0x0A, 0x01, 0x00, 0x00, 0x01,
        0x00, 0x0E, 0x0E, 0x00, 0x00, 0x02,
        0x00, 0x00, 0x00, 0x00, 0x00, 0x00,
        0x00, 0x00, 0x00, 0x00, 0x00, 0x00,
        0x00, 0x00, 0x00, 0x00, 0x00, 0x00,
        0x00, 0x00,
    ];
    assert(v@ =~= lut_vcom0());
    v
}

/// Waveform table for white to white, full refresh.
pub open spec fn lut_ww() -> Seq<u8> {
    seq![
        0x40, 0x17, 0x00, 0x00, 0x00, 0x02,
        0x90, 0x17, 0x17, 0x00, 0x00, 0x02,
        0x40, 0x0A, 0x01, 0x00, 0x00, 0x01,
        0xA0, 0x0E, 0x0E, 0x00, 0x00, 0x02,
        0x00, 0x00, 0x00, 0x00, 0x00, 0x00,
        0x00, 0x00, 0x00, 0x00, 0x00, 0x00,
        0x00, 0x00, 0x00, 0x00, 0x00, 0x00,
    ]
}

fn lut_ww_bytes() -> (r: Vec<u8>)
    ensures
        r@ == lut_ww(),
{
    let v = vec![
        0x40, 0x17, 0x00, 0x00, 0x00, 0x02,
        0x90, 0x17, 0x17, 0x00, 0x00, 0x02,
        0x40, 0x0A, 0x01, 0x00, 0x00, 0x01,
        0xA0, 0x0E, 0x0E, 0x00, 0x00, 0x02,
        0x00, 0x00, 0x00, 0x00, 0x00, 0x00,
        0x00, 0x00, 0x00, 0x00, 0x00, 0x00,
        0x00, 0x00, 0x00, 0x00, 0x00, 0x00,
    ];
    assert(v@ =~= lut_ww());
    v
}

/// Waveform table for black to white, full refresh.
pub open spec fn lut_bw() -> Seq<u8> {
    seq![
        0x40, 0x17, 0x00, 0x00, 0x00, 0x02,
        0x90, 0x17, 0x17, 0x00, 0x00, 0x02,
        0x40, 0x0A, 0x01, 0x00, 0x00, 0x01,
        0xA0, 0x0E, 0x0E, 0x00, 0x00, 0x02,
        0x00, 0x00, 0x00, 0x00, 0x00, 0x00,
        0x00, 0x00, 0x00, 0x00, 0x00, 0x00,
        0x00, 0x00, 0x00, 0x00, 0x00, 0x00,
    ]
}

fn lut_bw_bytes() -> (r: Vec<u8>)
    ensures
        r@ == lut_bw(),
{
    let v = vec![
        0x40, 0x17, 0x00, 0x00, 0x00, 0x02,
        0x90, 0x17, 0x17, 0x00, 0x00, 0x02,
        0x40, 0x0A, 0x01, 0x00, 0x00, 0x01,
        0xA0, 0x0E, 0x0E, 0x00, 0x00, 0x02,
        0x00, 0x00, 0x00, 0x00, 0x00, 0x00,
        0x00, 0x00, 0x00, 0x00, 0x00, 0x00,
        0x00, 0x00, 0x00, 0x00, 0x00, 0x00,
    ];
    assert(v@ =~= lut_bw());
    v
}

/// Waveform table for white to black, full refresh.
pub open spec fn lut_wb() -> Seq<u8> {
    seq![
        0x80, 0x17, 0x00, 0x00, 0x00, 0x02,
        0x90, 0x17, 0x17, 0x00, 0x00, 0x02,
        0x80, 0x0A, 0x01, 0x00, 0x00, 0x01,
        0x50, 0x0E, 0x0E, 0x00, 0x00, 0x02,
        0x00, 0x00, 0x00, 0x00, 0x00, 0x00,
        0x00, 0x00, 0x00, 0x00, 0x00, 0x00,
        0x00, 0x00, 0x00, 0x00, 0x00, 0x00,
    ]
}

fn lut_wb_bytes() -> (r: Vec<u8>)
    ensures
        r@ == lut_wb(),
{
    let v = vec![
        0x80, 0x17, 0x00, 0x00, 0x00, 0x02,
        0x90, 0x17, 0x17, 0x00, 0x00, 0x02,
        0x80, 0x0A, 0x01, 0x00, 0x00, 0x01,
        0x50, 0x0E, 0x0E, 0x00, 0x00, 0x02,
        0x00, 0x00, 0x00, 0x00, 0x00, 0x00,
        0x00, 0x00, 0x00, 0x00, 0x00, 0x00,
        0x00, 0x00, 0x00, 0x00, 0x00, 0x00,
    ];
    assert(v@ =~= lut_wb());
    v
}

/// Waveform table for black to black, full refresh.
pub open spec fn lut_bb() -> Seq<u8> {
    seq![
        0x80, 0x17, 0x00, 0x00, 0x00, 0x02,
        0x90, 0x17, 0x17, 0x00, 0x00, 0x02,
        0x80, 0x0A, 0x01, 0x00, 0x00, 0x01,
        0x50, 0x0E, 0x0E, 0x00, 0x00, 0x02,
        0x00, 0x00, 0x00, 0x00, 0x00, 0x00,
        0x00, 0x00, 0x00, 0x00, 0x00, 0x00,
        0x00, 0x00, 0x00, 0x00, 0x00, 0x00,
    ]
}

fn lut_bb_bytes() -> (r: Vec<u8>)
    ensures
        r@ == lut_bb(),
{
    let v = vec![
        0x80, 0x17, 0x00, 0x00, 0x00, 0x02,
        0x90, 0x17, 0x17, 0x00, 0x00, 0x02,
        0x80, 0x0A, 0x01, 0x00, 0x00, 0x01,
        0x50, 0x0E, 0x0E, 0x00, 0x00, 0x02,
        0x00, 0x00, 0x00, 0x00, 0x00, 0x00,
        0x00, 0x00, 0x00, 0x00, 0x00, 0x00,
        0x00, 0x00, 0x00, 0x00, 0x00, 0x00,
    ];
    assert(v@ =~= lut_bb());
    v
}

/// Waveform table for VCOM, quick refresh.
pub open spec fn lut_vcom0_quick() -> Seq<u8> {
    seq![
        0x00, 0x0E, 0x00, 0x00, 0x00, 0x01,
        0x00, 0x00, 0x00, 0x00, 0x00, 0x00,
        0x00, 0x00, 0x00, 0x00, 0x00, 0x00,
        0x00, 0x00, 0x00, 0x00, 0x00, 0x00,
        0x00, 0x00, 0x00, 0x00, 0x00, 0x00,
        0x00, 0x00, 0x00, 0x00, 0x00, 0x00,
        0x00, 0x00, 0x00, 0x00, 0x00, 0x00,
        0x00, 0x00,
    ]
}

fn lut_vcom0_quick_bytes() -> (r: Vec<u8>)
    ensures
        r@ == lut_vcom0_quick(),
{
    let v = vec![
        0x00, 0x0E, 0x00, 0x00, 0x00, 0x01,
        0x00, 0x00, 0x00, 0x00, 0x00, 0x00,
        0x00, 0x00, 0x00, 0x00, 0x00, 0x00,
        0x00, 0x00, 0x00, 0x00, 0x00, 0x00,
        0x00, 0x00, 0x00, 0x00, 0x00, 0x00,
        0x00, 0x00, 0x00, 0x00, 0x00, 0x00,
        0x00, 0x00, 0x00, 0x00, 0x00, 0x00,
        0x00, 0x00,
    ];
    assert(v@ =~= lut_vcom0_quick());
    v
}

/// Waveform table for white to white, quick refresh.
pub open spec fn lut_ww_quick() -> Seq<u8> {
    seq![
        0xA0, 0x0E, 0x00, 0x00, 0x00, 0x01,
        0x00, 0x00, 0x00, 0x00, 0x00, 0x00,
        0x00, 0x00, 0x00, 0x00, 0x00, 0x00,
        0x00, 0x00, 0x00, 0x00, 0x00, 0x00,
        0x00, 0x00, 0x00, 0x00, 0x00, 0x00,
        0x00, 0x00, 0x00, 0x00, 0x00, 0x00,
        0x00, 0x00, 0x00, 0x00, 0x00, 0x00,
    ]
}

fn lut_ww_quick_bytes() -> (r: Vec<u8>)
    ensures
        r@ == lut_ww_quick(),
{
    let v = vec![
        0xA0, 0x0E, 0x00, 0x00, 0x00, 0x01,
        0x00, 0x00, 0x00, 0x00, 0x00, 0x00,
        0x00, 0x00, 0x00, 0x00, 0x00, 0x00,
        0x00, 0x00, 0x00, 0x00, 0x00, 0x00,
        0x00, 0x00, 0x00, 0x00, 0x00, 0x00,
        0x00, 0x00, 0x00, 0x00, 0x00, 0x00,
        0x00, 0x00, 0x00, 0x00, 0x00, 0x00,
    ];
    assert(v@ =~= lut_ww_quick());
    v
}

/// Waveform table for black to white, quick refresh.
pub open spec fn lut_bw_quick() -> Seq<u8> {
    seq![
        0xA0, 0x0E, 0x00, 0x00, 0x00, 0x01,
        0x00, 0x00, 0x00, 0x00, 0x00, 0x00,
        0x00, 0x00, 0x00, 0x00, 0x00, 0x00,
        0x00, 0x00, 0x00, 0x00, 0x00, 0x00,
        0x00, 0x00, 0x00, 0x00, 0x00, 0x00,
        0x00, 0x00, 0x00, 0x00, 0x00, 0x00,
        0x00, 0x00, 0x00, 0x00, 0x00, 0x00,
    ]
}

fn lut_bw_quick_bytes() -> (r: Vec<u8>)
    ensures
        r@ == lut_bw_quick(),
{
    let v = vec![
        0xA0, 0x0E, 0x00, 0x00, 0x00, 0x01,
        0x00, 0x00, 0x00, 0x00, 0x00, 0x00,
        0x00, 0x00, 0x00, 0x00, 0x00, 0x00,
        0x00, 0x00, 0x00, 0x00, 0x00, 0x00,
        0x00, 0x00, 0x00, 0x00, 0x00, 0x00,
        0x00, 0x00, 0x00, 0x00, 0x00, 0x00,
        0x00, 0x00, 0x00, 0x00, 0x00, 0x00,
    ];
    assert(v@ =~= lut_bw_quick());
    v
}

/// Waveform table for white to black, quick refresh.
pub open spec fn lut_wb_quick() -> Seq<u8> {
    seq![
        0x50, 0x0E, 0x00, 0x00, 0x00, 0x01,
        0x00, 0x00, 0x00, 0x00, 0x00, 0x00,
        0x00, 0x00, 0x00, 0x00, 0x00, 0x00,
        0x00, 0x00, 0x00, 0x00, 0x00, 0x00,
        0x00, 0x00, 0x00, 0x00, 0x00, 0x00,
        0x00, 0x00, 0x00, 0x00, 0x00, 0x00,
        0x00, 0x00, 0x00, 0x00, 0x00, 0x00,
    ]
}

fn lut_wb_quick_bytes() -> (r: Vec<u8>)
    ensures
        r@ == lut_wb_quick(),
{
    let v = vec![
        0x50, 0x0E, 0x00, 0x00, 0x00, 0x01,
        0x00, 0x00, 0x00, 0x00, 0x00, 0x00,
        0x00, 0x00, 0x00, 0x00, 0x00, 0x00,
        0x00, 0x00, 0x00, 0x00, 0x00, 0x00,
        0x00, 0x00, 0x00, 0x00, 0x00, 0x00,
        0x00, 0x00, 0x00, 0x00, 0x00, 0x00,
        0x00, 0x00, 0x00, 0x00, 0x00, 0x00,
    ];
    assert(v@ =~= lut_wb_quick());
    v
}

/// Waveform table for black to black, quick refresh.
pub open spec fn lut_bb_quick() -> Seq<u8> {
    seq![
        0x50, 0x0E, 0x00, 0x00, 0x00, 0x01,
        0x00, 0x00, 0x00, 0x00, 0x00, 0x00,
        0x00, 0x00, 0x00, 0x00, 0x00, 0x00,
        0x00, 0x00, 0x00, 0x00, 0x00, 0x00,
        0x00, 0x00, 0x00, 0x00, 0x00, 0x00,
        0x00, 0x00, 0x00, 0x00, 0x00, 0x00,
        0x00, 0x00, 0x00, 0x00, 0x00, 0x00,
    ]
}

fn lut_bb_quick_bytes() -> (r: Vec<u8>)
    ensures
        r@ == lut_bb_quick(),
{
    let v = vec![
        0x50, 0x0E, 0x00, 0x00, 0x00, 0x01,
        0x00, 0x00, 0x00, 0x00, 0x00, 0x00,
        0x00, 0x00, 0x00, 0x00, 0x00, 0x00,
        0x00, 0x00, 0x00, 0x00, 0x00, 0x00,
        0x00, 0x00, 0x00, 0x00, 0x00, 0x00,
        0x00, 0x00, 0x00, 0x00, 0x00, 0x00,
        0x00, 0x00, 0x00, 0x00, 0x00, 0x00,
    ];
    assert(v@ =~= lut_bb_quick());
    v
}

/// The five waveform tables of a refresh mode, each with the register it is
/// written to: VCOM, white to white, black to white, white to black, black to
/// black.
pub open spec fn lut_tables(mode: RefreshLut) -> Seq<(Command, Seq<u8>)> {
    match mode {
        RefreshLut::Full => seq![
            (Command::LutForVcom, lut_vcom0()),
            (Command::LutWhiteToWhite, lut_ww()),
            (Command::LutBlackToWhite, lut_bw()),
            (Command::LutWhiteToBlack, lut_wb()),
            (Command::LutBlackToBlack, lut_bb()),
        ],
        RefreshLut::Quick => seq![
            (Command::LutForVcom, lut_vcom0_quick()),
            (Command::LutWhiteToWhite, lut_ww_quick()),
            (Command::LutBlackToWhite, lut_bw_quick()),
            (Command::LutWhiteToBlack, lut_wb_quick()),
            (Command::LutBlackToBlack, lut_bb_quick()),
        ],
    }
}

/// The bytes of the five waveform tables of `mode`, in register order.
pub fn lut_bytes(mode: RefreshLut) -> (r: (Vec<u8>, Vec<u8>, Vec<u8>, Vec<u8>, Vec<u8>))
    ensures
        r.0@ == lut_tables(mode)[0].1,
        r.1@ == lut_tables(mode)[1].1,
        r.2@ == lut_tables(mode)[2].1,
        r.3@ == lut_tables(mode)[3].1,
        r.4@ == lut_tables(mode)[4].1,
{
    match mode {
        RefreshLut::Full => (lut_vcom0_bytes(), lut_ww_bytes(), lut_bw_bytes(), lut_wb_bytes(), lut_bb_bytes()),
        RefreshLut::Quick => (
            lut_vcom0_quick_bytes(),
            lut_ww_quick_bytes(),
            lut_bw_quick_bytes(),
            lut_wb_quick_bytes(),
            lut_bb_quick_bytes(),
        ),
    }
}

} // verus!
