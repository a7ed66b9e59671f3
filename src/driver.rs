use vstd::prelude::*;

use crate::exchange::{Exchange, Progress};
use crate::instruction::Instruction;
use crate::wire::{
    big_endian, command_signals, framed, lemma_command_framed, lemma_data_framed,
    lemma_framed_concat, push_op, signals, word_signals, write_command, write_word, Op, Signal,
};

verus! {

/// Display orientation, each with its memory-access-control bits.
#[derive(Clone, Copy, Debug, PartialEq, Eq, Structural)]
pub enum Orientation {
    Portrait,
    Landscape,
    PortraitSwapped,
    LandscapeSwapped,
}

impl Orientation {
    /// The memory-access-control bits of this orientation.
    pub open spec fn control(self) -> u8 {
        match self {
            Orientation::Portrait => 0x00,
            Orientation::Landscape => 0x60,
            Orientation::PortraitSwapped => 0xC0,
            Orientation::LandscapeSwapped => 0xA0,
        }
    }

    /// The memory-access-control bits of this orientation.
    pub fn to_u8(&self) -> (r: u8)
        ensures
            r == self.control(),
    {
        match self {
            Orientation::Portrait => 0x00,
            Orientation::Landscape => 0x60,
            Orientation::PortraitSwapped => 0xC0,
            Orientation::LandscapeSwapped => 0xA0,
        }
    }
}

/// The memory-access-control bit that selects BGR colour order.
pub const BGR_BIT: u8 = 0x08;

/// The reset pulse: reset line high, low, high.
pub open spec fn reset_signals() -> Seq<Signal> {
    seq![Signal::Reset(true), Signal::Reset(false), Signal::Reset(true)]
}

/// The settle delay after a software reset, sleep-out and display-on.
pub const SETTLE_MS: u32 = 50;

/// The memory-access-control parameter for a colour order and orientation bits.
pub open spec fn madctl_byte(rgb: bool, control: u8) -> u8 {
    if rgb {
        control
    } else {
        control | BGR_BIT
    }
}

/// The bring-up sequence of the panel.
pub open spec fn init_signals(rgb: bool, inverted: bool) -> Seq<Signal> {
    reset_signals()
    + command_signals(Instruction::SWRESET.opcode(), seq![])
    + seq![Signal::Pause(SETTLE_MS)]
    + command_signals(Instruction::SLPOUT.opcode(), seq![])
    + seq![Signal::Pause(SETTLE_MS)]
    + command_signals(Instruction::FRMCTR1.opcode(), seq![0x01u8, 0x2C, 0x2D])
    + command_signals(Instruction::FRMCTR2.opcode(), seq![0x01u8, 0x2C, 0x2D])
    + command_signals(Instruction::FRMCTR3.opcode(), seq![0x01u8, 0x2C, 0x2D, 0x01, 0x2C, 0x2D])
    + command_signals(Instruction::INVCTR.opcode(), seq![0x07u8])
    + command_signals(Instruction::PWCTR1.opcode(), seq![0xA2u8, 0x02, 0x84])
    + command_signals(Instruction::PWCTR2.opcode(), seq![0xC5u8])
    + command_signals(Instruction::PWCTR3.opcode(), seq![0x0Au8, 0x00])
    + command_signals(Instruction::PWCTR4.opcode(), seq![0x8Au8, 0x2A])
    + command_signals(Instruction::PWCTR5.opcode(), seq![0x8Au8, 0xEE])
    + command_signals(Instruction::VMCTR1.opcode(), seq![0x0Eu8])
    + command_signals(
        if inverted { Instruction::INVON.opcode() } else { Instruction::INVOFF.opcode() },
        seq![],
    )
    + command_signals(Instruction::MADCTL.opcode(), seq![madctl_byte(rgb, 0x00)])
    + command_signals(Instruction::COLMOD.opcode(), seq![0x05u8])
    + command_signals(Instruction::DISPON.opcode(), seq![])
    + seq![Signal::Pause(SETTLE_MS)]
}

/// Setting the orientation: one memory-access-control command.
pub open spec fn orientation_signals(rgb: bool, orientation: Orientation) -> Seq<Signal> {
    command_signals(Instruction::MADCTL.opcode(), seq![madctl_byte(rgb, orientation.control())])
}

/// The address window (x0, y0)-(x1, y1), bounds inclusive.
pub open spec fn window_signals(x0: u16, y0: u16, x1: u16, y1: u16) -> Seq<Signal> {
    command_signals(Instruction::CASET.opcode(), seq![])
    + word_signals(x0)
    + word_signals(x1)
    + command_signals(Instruction::RASET.opcode(), seq![])
    + word_signals(y0)
    + word_signals(y1)
}

/// Writing one pixel: a 1x1 window, memory write, then the colour.
pub open spec fn pixel_signals(x: u16, y: u16, color: u16) -> Seq<Signal> {
    window_signals(x, y, x, y)
    + command_signals(Instruction::RAMWR.opcode(), seq![])
    + word_signals(color)
}

/// Writing pixels (x, y, colour) one after the other, in order.
pub open spec fn pixels_signals(pixels: Seq<(u16, u16, u16)>) -> Seq<Signal>
    decreases pixels.len(),
{
    if pixels.len() == 0 {
        seq![]
    } else {
        let (x, y, color) = pixels.last();
        pixels_signals(pixels.drop_last()) + pixel_signals(x, y, color)
    }
}

/// ST7735 driver: the panel's configuration and the programs that carry out
/// each request on it.
pub struct ST7735 {
    /// Whether the display is RGB (true) or BGR (false).
    rgb: bool,
    /// Whether the colours are inverted (true) or not (false).
    inverted: bool,
}

impl ST7735 {
    pub closed spec fn spec_rgb(&self) -> bool {
        self.rgb
    }

    pub closed spec fn spec_inverted(&self) -> bool {
        self.inverted
    }

    /// Creates a driver for a panel with the given colour order and polarity.
    pub fn new(rgb: bool, inverted: bool) -> (r: ST7735)
        ensures
            r.spec_rgb() == rgb,
            r.spec_inverted() == inverted,
    {
        ST7735 { rgb, inverted }
    }

    /// Whether the display is RGB (true) or BGR (false).
    pub fn rgb(&self) -> (r: bool)
        ensures
            r == self.spec_rgb(),
    {
        self.rgb
    }

    /// Whether the colours are inverted.
    pub fn inverted(&self) -> (r: bool)
        ensures
            r == self.spec_inverted(),
    {
        self.inverted
    }

    /// Appends the reset pulse to a program.
    fn push_reset(ops: &mut Vec<Op>)
        ensures
            signals(final(ops)@) == signals(old(ops)@) + reset_signals(),
    {
        let ghost start = signals(ops@);
        push_op(ops, Op::Reset(true));
        push_op(ops, Op::Reset(false));
        push_op(ops, Op::Reset(true));
        assert(signals(ops@) =~= start + reset_signals());
    }

    /// Pulses the hardware reset line: high, low, high.
    pub fn hard_reset(&self) -> (r: Exchange)
        ensures
            r@ == Progress::start(reset_signals()),
    {
        let mut ops: Vec<Op> = Vec::new();
        Self::push_reset(&mut ops);
        assert(signals(ops@) =~= reset_signals());
        Exchange::new(ops)
    }

    /// Appends the settle delay to a program.
    fn push_settle(ops: &mut Vec<Op>)
        ensures
            signals(final(ops)@) == signals(old(ops)@) + seq![Signal::Pause(SETTLE_MS)],
    {
        let ghost start = signals(ops@);
        push_op(ops, Op::Pause(SETTLE_MS));
        assert(signals(ops@) =~= start + seq![Signal::Pause(SETTLE_MS)]);
    }

    /// Runs the bring-up sequence: reset pulse, software reset, sleep-out,
    /// the panel's frame-rate, inversion, power and voltage settings, the
    /// polarity, the colour order, the colour mode and display-on, with the
    /// settle delays the panel needs.
    pub fn init(&self) -> (r: Exchange)
        ensures
            r@ == Progress::start(init_signals(self.spec_rgb(), self.spec_inverted())),
    {
        let none: [u8; 0] = [];
        assert(none@ =~= seq![]);
        let mut ops: Vec<Op> = Vec::new();
        Self::push_reset(&mut ops);
        assert(signals(ops@) =~= reset_signals());
        write_command(&mut ops, Instruction::SWRESET, &none);
        Self::push_settle(&mut ops);
        write_command(&mut ops, Instruction::SLPOUT, &none);
        Self::push_settle(&mut ops);
        let frame: [u8; 3] = [0x01, 0x2C, 0x2D];
        assert(frame@ =~= seq![0x01u8, 0x2C, 0x2D]);
        write_command(&mut ops, Instruction::FRMCTR1, &frame);
        write_command(&mut ops, Instruction::FRMCTR2, &frame);
        let frame3: [u8; 6] = [0x01, 0x2C, 0x2D, 0x01, 0x2C, 0x2D];
        assert(frame3@ =~= seq![0x01u8, 0x2C, 0x2D, 0x01, 0x2C, 0x2D]);
        write_command(&mut ops, Instruction::FRMCTR3, &frame3);
        let invctr: [u8; 1] = [0x07];
        assert(invctr@ =~= seq![0x07u8]);
        write_command(&mut ops, Instruction::INVCTR, &invctr);
        let pwctr1: [u8; 3] = [0xA2, 0x02, 0x84];
        assert(pwctr1@ =~= seq![0xA2u8, 0x02, 0x84]);
        write_command(&mut ops, Instruction::PWCTR1, &pwctr1);
        let pwctr2: [u8; 1] = [0xC5];
        assert(pwctr2@ =~= seq![0xC5u8]);
        write_command(&mut ops, Instruction::PWCTR2, &pwctr2);
        let pwctr3: [u8; 2] = [0x0A, 0x00];
        assert(pwctr3@ =~= seq![0x0Au8, 0x00]);
        write_command(&mut ops, Instruction::PWCTR3, &pwctr3);
        let pwctr4: [u8; 2] = [0x8A, 0x2A];
        assert(pwctr4@ =~= seq![0x8Au8, 0x2A]);
        write_command(&mut ops, Instruction::PWCTR4, &pwctr4);
        let pwctr5: [u8; 2] = [0x8A, 0xEE];
        assert(pwctr5@ =~= seq![0x8Au8, 0xEE]);
        write_command(&mut ops, Instruction::PWCTR5, &pwctr5);
        let vmctr1: [u8; 1] = [0x0E];
        assert(vmctr1@ =~= seq![0x0Eu8]);
        write_command(&mut ops, Instruction::VMCTR1, &vmctr1);
        if self.inverted {
            write_command(&mut ops, Instruction::INVON, &none);
        } else {
            write_command(&mut ops, Instruction::INVOFF, &none);
        }
        let madctl: [u8; 1] = [if self.rgb { 0x00 } else { BGR_BIT }];
        assert(0x00u8 | BGR_BIT == BGR_BIT) by (bit_vector);
        assert(madctl@ =~= seq![madctl_byte(self.rgb, 0x00)]);
        write_command(&mut ops, Instruction::MADCTL, &madctl);
        let colmod: [u8; 1] = [0x05];
        assert(colmod@ =~= seq![0x05u8]);
        write_command(&mut ops, Instruction::COLMOD, &colmod);
        write_command(&mut ops, Instruction::DISPON, &none);
        Self::push_settle(&mut ops);
        Exchange::new(ops)
    }

    /// Sets the display orientation, combined in one write with the BGR bit
    /// when the panel is BGR.
    pub fn set_orientation(&self, orientation: &Orientation) -> (r: Exchange)
        ensures
            r@ == Progress::start(orientation_signals(self.spec_rgb(), *orientation)),
    {
        let control = orientation.to_u8();
        let byte: u8 = if self.rgb { control } else { control | BGR_BIT };
        let param: [u8; 1] = [byte];
        assert(param@ =~= seq![madctl_byte(self.rgb, orientation.control())]);
        let mut ops: Vec<Op> = Vec::new();
        write_command(&mut ops, Instruction::MADCTL, &param);
        assert(signals(ops@) =~= orientation_signals(self.rgb, *orientation));
        Exchange::new(ops)
    }

    /// Appends the address window (x0, y0)-(x1, y1) to a program.
    fn set_address_window(ops: &mut Vec<Op>, x0: u16, y0: u16, x1: u16, y1: u16)
        ensures
            signals(final(ops)@) == signals(old(ops)@) + window_signals(x0, y0, x1, y1),
    {
        let ghost start = signals(ops@);
        let none: [u8; 0] = [];
        assert(none@ =~= seq![]);
        write_command(ops, Instruction::CASET, &none);
        write_word(ops, x0);
        write_word(ops, x1);
        write_command(ops, Instruction::RASET, &none);
        write_word(ops, y0);
        write_word(ops, y1);
        assert(signals(ops@) =~= start + window_signals(x0, y0, x1, y1));
    }

    /// Appends the writing of one pixel to a program.
    fn push_pixel(ops: &mut Vec<Op>, x: u16, y: u16, color: u16)
        ensures
            signals(final(ops)@) == signals(old(ops)@) + pixel_signals(x, y, color),
    {
        let ghost start = signals(ops@);
        let none: [u8; 0] = [];
        assert(none@ =~= seq![]);
        Self::set_address_window(ops, x, y, x, y);
        write_command(ops, Instruction::RAMWR, &none);
        write_word(ops, color);
        assert(signals(ops@) =~= start + pixel_signals(x, y, color));
    }

    /// Writes one pixel: a 1x1 address window at (x, y), memory write, then
    /// the colour, most significant byte first.
    pub fn set_pixel(&self, x: u16, y: u16, color: u16) -> (r: Exchange)
        ensures
            r@ == Progress::start(pixel_signals(x, y, color)),
    {
        let mut ops: Vec<Op> = Vec::new();
        Self::push_pixel(&mut ops, x, y, color);
        assert(signals(ops@) =~= pixel_signals(x, y, color));
        Exchange::new(ops)
    }

    /// Writes pixels (x, y, colour) in the order given, each as
    /// [`ST7735::set_pixel`] would; the exchange stops at the first failure.
    pub fn draw(&self, pixels: &[(u16, u16, u16)]) -> (r: Exchange)
        ensures
            r@ == Progress::start(pixels_signals(pixels@)),
    {
        let mut ops: Vec<Op> = Vec::new();
        let mut i: usize = 0;
        while i < pixels.len()
            invariant
                i <= pixels@.len(),
                signals(ops@) == pixels_signals(pixels@.take(i as int)),
            decreases pixels@.len() - i,
        {
            let (x, y, color) = pixels[i];
            Self::push_pixel(&mut ops, x, y, color);
            assert(pixels@.take(i + 1).drop_last() =~= pixels@.take(i as int));
            i = i + 1;
        }
        assert(pixels@.take(i as int) =~= pixels@);
        Exchange::new(ops)
    }
}

/// Writing a pixel is, in this order: selector low and the column-address-set
/// opcode; selector high and `x` twice, big-endian; selector low and the
/// row-address-set opcode; selector high and `y` twice; selector low and the
/// memory-write opcode; selector high and the colour.
pub proof fn lemma_pixel_wire_order(x: u16, y: u16, color: u16)
    ensures
        pixel_signals(x, y, color) == seq![
            Signal::Select(false), Signal::Send(seq![0x2Au8]),
            Signal::Select(true), Signal::Send(big_endian(x)),
            Signal::Select(true), Signal::Send(big_endian(x)),
            Signal::Select(false), Signal::Send(seq![0x2Bu8]),
            Signal::Select(true), Signal::Send(big_endian(y)),
            Signal::Select(true), Signal::Send(big_endian(y)),
            Signal::Select(false), Signal::Send(seq![0x2Cu8]),
            Signal::Select(true), Signal::Send(big_endian(color)),
        ],
{
    assert(pixel_signals(x, y, color) =~= seq![
        Signal::Select(false), Signal::Send(seq![0x2Au8]),
        Signal::Select(true), Signal::Send(big_endian(x)),
        Signal::Select(true), Signal::Send(big_endian(x)),
        Signal::Select(false), Signal::Send(seq![0x2Bu8]),
        Signal::Select(true), Signal::Send(big_endian(y)),
        Signal::Select(true), Signal::Send(big_endian(y)),
        Signal::Select(false), Signal::Send(seq![0x2Cu8]),
        Signal::Select(true), Signal::Send(big_endian(color)),
    ]);
}

/// The bring-up sequence starts with the reset pulse high, low, high, and
/// nothing is transmitted before it ends.
pub proof fn lemma_init_resets_before_transmitting(rgb: bool, inverted: bool)
    ensures
        init_signals(rgb, inverted).take(3) == seq![
            Signal::Reset(true), Signal::Reset(false), Signal::Reset(true),
        ],
        forall|i: int| 0 <= i < 3 ==> !(#[trigger] init_signals(rgb, inverted)[i] is Send),
        init_signals(rgb, inverted)[4] == Signal::Send(seq![0x01u8]),
{
    let s = init_signals(rgb, inverted);
    assert(s.take(3) =~= reset_signals());
}

/// The orientation parameter is the orientation's control bits, OR'd with the
/// BGR bit (0x08) exactly when the panel is BGR.
pub proof fn lemma_orientation_color_order(rgb: bool, orientation: Orientation)
    ensures
        orientation_signals(rgb, orientation) == seq![
            Signal::Select(false), Signal::Send(seq![0x36u8]),
            Signal::Select(true),
            Signal::Send(seq![if rgb { orientation.control() } else { orientation.control() | 0x08u8 }]),
        ],
        madctl_byte(true, orientation.control()) == orientation.control(),
        madctl_byte(false, orientation.control()) == orientation.control() | 0x08,
{
    assert(orientation_signals(rgb, orientation) =~= seq![
        Signal::Select(false), Signal::Send(seq![0x36u8]),
        Signal::Select(true),
        Signal::Send(seq![if rgb { orientation.control() } else { orientation.control() | 0x08u8 }]),
    ]);
}

/// Pixels are written one after the other: the pixels of `first` in full
/// before any of those of `rest`.
pub proof fn lemma_pixels_in_order(first: Seq<(u16, u16, u16)>, rest: Seq<(u16, u16, u16)>)
    ensures
        pixels_signals(first + rest) == pixels_signals(first) + pixels_signals(rest),
    decreases rest.len(),
{
    if rest.len() == 0 {
        assert(first + rest =~= first);
        assert(pixels_signals(first) + pixels_signals(rest) =~= pixels_signals(first));
    } else {
        assert((first + rest).drop_last() =~= first + rest.drop_last());
        assert((first + rest).last() == rest.last());
        lemma_pixels_in_order(first, rest.drop_last());
        let (x, y, color) = rest.last();
        assert(pixels_signals(first) + pixels_signals(rest) =~= pixels_signals(first)
            + pixels_signals(rest.drop_last()) + pixel_signals(x, y, color));
    }
}

/// Every transfer of every request (bring-up, reset, orientation, pixels)
/// directly follows a setting of the data/command selector.
pub proof fn lemma_requests_are_framed(
    rgb: bool,
    inverted: bool,
    orientation: Orientation,
    pixels: Seq<(u16, u16, u16)>,
)
    ensures
        framed(init_signals(rgb, inverted)),
        framed(reset_signals()),
        framed(orientation_signals(rgb, orientation)),
        framed(pixels_signals(pixels)),
{
    broadcast use lemma_framed_concat, lemma_command_framed, lemma_data_framed;

    assert(framed(reset_signals()));
    assert(framed(seq![Signal::Pause(SETTLE_MS)]));
    assert(framed(init_signals(rgb, inverted)));
    lemma_pixels_framed(pixels);
}

proof fn lemma_pixels_framed(pixels: Seq<(u16, u16, u16)>)
    ensures
        framed(pixels_signals(pixels)),
    decreases pixels.len(),
{
    broadcast use lemma_framed_concat, lemma_command_framed, lemma_data_framed;

    if pixels.len() > 0 {
        lemma_pixels_framed(pixels.drop_last());
        let (x, y, color) = pixels.last();
        assert(framed(pixel_signals(x, y, color)));
    }
}

} // verus!
