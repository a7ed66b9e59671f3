use vstd::prelude::*;
use vstd::slice::slice_to_vec;

use crate::instruction::Instruction;

verus! {

/// One operation on the wires to the panel.
#[derive(Debug, PartialEq, Eq)]
pub enum Op {
    /// Drive the hardware reset line to the given level (true: high).
    Reset(bool),
    /// Drive the data/command selector to the given level (false: command, true: data).
    Select(bool),
    /// Transmit these bytes over the bus in one transfer.
    Send(Vec<u8>),
    /// Block for this many milliseconds.
    Pause(u32),
}

/// The mathematical value of an [`Op`].
pub enum Signal {
    Reset(bool),
    Select(bool),
    Send(Seq<u8>),
    Pause(u32),
}

impl View for Op {
    type V = Signal;

    open spec fn view(&self) -> Signal {
        match self {
            Op::Reset(level) => Signal::Reset(*level),
            Op::Select(level) => Signal::Select(*level),
            Op::Send(bytes) => Signal::Send(bytes@),
            Op::Pause(ms) => Signal::Pause(*ms),
        }
    }
}

/// The signals of a sequence of operations.
pub open spec fn signals(ops: Seq<Op>) -> Seq<Signal> {
    ops.map_values(|op: Op| op@)
}

/// A 16-bit word in the panel's byte order: most significant byte first.
pub open spec fn big_endian(value: u16) -> Seq<u8> {
    seq![(value >> 8u16) as u8, (value & 0xffu16) as u8]
}

/// Parameter or pixel bytes: selector high, then one transfer of the bytes.
pub open spec fn data_signals(data: Seq<u8>) -> Seq<Signal> {
    seq![Signal::Select(true), Signal::Send(data)]
}

/// A 16-bit word sent as data, big-endian.
pub open spec fn word_signals(value: u16) -> Seq<Signal> {
    data_signals(big_endian(value))
}

/// A command: selector low, one transfer of the opcode byte, then the
/// parameter bytes as data when there are any.
pub open spec fn command_signals(opcode: u8, params: Seq<u8>) -> Seq<Signal> {
    let head = seq![Signal::Select(false), Signal::Send(seq![opcode])];
    if params.len() == 0 {
        head
    } else {
        head + data_signals(params)
    }
}

proof fn lemma_signals_push(ops: Seq<Op>, op: Op)
    ensures
        signals(ops.push(op)) == signals(ops).push(op@),
{
    assert(signals(ops.push(op)) =~= signals(ops).push(op@));
}

/// Appends one operation to a program.
pub fn push_op(ops: &mut Vec<Op>, op: Op)
    ensures
        signals(final(ops)@) == signals(old(ops)@).push(op@),
{
    proof {
        lemma_signals_push(old(ops)@, op);
    }
    ops.push(op);
}

/// The two bytes of a 16-bit word, most significant first.
pub fn word_bytes(value: u16) -> (r: [u8; 2])
    ensures
        r@ == big_endian(value),
{
    let r: [u8; 2] = [(value >> 8u16) as u8, (value & 0xffu16) as u8];
    assert(r@ =~= big_endian(value));
    r
}

/// Appends a data write of `data` to a program.
pub fn write_data(ops: &mut Vec<Op>, data: &[u8])
    ensures
        signals(final(ops)@) == signals(old(ops)@) + data_signals(data@),
{
    let ghost start = signals(ops@);
    push_op(ops, Op::Select(true));
    push_op(ops, Op::Send(slice_to_vec(data)));
    assert(signals(ops@) =~= start + data_signals(data@));
}

/// Appends a 16-bit word, big-endian, as a data write to a program.
pub fn write_word(ops: &mut Vec<Op>, value: u16)
    ensures
        signals(final(ops)@) == signals(old(ops)@) + word_signals(value),
{
    let bytes = word_bytes(value);
    write_data(ops, &bytes);
}

/// Appends a command with its parameter bytes (none when `params` is empty)
/// to a program.
pub fn write_command(ops: &mut Vec<Op>, command: Instruction, params: &[u8])
    ensures
        signals(final(ops)@) == signals(old(ops)@) + command_signals(command.opcode(), params@),
{
    let ghost start = signals(ops@);
    let mut opcode: Vec<u8> = Vec::new();
    opcode.push(command.to_u8());
    push_op(ops, Op::Select(false));
    push_op(ops, Op::Send(opcode));
    assert(opcode@ =~= seq![command.opcode()]);
    if params.len() > 0 {
        write_data(ops, params);
        assert(signals(ops@) =~= start + command_signals(command.opcode(), params@));
    } else {
        assert(signals(ops@) =~= start + command_signals(command.opcode(), params@));
    }
}

/// A command starts with the selector low and a transfer of the opcode byte
/// alone; parameters, when there are any, follow as one data transfer.
pub proof fn lemma_command_emits_opcode(command: Instruction, params: Seq<u8>)
    ensures
        command_signals(command.opcode(), params)[0] == Signal::Select(false),
        command_signals(command.opcode(), params)[1] == Signal::Send(seq![command.opcode()]),
        params.len() == 0 ==> command_signals(command.opcode(), params).len() == 2,
        params.len() > 0 ==> command_signals(command.opcode(), params) == seq![
            Signal::Select(false), Signal::Send(seq![command.opcode()]),
            Signal::Select(true), Signal::Send(params),
        ],
{
    if params.len() > 0 {
        assert(command_signals(command.opcode(), params) =~= seq![
            Signal::Select(false), Signal::Send(seq![command.opcode()]),
            Signal::Select(true), Signal::Send(params),
        ]);
    }
}

/// A word goes out as exactly two bytes, `value >> 8` then `value & 0xFF`,
/// from which the word is recovered.
pub proof fn lemma_big_endian_word(value: u16)
    ensures
        big_endian(value).len() == 2,
        big_endian(value)[0] == (value >> 8u16) as u8,
        big_endian(value)[1] == (value & 0xffu16) as u8,
        (big_endian(value)[0] as u16) * 256 + (big_endian(value)[1] as u16) == value,
{
    assert((((value >> 8u16) as u8) as u16) * 256 + (((value & 0xffu16) as u8) as u16) == value)
        by (bit_vector);
}

/// Every transfer directly follows a setting of the data/command selector, with
/// nothing in between.
pub open spec fn framed(s: Seq<Signal>) -> bool {
    forall|i: int| 0 <= i < s.len() && (#[trigger] s[i]) is Send ==> i > 0 && s[i - 1] is Select
}

/// Two framed programs, one after the other, are framed.
pub broadcast proof fn lemma_framed_concat(a: Seq<Signal>, b: Seq<Signal>)
    requires
        framed(a),
        framed(b),
    ensures
        #[trigger] framed(a + b),
{
    assert forall|i: int| 0 <= i < (a + b).len() && (#[trigger] (a + b)[i]) is Send implies i > 0
        && (a + b)[i - 1] is Select by {
        if i < a.len() {
            assert((a + b)[i] == a[i]);
            if i > 0 {
                assert((a + b)[i - 1] == a[i - 1]);
            }
        } else {
            let j = i - a.len();
            assert((a + b)[i] == b[j]);
            assert(j > 0);
            assert((a + b)[i - 1] == b[j - 1]);
        }
    }
}

/// Commands and data writes are framed.
pub broadcast proof fn lemma_command_framed(opcode: u8, params: Seq<u8>)
    ensures
        #[trigger] framed(command_signals(opcode, params)),
{
    let head = seq![Signal::Select(false), Signal::Send(seq![opcode])];
    assert(framed(head)) by {
        assert forall|i: int| 0 <= i < head.len() && (#[trigger] head[i]) is Send implies i > 0
            && head[i - 1] is Select by {
            assert(i == 1);
        }
    }
    if params.len() > 0 {
        lemma_data_framed(params);
        lemma_framed_concat(head, data_signals(params));
    }
}

/// A data write is framed.
pub broadcast proof fn lemma_data_framed(data: Seq<u8>)
    ensures
        #[trigger] framed(data_signals(data)),
{
    let s = data_signals(data);
    assert forall|i: int| 0 <= i < s.len() && (#[trigger] s[i]) is Send implies i > 0 && s[i
        - 1] is Select by {
        assert(i == 1);
    }
}

} // verus!
