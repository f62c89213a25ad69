//! FlexSPI NOR Storage Bus Driver module for the NXP RT6xx family of microcontrollers
//!
//! All commands sent over the FlexSPI bus are first programmed into a lookup
//! table (LUT) of instruction sequences, then triggered through the IP command
//! port; data moves through the IP RX and TX FIFOs in watermark-sized chunks.
//! This module holds the decisions of the driver: the LUT encoding of a
//! command, the decoding of the interrupt status after a command, the layout
//! of data in the FIFO words and the values of the configuration registers.

use vstd::prelude::*;

use mimxrt600_fcb::FlexSpiLutOpcode;

verus! {

//
// Commands, as the NOR storage layer describes them
//

/// Command transfer rate.
#[derive(Clone, Copy, Debug, PartialEq, Eq, Structural)]
pub enum NorStorageCmdMode {
    /// Single data rate.
    SDR,
    /// Double data rate.
    DDR,
}

/// Number of data lines used by a command.
#[derive(Clone, Copy, Debug, PartialEq, Eq, Structural)]
pub enum NorStorageBusWidth {
    Single,
    Dual,
    Quad,
    Octal,
}

/// Dummy phase of a command.
#[derive(Clone, Copy, Debug, PartialEq, Eq, Structural)]
pub enum NorStorageDummyCycles {
    /// Dummy phase given in bytes.
    Bytes(u8),
    /// Dummy phase given in clock cycles.
    Clocks(u8),
}

/// Direction of the data phase of a command.
#[derive(Clone, Copy, Debug, PartialEq, Eq, Structural)]
pub enum NorStorageCmdType {
    Read,
    Write,
}

/// A command for a NOR flash device.
#[derive(Clone, Copy, Debug, PartialEq, Eq, Structural)]
pub struct NorStorageCmd {
    /// Command code (lower byte).
    pub cmd_lb: u8,
    /// Second command byte, for two-byte command codes.
    pub cmd_ub: Option<u8>,
    /// Address sent with the command.
    pub addr: Option<u32>,
    /// Address width in bits.
    pub addr_width: Option<u8>,
    /// Transfer rate.
    pub mode: NorStorageCmdMode,
    /// Dummy phase.
    pub dummy: NorStorageDummyCycles,
    /// Direction of the data phase, if any.
    pub cmdtype: Option<NorStorageCmdType>,
    /// Number of data lines.
    pub bus_width: NorStorageBusWidth,
    /// Length of the data phase in bytes.
    pub data_bytes: Option<u32>,
}

/// Error reported to the NOR storage layer.
#[derive(Clone, Copy, Debug, PartialEq, Eq, Structural)]
pub enum NorStorageBusError {
    StorageBusNotAvailable,
    StorageBusIoError,
    StorageBusInternalError,
}

//
// LUT opcodes
//

/// `FlexSpiLutOpcode::CMD_SDR` and `CMD_DDR` of mimxrt600-fcb as opcode field
/// values; the enum is `repr(u8)` with discriminants 0x01 and 0x21.
#[verifier::external_body]
fn cmd_opcodes() -> (r: (u8, u8))
    ensures
        r.0 == 0x01,
        r.1 == 0x21,
{
    (FlexSpiLutOpcode::CMD_SDR as u8, FlexSpiLutOpcode::CMD_DDR as u8)
}

/// `FlexSpiLutOpcode::RADDR_SDR` and `RADDR_DDR` of mimxrt600-fcb as opcode
/// field values; their discriminants are 0x02 and 0x22.
#[verifier::external_body]
fn raddr_opcodes() -> (r: (u8, u8))
    ensures
        r.0 == 0x02,
        r.1 == 0x22,
{
    (FlexSpiLutOpcode::RADDR_SDR as u8, FlexSpiLutOpcode::RADDR_DDR as u8)
}

/// `FlexSpiLutOpcode::DUMMY_SDR` and `DUMMY_DDR` of mimxrt600-fcb as opcode
/// field values; their discriminants are 0x0c and 0x2c.
#[verifier::external_body]
fn dummy_opcodes() -> (r: (u8, u8))
    ensures
        r.0 == 0x0c,
        r.1 == 0x2c,
{
    (FlexSpiLutOpcode::DUMMY_SDR as u8, FlexSpiLutOpcode::DUMMY_DDR as u8)
}

/// `FlexSpiLutOpcode::READ_SDR` and `READ_DDR` of mimxrt600-fcb as opcode
/// field values; their discriminants are 0x09 and 0x29.
#[verifier::external_body]
fn read_opcodes() -> (r: (u8, u8))
    ensures
        r.0 == 0x09,
        r.1 == 0x29,
{
    (FlexSpiLutOpcode::READ_SDR as u8, FlexSpiLutOpcode::READ_DDR as u8)
}

/// `FlexSpiLutOpcode::WRITE_SDR` and `WRITE_DDR` of mimxrt600-fcb as opcode
/// field values; their discriminants are 0x08 and 0x28.
#[verifier::external_body]
fn write_opcodes() -> (r: (u8, u8))
    ensures
        r.0 == 0x08,
        r.1 == 0x28,
{
    (FlexSpiLutOpcode::WRITE_SDR as u8, FlexSpiLutOpcode::WRITE_DDR as u8)
}

/// `FlexSpiLutOpcode::STOP` of mimxrt600-fcb as an opcode field value; its
/// discriminant is 0x00.
#[verifier::external_body]
fn stop_opcode() -> (r: u8)
    ensures
        r == 0x00,
{
    FlexSpiLutOpcode::STOP as u8
}

//
// LUT programming
//

/// One LUT instruction.
#[derive(Clone, Copy, Debug, PartialEq, Eq, Structural)]
pub struct LutInstruction {
    /// OPCODE field (6 bits).
    pub opcode: u8,
    /// NUM_PADS field (2 bits): 0, 1, 2 or 3 for 1, 2, 4 or 8 data lines.
    pub num_pads: u8,
    /// OPERAND field.
    pub operand: u8,
}

/// Opcode of an instruction kind in the command's transfer rate.
pub open spec fn rate_opcode(mode: NorStorageCmdMode, sdr: u8, ddr: u8) -> u8 {
    match mode {
        NorStorageCmdMode::SDR => sdr,
        NorStorageCmdMode::DDR => ddr,
    }
}

/// NUM_PADS value of a bus width.
pub open spec fn pads_of(width: NorStorageBusWidth) -> u8 {
    match width {
        NorStorageBusWidth::Single => 0,
        NorStorageBusWidth::Dual => 1,
        NorStorageBusWidth::Quad => 2,
        NorStorageBusWidth::Octal => 3,
    }
}

/// Length of the dummy phase, whatever its unit.
pub open spec fn dummy_len(dummy: NorStorageDummyCycles) -> u8 {
    match dummy {
        NorStorageDummyCycles::Bytes(n) => n,
        NorStorageDummyCycles::Clocks(n) => n,
    }
}

/// Command instruction(s): the command byte, and the second byte of a
/// two-byte command code.
pub open spec fn cmd_part(cmd: NorStorageCmd) -> Seq<LutInstruction> {
    let op = rate_opcode(cmd.mode, 0x01, 0x21);
    let pads = pads_of(cmd.bus_width);
    let first = seq![LutInstruction { opcode: op, num_pads: pads, operand: cmd.cmd_lb }];
    match cmd.cmd_ub {
        Some(ub) => first.push(LutInstruction { opcode: op, num_pads: pads, operand: ub }),
        None => first,
    }
}

/// Address instruction, whose operand is the address width, if the command
/// carries an address.
pub open spec fn addr_part(cmd: NorStorageCmd) -> Seq<LutInstruction> {
    match cmd.addr_width {
        Some(w) => seq![
            LutInstruction {
                opcode: rate_opcode(cmd.mode, 0x02, 0x22),
                num_pads: pads_of(cmd.bus_width),
                operand: w,
            },
        ],
        None => Seq::empty(),
    }
}

/// Dummy instruction, if the dummy phase is not empty.
pub open spec fn dummy_part(cmd: NorStorageCmd) -> Seq<LutInstruction> {
    if dummy_len(cmd.dummy) > 0 {
        seq![
            LutInstruction {
                opcode: rate_opcode(cmd.mode, 0x0c, 0x2c),
                num_pads: pads_of(cmd.bus_width),
                operand: dummy_len(cmd.dummy),
            },
        ]
    } else {
        Seq::empty()
    }
}

/// Data instruction for a data phase of `len` bytes.
pub open spec fn data_instruction(cmd: NorStorageCmd, kind: NorStorageCmdType, len: u8) -> LutInstruction {
    LutInstruction {
        opcode: match kind {
            NorStorageCmdType::Read => rate_opcode(cmd.mode, 0x09, 0x29),
            NorStorageCmdType::Write => rate_opcode(cmd.mode, 0x08, 0x28),
        },
        num_pads: pads_of(cmd.bus_width),
        operand: len,
    }
}

/// Data instruction, if the command moves data; its operand is the data
/// length truncated to a byte.
pub open spec fn data_part(cmd: NorStorageCmd) -> Seq<LutInstruction> {
    match cmd.cmdtype {
        Some(kind) => seq![data_instruction(cmd, kind, cmd.data_bytes.unwrap() as u8)],
        None => Seq::empty(),
    }
}

/// The STOP instruction that ends every sequence.
pub open spec fn stop_instruction() -> LutInstruction {
    LutInstruction { opcode: 0, num_pads: 0, operand: 0 }
}

/// The instruction sequence that carries a command: the command byte(s), the
/// address if the command has one, the dummy phase if it is not empty, the
/// data phase if the command moves data, and STOP.
pub open spec fn lut_program(cmd: NorStorageCmd) -> Seq<LutInstruction> {
    cmd_part(cmd) + addr_part(cmd) + dummy_part(cmd) + data_part(cmd) + seq![stop_instruction()]
}

/// A command whose data phase has a length.
pub open spec fn cmd_well_formed(cmd: NorStorageCmd) -> bool {
    cmd.cmdtype is Some ==> cmd.data_bytes is Some
}

/// An instruction whose fields fit their bit widths.
pub open spec fn instruction_fits(i: LutInstruction) -> bool {
    i.opcode < 64 && i.num_pads < 4
}

/// The 16-bit encoding of an instruction: OPCODE in bits 15:10, NUM_PADS in
/// bits 9:8, OPERAND in bits 7:0.
pub open spec fn encode_instruction(i: LutInstruction) -> int {
    i.opcode as int * 1024 + i.num_pads as int * 256 + i.operand as int
}

/// Half `j` of a LUT sequence once the first `m` instructions of `prog`
/// are written into it (zero where nothing is written).
pub open spec fn lut_half(prog: Seq<LutInstruction>, m: int, j: int) -> int {
    if 0 <= j < m && j < prog.len() {
        encode_instruction(prog[j])
    } else {
        0
    }
}

/// Word `w` of a LUT sequence once the first `m` instructions of `prog` are
/// written: instruction 2w in the lower half, instruction 2w+1 in the upper.
pub open spec fn lut_word(prog: Seq<LutInstruction>, m: int, w: int) -> int {
    lut_half(prog, m, 2 * w) + 65536 * lut_half(prog, m, 2 * w + 1)
}

/// The four LUT words of a sequence holding the whole of `prog`.
pub open spec fn lut_words(prog: Seq<LutInstruction>) -> Seq<u32> {
    Seq::new(4, |w: int| lut_word(prog, prog.len() as int, w) as u32)
}

/// Position of an instruction inside the LUT.
#[derive(PartialEq, Eq, Structural, Clone, Copy, Debug)]
pub enum LutInstrNum {
    /// First instruction in the LUT word
    First,
    /// Second instruction in the LUT word
    Second,
}

/// LUT instruction pointer used during LUT programming.
#[derive(Clone, Copy, Debug)]
pub struct LutInstrCookie {
    /// Index of the LUT word.
    pub seq_num: u8,
    /// Half of the LUT word.
    pub instr_num: LutInstrNum,
}

impl LutInstrCookie {
    /// Position of the cookie counted in instructions from LUT word `base`.
    pub open spec fn position(self, base: int) -> int {
        (self.seq_num - base) * 2 + if self.instr_num == LutInstrNum::First {
            0int
        } else {
            1int
        }
    }

    /// Advances to the next instruction slot.
    pub fn next_instruction(&mut self)
        requires
            old(self).instr_num == LutInstrNum::Second ==> old(self).seq_num < 255,
        ensures
            old(self).instr_num == LutInstrNum::Second ==> final(self).seq_num == old(self).seq_num
                + 1 && final(self).instr_num == LutInstrNum::First,
            old(self).instr_num == LutInstrNum::First ==> final(self).seq_num == old(self).seq_num
                && final(self).instr_num == LutInstrNum::Second,
    {
        if self.instr_num == LutInstrNum::Second {
            self.seq_num = self.seq_num + 1;
            self.instr_num = LutInstrNum::First;
        } else {
            self.instr_num = LutInstrNum::Second;
        }
    }
}

fn bus_pads(width: NorStorageBusWidth) -> (r: u8)
    ensures
        r == pads_of(width),
{
    match width {
        NorStorageBusWidth::Single => 0,
        NorStorageBusWidth::Dual => 1,
        NorStorageBusWidth::Quad => 2,
        NorStorageBusWidth::Octal => 3,
    }
}

fn pick_rate(mode: NorStorageCmdMode, ops: (u8, u8)) -> (r: u8)
    ensures
        r == rate_opcode(mode, ops.0, ops.1),
{
    match mode {
        NorStorageCmdMode::SDR => ops.0,
        NorStorageCmdMode::DDR => ops.1,
    }
}

fn program_cmd_instruction(cmd: &NorStorageCmd, prog: &mut Vec<LutInstruction>)
    ensures
        final(prog)@ == old(prog)@ + cmd_part(*cmd),
{
    let cmd_mode = pick_rate(cmd.mode, cmd_opcodes());
    let bus_width = bus_pads(cmd.bus_width);
    prog.push(LutInstruction { opcode: cmd_mode, num_pads: bus_width, operand: cmd.cmd_lb });
    match cmd.cmd_ub {
        Some(ub) => {
            prog.push(LutInstruction { opcode: cmd_mode, num_pads: bus_width, operand: ub });
        },
        None => {},
    }
}

fn program_addr_instruction(cmd: &NorStorageCmd, addr_width: u8, prog: &mut Vec<LutInstruction>)
    requires
        cmd.addr_width == Some(addr_width),
    ensures
        final(prog)@ == old(prog)@ + addr_part(*cmd),
{
    let cmd_mode = pick_rate(cmd.mode, raddr_opcodes());
    let bus_width = bus_pads(cmd.bus_width);
    prog.push(LutInstruction { opcode: cmd_mode, num_pads: bus_width, operand: addr_width });
}

fn program_dummy_instruction_if_non_zero(cmd: &NorStorageCmd, prog: &mut Vec<LutInstruction>)
    ensures
        final(prog)@ == old(prog)@ + dummy_part(*cmd),
{
    let cmd_mode = pick_rate(cmd.mode, dummy_opcodes());
    let bus_width = bus_pads(cmd.bus_width);
    let dummy_val: u8 = match cmd.dummy {
        NorStorageDummyCycles::Bytes(dummy_bytes) => dummy_bytes,
        NorStorageDummyCycles::Clocks(dummy_cycles) => dummy_cycles,
    };
    if dummy_val > 0 {
        prog.push(LutInstruction { opcode: cmd_mode, num_pads: bus_width, operand: dummy_val });
    }
    proof {
        assert(final(prog)@ =~= old(prog)@ + dummy_part(*cmd));
    }
}

fn program_read_data_instruction(
    cmd: &NorStorageCmd,
    prog: &mut Vec<LutInstruction>,
    data_length: u8,
)
    ensures
        final(prog)@ == old(prog)@.push(
            data_instruction(*cmd, NorStorageCmdType::Read, data_length),
        ),
{
    let cmd_mode = pick_rate(cmd.mode, read_opcodes());
    let bus_width = bus_pads(cmd.bus_width);
    prog.push(LutInstruction { opcode: cmd_mode, num_pads: bus_width, operand: data_length });
}

fn program_write_data_instruction(
    cmd: &NorStorageCmd,
    prog: &mut Vec<LutInstruction>,
    data_length: u8,
)
    ensures
        final(prog)@ == old(prog)@.push(
            data_instruction(*cmd, NorStorageCmdType::Write, data_length),
        ),
{
    let cmd_mode = pick_rate(cmd.mode, write_opcodes());
    let bus_width = bus_pads(cmd.bus_width);
    prog.push(LutInstruction { opcode: cmd_mode, num_pads: bus_width, operand: data_length });
}

fn program_stop_instruction(prog: &mut Vec<LutInstruction>)
    ensures
        final(prog)@ == old(prog)@.push(stop_instruction()),
{
    prog.push(LutInstruction { opcode: stop_opcode(), num_pads: 0, operand: 0 });
}

/// The instruction sequence that carries `cmd`.
pub fn lut_instructions(cmd: &NorStorageCmd) -> (r: Vec<LutInstruction>)
    requires
        cmd_well_formed(*cmd),
    ensures
        r@ == lut_program(*cmd),
{
    let mut prog: Vec<LutInstruction> = Vec::new();
    program_cmd_instruction(cmd, &mut prog);
    match cmd.addr_width {
        Some(w) => program_addr_instruction(cmd, w, &mut prog),
        None => {},
    }
    program_dummy_instruction_if_non_zero(cmd, &mut prog);
    match cmd.cmdtype {
        Some(NorStorageCmdType::Read) => {
            let n: u32 = cmd.data_bytes.unwrap();
            program_read_data_instruction(cmd, &mut prog, n as u8);
        },
        Some(NorStorageCmdType::Write) => {
            let n: u32 = cmd.data_bytes.unwrap();
            program_write_data_instruction(cmd, &mut prog, n as u8);
        },
        None => {},
    }
    program_stop_instruction(&mut prog);
    proof {
        assert(prog@ =~= lut_program(*cmd));
    }
    prog
}

/// Every instruction of a command's sequence fits its fields; a sequence
/// starts with the command byte, ends with STOP and has at most six
/// instructions, so it never spills out of the four words of its LUT slot.
pub proof fn lemma_lut_program_fits(cmd: NorStorageCmd)
    ensures
        2 <= lut_program(cmd).len() <= 6,
        lut_program(cmd)[0] == (LutInstruction {
            opcode: rate_opcode(cmd.mode, 0x01, 0x21),
            num_pads: pads_of(cmd.bus_width),
            operand: cmd.cmd_lb,
        }),
        lut_program(cmd).last() == stop_instruction(),
        forall|j: int| 0 <= j < lut_program(cmd).len() ==> instruction_fits(#[trigger] lut_program(cmd)[j]),
{
    let p = lut_program(cmd);
    assert forall|j: int| 0 <= j < p.len() implies instruction_fits(#[trigger] p[j]) by {
        let a = cmd_part(cmd);
        let b = addr_part(cmd);
        let c = dummy_part(cmd);
        let d = data_part(cmd);
        if j < a.len() {
        } else if j < a.len() + b.len() {
        } else if j < a.len() + b.len() + c.len() {
        } else if j < a.len() + b.len() + c.len() + d.len() {
        } else {
        }
    }
}

/// Every instruction of a command's sequence before the closing STOP is
/// issued at the command's transfer rate and on its bus width: its opcode is
/// in the DDR range (0x20 and up) exactly for a DDR command, and its pads
/// are those of the command byte. A command that moves data has its data
/// instruction just before STOP, READ (0x09) or WRITE (0x08) in the low bits
/// as the command type says, with the data length (truncated to a byte) as
/// operand.
pub proof fn lemma_lut_program_rate(cmd: NorStorageCmd)
    requires
        cmd_well_formed(cmd),
    ensures
        forall|j: int|
            0 <= j < lut_program(cmd).len() - 1 ==> {
                let i = #[trigger] lut_program(cmd)[j];
                &&& i.opcode != 0
                &&& (i.opcode >= 0x20) == (cmd.mode == NorStorageCmdMode::DDR)
                &&& i.opcode < 0x40
                &&& i.num_pads == lut_program(cmd)[0].num_pads
            },
        cmd.cmdtype is Some ==> {
            let d = lut_program(cmd)[lut_program(cmd).len() - 2];
            &&& d.opcode % 32 == (if cmd.cmdtype == Some(NorStorageCmdType::Read) {
                0x09u8
            } else {
                0x08u8
            })
            &&& d.operand == cmd.data_bytes.unwrap() as u8
        },
        cmd.cmdtype is None ==> forall|j: int|
            0 <= j < lut_program(cmd).len() ==> #[trigger] lut_program(cmd)[j].opcode % 32 != 0x09
                && lut_program(cmd)[j].opcode % 32 != 0x08,
{
    let p = lut_program(cmd);
    let a = cmd_part(cmd);
    let b = addr_part(cmd);
    let c = dummy_part(cmd);
    let d = data_part(cmd);
    assert(p[0] == a[0]);
    assert forall|j: int| 0 <= j < p.len() - 1 implies {
        let i = #[trigger] p[j];
        &&& i.opcode != 0
        &&& (i.opcode >= 0x20) == (cmd.mode == NorStorageCmdMode::DDR)
        &&& i.opcode < 0x40
        &&& i.num_pads == p[0].num_pads
    } by {
        if j < a.len() {
        } else if j < a.len() + b.len() {
        } else if j < a.len() + b.len() + c.len() {
        } else {
            assert(p[j] == d[j - a.len() - b.len() - c.len()]);
        }
    }
    if cmd.cmdtype is Some {
        assert(p[p.len() - 2] == d[0]);
    }
    if cmd.cmdtype is None {
        assert forall|j: int| 0 <= j < p.len() implies #[trigger] p[j].opcode % 32 != 0x09
            && p[j].opcode % 32 != 0x08 by {
            if j < a.len() {
            } else if j < a.len() + b.len() {
            } else if j < a.len() + b.len() + c.len() {
            } else {
            }
        }
    }
}

/// The layout of a command's sequence: the command byte, the second command
/// byte if there is one, the address width if the command has an address,
/// the dummy length if it is not zero, the data length if the command moves
/// data, then STOP (all fields zero). Each opcode is the SDR one (CMD 0x01,
/// RADDR 0x02, DUMMY 0x0C, READ 0x09, WRITE 0x08) plus 0x20 for a DDR
/// command, and every instruction before STOP drives the command's data
/// lines (pads 0, 1, 2 or 3 for 1, 2, 4 or 8 lines).
pub proof fn lemma_lut_program_layout(cmd: NorStorageCmd)
    requires
        cmd_well_formed(cmd),
    ensures
        ({
            let p = lut_program(cmd);
            let rate: u8 = if cmd.mode == NorStorageCmdMode::DDR {
                0x20
            } else {
                0
            };
            let pads: u8 = match cmd.bus_width {
                NorStorageBusWidth::Single => 0,
                NorStorageBusWidth::Dual => 1,
                NorStorageBusWidth::Quad => 2,
                NorStorageBusWidth::Octal => 3,
            };
            let n_cmd: int = if cmd.cmd_ub is Some {
                2
            } else {
                1
            };
            let n_addr: int = if cmd.addr_width is Some {
                1
            } else {
                0
            };
            let dummy: u8 = match cmd.dummy {
                NorStorageDummyCycles::Bytes(n) => n,
                NorStorageDummyCycles::Clocks(n) => n,
            };
            let n_dummy: int = if dummy > 0 {
                1
            } else {
                0
            };
            let n_data: int = if cmd.cmdtype is Some {
                1
            } else {
                0
            };
            &&& p.len() == n_cmd + n_addr + n_dummy + n_data + 1
            &&& p[0] == (LutInstruction { opcode: (0x01 + rate) as u8, num_pads: pads, operand: cmd.cmd_lb })
            &&& cmd.cmd_ub matches Some(ub) ==> p[1] == (LutInstruction {
                opcode: (0x01 + rate) as u8,
                num_pads: pads,
                operand: ub,
            })
            &&& cmd.addr_width matches Some(w) ==> p[n_cmd] == (LutInstruction {
                opcode: (0x02 + rate) as u8,
                num_pads: pads,
                operand: w,
            })
            &&& dummy > 0 ==> p[n_cmd + n_addr] == (LutInstruction {
                opcode: (0x0C + rate) as u8,
                num_pads: pads,
                operand: dummy,
            })
            &&& cmd.cmdtype matches Some(kind) ==> p[n_cmd + n_addr + n_dummy] == (LutInstruction {
                opcode: (if kind == NorStorageCmdType::Read {
                    0x09 + rate
                } else {
                    0x08 + rate
                }) as u8,
                num_pads: pads,
                operand: cmd.data_bytes.unwrap() as u8,
            })
            &&& p[p.len() - 1] == (LutInstruction { opcode: 0, num_pads: 0, operand: 0 })
        }),
{
}

/// The 16 bits of LUT slot `j` in a sequence's words: the low half of word
/// `j / 2` for even `j`, the high half for odd `j`.
pub open spec fn lut_slot(words: Seq<u32>, j: int) -> int {
    if j % 2 == 0 {
        words[j / 2] as int % 65536
    } else {
        words[j / 2] as int / 65536
    }
}

/// How the four LUT words of a command hold its sequence: slot `j` (bits
/// 15:0 of word `j / 2` for even `j`, bits 31:16 for odd `j`) holds
/// instruction `j` as OPCODE in bits 15:10, NUM_PADS in bits 9:8 and
/// OPERAND in bits 7:0; slots past the end of the sequence are zero.
pub proof fn lemma_lut_words_decode(cmd: NorStorageCmd)
    ensures
        lut_words(lut_program(cmd)).len() == 4,
        forall|j: int|
            0 <= j < 8 ==> {
                let half = #[trigger] lut_slot(lut_words(lut_program(cmd)), j);
                if j < lut_program(cmd).len() {
                    &&& half / 1024 == lut_program(cmd)[j].opcode
                    &&& (half / 256) % 4 == lut_program(cmd)[j].num_pads
                    &&& half % 256 == lut_program(cmd)[j].operand
                } else {
                    half == 0
                }
            },
{
    let p = lut_program(cmd);
    lemma_lut_program_fits(cmd);
    assert forall|j: int| 0 <= j < 8 implies {
        let half = #[trigger] lut_slot(lut_words(p), j);
        if j < p.len() {
            &&& half / 1024 == p[j].opcode
            &&& (half / 256) % 4 == p[j].num_pads
            &&& half % 256 == p[j].operand
        } else {
            half == 0
        }
    } by {
        let w = j / 2;
        let lo = lut_half(p, p.len() as int, 2 * w);
        let hi = lut_half(p, p.len() as int, 2 * w + 1);
        if 2 * w < p.len() {
            assert(instruction_fits(p[2 * w]));
        }
        if 2 * w + 1 < p.len() {
            assert(instruction_fits(p[2 * w + 1]));
        }
        assert(0 <= lo < 65536 && 0 <= hi < 65536);
        assert(0 <= lo + 65536 * hi < 0x1_0000_0000) by (nonlinear_arith)
            requires
                0 <= lo < 65536,
                0 <= hi < 65536,
        ;
        assert(lut_words(p)[w] as int == lo + 65536 * hi);
        assert((lo + 65536 * hi) % 65536 == lo && (lo + 65536 * hi) / 65536 == hi) by (nonlinear_arith)
            requires
                0 <= lo < 65536,
                0 <= hi < 65536,
        ;
        if j < p.len() {
            let i = p[j];
            let e = i.opcode as int * 1024 + i.num_pads as int * 256 + i.operand as int;
            assert(e / 1024 == i.opcode && (e / 256) % 4 == i.num_pads && e % 256 == i.operand)
                by (nonlinear_arith)
                requires
                    e == i.opcode as int * 1024 + i.num_pads as int * 256 + i.operand as int,
                    0 <= i.num_pads < 4,
                    0 <= i.operand < 256,
                    0 <= i.opcode,
            ;
        }
    }
}

/// Writes one instruction into the half of the LUT word that the cookie
/// points at, leaving the other half and the other words as they are.
fn write_instr(lut: &mut Vec<u32>, base: u8, cookie: &LutInstrCookie, instr: LutInstruction)
    requires
        old(lut)@.len() == 4,
        base <= cookie.seq_num < base + 4,
        instruction_fits(instr),
    ensures
        final(lut)@ == old(lut)@.update(
            cookie.seq_num - base,
            (if cookie.instr_num == LutInstrNum::First {
                old(lut)@[cookie.seq_num - base] - old(lut)@[cookie.seq_num - base] % 65536
                    + encode_instruction(instr)
            } else {
                old(lut)@[cookie.seq_num - base] % 65536 + 65536 * encode_instruction(instr)
            }) as u32,
        ),
{
    let idx: usize = (cookie.seq_num - base) as usize;
    let enc: u32 = instr.opcode as u32 * 1024 + instr.num_pads as u32 * 256 + instr.operand as u32;
    assert(enc == encode_instruction(instr));
    let word: u32 = lut[idx];
    if cookie.instr_num == LutInstrNum::First {
        write_even_instr(lut, idx, word, enc);
    } else {
        write_odd_instr(lut, idx, word, enc);
    }
}

fn write_even_instr(lut: &mut Vec<u32>, idx: usize, word: u32, enc: u32)
    requires
        idx < old(lut)@.len(),
        word == old(lut)@[idx as int],
        enc < 65536,
    ensures
        final(lut)@ == old(lut)@.update(idx as int, (word - word % 65536 + enc) as u32),
{
    let upper: u32 = word - word % 65536;
    assert(upper + enc <= u32::MAX) by {
        assert(word % 65536 >= 0);
        assert(upper == 65536 * (word / 65536));
        assert(word / 65536 <= 65535);
    }
    lut[idx] = upper + enc;
}

fn write_odd_instr(lut: &mut Vec<u32>, idx: usize, word: u32, enc: u32)
    requires
        idx < old(lut)@.len(),
        word == old(lut)@[idx as int],
        enc < 65536,
    ensures
        final(lut)@ == old(lut)@.update(idx as int, (word % 65536 + 65536 * enc) as u32),
{
    lut[idx] = word % 65536 + 65536 * enc;
}

/// The four LUT words of sequence `seq_id` that carry `cmd`.
///
/// The LUT holds 32 sequences of four words (128 words); the words of the sequence are
/// cleared and the instructions are written two per word, lower half first.
pub fn program_lut(cmd: &NorStorageCmd, seq_id: u8) -> (r: Vec<u32>)
    requires
        seq_id < LUT_SEQUENCES,
        cmd_well_formed(*cmd),
    ensures
        r@ == lut_words(lut_program(*cmd)),
{
    let prog = lut_instructions(cmd);
    proof {
        lemma_lut_program_fits(*cmd);
    }
    let base: u8 = seq_id * 4;
    let mut cookie = LutInstrCookie { seq_num: base, instr_num: LutInstrNum::First };
    let mut lut: Vec<u32> = Vec::new();
    lut.push(0);
    lut.push(0);
    lut.push(0);
    lut.push(0);
    let mut m: usize = 0;
    while m < prog.len()
        invariant
            prog@ == lut_program(*cmd),
            prog@.len() <= 6,
            forall|j: int| 0 <= j < prog@.len() ==> instruction_fits(#[trigger] prog@[j]),
            base == seq_id * 4,
            seq_id < LUT_SEQUENCES,
            m <= prog@.len(),
            cookie.seq_num >= base,
            cookie.position(base as int) == m,
            lut@.len() == 4,
            forall|w: int| 0 <= w < 4 ==> lut@[w] == lut_word(prog@, m as int, w),
        decreases prog@.len() - m,
    {
        let instr = prog[m];
        proof {
            assert(cookie.seq_num - base == m / 2);
        }
        let ghost before = lut@;
        write_instr(&mut lut, base, &cookie, instr);
        proof {
            let p = prog@;
            let wm = m / 2;
            assert forall|w: int| 0 <= w < 4 implies lut@[w] == lut_word(p, m + 1, w) by {
                if w == wm {
                    if m % 2 == 0 {
                        assert(before[w] == 0);
                    } else {
                        assert(before[w] == encode_instruction(p[m - 1]));
                        assert(before[w] % 65536 == encode_instruction(p[m - 1]));
                    }
                } else {
                    assert(lut_word(p, m + 1, w) == lut_word(p, m as int, w));
                }
            }
        }
        cookie.next_instruction();
        m = m + 1;
    }
    proof {
        assert(lut@ =~= lut_words(lut_program(*cmd)));
    }
    lut
}


//
// Transfer status
//

/// Which command ports an error concerns.
#[derive(Debug, PartialEq, Eq, Clone, Copy, Structural)]
#[allow(non_snake_case)]
pub struct CmdResult {
    /// AHB read command error
    pub AhbReadCmdErr: bool,
    /// AHB write command error
    pub AhbWriteCmdErr: bool,
    /// IP command error
    pub IpCmdErr: bool,
}

/// FlexSPI command error.
#[derive(Debug, PartialEq, Eq, Clone, Copy, Structural)]
pub enum FlexSpiError {
    /// Flash command grant error: INTR[AHBCMDGE] or INTR[IPCMDGE].
    CmdGrantErr { result: CmdResult },
    /// Flash command check error: INTR[AHBCMDERR] or INTR[IPCMDERR].
    CmdCheckErr { result: CmdResult },
    /// Flash command execution error: INTR[AHBCMDERR] or INTR[IPCMDERR],
    /// together with INTR[SEQTIMEOUT].
    CmdExecErr { result: CmdResult },
    /// AHB bus timeout error
    AhbBusTimeout { result: CmdResult },
    /// Data learning failed: INTR[DATALEARNFAIL].
    DataLearningFailed,
}

/// INTR bit: IP command grant timeout.
pub const INTR_IPCMDGE: u32 = 1;
/// INTR bit: AHB command grant timeout.
pub const INTR_AHBCMDGE: u32 = 2;
/// INTR bit: IP command error.
pub const INTR_IPCMDERR: u32 = 3;
/// INTR bit: AHB command error.
pub const INTR_AHBCMDERR: u32 = 4;
/// INTR bit: data learning failed.
pub const INTR_DATALEARNFAIL: u32 = 7;
/// INTR bit: AHB bus timeout.
pub const INTR_AHBBUSTIMEOUT: u32 = 10;
/// INTR bit: sequence execution timeout.
pub const INTR_SEQTIMEOUT: u32 = 11;

/// Whether bit `bit` of an INTR value is set.
pub open spec fn intr_flag(intr: u32, bit: u32) -> bool {
    (intr >> bit) & 1u32 == 1u32
}

/// The single-bit mask of bit `bit`.
pub open spec fn bit_mask(bit: u32) -> u32 {
    1u32 << bit
}

/// Errors on the IP port only.
pub open spec fn ip_only() -> CmdResult {
    CmdResult { AhbReadCmdErr: false, AhbWriteCmdErr: false, IpCmdErr: true }
}

/// Errors on the AHB ports only.
pub open spec fn ahb_only() -> CmdResult {
    CmdResult { AhbReadCmdErr: true, AhbWriteCmdErr: true, IpCmdErr: false }
}

/// Outcome of a command as read from INTR, and the INTR flags to clear
/// (INTR is write-one-to-clear).
#[derive(Debug, Clone, Copy)]
pub struct TransferStatus {
    pub result: Result<(), FlexSpiError>,
    pub clear: u32,
}

/// How an INTR value is read after a command, the first matching condition
/// deciding: IP command error (an execution error if the sequence timed out,
/// else a check error), AHB command error (likewise), AHB bus timeout, data
/// learning failure, IP grant timeout, AHB grant timeout; success otherwise.
/// The flags that decided are cleared.
pub open spec fn transfer_status(intr: u32) -> TransferStatus {
    let timeout = intr_flag(intr, INTR_SEQTIMEOUT);
    if intr_flag(intr, INTR_IPCMDERR) {
        if timeout {
            TransferStatus {
                result: Err(FlexSpiError::CmdExecErr { result: ip_only() }),
                clear: bit_mask(INTR_IPCMDERR) | bit_mask(INTR_SEQTIMEOUT),
            }
        } else {
            TransferStatus {
                result: Err(FlexSpiError::CmdCheckErr { result: ip_only() }),
                clear: bit_mask(INTR_IPCMDERR),
            }
        }
    } else if intr_flag(intr, INTR_AHBCMDERR) {
        if timeout {
            TransferStatus {
                result: Err(FlexSpiError::CmdExecErr { result: ahb_only() }),
                clear: bit_mask(INTR_AHBCMDERR) | bit_mask(INTR_SEQTIMEOUT),
            }
        } else {
            TransferStatus {
                result: Err(FlexSpiError::CmdCheckErr { result: ahb_only() }),
                clear: bit_mask(INTR_AHBCMDERR),
            }
        }
    } else if intr_flag(intr, INTR_AHBBUSTIMEOUT) {
        TransferStatus {
            result: Err(FlexSpiError::AhbBusTimeout { result: ahb_only() }),
            clear: bit_mask(INTR_AHBBUSTIMEOUT),
        }
    } else if intr_flag(intr, INTR_DATALEARNFAIL) {
        TransferStatus {
            result: Err(FlexSpiError::DataLearningFailed),
            clear: bit_mask(INTR_DATALEARNFAIL),
        }
    } else if intr_flag(intr, INTR_IPCMDGE) {
        TransferStatus {
            result: Err(FlexSpiError::CmdGrantErr { result: ip_only() }),
            clear: bit_mask(INTR_IPCMDGE),
        }
    } else if intr_flag(intr, INTR_AHBCMDGE) {
        TransferStatus {
            result: Err(FlexSpiError::CmdGrantErr { result: ahb_only() }),
            clear: bit_mask(INTR_AHBCMDGE),
        }
    } else {
        TransferStatus { result: Ok(()), clear: 0 }
    }
}

fn flag(intr: u32, bit: u32) -> (r: bool)
    requires
        bit < 32,
    ensures
        r == intr_flag(intr, bit),
{
    (intr >> bit) & 1 == 1
}

/// Decodes the INTR register after a command.
pub fn check_transfer_status(intr: u32) -> (r: TransferStatus)
    ensures
        r == transfer_status(intr),
{
    let ip_result = CmdResult { AhbReadCmdErr: false, AhbWriteCmdErr: false, IpCmdErr: true };
    let ahb_result = CmdResult { AhbReadCmdErr: true, AhbWriteCmdErr: true, IpCmdErr: false };
    let timeout = flag(intr, INTR_SEQTIMEOUT);
    if flag(intr, INTR_IPCMDERR) {
        if timeout {
            TransferStatus {
                result: Err(FlexSpiError::CmdExecErr { result: ip_result }),
                clear: (1u32 << INTR_IPCMDERR) | (1u32 << INTR_SEQTIMEOUT),
            }
        } else {
            TransferStatus {
                result: Err(FlexSpiError::CmdCheckErr { result: ip_result }),
                clear: 1u32 << INTR_IPCMDERR,
            }
        }
    } else if flag(intr, INTR_AHBCMDERR) {
        if timeout {
            TransferStatus {
                result: Err(FlexSpiError::CmdExecErr { result: ahb_result }),
                clear: (1u32 << INTR_AHBCMDERR) | (1u32 << INTR_SEQTIMEOUT),
            }
        } else {
            TransferStatus {
                result: Err(FlexSpiError::CmdCheckErr { result: ahb_result }),
                clear: 1u32 << INTR_AHBCMDERR,
            }
        }
    } else if flag(intr, INTR_AHBBUSTIMEOUT) {
        TransferStatus {
            result: Err(FlexSpiError::AhbBusTimeout { result: ahb_result }),
            clear: 1u32 << INTR_AHBBUSTIMEOUT,
        }
    } else if flag(intr, INTR_DATALEARNFAIL) {
        TransferStatus {
            result: Err(FlexSpiError::DataLearningFailed),
            clear: 1u32 << INTR_DATALEARNFAIL,
        }
    } else if flag(intr, INTR_IPCMDGE) {
        TransferStatus {
            result: Err(FlexSpiError::CmdGrantErr { result: ip_result }),
            clear: 1u32 << INTR_IPCMDGE,
        }
    } else if flag(intr, INTR_AHBCMDGE) {
        TransferStatus {
            result: Err(FlexSpiError::CmdGrantErr { result: ahb_result }),
            clear: 1u32 << INTR_AHBCMDGE,
        }
    } else {
        TransferStatus { result: Ok(()), clear: 0 }
    }
}

/// The INTR flags that report an error.
pub open spec fn error_flags_raised(intr: u32) -> bool {
    intr_flag(intr, INTR_IPCMDERR) || intr_flag(intr, INTR_AHBCMDERR) || intr_flag(
        intr,
        INTR_AHBBUSTIMEOUT,
    ) || intr_flag(intr, INTR_DATALEARNFAIL) || intr_flag(intr, INTR_IPCMDGE) || intr_flag(
        intr,
        INTR_AHBCMDGE,
    )
}

proof fn lemma_single_flag(intr: u32, bit: u32)
    requires
        bit < 32,
        intr_flag(intr, bit),
    ensures
        bit_mask(bit) & !intr == 0,
{
    assert((intr >> bit) & 1u32 == 1u32 ==> (1u32 << bit) & !intr == 0) by (bit_vector)
        requires
            bit < 32,
    ;
}

proof fn lemma_two_flags(intr: u32, a: u32, b: u32)
    requires
        a < 32,
        b < 32,
        intr_flag(intr, a),
        intr_flag(intr, b),
    ensures
        (bit_mask(a) | bit_mask(b)) & !intr == 0,
{
    assert(((intr >> a) & 1u32 == 1u32 && (intr >> b) & 1u32 == 1u32) ==> ((1u32 << a) | (1u32
        << b)) & !intr == 0) by (bit_vector)
        requires
            a < 32,
            b < 32,
    ;
}

/// How INTR decides a command's status, bit by bit (IPCMDGE bit 1, AHBCMDGE
/// bit 2, IPCMDERR bit 3, AHBCMDERR bit 4, DATALEARNFAIL bit 7,
/// AHBBUSTIMEOUT bit 10, SEQTIMEOUT bit 11), the first raised one deciding in
/// the order IPCMDERR, AHBCMDERR, AHBBUSTIMEOUT, DATALEARNFAIL, IPCMDGE,
/// AHBCMDGE: a command error is an execution error when SEQTIMEOUT is also
/// raised (and both flags are cleared) and a check error otherwise; each
/// other error clears just its own flag; with none of them raised the
/// command is fine and nothing is cleared, whatever the other bits hold.
pub proof fn lemma_transfer_status_by_bits(intr: u32)
    ensures
        ({
            let t = transfer_status(intr);
            let timeout = intr & 0x800 != 0;
            if intr & 0x8 != 0 {
                &&& t.clear == 0x8 | (intr & 0x800)
                &&& t.result == Err::<(), FlexSpiError>(
                    if timeout {
                        FlexSpiError::CmdExecErr { result: CmdResult { AhbReadCmdErr: false, AhbWriteCmdErr: false, IpCmdErr: true } }
                    } else {
                        FlexSpiError::CmdCheckErr { result: CmdResult { AhbReadCmdErr: false, AhbWriteCmdErr: false, IpCmdErr: true } }
                    },
                )
            } else if intr & 0x10 != 0 {
                &&& t.clear == 0x10 | (intr & 0x800)
                &&& t.result == Err::<(), FlexSpiError>(
                    if timeout {
                        FlexSpiError::CmdExecErr { result: CmdResult { AhbReadCmdErr: true, AhbWriteCmdErr: true, IpCmdErr: false } }
                    } else {
                        FlexSpiError::CmdCheckErr { result: CmdResult { AhbReadCmdErr: true, AhbWriteCmdErr: true, IpCmdErr: false } }
                    },
                )
            } else if intr & 0x400 != 0 {
                &&& t.clear == 0x400
                &&& t.result == Err::<(), FlexSpiError>(
                    FlexSpiError::AhbBusTimeout { result: CmdResult { AhbReadCmdErr: true, AhbWriteCmdErr: true, IpCmdErr: false } },
                )
            } else if intr & 0x80 != 0 {
                &&& t.clear == 0x80
                &&& t.result == Err::<(), FlexSpiError>(FlexSpiError::DataLearningFailed)
            } else if intr & 0x2 != 0 {
                &&& t.clear == 0x2
                &&& t.result == Err::<(), FlexSpiError>(
                    FlexSpiError::CmdGrantErr { result: CmdResult { AhbReadCmdErr: false, AhbWriteCmdErr: false, IpCmdErr: true } },
                )
            } else if intr & 0x4 != 0 {
                &&& t.clear == 0x4
                &&& t.result == Err::<(), FlexSpiError>(
                    FlexSpiError::CmdGrantErr { result: CmdResult { AhbReadCmdErr: true, AhbWriteCmdErr: true, IpCmdErr: false } },
                )
            } else {
                &&& intr & 0x49E == 0
                &&& t.clear == 0
                &&& t.result == Ok::<(), FlexSpiError>(())
            }
        }),
{
    assert(intr_flag(intr, INTR_IPCMDERR) == (intr & 0x8 != 0)) by (bit_vector);
    assert(intr_flag(intr, INTR_AHBCMDERR) == (intr & 0x10 != 0)) by (bit_vector);
    assert(intr_flag(intr, INTR_AHBBUSTIMEOUT) == (intr & 0x400 != 0)) by (bit_vector);
    assert(intr_flag(intr, INTR_DATALEARNFAIL) == (intr & 0x80 != 0)) by (bit_vector);
    assert(intr_flag(intr, INTR_IPCMDGE) == (intr & 0x2 != 0)) by (bit_vector);
    assert(intr_flag(intr, INTR_AHBCMDGE) == (intr & 0x4 != 0)) by (bit_vector);
    assert(intr_flag(intr, INTR_SEQTIMEOUT) == (intr & 0x800 != 0)) by (bit_vector);
    assert(bit_mask(INTR_IPCMDERR) == 0x8 && bit_mask(INTR_AHBCMDERR) == 0x10 && bit_mask(
        INTR_AHBBUSTIMEOUT,
    ) == 0x400 && bit_mask(INTR_DATALEARNFAIL) == 0x80 && bit_mask(INTR_IPCMDGE) == 0x2 && bit_mask(
        INTR_AHBCMDGE,
    ) == 0x4 && bit_mask(INTR_SEQTIMEOUT) == 0x800) by (bit_vector);
    assert((intr & 0x800 != 0) ==> 0x8 | (intr & 0x800) == 0x808u32 && 0x10 | (intr & 0x800) == 0x810u32) by (bit_vector);
    assert((intr & 0x800 == 0) ==> 0x8 | (intr & 0x800) == 0x8u32 && 0x10 | (intr & 0x800) == 0x10u32) by (bit_vector);
    assert(0x8u32 | 0x800u32 == 0x808u32 && 0x10u32 | 0x800u32 == 0x810u32) by (bit_vector);
    assert((intr & 0x8 == 0 && intr & 0x10 == 0 && intr & 0x400 == 0 && intr & 0x80 == 0 && intr & 0x2
        == 0 && intr & 0x4 == 0) ==> intr & 0x49E == 0) by (bit_vector);
}

/// A command succeeded exactly when none of the error flags is raised, and
/// decoding the status clears only flags that are raised: a pending flag
/// that did not decide the outcome is left for later.
pub proof fn lemma_transfer_status_clears_raised_flags(intr: u32)
    ensures
        transfer_status(intr).result is Ok <==> !error_flags_raised(intr),
        transfer_status(intr).result is Ok ==> transfer_status(intr).clear == 0,
        transfer_status(intr).clear & !intr == 0,
{
    let t = intr_flag(intr, INTR_SEQTIMEOUT);
    if intr_flag(intr, INTR_IPCMDERR) {
        if t {
            lemma_two_flags(intr, INTR_IPCMDERR, INTR_SEQTIMEOUT);
        } else {
            lemma_single_flag(intr, INTR_IPCMDERR);
        }
    } else if intr_flag(intr, INTR_AHBCMDERR) {
        if t {
            lemma_two_flags(intr, INTR_AHBCMDERR, INTR_SEQTIMEOUT);
        } else {
            lemma_single_flag(intr, INTR_AHBCMDERR);
        }
    } else if intr_flag(intr, INTR_AHBBUSTIMEOUT) {
        lemma_single_flag(intr, INTR_AHBBUSTIMEOUT);
    } else if intr_flag(intr, INTR_DATALEARNFAIL) {
        lemma_single_flag(intr, INTR_DATALEARNFAIL);
    } else if intr_flag(intr, INTR_IPCMDGE) {
        lemma_single_flag(intr, INTR_IPCMDGE);
    } else if intr_flag(intr, INTR_AHBCMDGE) {
        lemma_single_flag(intr, INTR_AHBCMDGE);
    } else {
        assert(0u32 & !intr == 0) by (bit_vector);
    }
}

/// The storage-layer error that a FlexSPI error is reported as.
pub open spec fn bus_error_of(err: FlexSpiError) -> NorStorageBusError {
    match err {
        FlexSpiError::CmdGrantErr { .. } => NorStorageBusError::StorageBusNotAvailable,
        FlexSpiError::CmdCheckErr { .. } => NorStorageBusError::StorageBusIoError,
        FlexSpiError::CmdExecErr { .. } => NorStorageBusError::StorageBusIoError,
        FlexSpiError::AhbBusTimeout { .. } => NorStorageBusError::StorageBusIoError,
        FlexSpiError::DataLearningFailed => NorStorageBusError::StorageBusInternalError,
    }
}

impl From<FlexSpiError> for NorStorageBusError {
    fn from(err: FlexSpiError) -> (r: Self) {
        match err {
            FlexSpiError::CmdGrantErr { result: _ } => NorStorageBusError::StorageBusNotAvailable,
            FlexSpiError::CmdCheckErr { result: _ } => NorStorageBusError::StorageBusIoError,
            FlexSpiError::CmdExecErr { result: _ } => NorStorageBusError::StorageBusIoError,
            FlexSpiError::AhbBusTimeout { result: _ } => NorStorageBusError::StorageBusIoError,
            FlexSpiError::DataLearningFailed => NorStorageBusError::StorageBusInternalError,
        }
    }
}

impl vstd::std_specs::convert::FromSpecImpl<FlexSpiError> for NorStorageBusError {
    open spec fn obeys_from_spec() -> bool {
        true
    }

    open spec fn from_spec(err: FlexSpiError) -> NorStorageBusError {
        bus_error_of(err)
    }
}


//
// Error descriptions
//

/// One line of the description of a FlexSPI error.
#[derive(Debug, PartialEq, Eq, Clone, Copy, Structural)]
pub enum ErrorNote {
    /// AHB bus error response for a read command: command grant timeout.
    AhbReadGrantTimeout,
    /// AHB bus error response for a write command: command grant timeout.
    AhbWriteGrantTimeout,
    /// IP command grant timeout.
    IpGrantTimeout,
    /// The LUT sequence ID and sequence error code of the failed AHB command
    /// (STS1[AHBCMDERRID] and STS1[AHBCMDERRCODE]).
    AhbErrorSequence,
    /// The LUT sequence ID and sequence error code of the failed IP command
    /// (STS1[IPCMDERRID] and STS1[IPCMDERRCODE]).
    IpErrorSequence,
    /// AHB write command not executed: JMP_ON_CS in the sequence, unknown
    /// opcode, or a dummy instruction of the wrong rate.
    AhbWriteCheckFailed,
    /// AHB read command not executed: unknown opcode, or a dummy instruction
    /// of the wrong rate.
    AhbReadCheckFailed,
    /// IP command not executed: JMP_ON_CS in the sequence, unknown opcode, a
    /// dummy instruction of the wrong rate, or a flash boundary crossed.
    IpCheckFailed,
    /// AHB write command timed out during execution (bus error response
    /// unless triggered by flush or bufferable).
    AhbWriteExecFailed,
    /// AHB read command timed out during execution.
    AhbReadExecFailed,
    /// IP command timed out during execution.
    IpExecFailed,
    /// AHB bus timeout: no bus ready returned.
    AhbBusTimeout,
    /// AHB bus timeout reported for no AHB command.
    UnknownAhbBusTimeout,
    /// Data learning failed.
    DataLearningFailed,
}

/// `note` if `cond` holds, nothing otherwise.
pub open spec fn note_if(cond: bool, note: ErrorNote) -> Seq<ErrorNote> {
    if cond {
        seq![note]
    } else {
        Seq::empty()
    }
}

/// The sequence information followed by `note`, if `cond` holds.
pub open spec fn sequence_note_if(cond: bool, seq_note: ErrorNote, note: ErrorNote) -> Seq<
    ErrorNote,
> {
    if cond {
        seq![seq_note, note]
    } else {
        Seq::empty()
    }
}

/// The description of an error, line by line: for each port the error
/// concerns (AHB write, AHB read, IP for check and execution errors; AHB
/// read, AHB write, IP for grant errors), the failed sequence where the
/// hardware records it and the likely causes.
pub open spec fn error_notes(err: FlexSpiError) -> Seq<ErrorNote> {
    match err {
        FlexSpiError::CmdGrantErr { result } => note_if(
            result.AhbReadCmdErr,
            ErrorNote::AhbReadGrantTimeout,
        ) + note_if(result.AhbWriteCmdErr, ErrorNote::AhbWriteGrantTimeout) + note_if(
            result.IpCmdErr,
            ErrorNote::IpGrantTimeout,
        ),
        FlexSpiError::CmdCheckErr { result } => sequence_note_if(
            result.AhbWriteCmdErr,
            ErrorNote::AhbErrorSequence,
            ErrorNote::AhbWriteCheckFailed,
        ) + sequence_note_if(
            result.AhbReadCmdErr,
            ErrorNote::AhbErrorSequence,
            ErrorNote::AhbReadCheckFailed,
        ) + sequence_note_if(result.IpCmdErr, ErrorNote::IpErrorSequence, ErrorNote::IpCheckFailed),
        FlexSpiError::CmdExecErr { result } => sequence_note_if(
            result.AhbWriteCmdErr,
            ErrorNote::AhbErrorSequence,
            ErrorNote::AhbWriteExecFailed,
        ) + sequence_note_if(
            result.AhbReadCmdErr,
            ErrorNote::AhbErrorSequence,
            ErrorNote::AhbReadExecFailed,
        ) + sequence_note_if(result.IpCmdErr, ErrorNote::IpErrorSequence, ErrorNote::IpExecFailed),
        FlexSpiError::AhbBusTimeout { result } => if result.AhbReadCmdErr || result.AhbWriteCmdErr {
            seq![ErrorNote::AhbBusTimeout]
        } else {
            seq![ErrorNote::UnknownAhbBusTimeout]
        },
        FlexSpiError::DataLearningFailed => seq![ErrorNote::DataLearningFailed],
    }
}

fn push_if(notes: &mut Vec<ErrorNote>, cond: bool, note: ErrorNote)
    ensures
        final(notes)@ == old(notes)@ + note_if(cond, note),
{
    if cond {
        notes.push(note);
    }
    proof {
        assert(final(notes)@ =~= old(notes)@ + note_if(cond, note));
    }
}

fn push_sequence_if(notes: &mut Vec<ErrorNote>, cond: bool, seq_note: ErrorNote, note: ErrorNote)
    ensures
        final(notes)@ == old(notes)@ + sequence_note_if(cond, seq_note, note),
{
    if cond {
        notes.push(seq_note);
        notes.push(note);
    }
    proof {
        assert(final(notes)@ =~= old(notes)@ + sequence_note_if(cond, seq_note, note));
    }
}

impl FlexSpiError {
    /// Get the description of the error
    pub fn describe(&self) -> (r: Vec<ErrorNote>)
        ensures
            r@ == error_notes(*self),
    {
        let mut notes: Vec<ErrorNote> = Vec::new();
        match self {
            FlexSpiError::CmdGrantErr { result } => {
                push_if(&mut notes, result.AhbReadCmdErr, ErrorNote::AhbReadGrantTimeout);
                push_if(&mut notes, result.AhbWriteCmdErr, ErrorNote::AhbWriteGrantTimeout);
                push_if(&mut notes, result.IpCmdErr, ErrorNote::IpGrantTimeout);
            },
            FlexSpiError::CmdCheckErr { result } => {
                push_sequence_if(
                    &mut notes,
                    result.AhbWriteCmdErr,
                    ErrorNote::AhbErrorSequence,
                    ErrorNote::AhbWriteCheckFailed,
                );
                push_sequence_if(
                    &mut notes,
                    result.AhbReadCmdErr,
                    ErrorNote::AhbErrorSequence,
                    ErrorNote::AhbReadCheckFailed,
                );
                push_sequence_if(
                    &mut notes,
                    result.IpCmdErr,
                    ErrorNote::IpErrorSequence,
                    ErrorNote::IpCheckFailed,
                );
            },
            FlexSpiError::CmdExecErr { result } => {
                push_sequence_if(
                    &mut notes,
                    result.AhbWriteCmdErr,
                    ErrorNote::AhbErrorSequence,
                    ErrorNote::AhbWriteExecFailed,
                );
                push_sequence_if(
                    &mut notes,
                    result.AhbReadCmdErr,
                    ErrorNote::AhbErrorSequence,
                    ErrorNote::AhbReadExecFailed,
                );
                push_sequence_if(
                    &mut notes,
                    result.IpCmdErr,
                    ErrorNote::IpErrorSequence,
                    ErrorNote::IpExecFailed,
                );
            },
            FlexSpiError::AhbBusTimeout { result } => {
                if result.AhbReadCmdErr || result.AhbWriteCmdErr {
                    notes.push(ErrorNote::AhbBusTimeout);
                } else {
                    notes.push(ErrorNote::UnknownAhbBusTimeout);
                }
            },
            FlexSpiError::DataLearningFailed => notes.push(ErrorNote::DataLearningFailed),
        }
        proof {
            assert(notes@ =~= error_notes(*self));
        }
        notes
    }
}


//
// Command checks and transfer setup
//

/// Largest data phase of one command, in bytes.
pub const MAX_TRANSFER_SIZE_PER_COMMAND: u32 = 65535;

/// A command is refused before anything is sent if its data phase is longer
/// than one command can carry.
pub fn check_command_size(cmd: &NorStorageCmd) -> (r: Result<(), NorStorageBusError>)
    ensures
        r == (if cmd.data_bytes is Some && cmd.data_bytes.unwrap() > MAX_TRANSFER_SIZE_PER_COMMAND {
            Err(NorStorageBusError::StorageBusInternalError)
        } else {
            Ok(())
        }),
{
    match cmd.data_bytes {
        Some(n) => if n > MAX_TRANSFER_SIZE_PER_COMMAND {
            Err(NorStorageBusError::StorageBusInternalError)
        } else {
            Ok(())
        },
        None => Ok(()),
    }
}

/// The data phase of a command, with its length in bytes.
#[derive(Debug, PartialEq, Eq, Clone, Copy, Structural)]
pub enum DataTransfer {
    Read(u32),
    Write(u32),
}

/// A buffer of `len` bytes for a data phase announced as `data_bytes`.
pub open spec fn buffer_matches(data_bytes: Option<u32>, len: Option<usize>) -> Result<
    u32,
    NorStorageBusError,
> {
    match len {
        None => Err(NorStorageBusError::StorageBusInternalError),
        Some(l) => match data_bytes {
            None => Err(NorStorageBusError::StorageBusInternalError),
            Some(n) => if l as int == n as int {
                Ok(n)
            } else {
                Err(NorStorageBusError::StorageBusInternalError)
            },
        },
    }
}

/// The data phase that follows a successful command: none for a command
/// without data; otherwise the buffer of the command's direction must be
/// given and its length must be the command's data length.
pub open spec fn data_phase_spec(
    cmd: NorStorageCmd,
    read_len: Option<usize>,
    write_len: Option<usize>,
) -> Result<Option<DataTransfer>, NorStorageBusError> {
    match cmd.cmdtype {
        None => Ok(None),
        Some(NorStorageCmdType::Read) => match buffer_matches(cmd.data_bytes, read_len) {
            Ok(n) => Ok(Some(DataTransfer::Read(n))),
            Err(e) => Err(e),
        },
        Some(NorStorageCmdType::Write) => match buffer_matches(cmd.data_bytes, write_len) {
            Ok(n) => Ok(Some(DataTransfer::Write(n))),
            Err(e) => Err(e),
        },
    }
}

fn check_buffer(data_bytes: Option<u32>, len: Option<usize>) -> (r: Result<u32, NorStorageBusError>)
    ensures
        r == buffer_matches(data_bytes, len),
{
    match len {
        None => Err(NorStorageBusError::StorageBusInternalError),
        Some(l) => match data_bytes {
            None => Err(NorStorageBusError::StorageBusInternalError),
            Some(n) => if l == n as usize {
                Ok(n)
            } else {
                Err(NorStorageBusError::StorageBusInternalError)
            },
        },
    }
}

/// Decides the data phase of a command from the lengths of the buffers the
/// caller passed (`None` for a buffer not passed).
pub fn data_phase(cmd: &NorStorageCmd, read_len: Option<usize>, write_len: Option<usize>) -> (r:
    Result<Option<DataTransfer>, NorStorageBusError>)
    ensures
        r == data_phase_spec(*cmd, read_len, write_len),
{
    match cmd.cmdtype {
        None => Ok(None),
        Some(NorStorageCmdType::Read) => match check_buffer(cmd.data_bytes, read_len) {
            Ok(n) => Ok(Some(DataTransfer::Read(n))),
            Err(e) => Err(e),
        },
        Some(NorStorageCmdType::Write) => match check_buffer(cmd.data_bytes, write_len) {
            Ok(n) => Ok(Some(DataTransfer::Write(n))),
            Err(e) => Err(e),
        },
    }
}

/// Register values that prepare an IP command.
#[derive(Debug, PartialEq, Eq, Clone, Copy, Structural)]
pub struct IpTransferSetup {
    /// IPCR0[SFAR]: serial flash address.
    pub address: u32,
    /// IPCR1[ISEQID]: LUT sequence to run.
    pub seq_id: u8,
    /// IPRXFCR[RXWMRK]: RX watermark in 64-bit units, minus one.
    pub rx_watermark_level: u8,
    /// IPCR1[IDATSZ]: data size, written only when the command has data.
    pub data_size: Option<u16>,
}

/// The setup of an IP command: address 0 when the command has none, the
/// data size truncated to the 16-bit field.
pub open spec fn ip_transfer_setup(
    seq_id: u8,
    addr: Option<u32>,
    size: Option<u32>,
    rx_watermark: u8,
) -> IpTransferSetup {
    IpTransferSetup {
        address: match addr {
            Some(a) => a,
            None => 0,
        },
        seq_id,
        rx_watermark_level: (rx_watermark / 8 - 1) as u8,
        data_size: match size {
            Some(n) => Some(n as u16),
            None => None,
        },
    }
}

fn setup_value(seq_id: u8, addr: Option<u32>, size: Option<u32>, rx_watermark: u8) -> (r:
    IpTransferSetup)
    requires
        rx_watermark >= 8,
    ensures
        r == ip_transfer_setup(seq_id, addr, size, rx_watermark),
{
    IpTransferSetup {
        address: match addr {
            Some(a) => a,
            None => 0,
        },
        seq_id,
        rx_watermark_level: (rx_watermark / 8) - 1,
        data_size: match size {
            Some(n) => Some(n as u16),
            None => None,
        },
    }
}

//
// FIFO data layout
//

/// Bytes in one FIFO slot (one RFDR or TFDR register).
pub const FIFO_SLOT_SIZE: u8 = 4;

/// Unsigned value of the `n` bytes from `start`, least significant first.
pub open spec fn le_value(bytes: Seq<u8>, start: int, n: int) -> int
    decreases n,
{
    if n <= 0 {
        0
    } else {
        bytes[start] + 256 * le_value(bytes, start + 1, n - 1)
    }
}

/// Byte `i` of a FIFO word in memory order (little-endian).
pub open spec fn word_byte(w: u32, i: int) -> u8 {
    ((w >> ((8 * i) as u32)) & 0xffu32) as u8
}

/// Number of 4-byte pieces of a chunk of `len` bytes.
pub open spec fn pieces(len: int) -> int {
    (len + 3) / 4
}

/// Length of piece `j` of a chunk of `len` bytes.
pub open spec fn piece_len(len: int, j: int) -> int {
    if len - 4 * j >= 4 {
        4
    } else {
        len - 4 * j
    }
}

/// Number of FIFO slots a chunk of `len` bytes occupies when the watermark
/// spans `slots` slots: the pieces beyond the last slot are not moved.
pub open spec fn slots_used(len: int, slots: int) -> int {
    if pieces(len) <= slots {
        pieces(len)
    } else {
        slots
    }
}

/// The FIFO words that carry a chunk: piece `j` packed little-endian.
pub open spec fn tx_words(chunk: Seq<u8>, slots: int) -> Seq<u32> {
    Seq::new(
        slots_used(chunk.len() as int, slots) as nat,
        |j: int| le_value(chunk, 4 * j, piece_len(chunk.len() as int, j)) as u32,
    )
}

proof fn lemma_or_byte(temp: u32, b: u8, i: u32)
    requires
        i < 4,
        i == 0 ==> temp < 1,
        i == 1 ==> temp < 0x100,
        i == 2 ==> temp < 0x10000,
        i == 3 ==> temp < 0x1000000,
    ensures
        i == 0 ==> temp | ((b as u32) << (8 * i)) == temp + b && temp + b < 0x100,
        i == 1 ==> temp | ((b as u32) << (8 * i)) == temp + 0x100 * b && temp + 0x100 * b
            < 0x10000,
        i == 2 ==> temp | ((b as u32) << (8 * i)) == temp + 0x10000 * b && temp + 0x10000 * b
            < 0x1000000,
        i == 3 ==> temp | ((b as u32) << (8 * i)) == temp + 0x1000000 * b,
{
    let bb: u32 = b as u32;
    assert(bb < 256);
    if i == 0 {
        assert(temp | (bb << 0u32) == temp + bb) by (bit_vector)
            requires
                temp < 1,
                bb < 256,
        ;
    } else if i == 1 {
        assert(temp | (bb << 8u32) == temp + 0x100 * bb) by (bit_vector)
            requires
                temp < 0x100,
                bb < 256,
        ;
    } else if i == 2 {
        assert(temp | (bb << 16u32) == temp + 0x10000 * bb) by (bit_vector)
            requires
                temp < 0x10000,
                bb < 256,
        ;
    } else {
        assert(temp | (bb << 24u32) == temp + 0x1000000 * bb) by (bit_vector)
            requires
                temp < 0x1000000,
                bb < 256,
        ;
    }
}

/// Scale of byte `i` of a word.
pub open spec fn byte_scale(i: int) -> int {
    if i == 0 {
        1
    } else if i == 1 {
        0x100
    } else if i == 2 {
        0x10000
    } else {
        0x1000000
    }
}

proof fn lemma_le_value_step(bytes: Seq<u8>, start: int, i: int)
    requires
        0 <= i < 4,
    ensures
        le_value(bytes, start, i + 1) == le_value(bytes, start, i) + byte_scale(i) * bytes[start
            + i],
    decreases i,
{
    if i > 0 {
        lemma_le_value_step(bytes, start + 1, i - 1);
        let x = le_value(bytes, start + 1, i - 1);
        let y = bytes[start + i] as int;
        assert(le_value(bytes, start, i + 1) == bytes[start] + 256 * le_value(bytes, start + 1, i));
        assert(le_value(bytes, start + 1, i) == x + byte_scale(i - 1) * y);
        assert(le_value(bytes, start, i) == bytes[start] + 256 * x);
        if i == 1 {
            assert(256 * (x + 1 * y) == 256 * x + 0x100 * y);
        } else if i == 2 {
            assert(256 * (x + 0x100 * y) == 256 * x + 0x10000 * y);
        } else {
            assert(256 * (x + 0x10000 * y) == 256 * x + 0x1000000 * y);
        }
    } else {
        assert(le_value(bytes, start + 1, 0) == 0);
    }
}

/// Packs one piece of at most four bytes into a FIFO word, first byte in the
/// least significant position.
fn pack_piece(chunk: &[u8], start: usize, n: usize) -> (r: u32)
    requires
        0 < n <= 4,
        start + n <= chunk@.len(),
    ensures
        r == le_value(chunk@, start as int, n as int),
{
    let mut temp: u32 = 0;
    let mut i: usize = 0;
    while i < n
        invariant
            n <= 4,
            start + n <= chunk@.len(),
            i <= n,
            temp == le_value(chunk@, start as int, i as int),
            i < 4 ==> temp < byte_scale(i as int),
        decreases n - i,
    {
        let total: usize = chunk.len();
        assert(start + i < total);
        let b: u8 = chunk[start + i];
        proof {
            lemma_or_byte(temp, b, i as u32);
            lemma_le_value_step(chunk@, start as int, i as int);
        }
        temp = temp | ((b as u32) << (8 * i as u32));
        i = i + 1;
    }
    temp
}

/// The FIFO words that carry one chunk of a write, for a watermark of
/// `slots` slots.
pub fn pack_tx_words(chunk: &[u8], slots: usize) -> (r: Vec<u32>)
    ensures
        r@ == tx_words(chunk@, slots as int),
{
    let len: usize = chunk.len();
    let mut words: Vec<u32> = Vec::new();
    let mut start: usize = 0;
    let mut j: usize = 0;
    while start < len && j < slots
        invariant
            len == chunk@.len(),
            4 * j <= len ==> start == 4 * j,
            4 * j > len ==> start == len,
            j <= slots,
            j <= pieces(len as int),
            start < len + 4,
            words@.len() == j,
            forall|k: int| 0 <= k < j ==> words@[k] == tx_words(chunk@, slots as int)[k],
        decreases len - start,
    {
        let n: usize = if len - start >= 4 {
            4
        } else {
            len - start
        };
        let w: u32 = pack_piece(chunk, start, n);
        words.push(w);
        start = start + n;
        j = j + 1;
    }
    proof {
        assert(words@ =~= tx_words(chunk@, slots as int));
    }
    words
}

/// Copies FIFO words into a chunk of a read: the bytes of word `j`, in
/// memory order, go to bytes `4j..4j+4` of the chunk, as far as the chunk
/// reaches.
pub fn copy_rx_words(chunk: &mut [u8], words: &[u32])
    requires
        words@.len() <= pieces(old(chunk)@.len() as int),
    ensures
        final(chunk)@.len() == old(chunk)@.len(),
        forall|b: int|
            0 <= b < old(chunk)@.len() ==> #[trigger] final(chunk)@[b] == if b < 4 * words@.len() {
                word_byte(words@[b / 4], b % 4)
            } else {
                old(chunk)@[b]
            },
{
    let len: usize = chunk.len();
    copy_words_at(chunk, 0, len, words);
}

/// Copies FIFO words into the `len` bytes of `buf` from `offset`: byte `i`
/// of that range is byte `i % 4` of word `i / 4`, as far as the words reach;
/// every other byte of `buf` keeps its value.
fn copy_words_at(buf: &mut [u8], offset: usize, len: usize, words: &[u32])
    requires
        offset + len <= old(buf)@.len(),
        words@.len() <= pieces(len as int),
    ensures
        final(buf)@.len() == old(buf)@.len(),
        forall|b: int|
            0 <= b < old(buf)@.len() ==> #[trigger] final(buf)@[b] == if offset <= b < offset + len
                && b - offset < 4 * words@.len() {
                word_byte(words@[(b - offset) / 4], (b - offset) % 4)
            } else {
                old(buf)@[b]
            },
{
    let ghost before = buf@;
    let total: usize = buf.len();
    let mut i: usize = 0;
    let limit: usize = if words.len() <= len / 4 {
        words.len() * 4
    } else {
        len
    };
    while i < limit
        invariant
            buf@.len() == before.len(),
            total == before.len(),
            offset + len <= before.len(),
            words@.len() <= pieces(len as int),
            limit <= len,
            limit <= 4 * words@.len(),
            limit == len || limit == 4 * words@.len(),
            i <= limit,
            forall|b: int|
                0 <= b < before.len() ==> #[trigger] buf@[b] == if offset <= b < offset + i {
                    word_byte(words@[(b - offset) / 4], (b - offset) % 4)
                } else {
                    before[b]
                },
        decreases limit - i,
    {
        let w: u32 = words[i / 4];
        let shift: u32 = (8 * (i % 4)) as u32;
        buf[offset + i] = ((w >> shift) & 0xff) as u8;
        i = i + 1;
    }
}

/// A watermark-sized chunk of a transfer.
#[derive(Debug, PartialEq, Eq, Clone, Copy, Structural)]
pub struct FifoChunk {
    /// Offset of the chunk in the transfer buffer.
    pub offset: usize,
    /// Length of the chunk; shorter than the watermark only for the last one.
    pub len: usize,
    /// Number of FIFO slots (data registers) moved for this chunk.
    pub slots: usize,
    /// Bytes of the transfer not yet moved when the chunk starts; a read
    /// waits for this many bytes in the RX FIFO before a short last chunk.
    pub remaining: u32,
}

/// Number of chunks of a transfer of `total` bytes.
pub open spec fn chunk_count(total: int, wm: int) -> int {
    (total + wm - 1) / wm
}

/// Length of chunk `k` of a transfer of `total` bytes.
pub open spec fn chunk_len(total: int, wm: int, k: int) -> int {
    if total - k * wm >= wm {
        wm
    } else {
        total - k * wm
    }
}

/// Bytes actually moved for a chunk of `len` bytes through `slots` slots.
pub open spec fn moved(len: int, slots: int) -> int {
    if len <= 4 * slots {
        len
    } else {
        4 * slots
    }
}

/// Chunk `k` of a transfer of `total` bytes with a watermark of `wm`
/// bytes: the watermark spans `wm / 4` slots, and each earlier (full) chunk
/// moved `4 * (wm / 4)` bytes.
pub open spec fn fifo_chunk(total: int, wm: int, k: int) -> FifoChunk {
    FifoChunk {
        offset: (k * wm) as usize,
        len: chunk_len(total, wm, k) as usize,
        slots: slots_used(chunk_len(total, wm, k), wm / 4) as usize,
        remaining: (total - k * (4 * (wm / 4))) as u32,
    }
}

proof fn lemma_chunk_count(total: int, wm: int, k: int)
    requires
        wm > 0,
        total >= 0,
        k >= 0,
        k * wm >= total,
        k == 0 || (k - 1) * wm < total,
    ensures
        k == chunk_count(total, wm),
{
    assert(k == (total + wm - 1) / wm) by (nonlinear_arith)
        requires
            wm > 0,
            total >= 0,
            k >= 0,
            k * wm >= total,
            k == 0 || (k - 1) * wm < total,
    ;
}

/// How a transfer of `total` bytes is cut into chunks for a FIFO watermark
/// of `watermark` bytes, as the read and write paths walk it.
pub fn fifo_chunks(total: u32, watermark: u8) -> (r: Vec<FifoChunk>)
    requires
        watermark > 0,
    ensures
        r@.len() == chunk_count(total as int, watermark as int),
        forall|k: int| 0 <= k < r@.len() ==> #[trigger] r@[k] == fifo_chunk(total as int, watermark as int, k),
{
    let wm: usize = watermark as usize;
    let slots_per: usize = (watermark / FIFO_SLOT_SIZE) as usize;
    let total_len: usize = total as usize;
    let ghost q: int = 4 * slots_per;
    let mut v: Vec<FifoChunk> = Vec::new();
    let mut offset: usize = 0;
    let mut size: u32 = total;
    let ghost mut k: int = 0;
    proof {
        assert(q <= wm);
    }
    while offset < total_len
        invariant
            wm == watermark as int,
            wm > 0,
            slots_per == wm / 4,
            q == 4 * slots_per,
            q <= wm,
            total_len == total,
            v@.len() == k,
            offset <= total_len,
            k * wm <= total ==> offset == k * wm,
            k * wm > total ==> offset == total,
            k == 0 || (k - 1) * wm < total,
            offset < total_len ==> size == total - k * q,
            forall|i: int| 0 <= i < k ==> #[trigger] v@[i] == fifo_chunk(total as int, wm as int, i),
        decreases total_len - offset,
    {
        proof {
            if k * wm > total {
                assert(false);
            }
        }
        let rest: usize = total_len - offset;
        let len: usize = if rest >= wm {
            wm
        } else {
            rest
        };
        let piece_count: usize = len / 4 + if len % 4 == 0 {
            0
        } else {
            1
        };
        let slots: usize = if piece_count <= slots_per {
            piece_count
        } else {
            slots_per
        };
        proof {
            assert(piece_count == pieces(len as int));
            assert(len == chunk_len(total as int, wm as int, k as int));
            assert(k * q <= k * wm) by (nonlinear_arith)
                requires
                    q <= wm,
                    k >= 0,
            ;
            assert((k + 1) * wm == k * wm + wm) by (nonlinear_arith);
            assert((k + 1) * q == k * q + q) by (nonlinear_arith);
            assert(k * wm >= 0) by (nonlinear_arith)
                requires
                    k >= 0,
                    wm > 0,
            ;
        }
        v.push(FifoChunk { offset, len, slots, remaining: size });
        let copied: usize = if len <= 4 * slots {
            len
        } else {
            4 * slots
        };
        size = size - copied as u32;
        offset = offset + len;
        proof {
            k = k + 1;
        }
    }
    proof {
        lemma_chunk_count(total as int, wm as int, k);
    }
    v
}

proof fn lemma_fifo_chunk_cover(total: u32, watermark: u8, k: int)
    requires
        watermark > 0,
        watermark % 4 == 0,
        0 <= k < chunk_count(total as int, watermark as int),
    ensures
        ({
            let c = fifo_chunk(total as int, watermark as int, k);
            &&& c.len > 0
            &&& moved(c.len as int, c.slots as int) == c.len
            &&& c.offset + c.len <= total
            &&& k + 1 < chunk_count(total as int, watermark as int) ==> c.offset + c.len
                == fifo_chunk(total as int, watermark as int, k + 1).offset
            &&& k + 1 == chunk_count(total as int, watermark as int) ==> c.offset + c.len == total
            &&& 0 < chunk_len(total as int, watermark as int, k) <= watermark
            &&& c.len == chunk_len(total as int, watermark as int, k)
        }),
{
    let wm = watermark as int;
    let t = total as int;
    let n = chunk_count(t, wm);
    assert(k * wm < t) by (nonlinear_arith)
        requires
            wm > 0,
            t >= 0,
            0 <= k < (t + wm - 1) / wm,
    ;
    assert((k + 1) * wm == k * wm + wm) by (nonlinear_arith);
    assert(k * wm >= 0) by (nonlinear_arith)
        requires
            k >= 0,
            wm > 0,
    ;
    if k + 1 < n {
        assert((k + 1) * wm < t) by (nonlinear_arith)
            requires
                wm > 0,
                t >= 0,
                0 <= k + 1 < (t + wm - 1) / wm,
        ;
    }
    if k + 1 == n {
        assert((k + 1) * wm >= t) by (nonlinear_arith)
            requires
                wm > 0,
                t >= 0,
                k + 1 == (t + wm - 1) / wm,
        ;
    }
    let len = chunk_len(t, wm, k);
    assert(pieces(len) <= wm / 4);
}

/// When the watermark is a whole number of slots, the chunks of a transfer
/// follow one another from offset 0 to the end of the buffer and every byte
/// of every chunk goes through the FIFO.
pub proof fn lemma_fifo_chunks_cover(total: u32, watermark: u8)
    requires
        watermark > 0,
        watermark % 4 == 0,
    ensures
        forall|k: int|
            0 <= k < chunk_count(total as int, watermark as int) ==> {
                let c = #[trigger] fifo_chunk(total as int, watermark as int, k);
                &&& c.len > 0
                &&& moved(c.len as int, c.slots as int) == c.len
                &&& c.offset + c.len <= total
                &&& k + 1 < chunk_count(total as int, watermark as int) ==> c.offset + c.len
                    == fifo_chunk(total as int, watermark as int, k + 1).offset
                &&& k + 1 == chunk_count(total as int, watermark as int) ==> c.offset + c.len
                    == total
            },
        total > 0 ==> fifo_chunk(total as int, watermark as int, 0).offset == 0,
{
    assert forall|k: int| 0 <= k < chunk_count(total as int, watermark as int) implies {
        let c = #[trigger] fifo_chunk(total as int, watermark as int, k);
        &&& c.len > 0
        &&& moved(c.len as int, c.slots as int) == c.len
        &&& c.offset + c.len <= total
        &&& k + 1 < chunk_count(total as int, watermark as int) ==> c.offset + c.len
            == fifo_chunk(total as int, watermark as int, k + 1).offset
        &&& k + 1 == chunk_count(total as int, watermark as int) ==> c.offset + c.len == total
    } by {
        lemma_fifo_chunk_cover(total, watermark, k);
    }
}

proof fn lemma_le_value_expand(bytes: Seq<u8>, start: int, n: int)
    requires
        0 <= n <= 4,
    ensures
        le_value(bytes, start, n) == (if 0 < n {
            bytes[start] as int
        } else {
            0
        }) + 0x100 * (if 1 < n {
            bytes[start + 1] as int
        } else {
            0
        }) + 0x10000 * (if 2 < n {
            bytes[start + 2] as int
        } else {
            0
        }) + 0x1000000 * (if 3 < n {
            bytes[start + 3] as int
        } else {
            0
        }),
{
    assert(le_value(bytes, start, 0) == 0);
    if n >= 1 {
        lemma_le_value_step(bytes, start, 0);
    }
    if n >= 2 {
        lemma_le_value_step(bytes, start, 1);
    }
    if n >= 3 {
        lemma_le_value_step(bytes, start, 2);
    }
    if n >= 4 {
        lemma_le_value_step(bytes, start, 3);
    }
}

proof fn lemma_word_bytes(w: u32, b0: u32, b1: u32, b2: u32, b3: u32)
    requires
        b0 < 256,
        b1 < 256,
        b2 < 256,
        b3 < 256,
        w == b0 + 0x100 * b1 + 0x10000 * b2 + 0x1000000 * b3,
    ensures
        word_byte(w, 0) == b0,
        word_byte(w, 1) == b1,
        word_byte(w, 2) == b2,
        word_byte(w, 3) == b3,
{
    assert((w >> 0u32) & 0xffu32 == b0 && (w >> 8u32) & 0xffu32 == b1 && (w >> 16u32) & 0xffu32
        == b2 && (w >> 24u32) & 0xffu32 == b3) by (bit_vector)
        requires
            b0 < 256,
            b1 < 256,
            b2 < 256,
            b3 < 256,
            w == b0 + 0x100 * b1 + 0x10000 * b2 + 0x1000000 * b3,
    ;
}

/// Reading back the FIFO words that a write packs gives the written bytes:
/// when a chunk fits in the slots of the watermark, copying the words of
/// `pack_tx_words` into a buffer of the chunk's length reproduces the chunk.
pub proof fn lemma_fifo_roundtrip(chunk: Seq<u8>, slots: int)
    requires
        chunk.len() <= 4 * slots,
    ensures
        tx_words(chunk, slots).len() == pieces(chunk.len() as int),
        forall|b: int|
            0 <= b < chunk.len() ==> #[trigger] word_byte(tx_words(chunk, slots)[b / 4], b % 4)
                == chunk[b],
{
    let len = chunk.len() as int;
    let words = tx_words(chunk, slots);
    assert forall|b: int| 0 <= b < len implies #[trigger] word_byte(words[b / 4], b % 4)
        == chunk[b] by {
        let j = b / 4;
        let i = b % 4;
        let n = piece_len(len, j);
        lemma_le_value_expand(chunk, 4 * j, n);
        let g0: u32 = if 0 < n {
            chunk[4 * j] as u32
        } else {
            0
        };
        let g1: u32 = if 1 < n {
            chunk[4 * j + 1] as u32
        } else {
            0
        };
        let g2: u32 = if 2 < n {
            chunk[4 * j + 2] as u32
        } else {
            0
        };
        let g3: u32 = if 3 < n {
            chunk[4 * j + 3] as u32
        } else {
            0
        };
        let v = le_value(chunk, 4 * j, n);
        assert(v == g0 + 0x100 * g1 + 0x10000 * g2 + 0x1000000 * g3);
        assert(words[j] == v as u32);
        lemma_word_bytes(words[j], g0, g1, g2, g3);
    }
}


/// Byte `b` of a read buffer after the RX FIFO words of the first
/// `words.len()` chunks are copied in: chunk `j` covers the bytes from
/// `j * wm`, and its byte `4s + t` is byte `t` of word `s` of the chunk,
/// as far as the chunk's words reach; other bytes keep their value.
pub open spec fn read_byte(before: Seq<u8>, wm: int, words: Seq<Vec<u32>>, b: int) -> u8 {
    let j = b / wm;
    let rel = b % wm;
    if j < words.len() && rel < 4 * words[j]@.len() {
        word_byte(words[j]@[rel / 4], rel % 4)
    } else {
        before[b]
    }
}

proof fn lemma_position(b: int, wm: int, j: int, rel: int)
    requires
        wm > 0,
        j >= 0,
        0 <= rel < wm,
        b == j * wm + rel,
    ensures
        b / wm == j,
        b % wm == rel,
{
    vstd::arithmetic::div_mod::lemma_fundamental_div_mod_converse(b, wm, j, rel);
}

proof fn lemma_split_position(b: int, wm: int, total: int)
    requires
        wm > 0,
        0 <= b < total,
    ensures
        b / wm >= 0,
        0 <= b % wm < wm,
        b == (b / wm) * wm + b % wm,
        b % wm < chunk_len(total, wm, b / wm),
{
    vstd::arithmetic::div_mod::lemma_fundamental_div_mod(b, wm);
    assert(b / wm >= 0) by (nonlinear_arith)
        requires
            wm > 0,
            b >= 0,
    ;
    assert((b / wm) * wm == wm * (b / wm)) by (nonlinear_arith);
}

impl<M: Mode> FlexspiNorStorageBus<M> {
    /// Assembles a read of `read_data.len()` bytes through the RX FIFO.
    ///
    /// `intr` is the INTR register read before the data moves, and
    /// `rx_words[j]` the RX FIFO words read for chunk `j` (as many as the
    /// chunk occupies slots). When the status reports an error the read
    /// fails with an I/O error and the buffer is left as it is. Otherwise
    /// the words of each chunk are copied in place; if fewer chunks than the
    /// transfer has arrived (the FIFO wait for the next one timed out) the
    /// read fails with an internal error, the chunks that did arrive copied.
    pub fn read_cmd_data(&self, read_data: &mut [u8], intr: u32, rx_words: &Vec<Vec<u32>>) -> (r:
        Result<(), NorStorageBusError>)
        requires
            self.rx_watermark_spec() > 0,
            old(read_data)@.len() <= u32::MAX,
            rx_words@.len() <= chunk_count(
                old(read_data)@.len() as int,
                self.rx_watermark_spec() as int,
            ),
            forall|j: int|
                0 <= j < rx_words@.len() ==> #[trigger] rx_words@[j]@.len() == fifo_chunk(
                    old(read_data)@.len() as int,
                    self.rx_watermark_spec() as int,
                    j,
                ).slots,
        ensures
            final(read_data)@.len() == old(read_data)@.len(),
            transfer_status(intr).result is Err ==> r == Err::<(), NorStorageBusError>(
                NorStorageBusError::StorageBusIoError,
            ) && final(read_data)@ == old(read_data)@,
            transfer_status(intr).result is Ok ==> r == (if rx_words@.len() == chunk_count(
                old(read_data)@.len() as int,
                self.rx_watermark_spec() as int,
            ) {
                Ok::<(), NorStorageBusError>(())
            } else {
                Err(NorStorageBusError::StorageBusInternalError)
            }),
            transfer_status(intr).result is Ok ==> forall|b: int|
                0 <= b < old(read_data)@.len() ==> #[trigger] final(read_data)@[b] == read_byte(
                    old(read_data)@,
                    self.rx_watermark_spec() as int,
                    rx_words@,
                    b,
                ),
    {
        let st = check_transfer_status(intr);
        if st.result.is_err() {
            return Err(NorStorageBusError::StorageBusIoError);
        }
        let len: usize = read_data.len();
        let wm: usize = self.rx_watermark as usize;
        let chunks = fifo_chunks(len as u32, self.rx_watermark);
        let ghost before = read_data@;
        let ghost words = rx_words@;
        let mut j: usize = 0;
        while j < rx_words.len()
            invariant
                wm == self.rx_watermark_spec(),
                wm > 0,
                len == before.len(),
                len <= u32::MAX,
                read_data@.len() == len,
                words == rx_words@,
                chunks@.len() == chunk_count(len as int, wm as int),
                forall|i: int| 0 <= i < chunks@.len() ==> #[trigger] chunks@[i] == fifo_chunk(len as int, wm as int, i),
                words.len() <= chunk_count(len as int, wm as int),
                forall|i: int| 0 <= i < words.len() ==> #[trigger] words[i]@.len() == fifo_chunk(len as int, wm as int, i).slots,
                j <= words.len(),
                forall|b: int|
                    0 <= b < len ==> #[trigger] read_data@[b] == if b / (wm as int) < j {
                        read_byte(before, wm as int, words, b)
                    } else {
                        before[b]
                    },
            decreases words.len() - j,
        {
            let c: FifoChunk = chunks[j];
            let cw: &Vec<u32> = &rx_words[j];
            proof {
                assert(c == fifo_chunk(len as int, wm as int, j as int));
                let ji: int = j as int;
                let wi: int = wm as int;
                let li: int = len as int;
                assert(ji * wi < li) by (nonlinear_arith)
                    requires
                        wi > 0,
                        li >= 0,
                        0 <= ji < (li + wi - 1) / wi,
                ;
                assert(ji * wi >= 0) by (nonlinear_arith)
                    requires
                        wi > 0,
                        ji >= 0,
                ;
                assert(c.offset == j * wm);
                assert(c.len == chunk_len(len as int, wm as int, j as int));
                assert(cw@.len() == c.slots);
            }
            copy_words_at(read_data, c.offset, c.len, cw.as_slice());
            proof {
                assert forall|b: int| 0 <= b < len implies #[trigger] read_data@[b] == if b / (
                wm as int) < j + 1 {
                    read_byte(before, wm as int, words, b)
                } else {
                    before[b]
                } by {
                    lemma_split_position(b, wm as int, len as int);
                    if c.offset <= b < c.offset + c.len {
                        lemma_position(b, wm as int, j as int, b - c.offset);
                    }
                }
            }
            j = j + 1;
        }
        if j < chunks.len() {
            Err(NorStorageBusError::StorageBusInternalError)
        } else {
            Ok(())
        }
    }

    /// Prepares a write of `write_data` through the TX FIFO.
    ///
    /// `intr` is the INTR register read before the data moves. When it
    /// reports an error the write fails with an I/O error and nothing is to
    /// be written. Otherwise the result holds, for each watermark-sized chunk
    /// of the data in order, the TX FIFO words that carry it: the chunk's
    /// bytes packed little-endian, a short last piece padded with zeros.
    pub fn write_cmd_words(&self, write_data: &[u8], intr: u32) -> (r: Result<
        Vec<Vec<u32>>,
        NorStorageBusError,
    >)
        requires
            self.tx_watermark_spec() > 0,
            write_data@.len() <= u32::MAX,
        ensures
            match r {
                Ok(w) => {
                    &&& transfer_status(intr).result is Ok
                    &&& w@.len() == chunk_count(
                        write_data@.len() as int,
                        self.tx_watermark_spec() as int,
                    )
                    &&& forall|k: int|
                        0 <= k < w@.len() ==> #[trigger] w@[k]@ == chunk_words(
                            write_data@,
                            self.tx_watermark_spec(),
                            k,
                        )
                },
                Err(e) => transfer_status(intr).result is Err && e
                    == NorStorageBusError::StorageBusIoError,
            },
    {
        let st = check_transfer_status(intr);
        if st.result.is_err() {
            return Err(NorStorageBusError::StorageBusIoError);
        }
        let len: usize = write_data.len();
        let wm: usize = self.tx_watermark as usize;
        let slots: usize = (self.tx_watermark / FIFO_SLOT_SIZE) as usize;
        let chunks = fifo_chunks(len as u32, self.tx_watermark);
        let mut out: Vec<Vec<u32>> = Vec::new();
        let mut k: usize = 0;
        while k < chunks.len()
            invariant
                wm == self.tx_watermark_spec(),
                wm > 0,
                slots == wm / 4,
                len == write_data@.len(),
                len <= u32::MAX,
                chunks@.len() == chunk_count(len as int, wm as int),
                forall|i: int| 0 <= i < chunks@.len() ==> #[trigger] chunks@[i] == fifo_chunk(len as int, wm as int, i),
                k <= chunks@.len(),
                out@.len() == k,
                forall|i: int| 0 <= i < k ==> #[trigger] out@[i]@ == chunk_words(write_data@, self.tx_watermark_spec(), i),
            decreases chunks@.len() - k,
        {
            let c: FifoChunk = chunks[k];
            proof {
                assert(c == fifo_chunk(len as int, wm as int, k as int));
                let ki: int = k as int;
                let wi: int = wm as int;
                let li: int = len as int;
                assert(ki * wi < li) by (nonlinear_arith)
                    requires
                        wi > 0,
                        li >= 0,
                        0 <= ki < (li + wi - 1) / wi,
                ;
                assert(ki * wi >= 0) by (nonlinear_arith)
                    requires
                        wi > 0,
                        ki >= 0,
                ;
                assert(c.offset == k * wm);
                assert(c.offset + c.len <= len);
            }
            let piece = vstd::slice::slice_subrange(write_data, c.offset, c.offset + c.len);
            let words = pack_tx_words(piece, slots);
            out.push(words);
            proof {
                assert(out@[k as int]@ == chunk_words(write_data@, self.tx_watermark_spec(), k as int));
            }
            k = k + 1;
        }
        Ok(out)
    }
}

/// The FIFO words that carry chunk `k` of a write of `data`.
pub open spec fn chunk_words(data: Seq<u8>, watermark: u8, k: int) -> Seq<u32> {
    let c = fifo_chunk(data.len() as int, watermark as int, k);
    tx_words(data.subrange(c.offset as int, c.offset + c.len), (watermark / 4) as int)
}

/// Byte `b` of chunk `k` of a write of `data` lies inside the buffer, and
/// the FIFO words packed for the chunk carry it to the place where the read
/// path copies it back.
pub open spec fn transfer_byte_roundtrips(data: Seq<u8>, watermark: u8, k: int, b: int) -> bool {
    let c = fifo_chunk(data.len() as int, watermark as int, k);
    &&& c.offset + c.len <= data.len()
    &&& word_byte(chunk_words(data, watermark, k)[b / 4], b % 4) == data[c.offset + b]
}

/// Over a whole transfer whose FIFO watermark is a whole number of slots,
/// every byte of the buffer written through the TX FIFO words comes back in
/// place when the same words are copied by the read path.
pub proof fn lemma_transfer_roundtrip(data: Seq<u8>, watermark: u8)
    requires
        watermark > 0,
        watermark % 4 == 0,
        data.len() <= u32::MAX,
    ensures
        forall|k: int, b: int|
            0 <= k < chunk_count(data.len() as int, watermark as int) && 0 <= b < fifo_chunk(
                data.len() as int,
                watermark as int,
                k,
            ).len ==> #[trigger] transfer_byte_roundtrips(data, watermark, k, b),
{
    let total = data.len() as u32;
    let wm = watermark as int;
    let t = data.len() as int;
    assert forall|k: int, b: int|
        0 <= k < chunk_count(t, wm) && 0 <= b < fifo_chunk(t, wm, k).len implies #[trigger] transfer_byte_roundtrips(
        data,
        watermark,
        k,
        b,
    ) by {
        let c = fifo_chunk(t, wm, k);
        assert(total as int == t);
        lemma_fifo_chunk_cover(total, watermark, k);
        let piece = data.subrange(c.offset as int, c.offset + c.len);
        assert(4 * (wm / 4) == wm);
        assert(piece.len() == c.len);
        assert(piece.len() <= 4 * (wm / 4));
        lemma_fifo_roundtrip(piece, (watermark / 4) as int);
        assert(word_byte(tx_words(piece, (watermark / 4) as int)[b / 4], b % 4) == piece[b]);
        assert(chunk_words(data, watermark, k) == tx_words(piece, (watermark / 4) as int));
        assert(piece[b] == data[c.offset + b]);
    }
}

/// A read through the RX FIFO gives back what a write of the same length put
/// through the TX FIFO: when each chunk of the read delivers the words that
/// the write packed for that chunk, every byte of the read buffer becomes the
/// byte written at its place, whatever the buffer held before.
pub proof fn lemma_read_returns_written(
    data: Seq<u8>,
    watermark: u8,
    before: Seq<u8>,
    words: Seq<Vec<u32>>,
)
    requires
        watermark > 0,
        watermark % 4 == 0,
        data.len() <= u32::MAX,
        before.len() == data.len(),
        words.len() == chunk_count(data.len() as int, watermark as int),
        forall|j: int| 0 <= j < words.len() ==> #[trigger] words[j]@ == chunk_words(data, watermark, j),
    ensures
        forall|b: int| 0 <= b < data.len() ==> #[trigger] read_byte(before, watermark as int, words, b) == data[b],
{
    let wm = watermark as int;
    let t = data.len() as int;
    lemma_transfer_roundtrip(data, watermark);
    assert forall|b: int| 0 <= b < t implies #[trigger] read_byte(before, wm, words, b) == data[b] by {
        lemma_split_position(b, wm, t);
        let j = b / wm;
        let rel = b % wm;
        assert(j < chunk_count(t, wm)) by {
            assert(j * wm <= b);
            assert((t + wm - 1) / wm >= j + 1) by {
                vstd::arithmetic::div_mod::lemma_div_is_ordered(j * wm + wm, t + wm - 1, wm);
                vstd::arithmetic::div_mod::lemma_div_multiples_vanish_fancy(j + 1, 0, wm);
                assert((j + 1) * wm == j * wm + wm) by (nonlinear_arith);
            }
        }
        let c = fifo_chunk(t, wm, j);
        let piece = data.subrange(c.offset as int, c.offset + c.len);
        lemma_fifo_chunk_cover(t as u32, watermark, j);
        assert(piece.len() == c.len);
        assert(4 * (wm / 4) == wm);
        assert(words[j]@ == tx_words(piece, (watermark / 4) as int));
        assert(words[j]@.len() == pieces(c.len as int));
        assert(rel < 4 * words[j]@.len());
        assert(transfer_byte_roundtrips(data, watermark, j, rel));
        assert(c.offset == j * wm);
    }
}

//
// Configuration
//

/// Value of the sequence used for commands unless the user picks another.
///
/// By default, sequence 14 is used, since it is not used by the ROM
/// bootloader or the mimxrt600_fcb crate.
pub const DEFAULT_COMMAND_SEQUENCE_NUMBER: u8 = 14;

/// Number of command sequences in the LUT.
pub const LUT_SEQUENCES: u8 = 32;

/// Serial root clock from which the DLL runs in auto mode.
pub const CLOCK_100MHZ: u32 = 100_000_000;

/// Delay of one DLL delay cell, in picoseconds.
pub const DELAYCELLUNIT: u32 = 75;

/// FlexSPI Port Enum.
#[derive(Clone, Copy, Debug, PartialEq, Eq, Structural)]
pub enum FlexSpiFlashPort {
    /// FlexSPI Port A
    PortA,
    /// FlexSPI Port B
    PortB,
}

/// FlexSPI Flash Port Device Instance Enum.
#[derive(Clone, Copy, Debug, PartialEq, Eq, Structural)]
pub enum FlexSpiFlashPortDeviceInstance {
    /// Device Instance 0
    DeviceInstance0,
    /// Device Instance 1
    DeviceInstance1,
}

/// FlexSPI Configuration Port data structure
pub struct FlexspiConfigPortData {
    /// FlexSPI Port - PortA or PortB
    pub port: FlexSpiFlashPort,
    /// FlexSPI Flash Port Device Instance - DeviceInstance0 or DeviceInstance1
    pub dev_instance: FlexSpiFlashPortDeviceInstance,
    /// RX watermark level
    pub rx_watermark: u8,
    /// TX watermark level
    pub tx_watermark: u8,
}

/// FlexSPI Bus Width Enum.
#[derive(Clone, Copy, Debug, PartialEq, Eq, Structural)]
pub enum FlexSpiBusWidth {
    /// Single bit bus width
    Single,
    /// Dual bit bus width
    Dual,
    /// Quad bit bus width
    Quad,
    /// Octal bit bus width
    Octal,
}

/// FlexSPI Chip Select Interval unit Enum.
#[derive(Clone, Copy, Debug, PartialEq, Eq, Structural)]
pub enum FlexspiCsIntervalCycleUnit {
    /// CS interval unit is 1 cycle
    Cycle1,
    /// CS interval unit is 256 cycle
    Cycle256,
}

/// FlexSPI AHB Write Wait unit Enum.
#[derive(Clone, Copy, Debug, PartialEq, Eq, Structural)]
pub enum FlexspiAhbWriteWaitUnit {
    /// AWRWAIT unit is 2 ahb clock cycle
    AhbCycle2,
    /// AWRWAIT unit is 8 ahb clock cycle.
    AhbCycle8,
    /// AWRWAIT unit is 32 ahb clock cycle.
    AhbCycle32,
    /// AWRWAIT unit is 128 ahb clock cycle.
    AhbCycle128,
    /// AWRWAIT unit is 512 ahb clock cycle.
    AhbCycle512,
    /// AWRWAIT unit is 2048 ahb clock cycle.
    AhbCycle2048,
    /// AWRWAIT unit is 8192 ahb clock cycle.
    AhbCycle8192,
    /// AWRWAIT unit is 32768 ahb clock cycle.
    AhbCycle32768,
}

/// FlexSPI Read Sample Clock Enum.
#[derive(Clone, Copy, Debug, PartialEq, Eq, Structural)]
pub enum FlexspiReadSampleClock {
    /// Dummy Read strobe generated by FlexSPI self.flexspi_ref and loopback internally
    LoopbackInternally,
    /// Dummy Read strobe generated by FlexSPI self.flexspi_ref and loopback from DQS pad
    LoopbackFromDqsPad,
    /// SCK output clock and loopback from SCK pad
    LoopbackFromSckPad,
    /// Flash provided Read strobe and input from DQS pad
    ExternalInputFromDqsPad,
}

/// The values that MCR0[RXCLKSRC] takes on this chip.
#[derive(Clone, Copy, Debug, PartialEq, Eq, Structural)]
pub enum FlexspiRxClockSource {
    /// 0: dummy read strobe generated by FlexSPI and looped back internally.
    Rxclksrc0,
    /// 1: dummy read strobe generated by FlexSPI and looped back from the DQS pad.
    Rxclksrc1,
    /// 3: read strobe provided by the flash, input from the DQS pad.
    Rxclksrc3,
}

/// FlexSPI AHB Buffer Configuration structure
#[derive(Clone, Copy, Debug, PartialEq, Eq, Structural)]
pub struct FlexspiAhbBufferConfig {
    /// This priority for AHB Master Read which this AHB RX Buffer is assigned.
    pub priority: u8,
    /// AHB Master ID the AHB RX Buffer is assigned.
    pub master_index: u8,
    /// AHB buffer size in byte.
    pub buffer_size: u16,
    /// AHB Read Prefetch Enable for current AHB RX Buffer corresponding Master, allows to prefetch
    /// data for AHB read access.
    pub enable_prefetch: bool,
}

/// Flash Device configuration
#[derive(Clone, Copy, Debug)]
pub struct FlexspiDeviceConfig {
    /// FLEXSPI serial root clock
    pub flexspi_root_clk: u32,
    /// FLEXSPI use SCK2
    pub is_sck2_enabled: bool,
    /// Flash size in KByte
    pub flash_size_kb: u32,
    /// CS interval unit, 1 or 256 cycle
    pub cs_interval_unit: FlexspiCsIntervalCycleUnit,
    /// CS line assert interval, multiply CS interval unit to get the CS line assert interval cycles
    pub cs_interval: u16,
    /// CS line hold time
    pub cs_hold_time: u8,
    /// CS line setup time
    pub cs_setup_time: u8,
    /// Data valid time for external device
    pub data_valid_time: u8,
    /// Column space size
    pub columnspace: u8,
    /// If enable word address
    pub enable_word_address: bool,
    /// Sequence ID for AHB write command
    pub awr_seq_index: u8,
    /// Sequence number for AHB write command
    pub awr_seq_number: u8,
    /// Sequence ID for AHB read command
    pub ard_seq_index: u8,
    /// Sequence number for AHB read command
    pub ard_seq_number: u8,
    /// AHB write wait unit
    pub ahb_write_wait_unit: FlexspiAhbWriteWaitUnit,
    /// AHB write wait interval, multiply AHB write interval unit to get the AHB write wait cycles
    pub ahb_write_wait_interval: u16,
    /// Enable/Disable FLEXSPI drive DQS pin as write mask
    pub enable_write_mask_port_a: bool,
    /// Enable/Disable FLEXSPI drive DQS pin as write mask
    pub enable_write_mask_port_b: bool,
}

/// AHB configuration structure
#[derive(Clone, Copy, Debug)]
pub struct AhbConfig {
    /// Enable AHB bus write access to IP TX FIFO.
    pub enable_ahb_write_ip_tx_fifo: bool,
    /// Enable AHB bus write access to IP RX FIFO.
    pub enable_ahb_write_ip_rx_fifo: bool,
    /// Timeout wait cycle for AHB command grant, timeout after ahbGrantTimeoutCyle*1024 AHB clock cycles.
    pub ahb_grant_timeout_cycle: u8,
    /// Timeout wait cycle for AHB read/write access, timeout after ahbBusTimeoutCycle*1024 AHB clock cycles.
    pub ahb_bus_timeout_cycle: u16,
    /// Wait cycle for idle state before suspended command sequence resume, timeout after ahbBusTimeoutCycle
    /// AHB clock cycles.
    pub resume_wait_cycle: u8,
    /// AHB buffer size.
    pub buffer: [FlexspiAhbBufferConfig; 8],
    /// Enable/disable automatically clean AHB RX Buffer and TX Buffer when FLEXSPI returns STOP mode ACK.
    pub enable_clear_ahb_buffer_opt: bool,
    /// Enable/disable remove AHB read burst start address alignment limitation. when enable, there is no AHB
    /// read burst start address alignment limitation.
    pub enable_read_address_opt: bool,
    /// Enable/disable AHB read prefetch feature, when enabled, FLEXSPI will fetch more data than current AHB burst.
    pub enable_ahb_prefetch: bool,
    /// Enable/disable AHB bufferable write access support, when enabled, FLEXSPI return before waiting for command
    /// execution finished.
    pub enable_ahb_bufferable: bool,
    /// Enable AHB bus cachable read access support.
    pub enable_ahb_cachable: bool,
}

/// FlexSPI configuration structure
#[derive(Clone, Copy, Debug)]
pub struct FlexspiConfig {
    /// Sample Clock source selection for Flash Reading.
    pub rx_sample_clock: FlexspiRxClockSource,
    /// Enable/disable SCK output free-running.
    pub enable_sck_free_running: bool,
    /// Enable/disable combining PORT A and B Data Pins (SIOA[3:0] and SIOB[3:0]) to support
    /// Flash Octal mode.
    pub enable_combination: bool,
    /// Enable/disable doze mode support.
    pub enable_doze: bool,
    /// Enable/disable divide by 2 of the clock for half speed commands.
    pub enable_half_speed_access: bool,
    /// Enable/disable SCKB pad use as SCKA differential clock output, when enable, Port B flash access
    /// is not available.
    pub enable_sck_b_diff_opt: bool,
    /// Enable/disable same configuration for all connected devices when enabled, same configuration in
    /// FLASHA1CRx is applied to all.
    pub enable_same_config_for_all: bool,
    /// Timeout wait cycle for command sequence execution, timeout after ahbGrantTimeoutCyle*1024 serial
    /// root clock cycles.
    pub seq_timeout_cycle: u16,
    /// Timeout wait cycle for IP command grant, timeout after ipGrantTimeoutCycle*1024 AHB clock cycles.
    pub ip_grant_timeout_cycle: u8,
    /// AHB configuration
    pub ahb_config: AhbConfig,
}

/// The flash device slots of the controller, in register order.
#[derive(Clone, Copy, Debug, PartialEq, Eq, Structural)]
pub enum FlashDeviceSlot {
    A1,
    A2,
    B1,
    B2,
}

/// Slot of a device on a port.
pub open spec fn device_slot(port: FlexSpiFlashPort, instance: FlexSpiFlashPortDeviceInstance) -> FlashDeviceSlot {
    match (port, instance) {
        (FlexSpiFlashPort::PortA, FlexSpiFlashPortDeviceInstance::DeviceInstance0) => FlashDeviceSlot::A1,
        (FlexSpiFlashPort::PortA, FlexSpiFlashPortDeviceInstance::DeviceInstance1) => FlashDeviceSlot::A2,
        (FlexSpiFlashPort::PortB, FlexSpiFlashPortDeviceInstance::DeviceInstance0) => FlashDeviceSlot::B1,
        (FlexSpiFlashPort::PortB, FlexSpiFlashPortDeviceInstance::DeviceInstance1) => FlashDeviceSlot::B2,
    }
}

/// Index of a slot in the per-device register arrays (FLSHxCR0/1/2).
pub open spec fn slot_index(slot: FlashDeviceSlot) -> usize {
    match slot {
        FlashDeviceSlot::A1 => 0,
        FlashDeviceSlot::A2 => 1,
        FlashDeviceSlot::B1 => 2,
        FlashDeviceSlot::B2 => 3,
    }
}

impl FlashDeviceSlot {
    /// Index of the slot in the per-device register arrays.
    pub fn index(self) -> (r: usize)
        ensures
            r == slot_index(self),
    {
        match self {
            FlashDeviceSlot::A1 => 0,
            FlashDeviceSlot::A2 => 1,
            FlashDeviceSlot::B1 => 2,
            FlashDeviceSlot::B2 => 3,
        }
    }
}

/// Configuration of the DLL (DLLCR) that delays the read sample clock.
#[derive(Clone, Copy, Debug, PartialEq, Eq, Structural)]
pub struct DllSetting {
    /// DLLEN: DLL calibration enable.
    pub dll_enable: bool,
    /// SLVDLYTARGET: target delay of the slave delay line.
    pub slave_delay_target: u8,
    /// OVRDEN: override mode enable.
    pub override_enable: bool,
    /// OVRDVAL: number of delay cells in override mode.
    pub override_value: u8,
}

/// Whether the read sample clock needs no data-valid-time compensation.
pub open spec fn unified_sample_clock(rx: FlexspiRxClockSource, is_sck2_enabled: bool) -> bool {
    match rx {
        FlexspiRxClockSource::Rxclksrc0 => true,
        FlexspiRxClockSource::Rxclksrc1 => true,
        FlexspiRxClockSource::Rxclksrc3 => is_sck2_enabled,
    }
}

/// Number of delay cells that cover a data valid time of `ns` nanoseconds,
/// rounded up.
pub open spec fn delay_cells(ns: u8) -> int {
    (ns as int * 1000 + DELAYCELLUNIT - 1) / DELAYCELLUNIT as int
}

/// The DLL setting: one fixed delay cell in override mode when the sample
/// clock needs no compensation; auto calibration from 100 MHz up; below,
/// enough delay cells, in override mode, to cover the data valid time.
pub open spec fn dll_setting_spec(
    rx: FlexspiRxClockSource,
    is_sck2_enabled: bool,
    root_clk: u32,
    data_valid_time: u8,
) -> DllSetting {
    if unified_sample_clock(rx, is_sck2_enabled) {
        DllSetting {
            dll_enable: false,
            slave_delay_target: 0,
            override_enable: true,
            override_value: 0,
        }
    } else if root_clk >= CLOCK_100MHZ {
        DllSetting {
            dll_enable: true,
            slave_delay_target: 0xF,
            override_enable: false,
            override_value: 0,
        }
    } else {
        DllSetting {
            dll_enable: false,
            slave_delay_target: 0,
            override_enable: true,
            override_value: delay_cells(data_valid_time) as u8,
        }
    }
}

/// Computes the DLL setting for a device.
pub fn dll_setting(
    rx_sample_clock: FlexspiRxClockSource,
    is_sck2_enabled: bool,
    flexspi_root_clk: u32,
    data_valid_time: u8,
) -> (r: DllSetting)
    ensures
        r == dll_setting_spec(rx_sample_clock, is_sck2_enabled, flexspi_root_clk, data_valid_time),
{
    let is_unified_config: bool = match rx_sample_clock {
        FlexspiRxClockSource::Rxclksrc0 => true,
        FlexspiRxClockSource::Rxclksrc1 => true,
        FlexspiRxClockSource::Rxclksrc3 => is_sck2_enabled,
    };
    if is_unified_config {
        DllSetting {
            dll_enable: false,
            slave_delay_target: 0x00,
            override_enable: true,
            override_value: 0x00,
        }
    } else if flexspi_root_clk >= CLOCK_100MHZ {
        DllSetting {
            dll_enable: true,
            slave_delay_target: 0xF,
            override_enable: false,
            override_value: 0x00,
        }
    } else {
        // Convert data valid time in ns to ps.
        let temp: u32 = data_valid_time as u32 * 1000;
        let mut dll_value: u32 = temp / DELAYCELLUNIT;
        if dll_value * DELAYCELLUNIT < temp {
            dll_value = dll_value + 1;
        }
        proof {
            assert(dll_value == delay_cells(data_valid_time));
        }
        DllSetting {
            dll_enable: false,
            slave_delay_target: 0x00,
            override_enable: true,
            override_value: dll_value as u8,
        }
    }
}

/// Per-device settings of the flash control registers (FLSHxCR0/1/2).
#[derive(Clone, Copy, Debug, PartialEq, Eq, Structural)]
pub struct FlashPortSettings {
    /// FLSHxCR0[FLSHSZ]: flash size in KByte.
    pub flash_size: u32,
    /// FLSHxCR1[CSINTERVAL].
    pub cs_interval: u16,
    /// FLSHxCR1[TCSH].
    pub cs_hold_time: u8,
    /// FLSHxCR1[TCSS].
    pub cs_setup_time: u8,
    /// FLSHxCR1[CAS].
    pub columnspace: u8,
    /// FLSHxCR1[WA].
    pub word_address: bool,
    /// FLSHxCR1[CSINTERVALUNIT].
    pub cs_interval_unit: FlexspiCsIntervalCycleUnit,
    /// FLSHxCR2[AWRWAITUNIT].
    pub ahb_write_wait_unit: FlexspiAhbWriteWaitUnit,
    /// FLSHxCR2[ARDSEQNUM] and FLSHxCR2[ARDSEQID], written only when the
    /// device has an AHB read sequence.
    pub ahb_read_sequence: Option<AhbSequence>,
    /// FLSHxCR2[AWRSEQID]: first LUT sequence of the AHB write command.
    pub ahb_write_seq_id: u8,
    /// FLSHxCR2[AWRSEQNUM]: number of AHB write sequences minus one,
    /// written only when the device has an AHB write sequence.
    pub ahb_write_seq_num: Option<u8>,
    /// FLSHxCR2[AWRWAIT]: AHB write wait interval, in AWRWAITUNIT units.
    pub ahb_write_wait: u16,
}

/// An AHB command sequence as the flash control register holds it.
#[derive(Clone, Copy, Debug, PartialEq, Eq, Structural)]
pub struct AhbSequence {
    /// Number of sequences minus one.
    pub seq_num: u8,
    /// Index of the first sequence in the LUT.
    pub seq_id: u8,
}

/// The flash control settings of a device: its fields as given, the AHB
/// read and write sequence counts stored minus one, and only when there is
/// one.
pub open spec fn flash_port_settings_spec(c: FlexspiDeviceConfig) -> FlashPortSettings {
    FlashPortSettings {
        flash_size: c.flash_size_kb,
        cs_interval: c.cs_interval,
        cs_hold_time: c.cs_hold_time,
        cs_setup_time: c.cs_setup_time,
        columnspace: c.columnspace,
        word_address: c.enable_word_address,
        cs_interval_unit: c.cs_interval_unit,
        ahb_write_wait_unit: c.ahb_write_wait_unit,
        ahb_read_sequence: if c.ard_seq_number > 0 {
            Some(AhbSequence { seq_num: (c.ard_seq_number - 1) as u8, seq_id: c.ard_seq_index })
        } else {
            None
        },
        ahb_write_seq_id: c.awr_seq_index,
        ahb_write_seq_num: if c.awr_seq_number > 0 {
            Some((c.awr_seq_number - 1) as u8)
        } else {
            None
        },
        ahb_write_wait: c.ahb_write_wait_interval,
    }
}

/// Computes the flash control settings of a device.
pub fn flash_port_settings(device_config: &FlexspiDeviceConfig) -> (r: FlashPortSettings)
    ensures
        r == flash_port_settings_spec(*device_config),
{
    FlashPortSettings {
        flash_size: device_config.flash_size_kb,
        cs_interval: device_config.cs_interval,
        cs_hold_time: device_config.cs_hold_time,
        cs_setup_time: device_config.cs_setup_time,
        columnspace: device_config.columnspace,
        word_address: device_config.enable_word_address,
        cs_interval_unit: device_config.cs_interval_unit,
        ahb_write_wait_unit: device_config.ahb_write_wait_unit,
        ahb_read_sequence: if device_config.ard_seq_number > 0 {
            Some(
                AhbSequence {
                    seq_num: device_config.ard_seq_number - 1,
                    seq_id: device_config.ard_seq_index,
                },
            )
        } else {
            None
        },
        ahb_write_seq_id: device_config.awr_seq_index,
        ahb_write_seq_num: if device_config.awr_seq_number > 0 {
            Some(device_config.awr_seq_number - 1)
        } else {
            None
        },
        ahb_write_wait: device_config.ahb_write_wait_interval,
    }
}


/// Settings of one AHB RX buffer (AHBRXBUFnCR0).
#[derive(Clone, Copy, Debug, PartialEq, Eq, Structural)]
pub struct AhbRxBufferSetting {
    /// PRIORITY: priority of the AHB master reading through this buffer.
    pub priority: u8,
    /// MSTRID: AHB master the buffer is assigned to.
    pub master_id: u8,
    /// BUFSZ: buffer size in 64-bit units.
    pub size: u16,
    /// PREFETCHEN: read prefetch for the buffer's master.
    pub prefetch: bool,
}

/// The AHBRXBUFnCR0 setting of a configured buffer: its size is given in
/// bytes and programmed in 64-bit units.
pub open spec fn rx_buffer_setting(b: FlexspiAhbBufferConfig) -> AhbRxBufferSetting {
    AhbRxBufferSetting {
        priority: b.priority,
        master_id: b.master_index,
        size: b.buffer_size / 8,
        prefetch: b.enable_prefetch,
    }
}

/// Settings of the controller registers written by
/// [`FlexSpiConfigurationPort::configure_flexspi`], while the module is
/// stopped.
#[derive(Clone, Debug)]
pub struct FlexspiModuleSettings {
    /// MCR0[RXCLKSRC].
    pub rx_clock_source: FlexspiRxClockSource,
    /// MCR0[DOZEEN].
    pub doze: bool,
    /// MCR0[SCKFREERUNEN].
    pub sck_free_running: bool,
    /// MCR0[HSEN].
    pub half_speed: bool,
    /// Combining the port A and B data pins for octal flash (COMBINATIONEN).
    pub combination: bool,
    /// MCR0[IPGRANTWAIT].
    pub ip_grant_wait: u8,
    /// MCR0[AHBGRANTWAIT].
    pub ahb_grant_wait: u8,
    /// MCR1[AHBBUSWAIT].
    pub ahb_bus_wait: u16,
    /// MCR1[SEQWAIT].
    pub seq_wait: u16,
    /// MCR2[SAMEDEVICEEN].
    pub same_device: bool,
    /// MCR2[RESUMEWAIT].
    pub resume_wait: u8,
    /// MCR2[SCKBDIFFOPT].
    pub sck_b_diff: bool,
    /// MCR2[CLRAHBBUFOPT].
    pub clear_ahb_buffer: bool,
    /// AHBCR[READADDROPT].
    pub read_address_opt: bool,
    /// AHBCR[BUFFERABLEEN].
    pub bufferable: bool,
    /// AHBCR[CACHABLEEN].
    pub cachable: bool,
    /// AHBCR[PREFETCHEN].
    pub prefetch: bool,
    /// AHBRXBUF0CR0 to AHBRXBUF7CR0, in order.
    pub rx_buffers: Vec<AhbRxBufferSetting>,
    /// The device whose flash size (FLSHxCR0[FLSHSZ]) is set here.
    pub flash_slot: FlashDeviceSlot,
    /// FLSHxCR0[FLSHSZ] of that device: cleared until the device port is
    /// configured.
    pub flash_size: u32,
    /// IPRXFCR[RXWMRK]: the IP RX FIFO watermark level.
    pub ip_rx_watermark: u8,
    /// IPTXFCR[TXWMRK]: the IP TX FIFO watermark level.
    pub ip_tx_watermark: u8,
}

/// The settings of the configuration registers for a port: each taken from
/// the field of `config` that describes it, the eight AHB RX buffers from the
/// eight configured buffers, and the port's device slot.
pub open spec fn module_settings_match(
    r: FlexspiModuleSettings,
    port: FlexSpiFlashPort,
    instance: FlexSpiFlashPortDeviceInstance,
    config: FlexspiConfig,
) -> bool {
    &&& r.rx_clock_source == config.rx_sample_clock
    &&& r.doze == config.enable_doze
    &&& r.sck_free_running == config.enable_sck_free_running
    &&& r.half_speed == config.enable_half_speed_access
    &&& r.combination == config.enable_combination
    &&& r.ip_grant_wait == config.ip_grant_timeout_cycle
    &&& r.ahb_grant_wait == config.ahb_config.ahb_grant_timeout_cycle
    &&& r.ahb_bus_wait == config.ahb_config.ahb_bus_timeout_cycle
    &&& r.seq_wait == config.seq_timeout_cycle
    &&& r.same_device == config.enable_same_config_for_all
    &&& r.resume_wait == config.ahb_config.resume_wait_cycle
    &&& r.sck_b_diff == config.enable_sck_b_diff_opt
    &&& r.clear_ahb_buffer == config.ahb_config.enable_clear_ahb_buffer_opt
    &&& r.read_address_opt == config.ahb_config.enable_read_address_opt
    &&& r.bufferable == config.ahb_config.enable_ahb_bufferable
    &&& r.cachable == config.ahb_config.enable_ahb_cachable
    &&& r.prefetch == config.ahb_config.enable_ahb_prefetch
    &&& r.rx_buffers@.len() == 8
    &&& forall|n: int|
        0 <= n < 8 ==> #[trigger] r.rx_buffers@[n] == rx_buffer_setting(config.ahb_config.buffer@[n])
    &&& r.flash_slot == device_slot(port, instance)
    &&& r.flash_size == 0
    &&& r.ip_rx_watermark == 0
    &&& r.ip_tx_watermark == 0
}

/// Settings of a device port written by
/// [`FlexSpiConfigurationPort::configure_device_port`].
#[derive(Clone, Copy, Debug, PartialEq, Eq, Structural)]
pub struct DevicePortSettings {
    /// Index of the DLLCR register.
    pub dll_index: usize,
    /// DLLCR value.
    pub dll: DllSetting,
    /// The port whose write mask (FLSHCR4[WMENA] or FLSHCR4[WMENB]) is set.
    pub write_mask_port: FlexSpiFlashPort,
    /// The write mask enable.
    pub write_mask: bool,
    /// The device slot of the flash control registers.
    pub slot: FlashDeviceSlot,
    /// The flash control settings.
    pub flash: FlashPortSettings,
}

/// Settings of a device port.
pub open spec fn device_port_settings_spec(
    port: FlexSpiFlashPort,
    instance: FlexSpiFlashPortDeviceInstance,
    device_config: FlexspiDeviceConfig,
    flexspi_config: FlexspiConfig,
) -> DevicePortSettings {
    DevicePortSettings {
        dll_index: match instance {
            FlexSpiFlashPortDeviceInstance::DeviceInstance0 => 0,
            FlexSpiFlashPortDeviceInstance::DeviceInstance1 => 1,
        },
        dll: dll_setting_spec(
            flexspi_config.rx_sample_clock,
            device_config.is_sck2_enabled,
            device_config.flexspi_root_clk,
            device_config.data_valid_time,
        ),
        write_mask_port: port,
        write_mask: match port {
            FlexSpiFlashPort::PortA => device_config.enable_write_mask_port_a,
            FlexSpiFlashPort::PortB => device_config.enable_write_mask_port_b,
        },
        slot: device_slot(port, instance),
        flash: flash_port_settings_spec(device_config),
    }
}

/// simply seal a trait
pub trait Sealed {}

impl<T> Sealed for T {}

/// Driver mode.
pub trait Mode: Sealed {}

/// Blocking mode.
pub struct Blocking;

impl Mode for Blocking {}

/// Async mode.
pub struct Async;

impl Mode for Async {}

/// FlexSPI Configuration Manager Port
pub struct FlexSpiConfigurationPort {
    /// Flash Port
    flash_port: FlexSpiFlashPort,
    /// Device Instance
    device_instance: FlexSpiFlashPortDeviceInstance,
}

impl FlexSpiConfigurationPort {
    /// The port the flash is on.
    pub closed spec fn port(&self) -> FlexSpiFlashPort {
        self.flash_port
    }

    /// The device instance on the port.
    pub closed spec fn instance(&self) -> FlexSpiFlashPortDeviceInstance {
        self.device_instance
    }

    /// The port the flash is on.
    pub fn flash_port(&self) -> (r: FlexSpiFlashPort)
        ensures
            r == self.port(),
    {
        self.flash_port
    }

    /// The device instance on the port.
    pub fn device_instance(&self) -> (r: FlexSpiFlashPortDeviceInstance)
        ensures
            r == self.instance(),
    {
        self.device_instance
    }

    /// The register settings that initialise the controller for this port.
    pub fn module_settings(&self, config: &FlexspiConfig) -> (r: FlexspiModuleSettings)
        ensures
            module_settings_match(r, self.port(), self.instance(), *config),
    {
        let flash_slot = match (self.flash_port, self.device_instance) {
            (FlexSpiFlashPort::PortA, FlexSpiFlashPortDeviceInstance::DeviceInstance0) => FlashDeviceSlot::A1,
            (FlexSpiFlashPort::PortA, FlexSpiFlashPortDeviceInstance::DeviceInstance1) => FlashDeviceSlot::A2,
            (FlexSpiFlashPort::PortB, FlexSpiFlashPortDeviceInstance::DeviceInstance0) => FlashDeviceSlot::B1,
            (FlexSpiFlashPort::PortB, FlexSpiFlashPortDeviceInstance::DeviceInstance1) => FlashDeviceSlot::B2,
        };
        let mut rx_buffers: Vec<AhbRxBufferSetting> = Vec::new();
        let mut n: usize = 0;
        while n < 8
            invariant
                n <= 8,
                rx_buffers@.len() == n,
                forall|k: int|
                    0 <= k < n ==> #[trigger] rx_buffers@[k] == rx_buffer_setting(
                        config.ahb_config.buffer@[k],
                    ),
            decreases 8 - n,
        {
            let b = config.ahb_config.buffer[n];
            rx_buffers.push(
                AhbRxBufferSetting {
                    priority: b.priority,
                    master_id: b.master_index,
                    size: b.buffer_size / 8,
                    prefetch: b.enable_prefetch,
                },
            );
            n = n + 1;
        }
        FlexspiModuleSettings {
            rx_clock_source: config.rx_sample_clock,
            doze: config.enable_doze,
            sck_free_running: config.enable_sck_free_running,
            half_speed: config.enable_half_speed_access,
            combination: config.enable_combination,
            ip_grant_wait: config.ip_grant_timeout_cycle,
            ahb_grant_wait: config.ahb_config.ahb_grant_timeout_cycle,
            ahb_bus_wait: config.ahb_config.ahb_bus_timeout_cycle,
            seq_wait: config.seq_timeout_cycle,
            same_device: config.enable_same_config_for_all,
            resume_wait: config.ahb_config.resume_wait_cycle,
            sck_b_diff: config.enable_sck_b_diff_opt,
            clear_ahb_buffer: config.ahb_config.enable_clear_ahb_buffer_opt,
            read_address_opt: config.ahb_config.enable_read_address_opt,
            bufferable: config.ahb_config.enable_ahb_bufferable,
            cachable: config.ahb_config.enable_ahb_cachable,
            prefetch: config.ahb_config.enable_ahb_prefetch,
            rx_buffers,
            flash_slot,
            flash_size: 0,
            ip_rx_watermark: 0,
            ip_tx_watermark: 0,
        }
    }

    /// The register settings that configure the flash device on this port.
    pub fn device_port_settings(
        &self,
        device_config: &FlexspiDeviceConfig,
        flexspi_config: &FlexspiConfig,
    ) -> (r: DevicePortSettings)
        ensures
            r == device_port_settings_spec(
                self.port(),
                self.instance(),
                *device_config,
                *flexspi_config,
            ),
    {
        let inst: usize = match self.device_instance {
            FlexSpiFlashPortDeviceInstance::DeviceInstance0 => 0,
            FlexSpiFlashPortDeviceInstance::DeviceInstance1 => 1,
        };
        let dll = dll_setting(
            flexspi_config.rx_sample_clock,
            device_config.is_sck2_enabled,
            device_config.flexspi_root_clk,
            device_config.data_valid_time,
        );
        let write_mask: bool = match self.flash_port {
            FlexSpiFlashPort::PortA => device_config.enable_write_mask_port_a,
            FlexSpiFlashPort::PortB => device_config.enable_write_mask_port_b,
        };
        let slot = match (self.flash_port, self.device_instance) {
            (FlexSpiFlashPort::PortA, FlexSpiFlashPortDeviceInstance::DeviceInstance0) => FlashDeviceSlot::A1,
            (FlexSpiFlashPort::PortA, FlexSpiFlashPortDeviceInstance::DeviceInstance1) => FlashDeviceSlot::A2,
            (FlexSpiFlashPort::PortB, FlexSpiFlashPortDeviceInstance::DeviceInstance0) => FlashDeviceSlot::B1,
            (FlexSpiFlashPort::PortB, FlexSpiFlashPortDeviceInstance::DeviceInstance1) => FlashDeviceSlot::B2,
        };
        DevicePortSettings {
            dll_index: inst,
            dll,
            write_mask_port: self.flash_port,
            write_mask,
            slot,
            flash: flash_port_settings(device_config),
        }
    }
}

/// FlexSPI instance
pub struct FlexspiNorStorageBus<M: Mode> {
    /// RX FIFO watermark level
    rx_watermark: u8,
    /// TX FIFO Watermark Level
    tx_watermark: u8,
    /// Mode Phantom object
    _mode: core::marker::PhantomData<M>,
    /// FlexSPI Configuration Port
    pub configport: FlexSpiConfigurationPort,
    /// Command sequence number of the LUT to use.
    command_sequence_number: u8,
}

impl<M: Mode> FlexspiNorStorageBus<M> {
    /// The RX FIFO watermark in bytes.
    pub closed spec fn rx_watermark_spec(&self) -> u8 {
        self.rx_watermark
    }

    /// The TX FIFO watermark in bytes.
    pub closed spec fn tx_watermark_spec(&self) -> u8 {
        self.tx_watermark
    }

    /// The port of the bus's configuration port.
    pub closed spec fn port_spec(&self) -> FlexSpiFlashPort {
        self.configport.port()
    }

    /// The device instance of the bus's configuration port.
    pub closed spec fn instance_spec(&self) -> FlexSpiFlashPortDeviceInstance {
        self.configport.instance()
    }

    /// The LUT sequence used for commands.
    pub closed spec fn sequence_spec(&self) -> u8 {
        self.command_sequence_number
    }

    /// The configuration port of the bus.
    pub fn config_port(&self) -> (r: &FlexSpiConfigurationPort)
        ensures
            r.port() == self.port_spec(),
            r.instance() == self.instance_spec(),
    {
        &self.configport
    }

    /// Set the command sequence in the FlexSPI LUT to use.
    ///
    /// All commands sent over the FlexSPI bus are first programmed into a lookup-table.
    /// You should make sure that the driver uses a command sequence that is not already used for other purposes.
    ///
    /// By default, we use command sequence 14, because it not used by the bootloader ROM or the `mimxrt600_fcb` crate (in the default configuration).
    /// However, if you are on a platform where sequence 14 is already in use, you should select a different one.
    /// The LUT holds `LUT_SEQUENCES` sequences, numbered from 0; commands are
    /// issued only with a sequence number below that.
    pub fn set_command_sequence_number(&mut self, value: u8)
        ensures
            final(self).sequence_spec() == value,
            final(self).rx_watermark_spec() == old(self).rx_watermark_spec(),
            final(self).tx_watermark_spec() == old(self).tx_watermark_spec(),
            final(self).port_spec() == old(self).port_spec(),
            final(self).instance_spec() == old(self).instance_spec(),
    {
        self.command_sequence_number = value;
    }

    /// Get the command sequence in the FlexSPI LUT to use.
    pub fn command_sequence_number(&self) -> (r: u8)
        ensures
            r == self.sequence_spec(),
    {
        self.command_sequence_number
    }

    /// The RX FIFO watermark in bytes.
    pub fn rx_watermark(&self) -> (r: u8)
        ensures
            r == self.rx_watermark_spec(),
    {
        self.rx_watermark
    }

    /// The TX FIFO watermark in bytes.
    pub fn tx_watermark(&self) -> (r: u8)
        ensures
            r == self.tx_watermark_spec(),
    {
        self.tx_watermark
    }

    /// The register values that prepare the IP command for a transfer with
    /// an optional address and data size, on the bus's command sequence.
    pub fn setup_ip_transfer(&self, addr: Option<u32>, size: Option<u32>) -> (r: IpTransferSetup)
        requires
            self.rx_watermark_spec() >= 8,
        ensures
            r == ip_transfer_setup(self.sequence_spec(), addr, size, self.rx_watermark_spec()),
    {
        setup_value(self.command_sequence_number, addr, size, self.rx_watermark)
    }

    /// The four LUT words of the bus's command sequence that carry `cmd`.
    pub fn program_lut(&self, cmd: &NorStorageCmd) -> (r: Vec<u32>)
        requires
            self.sequence_spec() < LUT_SEQUENCES,
            cmd_well_formed(*cmd),
        ensures
            r@ == lut_words(lut_program(*cmd)),
    {
        program_lut(cmd, self.command_sequence_number)
    }

    /// How a read of `len` bytes moves through the RX FIFO.
    pub fn rx_chunks(&self, len: u32) -> (r: Vec<FifoChunk>)
        requires
            self.rx_watermark_spec() > 0,
        ensures
            r@.len() == chunk_count(len as int, self.rx_watermark_spec() as int),
            forall|k: int|
                0 <= k < r@.len() ==> #[trigger] r@[k] == fifo_chunk(
                    len as int,
                    self.rx_watermark_spec() as int,
                    k,
                ),
    {
        fifo_chunks(len, self.rx_watermark)
    }

    /// How a write of `len` bytes moves through the TX FIFO.
    pub fn tx_chunks(&self, len: u32) -> (r: Vec<FifoChunk>)
        requires
            self.tx_watermark_spec() > 0,
        ensures
            r@.len() == chunk_count(len as int, self.tx_watermark_spec() as int),
            forall|k: int|
                0 <= k < r@.len() ==> #[trigger] r@[k] == fifo_chunk(
                    len as int,
                    self.tx_watermark_spec() as int,
                    k,
                ),
    {
        fifo_chunks(len, self.tx_watermark)
    }
}

/// INTR bit: IP command done.
pub const INTR_IPCMDDONE: u32 = 0;

/// Where a command sent through the IP command port stands.
#[derive(Clone, Copy, Debug, PartialEq, Eq, Structural)]
pub enum CommandStage {
    /// Nothing sent yet.
    Ready,
    /// The command was triggered; the caller passed buffers of these lengths.
    Issued { read_len: Option<usize>, write_len: Option<usize> },
    /// The data phase is under way.
    MovingData,
    /// Waiting for the controller to report the command done.
    Completing,
    /// The command is over.
    Finished,
}

/// What the driver learns between two steps of a command.
#[derive(Clone, Copy, Debug)]
pub enum CommandEvent {
    /// The command is to be sent, with buffers of these lengths (`None` for
    /// a buffer not passed).
    Send { read_len: Option<usize>, write_len: Option<usize> },
    /// The INTR register, read after the command was triggered.
    Status(u32),
    /// The data phase ended with this result.
    DataMoved(Result<(), NorStorageBusError>),
    /// INTR[IPCMDDONE] was polled; `expired` once the completion timeout has
    /// passed.
    CompletionPolled { done: bool, expired: bool },
}

/// What the driver does next for a command.
#[derive(Debug)]
pub enum CommandAction {
    /// Write the IP command setup and the four words of the command's LUT
    /// sequence, trigger the command, and read INTR.
    Issue(IpTransferSetup, Vec<u32>),
    /// Clear the INTR flags in `clear`, then read `len` bytes into the read
    /// buffer through the RX FIFO.
    Read { clear: u32, len: u32 },
    /// Clear the INTR flags in `clear`, then write `len` bytes from the write
    /// buffer through the TX FIFO.
    Write { clear: u32, len: u32 },
    /// Clear the INTR flags in `clear`, then poll INTR[IPCMDDONE].
    AwaitCompletion { clear: u32 },
    /// Clear the INTR flags in `clear` and end the command with `result`.
    Finish { clear: u32, result: Result<(), NorStorageBusError> },
    /// The event does not belong to the stage: nothing to do.
    Ignore,
}

/// One step of sending a command: a command too long for one transfer is
/// refused before anything is sent; otherwise it is issued. An error in the
/// status read after the trigger ends it with the error reported to the
/// storage layer; then the data phase needs the buffer of its direction, of
/// the command's data length. After the data phase (if any) the driver waits
/// for the command to be done, and gives up with an I/O error once the
/// timeout has passed without it.
pub open spec fn command_step_spec(
    seq: u8,
    rx_watermark: u8,
    cmd: NorStorageCmd,
    stage: CommandStage,
    event: CommandEvent,
    next: CommandStage,
    action: CommandAction,
) -> bool {
    match (stage, event) {
        (CommandStage::Ready, CommandEvent::Send { read_len, write_len }) => if cmd.data_bytes is Some
            && cmd.data_bytes.unwrap() > MAX_TRANSFER_SIZE_PER_COMMAND {
            &&& next == CommandStage::Finished
            &&& action == CommandAction::Finish {
                clear: 0,
                result: Err(NorStorageBusError::StorageBusInternalError),
            }
        } else {
            &&& next == (CommandStage::Issued { read_len, write_len })
            &&& action matches CommandAction::Issue(setup, lut)
            &&& setup == ip_transfer_setup(seq, cmd.addr, cmd.data_bytes, rx_watermark)
            &&& lut@ == lut_words(lut_program(cmd))
        },
        (CommandStage::Issued { read_len, write_len }, CommandEvent::Status(intr)) => {
            let st = transfer_status(intr);
            match st.result {
                Err(e) => {
                    &&& next == CommandStage::Finished
                    &&& action == CommandAction::Finish { clear: st.clear, result: Err(bus_error_of(e)) }
                },
                Ok(_) => match data_phase_spec(cmd, read_len, write_len) {
                    Err(e) => {
                        &&& next == CommandStage::Finished
                        &&& action == CommandAction::Finish { clear: st.clear, result: Err(e) }
                    },
                    Ok(None) => {
                        &&& next == CommandStage::Completing
                        &&& action == CommandAction::AwaitCompletion { clear: st.clear }
                    },
                    Ok(Some(DataTransfer::Read(n))) => {
                        &&& next == CommandStage::MovingData
                        &&& action == CommandAction::Read { clear: st.clear, len: n }
                    },
                    Ok(Some(DataTransfer::Write(n))) => {
                        &&& next == CommandStage::MovingData
                        &&& action == CommandAction::Write { clear: st.clear, len: n }
                    },
                },
            }
        },
        (CommandStage::MovingData, CommandEvent::DataMoved(r)) => match r {
            Err(e) => {
                &&& next == CommandStage::Finished
                &&& action == CommandAction::Finish { clear: 0, result: Err(e) }
            },
            Ok(_) => {
                &&& next == CommandStage::Completing
                &&& action == CommandAction::AwaitCompletion { clear: 0 }
            },
        },
        (CommandStage::Completing, CommandEvent::CompletionPolled { done, expired }) => if done {
            &&& next == CommandStage::Finished
            &&& action == CommandAction::Finish { clear: bit_mask(INTR_IPCMDDONE), result: Ok(()) }
        } else if expired {
            &&& next == CommandStage::Finished
            &&& action == CommandAction::Finish {
                clear: 0,
                result: Err(NorStorageBusError::StorageBusIoError),
            }
        } else {
            &&& next == CommandStage::Completing
            &&& action == CommandAction::AwaitCompletion { clear: 0 }
        },
        _ => next == stage && action == CommandAction::Ignore,
    }
}

/// The step that issues the command: sending a command whose data phase
/// fits one transfer. Only this step programs the controller, so only it
/// needs a usable RX watermark, a LUT sequence that exists and a data phase
/// with a length.
pub open spec fn step_issues(cmd: NorStorageCmd, stage: CommandStage, event: CommandEvent) -> bool {
    &&& stage == CommandStage::Ready
    &&& event is Send
    &&& !(cmd.data_bytes is Some && cmd.data_bytes.unwrap() > MAX_TRANSFER_SIZE_PER_COMMAND)
}

/// After an error-free status, a command goes on as its type says: a write
/// whose buffer has the command's length moves to the data phase and writes
/// exactly `data_bytes` bytes, a read likewise reads them, and a command
/// without data waits for completion. A command that moves data never goes
/// from issued to waiting for completion directly: it passes through the
/// data phase or ends with an error.
pub proof fn lemma_data_phase_follows_command(
    seq: u8,
    rx_watermark: u8,
    cmd: NorStorageCmd,
    read_len: Option<usize>,
    write_len: Option<usize>,
    intr: u32,
    next: CommandStage,
    action: CommandAction,
)
    requires
        command_step_spec(
            seq,
            rx_watermark,
            cmd,
            CommandStage::Issued { read_len, write_len },
            CommandEvent::Status(intr),
            next,
            action,
        ),
        transfer_status(intr).result is Ok,
    ensures
        cmd.cmdtype == Some(NorStorageCmdType::Write) && cmd.data_bytes is Some && write_len == Some(
            cmd.data_bytes.unwrap() as usize,
        ) ==> next == CommandStage::MovingData && action == (CommandAction::Write {
            clear: transfer_status(intr).clear,
            len: cmd.data_bytes.unwrap(),
        }),
        cmd.cmdtype == Some(NorStorageCmdType::Read) && cmd.data_bytes is Some && read_len == Some(
            cmd.data_bytes.unwrap() as usize,
        ) ==> next == CommandStage::MovingData && action == (CommandAction::Read {
            clear: transfer_status(intr).clear,
            len: cmd.data_bytes.unwrap(),
        }),
        cmd.cmdtype is Some ==> next == CommandStage::MovingData || next == CommandStage::Finished,
        cmd.cmdtype is None ==> next == CommandStage::Completing && action == (
        CommandAction::AwaitCompletion { clear: transfer_status(intr).clear }),
        action matches CommandAction::Write { len, .. } ==> cmd.cmdtype == Some(
            NorStorageCmdType::Write,
        ) && cmd.data_bytes == Some(len) && write_len == Some(len as usize),
        action matches CommandAction::Read { len, .. } ==> cmd.cmdtype == Some(NorStorageCmdType::Read)
            && cmd.data_bytes == Some(len) && read_len == Some(len as usize),
{
}

/// The other steps of a command: a command whose data is longer than one
/// transfer (65535 bytes) is finished with an internal error before anything
/// is sent; any other is issued on the bus's LUT sequence, at its address
/// (0 without one), with its data size, an RX FIFO watermark level one less
/// than the watermark's count of 8-byte entries, and the LUT words of its
/// sequence. An
/// error status ends the command with its flags cleared: a grant error as
/// "not available", a failed data learning as an internal error, any other as
/// an I/O error. After the data phase a command waits for completion unless
/// the phase failed. It succeeds only once IPCMDDONE is seen, which is then
/// cleared; a timeout before that is an I/O error. A finished command stays
/// finished.
pub proof fn lemma_command_step_outcomes(
    seq: u8,
    rx_watermark: u8,
    cmd: NorStorageCmd,
    stage: CommandStage,
    event: CommandEvent,
    next: CommandStage,
    action: CommandAction,
)
    requires
        command_step_spec(seq, rx_watermark, cmd, stage, event, next, action),
    ensures
        (action matches CommandAction::Finish { result, .. } && result is Ok) ==> stage
            == CommandStage::Completing && (event matches CommandEvent::CompletionPolled {
            done,
            ..
        } && done),
        match (stage, event) {
            (CommandStage::Ready, CommandEvent::Send { read_len, write_len }) => if cmd.data_bytes is Some
                && cmd.data_bytes.unwrap() > 65535 {
                next == CommandStage::Finished && action == (CommandAction::Finish {
                    clear: 0,
                    result: Err(NorStorageBusError::StorageBusInternalError),
                })
            } else {
                &&& next == (CommandStage::Issued { read_len, write_len })
                &&& action matches CommandAction::Issue(setup, lut)
                &&& setup.seq_id == seq
                &&& rx_watermark >= 8 ==> setup.rx_watermark_level + 1 == rx_watermark / 8
                &&& setup.address == (if cmd.addr is Some {
                    cmd.addr.unwrap()
                } else {
                    0
                })
                &&& setup.data_size == (if cmd.data_bytes is Some {
                    Some(cmd.data_bytes.unwrap() as u16)
                } else {
                    None
                })
                &&& lut@ == lut_words(lut_program(cmd))
            },
            (CommandStage::Issued { .. }, CommandEvent::Status(intr)) => transfer_status(intr).result is Err
                ==> next == CommandStage::Finished && action == (CommandAction::Finish {
                clear: transfer_status(intr).clear,
                result: Err(
                    match transfer_status(intr).result.unwrap_err() {
                        FlexSpiError::CmdGrantErr { .. } => NorStorageBusError::StorageBusNotAvailable,
                        FlexSpiError::DataLearningFailed => NorStorageBusError::StorageBusInternalError,
                        _ => NorStorageBusError::StorageBusIoError,
                    },
                ),
            }),
            (CommandStage::MovingData, CommandEvent::DataMoved(r)) => match r {
                Ok(_) => next == CommandStage::Completing && action == (CommandAction::AwaitCompletion {
                    clear: 0,
                }),
                Err(e) => next == CommandStage::Finished && action == (CommandAction::Finish {
                    clear: 0,
                    result: Err(e),
                }),
            },
            (CommandStage::Completing, CommandEvent::CompletionPolled { done, expired }) => if done {
                next == CommandStage::Finished && action == (CommandAction::Finish {
                    clear: 1,
                    result: Ok(()),
                })
            } else if expired {
                next == CommandStage::Finished && action == (CommandAction::Finish {
                    clear: 0,
                    result: Err(NorStorageBusError::StorageBusIoError),
                })
            } else {
                next == CommandStage::Completing && action == (CommandAction::AwaitCompletion {
                    clear: 0,
                })
            },
            _ => true,
        },
        stage == CommandStage::Finished ==> next == CommandStage::Finished && action
            == CommandAction::Ignore,
{
    assert(bit_mask(INTR_IPCMDDONE) == 1) by (bit_vector);
}

impl<M: Mode> FlexspiNorStorageBus<M> {
    /// Decides the next step of a command from where it stands and what the
    /// driver learnt.
    pub fn command_step(&self, cmd: &NorStorageCmd, stage: CommandStage, event: CommandEvent) -> (r: (
        CommandStage,
        CommandAction,
    ))
        requires
            step_issues(*cmd, stage, event) ==> self.rx_watermark_spec() >= 8
                && self.sequence_spec() < LUT_SEQUENCES && cmd_well_formed(*cmd),
        ensures
            command_step_spec(
                self.sequence_spec(),
                self.rx_watermark_spec(),
                *cmd,
                stage,
                event,
                r.0,
                r.1,
            ),
    {
        match (stage, event) {
            (CommandStage::Ready, CommandEvent::Send { read_len, write_len }) => {
                match check_command_size(cmd) {
                    Err(e) => (CommandStage::Finished, CommandAction::Finish { clear: 0, result: Err(e) }),
                    Ok(()) => {
                        let setup = self.setup_ip_transfer(cmd.addr, cmd.data_bytes);
                        let lut = self.program_lut(cmd);
                        (CommandStage::Issued { read_len, write_len }, CommandAction::Issue(setup, lut))
                    },
                }
            },
            (CommandStage::Issued { read_len, write_len }, CommandEvent::Status(intr)) => {
                let st = check_transfer_status(intr);
                match st.result {
                    Err(e) => (
                        CommandStage::Finished,
                        CommandAction::Finish { clear: st.clear, result: Err(NorStorageBusError::from(e)) },
                    ),
                    Ok(()) => match data_phase(cmd, read_len, write_len) {
                        Err(e) => (
                            CommandStage::Finished,
                            CommandAction::Finish { clear: st.clear, result: Err(e) },
                        ),
                        Ok(None) => (
                            CommandStage::Completing,
                            CommandAction::AwaitCompletion { clear: st.clear },
                        ),
                        Ok(Some(DataTransfer::Read(n))) => (
                            CommandStage::MovingData,
                            CommandAction::Read { clear: st.clear, len: n },
                        ),
                        Ok(Some(DataTransfer::Write(n))) => (
                            CommandStage::MovingData,
                            CommandAction::Write { clear: st.clear, len: n },
                        ),
                    },
                }
            },
            (CommandStage::MovingData, CommandEvent::DataMoved(r)) => match r {
                Err(e) => (CommandStage::Finished, CommandAction::Finish { clear: 0, result: Err(e) }),
                Ok(()) => (CommandStage::Completing, CommandAction::AwaitCompletion { clear: 0 }),
            },
            (CommandStage::Completing, CommandEvent::CompletionPolled { done, expired }) => {
                if done {
                    (
                        CommandStage::Finished,
                        CommandAction::Finish { clear: 1u32 << INTR_IPCMDDONE, result: Ok(()) },
                    )
                } else if expired {
                    (
                        CommandStage::Finished,
                        CommandAction::Finish {
                            clear: 0,
                            result: Err(NorStorageBusError::StorageBusIoError),
                        },
                    )
                } else {
                    (CommandStage::Completing, CommandAction::AwaitCompletion { clear: 0 })
                }
            },
            _ => (stage, CommandAction::Ignore),
        }
    }
}

impl FlexspiNorStorageBus<Blocking> {
    /// The state of a blocking bus for a port, using the default command
    /// sequence; the pins are configured by the caller.
    pub fn from_port_data(config: FlexspiConfigPortData) -> (r: Self)
        ensures
            r.rx_watermark_spec() == config.rx_watermark,
            r.tx_watermark_spec() == config.tx_watermark,
            r.sequence_spec() == DEFAULT_COMMAND_SEQUENCE_NUMBER,
            r.port_spec() == config.port,
            r.instance_spec() == config.dev_instance,
    {
        FlexspiNorStorageBus {
            rx_watermark: config.rx_watermark,
            tx_watermark: config.tx_watermark,
            _mode: core::marker::PhantomData,
            configport: FlexSpiConfigurationPort {
                flash_port: config.port,
                device_instance: config.dev_instance,
            },
            command_sequence_number: DEFAULT_COMMAND_SEQUENCE_NUMBER,
        }
    }
}

} // verus!
