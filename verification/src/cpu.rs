//! The RISC-V 64 process context: addressing and privilege modes, the register
//! blocks and the trap frame that holds them across a trap.

use vstd::prelude::*;
use vstd::string::*;

verus! {

/// Frequency of the platform timer, in ticks per second.
pub const FREQ: u64 = 10_000_000;

/// Length of one scheduling quantum, in timer ticks: 1/500 s.
pub const CONTEXT_SWITCH_TIME: u64 = FREQ / 500;

/// Virtual addressing mode of the memory management unit.
#[derive(Clone, Copy, Debug, PartialEq, Eq, Structural)]
pub enum SatpMode {
    /// No translation and no protection: physical address = virtual address.
    Off,
    /// 39-bit virtual addresses.
    Sv39,
    /// 48-bit virtual addresses.
    Sv48,
}

impl SatpMode {
    /// The number that the hardware knows the mode by: 0, 8 or 9.
    pub open spec fn code(self) -> nat {
        match self {
            SatpMode::Off => 0,
            SatpMode::Sv39 => 8,
            SatpMode::Sv48 => 9,
        }
    }

    /// The number that the hardware knows the mode by.
    pub fn bits(self) -> (code: u64)
        ensures
            code == self.code(),
    {
        match self {
            SatpMode::Off => 0,
            SatpMode::Sv39 => 8,
            SatpMode::Sv48 => 9,
        }
    }
}

/// Privilege mode of the processor.
#[derive(Clone, Copy, Debug, PartialEq, Eq, Structural)]
pub enum CpuMode {
    User,
    Supervisor,
    Machine,
}

impl CpuMode {
    /// The number that the hardware knows the mode by: 0, 1 or 3.
    pub open spec fn code(self) -> nat {
        match self {
            CpuMode::User => 0,
            CpuMode::Supervisor => 1,
            CpuMode::Machine => 3,
        }
    }

    /// The number that the hardware knows the mode by.
    pub fn bits(self) -> (code: u64)
        ensures
            code == self.code(),
    {
        match self {
            CpuMode::User => 0,
            CpuMode::Supervisor => 1,
            CpuMode::Machine => 3,
        }
    }
}

/// General purpose registers.
///
/// The fields stand in the order of the register numbers: the `i`-th field is
/// register `xi`, and its word lies `8 * i` bytes into the block.
#[derive(Clone, Copy, Debug, PartialEq, Eq, Structural)]
pub struct Registers {
    pub zero: u64,  // 0
    pub ra: u64,  // 1
    pub sp: u64,  // 2
    pub gp: u64,  // 3
    pub tp: u64,  // 4
    pub t0: u64,  // 5
    pub t1: u64,  // 6
    pub t2: u64,  // 7
    pub s0: u64,  // 8
    pub s1: u64,  // 9
    pub a0: u64,  // 10
    pub a1: u64,  // 11
    pub a2: u64,  // 12
    pub a3: u64,  // 13
    pub a4: u64,  // 14
    pub a5: u64,  // 15
    pub a6: u64,  // 16
    pub a7: u64,  // 17
    pub s2: u64,  // 18
    pub s3: u64,  // 19
    pub s4: u64,  // 20
    pub s5: u64,  // 21
    pub s6: u64,  // 22
    pub s7: u64,  // 23
    pub s8: u64,  // 24
    pub s9: u64,  // 25
    pub s10: u64,  // 26
    pub s11: u64,  // 27
    pub t3: u64,  // 28
    pub t4: u64,  // 29
    pub t5: u64,  // 30
    pub t6: u64,  // 31
}

impl View for Registers {
    type V = Seq<u64>;

    /// The 32 words of the block, by register number.
    open spec fn view(&self) -> Seq<u64> {
        seq![
            self.zero, self.ra, self.sp, self.gp,
            self.tp, self.t0, self.t1, self.t2,
            self.s0, self.s1, self.a0, self.a1,
            self.a2, self.a3, self.a4, self.a5,
            self.a6, self.a7, self.s2, self.s3,
            self.s4, self.s5, self.s6, self.s7,
            self.s8, self.s9, self.s10, self.s11,
            self.t3, self.t4, self.t5, self.t6,
        ]
    }
}

impl Registers {
    /// Every register holds zero.
    pub fn default() -> (regs: Self)
        ensures
            regs@ == Seq::new(32, |i: int| 0u64),
    {
        let regs = Self {
            zero: 0,
            ra: 0,
            sp: 0,
            gp: 0,
            tp: 0,
            t0: 0,
            t1: 0,
            t2: 0,
            s0: 0,
            s1: 0,
            a0: 0,
            a1: 0,
            a2: 0,
            a3: 0,
            a4: 0,
            a5: 0,
            a6: 0,
            a7: 0,
            s2: 0,
            s3: 0,
            s4: 0,
            s5: 0,
            s6: 0,
            s7: 0,
            s8: 0,
            s9: 0,
            s10: 0,
            s11: 0,
            t3: 0,
            t4: 0,
            t5: 0,
            t6: 0,
        };
        assert(regs@ =~= Seq::new(32, |i: int| 0u64));
        regs
    }
}

/// Floating point registers.
///
/// The fields stand in the order of the register numbers: the `i`-th field is
/// register `fi`, and its word lies `8 * i` bytes into the block.
#[derive(Clone, Copy, Debug, PartialEq, Eq, Structural)]
pub struct FRegisters {
    pub ft0: u64,  // 0
    pub ft1: u64,  // 1
    pub ft2: u64,  // 2
    pub ft3: u64,  // 3
    pub ft4: u64,  // 4
    pub ft5: u64,  // 5
    pub ft6: u64,  // 6
    pub ft7: u64,  // 7
    pub fs0: u64,  // 8
    pub fs1: u64,  // 9
    pub fa0: u64,  // 10
    pub fa1: u64,  // 11
    pub fa2: u64,  // 12
    pub fa3: u64,  // 13
    pub fa4: u64,  // 14
    pub fa5: u64,  // 15
    pub fa6: u64,  // 16
    pub fa7: u64,  // 17
    pub fs2: u64,  // 18
    pub fs3: u64,  // 19
    pub fs4: u64,  // 20
    pub fs5: u64,  // 21
    pub fs6: u64,  // 22
    pub fs7: u64,  // 23
    pub fs8: u64,  // 24
    pub fs9: u64,  // 25
    pub fs10: u64,  // 26
    pub fs11: u64,  // 27
    pub ft8: u64,  // 28
    pub ft9: u64,  // 29
    pub ft10: u64,  // 30
    pub ft11: u64,  // 31
}

impl View for FRegisters {
    type V = Seq<u64>;

    /// The 32 words of the block, by register number.
    open spec fn view(&self) -> Seq<u64> {
        seq![
            self.ft0, self.ft1, self.ft2, self.ft3,
            self.ft4, self.ft5, self.ft6, self.ft7,
            self.fs0, self.fs1, self.fa0, self.fa1,
            self.fa2, self.fa3, self.fa4, self.fa5,
            self.fa6, self.fa7, self.fs2, self.fs3,
            self.fs4, self.fs5, self.fs6, self.fs7,
            self.fs8, self.fs9, self.fs10, self.fs11,
            self.ft8, self.ft9, self.ft10, self.ft11,
        ]
    }
}

impl FRegisters {
    /// Every register holds zero.
    pub fn default() -> (regs: Self)
        ensures
            regs@ == Seq::new(32, |i: int| 0u64),
    {
        let regs = Self {
            ft0: 0,
            ft1: 0,
            ft2: 0,
            ft3: 0,
            ft4: 0,
            ft5: 0,
            ft6: 0,
            ft7: 0,
            fs0: 0,
            fs1: 0,
            fa0: 0,
            fa1: 0,
            fa2: 0,
            fa3: 0,
            fa4: 0,
            fa5: 0,
            fa6: 0,
            fa7: 0,
            fs2: 0,
            fs3: 0,
            fs4: 0,
            fs5: 0,
            fs6: 0,
            fs7: 0,
            fs8: 0,
            fs9: 0,
            fs10: 0,
            fs11: 0,
            ft8: 0,
            ft9: 0,
            ft10: 0,
            ft11: 0,
        };
        assert(regs@ =~= Seq::new(32, |i: int| 0u64));
        regs
    }
}

/// Number of 8-byte words in a trap frame.
pub const FRAME_WORDS: usize = 70;

/// Size of a trap frame in bytes.
pub const FRAME_BYTES: usize = 8 * FRAME_WORDS;

/// Byte offset of the general purpose registers in a trap frame.
pub const OFFSET_REGS: usize = 0;

/// Byte offset of the floating point registers in a trap frame.
pub const OFFSET_FREGS: usize = 256;

/// Byte offset of `satp` in a trap frame.
pub const OFFSET_SATP: usize = 512;

/// Byte offset of `pc` in a trap frame.
pub const OFFSET_PC: usize = 520;

/// Byte offset of `hartid` in a trap frame.
pub const OFFSET_HARTID: usize = 528;

/// Byte offset of `qm` in a trap frame.
pub const OFFSET_QM: usize = 536;

/// Byte offset of `pid` in a trap frame.
pub const OFFSET_PID: usize = 544;

/// Byte offset of `mode` in a trap frame.
pub const OFFSET_MODE: usize = 552;

/// Context of a process, kept across a trap.
///
/// Each hart keeps the address of its current frame in its scratch register.
/// The context-restore routine finds the fields by byte offset, so the order
/// of the fields is part of the contract: the view lists the words in that
/// order, and the word at byte offset `o` is `frame@[o / 8]`.
#[derive(Clone, Copy, Debug, PartialEq, Eq, Structural)]
pub struct TrapFrame {
    /// General purpose registers.
    pub regs: Registers,
    /// Floating point registers.
    pub fregs: FRegisters,
    /// Address translation and protection value.
    pub satp: u64,
    /// Program counter.
    pub pc: u64,
    /// Hardware thread id.
    pub hartid: u64,
    /// Quanta that the process may run before it is preempted.
    pub qm: u64,
    /// Process id; 0 stands for no process.
    pub pid: u64,
    /// Address translation mode scheme.
    pub mode: u64,
}

impl View for TrapFrame {
    type V = Seq<u64>;

    /// The words of the frame in the order in which they lie in memory.
    open spec fn view(&self) -> Seq<u64> {
        self.regs@ + self.fregs@ + seq![
            self.satp, self.pc, self.hartid, self.qm, self.pid, self.mode,
        ]
    }
}

impl TrapFrame {
    /// The frame of no process: every word is zero but the quantum counter,
    /// which is 1.
    pub open spec fn blank() -> Seq<u64> {
        Seq::new(FRAME_WORDS as nat, |i: int| if i == OFFSET_QM as int / 8 { 1u64 } else { 0u64 })
    }

    /// A frame that belongs to no process yet.
    pub fn new() -> (frame: Self)
        ensures
            frame@ == Self::blank(),
            frame.regs@ == Seq::new(32, |i: int| 0u64),
            frame.fregs@ == Seq::new(32, |i: int| 0u64),
            frame.satp == 0,
            frame.pc == 0,
            frame.hartid == 0,
            frame.qm == 1,
            frame.pid == 0,
            frame.mode == 0,
    {
        let frame = Self {
            regs: Registers::default(),
            fregs: FRegisters::default(),
            satp: 0,
            pc: 0,
            hartid: 0,
            qm: 1,
            pid: 0,
            mode: 0,
        };
        assert(frame@ =~= Self::blank());
        frame
    }

    /// The words of the frame in the order in which they lie in memory: what
    /// the context-restore routine reads.
    pub fn to_words(&self) -> (words: [u64; 70])
        ensures
            words@ == self@,
    {
        let mut words = [0u64;70];
        words[0] = self.regs.zero;
        words[1] = self.regs.ra;
        words[2] = self.regs.sp;
        words[3] = self.regs.gp;
        words[4] = self.regs.tp;
        words[5] = self.regs.t0;
        words[6] = self.regs.t1;
        words[7] = self.regs.t2;
        words[8] = self.regs.s0;
        words[9] = self.regs.s1;
        words[10] = self.regs.a0;
        words[11] = self.regs.a1;
        words[12] = self.regs.a2;
        words[13] = self.regs.a3;
        words[14] = self.regs.a4;
        words[15] = self.regs.a5;
        words[16] = self.regs.a6;
        words[17] = self.regs.a7;
        words[18] = self.regs.s2;
        words[19] = self.regs.s3;
        words[20] = self.regs.s4;
        words[21] = self.regs.s5;
        words[22] = self.regs.s6;
        words[23] = self.regs.s7;
        words[24] = self.regs.s8;
        words[25] = self.regs.s9;
        words[26] = self.regs.s10;
        words[27] = self.regs.s11;
        words[28] = self.regs.t3;
        words[29] = self.regs.t4;
        words[30] = self.regs.t5;
        words[31] = self.regs.t6;
        words[32] = self.fregs.ft0;
        words[33] = self.fregs.ft1;
        words[34] = self.fregs.ft2;
        words[35] = self.fregs.ft3;
        words[36] = self.fregs.ft4;
        words[37] = self.fregs.ft5;
        words[38] = self.fregs.ft6;
        words[39] = self.fregs.ft7;
        words[40] = self.fregs.fs0;
        words[41] = self.fregs.fs1;
        words[42] = self.fregs.fa0;
        words[43] = self.fregs.fa1;
        words[44] = self.fregs.fa2;
        words[45] = self.fregs.fa3;
        words[46] = self.fregs.fa4;
        words[47] = self.fregs.fa5;
        words[48] = self.fregs.fa6;
        words[49] = self.fregs.fa7;
        words[50] = self.fregs.fs2;
        words[51] = self.fregs.fs3;
        words[52] = self.fregs.fs4;
        words[53] = self.fregs.fs5;
        words[54] = self.fregs.fs6;
        words[55] = self.fregs.fs7;
        words[56] = self.fregs.fs8;
        words[57] = self.fregs.fs9;
        words[58] = self.fregs.fs10;
        words[59] = self.fregs.fs11;
        words[60] = self.fregs.ft8;
        words[61] = self.fregs.ft9;
        words[62] = self.fregs.ft10;
        words[63] = self.fregs.ft11;
        words[64] = self.satp;
        words[65] = self.pc;
        words[66] = self.hartid;
        words[67] = self.qm;
        words[68] = self.pid;
        words[69] = self.mode;
        assert(words@ =~= self@);
        words
    }

    /// The frame that lies in memory as `words`.
    pub fn from_words(words: &[u64; 70]) -> (frame: Self)
        ensures
            frame@ == words@,
    {
        let frame = Self {
            regs: Registers {
                zero: words[0],
                ra: words[1],
                sp: words[2],
                gp: words[3],
                tp: words[4],
                t0: words[5],
                t1: words[6],
                t2: words[7],
                s0: words[8],
                s1: words[9],
                a0: words[10],
                a1: words[11],
                a2: words[12],
                a3: words[13],
                a4: words[14],
                a5: words[15],
                a6: words[16],
                a7: words[17],
                s2: words[18],
                s3: words[19],
                s4: words[20],
                s5: words[21],
                s6: words[22],
                s7: words[23],
                s8: words[24],
                s9: words[25],
                s10: words[26],
                s11: words[27],
                t3: words[28],
                t4: words[29],
                t5: words[30],
                t6: words[31],
            },
            fregs: FRegisters {
                ft0: words[32],
                ft1: words[33],
                ft2: words[34],
                ft3: words[35],
                ft4: words[36],
                ft5: words[37],
                ft6: words[38],
                ft7: words[39],
                fs0: words[40],
                fs1: words[41],
                fa0: words[42],
                fa1: words[43],
                fa2: words[44],
                fa3: words[45],
                fa4: words[46],
                fa5: words[47],
                fa6: words[48],
                fa7: words[49],
                fs2: words[50],
                fs3: words[51],
                fs4: words[52],
                fs5: words[53],
                fs6: words[54],
                fs7: words[55],
                fs8: words[56],
                fs9: words[57],
                fs10: words[58],
                fs11: words[59],
                ft8: words[60],
                ft9: words[61],
                ft10: words[62],
                ft11: words[63],
            },
            satp: words[64],
            pc: words[65],
            hartid: words[66],
            qm: words[67],
            pid: words[68],
            mode: words[69],
        };
        assert(frame@ =~= words@);
        frame
    }
}

/// The layout of a frame: its length in words, and the place of each field.
pub proof fn lemma_frame_layout(frame: TrapFrame)
    ensures
        frame@.len() == FRAME_WORDS,
        frame@.subrange(OFFSET_REGS as int / 8, OFFSET_FREGS as int / 8) == frame.regs@,
        frame@.subrange(OFFSET_FREGS as int / 8, OFFSET_SATP as int / 8) == frame.fregs@,
        frame@[OFFSET_SATP as int / 8] == frame.satp,
        frame@[OFFSET_PC as int / 8] == frame.pc,
        frame@[OFFSET_HARTID as int / 8] == frame.hartid,
        frame@[OFFSET_QM as int / 8] == frame.qm,
        frame@[OFFSET_PID as int / 8] == frame.pid,
        frame@[OFFSET_MODE as int / 8] == frame.mode,
{
    assert(frame@.subrange(0, 32) =~= frame.regs@);
    assert(frame@.subrange(32, 64) =~= frame.fregs@);
}

/// A frame is what its words are: two frames with the same words are the same
/// frame.
pub proof fn lemma_frame_is_its_words(a: TrapFrame, b: TrapFrame)
    requires
        a@ == b@,
    ensures
        a == b,
{
    lemma_frame_layout(a);
    lemma_frame_layout(b);
    assert forall|i: int| 0 <= i < 32 implies a.regs@[i] == b.regs@[i] by {}
    assert forall|i: int| 0 <= i < 32 implies a.fregs@[i] == b.fregs@[i] by {}
}

/// The text that shows the registers of a frame. It does not show them yet:
/// the text is a line of three spaces.
pub fn dump_registers(frame: &TrapFrame) -> (text: String)
    ensures
        text@ == seq![' ', ' ', ' ', '\n'],
{
    proof {
        reveal_strlit("   ");
        reveal_strlit("\n");
    }
    let mut text = String::from_str("   ");
    text.append("\n");
    assert(text@ =~= seq![' ', ' ', ' ', '\n']);
    text
}

} // verus!
