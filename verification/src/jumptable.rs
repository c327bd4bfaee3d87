//! The dispatch table: what each of the 256 encodings stands for.

use vstd::prelude::*;
use crate::nes::ACCUMULATOR;
use crate::nes::addressable;
use crate::nes::Nes;
use crate::nes::page_sensitive;
use crate::nes::same_fittings;
use crate::opcodes::adc;
use crate::opcodes::adc_effect;
use crate::opcodes::alr;
use crate::opcodes::anc;
use crate::opcodes::and;
use crate::opcodes::and_effect;
use crate::opcodes::arr;
use crate::opcodes::asl;
use crate::opcodes::asl_effect;
use crate::opcodes::axs;
use crate::opcodes::bcc;
use crate::opcodes::bcs;
use crate::opcodes::beq;
use crate::opcodes::bit;
use crate::opcodes::bit_effect;
use crate::opcodes::bmi;
use crate::opcodes::bne;
use crate::opcodes::bpl;
use crate::opcodes::branched;
use crate::opcodes::brk;
use crate::opcodes::bvc;
use crate::opcodes::bvs;
use crate::opcodes::clc;
use crate::opcodes::clc_effect;
use crate::opcodes::cld;
use crate::opcodes::cld_effect;
use crate::opcodes::cli;
use crate::opcodes::cli_effect;
use crate::opcodes::clv;
use crate::opcodes::clv_effect;
use crate::opcodes::cmp;
use crate::opcodes::compare_effect;
use crate::opcodes::cpx;
use crate::opcodes::cpx_effect;
use crate::opcodes::cpy;
use crate::opcodes::cpy_effect;
use crate::opcodes::dcp;
use crate::opcodes::dcp_effect;
use crate::opcodes::dec;
use crate::opcodes::dec_effect;
use crate::opcodes::dex;
use crate::opcodes::dex_effect;
use crate::opcodes::dey;
use crate::opcodes::dey_effect;
use crate::opcodes::eor;
use crate::opcodes::eor_effect;
use crate::opcodes::halt;
use crate::opcodes::halt_effect;
use crate::opcodes::ign;
use crate::opcodes::inc;
use crate::opcodes::inc_effect;
use crate::opcodes::inx;
use crate::opcodes::inx_effect;
use crate::opcodes::iny;
use crate::opcodes::iny_effect;
use crate::opcodes::isc;
use crate::opcodes::isc_effect;
use crate::opcodes::jmp;
use crate::opcodes::jmp_effect;
use crate::opcodes::jsr;
use crate::opcodes::jsr_effect;
use crate::opcodes::lax;
use crate::opcodes::lax_effect;
use crate::opcodes::lda;
use crate::opcodes::lda_effect;
use crate::opcodes::ldx;
use crate::opcodes::ldx_effect;
use crate::opcodes::ldy;
use crate::opcodes::ldy_effect;
use crate::opcodes::lsr;
use crate::opcodes::lsr_effect;
use crate::opcodes::nop;
use crate::opcodes::ora;
use crate::opcodes::ora_effect;
use crate::opcodes::pha;
use crate::opcodes::pha_effect;
use crate::opcodes::php;
use crate::opcodes::php_effect;
use crate::opcodes::pla;
use crate::opcodes::pla_effect;
use crate::opcodes::placeholder;
use crate::opcodes::plp;
use crate::opcodes::plp_effect;
use crate::opcodes::rla;
use crate::opcodes::rla_effect;
use crate::opcodes::rol;
use crate::opcodes::rol_effect;
use crate::opcodes::ror;
use crate::opcodes::ror_effect;
use crate::opcodes::rra;
use crate::opcodes::rra_effect;
use crate::opcodes::rti;
use crate::opcodes::rti_effect;
use crate::opcodes::rts;
use crate::opcodes::rts_effect;
use crate::opcodes::sax;
use crate::opcodes::sax_effect;
use crate::opcodes::sbc;
use crate::opcodes::sbc_effect;
use crate::opcodes::sec;
use crate::opcodes::sec_effect;
use crate::opcodes::sed;
use crate::opcodes::sed_effect;
use crate::opcodes::sei;
use crate::opcodes::sei_effect;
use crate::opcodes::skb;
use crate::opcodes::skip_effect;
use crate::opcodes::slo;
use crate::opcodes::slo_effect;
use crate::opcodes::sre;
use crate::opcodes::sre_effect;
use crate::opcodes::sta;
use crate::opcodes::sta_effect;
use crate::opcodes::stx;
use crate::opcodes::stx_effect;
use crate::opcodes::sty;
use crate::opcodes::sty_effect;
use crate::opcodes::tax;
use crate::opcodes::tax_effect;
use crate::opcodes::tay;
use crate::opcodes::tay_effect;
use crate::opcodes::tsx;
use crate::opcodes::tsx_effect;
use crate::opcodes::txa;
use crate::opcodes::txa_effect;
use crate::opcodes::txs;
use crate::opcodes::txs_effect;
use crate::opcodes::tya;
use crate::opcodes::tya_effect;
use crate::opcodes::with_penalty;

verus! {

/// The instructions that an entry of the table can stand for.
#[derive(Clone, Copy, PartialEq, Eq, Structural, Debug)]
pub enum Operation {
    Ldx,
    Lda,
    Ldy,
    Sta,
    Stx,
    Sty,
    Php,
    Plp,
    Pla,
    Pha,
    Tsx,
    Txs,
    Tax,
    Txa,
    Tay,
    Tya,
    Inx,
    Iny,
    Dex,
    Dey,
    Clc,
    Sec,
    Sed,
    Cld,
    Clv,
    Brk,
    Nop,
    Sei,
    Cli,
    Rti,
    Adc,
    Sbc,
    And,
    Lsr,
    Dec,
    Inc,
    Ora,
    Eor,
    Asl,
    Ror,
    Rol,
    Cmp,
    Cpx,
    Cpy,
    Bit,
    Jsr,
    Jmp,
    Rts,
    Beq,
    Bne,
    Bpl,
    Bcs,
    Bcc,
    Bvs,
    Bvc,
    Bmi,
    Ign,
    Lax,
    Sax,
    Dcp,
    Isc,
    Slo,
    Rla,
    Sre,
    Rra,
    Halt,
    Alr,
    Anc,
    Arr,
    Axs,
    Skb,
    Placeholder,
}

/// One entry of the table.
#[derive(Clone, Copy, PartialEq, Eq, Structural, Debug)]
pub struct Opcode {
    /// the instruction
    pub handler: Operation,
    /// the code of the addressing mode
    pub addressing: u8,
    /// the base cycles of the encoding
    pub cycles: u8,
    /// the length of the encoding in bytes
    pub bytes: u8,
}

/// The instruction of each encoding.
pub const OPERATIONS: [Operation; 256] = [
    Operation::Brk, Operation::Ora, Operation::Halt, Operation::Slo,
    Operation::Ign, Operation::Ora, Operation::Asl, Operation::Slo,
    Operation::Php, Operation::Ora, Operation::Asl, Operation::Anc,
    Operation::Ign, Operation::Ora, Operation::Asl, Operation::Slo,
    Operation::Bpl, Operation::Ora, Operation::Halt, Operation::Slo,
    Operation::Ign, Operation::Ora, Operation::Asl, Operation::Slo,
    Operation::Clc, Operation::Ora, Operation::Nop, Operation::Slo,
    Operation::Ign, Operation::Ora, Operation::Asl, Operation::Slo,
    Operation::Jsr, Operation::And, Operation::Halt, Operation::Rla,
    Operation::Bit, Operation::And, Operation::Rol, Operation::Rla,
    Operation::Plp, Operation::And, Operation::Rol, Operation::Anc,
    Operation::Bit, Operation::And, Operation::Rol, Operation::Rla,
    Operation::Bmi, Operation::And, Operation::Halt, Operation::Rla,
    Operation::Ign, Operation::And, Operation::Rol, Operation::Rla,
    Operation::Sec, Operation::And, Operation::Nop, Operation::Rla,
    Operation::Ign, Operation::And, Operation::Rol, Operation::Rla,
    Operation::Rti, Operation::Eor, Operation::Halt, Operation::Sre,
    Operation::Ign, Operation::Eor, Operation::Lsr, Operation::Sre,
    Operation::Pha, Operation::Eor, Operation::Lsr, Operation::Alr,
    Operation::Jmp, Operation::Eor, Operation::Lsr, Operation::Sre,
    Operation::Bvc, Operation::Eor, Operation::Halt, Operation::Sre,
    Operation::Ign, Operation::Eor, Operation::Lsr, Operation::Sre,
    Operation::Cli, Operation::Eor, Operation::Nop, Operation::Sre,
    Operation::Ign, Operation::Eor, Operation::Lsr, Operation::Sre,
    Operation::Rts, Operation::Adc, Operation::Halt, Operation::Rra,
    Operation::Ign, Operation::Adc, Operation::Ror, Operation::Rra,
    Operation::Pla, Operation::Adc, Operation::Ror, Operation::Arr,
    Operation::Jmp, Operation::Adc, Operation::Ror, Operation::Rra,
    Operation::Bvs, Operation::Adc, Operation::Halt, Operation::Rra,
    Operation::Ign, Operation::Adc, Operation::Ror, Operation::Rra,
    Operation::Sei, Operation::Adc, Operation::Nop, Operation::Rra,
    Operation::Ign, Operation::Adc, Operation::Ror, Operation::Rra,
    Operation::Skb, Operation::Sta, Operation::Skb, Operation::Sax,
    Operation::Sty, Operation::Sta, Operation::Stx, Operation::Sax,
    Operation::Dey, Operation::Skb, Operation::Txa, Operation::Placeholder,
    Operation::Sty, Operation::Sta, Operation::Stx, Operation::Sax,
    Operation::Bcc, Operation::Sta, Operation::Halt, Operation::Placeholder,
    Operation::Sty, Operation::Sta, Operation::Stx, Operation::Sax,
    Operation::Tya, Operation::Sta, Operation::Txs, Operation::Placeholder,
    Operation::Placeholder, Operation::Sta, Operation::Placeholder, Operation::Placeholder,
    Operation::Ldy, Operation::Lda, Operation::Ldx, Operation::Lax,
    Operation::Ldy, Operation::Lda, Operation::Ldx, Operation::Lax,
    Operation::Tay, Operation::Lda, Operation::Tax, Operation::Placeholder,
    Operation::Ldy, Operation::Lda, Operation::Ldx, Operation::Lax,
    Operation::Bcs, Operation::Lda, Operation::Halt, Operation::Lax,
    Operation::Ldy, Operation::Lda, Operation::Ldx, Operation::Lax,
    Operation::Clv, Operation::Lda, Operation::Tsx, Operation::Placeholder,
    Operation::Ldy, Operation::Lda, Operation::Ldx, Operation::Lax,
    Operation::Cpy, Operation::Cmp, Operation::Skb, Operation::Dcp,
    Operation::Cpy, Operation::Cmp, Operation::Dec, Operation::Dcp,
    Operation::Iny, Operation::Cmp, Operation::Dex, Operation::Axs,
    Operation::Cpy, Operation::Cmp, Operation::Dec, Operation::Dcp,
    Operation::Bne, Operation::Cmp, Operation::Halt, Operation::Dcp,
    Operation::Ign, Operation::Cmp, Operation::Dec, Operation::Dcp,
    Operation::Cld, Operation::Cmp, Operation::Nop, Operation::Dcp,
    Operation::Ign, Operation::Cmp, Operation::Dec, Operation::Dcp,
    Operation::Cpx, Operation::Sbc, Operation::Skb, Operation::Isc,
    Operation::Cpx, Operation::Sbc, Operation::Inc, Operation::Isc,
    Operation::Inx, Operation::Sbc, Operation::Nop, Operation::Sbc,
    Operation::Cpx, Operation::Sbc, Operation::Inc, Operation::Isc,
    Operation::Beq, Operation::Sbc, Operation::Halt, Operation::Isc,
    Operation::Ign, Operation::Sbc, Operation::Inc, Operation::Isc,
    Operation::Sed, Operation::Sbc, Operation::Nop, Operation::Isc,
    Operation::Ign, Operation::Sbc, Operation::Inc, Operation::Isc,
];

/// The addressing mode of each encoding.
pub const ADDRESSING: [u8; 256] = [
    0, 11, 0, 11, 3, 3, 3, 3, 0, 2, 1, 2, 7, 7, 7, 7,
    6, 12, 0, 12, 4, 4, 4, 4, 0, 9, 0, 9, 8, 8, 8, 8,
    7, 11, 0, 11, 3, 3, 3, 3, 0, 2, 1, 2, 7, 7, 7, 7,
    6, 12, 0, 12, 4, 4, 4, 4, 0, 9, 0, 9, 8, 8, 8, 8,
    0, 11, 0, 11, 3, 3, 3, 3, 0, 2, 1, 2, 7, 7, 7, 7,
    6, 12, 0, 12, 4, 4, 4, 4, 0, 9, 0, 9, 8, 8, 8, 8,
    0, 11, 0, 11, 3, 3, 3, 3, 0, 2, 1, 2, 10, 7, 7, 7,
    6, 12, 0, 12, 4, 4, 4, 4, 0, 9, 0, 9, 8, 8, 8, 8,
    2, 11, 2, 11, 3, 3, 3, 3, 0, 2, 0, 0, 7, 7, 7, 7,
    6, 12, 0, 0, 4, 4, 5, 5, 0, 9, 0, 0, 0, 8, 0, 0,
    2, 11, 2, 11, 3, 3, 3, 3, 0, 2, 0, 0, 7, 7, 7, 7,
    6, 12, 0, 12, 4, 4, 5, 5, 0, 9, 0, 0, 8, 8, 9, 9,
    2, 11, 2, 11, 3, 3, 3, 3, 0, 2, 0, 2, 7, 7, 7, 7,
    6, 12, 0, 12, 4, 4, 4, 4, 0, 9, 0, 9, 8, 8, 8, 8,
    2, 11, 2, 11, 3, 3, 3, 3, 0, 2, 0, 2, 7, 7, 7, 7,
    6, 12, 0, 12, 4, 4, 4, 4, 0, 9, 0, 9, 8, 8, 8, 8,
];

/// The base cycles of each encoding.
pub const CYCLES: [u8; 256] = [
    7, 6, 0, 8, 3, 3, 5, 5, 3, 2, 2, 2, 4, 4, 6, 6,
    2, 5, 0, 8, 4, 4, 6, 6, 2, 4, 2, 7, 4, 4, 7, 7,
    6, 6, 0, 8, 3, 3, 5, 5, 4, 2, 2, 2, 4, 4, 6, 6,
    2, 5, 0, 8, 4, 4, 6, 6, 2, 4, 2, 7, 4, 4, 7, 7,
    6, 6, 0, 8, 3, 3, 5, 5, 3, 2, 2, 2, 3, 4, 6, 6,
    2, 5, 0, 8, 4, 4, 6, 6, 2, 4, 2, 7, 4, 4, 7, 7,
    6, 6, 0, 8, 3, 3, 5, 5, 4, 2, 2, 2, 5, 4, 6, 6,
    2, 5, 0, 8, 4, 4, 6, 6, 2, 4, 2, 7, 4, 4, 7, 7,
    2, 6, 2, 6, 3, 3, 3, 3, 2, 2, 2, 0, 4, 4, 4, 4,
    2, 6, 0, 0, 4, 4, 4, 4, 2, 5, 2, 0, 0, 5, 0, 0,
    2, 6, 2, 6, 3, 3, 3, 3, 2, 2, 2, 0, 4, 4, 4, 4,
    2, 5, 0, 5, 4, 4, 4, 4, 2, 4, 2, 0, 4, 4, 4, 4,
    2, 6, 2, 8, 3, 3, 5, 5, 2, 2, 2, 2, 4, 4, 6, 6,
    2, 5, 0, 8, 4, 4, 6, 6, 2, 4, 2, 7, 4, 4, 7, 7,
    2, 6, 2, 8, 3, 3, 5, 5, 2, 2, 2, 2, 4, 4, 6, 6,
    2, 5, 0, 8, 4, 4, 6, 6, 2, 4, 2, 7, 4, 4, 7, 7,
];

/// The length of each encoding.
pub const BYTES: [u8; 256] = [
    1, 2, 1, 2, 2, 2, 2, 2, 1, 2, 1, 2, 3, 3, 3, 3,
    2, 2, 1, 2, 2, 2, 2, 2, 1, 3, 1, 3, 3, 3, 3, 3,
    3, 2, 1, 2, 2, 2, 2, 2, 1, 2, 1, 2, 3, 3, 3, 3,
    2, 2, 1, 2, 2, 2, 2, 2, 1, 3, 1, 3, 3, 3, 3, 3,
    1, 2, 1, 2, 2, 2, 2, 2, 1, 2, 1, 2, 3, 3, 3, 3,
    2, 2, 1, 2, 2, 2, 2, 2, 1, 3, 1, 3, 3, 3, 3, 3,
    1, 2, 1, 2, 2, 2, 2, 2, 1, 2, 1, 2, 3, 3, 3, 3,
    2, 2, 1, 2, 2, 2, 2, 2, 1, 3, 1, 3, 3, 3, 3, 3,
    2, 2, 2, 2, 2, 2, 2, 2, 1, 2, 1, 1, 3, 3, 3, 3,
    2, 2, 1, 1, 2, 2, 2, 2, 1, 3, 1, 1, 1, 3, 1, 1,
    2, 2, 2, 2, 2, 2, 2, 2, 1, 2, 1, 1, 3, 3, 3, 3,
    2, 2, 1, 2, 2, 2, 2, 2, 1, 3, 1, 1, 3, 3, 3, 3,
    2, 2, 2, 2, 2, 2, 2, 2, 1, 2, 1, 2, 3, 3, 3, 3,
    2, 2, 1, 2, 2, 2, 2, 2, 1, 3, 1, 3, 3, 3, 3, 3,
    2, 2, 2, 2, 2, 2, 2, 2, 1, 2, 1, 2, 3, 3, 3, 3,
    2, 2, 1, 2, 2, 2, 2, 2, 1, 3, 1, 3, 3, 3, 3, 3,
];

/// Whether each encoding is one of the documented ones.
pub const DOCUMENTED: [bool; 256] = [
    true, true, false, false, false, true, true, false,
    true, true, true, false, false, true, true, false,
    true, true, false, false, false, true, true, false,
    true, true, false, false, false, true, true, false,
    true, true, false, false, true, true, true, false,
    true, true, true, false, true, true, true, false,
    true, true, false, false, false, true, true, false,
    true, true, false, false, false, true, true, false,
    true, true, false, false, false, true, true, false,
    true, true, true, false, true, true, true, false,
    true, true, false, false, false, true, true, false,
    true, true, false, false, false, true, true, false,
    true, true, false, false, false, true, true, false,
    true, true, true, false, true, true, true, false,
    true, true, false, false, false, true, true, false,
    true, true, false, false, false, true, true, false,
    false, true, false, false, true, true, true, false,
    true, false, true, false, true, true, true, false,
    true, true, false, false, true, true, true, false,
    true, true, true, false, false, true, false, false,
    true, true, true, false, true, true, true, false,
    true, true, true, false, true, true, true, false,
    true, true, false, false, true, true, true, false,
    true, true, true, false, true, true, true, false,
    true, true, false, false, true, true, true, false,
    true, true, true, false, true, true, true, false,
    true, true, false, false, false, true, true, false,
    true, true, false, false, false, true, true, false,
    true, true, false, false, true, true, true, false,
    true, true, true, false, true, true, true, false,
    true, true, false, false, false, true, true, false,
    true, true, false, false, false, true, true, false,
];

impl Opcode {
    /// The entry of the table for the encoding `opcode`.
    pub open spec fn of(opcode: u8) -> Opcode {
        Opcode {
            handler: OPERATIONS[opcode as int],
            addressing: ADDRESSING[opcode as int],
            cycles: CYCLES[opcode as int],
            bytes: BYTES[opcode as int],
        }
    }

    /// Whether the instruction of this entry can run in the entry's addressing
    /// mode and with its cycles: an instruction with an operand in memory has
    /// a mode with an effective address, a shift may also work on the
    /// accumulator, and there is room for the cycles that a page crossing or a
    /// taken branch adds.
    pub open spec fn wf(self) -> bool {
        match self.handler {
            Operation::Ldx | Operation::Lda | Operation::Ldy | Operation::Adc | Operation::Sbc
            | Operation::And | Operation::Ora | Operation::Eor | Operation::Cmp
            | Operation::Cpx | Operation::Cpy | Operation::Bit | Operation::Lax
            | Operation::Ign | Operation::Alr | Operation::Anc | Operation::Arr
            | Operation::Axs | Operation::Skb => {
                addressable(self.addressing) && (page_sensitive(self.addressing) ==> self.cycles < u8::MAX)
            },
            Operation::Sta | Operation::Stx | Operation::Sty | Operation::Sax | Operation::Dec
            | Operation::Inc | Operation::Dcp | Operation::Isc | Operation::Jmp => {
                addressable(self.addressing)
            },
            Operation::Lsr | Operation::Asl | Operation::Ror | Operation::Rol | Operation::Slo
            | Operation::Rla | Operation::Sre | Operation::Rra => {
                self.addressing == ACCUMULATOR || addressable(self.addressing)
            },
            Operation::Beq | Operation::Bne | Operation::Bpl | Operation::Bcs | Operation::Bcc
            | Operation::Bvs | Operation::Bvc | Operation::Bmi => self.cycles <= u8::MAX - 2,
            _ => true,
        }
    }

    /// The machine after the instruction of this entry ran on `m`, whose
    /// program counter is past the opcode, and the cycles that it took.
    #[verifier::opaque]
    pub open spec fn ran<P>(self, m: Nes<P>) -> (Nes<P>, u8) {
        let mode = self.addressing;
        let cycles = self.cycles;
        match self.handler {
            Operation::Ldx => (ldx_effect(m, mode), with_penalty(cycles, m.operand(mode).crossed)),
            Operation::Lda => (lda_effect(m, mode), with_penalty(cycles, m.operand(mode).crossed)),
            Operation::Ldy => (ldy_effect(m, mode), with_penalty(cycles, m.operand(mode).crossed)),
            Operation::Sta => (sta_effect(m, mode), cycles),
            Operation::Stx => (stx_effect(m, mode), cycles),
            Operation::Sty => (sty_effect(m, mode), cycles),
            Operation::Php => (php_effect(m), cycles),
            Operation::Plp => (plp_effect(m), cycles),
            Operation::Pla => (pla_effect(m), cycles),
            Operation::Pha => (pha_effect(m), cycles),
            Operation::Tsx => (m.with_regs(tsx_effect(m.regs())), cycles),
            Operation::Txs => (m.with_regs(txs_effect(m.regs())), cycles),
            Operation::Tax => (m.with_regs(tax_effect(m.regs())), cycles),
            Operation::Txa => (m.with_regs(txa_effect(m.regs())), cycles),
            Operation::Tay => (m.with_regs(tay_effect(m.regs())), cycles),
            Operation::Tya => (m.with_regs(tya_effect(m.regs())), cycles),
            Operation::Inx => (m.with_regs(inx_effect(m.regs())), cycles),
            Operation::Iny => (m.with_regs(iny_effect(m.regs())), cycles),
            Operation::Dex => (m.with_regs(dex_effect(m.regs())), cycles),
            Operation::Dey => (m.with_regs(dey_effect(m.regs())), cycles),
            Operation::Clc => (m.with_regs(clc_effect(m.regs())), cycles),
            Operation::Sec => (m.with_regs(sec_effect(m.regs())), cycles),
            Operation::Sed => (m.with_regs(sed_effect(m.regs())), cycles),
            Operation::Cld => (m.with_regs(cld_effect(m.regs())), cycles),
            Operation::Clv => (m.with_regs(clv_effect(m.regs())), cycles),
            Operation::Brk => (halt_effect(m), cycles),
            Operation::Nop => (m, cycles),
            Operation::Sei => (m.with_regs(sei_effect(m.regs())), cycles),
            Operation::Cli => (m.with_regs(cli_effect(m.regs())), cycles),
            Operation::Rti => (rti_effect(m), cycles),
            Operation::Adc => (adc_effect(m, mode), with_penalty(cycles, m.operand(mode).crossed)),
            Operation::Sbc => (sbc_effect(m, mode), with_penalty(cycles, m.operand(mode).crossed)),
            Operation::And => (and_effect(m, mode), with_penalty(cycles, m.operand(mode).crossed)),
            Operation::Lsr => (lsr_effect(m, mode), cycles),
            Operation::Dec => (dec_effect(m, mode), cycles),
            Operation::Inc => (inc_effect(m, mode), cycles),
            Operation::Ora => (ora_effect(m, mode), with_penalty(cycles, m.operand(mode).crossed)),
            Operation::Eor => (eor_effect(m, mode), with_penalty(cycles, m.operand(mode).crossed)),
            Operation::Asl => (asl_effect(m, mode), cycles),
            Operation::Ror => (ror_effect(m, mode), cycles),
            Operation::Rol => (rol_effect(m, mode), cycles),
            Operation::Cmp => (compare_effect(m, mode), with_penalty(cycles, m.operand(mode).crossed)),
            Operation::Cpx => (cpx_effect(m, mode), with_penalty(cycles, m.operand(mode).crossed)),
            Operation::Cpy => (cpy_effect(m, mode), with_penalty(cycles, m.operand(mode).crossed)),
            Operation::Bit => (bit_effect(m, mode), with_penalty(cycles, m.operand(mode).crossed)),
            Operation::Jsr => (jsr_effect(m), cycles),
            Operation::Jmp => (jmp_effect(m, mode), cycles),
            Operation::Rts => (rts_effect(m), cycles),
            Operation::Beq => branched(m, m.regs().zero(), cycles),
            Operation::Bne => branched(m, !m.regs().zero(), cycles),
            Operation::Bpl => branched(m, !m.regs().negative(), cycles),
            Operation::Bcs => branched(m, m.regs().carry(), cycles),
            Operation::Bcc => branched(m, !m.regs().carry(), cycles),
            Operation::Bvs => branched(m, m.regs().overflow(), cycles),
            Operation::Bvc => branched(m, !m.regs().overflow(), cycles),
            Operation::Bmi => branched(m, m.regs().negative(), cycles),
            Operation::Ign => (skip_effect(m, mode), with_penalty(cycles, m.resolved(mode).crossed)),
            Operation::Lax => (lax_effect(m, mode), with_penalty(cycles, m.operand(mode).crossed)),
            Operation::Sax => (sax_effect(m, mode), cycles),
            Operation::Dcp => (dcp_effect(m, mode), cycles),
            Operation::Isc => (isc_effect(m, mode), cycles),
            Operation::Slo => (slo_effect(m, mode), cycles),
            Operation::Rla => (rla_effect(m, mode), cycles),
            Operation::Sre => (sre_effect(m, mode), cycles),
            Operation::Rra => (rra_effect(m, mode), cycles),
            Operation::Halt => (halt_effect(m), cycles),
            Operation::Alr => (skip_effect(m, mode), with_penalty(cycles, m.resolved(mode).crossed)),
            Operation::Anc => (skip_effect(m, mode), with_penalty(cycles, m.resolved(mode).crossed)),
            Operation::Arr => (skip_effect(m, mode), with_penalty(cycles, m.resolved(mode).crossed)),
            Operation::Axs => (skip_effect(m, mode), with_penalty(cycles, m.resolved(mode).crossed)),
            Operation::Skb => (skip_effect(m, mode), with_penalty(cycles, m.resolved(mode).crossed)),
            Operation::Placeholder => (halt_effect(m), cycles),
        }
    }

    /// Runs the instruction of this entry on a machine whose program counter
    /// is past the opcode, and gives the cycles that it took.
    pub fn run<P>(&self, nes: &mut Nes<P>) -> (spent: u8)
        requires
            self.wf(),
        ensures
            (*final(nes), spent) == self.ran(*old(nes)),
            same_fittings(*old(nes), *final(nes)),
    {
        reveal(Opcode::ran);
        match self.handler {
            Operation::Ldx => ldx(nes, self.addressing, self.cycles, self.bytes),
            Operation::Lda => lda(nes, self.addressing, self.cycles, self.bytes),
            Operation::Ldy => ldy(nes, self.addressing, self.cycles, self.bytes),
            Operation::Sta => sta(nes, self.addressing, self.cycles, self.bytes),
            Operation::Stx => stx(nes, self.addressing, self.cycles, self.bytes),
            Operation::Sty => sty(nes, self.addressing, self.cycles, self.bytes),
            Operation::Php => php(nes, self.addressing, self.cycles, self.bytes),
            Operation::Plp => plp(nes, self.addressing, self.cycles, self.bytes),
            Operation::Pla => pla(nes, self.addressing, self.cycles, self.bytes),
            Operation::Pha => pha(nes, self.addressing, self.cycles, self.bytes),
            Operation::Tsx => tsx(nes, self.addressing, self.cycles, self.bytes),
            Operation::Txs => txs(nes, self.addressing, self.cycles, self.bytes),
            Operation::Tax => tax(nes, self.addressing, self.cycles, self.bytes),
            Operation::Txa => txa(nes, self.addressing, self.cycles, self.bytes),
            Operation::Tay => tay(nes, self.addressing, self.cycles, self.bytes),
            Operation::Tya => tya(nes, self.addressing, self.cycles, self.bytes),
            Operation::Inx => inx(nes, self.addressing, self.cycles, self.bytes),
            Operation::Iny => iny(nes, self.addressing, self.cycles, self.bytes),
            Operation::Dex => dex(nes, self.addressing, self.cycles, self.bytes),
            Operation::Dey => dey(nes, self.addressing, self.cycles, self.bytes),
            Operation::Clc => clc(nes, self.addressing, self.cycles, self.bytes),
            Operation::Sec => sec(nes, self.addressing, self.cycles, self.bytes),
            Operation::Sed => sed(nes, self.addressing, self.cycles, self.bytes),
            Operation::Cld => cld(nes, self.addressing, self.cycles, self.bytes),
            Operation::Clv => clv(nes, self.addressing, self.cycles, self.bytes),
            Operation::Brk => brk(nes, self.addressing, self.cycles, self.bytes),
            Operation::Nop => nop(nes, self.addressing, self.cycles, self.bytes),
            Operation::Sei => sei(nes, self.addressing, self.cycles, self.bytes),
            Operation::Cli => cli(nes, self.addressing, self.cycles, self.bytes),
            Operation::Rti => rti(nes, self.addressing, self.cycles, self.bytes),
            Operation::Adc => adc(nes, self.addressing, self.cycles, self.bytes),
            Operation::Sbc => sbc(nes, self.addressing, self.cycles, self.bytes),
            Operation::And => and(nes, self.addressing, self.cycles, self.bytes),
            Operation::Lsr => lsr(nes, self.addressing, self.cycles, self.bytes),
            Operation::Dec => dec(nes, self.addressing, self.cycles, self.bytes),
            Operation::Inc => inc(nes, self.addressing, self.cycles, self.bytes),
            Operation::Ora => ora(nes, self.addressing, self.cycles, self.bytes),
            Operation::Eor => eor(nes, self.addressing, self.cycles, self.bytes),
            Operation::Asl => asl(nes, self.addressing, self.cycles, self.bytes),
            Operation::Ror => ror(nes, self.addressing, self.cycles, self.bytes),
            Operation::Rol => rol(nes, self.addressing, self.cycles, self.bytes),
            Operation::Cmp => cmp(nes, self.addressing, self.cycles, self.bytes),
            Operation::Cpx => cpx(nes, self.addressing, self.cycles, self.bytes),
            Operation::Cpy => cpy(nes, self.addressing, self.cycles, self.bytes),
            Operation::Bit => bit(nes, self.addressing, self.cycles, self.bytes),
            Operation::Jsr => jsr(nes, self.addressing, self.cycles, self.bytes),
            Operation::Jmp => jmp(nes, self.addressing, self.cycles, self.bytes),
            Operation::Rts => rts(nes, self.addressing, self.cycles, self.bytes),
            Operation::Beq => beq(nes, self.addressing, self.cycles, self.bytes),
            Operation::Bne => bne(nes, self.addressing, self.cycles, self.bytes),
            Operation::Bpl => bpl(nes, self.addressing, self.cycles, self.bytes),
            Operation::Bcs => bcs(nes, self.addressing, self.cycles, self.bytes),
            Operation::Bcc => bcc(nes, self.addressing, self.cycles, self.bytes),
            Operation::Bvs => bvs(nes, self.addressing, self.cycles, self.bytes),
            Operation::Bvc => bvc(nes, self.addressing, self.cycles, self.bytes),
            Operation::Bmi => bmi(nes, self.addressing, self.cycles, self.bytes),
            Operation::Ign => ign(nes, self.addressing, self.cycles, self.bytes),
            Operation::Lax => lax(nes, self.addressing, self.cycles, self.bytes),
            Operation::Sax => sax(nes, self.addressing, self.cycles, self.bytes),
            Operation::Dcp => dcp(nes, self.addressing, self.cycles, self.bytes),
            Operation::Isc => isc(nes, self.addressing, self.cycles, self.bytes),
            Operation::Slo => slo(nes, self.addressing, self.cycles, self.bytes),
            Operation::Rla => rla(nes, self.addressing, self.cycles, self.bytes),
            Operation::Sre => sre(nes, self.addressing, self.cycles, self.bytes),
            Operation::Rra => rra(nes, self.addressing, self.cycles, self.bytes),
            Operation::Halt => halt(nes, self.addressing, self.cycles, self.bytes),
            Operation::Alr => alr(nes, self.addressing, self.cycles, self.bytes),
            Operation::Anc => anc(nes, self.addressing, self.cycles, self.bytes),
            Operation::Arr => arr(nes, self.addressing, self.cycles, self.bytes),
            Operation::Axs => axs(nes, self.addressing, self.cycles, self.bytes),
            Operation::Skb => skb(nes, self.addressing, self.cycles, self.bytes),
            Operation::Placeholder => placeholder(nes, self.addressing, self.cycles, self.bytes),
        }
    }
}

/// Every encoding has an entry, and the instruction of every entry can run.
/// Every entry has one of the thirteen addressing modes and a length of one
/// to three bytes.
pub proof fn law_table_total()
    ensures
        forall|opcode: u8| #[trigger] Opcode::of(opcode).wf(),
        forall|opcode: u8| #[trigger] Opcode::of(opcode).addressing <= 12,
        forall|opcode: u8| 1 <= #[trigger] Opcode::of(opcode).bytes <= 3,
{
}

/// The entry of the table for an encoding.
pub fn opcode_entry(opcode: u8) -> (entry: Opcode)
    ensures
        entry == Opcode::of(opcode),
        entry.wf(),
{
    let index = opcode as usize;
    Opcode {
        handler: OPERATIONS[index],
        addressing: ADDRESSING[index],
        cycles: CYCLES[index],
        bytes: BYTES[index],
    }
}

/// Whether an encoding is one of the documented ones.
pub fn documented(opcode: u8) -> (known: bool)
    ensures
        known == DOCUMENTED[opcode as int],
{
    DOCUMENTED[opcode as usize]
}

/// The whole table: one entry for each of the 256 encodings, in their order.
pub fn opcode_jumptable() -> (table: [Opcode; 256])
    ensures
        forall|opcode: u8| #[trigger] table[opcode as int] == Opcode::of(opcode),
{
    let mut table = [opcode_entry(0);256];
    let mut opcode: u8 = 0;
    while opcode < u8::MAX
        invariant
            forall|earlier: u8| earlier < opcode ==> #[trigger] table[earlier as int] == Opcode::of(
                earlier,
            ),
        decreases u8::MAX - opcode,
    {
        table[opcode as usize] = opcode_entry(opcode);
        opcode += 1;
    }
    table[u8::MAX as usize] = opcode_entry(u8::MAX);
    table
}

} // verus!
