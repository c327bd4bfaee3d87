//! The names of the instructions, as traces write them.

use vstd::prelude::*;
use crate::jumptable::DOCUMENTED;
use crate::jumptable::Operation;
use crate::jumptable::OPERATIONS;

verus! {

/// The name of a documented instruction: its three letters.
pub open spec fn documented_name(operation: Operation) -> Seq<char> {
    match operation {
        Operation::Ldx => "LDX"@,
        Operation::Lda => "LDA"@,
        Operation::Ldy => "LDY"@,
        Operation::Sta => "STA"@,
        Operation::Stx => "STX"@,
        Operation::Sty => "STY"@,
        Operation::Php => "PHP"@,
        Operation::Plp => "PLP"@,
        Operation::Pla => "PLA"@,
        Operation::Pha => "PHA"@,
        Operation::Tsx => "TSX"@,
        Operation::Txs => "TXS"@,
        Operation::Tax => "TAX"@,
        Operation::Txa => "TXA"@,
        Operation::Tay => "TAY"@,
        Operation::Tya => "TYA"@,
        Operation::Inx => "INX"@,
        Operation::Iny => "INY"@,
        Operation::Dex => "DEX"@,
        Operation::Dey => "DEY"@,
        Operation::Clc => "CLC"@,
        Operation::Sec => "SEC"@,
        Operation::Sed => "SED"@,
        Operation::Cld => "CLD"@,
        Operation::Clv => "CLV"@,
        Operation::Brk => "BRK"@,
        Operation::Nop => "NOP"@,
        Operation::Sei => "SEI"@,
        Operation::Cli => "CLI"@,
        Operation::Rti => "RTI"@,
        Operation::Adc => "ADC"@,
        Operation::Sbc => "SBC"@,
        Operation::And => "AND"@,
        Operation::Lsr => "LSR"@,
        Operation::Dec => "DEC"@,
        Operation::Inc => "INC"@,
        Operation::Ora => "ORA"@,
        Operation::Eor => "EOR"@,
        Operation::Asl => "ASL"@,
        Operation::Ror => "ROR"@,
        Operation::Rol => "ROL"@,
        Operation::Cmp => "CMP"@,
        Operation::Cpx => "CPX"@,
        Operation::Cpy => "CPY"@,
        Operation::Bit => "BIT"@,
        Operation::Jsr => "JSR"@,
        Operation::Jmp => "JMP"@,
        Operation::Rts => "RTS"@,
        Operation::Beq => "BEQ"@,
        Operation::Bne => "BNE"@,
        Operation::Bpl => "BPL"@,
        Operation::Bcs => "BCS"@,
        Operation::Bcc => "BCC"@,
        Operation::Bvs => "BVS"@,
        Operation::Bvc => "BVC"@,
        Operation::Bmi => "BMI"@,
        _ => "???"@,
    }
}

/// The name of an undocumented instruction, as reference traces write it: an
/// asterisk and three letters. The instructions that only take an operand are
/// NOPs, ISC is written ISB, and an encoding that stands for no instruction is
/// written XXX.
pub open spec fn undocumented_name(operation: Operation) -> Seq<char> {
    match operation {
        Operation::Nop => "*NOP"@,
        Operation::Sbc => "*SBC"@,
        Operation::Ign => "*NOP"@,
        Operation::Lax => "*LAX"@,
        Operation::Sax => "*SAX"@,
        Operation::Dcp => "*DCP"@,
        Operation::Isc => "*ISB"@,
        Operation::Slo => "*SLO"@,
        Operation::Rla => "*RLA"@,
        Operation::Sre => "*SRE"@,
        Operation::Rra => "*RRA"@,
        Operation::Halt => "*HLT"@,
        Operation::Alr => "*ALR"@,
        Operation::Anc => "*ANC"@,
        Operation::Arr => "*ARR"@,
        Operation::Axs => "*AXS"@,
        Operation::Skb => "*NOP"@,
        Operation::Placeholder => "*XXX"@,
        _ => "*XXX"@,
    }
}

/// The name of the instruction that the encoding `opcode` stands for.
pub open spec fn name_of(opcode: u8) -> Seq<char> {
    if DOCUMENTED[opcode as int] {
        documented_name(OPERATIONS[opcode as int])
    } else {
        undocumented_name(OPERATIONS[opcode as int])
    }
}

/// The name of the instruction that the encoding `opcode` stands for.
pub fn opcode_name(opcode: u8) -> (name: &'static str)
    ensures
        name@ == name_of(opcode),
{
    let operation = OPERATIONS[opcode as usize];
    if DOCUMENTED[opcode as usize] {
        match operation {
            Operation::Ldx => "LDX",
            Operation::Lda => "LDA",
            Operation::Ldy => "LDY",
            Operation::Sta => "STA",
            Operation::Stx => "STX",
            Operation::Sty => "STY",
            Operation::Php => "PHP",
            Operation::Plp => "PLP",
            Operation::Pla => "PLA",
            Operation::Pha => "PHA",
            Operation::Tsx => "TSX",
            Operation::Txs => "TXS",
            Operation::Tax => "TAX",
            Operation::Txa => "TXA",
            Operation::Tay => "TAY",
            Operation::Tya => "TYA",
            Operation::Inx => "INX",
            Operation::Iny => "INY",
            Operation::Dex => "DEX",
            Operation::Dey => "DEY",
            Operation::Clc => "CLC",
            Operation::Sec => "SEC",
            Operation::Sed => "SED",
            Operation::Cld => "CLD",
            Operation::Clv => "CLV",
            Operation::Brk => "BRK",
            Operation::Nop => "NOP",
            Operation::Sei => "SEI",
            Operation::Cli => "CLI",
            Operation::Rti => "RTI",
            Operation::Adc => "ADC",
            Operation::Sbc => "SBC",
            Operation::And => "AND",
            Operation::Lsr => "LSR",
            Operation::Dec => "DEC",
            Operation::Inc => "INC",
            Operation::Ora => "ORA",
            Operation::Eor => "EOR",
            Operation::Asl => "ASL",
            Operation::Ror => "ROR",
            Operation::Rol => "ROL",
            Operation::Cmp => "CMP",
            Operation::Cpx => "CPX",
            Operation::Cpy => "CPY",
            Operation::Bit => "BIT",
            Operation::Jsr => "JSR",
            Operation::Jmp => "JMP",
            Operation::Rts => "RTS",
            Operation::Beq => "BEQ",
            Operation::Bne => "BNE",
            Operation::Bpl => "BPL",
            Operation::Bcs => "BCS",
            Operation::Bcc => "BCC",
            Operation::Bvs => "BVS",
            Operation::Bvc => "BVC",
            Operation::Bmi => "BMI",
            _ => "???",
        }
    } else {
        match operation {
            Operation::Nop => "*NOP",
            Operation::Sbc => "*SBC",
            Operation::Ign => "*NOP",
            Operation::Lax => "*LAX",
            Operation::Sax => "*SAX",
            Operation::Dcp => "*DCP",
            Operation::Isc => "*ISB",
            Operation::Slo => "*SLO",
            Operation::Rla => "*RLA",
            Operation::Sre => "*SRE",
            Operation::Rra => "*RRA",
            Operation::Halt => "*HLT",
            Operation::Alr => "*ALR",
            Operation::Anc => "*ANC",
            Operation::Arr => "*ARR",
            Operation::Axs => "*AXS",
            Operation::Skb => "*NOP",
            Operation::Placeholder => "*XXX",
            _ => "*XXX",
        }
    }
}

/// The name of a documented instruction has three letters, and the name of an
/// undocumented one has an asterisk before its three letters.
pub proof fn law_name_length(opcode: u8)
    ensures
        name_of(opcode).len() == if DOCUMENTED[opcode as int] { 3nat } else { 4nat },
{
    reveal_strlit("LDX");
    reveal_strlit("LDA");
    reveal_strlit("LDY");
    reveal_strlit("STA");
    reveal_strlit("STX");
    reveal_strlit("STY");
    reveal_strlit("PHP");
    reveal_strlit("PLP");
    reveal_strlit("PLA");
    reveal_strlit("PHA");
    reveal_strlit("TSX");
    reveal_strlit("TXS");
    reveal_strlit("TAX");
    reveal_strlit("TXA");
    reveal_strlit("TAY");
    reveal_strlit("TYA");
    reveal_strlit("INX");
    reveal_strlit("INY");
    reveal_strlit("DEX");
    reveal_strlit("DEY");
    reveal_strlit("CLC");
    reveal_strlit("SEC");
    reveal_strlit("SED");
    reveal_strlit("CLD");
    reveal_strlit("CLV");
    reveal_strlit("BRK");
    reveal_strlit("NOP");
    reveal_strlit("SEI");
    reveal_strlit("CLI");
    reveal_strlit("RTI");
    reveal_strlit("ADC");
    reveal_strlit("SBC");
    reveal_strlit("AND");
    reveal_strlit("LSR");
    reveal_strlit("DEC");
    reveal_strlit("INC");
    reveal_strlit("ORA");
    reveal_strlit("EOR");
    reveal_strlit("ASL");
    reveal_strlit("ROR");
    reveal_strlit("ROL");
    reveal_strlit("CMP");
    reveal_strlit("CPX");
    reveal_strlit("CPY");
    reveal_strlit("BIT");
    reveal_strlit("JSR");
    reveal_strlit("JMP");
    reveal_strlit("RTS");
    reveal_strlit("BEQ");
    reveal_strlit("BNE");
    reveal_strlit("BPL");
    reveal_strlit("BCS");
    reveal_strlit("BCC");
    reveal_strlit("BVS");
    reveal_strlit("BVC");
    reveal_strlit("BMI");
    reveal_strlit("???");
    reveal_strlit("*NOP");
    reveal_strlit("*SBC");
    reveal_strlit("*LAX");
    reveal_strlit("*SAX");
    reveal_strlit("*DCP");
    reveal_strlit("*ISB");
    reveal_strlit("*SLO");
    reveal_strlit("*RLA");
    reveal_strlit("*SRE");
    reveal_strlit("*RRA");
    reveal_strlit("*HLT");
    reveal_strlit("*ALR");
    reveal_strlit("*ANC");
    reveal_strlit("*ARR");
    reveal_strlit("*AXS");
    reveal_strlit("*XXX");
}

} // verus!
