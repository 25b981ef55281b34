//! The documented 6502 instruction set: for each mnemonic, the opcode
//! byte of every addressing mode it supports.

use vstd::prelude::*;

use crate::instructions::AddressMode;

verus! {

/// The opcodes of one mnemonic, one optional byte per addressing mode.
/// A `None` field means that form is illegal for the mnemonic.
#[derive(Clone, Copy, PartialEq, Eq, Structural, Debug)]
pub struct OpcodeRow {
    pub implied: Option<u8>,
    pub immediate: Option<u8>,
    pub absolute: Option<u8>,
    pub absolute_x: Option<u8>,
    pub absolute_y: Option<u8>,
    pub zeropage: Option<u8>,
    pub zeropage_x: Option<u8>,
    pub zeropage_y: Option<u8>,
    pub relative: Option<u8>,
    pub indirect: Option<u8>,
    pub indirect_x: Option<u8>,
    pub indirect_y: Option<u8>,
}

/// The opcode byte of `row` for an addressing mode, if the form exists.
pub open spec fn spec_row_get(row: OpcodeRow, mode: AddressMode) -> Option<u8> {
    match mode {
        AddressMode::Implied => row.implied,
        AddressMode::Immediate => row.immediate,
        AddressMode::Absolute => row.absolute,
        AddressMode::AbsoluteX => row.absolute_x,
        AddressMode::AbsoluteY => row.absolute_y,
        AddressMode::Zeropage => row.zeropage,
        AddressMode::ZeropageX => row.zeropage_x,
        AddressMode::ZeropageY => row.zeropage_y,
        AddressMode::Relative => row.relative,
        AddressMode::Indirect => row.indirect,
        AddressMode::IndirectX => row.indirect_x,
        AddressMode::IndirectY => row.indirect_y,
    }
}

/// Selects the opcode byte of `row` for an addressing mode.
pub fn row_get(row: &OpcodeRow, mode: AddressMode) -> (r: Option<u8>)
    ensures
        r == spec_row_get(*row, mode),
{
    match mode {
        AddressMode::Implied => row.implied,
        AddressMode::Immediate => row.immediate,
        AddressMode::Absolute => row.absolute,
        AddressMode::AbsoluteX => row.absolute_x,
        AddressMode::AbsoluteY => row.absolute_y,
        AddressMode::Zeropage => row.zeropage,
        AddressMode::ZeropageX => row.zeropage_x,
        AddressMode::ZeropageY => row.zeropage_y,
        AddressMode::Relative => row.relative,
        AddressMode::Indirect => row.indirect,
        AddressMode::IndirectX => row.indirect_x,
        AddressMode::IndirectY => row.indirect_y,
    }
}

/// The opcode table, keyed by the three lowercase bytes of a mnemonic;
/// `None` for an unknown mnemonic.
pub open spec fn spec_opcode_row(m0: u8, m1: u8, m2: u8) -> Option<OpcodeRow> {
    match (m0, m1, m2) {
        // adc
        (0x61, 0x64, 0x63) => Some(OpcodeRow {
            implied: None,
            immediate: Some(0x69),
            absolute: Some(0x6d),
            absolute_x: Some(0x7d),
            absolute_y: Some(0x79),
            zeropage: Some(0x65),
            zeropage_x: Some(0x75),
            zeropage_y: None,
            relative: None,
            indirect: None,
            indirect_x: Some(0x61),
            indirect_y: Some(0x71),
        }),
        // and
        (0x61, 0x6e, 0x64) => Some(OpcodeRow {
            implied: None,
            immediate: Some(0x29),
            absolute: Some(0x2d),
            absolute_x: Some(0x3d),
            absolute_y: Some(0x39),
            zeropage: Some(0x25),
            zeropage_x: Some(0x35),
            zeropage_y: None,
            relative: None,
            indirect: None,
            indirect_x: Some(0x21),
            indirect_y: Some(0x31),
        }),
        // asl
        (0x61, 0x73, 0x6c) => Some(OpcodeRow {
            implied: Some(0x0a),
            immediate: None,
            absolute: Some(0x0e),
            absolute_x: Some(0x1e),
            absolute_y: None,
            zeropage: Some(0x06),
            zeropage_x: Some(0x16),
            zeropage_y: None,
            relative: None,
            indirect: None,
            indirect_x: None,
            indirect_y: None,
        }),
        // bcc
        (0x62, 0x63, 0x63) => Some(OpcodeRow {
            implied: None,
            immediate: None,
            absolute: None,
            absolute_x: None,
            absolute_y: None,
            zeropage: None,
            zeropage_x: None,
            zeropage_y: None,
            relative: Some(0x90),
            indirect: None,
            indirect_x: None,
            indirect_y: None,
        }),
        // bcs
        (0x62, 0x63, 0x73) => Some(OpcodeRow {
            implied: None,
            immediate: None,
            absolute: None,
            absolute_x: None,
            absolute_y: None,
            zeropage: None,
            zeropage_x: None,
            zeropage_y: None,
            relative: Some(0xb0),
            indirect: None,
            indirect_x: None,
            indirect_y: None,
        }),
        // beq
        (0x62, 0x65, 0x71) => Some(OpcodeRow {
            implied: None,
            immediate: None,
            absolute: None,
            absolute_x: None,
            absolute_y: None,
            zeropage: None,
            zeropage_x: None,
            zeropage_y: None,
            relative: Some(0xf0),
            indirect: None,
            indirect_x: None,
            indirect_y: None,
        }),
        // bit
        (0x62, 0x69, 0x74) => Some(OpcodeRow {
            implied: None,
            immediate: None,
            absolute: Some(0x2c),
            absolute_x: None,
            absolute_y: None,
            zeropage: Some(0x24),
            zeropage_x: None,
            zeropage_y: None,
            relative: None,
            indirect: None,
            indirect_x: None,
            indirect_y: None,
        }),
        // bmi
        (0x62, 0x6d, 0x69) => Some(OpcodeRow {
            implied: None,
            immediate: None,
            absolute: None,
            absolute_x: None,
            absolute_y: None,
            zeropage: None,
            zeropage_x: None,
            zeropage_y: None,
            relative: Some(0x30),
            indirect: None,
            indirect_x: None,
            indirect_y: None,
        }),
        // bne
        (0x62, 0x6e, 0x65) => Some(OpcodeRow {
            implied: None,
            immediate: None,
            absolute: None,
            absolute_x: None,
            absolute_y: None,
            zeropage: None,
            zeropage_x: None,
            zeropage_y: None,
            relative: Some(0xd0),
            indirect: None,
            indirect_x: None,
            indirect_y: None,
        }),
        // bpl
        (0x62, 0x70, 0x6c) => Some(OpcodeRow {
            implied: None,
            immediate: None,
            absolute: None,
            absolute_x: None,
            absolute_y: None,
            zeropage: None,
            zeropage_x: None,
            zeropage_y: None,
            relative: Some(0x10),
            indirect: None,
            indirect_x: None,
            indirect_y: None,
        }),
        // brk
        (0x62, 0x72, 0x6b) => Some(OpcodeRow {
            implied: Some(0x00),
            immediate: None,
            absolute: None,
            absolute_x: None,
            absolute_y: None,
            zeropage: None,
            zeropage_x: None,
            zeropage_y: None,
            relative: None,
            indirect: None,
            indirect_x: None,
            indirect_y: None,
        }),
        // bvc
        (0x62, 0x76, 0x63) => Some(OpcodeRow {
            implied: None,
            immediate: None,
            absolute: None,
            absolute_x: None,
            absolute_y: None,
            zeropage: None,
            zeropage_x: None,
            zeropage_y: None,
            relative: Some(0x50),
            indirect: None,
            indirect_x: None,
            indirect_y: None,
        }),
        // bvs
        (0x62, 0x76, 0x73) => Some(OpcodeRow {
            implied: None,
            immediate: None,
            absolute: None,
            absolute_x: None,
            absolute_y: None,
            zeropage: None,
            zeropage_x: None,
            zeropage_y: None,
            relative: Some(0x70),
            indirect: None,
            indirect_x: None,
            indirect_y: None,
        }),
        // clc
        (0x63, 0x6c, 0x63) => Some(OpcodeRow {
            implied: Some(0x18),
            immediate: None,
            absolute: None,
            absolute_x: None,
            absolute_y: None,
            zeropage: None,
            zeropage_x: None,
            zeropage_y: None,
            relative: None,
            indirect: None,
            indirect_x: None,
            indirect_y: None,
        }),
        // cld
        (0x63, 0x6c, 0x64) => Some(OpcodeRow {
            implied: Some(0xd8),
            immediate: None,
            absolute: None,
            absolute_x: None,
            absolute_y: None,
            zeropage: None,
            zeropage_x: None,
            zeropage_y: None,
            relative: None,
            indirect: None,
            indirect_x: None,
            indirect_y: None,
        }),
        // cli
        (0x63, 0x6c, 0x69) => Some(OpcodeRow {
            implied: Some(0x58),
            immediate: None,
            absolute: None,
            absolute_x: None,
            absolute_y: None,
            zeropage: None,
            zeropage_x: None,
            zeropage_y: None,
            relative: None,
            indirect: None,
            indirect_x: None,
            indirect_y: None,
        }),
        // clv
        (0x63, 0x6c, 0x76) => Some(OpcodeRow {
            implied: Some(0xb8),
            immediate: None,
            absolute: None,
            absolute_x: None,
            absolute_y: None,
            zeropage: None,
            zeropage_x: None,
            zeropage_y: None,
            relative: None,
            indirect: None,
            indirect_x: None,
            indirect_y: None,
        }),
        // cmp
        (0x63, 0x6d, 0x70) => Some(OpcodeRow {
            implied: None,
            immediate: Some(0xc9),
            absolute: Some(0xcd),
            absolute_x: Some(0xdd),
            absolute_y: Some(0xd9),
            zeropage: Some(0xc5),
            zeropage_x: Some(0xd5),
            zeropage_y: None,
            relative: None,
            indirect: None,
            indirect_x: Some(0xc1),
            indirect_y: Some(0xd1),
        }),
        // cpx
        (0x63, 0x70, 0x78) => Some(OpcodeRow {
            implied: None,
            immediate: Some(0xe0),
            absolute: Some(0xec),
            absolute_x: None,
            absolute_y: None,
            zeropage: Some(0xe4),
            zeropage_x: None,
            zeropage_y: None,
            relative: None,
            indirect: None,
            indirect_x: None,
            indirect_y: None,
        }),
        // cpy
        (0x63, 0x70, 0x79) => Some(OpcodeRow {
            implied: None,
            immediate: Some(0xc0),
            absolute: Some(0xcc),
            absolute_x: None,
            absolute_y: None,
            zeropage: Some(0xc4),
            zeropage_x: None,
            zeropage_y: None,
            relative: None,
            indirect: None,
            indirect_x: None,
            indirect_y: None,
        }),
        // dec
        (0x64, 0x65, 0x63) => Some(OpcodeRow {
            implied: None,
            immediate: None,
            absolute: Some(0xce),
            absolute_x: Some(0xde),
            absolute_y: None,
            zeropage: Some(0xc6),
            zeropage_x: Some(0xd6),
            zeropage_y: None,
            relative: None,
            indirect: None,
            indirect_x: None,
            indirect_y: None,
        }),
        // dex
        (0x64, 0x65, 0x78) => Some(OpcodeRow {
            implied: Some(0xca),
            immediate: None,
            absolute: None,
            absolute_x: None,
            absolute_y: None,
            zeropage: None,
            zeropage_x: None,
            zeropage_y: None,
            relative: None,
            indirect: None,
            indirect_x: None,
            indirect_y: None,
        }),
        // dey
        (0x64, 0x65, 0x79) => Some(OpcodeRow {
            implied: Some(0x88),
            immediate: None,
            absolute: None,
            absolute_x: None,
            absolute_y: None,
            zeropage: None,
            zeropage_x: None,
            zeropage_y: None,
            relative: None,
            indirect: None,
            indirect_x: None,
            indirect_y: None,
        }),
        // eor
        (0x65, 0x6f, 0x72) => Some(OpcodeRow {
            implied: None,
            immediate: Some(0x49),
            absolute: Some(0x4d),
            absolute_x: Some(0x5d),
            absolute_y: Some(0x59),
            zeropage: Some(0x45),
            zeropage_x: Some(0x55),
            zeropage_y: None,
            relative: None,
            indirect: None,
            indirect_x: Some(0x41),
            indirect_y: Some(0x51),
        }),
        // inc
        (0x69, 0x6e, 0x63) => Some(OpcodeRow {
            implied: None,
            immediate: None,
            absolute: Some(0xee),
            absolute_x: Some(0xfe),
            absolute_y: None,
            zeropage: Some(0xe6),
            zeropage_x: Some(0xf6),
            zeropage_y: None,
            relative: None,
            indirect: None,
            indirect_x: None,
            indirect_y: None,
        }),
        // inx
        (0x69, 0x6e, 0x78) => Some(OpcodeRow {
            implied: Some(0xe8),
            immediate: None,
            absolute: None,
            absolute_x: None,
            absolute_y: None,
            zeropage: None,
            zeropage_x: None,
            zeropage_y: None,
            relative: None,
            indirect: None,
            indirect_x: None,
            indirect_y: None,
        }),
        // iny
        (0x69, 0x6e, 0x79) => Some(OpcodeRow {
            implied: Some(0xc8),
            immediate: None,
            absolute: None,
            absolute_x: None,
            absolute_y: None,
            zeropage: None,
            zeropage_x: None,
            zeropage_y: None,
            relative: None,
            indirect: None,
            indirect_x: None,
            indirect_y: None,
        }),
        // jmp
        (0x6a, 0x6d, 0x70) => Some(OpcodeRow {
            implied: None,
            immediate: None,
            absolute: Some(0x4c),
            absolute_x: None,
            absolute_y: None,
            zeropage: None,
            zeropage_x: None,
            zeropage_y: None,
            relative: None,
            indirect: Some(0x6c),
            indirect_x: None,
            indirect_y: None,
        }),
        // jsr
        (0x6a, 0x73, 0x72) => Some(OpcodeRow {
            implied: None,
            immediate: None,
            absolute: Some(0x20),
            absolute_x: None,
            absolute_y: None,
            zeropage: None,
            zeropage_x: None,
            zeropage_y: None,
            relative: None,
            indirect: None,
            indirect_x: None,
            indirect_y: None,
        }),
        // lda
        (0x6c, 0x64, 0x61) => Some(OpcodeRow {
            implied: None,
            immediate: Some(0xa9),
            absolute: Some(0xad),
            absolute_x: Some(0xbd),
            absolute_y: Some(0xb9),
            zeropage: Some(0xa5),
            zeropage_x: Some(0xb5),
            zeropage_y: None,
            relative: None,
            indirect: None,
            indirect_x: Some(0xa1),
            indirect_y: Some(0xb1),
        }),
        // ldx
        (0x6c, 0x64, 0x78) => Some(OpcodeRow {
            implied: None,
            immediate: Some(0xa2),
            absolute: Some(0xae),
            absolute_x: None,
            absolute_y: Some(0xbe),
            zeropage: Some(0xa6),
            zeropage_x: None,
            zeropage_y: Some(0xb6),
            relative: None,
            indirect: None,
            indirect_x: None,
            indirect_y: None,
        }),
        // ldy
        (0x6c, 0x64, 0x79) => Some(OpcodeRow {
            implied: None,
            immediate: Some(0xa0),
            absolute: Some(0xac),
            absolute_x: Some(0xbc),
            absolute_y: None,
            zeropage: Some(0xa4),
            zeropage_x: Some(0xb4),
            zeropage_y: None,
            relative: None,
            indirect: None,
            indirect_x: None,
            indirect_y: None,
        }),
        // lsr
        (0x6c, 0x73, 0x72) => Some(OpcodeRow {
            implied: Some(0x4a),
            immediate: None,
            absolute: Some(0x4e),
            absolute_x: Some(0x5e),
            absolute_y: None,
            zeropage: Some(0x46),
            zeropage_x: Some(0x56),
            zeropage_y: None,
            relative: None,
            indirect: None,
            indirect_x: None,
            indirect_y: None,
        }),
        // nop
        (0x6e, 0x6f, 0x70) => Some(OpcodeRow {
            implied: Some(0xea),
            immediate: None,
            absolute: None,
            absolute_x: None,
            absolute_y: None,
            zeropage: None,
            zeropage_x: None,
            zeropage_y: None,
            relative: None,
            indirect: None,
            indirect_x: None,
            indirect_y: None,
        }),
        // ora
        (0x6f, 0x72, 0x61) => Some(OpcodeRow {
            implied: None,
            immediate: Some(0x09),
            absolute: Some(0x0d),
            absolute_x: Some(0x1d),
            absolute_y: Some(0x19),
            zeropage: Some(0x05),
            zeropage_x: Some(0x15),
            zeropage_y: None,
            relative: None,
            indirect: None,
            indirect_x: Some(0x01),
            indirect_y: Some(0x11),
        }),
        // pha
        (0x70, 0x68, 0x61) => Some(OpcodeRow {
            implied: Some(0x48),
            immediate: None,
            absolute: None,
            absolute_x: None,
            absolute_y: None,
            zeropage: None,
            zeropage_x: None,
            zeropage_y: None,
            relative: None,
            indirect: None,
            indirect_x: None,
            indirect_y: None,
        }),
        // php
        (0x70, 0x68, 0x70) => Some(OpcodeRow {
            implied: Some(0x08),
            immediate: None,
            absolute: None,
            absolute_x: None,
            absolute_y: None,
            zeropage: None,
            zeropage_x: None,
            zeropage_y: None,
            relative: None,
            indirect: None,
            indirect_x: None,
            indirect_y: None,
        }),
        // pla
        (0x70, 0x6c, 0x61) => Some(OpcodeRow {
            implied: Some(0x68),
            immediate: None,
            absolute: None,
            absolute_x: None,
            absolute_y: None,
            zeropage: None,
            zeropage_x: None,
            zeropage_y: None,
            relative: None,
            indirect: None,
            indirect_x: None,
            indirect_y: None,
        }),
        // plp
        (0x70, 0x6c, 0x70) => Some(OpcodeRow {
            implied: Some(0x28),
            immediate: None,
            absolute: None,
            absolute_x: None,
            absolute_y: None,
            zeropage: None,
            zeropage_x: None,
            zeropage_y: None,
            relative: None,
            indirect: None,
            indirect_x: None,
            indirect_y: None,
        }),
        // rol
        (0x72, 0x6f, 0x6c) => Some(OpcodeRow {
            implied: Some(0x2a),
            immediate: None,
            absolute: Some(0x2e),
            absolute_x: Some(0x3e),
            absolute_y: None,
            zeropage: Some(0x26),
            zeropage_x: Some(0x36),
            zeropage_y: None,
            relative: None,
            indirect: None,
            indirect_x: None,
            indirect_y: None,
        }),
        // ror
        (0x72, 0x6f, 0x72) => Some(OpcodeRow {
            implied: Some(0x6a),
            immediate: None,
            absolute: Some(0x6e),
            absolute_x: Some(0x7e),
            absolute_y: None,
            zeropage: Some(0x66),
            zeropage_x: Some(0x76),
            zeropage_y: None,
            relative: None,
            indirect: None,
            indirect_x: None,
            indirect_y: None,
        }),
        // rti
        (0x72, 0x74, 0x69) => Some(OpcodeRow {
            implied: Some(0x40),
            immediate: None,
            absolute: None,
            absolute_x: None,
            absolute_y: None,
            zeropage: None,
            zeropage_x: None,
            zeropage_y: None,
            relative: None,
            indirect: None,
            indirect_x: None,
            indirect_y: None,
        }),
        // rts
        (0x72, 0x74, 0x73) => Some(OpcodeRow {
            implied: Some(0x60),
            immediate: None,
            absolute: None,
            absolute_x: None,
            absolute_y: None,
            zeropage: None,
            zeropage_x: None,
            zeropage_y: None,
            relative: None,
            indirect: None,
            indirect_x: None,
            indirect_y: None,
        }),
        // sbc
        (0x73, 0x62, 0x63) => Some(OpcodeRow {
            implied: None,
            immediate: Some(0xe9),
            absolute: Some(0xed),
            absolute_x: Some(0xfd),
            absolute_y: Some(0xf9),
            zeropage: Some(0xe5),
            zeropage_x: Some(0xf5),
            zeropage_y: None,
            relative: None,
            indirect: None,
            indirect_x: Some(0xe1),
            indirect_y: Some(0xf1),
        }),
        // sec
        (0x73, 0x65, 0x63) => Some(OpcodeRow {
            implied: Some(0x38),
            immediate: None,
            absolute: None,
            absolute_x: None,
            absolute_y: None,
            zeropage: None,
            zeropage_x: None,
            zeropage_y: None,
            relative: None,
            indirect: None,
            indirect_x: None,
            indirect_y: None,
        }),
        // sed
        (0x73, 0x65, 0x64) => Some(OpcodeRow {
            implied: Some(0xf8),
            immediate: None,
            absolute: None,
            absolute_x: None,
            absolute_y: None,
            zeropage: None,
            zeropage_x: None,
            zeropage_y: None,
            relative: None,
            indirect: None,
            indirect_x: None,
            indirect_y: None,
        }),
        // sei
        (0x73, 0x65, 0x69) => Some(OpcodeRow {
            implied: Some(0x78),
            immediate: None,
            absolute: None,
            absolute_x: None,
            absolute_y: None,
            zeropage: None,
            zeropage_x: None,
            zeropage_y: None,
            relative: None,
            indirect: None,
            indirect_x: None,
            indirect_y: None,
        }),
        // sta
        (0x73, 0x74, 0x61) => Some(OpcodeRow {
            implied: None,
            immediate: None,
            absolute: Some(0x8d),
            absolute_x: Some(0x9d),
            absolute_y: Some(0x99),
            zeropage: Some(0x85),
            zeropage_x: Some(0x95),
            zeropage_y: None,
            relative: None,
            indirect: None,
            indirect_x: Some(0x81),
            indirect_y: Some(0x91),
        }),
        // stx
        (0x73, 0x74, 0x78) => Some(OpcodeRow {
            implied: None,
            immediate: None,
            absolute: Some(0x8e),
            absolute_x: None,
            absolute_y: None,
            zeropage: Some(0x86),
            zeropage_x: None,
            zeropage_y: Some(0x96),
            relative: None,
            indirect: None,
            indirect_x: None,
            indirect_y: None,
        }),
        // sty
        (0x73, 0x74, 0x79) => Some(OpcodeRow {
            implied: None,
            immediate: None,
            absolute: Some(0x8c),
            absolute_x: None,
            absolute_y: None,
            zeropage: Some(0x84),
            zeropage_x: None,
            zeropage_y: Some(0x94),
            relative: None,
            indirect: None,
            indirect_x: None,
            indirect_y: None,
        }),
        // tax
        (0x74, 0x61, 0x78) => Some(OpcodeRow {
            implied: Some(0xaa),
            immediate: None,
            absolute: None,
            absolute_x: None,
            absolute_y: None,
            zeropage: None,
            zeropage_x: None,
            zeropage_y: None,
            relative: None,
            indirect: None,
            indirect_x: None,
            indirect_y: None,
        }),
        // tay
        (0x74, 0x61, 0x79) => Some(OpcodeRow {
            implied: Some(0xa8),
            immediate: None,
            absolute: None,
            absolute_x: None,
            absolute_y: None,
            zeropage: None,
            zeropage_x: None,
            zeropage_y: None,
            relative: None,
            indirect: None,
            indirect_x: None,
            indirect_y: None,
        }),
        // tsx
        (0x74, 0x73, 0x78) => Some(OpcodeRow {
            implied: Some(0xba),
            immediate: None,
            absolute: None,
            absolute_x: None,
            absolute_y: None,
            zeropage: None,
            zeropage_x: None,
            zeropage_y: None,
            relative: None,
            indirect: None,
            indirect_x: None,
            indirect_y: None,
        }),
        // txa
        (0x74, 0x78, 0x61) => Some(OpcodeRow {
            implied: Some(0x8a),
            immediate: None,
            absolute: None,
            absolute_x: None,
            absolute_y: None,
            zeropage: None,
            zeropage_x: None,
            zeropage_y: None,
            relative: None,
            indirect: None,
            indirect_x: None,
            indirect_y: None,
        }),
        // txs
        (0x74, 0x78, 0x73) => Some(OpcodeRow {
            implied: Some(0x9a),
            immediate: None,
            absolute: None,
            absolute_x: None,
            absolute_y: None,
            zeropage: None,
            zeropage_x: None,
            zeropage_y: None,
            relative: None,
            indirect: None,
            indirect_x: None,
            indirect_y: None,
        }),
        // tya
        (0x74, 0x79, 0x61) => Some(OpcodeRow {
            implied: Some(0x98),
            immediate: None,
            absolute: None,
            absolute_x: None,
            absolute_y: None,
            zeropage: None,
            zeropage_x: None,
            zeropage_y: None,
            relative: None,
            indirect: None,
            indirect_x: None,
            indirect_y: None,
        }),
        _ => None,
    }
}

/// Looks a mnemonic up in the opcode table.
pub fn opcode_row(m0: u8, m1: u8, m2: u8) -> (r: Option<OpcodeRow>)
    ensures
        r == spec_opcode_row(m0, m1, m2),
{
    match (m0, m1, m2) {
        // adc
        (0x61, 0x64, 0x63) => Some(OpcodeRow {
            implied: None,
            immediate: Some(0x69),
            absolute: Some(0x6d),
            absolute_x: Some(0x7d),
            absolute_y: Some(0x79),
            zeropage: Some(0x65),
            zeropage_x: Some(0x75),
            zeropage_y: None,
            relative: None,
            indirect: None,
            indirect_x: Some(0x61),
            indirect_y: Some(0x71),
        }),
        // and
        (0x61, 0x6e, 0x64) => Some(OpcodeRow {
            implied: None,
            immediate: Some(0x29),
            absolute: Some(0x2d),
            absolute_x: Some(0x3d),
            absolute_y: Some(0x39),
            zeropage: Some(0x25),
            zeropage_x: Some(0x35),
            zeropage_y: None,
            relative: None,
            indirect: None,
            indirect_x: Some(0x21),
            indirect_y: Some(0x31),
        }),
        // asl
        (0x61, 0x73, 0x6c) => Some(OpcodeRow {
            implied: Some(0x0a),
            immediate: None,
            absolute: Some(0x0e),
            absolute_x: Some(0x1e),
            absolute_y: None,
            zeropage: Some(0x06),
            zeropage_x: Some(0x16),
            zeropage_y: None,
            relative: None,
            indirect: None,
            indirect_x: None,
            indirect_y: None,
        }),
        // bcc
        (0x62, 0x63, 0x63) => Some(OpcodeRow {
            implied: None,
            immediate: None,
            absolute: None,
            absolute_x: None,
            absolute_y: None,
            zeropage: None,
            zeropage_x: None,
            zeropage_y: None,
            relative: Some(0x90),
            indirect: None,
            indirect_x: None,
            indirect_y: None,
        }),
        // bcs
        (0x62, 0x63, 0x73) => Some(OpcodeRow {
            implied: None,
            immediate: None,
            absolute: None,
            absolute_x: None,
            absolute_y: None,
            zeropage: None,
            zeropage_x: None,
            zeropage_y: None,
            relative: Some(0xb0),
            indirect: None,
            indirect_x: None,
            indirect_y: None,
        }),
        // beq
        (0x62, 0x65, 0x71) => Some(OpcodeRow {
            implied: None,
            immediate: None,
            absolute: None,
            absolute_x: None,
            absolute_y: None,
            zeropage: None,
            zeropage_x: None,
            zeropage_y: None,
            relative: Some(0xf0),
            indirect: None,
            indirect_x: None,
            indirect_y: None,
        }),
        // bit
        (0x62, 0x69, 0x74) => Some(OpcodeRow {
            implied: None,
            immediate: None,
            absolute: Some(0x2c),
            absolute_x: None,
            absolute_y: None,
            zeropage: Some(0x24),
            zeropage_x: None,
            zeropage_y: None,
            relative: None,
            indirect: None,
            indirect_x: None,
            indirect_y: None,
        }),
        // bmi
        (0x62, 0x6d, 0x69) => Some(OpcodeRow {
            implied: None,
            immediate: None,
            absolute: None,
            absolute_x: None,
            absolute_y: None,
            zeropage: None,
            zeropage_x: None,
            zeropage_y: None,
            relative: Some(0x30),
            indirect: None,
            indirect_x: None,
            indirect_y: None,
        }),
        // bne
        (0x62, 0x6e, 0x65) => Some(OpcodeRow {
            implied: None,
            immediate: None,
            absolute: None,
            absolute_x: None,
            absolute_y: None,
            zeropage: None,
            zeropage_x: None,
            zeropage_y: None,
            relative: Some(0xd0),
            indirect: None,
            indirect_x: None,
            indirect_y: None,
        }),
        // bpl
        (0x62, 0x70, 0x6c) => Some(OpcodeRow {
            implied: None,
            immediate: None,
            absolute: None,
            absolute_x: None,
            absolute_y: None,
            zeropage: None,
            zeropage_x: None,
            zeropage_y: None,
            relative: Some(0x10),
            indirect: None,
            indirect_x: None,
            indirect_y: None,
        }),
        // brk
        (0x62, 0x72, 0x6b) => Some(OpcodeRow {
            implied: Some(0x00),
            immediate: None,
            absolute: None,
            absolute_x: None,
            absolute_y: None,
            zeropage: None,
            zeropage_x: None,
            zeropage_y: None,
            relative: None,
            indirect: None,
            indirect_x: None,
            indirect_y: None,
        }),
        // bvc
        (0x62, 0x76, 0x63) => Some(OpcodeRow {
            implied: None,
            immediate: None,
            absolute: None,
            absolute_x: None,
            absolute_y: None,
            zeropage: None,
            zeropage_x: None,
            zeropage_y: None,
            relative: Some(0x50),
            indirect: None,
            indirect_x: None,
            indirect_y: None,
        }),
        // bvs
        (0x62, 0x76, 0x73) => Some(OpcodeRow {
            implied: None,
            immediate: None,
            absolute: None,
            absolute_x: None,
            absolute_y: None,
            zeropage: None,
            zeropage_x: None,
            zeropage_y: None,
            relative: Some(0x70),
            indirect: None,
            indirect_x: None,
            indirect_y: None,
        }),
        // clc
        (0x63, 0x6c, 0x63) => Some(OpcodeRow {
            implied: Some(0x18),
            immediate: None,
            absolute: None,
            absolute_x: None,
            absolute_y: None,
            zeropage: None,
            zeropage_x: None,
            zeropage_y: None,
            relative: None,
            indirect: None,
            indirect_x: None,
            indirect_y: None,
        }),
        // cld
        (0x63, 0x6c, 0x64) => Some(OpcodeRow {
            implied: Some(0xd8),
            immediate: None,
            absolute: None,
            absolute_x: None,
            absolute_y: None,
            zeropage: None,
            zeropage_x: None,
            zeropage_y: None,
            relative: None,
            indirect: None,
            indirect_x: None,
            indirect_y: None,
        }),
        // cli
        (0x63, 0x6c, 0x69) => Some(OpcodeRow {
            implied: Some(0x58),
            immediate: None,
            absolute: None,
            absolute_x: None,
            absolute_y: None,
            zeropage: None,
            zeropage_x: None,
            zeropage_y: None,
            relative: None,
            indirect: None,
            indirect_x: None,
            indirect_y: None,
        }),
        // clv
        (0x63, 0x6c, 0x76) => Some(OpcodeRow {
            implied: Some(0xb8),
            immediate: None,
            absolute: None,
            absolute_x: None,
            absolute_y: None,
            zeropage: None,
            zeropage_x: None,
            zeropage_y: None,
            relative: None,
            indirect: None,
            indirect_x: None,
            indirect_y: None,
        }),
        // cmp
        (0x63, 0x6d, 0x70) => Some(OpcodeRow {
            implied: None,
            immediate: Some(0xc9),
            absolute: Some(0xcd),
            absolute_x: Some(0xdd),
            absolute_y: Some(0xd9),
            zeropage: Some(0xc5),
            zeropage_x: Some(0xd5),
            zeropage_y: None,
            relative: None,
            indirect: None,
            indirect_x: Some(0xc1),
            indirect_y: Some(0xd1),
        }),
        // cpx
        (0x63, 0x70, 0x78) => Some(OpcodeRow {
            implied: None,
            immediate: Some(0xe0),
            absolute: Some(0xec),
            absolute_x: None,
            absolute_y: None,
            zeropage: Some(0xe4),
            zeropage_x: None,
            zeropage_y: None,
            relative: None,
            indirect: None,
            indirect_x: None,
            indirect_y: None,
        }),
        // cpy
        (0x63, 0x70, 0x79) => Some(OpcodeRow {
            implied: None,
            immediate: Some(0xc0),
            absolute: Some(0xcc),
            absolute_x: None,
            absolute_y: None,
            zeropage: Some(0xc4),
            zeropage_x: None,
            zeropage_y: None,
            relative: None,
            indirect: None,
            indirect_x: None,
            indirect_y: None,
        }),
        // dec
        (0x64, 0x65, 0x63) => Some(OpcodeRow {
            implied: None,
            immediate: None,
            absolute: Some(0xce),
            absolute_x: Some(0xde),
            absolute_y: None,
            zeropage: Some(0xc6),
            zeropage_x: Some(0xd6),
            zeropage_y: None,
            relative: None,
            indirect: None,
            indirect_x: None,
            indirect_y: None,
        }),
        // dex
        (0x64, 0x65, 0x78) => Some(OpcodeRow {
            implied: Some(0xca),
            immediate: None,
            absolute: None,
            absolute_x: None,
            absolute_y: None,
            zeropage: None,
            zeropage_x: None,
            zeropage_y: None,
            relative: None,
            indirect: None,
            indirect_x: None,
            indirect_y: None,
        }),
        // dey
        (0x64, 0x65, 0x79) => Some(OpcodeRow {
            implied: Some(0x88),
            immediate: None,
            absolute: None,
            absolute_x: None,
            absolute_y: None,
            zeropage: None,
            zeropage_x: None,
            zeropage_y: None,
            relative: None,
            indirect: None,
            indirect_x: None,
            indirect_y: None,
        }),
        // eor
        (0x65, 0x6f, 0x72) => Some(OpcodeRow {
            implied: None,
            immediate: Some(0x49),
            absolute: Some(0x4d),
            absolute_x: Some(0x5d),
            absolute_y: Some(0x59),
            zeropage: Some(0x45),
            zeropage_x: Some(0x55),
            zeropage_y: None,
            relative: None,
            indirect: None,
            indirect_x: Some(0x41),
            indirect_y: Some(0x51),
        }),
        // inc
        (0x69, 0x6e, 0x63) => Some(OpcodeRow {
            implied: None,
            immediate: None,
            absolute: Some(0xee),
            absolute_x: Some(0xfe),
            absolute_y: None,
            zeropage: Some(0xe6),
            zeropage_x: Some(0xf6),
            zeropage_y: None,
            relative: None,
            indirect: None,
            indirect_x: None,
            indirect_y: None,
        }),
        // inx
        (0x69, 0x6e, 0x78) => Some(OpcodeRow {
            implied: Some(0xe8),
            immediate: None,
            absolute: None,
            absolute_x: None,
            absolute_y: None,
            zeropage: None,
            zeropage_x: None,
            zeropage_y: None,
            relative: None,
            indirect: None,
            indirect_x: None,
            indirect_y: None,
        }),
        // iny
        (0x69, 0x6e, 0x79) => Some(OpcodeRow {
            implied: Some(0xc8),
            immediate: None,
            absolute: None,
            absolute_x: None,
            absolute_y: None,
            zeropage: None,
            zeropage_x: None,
            zeropage_y: None,
            relative: None,
            indirect: None,
            indirect_x: None,
            indirect_y: None,
        }),
        // jmp
        (0x6a, 0x6d, 0x70) => Some(OpcodeRow {
            implied: None,
            immediate: None,
            absolute: Some(0x4c),
            absolute_x: None,
            absolute_y: None,
            zeropage: None,
            zeropage_x: None,
            zeropage_y: None,
            relative: None,
            indirect: Some(0x6c),
            indirect_x: None,
            indirect_y: None,
        }),
        // jsr
        (0x6a, 0x73, 0x72) => Some(OpcodeRow {
            implied: None,
            immediate: None,
            absolute: Some(0x20),
            absolute_x: None,
            absolute_y: None,
            zeropage: None,
            zeropage_x: None,
            zeropage_y: None,
            relative: None,
            indirect: None,
            indirect_x: None,
            indirect_y: None,
        }),
        // lda
        (0x6c, 0x64, 0x61) => Some(OpcodeRow {
            implied: None,
            immediate: Some(0xa9),
            absolute: Some(0xad),
            absolute_x: Some(0xbd),
            absolute_y: Some(0xb9),
            zeropage: Some(0xa5),
            zeropage_x: Some(0xb5),
            zeropage_y: None,
            relative: None,
            indirect: None,
            indirect_x: Some(0xa1),
            indirect_y: Some(0xb1),
        }),
        // ldx
        (0x6c, 0x64, 0x78) => Some(OpcodeRow {
            implied: None,
            immediate: Some(0xa2),
            absolute: Some(0xae),
            absolute_x: None,
            absolute_y: Some(0xbe),
            zeropage: Some(0xa6),
            zeropage_x: None,
            zeropage_y: Some(0xb6),
            relative: None,
            indirect: None,
            indirect_x: None,
            indirect_y: None,
        }),
        // ldy
        (0x6c, 0x64, 0x79) => Some(OpcodeRow {
            implied: None,
            immediate: Some(0xa0),
            absolute: Some(0xac),
            absolute_x: Some(0xbc),
            absolute_y: None,
            zeropage: Some(0xa4),
            zeropage_x: Some(0xb4),
            zeropage_y: None,
            relative: None,
            indirect: None,
            indirect_x: None,
            indirect_y: None,
        }),
        // lsr
        (0x6c, 0x73, 0x72) => Some(OpcodeRow {
            implied: Some(0x4a),
            immediate: None,
            absolute: Some(0x4e),
            absolute_x: Some(0x5e),
            absolute_y: None,
            zeropage: Some(0x46),
            zeropage_x: Some(0x56),
            zeropage_y: None,
            relative: None,
            indirect: None,
            indirect_x: None,
            indirect_y: None,
        }),
        // nop
        (0x6e, 0x6f, 0x70) => Some(OpcodeRow {
            implied: Some(0xea),
            immediate: None,
            absolute: None,
            absolute_x: None,
            absolute_y: None,
            zeropage: None,
            zeropage_x: None,
            zeropage_y: None,
            relative: None,
            indirect: None,
            indirect_x: None,
            indirect_y: None,
        }),
        // ora
        (0x6f, 0x72, 0x61) => Some(OpcodeRow {
            implied: None,
            immediate: Some(0x09),
            absolute: Some(0x0d),
            absolute_x: Some(0x1d),
            absolute_y: Some(0x19),
            zeropage: Some(0x05),
            zeropage_x: Some(0x15),
            zeropage_y: None,
            relative: None,
            indirect: None,
            indirect_x: Some(0x01),
            indirect_y: Some(0x11),
        }),
        // pha
        (0x70, 0x68, 0x61) => Some(OpcodeRow {
            implied: Some(0x48),
            immediate: None,
            absolute: None,
            absolute_x: None,
            absolute_y: None,
            zeropage: None,
            zeropage_x: None,
            zeropage_y: None,
            relative: None,
            indirect: None,
            indirect_x: None,
            indirect_y: None,
        }),
        // php
        (0x70, 0x68, 0x70) => Some(OpcodeRow {
            implied: Some(0x08),
            immediate: None,
            absolute: None,
            absolute_x: None,
            absolute_y: None,
            zeropage: None,
            zeropage_x: None,
            zeropage_y: None,
            relative: None,
            indirect: None,
            indirect_x: None,
            indirect_y: None,
        }),
        // pla
        (0x70, 0x6c, 0x61) => Some(OpcodeRow {
            implied: Some(0x68),
            immediate: None,
            absolute: None,
            absolute_x: None,
            absolute_y: None,
            zeropage: None,
            zeropage_x: None,
            zeropage_y: None,
            relative: None,
            indirect: None,
            indirect_x: None,
            indirect_y: None,
        }),
        // plp
        (0x70, 0x6c, 0x70) => Some(OpcodeRow {
            implied: Some(0x28),
            immediate: None,
            absolute: None,
            absolute_x: None,
            absolute_y: None,
            zeropage: None,
            zeropage_x: None,
            zeropage_y: None,
            relative: None,
            indirect: None,
            indirect_x: None,
            indirect_y: None,
        }),
        // rol
        (0x72, 0x6f, 0x6c) => Some(OpcodeRow {
            implied: Some(0x2a),
            immediate: None,
            absolute: Some(0x2e),
            absolute_x: Some(0x3e),
            absolute_y: None,
            zeropage: Some(0x26),
            zeropage_x: Some(0x36),
            zeropage_y: None,
            relative: None,
            indirect: None,
            indirect_x: None,
            indirect_y: None,
        }),
        // ror
        (0x72, 0x6f, 0x72) => Some(OpcodeRow {
            implied: Some(0x6a),
            immediate: None,
            absolute: Some(0x6e),
            absolute_x: Some(0x7e),
            absolute_y: None,
            zeropage: Some(0x66),
            zeropage_x: Some(0x76),
            zeropage_y: None,
            relative: None,
            indirect: None,
            indirect_x: None,
            indirect_y: None,
        }),
        // rti
        (0x72, 0x74, 0x69) => Some(OpcodeRow {
            implied: Some(0x40),
            immediate: None,
            absolute: None,
            absolute_x: None,
            absolute_y: None,
            zeropage: None,
            zeropage_x: None,
            zeropage_y: None,
            relative: None,
            indirect: None,
            indirect_x: None,
            indirect_y: None,
        }),
        // rts
        (0x72, 0x74, 0x73) => Some(OpcodeRow {
            implied: Some(0x60),
            immediate: None,
            absolute: None,
            absolute_x: None,
            absolute_y: None,
            zeropage: None,
            zeropage_x: None,
            zeropage_y: None,
            relative: None,
            indirect: None,
            indirect_x: None,
            indirect_y: None,
        }),
        // sbc
        (0x73, 0x62, 0x63) => Some(OpcodeRow {
            implied: None,
            immediate: Some(0xe9),
            absolute: Some(0xed),
            absolute_x: Some(0xfd),
            absolute_y: Some(0xf9),
            zeropage: Some(0xe5),
            zeropage_x: Some(0xf5),
            zeropage_y: None,
            relative: None,
            indirect: None,
            indirect_x: Some(0xe1),
            indirect_y: Some(0xf1),
        }),
        // sec
        (0x73, 0x65, 0x63) => Some(OpcodeRow {
            implied: Some(0x38),
            immediate: None,
            absolute: None,
            absolute_x: None,
            absolute_y: None,
            zeropage: None,
            zeropage_x: None,
            zeropage_y: None,
            relative: None,
            indirect: None,
            indirect_x: None,
            indirect_y: None,
        }),
        // sed
        (0x73, 0x65, 0x64) => Some(OpcodeRow {
            implied: Some(0xf8),
            immediate: None,
            absolute: None,
            absolute_x: None,
            absolute_y: None,
            zeropage: None,
            zeropage_x: None,
            zeropage_y: None,
            relative: None,
            indirect: None,
            indirect_x: None,
            indirect_y: None,
        }),
        // sei
        (0x73, 0x65, 0x69) => Some(OpcodeRow {
            implied: Some(0x78),
            immediate: None,
            absolute: None,
            absolute_x: None,
            absolute_y: None,
            zeropage: None,
            zeropage_x: None,
            zeropage_y: None,
            relative: None,
            indirect: None,
            indirect_x: None,
            indirect_y: None,
        }),
        // sta
        (0x73, 0x74, 0x61) => Some(OpcodeRow {
            implied: None,
            immediate: None,
            absolute: Some(0x8d),
            absolute_x: Some(0x9d),
            absolute_y: Some(0x99),
            zeropage: Some(0x85),
            zeropage_x: Some(0x95),
            zeropage_y: None,
            relative: None,
            indirect: None,
            indirect_x: Some(0x81),
            indirect_y: Some(0x91),
        }),
        // stx
        (0x73, 0x74, 0x78) => Some(OpcodeRow {
            implied: None,
            immediate: None,
            absolute: Some(0x8e),
            absolute_x: None,
            absolute_y: None,
            zeropage: Some(0x86),
            zeropage_x: None,
            zeropage_y: Some(0x96),
            relative: None,
            indirect: None,
            indirect_x: None,
            indirect_y: None,
        }),
        // sty
        (0x73, 0x74, 0x79) => Some(OpcodeRow {
            implied: None,
            immediate: None,
            absolute: Some(0x8c),
            absolute_x: None,
            absolute_y: None,
            zeropage: Some(0x84),
            zeropage_x: None,
            zeropage_y: Some(0x94),
            relative: None,
            indirect: None,
            indirect_x: None,
            indirect_y: None,
        }),
        // tax
        (0x74, 0x61, 0x78) => Some(OpcodeRow {
            implied: Some(0xaa),
            immediate: None,
            absolute: None,
            absolute_x: None,
            absolute_y: None,
            zeropage: None,
            zeropage_x: None,
            zeropage_y: None,
            relative: None,
            indirect: None,
            indirect_x: None,
            indirect_y: None,
        }),
        // tay
        (0x74, 0x61, 0x79) => Some(OpcodeRow {
            implied: Some(0xa8),
            immediate: None,
            absolute: None,
            absolute_x: None,
            absolute_y: None,
            zeropage: None,
            zeropage_x: None,
            zeropage_y: None,
            relative: None,
            indirect: None,
            indirect_x: None,
            indirect_y: None,
        }),
        // tsx
        (0x74, 0x73, 0x78) => Some(OpcodeRow {
            implied: Some(0xba),
            immediate: None,
            absolute: None,
            absolute_x: None,
            absolute_y: None,
            zeropage: None,
            zeropage_x: None,
            zeropage_y: None,
            relative: None,
            indirect: None,
            indirect_x: None,
            indirect_y: None,
        }),
        // txa
        (0x74, 0x78, 0x61) => Some(OpcodeRow {
            implied: Some(0x8a),
            immediate: None,
            absolute: None,
            absolute_x: None,
            absolute_y: None,
            zeropage: None,
            zeropage_x: None,
            zeropage_y: None,
            relative: None,
            indirect: None,
            indirect_x: None,
            indirect_y: None,
        }),
        // txs
        (0x74, 0x78, 0x73) => Some(OpcodeRow {
            implied: Some(0x9a),
            immediate: None,
            absolute: None,
            absolute_x: None,
            absolute_y: None,
            zeropage: None,
            zeropage_x: None,
            zeropage_y: None,
            relative: None,
            indirect: None,
            indirect_x: None,
            indirect_y: None,
        }),
        // tya
        (0x74, 0x79, 0x61) => Some(OpcodeRow {
            implied: Some(0x98),
            immediate: None,
            absolute: None,
            absolute_x: None,
            absolute_y: None,
            zeropage: None,
            zeropage_x: None,
            zeropage_y: None,
            relative: None,
            indirect: None,
            indirect_x: None,
            indirect_y: None,
        }),
        _ => None,
    }
}

} // verus!
