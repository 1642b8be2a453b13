//! The primary opcode table: one variant per defined instruction byte,
//! and the decoder that maps a fetched byte to it. Eleven bytes of the
//! table name no instruction and decode to nothing.

use vstd::prelude::*;

verus! {

/// The defined primary opcodes, named after their assembler forms.
#[allow(non_camel_case_types)]
#[derive(Clone, Copy, Debug, PartialEq, Eq, Structural)]
pub enum Opcode {
    Nop,
    Ld_Bc_d16,
    Ld_BCref_A,
    Inc_Bc,
    Inc_B,
    Dec_B,
    Ld_B_d8,
    Rlca,
    Ld_a16ref_Sp,
    Add_Hl_Bc,
    Ld_A_BCref,
    Dec_Bc,
    Inc_C,
    Dec_C,
    Ld_C_d8,
    Rrca,
    Stop,
    Ld_De_d16,
    Ld_DEref_A,
    Inc_De,
    Inc_D,
    Dec_D,
    Ld_D_d8,
    Rla,
    Jr_r8,
    Add_Hl_De,
    Ld_A_DEref,
    Dec_De,
    Inc_E,
    Dec_E,
    Ld_E_d8,
    Rra,
    Jr_Nz_r8,
    Ld_Hl_d16,
    Ld_HLIref_A,
    Inc_Hl,
    Inc_H,
    Dec_H,
    Ld_H_d8,
    Daa,
    Jr_Z_r8,
    Add_Hl_Hl,
    Ld_A_HLIref,
    Dec_Hl,
    Inc_L,
    Dec_L,
    Ld_L_d8,
    Cpl,
    Jr_Nc_r8,
    Ld_Sp_d16,
    Ld_HLDref_A,
    Inc_Sp,
    Inc_HLref,
    Dec_HLref,
    Ld_HLref_d8,
    Scf,
    Jr_C_r8,
    Add_Hl_Sp,
    Ld_A_HLDref,
    Dec_Sp,
    Inc_A,
    Dec_A,
    Ld_A_d8,
    Ccf,
    Ld_B_B,
    Ld_B_C,
    Ld_B_D,
    Ld_B_E,
    Ld_B_H,
    Ld_B_L,
    Ld_B_HLref,
    Ld_B_A,
    Ld_C_B,
    Ld_C_C,
    Ld_C_D,
    Ld_C_E,
    Ld_C_H,
    Ld_C_L,
    Ld_C_HLref,
    Ld_C_A,
    Ld_D_B,
    Ld_D_C,
    Ld_D_D,
    Ld_D_E,
    Ld_D_H,
    Ld_D_L,
    Ld_D_HLref,
    Ld_D_A,
    Ld_E_B,
    Ld_E_C,
    Ld_E_D,
    Ld_E_E,
    Ld_E_H,
    Ld_E_L,
    Ld_E_HLref,
    Ld_E_A,
    Ld_H_B,
    Ld_H_C,
    Ld_H_D,
    Ld_H_E,
    Ld_H_H,
    Ld_H_L,
    Ld_H_HLref,
    Ld_H_A,
    Ld_L_B,
    Ld_L_C,
    Ld_L_D,
    Ld_L_E,
    Ld_L_H,
    Ld_L_L,
    Ld_L_HLref,
    Ld_L_A,
    Ld_HLref_B,
    Ld_HLref_C,
    Ld_HLref_D,
    Ld_HLref_E,
    Ld_HLref_H,
    Ld_HLref_L,
    Halt,
    Ld_HLref_A,
    Ld_A_B,
    Ld_A_C,
    Ld_A_D,
    Ld_A_E,
    Ld_A_H,
    Ld_A_L,
    Ld_A_HLref,
    Ld_A_A,
    Add_A_B,
    Add_A_C,
    Add_A_D,
    Add_A_E,
    Add_A_H,
    Add_A_L,
    Add_A_HLref,
    Add_A_A,
    Adc_A_B,
    Adc_A_C,
    Adc_A_D,
    Adc_A_E,
    Adc_A_H,
    Adc_A_L,
    Adc_A_HLref,
    Adc_A_A,
    Sub_A_B,
    Sub_A_C,
    Sub_A_D,
    Sub_A_E,
    Sub_A_H,
    Sub_A_L,
    Sub_A_HLref,
    Sub_A_A,
    Sbc_A_B,
    Sbc_A_C,
    Sbc_A_D,
    Sbc_A_E,
    Sbc_A_H,
    Sbc_A_L,
    Sbc_A_HLref,
    Sbc_A_A,
    And_A_B,
    And_A_C,
    And_A_D,
    And_A_E,
    And_A_H,
    And_A_L,
    And_A_HLref,
    And_A_A,
    Xor_A_B,
    Xor_A_C,
    Xor_A_D,
    Xor_A_E,
    Xor_A_H,
    Xor_A_L,
    Xor_A_HLref,
    Xor_A_A,
    Or_A_B,
    Or_A_C,
    Or_A_D,
    Or_A_E,
    Or_A_H,
    Or_A_L,
    Or_A_HLref,
    Or_A_A,
    Cp_A_B,
    Cp_A_C,
    Cp_A_D,
    Cp_A_E,
    Cp_A_H,
    Cp_A_L,
    Cp_A_HLref,
    Cp_A_A,
    Ret_Nz,
    Pop_Bc,
    Jp_Nz_a16,
    Jp_a16,
    Call_Nz_a16,
    Push_Bc,
    Add_A_d8,
    Rst_00,
    Ret_Z,
    Ret,
    Jp_Z_a16,
    Prefix_Cb,
    Call_Z_a16,
    Call_a16,
    Adc_A_d8,
    Rst_08,
    Ret_Nc,
    Pop_De,
    Jp_Nc_a16,
    Call_Nc_a16,
    Push_De,
    Sub_A_d8,
    Rst_10,
    Ret_C,
    Reti,
    Jp_C_a16,
    Call_C_a16,
    Sbc_A_d8,
    Rst_18,
    Ldh_a8ref_A,
    Pop_Hl,
    Ld_Cref_A,
    Push_Hl,
    And_A_d8,
    Rst_20,
    Add_Sp_r8,
    Jp_Hl,
    Ld_a16ref_A,
    Xor_A_d8,
    Rst_28,
    Ldh_A_a8ref,
    Pop_Af,
    Ld_A_Cref,
    Di,
    Push_Af,
    Or_A_d8,
    Rst_30,
    Ld_Hl_SpPlusr8,
    Ld_Sp_Hl,
    Ld_A_a16ref,
    Ei,
    Cp_A_d8,
    Rst_38,
}

/// The instruction a primary opcode byte names, or nothing for the
/// eleven holes in the table.
pub open spec fn spec_decode(op: u8) -> Option<Opcode> {
    match op {
        0x00u8 => Some(Opcode::Nop),
        0x01u8 => Some(Opcode::Ld_Bc_d16),
        0x02u8 => Some(Opcode::Ld_BCref_A),
        0x03u8 => Some(Opcode::Inc_Bc),
        0x04u8 => Some(Opcode::Inc_B),
        0x05u8 => Some(Opcode::Dec_B),
        0x06u8 => Some(Opcode::Ld_B_d8),
        0x07u8 => Some(Opcode::Rlca),
        0x08u8 => Some(Opcode::Ld_a16ref_Sp),
        0x09u8 => Some(Opcode::Add_Hl_Bc),
        0x0Au8 => Some(Opcode::Ld_A_BCref),
        0x0Bu8 => Some(Opcode::Dec_Bc),
        0x0Cu8 => Some(Opcode::Inc_C),
        0x0Du8 => Some(Opcode::Dec_C),
        0x0Eu8 => Some(Opcode::Ld_C_d8),
        0x0Fu8 => Some(Opcode::Rrca),
        0x10u8 => Some(Opcode::Stop),
        0x11u8 => Some(Opcode::Ld_De_d16),
        0x12u8 => Some(Opcode::Ld_DEref_A),
        0x13u8 => Some(Opcode::Inc_De),
        0x14u8 => Some(Opcode::Inc_D),
        0x15u8 => Some(Opcode::Dec_D),
        0x16u8 => Some(Opcode::Ld_D_d8),
        0x17u8 => Some(Opcode::Rla),
        0x18u8 => Some(Opcode::Jr_r8),
        0x19u8 => Some(Opcode::Add_Hl_De),
        0x1Au8 => Some(Opcode::Ld_A_DEref),
        0x1Bu8 => Some(Opcode::Dec_De),
        0x1Cu8 => Some(Opcode::Inc_E),
        0x1Du8 => Some(Opcode::Dec_E),
        0x1Eu8 => Some(Opcode::Ld_E_d8),
        0x1Fu8 => Some(Opcode::Rra),
        0x20u8 => Some(Opcode::Jr_Nz_r8),
        0x21u8 => Some(Opcode::Ld_Hl_d16),
        0x22u8 => Some(Opcode::Ld_HLIref_A),
        0x23u8 => Some(Opcode::Inc_Hl),
        0x24u8 => Some(Opcode::Inc_H),
        0x25u8 => Some(Opcode::Dec_H),
        0x26u8 => Some(Opcode::Ld_H_d8),
        0x27u8 => Some(Opcode::Daa),
        0x28u8 => Some(Opcode::Jr_Z_r8),
        0x29u8 => Some(Opcode::Add_Hl_Hl),
        0x2Au8 => Some(Opcode::Ld_A_HLIref),
        0x2Bu8 => Some(Opcode::Dec_Hl),
        0x2Cu8 => Some(Opcode::Inc_L),
        0x2Du8 => Some(Opcode::Dec_L),
        0x2Eu8 => Some(Opcode::Ld_L_d8),
        0x2Fu8 => Some(Opcode::Cpl),
        0x30u8 => Some(Opcode::Jr_Nc_r8),
        0x31u8 => Some(Opcode::Ld_Sp_d16),
        0x32u8 => Some(Opcode::Ld_HLDref_A),
        0x33u8 => Some(Opcode::Inc_Sp),
        0x34u8 => Some(Opcode::Inc_HLref),
        0x35u8 => Some(Opcode::Dec_HLref),
        0x36u8 => Some(Opcode::Ld_HLref_d8),
        0x37u8 => Some(Opcode::Scf),
        0x38u8 => Some(Opcode::Jr_C_r8),
        0x39u8 => Some(Opcode::Add_Hl_Sp),
        0x3Au8 => Some(Opcode::Ld_A_HLDref),
        0x3Bu8 => Some(Opcode::Dec_Sp),
        0x3Cu8 => Some(Opcode::Inc_A),
        0x3Du8 => Some(Opcode::Dec_A),
        0x3Eu8 => Some(Opcode::Ld_A_d8),
        0x3Fu8 => Some(Opcode::Ccf),
        0x40u8 => Some(Opcode::Ld_B_B),
        0x41u8 => Some(Opcode::Ld_B_C),
        0x42u8 => Some(Opcode::Ld_B_D),
        0x43u8 => Some(Opcode::Ld_B_E),
        0x44u8 => Some(Opcode::Ld_B_H),
        0x45u8 => Some(Opcode::Ld_B_L),
        0x46u8 => Some(Opcode::Ld_B_HLref),
        0x47u8 => Some(Opcode::Ld_B_A),
        0x48u8 => Some(Opcode::Ld_C_B),
        0x49u8 => Some(Opcode::Ld_C_C),
        0x4Au8 => Some(Opcode::Ld_C_D),
        0x4Bu8 => Some(Opcode::Ld_C_E),
        0x4Cu8 => Some(Opcode::Ld_C_H),
        0x4Du8 => Some(Opcode::Ld_C_L),
        0x4Eu8 => Some(Opcode::Ld_C_HLref),
        0x4Fu8 => Some(Opcode::Ld_C_A),
        0x50u8 => Some(Opcode::Ld_D_B),
        0x51u8 => Some(Opcode::Ld_D_C),
        0x52u8 => Some(Opcode::Ld_D_D),
        0x53u8 => Some(Opcode::Ld_D_E),
        0x54u8 => Some(Opcode::Ld_D_H),
        0x55u8 => Some(Opcode::Ld_D_L),
        0x56u8 => Some(Opcode::Ld_D_HLref),
        0x57u8 => Some(Opcode::Ld_D_A),
        0x58u8 => Some(Opcode::Ld_E_B),
        0x59u8 => Some(Opcode::Ld_E_C),
        0x5Au8 => Some(Opcode::Ld_E_D),
        0x5Bu8 => Some(Opcode::Ld_E_E),
        0x5Cu8 => Some(Opcode::Ld_E_H),
        0x5Du8 => Some(Opcode::Ld_E_L),
        0x5Eu8 => Some(Opcode::Ld_E_HLref),
        0x5Fu8 => Some(Opcode::Ld_E_A),
        0x60u8 => Some(Opcode::Ld_H_B),
        0x61u8 => Some(Opcode::Ld_H_C),
        0x62u8 => Some(Opcode::Ld_H_D),
        0x63u8 => Some(Opcode::Ld_H_E),
        0x64u8 => Some(Opcode::Ld_H_H),
        0x65u8 => Some(Opcode::Ld_H_L),
        0x66u8 => Some(Opcode::Ld_H_HLref),
        0x67u8 => Some(Opcode::Ld_H_A),
        0x68u8 => Some(Opcode::Ld_L_B),
        0x69u8 => Some(Opcode::Ld_L_C),
        0x6Au8 => Some(Opcode::Ld_L_D),
        0x6Bu8 => Some(Opcode::Ld_L_E),
        0x6Cu8 => Some(Opcode::Ld_L_H),
        0x6Du8 => Some(Opcode::Ld_L_L),
        0x6Eu8 => Some(Opcode::Ld_L_HLref),
        0x6Fu8 => Some(Opcode::Ld_L_A),
        0x70u8 => Some(Opcode::Ld_HLref_B),
        0x71u8 => Some(Opcode::Ld_HLref_C),
        0x72u8 => Some(Opcode::Ld_HLref_D),
        0x73u8 => Some(Opcode::Ld_HLref_E),
        0x74u8 => Some(Opcode::Ld_HLref_H),
        0x75u8 => Some(Opcode::Ld_HLref_L),
        0x76u8 => Some(Opcode::Halt),
        0x77u8 => Some(Opcode::Ld_HLref_A),
        0x78u8 => Some(Opcode::Ld_A_B),
        0x79u8 => Some(Opcode::Ld_A_C),
        0x7Au8 => Some(Opcode::Ld_A_D),
        0x7Bu8 => Some(Opcode::Ld_A_E),
        0x7Cu8 => Some(Opcode::Ld_A_H),
        0x7Du8 => Some(Opcode::Ld_A_L),
        0x7Eu8 => Some(Opcode::Ld_A_HLref),
        0x7Fu8 => Some(Opcode::Ld_A_A),
        0x80u8 => Some(Opcode::Add_A_B),
        0x81u8 => Some(Opcode::Add_A_C),
        0x82u8 => Some(Opcode::Add_A_D),
        0x83u8 => Some(Opcode::Add_A_E),
        0x84u8 => Some(Opcode::Add_A_H),
        0x85u8 => Some(Opcode::Add_A_L),
        0x86u8 => Some(Opcode::Add_A_HLref),
        0x87u8 => Some(Opcode::Add_A_A),
        0x88u8 => Some(Opcode::Adc_A_B),
        0x89u8 => Some(Opcode::Adc_A_C),
        0x8Au8 => Some(Opcode::Adc_A_D),
        0x8Bu8 => Some(Opcode::Adc_A_E),
        0x8Cu8 => Some(Opcode::Adc_A_H),
        0x8Du8 => Some(Opcode::Adc_A_L),
        0x8Eu8 => Some(Opcode::Adc_A_HLref),
        0x8Fu8 => Some(Opcode::Adc_A_A),
        0x90u8 => Some(Opcode::Sub_A_B),
        0x91u8 => Some(Opcode::Sub_A_C),
        0x92u8 => Some(Opcode::Sub_A_D),
        0x93u8 => Some(Opcode::Sub_A_E),
        0x94u8 => Some(Opcode::Sub_A_H),
        0x95u8 => Some(Opcode::Sub_A_L),
        0x96u8 => Some(Opcode::Sub_A_HLref),
        0x97u8 => Some(Opcode::Sub_A_A),
        0x98u8 => Some(Opcode::Sbc_A_B),
        0x99u8 => Some(Opcode::Sbc_A_C),
        0x9Au8 => Some(Opcode::Sbc_A_D),
        0x9Bu8 => Some(Opcode::Sbc_A_E),
        0x9Cu8 => Some(Opcode::Sbc_A_H),
        0x9Du8 => Some(Opcode::Sbc_A_L),
        0x9Eu8 => Some(Opcode::Sbc_A_HLref),
        0x9Fu8 => Some(Opcode::Sbc_A_A),
        0xA0u8 => Some(Opcode::And_A_B),
        0xA1u8 => Some(Opcode::And_A_C),
        0xA2u8 => Some(Opcode::And_A_D),
        0xA3u8 => Some(Opcode::And_A_E),
        0xA4u8 => Some(Opcode::And_A_H),
        0xA5u8 => Some(Opcode::And_A_L),
        0xA6u8 => Some(Opcode::And_A_HLref),
        0xA7u8 => Some(Opcode::And_A_A),
        0xA8u8 => Some(Opcode::Xor_A_B),
        0xA9u8 => Some(Opcode::Xor_A_C),
        0xAAu8 => Some(Opcode::Xor_A_D),
        0xABu8 => Some(Opcode::Xor_A_E),
        0xACu8 => Some(Opcode::Xor_A_H),
        0xADu8 => Some(Opcode::Xor_A_L),
        0xAEu8 => Some(Opcode::Xor_A_HLref),
        0xAFu8 => Some(Opcode::Xor_A_A),
        0xB0u8 => Some(Opcode::Or_A_B),
        0xB1u8 => Some(Opcode::Or_A_C),
        0xB2u8 => Some(Opcode::Or_A_D),
        0xB3u8 => Some(Opcode::Or_A_E),
        0xB4u8 => Some(Opcode::Or_A_H),
        0xB5u8 => Some(Opcode::Or_A_L),
        0xB6u8 => Some(Opcode::Or_A_HLref),
        0xB7u8 => Some(Opcode::Or_A_A),
        0xB8u8 => Some(Opcode::Cp_A_B),
        0xB9u8 => Some(Opcode::Cp_A_C),
        0xBAu8 => Some(Opcode::Cp_A_D),
        0xBBu8 => Some(Opcode::Cp_A_E),
        0xBCu8 => Some(Opcode::Cp_A_H),
        0xBDu8 => Some(Opcode::Cp_A_L),
        0xBEu8 => Some(Opcode::Cp_A_HLref),
        0xBFu8 => Some(Opcode::Cp_A_A),
        0xC0u8 => Some(Opcode::Ret_Nz),
        0xC1u8 => Some(Opcode::Pop_Bc),
        0xC2u8 => Some(Opcode::Jp_Nz_a16),
        0xC3u8 => Some(Opcode::Jp_a16),
        0xC4u8 => Some(Opcode::Call_Nz_a16),
        0xC5u8 => Some(Opcode::Push_Bc),
        0xC6u8 => Some(Opcode::Add_A_d8),
        0xC7u8 => Some(Opcode::Rst_00),
        0xC8u8 => Some(Opcode::Ret_Z),
        0xC9u8 => Some(Opcode::Ret),
        0xCAu8 => Some(Opcode::Jp_Z_a16),
        0xCBu8 => Some(Opcode::Prefix_Cb),
        0xCCu8 => Some(Opcode::Call_Z_a16),
        0xCDu8 => Some(Opcode::Call_a16),
        0xCEu8 => Some(Opcode::Adc_A_d8),
        0xCFu8 => Some(Opcode::Rst_08),
        0xD0u8 => Some(Opcode::Ret_Nc),
        0xD1u8 => Some(Opcode::Pop_De),
        0xD2u8 => Some(Opcode::Jp_Nc_a16),
        0xD4u8 => Some(Opcode::Call_Nc_a16),
        0xD5u8 => Some(Opcode::Push_De),
        0xD6u8 => Some(Opcode::Sub_A_d8),
        0xD7u8 => Some(Opcode::Rst_10),
        0xD8u8 => Some(Opcode::Ret_C),
        0xD9u8 => Some(Opcode::Reti),
        0xDAu8 => Some(Opcode::Jp_C_a16),
        0xDCu8 => Some(Opcode::Call_C_a16),
        0xDEu8 => Some(Opcode::Sbc_A_d8),
        0xDFu8 => Some(Opcode::Rst_18),
        0xE0u8 => Some(Opcode::Ldh_a8ref_A),
        0xE1u8 => Some(Opcode::Pop_Hl),
        0xE2u8 => Some(Opcode::Ld_Cref_A),
        0xE5u8 => Some(Opcode::Push_Hl),
        0xE6u8 => Some(Opcode::And_A_d8),
        0xE7u8 => Some(Opcode::Rst_20),
        0xE8u8 => Some(Opcode::Add_Sp_r8),
        0xE9u8 => Some(Opcode::Jp_Hl),
        0xEAu8 => Some(Opcode::Ld_a16ref_A),
        0xEEu8 => Some(Opcode::Xor_A_d8),
        0xEFu8 => Some(Opcode::Rst_28),
        0xF0u8 => Some(Opcode::Ldh_A_a8ref),
        0xF1u8 => Some(Opcode::Pop_Af),
        0xF2u8 => Some(Opcode::Ld_A_Cref),
        0xF3u8 => Some(Opcode::Di),
        0xF5u8 => Some(Opcode::Push_Af),
        0xF6u8 => Some(Opcode::Or_A_d8),
        0xF7u8 => Some(Opcode::Rst_30),
        0xF8u8 => Some(Opcode::Ld_Hl_SpPlusr8),
        0xF9u8 => Some(Opcode::Ld_Sp_Hl),
        0xFAu8 => Some(Opcode::Ld_A_a16ref),
        0xFBu8 => Some(Opcode::Ei),
        0xFEu8 => Some(Opcode::Cp_A_d8),
        0xFFu8 => Some(Opcode::Rst_38),
        _ => None,
    }
}

/// Whether a primary opcode byte names an instruction.
pub open spec fn spec_opcode_defined(op: u8) -> bool {
    spec_decode(op) is Some
}

impl Opcode {
    /// Decode a primary opcode byte.
    pub fn decode(op: u8) -> (r: Option<Opcode>)
        ensures
            r == spec_decode(op),
            r is Some <==> spec_opcode_defined(op),
    {
        match op {
        0x00 => Some(Opcode::Nop),
        0x01 => Some(Opcode::Ld_Bc_d16),
        0x02 => Some(Opcode::Ld_BCref_A),
        0x03 => Some(Opcode::Inc_Bc),
        0x04 => Some(Opcode::Inc_B),
        0x05 => Some(Opcode::Dec_B),
        0x06 => Some(Opcode::Ld_B_d8),
        0x07 => Some(Opcode::Rlca),
        0x08 => Some(Opcode::Ld_a16ref_Sp),
        0x09 => Some(Opcode::Add_Hl_Bc),
        0x0A => Some(Opcode::Ld_A_BCref),
        0x0B => Some(Opcode::Dec_Bc),
        0x0C => Some(Opcode::Inc_C),
        0x0D => Some(Opcode::Dec_C),
        0x0E => Some(Opcode::Ld_C_d8),
        0x0F => Some(Opcode::Rrca),
        0x10 => Some(Opcode::Stop),
        0x11 => Some(Opcode::Ld_De_d16),
        0x12 => Some(Opcode::Ld_DEref_A),
        0x13 => Some(Opcode::Inc_De),
        0x14 => Some(Opcode::Inc_D),
        0x15 => Some(Opcode::Dec_D),
        0x16 => Some(Opcode::Ld_D_d8),
        0x17 => Some(Opcode::Rla),
        0x18 => Some(Opcode::Jr_r8),
        0x19 => Some(Opcode::Add_Hl_De),
        0x1A => Some(Opcode::Ld_A_DEref),
        0x1B => Some(Opcode::Dec_De),
        0x1C => Some(Opcode::Inc_E),
        0x1D => Some(Opcode::Dec_E),
        0x1E => Some(Opcode::Ld_E_d8),
        0x1F => Some(Opcode::Rra),
        0x20 => Some(Opcode::Jr_Nz_r8),
        0x21 => Some(Opcode::Ld_Hl_d16),
        0x22 => Some(Opcode::Ld_HLIref_A),
        0x23 => Some(Opcode::Inc_Hl),
        0x24 => Some(Opcode::Inc_H),
        0x25 => Some(Opcode::Dec_H),
        0x26 => Some(Opcode::Ld_H_d8),
        0x27 => Some(Opcode::Daa),
        0x28 => Some(Opcode::Jr_Z_r8),
        0x29 => Some(Opcode::Add_Hl_Hl),
        0x2A => Some(Opcode::Ld_A_HLIref),
        0x2B => Some(Opcode::Dec_Hl),
        0x2C => Some(Opcode::Inc_L),
        0x2D => Some(Opcode::Dec_L),
        0x2E => Some(Opcode::Ld_L_d8),
        0x2F => Some(Opcode::Cpl),
        0x30 => Some(Opcode::Jr_Nc_r8),
        0x31 => Some(Opcode::Ld_Sp_d16),
        0x32 => Some(Opcode::Ld_HLDref_A),
        0x33 => Some(Opcode::Inc_Sp),
        0x34 => Some(Opcode::Inc_HLref),
        0x35 => Some(Opcode::Dec_HLref),
        0x36 => Some(Opcode::Ld_HLref_d8),
        0x37 => Some(Opcode::Scf),
        0x38 => Some(Opcode::Jr_C_r8),
        0x39 => Some(Opcode::Add_Hl_Sp),
        0x3A => Some(Opcode::Ld_A_HLDref),
        0x3B => Some(Opcode::Dec_Sp),
        0x3C => Some(Opcode::Inc_A),
        0x3D => Some(Opcode::Dec_A),
        0x3E => Some(Opcode::Ld_A_d8),
        0x3F => Some(Opcode::Ccf),
        0x40 => Some(Opcode::Ld_B_B),
        0x41 => Some(Opcode::Ld_B_C),
        0x42 => Some(Opcode::Ld_B_D),
        0x43 => Some(Opcode::Ld_B_E),
        0x44 => Some(Opcode::Ld_B_H),
        0x45 => Some(Opcode::Ld_B_L),
        0x46 => Some(Opcode::Ld_B_HLref),
        0x47 => Some(Opcode::Ld_B_A),
        0x48 => Some(Opcode::Ld_C_B),
        0x49 => Some(Opcode::Ld_C_C),
        0x4A => Some(Opcode::Ld_C_D),
        0x4B => Some(Opcode::Ld_C_E),
        0x4C => Some(Opcode::Ld_C_H),
        0x4D => Some(Opcode::Ld_C_L),
        0x4E => Some(Opcode::Ld_C_HLref),
        0x4F => Some(Opcode::Ld_C_A),
        0x50 => Some(Opcode::Ld_D_B),
        0x51 => Some(Opcode::Ld_D_C),
        0x52 => Some(Opcode::Ld_D_D),
        0x53 => Some(Opcode::Ld_D_E),
        0x54 => Some(Opcode::Ld_D_H),
        0x55 => Some(Opcode::Ld_D_L),
        0x56 => Some(Opcode::Ld_D_HLref),
        0x57 => Some(Opcode::Ld_D_A),
        0x58 => Some(Opcode::Ld_E_B),
        0x59 => Some(Opcode::Ld_E_C),
        0x5A => Some(Opcode::Ld_E_D),
        0x5B => Some(Opcode::Ld_E_E),
        0x5C => Some(Opcode::Ld_E_H),
        0x5D => Some(Opcode::Ld_E_L),
        0x5E => Some(Opcode::Ld_E_HLref),
        0x5F => Some(Opcode::Ld_E_A),
        0x60 => Some(Opcode::Ld_H_B),
        0x61 => Some(Opcode::Ld_H_C),
        0x62 => Some(Opcode::Ld_H_D),
        0x63 => Some(Opcode::Ld_H_E),
        0x64 => Some(Opcode::Ld_H_H),
        0x65 => Some(Opcode::Ld_H_L),
        0x66 => Some(Opcode::Ld_H_HLref),
        0x67 => Some(Opcode::Ld_H_A),
        0x68 => Some(Opcode::Ld_L_B),
        0x69 => Some(Opcode::Ld_L_C),
        0x6A => Some(Opcode::Ld_L_D),
        0x6B => Some(Opcode::Ld_L_E),
        0x6C => Some(Opcode::Ld_L_H),
        0x6D => Some(Opcode::Ld_L_L),
        0x6E => Some(Opcode::Ld_L_HLref),
        0x6F => Some(Opcode::Ld_L_A),
        0x70 => Some(Opcode::Ld_HLref_B),
        0x71 => Some(Opcode::Ld_HLref_C),
        0x72 => Some(Opcode::Ld_HLref_D),
        0x73 => Some(Opcode::Ld_HLref_E),
        0x74 => Some(Opcode::Ld_HLref_H),
        0x75 => Some(Opcode::Ld_HLref_L),
        0x76 => Some(Opcode::Halt),
        0x77 => Some(Opcode::Ld_HLref_A),
        0x78 => Some(Opcode::Ld_A_B),
        0x79 => Some(Opcode::Ld_A_C),
        0x7A => Some(Opcode::Ld_A_D),
        0x7B => Some(Opcode::Ld_A_E),
        0x7C => Some(Opcode::Ld_A_H),
        0x7D => Some(Opcode::Ld_A_L),
        0x7E => Some(Opcode::Ld_A_HLref),
        0x7F => Some(Opcode::Ld_A_A),
        0x80 => Some(Opcode::Add_A_B),
        0x81 => Some(Opcode::Add_A_C),
        0x82 => Some(Opcode::Add_A_D),
        0x83 => Some(Opcode::Add_A_E),
        0x84 => Some(Opcode::Add_A_H),
        0x85 => Some(Opcode::Add_A_L),
        0x86 => Some(Opcode::Add_A_HLref),
        0x87 => Some(Opcode::Add_A_A),
        0x88 => Some(Opcode::Adc_A_B),
        0x89 => Some(Opcode::Adc_A_C),
        0x8A => Some(Opcode::Adc_A_D),
        0x8B => Some(Opcode::Adc_A_E),
        0x8C => Some(Opcode::Adc_A_H),
        0x8D => Some(Opcode::Adc_A_L),
        0x8E => Some(Opcode::Adc_A_HLref),
        0x8F => Some(Opcode::Adc_A_A),
        0x90 => Some(Opcode::Sub_A_B),
        0x91 => Some(Opcode::Sub_A_C),
        0x92 => Some(Opcode::Sub_A_D),
        0x93 => Some(Opcode::Sub_A_E),
        0x94 => Some(Opcode::Sub_A_H),
        0x95 => Some(Opcode::Sub_A_L),
        0x96 => Some(Opcode::Sub_A_HLref),
        0x97 => Some(Opcode::Sub_A_A),
        0x98 => Some(Opcode::Sbc_A_B),
        0x99 => Some(Opcode::Sbc_A_C),
        0x9A => Some(Opcode::Sbc_A_D),
        0x9B => Some(Opcode::Sbc_A_E),
        0x9C => Some(Opcode::Sbc_A_H),
        0x9D => Some(Opcode::Sbc_A_L),
        0x9E => Some(Opcode::Sbc_A_HLref),
        0x9F => Some(Opcode::Sbc_A_A),
        0xA0 => Some(Opcode::And_A_B),
        0xA1 => Some(Opcode::And_A_C),
        0xA2 => Some(Opcode::And_A_D),
        0xA3 => Some(Opcode::And_A_E),
        0xA4 => Some(Opcode::And_A_H),
        0xA5 => Some(Opcode::And_A_L),
        0xA6 => Some(Opcode::And_A_HLref),
        0xA7 => Some(Opcode::And_A_A),
        0xA8 => Some(Opcode::Xor_A_B),
        0xA9 => Some(Opcode::Xor_A_C),
        0xAA => Some(Opcode::Xor_A_D),
        0xAB => Some(Opcode::Xor_A_E),
        0xAC => Some(Opcode::Xor_A_H),
        0xAD => Some(Opcode::Xor_A_L),
        0xAE => Some(Opcode::Xor_A_HLref),
        0xAF => Some(Opcode::Xor_A_A),
        0xB0 => Some(Opcode::Or_A_B),
        0xB1 => Some(Opcode::Or_A_C),
        0xB2 => Some(Opcode::Or_A_D),
        0xB3 => Some(Opcode::Or_A_E),
        0xB4 => Some(Opcode::Or_A_H),
        0xB5 => Some(Opcode::Or_A_L),
        0xB6 => Some(Opcode::Or_A_HLref),
        0xB7 => Some(Opcode::Or_A_A),
        0xB8 => Some(Opcode::Cp_A_B),
        0xB9 => Some(Opcode::Cp_A_C),
        0xBA => Some(Opcode::Cp_A_D),
        0xBB => Some(Opcode::Cp_A_E),
        0xBC => Some(Opcode::Cp_A_H),
        0xBD => Some(Opcode::Cp_A_L),
        0xBE => Some(Opcode::Cp_A_HLref),
        0xBF => Some(Opcode::Cp_A_A),
        0xC0 => Some(Opcode::Ret_Nz),
        0xC1 => Some(Opcode::Pop_Bc),
        0xC2 => Some(Opcode::Jp_Nz_a16),
        0xC3 => Some(Opcode::Jp_a16),
        0xC4 => Some(Opcode::Call_Nz_a16),
        0xC5 => Some(Opcode::Push_Bc),
        0xC6 => Some(Opcode::Add_A_d8),
        0xC7 => Some(Opcode::Rst_00),
        0xC8 => Some(Opcode::Ret_Z),
        0xC9 => Some(Opcode::Ret),
        0xCA => Some(Opcode::Jp_Z_a16),
        0xCB => Some(Opcode::Prefix_Cb),
        0xCC => Some(Opcode::Call_Z_a16),
        0xCD => Some(Opcode::Call_a16),
        0xCE => Some(Opcode::Adc_A_d8),
        0xCF => Some(Opcode::Rst_08),
        0xD0 => Some(Opcode::Ret_Nc),
        0xD1 => Some(Opcode::Pop_De),
        0xD2 => Some(Opcode::Jp_Nc_a16),
        0xD4 => Some(Opcode::Call_Nc_a16),
        0xD5 => Some(Opcode::Push_De),
        0xD6 => Some(Opcode::Sub_A_d8),
        0xD7 => Some(Opcode::Rst_10),
        0xD8 => Some(Opcode::Ret_C),
        0xD9 => Some(Opcode::Reti),
        0xDA => Some(Opcode::Jp_C_a16),
        0xDC => Some(Opcode::Call_C_a16),
        0xDE => Some(Opcode::Sbc_A_d8),
        0xDF => Some(Opcode::Rst_18),
        0xE0 => Some(Opcode::Ldh_a8ref_A),
        0xE1 => Some(Opcode::Pop_Hl),
        0xE2 => Some(Opcode::Ld_Cref_A),
        0xE5 => Some(Opcode::Push_Hl),
        0xE6 => Some(Opcode::And_A_d8),
        0xE7 => Some(Opcode::Rst_20),
        0xE8 => Some(Opcode::Add_Sp_r8),
        0xE9 => Some(Opcode::Jp_Hl),
        0xEA => Some(Opcode::Ld_a16ref_A),
        0xEE => Some(Opcode::Xor_A_d8),
        0xEF => Some(Opcode::Rst_28),
        0xF0 => Some(Opcode::Ldh_A_a8ref),
        0xF1 => Some(Opcode::Pop_Af),
        0xF2 => Some(Opcode::Ld_A_Cref),
        0xF3 => Some(Opcode::Di),
        0xF5 => Some(Opcode::Push_Af),
        0xF6 => Some(Opcode::Or_A_d8),
        0xF7 => Some(Opcode::Rst_30),
        0xF8 => Some(Opcode::Ld_Hl_SpPlusr8),
        0xF9 => Some(Opcode::Ld_Sp_Hl),
        0xFA => Some(Opcode::Ld_A_a16ref),
        0xFB => Some(Opcode::Ei),
        0xFE => Some(Opcode::Cp_A_d8),
        0xFF => Some(Opcode::Rst_38),
            _ => None,
        }
    }
}

} // verus!
