//! The raw byte codes of the instruction set.

use vstd::prelude::*;

verus! {

pub const NOP: u8 = 0x00;

pub const END: u8 = 0x01;

pub const SLP: u8 = 0x02;

pub const SET: u8 = 0x03;

pub const ADD: u8 = 0x04;

pub const SUB: u8 = 0x05;

pub const MUL: u8 = 0x06;

pub const DIV: u8 = 0x07;

pub const MOD: u8 = 0x08;

pub const SHL: u8 = 0x09;

pub const SHR: u8 = 0x0A;

pub const AND: u8 = 0x0B;

pub const OR: u8 = 0x0C;

pub const XOR: u8 = 0x0D;

pub const NOT: u8 = 0x0E;

pub const NEG: u8 = 0x0F;

pub const INC: u8 = 0x10;

pub const DEC: u8 = 0x11;

pub const PSF: u8 = 0x20;

pub const PAR: u8 = 0x21;

pub const CFN: u8 = 0x22;

} // verus!
