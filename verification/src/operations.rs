//! The instruction-operand taxonomy: operand addressing kinds, operation
//! shapes and their numeric decodings. Data description only; no encoder,
//! decoder or interpreter lives here.

use vstd::prelude::*;

verus! {

/// The ways a numeric operation code can fail to decode.
#[derive(Debug, Eq, PartialEq, Structural)]
pub enum UndefinedOperation {
    OpType,
    Kind,
    Variant,
    Mode,
    ParameterMode,
}

/// An instruction operand.
#[derive(Debug, Eq, PartialEq, Structural)]
pub enum Operand {
    /// Local variable.
    ///
    /// Expressed as `x` or `loc(12)`.
    Loc(usize),
    /// Indirection access.
    ///
    /// Expressed as `*x` or `ind(12)`.
    Ind(usize),
    /// Return variable.
    ///
    /// Expressed as `^x` or `ret(12)`.
    Ret(usize),
    /// Constant value.
    ///
    /// Expressed as `12` or `val(12)`.
    Val(usize),
    /// Variable reference.
    ///
    /// Expressed as `&x` or `ref(12)`.
    Ref(usize),
    /// Empty.
    ///
    /// Expressed as `emp`.
    Emp,
}

impl Operand {
    /// Decodes an operand from its value and addressing kind.
    pub fn new(value: usize, kind: u8) -> (r: Result<Self, UndefinedOperation>)
        ensures
            (r == match kind {
                0u8 => Ok::<Operand, UndefinedOperation>(Operand::Loc(value)),
                1u8 => Ok::<Operand, UndefinedOperation>(Operand::Ind(value)),
                2u8 => Ok::<Operand, UndefinedOperation>(Operand::Ret(value)),
                3u8 => Ok::<Operand, UndefinedOperation>(Operand::Val(value)),
                4u8 => Ok::<Operand, UndefinedOperation>(Operand::Ref(value)),
                5u8 => Ok::<Operand, UndefinedOperation>(Operand::Emp),
                _ => Err::<Operand, UndefinedOperation>(UndefinedOperation::Kind),
            }),
    {
        Ok(
            match kind {
                0 => Operand::Loc(value),
                1 => Operand::Ind(value),
                2 => Operand::Ret(value),
                3 => Operand::Val(value),
                4 => Operand::Ref(value),
                5 => Operand::Emp,
                _ => {
                    return Err(UndefinedOperation::Kind);
                },
            },
        )
    }
}

/// A unary operation's operand and optional offset.
#[derive(Debug, Eq, PartialEq, Structural)]
pub struct UnOp {
    x: Operand,
    x_offset: Option<Operand>,
}

impl View for UnOp {
    type V = (Operand, Option<Operand>);

    /// The operand and its offset.
    closed spec fn view(&self) -> (Operand, Option<Operand>) {
        (self.x, self.x_offset)
    }
}

impl UnOp {
    /// A unary operation on `x`, with no offset.
    pub fn new(x: Operand) -> (r: Self)
        ensures
            r@ == (x, Option::<Operand>::None),
    {
        UnOp { x, x_offset: None }
    }

    /// The same operation with the offset of `x` set.
    pub fn with_x_offset(self, x_offset: Operand) -> (r: Self)
        ensures
            r@ == (self@.0, Some(x_offset)),
    {
        UnOp { x: self.x, x_offset: Some(x_offset) }
    }
}

/// A binary operation's operands and optional offsets.
#[derive(Debug, Eq, PartialEq, Structural)]
pub struct BinOp {
    x: Operand,
    x_offset: Option<Operand>,
    y: Operand,
    y_offset: Option<Operand>,
}

impl View for BinOp {
    type V = (Operand, Option<Operand>, Operand, Option<Operand>);

    /// The two operands and their offsets.
    closed spec fn view(&self) -> (Operand, Option<Operand>, Operand, Option<Operand>) {
        (self.x, self.x_offset, self.y, self.y_offset)
    }
}

impl BinOp {
    /// A binary operation on `x` and `y`, with no offsets.
    pub fn new(x: Operand, y: Operand) -> (r: Self)
        ensures
            r@ == (x, Option::<Operand>::None, y, Option::<Operand>::None),
    {
        BinOp { x, x_offset: None, y, y_offset: None }
    }

    /// The same operation with the offset of `x` set.
    pub fn with_x_offset(self, x_offset: Operand) -> (r: Self)
        ensures
            r@ == (self@.0, Some(x_offset), self@.2, self@.3),
    {
        BinOp { x: self.x, x_offset: Some(x_offset), y: self.y, y_offset: self.y_offset }
    }

    /// The same operation with the offset of `y` set.
    pub fn with_y_offset(self, y_offset: Operand) -> (r: Self)
        ensures
            r@ == (self@.0, self@.1, self@.2, Some(y_offset)),
    {
        BinOp { x: self.x, x_offset: self.x_offset, y: self.y, y_offset: Some(y_offset) }
    }
}

/// An instruction: an operation together with its operands and modes.
#[derive(Debug, Eq, PartialEq, Structural)]
pub enum Op {
    Nop,
    End(UnOp),
    Slp(UnOp),
    Assign(BinOp, OpType),
    Add(BinOp, OpType, Mode),
    Sub(BinOp, OpType, Mode),
    Mul(BinOp, OpType, Mode),
    Div(BinOp, OpType),
    Mod(BinOp, OpType),
    Shl(BinOp, OpType, Mode),
    Shr(BinOp, OpType, Mode),
    And(BinOp, OpType),
    Or(BinOp, OpType),
    Xor(BinOp, OpType),
    Not(UnOp, OpType),
    Neg(UnOp, OpType, Mode),
    Inc(UnOp, OpType, Mode),
    Dec(UnOp, OpType, Mode),
    Psf(UnOp),
    Par(UnOp, OpType, ParameterMode),
    Cfn(UnOp),
}

/// The full specification of an operation's behavior.
#[derive(Debug, Eq, PartialEq, Structural)]
pub struct Spec {
    pub op_type: OpType,
    pub mode: Mode,
    pub variant: Variant,
}

/// The operand types an operation can work on.
#[derive(Debug, Eq, PartialEq, Structural)]
pub enum OpType {
    U8,
    I8,
    U16,
    I16,
    U32,
    I32,
    U64,
    I64,
    Uw,
    Iw,
    F32,
    F64,
}

impl OpType {
    /// Decodes an operand type from its numeric code.
    pub fn new(value: u8) -> (r: Result<Self, UndefinedOperation>)
        ensures
            (r == match value {
                0u8 => Ok::<OpType, UndefinedOperation>(OpType::U8),
                1u8 => Ok::<OpType, UndefinedOperation>(OpType::I8),
                2u8 => Ok::<OpType, UndefinedOperation>(OpType::U16),
                3u8 => Ok::<OpType, UndefinedOperation>(OpType::I16),
                4u8 => Ok::<OpType, UndefinedOperation>(OpType::U32),
                5u8 => Ok::<OpType, UndefinedOperation>(OpType::I32),
                6u8 => Ok::<OpType, UndefinedOperation>(OpType::U64),
                7u8 => Ok::<OpType, UndefinedOperation>(OpType::I64),
                8u8 => Ok::<OpType, UndefinedOperation>(OpType::Uw),
                9u8 => Ok::<OpType, UndefinedOperation>(OpType::Iw),
                11u8 => Ok::<OpType, UndefinedOperation>(OpType::F32),
                13u8 => Ok::<OpType, UndefinedOperation>(OpType::F64),
                _ => Err::<OpType, UndefinedOperation>(UndefinedOperation::OpType),
            }),
    {
        Ok(
            match value {
                0 => OpType::U8,
                1 => OpType::I8,
                2 => OpType::U16,
                3 => OpType::I16,
                4 => OpType::U32,
                5 => OpType::I32,
                6 => OpType::U64,
                7 => OpType::I64,
                8 => OpType::Uw,
                9 => OpType::Iw,
                11 => OpType::F32,
                13 => OpType::F64,
                _ => {
                    return Err(UndefinedOperation::OpType);
                },
            },
        )
    }
}

/// How an arithmetic operation treats overflow.
#[derive(Debug, Eq, PartialEq, Structural)]
pub enum Mode {
    /// Wrapping mode.
    Wrap,
    /// Saturating mode.
    Sat,
    /// Wide mode.
    Wide,
    /// Handling mode.
    Hand,
}

impl Mode {
    /// Decodes an overflow mode from its numeric code.
    pub fn new(value: u8) -> (r: Result<Self, UndefinedOperation>)
        ensures
            (r == match value {
                0u8 => Ok::<Mode, UndefinedOperation>(Mode::Wrap),
                1u8 => Ok::<Mode, UndefinedOperation>(Mode::Sat),
                2u8 => Ok::<Mode, UndefinedOperation>(Mode::Wide),
                3u8 => Ok::<Mode, UndefinedOperation>(Mode::Hand),
                _ => Err::<Mode, UndefinedOperation>(UndefinedOperation::Mode),
            }),
    {
        Ok(
            match value {
                0 => Mode::Wrap,
                1 => Mode::Sat,
                2 => Mode::Wide,
                3 => Mode::Hand,
                _ => {
                    return Err(UndefinedOperation::Mode);
                },
            },
        )
    }
}

impl Default for Mode {
    /// Wrapping is the default mode.
    fn default() -> (r: Self)
        ensures
            r == Mode::Wrap,
    {
        Mode::Wrap
    }
}

/// Which of an operation's operands carry offsets.
#[derive(Copy, Clone, Debug, Eq, PartialEq, Structural)]
pub enum Variant {
    /// `x y` variant.
    XY,
    /// `x:q y` variant.
    XOffsetY,
    /// `x y:q` variant.
    XYOffset,
    /// `x:q y:w` variant.
    XOffsetYOffset,
}

impl Variant {
    /// Decodes an operand variant from its numeric code.
    pub fn new(variant: u8) -> (r: Result<Self, UndefinedOperation>)
        ensures
            (r == match variant {
                0u8 => Ok::<Variant, UndefinedOperation>(Variant::XY),
                1u8 => Ok::<Variant, UndefinedOperation>(Variant::XOffsetY),
                2u8 => Ok::<Variant, UndefinedOperation>(Variant::XYOffset),
                3u8 => Ok::<Variant, UndefinedOperation>(Variant::XOffsetYOffset),
                _ => Err::<Variant, UndefinedOperation>(UndefinedOperation::Variant),
            }),
    {
        Ok(
            match variant {
                0 => Variant::XY,
                1 => Variant::XOffsetY,
                2 => Variant::XYOffset,
                3 => Variant::XOffsetYOffset,
                _ => {
                    return Err(UndefinedOperation::Variant);
                },
            },
        )
    }
}

/// How a parameter declaration initializes its memory.
#[derive(Debug, Eq, PartialEq, Structural)]
pub enum ParameterMode {
    /// Set mode.
    Assign,
    /// Empty mode.
    Emp,
    /// Memory set zeroes mode.
    Msz,
}

impl ParameterMode {
    /// Decodes a parameter mode from its numeric code.
    pub fn new(value: u8) -> (r: Result<Self, UndefinedOperation>)
        ensures
            (r == match value {
                0u8 => Ok::<ParameterMode, UndefinedOperation>(ParameterMode::Assign),
                1u8 => Ok::<ParameterMode, UndefinedOperation>(ParameterMode::Emp),
                2u8 => Ok::<ParameterMode, UndefinedOperation>(ParameterMode::Msz),
                _ => Err::<ParameterMode, UndefinedOperation>(UndefinedOperation::ParameterMode),
            }),
    {
        Ok(
            match value {
                0 => ParameterMode::Assign,
                1 => ParameterMode::Emp,
                2 => ParameterMode::Msz,
                _ => {
                    return Err(UndefinedOperation::ParameterMode);
                },
            },
        )
    }
}

} // verus!
