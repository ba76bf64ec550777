use ni::operations::{
    BinOp, Mode, OpType, Operand, ParameterMode, UnOp, UndefinedOperation, Variant,
};

#[test]
fn operand_kinds() {
    assert_eq!(Operand::new(12, 0), Ok(Operand::Loc(12)));
    assert_eq!(Operand::new(12, 1), Ok(Operand::Ind(12)));
    assert_eq!(Operand::new(12, 2), Ok(Operand::Ret(12)));
    assert_eq!(Operand::new(12, 3), Ok(Operand::Val(12)));
    assert_eq!(Operand::new(12, 4), Ok(Operand::Ref(12)));
    assert_eq!(Operand::new(12, 5), Ok(Operand::Emp));
    assert_eq!(Operand::new(12, 6), Err(UndefinedOperation::Kind));
}

#[test]
fn op_types() {
    assert_eq!(OpType::new(0), Ok(OpType::U8));
    assert_eq!(OpType::new(9), Ok(OpType::Iw));
    assert_eq!(OpType::new(11), Ok(OpType::F32));
    assert_eq!(OpType::new(13), Ok(OpType::F64));
    assert_eq!(OpType::new(10), Err(UndefinedOperation::OpType));
    assert_eq!(OpType::new(12), Err(UndefinedOperation::OpType));
    assert_eq!(OpType::new(14), Err(UndefinedOperation::OpType));
}

#[test]
fn modes() {
    assert_eq!(Mode::new(0), Ok(Mode::Wrap));
    assert_eq!(Mode::new(1), Ok(Mode::Sat));
    assert_eq!(Mode::new(2), Ok(Mode::Wide));
    assert_eq!(Mode::new(3), Ok(Mode::Hand));
    assert_eq!(Mode::new(4), Err(UndefinedOperation::Mode));
    assert_eq!(Mode::default(), Mode::Wrap);
}

#[test]
fn variants() {
    assert_eq!(Variant::new(0), Ok(Variant::XY));
    assert_eq!(Variant::new(1), Ok(Variant::XOffsetY));
    assert_eq!(Variant::new(2), Ok(Variant::XYOffset));
    assert_eq!(Variant::new(3), Ok(Variant::XOffsetYOffset));
    assert_eq!(Variant::new(4), Err(UndefinedOperation::Variant));
}

#[test]
fn parameter_modes() {
    assert_eq!(ParameterMode::new(0), Ok(ParameterMode::Assign));
    assert_eq!(ParameterMode::new(1), Ok(ParameterMode::Emp));
    assert_eq!(ParameterMode::new(2), Ok(ParameterMode::Msz));
    assert_eq!(ParameterMode::new(3), Err(UndefinedOperation::ParameterMode));
}

#[test]
fn operation_builders() {
    let un = UnOp::new(Operand::Loc(1));
    let un_with = UnOp::new(Operand::Loc(1)).with_x_offset(Operand::Val(2));
    assert_eq!(un, UnOp::new(Operand::Loc(1)));
    assert_ne!(un, un_with);

    let bin = BinOp::new(Operand::Loc(1), Operand::Val(2));
    let bin_x = BinOp::new(Operand::Loc(1), Operand::Val(2)).with_x_offset(Operand::Val(3));
    let bin_xy = BinOp::new(Operand::Loc(1), Operand::Val(2))
        .with_x_offset(Operand::Val(3))
        .with_y_offset(Operand::Val(4));
    assert_ne!(bin, bin_x);
    assert_ne!(bin_x, bin_xy);
}
