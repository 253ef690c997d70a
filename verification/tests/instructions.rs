use coinbase_puzzle::field::Scalar;
use coinbase_puzzle::group::{GroupElement, GroupScalar};
use coinbase_puzzle::instructions::{Add, InstructionError, Literal, Mul, Operand, Register, Registers, Value};
use coinbase_puzzle::record::Record;
use snarkvm_curves::edwards_bls12::{EdwardsAffine, Fr};
use snarkvm_curves::traits::{AffineCurve, ProjectiveCurve};
use snarkvm_fields::PrimeField;
use snarkvm_utilities::{CanonicalSerialize, ToBytes};

fn field(n: u8) -> Literal {
    let mut bytes = [0u8; 32];
    bytes[0] = n;
    Literal::Field(Scalar { bytes })
}

fn point(p: EdwardsAffine) -> Literal {
    let mut bytes = Vec::new();
    p.serialize_compressed(&mut bytes).unwrap();
    Literal::Group(GroupElement { bytes: bytes.try_into().unwrap() })
}

fn scalar(s: Fr) -> Literal {
    Literal::Scalar(GroupScalar { bytes: s.to_bytes_le().unwrap().try_into().unwrap() })
}

fn registers_with(first: Value, second: Value) -> Registers {
    let mut registers = Registers::new(3);
    registers.assign(&Register { locator: 0 }, first).unwrap();
    registers.assign(&Register { locator: 1 }, second).unwrap();
    registers
}

fn r(locator: u64) -> Operand {
    Operand::Register(Register { locator })
}

#[test]
fn add_holds_operands_and_destination() {
    let first = Operand::Register(Register { locator: 0 });
    let second = Operand::Register(Register { locator: 1 });
    let instruction = Add::new(first, second, Register { locator: 2 });
    assert_eq!(instruction.operands(), vec![first, second]);
    assert_eq!(instruction.destination(), &Register { locator: 2 });
    assert_eq!(Add::opcode(), "add");
}

#[test]
fn mul_holds_operands_and_destination() {
    let first = Operand::Literal(Literal::U8(3));
    let second = Operand::Register(Register { locator: 7 });
    let instruction = Mul::new(first, second, Register { locator: 9 });
    assert_eq!(instruction.operands(), vec![first, second]);
    assert_eq!(instruction.destination(), &Register { locator: 9 });
    assert_eq!(Mul::opcode(), "mul");
}

#[test]
fn add_evaluates_fields_and_integers() {
    let add = Add::new(r(0), r(1), Register { locator: 2 });
    let mut registers = registers_with(Value::Literal(field(1)), Value::Literal(field(2)));
    assert_eq!(add.evaluate(&mut registers), Ok(()));
    assert_eq!(registers.slots[2], Some(Value::Literal(field(3))));
    assert_eq!(registers.slots[0], Some(Value::Literal(field(1))));

    let mut registers = registers_with(Value::Literal(Literal::I8(100)), Value::Literal(Literal::I8(27)));
    assert_eq!(add.evaluate(&mut registers), Ok(()));
    assert_eq!(registers.slots[2], Some(Value::Literal(Literal::I8(127))));

    let mut registers = registers_with(Value::Literal(Literal::I8(-100)), Value::Literal(Literal::I8(-28)));
    assert_eq!(add.evaluate(&mut registers), Ok(()));
    assert_eq!(registers.slots[2], Some(Value::Literal(Literal::I8(-128))));

    let mixed = Add::new(Operand::Literal(Literal::U128(u128::MAX - 1)), r(0), Register { locator: 2 });
    let mut registers = registers_with(Value::Literal(Literal::U128(1)), Value::Literal(Literal::U128(0)));
    assert_eq!(mixed.evaluate(&mut registers), Ok(()));
    assert_eq!(registers.slots[2], Some(Value::Literal(Literal::U128(u128::MAX))));
}

#[test]
fn mul_evaluates_fields_and_integers() {
    let mul = Mul::new(r(0), r(1), Register { locator: 2 });
    let mut registers = registers_with(Value::Literal(field(6)), Value::Literal(field(7)));
    assert_eq!(mul.evaluate(&mut registers), Ok(()));
    assert_eq!(registers.slots[2], Some(Value::Literal(field(42))));

    let mut registers = registers_with(Value::Literal(Literal::U16(255)), Value::Literal(Literal::U16(257)));
    assert_eq!(mul.evaluate(&mut registers), Ok(()));
    assert_eq!(registers.slots[2], Some(Value::Literal(Literal::U16(65535))));

    let mut registers = registers_with(Value::Literal(Literal::I64(-3)), Value::Literal(Literal::I64(5)));
    assert_eq!(mul.evaluate(&mut registers), Ok(()));
    assert_eq!(registers.slots[2], Some(Value::Literal(Literal::I64(-15))));
}

#[test]
fn add_and_mul_evaluate_points_and_scalars() {
    let add = Add::new(r(0), r(1), Register { locator: 2 });
    let mul = Mul::new(r(0), r(1), Register { locator: 2 });
    let g = EdwardsAffine::prime_subgroup_generator();
    let five = (g * Fr::from(5u64)).to_affine();
    let seven = (g * Fr::from(7u64)).to_affine();
    let twelve = (g * Fr::from(12u64)).to_affine();
    let thirty_five = (g * Fr::from(35u64)).to_affine();
    assert_ne!(point(five), point(seven));

    let mut registers = registers_with(Value::Literal(point(five)), Value::Literal(point(seven)));
    assert_eq!(add.evaluate(&mut registers), Ok(()));
    assert_eq!(registers.slots[2], Some(Value::Literal(point(twelve))));
    assert_eq!(mul.evaluate(&mut registers), Err(InstructionError::InvalidInstruction));

    let mut registers = registers_with(Value::Literal(point(five)), Value::Literal(scalar(Fr::from(7u64))));
    assert_eq!(mul.evaluate(&mut registers), Ok(()));
    assert_eq!(registers.slots[2], Some(Value::Literal(point(thirty_five))));
    assert_eq!(add.evaluate(&mut registers), Err(InstructionError::InvalidInstruction));

    let mut registers = registers_with(Value::Literal(scalar(Fr::from(5u64))), Value::Literal(point(seven)));
    assert_eq!(mul.evaluate(&mut registers), Ok(()));
    assert_eq!(registers.slots[2], Some(Value::Literal(point(thirty_five))));

    let last = -Fr::from(1u64);
    let mut registers = registers_with(Value::Literal(scalar(last)), Value::Literal(scalar(Fr::from(3u64))));
    assert_eq!(add.evaluate(&mut registers), Ok(()));
    assert_eq!(registers.slots[2], Some(Value::Literal(scalar(Fr::from(2u64)))));
    assert_eq!(mul.evaluate(&mut registers), Err(InstructionError::InvalidInstruction));

    let broken = Literal::Group(GroupElement { bytes: [0xffu8; 32] });
    let mut registers = registers_with(Value::Literal(broken), Value::Literal(point(seven)));
    assert_eq!(add.evaluate(&mut registers), Err(InstructionError::MalformedLiteral));
    let mut registers = registers_with(Value::Literal(broken), Value::Literal(scalar(Fr::from(3u64))));
    assert_eq!(mul.evaluate(&mut registers), Err(InstructionError::MalformedLiteral));
    let mut registers = registers_with(Value::Literal(point(five)), Value::Literal(field(1)));
    assert_eq!(add.evaluate(&mut registers), Err(InstructionError::InvalidInstruction));
}

#[test]
fn field_arithmetic_wraps_at_the_order() {
    let last = Scalar {
        bytes: [
            0x00, 0x00, 0x00, 0x00, 0x00, 0x80, 0x11, 0x0a, 0x01, 0x00, 0x00, 0xd0, 0xfe, 0x76, 0xaa, 0x59, 0x01,
            0xb0, 0x37, 0x5c, 0x1e, 0x4d, 0xb4, 0x60, 0x56, 0xa5, 0x2c, 0x9a, 0x5e, 0x65, 0xab, 0x12,
        ],
    };
    let add = Add::new(r(0), r(1), Register { locator: 2 });
    let mul = Mul::new(r(0), r(1), Register { locator: 2 });
    let mut registers = registers_with(Value::Literal(Literal::Field(last)), Value::Literal(field(3)));
    assert_eq!(add.evaluate(&mut registers), Ok(()));
    assert_eq!(registers.slots[2], Some(Value::Literal(field(2))));
    let mut registers = registers_with(Value::Literal(Literal::Field(last)), Value::Literal(Literal::Field(last)));
    assert_eq!(mul.evaluate(&mut registers), Ok(()));
    assert_eq!(registers.slots[2], Some(Value::Literal(field(1))));
}

#[test]
fn overflow_is_refused_and_changes_nothing() {
    let add = Add::new(r(0), r(1), Register { locator: 2 });
    let mut registers = registers_with(Value::Literal(Literal::I8(100)), Value::Literal(Literal::I8(28)));
    let before = registers.clone();
    assert_eq!(add.evaluate(&mut registers), Err(InstructionError::Overflow));
    assert_eq!(registers, before);

    let mul = Mul::new(r(0), r(1), Register { locator: 2 });
    let mut registers = registers_with(Value::Literal(Literal::U16(256)), Value::Literal(Literal::U16(256)));
    assert_eq!(mul.evaluate(&mut registers), Err(InstructionError::Overflow));
    let mut registers = registers_with(Value::Literal(Literal::I128(i128::MIN)), Value::Literal(Literal::I128(-1)));
    assert_eq!(mul.evaluate(&mut registers), Err(InstructionError::Overflow));
    assert_eq!(add.evaluate(&mut registers), Err(InstructionError::Overflow));
}

#[test]
fn invalid_operands_are_refused() {
    let add = Add::new(r(0), r(1), Register { locator: 2 });
    let mul = Mul::new(r(0), r(1), Register { locator: 2 });
    let mut registers = registers_with(Value::Literal(Literal::Boolean(true)), Value::Literal(Literal::Boolean(true)));
    assert_eq!(add.evaluate(&mut registers), Err(InstructionError::InvalidInstruction));
    assert_eq!(mul.evaluate(&mut registers), Err(InstructionError::InvalidInstruction));
    let mut registers = registers_with(Value::Literal(Literal::U8(1)), Value::Literal(Literal::I8(1)));
    assert_eq!(add.evaluate(&mut registers), Err(InstructionError::InvalidInstruction));
    let mut registers = registers_with(Value::Literal(Literal::U8(1)), Value::Literal(Literal::U16(1)));
    assert_eq!(mul.evaluate(&mut registers), Err(InstructionError::InvalidInstruction));
    let mut registers = registers_with(Value::Literal(field(1)), Value::Literal(Literal::U16(1)));
    assert_eq!(add.evaluate(&mut registers), Err(InstructionError::InvalidInstruction));
}

#[test]
fn add_test_definition_halts() {
    let first = Value::Definition("message");
    let mut registers = registers_with(first, first);
    let before = registers.clone();
    let add = Add::new(r(0), r(1), Register { locator: 2 });
    assert_eq!(add.evaluate(&mut registers), Err(InstructionError::NotALiteral("message")));
    assert_eq!(registers, before);
}

#[test]
fn mul_test_definition_halts() {
    let first = Value::Definition("message");
    let mut registers = registers_with(Value::Literal(Literal::U8(2)), first);
    let mul = Mul::new(r(0), r(1), Register { locator: 2 });
    assert_eq!(mul.evaluate(&mut registers), Err(InstructionError::NotALiteral("message")));
}

#[test]
fn missing_registers_are_refused() {
    let mut registers = Registers::new(2);
    assert_eq!(registers.slots, vec![None, None]);
    let add = Add::new(r(0), r(1), Register { locator: 1 });
    assert_eq!(add.evaluate(&mut registers), Err(InstructionError::UnassignedRegister(0)));
    registers.assign(&Register { locator: 0 }, Value::Literal(Literal::U8(1))).unwrap();
    assert_eq!(add.evaluate(&mut registers), Err(InstructionError::UnassignedRegister(1)));
    let far = Add::new(r(0), r(5), Register { locator: 1 });
    assert_eq!(far.evaluate(&mut registers), Err(InstructionError::UnassignedRegister(5)));
    let nowhere = Add::new(r(0), r(0), Register { locator: 2 });
    assert_eq!(nowhere.evaluate(&mut registers), Err(InstructionError::UndefinedRegister(2)));
    assert_eq!(
        registers.assign(&Register { locator: 2 }, Value::Literal(Literal::U8(1))),
        Err(InstructionError::UndefinedRegister(2))
    );
    let doubled = Add::new(r(0), r(0), Register { locator: 1 });
    assert_eq!(doubled.evaluate(&mut registers), Ok(()));
    assert_eq!(registers.load_literal(&r(1)), Ok(Literal::U8(2)));
}

#[test]
fn test_record() {
    let first = field(10);
    let second = Literal::Boolean(true);
    let third = Literal::I64(99);
    let mut owner = [0u8; 32];
    owner[0] = 2;
    let candidate = Record { owner, value: 1, data: vec![first, second, third] };
    assert_eq!(candidate.owner(), &owner);
    assert_eq!(candidate.balance(), &1i64);
    assert_eq!(candidate.data(), &vec![first, second, third]);
}
