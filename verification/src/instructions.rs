use vstd::prelude::*;
use crate::field::{field_modulus, scalar_add, scalar_mul, Scalar};
use crate::group::{
    group_add, group_mul, group_order, group_product, group_scalar_add, group_sum, GroupElement, GroupScalar,
};

verus! {

/// A register of a function, named by its number.
#[derive(Clone, Copy, Debug, PartialEq, Eq, Structural)]
pub struct Register {
    pub locator: u64,
}

/// A literal with its type: a truth value, a field element, a point of the group, a
/// scalar of the group, or an integer.
#[derive(Clone, Copy, Debug, PartialEq, Eq)]
pub enum Literal {
    Boolean(bool),
    Field(Scalar),
    Group(GroupElement),
    Scalar(GroupScalar),
    I8(i8),
    I16(i16),
    I32(i32),
    I64(i64),
    I128(i128),
    U8(u8),
    U16(u16),
    U32(u32),
    U64(u64),
    U128(u128),
}

/// What an instruction reads: a literal, or the value of a register.
#[derive(Clone, Copy, Debug, PartialEq, Eq)]
pub enum Operand {
    Literal(Literal),
    Register(Register),
}

/// What a register holds: a literal, or a composite value known by its name.
#[derive(Clone, Copy, Debug, PartialEq, Eq)]
pub enum Value {
    Literal(Literal),
    Definition(&'static str),
}

/// Why an instruction could not be evaluated.
#[derive(Clone, Copy, Debug, PartialEq, Eq)]
pub enum InstructionError {
    /// An operand names a register that holds nothing.
    UnassignedRegister(u64),
    /// An operand is the named composite value and no literal.
    NotALiteral(&'static str),
    /// The operation is not defined on the two literals' types.
    InvalidInstruction,
    /// A literal does not hold the encoding of a point of the group.
    MalformedLiteral,
    /// The integer outcome does not fit the literals' type.
    Overflow,
    /// The destination register does not exist.
    UndefinedRegister(u64),
}

/// A literal as a plain value: a truth value, a field element below the field's
/// order, the encoding of a point, a scalar below the group's order, or an integer
/// with its signedness and width.
pub ghost enum LiteralView {
    Boolean(bool),
    Field(nat),
    Group(Seq<u8>),
    Scalar(nat),
    Integer { signed: bool, bits: nat, value: int },
}

impl View for Literal {
    type V = LiteralView;

    open spec fn view(&self) -> LiteralView {
        match *self {
            Literal::Boolean(b) => LiteralView::Boolean(b),
            Literal::Field(s) => LiteralView::Field(s.value()),
            Literal::Group(g) => LiteralView::Group(g.bytes@),
            Literal::Scalar(s) => LiteralView::Scalar(s.value()),
            Literal::I8(v) => LiteralView::Integer { signed: true, bits: 8, value: v as int },
            Literal::I16(v) => LiteralView::Integer { signed: true, bits: 16, value: v as int },
            Literal::I32(v) => LiteralView::Integer { signed: true, bits: 32, value: v as int },
            Literal::I64(v) => LiteralView::Integer { signed: true, bits: 64, value: v as int },
            Literal::I128(v) => LiteralView::Integer { signed: true, bits: 128, value: v as int },
            Literal::U8(v) => LiteralView::Integer { signed: false, bits: 8, value: v as int },
            Literal::U16(v) => LiteralView::Integer { signed: false, bits: 16, value: v as int },
            Literal::U32(v) => LiteralView::Integer { signed: false, bits: 32, value: v as int },
            Literal::U64(v) => LiteralView::Integer { signed: false, bits: 64, value: v as int },
            Literal::U128(v) => LiteralView::Integer { signed: false, bits: 128, value: v as int },
        }
    }
}

impl Literal {
    /// A field element or a scalar is held in its canonical encoding.
    pub open spec fn canonical(&self) -> bool {
        match *self {
            Literal::Field(s) => s.canonical(),
            Literal::Scalar(s) => s.canonical(),
            _ => true,
        }
    }
}

/// The least value of an integer type.
pub open spec fn integer_min(signed: bool, bits: nat) -> int {
    if !signed {
        0
    } else if bits == 8 {
        i8::MIN as int
    } else if bits == 16 {
        i16::MIN as int
    } else if bits == 32 {
        i32::MIN as int
    } else if bits == 64 {
        i64::MIN as int
    } else {
        i128::MIN as int
    }
}

/// The greatest value of an integer type.
pub open spec fn integer_max(signed: bool, bits: nat) -> int {
    if bits == 8 {
        if signed { i8::MAX as int } else { u8::MAX as int }
    } else if bits == 16 {
        if signed { i16::MAX as int } else { u16::MAX as int }
    } else if bits == 32 {
        if signed { i32::MAX as int } else { u32::MAX as int }
    } else if bits == 64 {
        if signed { i64::MAX as int } else { u64::MAX as int }
    } else {
        if signed { i128::MAX as int } else { u128::MAX as int }
    }
}

/// The outcome of storing a point that the group's arithmetic returned, which
/// returns none where an operand is no point of the group.
pub open spec fn point_outcome(point: Option<Seq<u8>>) -> Result<LiteralView, InstructionError> {
    match point {
        Some(p) => Ok(LiteralView::Group(p)),
        None => Err(InstructionError::MalformedLiteral),
    }
}

/// The outcome of adding (`multiply` false) or multiplying (`multiply` true) two
/// literals: on two field elements the operation of the field; on two points, or
/// two scalars, their sum and no product; on a point and a scalar, in either order,
/// their product and no sum; on two integers of one type the checked operation of
/// that type; on anything else none.
pub open spec fn combine(a: LiteralView, b: LiteralView, multiply: bool) -> Result<LiteralView, InstructionError> {
    match (a, b) {
        (LiteralView::Field(x), LiteralView::Field(y)) => Ok(
            LiteralView::Field(if multiply { (x * y) % field_modulus() } else { (x + y) % field_modulus() }),
        ),
        (LiteralView::Group(x), LiteralView::Group(y)) => {
            if multiply {
                Err(InstructionError::InvalidInstruction)
            } else {
                point_outcome(group_sum(x, y))
            }
        },
        (LiteralView::Scalar(x), LiteralView::Scalar(y)) => {
            if multiply {
                Err(InstructionError::InvalidInstruction)
            } else {
                Ok(LiteralView::Scalar((x + y) % group_order()))
            }
        },
        (LiteralView::Group(x), LiteralView::Scalar(y)) => {
            if multiply {
                point_outcome(group_product(x, y))
            } else {
                Err(InstructionError::InvalidInstruction)
            }
        },
        (LiteralView::Scalar(x), LiteralView::Group(y)) => {
            if multiply {
                point_outcome(group_product(y, x))
            } else {
                Err(InstructionError::InvalidInstruction)
            }
        },
        (
            LiteralView::Integer { signed, bits, value: x },
            LiteralView::Integer { signed: signed_b, bits: bits_b, value: y },
        ) => {
            let value = if multiply { x * y } else { x + y };
            if signed != signed_b || bits != bits_b {
                Err(InstructionError::InvalidInstruction)
            } else if value < integer_min(signed, bits) || value > integer_max(signed, bits) {
                Err(InstructionError::Overflow)
            } else {
                Ok(LiteralView::Integer { signed, bits, value })
            }
        },
        _ => Err(InstructionError::InvalidInstruction),
    }
}

fn settle_point(point: Option<GroupElement>) -> (r: Result<Literal, InstructionError>)
    ensures
        match r {
            Ok(l) => point_outcome(crate::group::opt_point(point)) == Ok::<LiteralView, InstructionError>(l@)
                && l.canonical(),
            Err(e) => point_outcome(crate::group::opt_point(point)) == Err::<LiteralView, InstructionError>(e),
        },
{
    match point {
        Some(p) => Ok(Literal::Group(p)),
        None => Err(InstructionError::MalformedLiteral),
    }
}

fn settle<T>(outcome: Option<T>) -> (r: Result<T, InstructionError>)
    ensures
        match outcome {
            Some(v) => r == Ok::<T, InstructionError>(v),
            None => r == Err::<T, InstructionError>(InstructionError::Overflow),
        },
{
    match outcome {
        Some(v) => Ok(v),
        None => Err(InstructionError::Overflow),
    }
}

/// Adds or multiplies two literals.
pub fn combine_literals(a: Literal, b: Literal, multiply: bool) -> (r: Result<Literal, InstructionError>)
    ensures
        match r {
            Ok(l) => combine(a@, b@, multiply) == Ok::<LiteralView, InstructionError>(l@) && l.canonical(),
            Err(e) => combine(a@, b@, multiply) == Err::<LiteralView, InstructionError>(e),
        },
{
    match (a, b) {
        (Literal::Field(x), Literal::Field(y)) => Ok(
            Literal::Field(if multiply { scalar_mul(x, y) } else { scalar_add(x, y) }),
        ),
        (Literal::Group(x), Literal::Group(y)) => {
            if multiply {
                Err(InstructionError::InvalidInstruction)
            } else {
                settle_point(group_add(x, y))
            }
        },
        (Literal::Scalar(x), Literal::Scalar(y)) => {
            if multiply {
                Err(InstructionError::InvalidInstruction)
            } else {
                Ok(Literal::Scalar(group_scalar_add(x, y)))
            }
        },
        (Literal::Group(x), Literal::Scalar(y)) => {
            if multiply {
                settle_point(group_mul(x, y))
            } else {
                Err(InstructionError::InvalidInstruction)
            }
        },
        (Literal::Scalar(x), Literal::Group(y)) => {
            if multiply {
                settle_point(group_mul(y, x))
            } else {
                Err(InstructionError::InvalidInstruction)
            }
        },
        (Literal::I8(x), Literal::I8(y)) => match settle(if multiply { x.checked_mul(y) } else { x.checked_add(y) }) {
            Ok(v) => Ok(Literal::I8(v)),
            Err(e) => Err(e),
        },
        (Literal::I16(x), Literal::I16(y)) => match settle(if multiply { x.checked_mul(y) } else { x.checked_add(y) }) {
            Ok(v) => Ok(Literal::I16(v)),
            Err(e) => Err(e),
        },
        (Literal::I32(x), Literal::I32(y)) => match settle(if multiply { x.checked_mul(y) } else { x.checked_add(y) }) {
            Ok(v) => Ok(Literal::I32(v)),
            Err(e) => Err(e),
        },
        (Literal::I64(x), Literal::I64(y)) => match settle(if multiply { x.checked_mul(y) } else { x.checked_add(y) }) {
            Ok(v) => Ok(Literal::I64(v)),
            Err(e) => Err(e),
        },
        (Literal::I128(x), Literal::I128(y)) => match settle(if multiply { x.checked_mul(y) } else { x.checked_add(y) }) {
            Ok(v) => Ok(Literal::I128(v)),
            Err(e) => Err(e),
        },
        (Literal::U8(x), Literal::U8(y)) => match settle(if multiply { x.checked_mul(y) } else { x.checked_add(y) }) {
            Ok(v) => Ok(Literal::U8(v)),
            Err(e) => Err(e),
        },
        (Literal::U16(x), Literal::U16(y)) => match settle(if multiply { x.checked_mul(y) } else { x.checked_add(y) }) {
            Ok(v) => Ok(Literal::U16(v)),
            Err(e) => Err(e),
        },
        (Literal::U32(x), Literal::U32(y)) => match settle(if multiply { x.checked_mul(y) } else { x.checked_add(y) }) {
            Ok(v) => Ok(Literal::U32(v)),
            Err(e) => Err(e),
        },
        (Literal::U64(x), Literal::U64(y)) => match settle(if multiply { x.checked_mul(y) } else { x.checked_add(y) }) {
            Ok(v) => Ok(Literal::U64(v)),
            Err(e) => Err(e),
        },
        (Literal::U128(x), Literal::U128(y)) => match settle(if multiply { x.checked_mul(y) } else { x.checked_add(y) }) {
            Ok(v) => Ok(Literal::U128(v)),
            Err(e) => Err(e),
        },
        _ => Err(InstructionError::InvalidInstruction),
    }
}

/// The registers of a function, by number; a register that was never assigned
/// holds nothing.
#[derive(Clone, Debug, PartialEq, Eq)]
pub struct Registers {
    pub slots: Vec<Option<Value>>,
}

/// The literal that an operand stands for: the literal itself, or what its register
/// holds, where that is a literal.
pub open spec fn operand_literal(slots: Seq<Option<Value>>, operand: Operand) -> Result<Literal, InstructionError> {
    match operand {
        Operand::Literal(literal) => Ok(literal),
        Operand::Register(register) => {
            if register.locator >= slots.len() {
                Err(InstructionError::UnassignedRegister(register.locator))
            } else {
                match slots[register.locator as int] {
                    None => Err(InstructionError::UnassignedRegister(register.locator)),
                    Some(Value::Definition(name)) => Err(InstructionError::NotALiteral(name)),
                    Some(Value::Literal(literal)) => Ok(literal),
                }
            }
        },
    }
}

/// The literal that evaluating an operation stores in its destination, or the
/// reason why nothing is stored.
pub open spec fn evaluation(slots: Seq<Option<Value>>, operation: BinaryOperation, multiply: bool) -> Result<
    LiteralView,
    InstructionError,
> {
    match (operand_literal(slots, operation.first), operand_literal(slots, operation.second)) {
        (Err(e), _) => Err(e),
        (Ok(_), Err(e)) => Err(e),
        (Ok(a), Ok(b)) => match combine(a@, b@, multiply) {
            Err(e) => Err(e),
            Ok(outcome) => {
                if operation.destination.locator >= slots.len() {
                    Err(InstructionError::UndefinedRegister(operation.destination.locator))
                } else {
                    Ok(outcome)
                }
            },
        },
    }
}

/// Whether `after` is `before` with the literal `outcome` stored in the register
/// `destination`, in its canonical encoding, and nothing else changed.
pub open spec fn stored(
    before: Seq<Option<Value>>,
    after: Seq<Option<Value>>,
    destination: Register,
    outcome: LiteralView,
) -> bool {
    &&& after.len() == before.len()
    &&& destination.locator < before.len()
    &&& forall|j: int| 0 <= j < before.len() && j != destination.locator ==> after[j] == before[j]
    &&& after[destination.locator as int] matches Some(Value::Literal(l)) && l@ == outcome && l.canonical()
}

impl Registers {
    /// `count` registers that hold nothing.
    pub fn new(count: usize) -> (r: Registers)
        ensures
            r.slots.len() == count,
            forall|j: int| 0 <= j < count ==> r.slots[j] is None,
    {
        let mut slots: Vec<Option<Value>> = Vec::new();
        let mut i: usize = 0;
        while i < count
            invariant
                0 <= i <= count,
                slots.len() == i,
                forall|j: int| 0 <= j < i ==> slots[j] is None,
            decreases count - i,
        {
            slots.push(None);
            i += 1;
        }
        Registers { slots }
    }

    /// The literal that an operand stands for.
    pub fn load_literal(&self, operand: &Operand) -> (r: Result<Literal, InstructionError>)
        ensures
            r == operand_literal(self.slots@, *operand),
    {
        match operand {
            Operand::Literal(literal) => Ok(*literal),
            Operand::Register(register) => {
                if register.locator >= self.slots.len() as u64 {
                    return Err(InstructionError::UnassignedRegister(register.locator));
                }
                match self.slots[register.locator as usize] {
                    None => Err(InstructionError::UnassignedRegister(register.locator)),
                    Some(Value::Definition(name)) => Err(InstructionError::NotALiteral(name)),
                    Some(Value::Literal(literal)) => Ok(literal),
                }
            },
        }
    }

    /// Stores a value in a register that exists.
    pub fn assign(&mut self, register: &Register, value: Value) -> (r: Result<(), InstructionError>)
        ensures
            match r {
                Ok(_) => register.locator < old(self).slots.len() && final(self).slots@ == old(self).slots@.update(
                    register.locator as int,
                    Some(value),
                ),
                Err(e) => register.locator >= old(self).slots.len() && e == InstructionError::UndefinedRegister(
                    register.locator,
                ) && *final(self) == *old(self),
            },
    {
        if register.locator >= self.slots.len() as u64 {
            return Err(InstructionError::UndefinedRegister(register.locator));
        }
        self.slots.set(register.locator as usize, Some(value));
        Ok(())
    }
}

/// Two operands and the register that takes the outcome.
#[derive(Clone, Copy, Debug, PartialEq, Eq)]
pub struct BinaryOperation {
    pub first: Operand,
    pub second: Operand,
    pub destination: Register,
}

impl BinaryOperation {
    /// The two operands, first then second.
    pub fn operands(&self) -> (r: Vec<Operand>)
        ensures
            r@ == seq![self.first, self.second],
    {
        let mut r: Vec<Operand> = Vec::new();
        r.push(self.first);
        r.push(self.second);
        proof {
            assert(r@ =~= seq![self.first, self.second]);
        }
        r
    }

    /// The register that takes the outcome.
    pub fn destination(&self) -> (r: &Register)
        ensures
            *r == self.destination,
    {
        &self.destination
    }

    /// Loads the two operands, adds or multiplies them, and stores the outcome in
    /// the destination. Where that fails, the registers stay as they are.
    pub fn evaluate(&self, registers: &mut Registers, multiply: bool) -> (r: Result<(), InstructionError>)
        ensures
            match evaluation(old(registers).slots@, *self, multiply) {
                Ok(outcome) => r is Ok && stored(
                    old(registers).slots@,
                    final(registers).slots@,
                    self.destination,
                    outcome,
                ),
                Err(e) => r == Err::<(), InstructionError>(e) && *final(registers) == *old(registers),
            },
    {
        let first = match registers.load_literal(&self.first) {
            Ok(literal) => literal,
            Err(e) => {
                return Err(e);
            },
        };
        let second = match registers.load_literal(&self.second) {
            Ok(literal) => literal,
            Err(e) => {
                return Err(e);
            },
        };
        let outcome = match combine_literals(first, second, multiply) {
            Ok(literal) => literal,
            Err(e) => {
                return Err(e);
            },
        };
        registers.assign(&self.destination, Value::Literal(outcome))
    }
}

/// Adds `first` with `second`, storing the outcome in `destination`.
#[derive(Clone, Copy, Debug, PartialEq, Eq)]
pub struct Add {
    pub operation: BinaryOperation,
}

impl Add {
    /// The instruction with the given operands and destination.
    pub fn new(first: Operand, second: Operand, destination: Register) -> (r: Add)
        ensures
            r.operation == (BinaryOperation { first, second, destination }),
    {
        Add { operation: BinaryOperation { first, second, destination } }
    }

    /// The instruction's name.
    pub fn opcode() -> (r: &'static str)
        ensures
            r@ == "add"@,
    {
        "add"
    }

    /// Returns the operands of the instruction.
    pub fn operands(&self) -> (r: Vec<Operand>)
        ensures
            r@ == seq![self.operation.first, self.operation.second],
    {
        self.operation.operands()
    }

    /// Returns the destination register of the instruction.
    pub fn destination(&self) -> (r: &Register)
        ensures
            *r == self.operation.destination,
    {
        self.operation.destination()
    }

    /// Evaluates the operation: the sum of the two operands goes to the destination.
    pub fn evaluate(&self, registers: &mut Registers) -> (r: Result<(), InstructionError>)
        ensures
            match evaluation(old(registers).slots@, self.operation, false) {
                Ok(outcome) => r is Ok && stored(
                    old(registers).slots@,
                    final(registers).slots@,
                    self.operation.destination,
                    outcome,
                ),
                Err(e) => r == Err::<(), InstructionError>(e) && *final(registers) == *old(registers),
            },
    {
        self.operation.evaluate(registers, false)
    }
}

/// Multiplies `first` with `second`, storing the outcome in `destination`.
#[derive(Clone, Copy, Debug, PartialEq, Eq)]
pub struct Mul {
    pub operation: BinaryOperation,
}

impl Mul {
    /// The instruction with the given operands and destination.
    pub fn new(first: Operand, second: Operand, destination: Register) -> (r: Mul)
        ensures
            r.operation == (BinaryOperation { first, second, destination }),
    {
        Mul { operation: BinaryOperation { first, second, destination } }
    }

    /// The instruction's name.
    pub fn opcode() -> (r: &'static str)
        ensures
            r@ == "mul"@,
    {
        "mul"
    }

    /// Returns the operands of the instruction.
    pub fn operands(&self) -> (r: Vec<Operand>)
        ensures
            r@ == seq![self.operation.first, self.operation.second],
    {
        self.operation.operands()
    }

    /// Returns the destination register of the instruction.
    pub fn destination(&self) -> (r: &Register)
        ensures
            *r == self.operation.destination,
    {
        self.operation.destination()
    }

    /// Evaluates the operation: the product of the two operands goes to the
    /// destination.
    pub fn evaluate(&self, registers: &mut Registers) -> (r: Result<(), InstructionError>)
        ensures
            match evaluation(old(registers).slots@, self.operation, true) {
                Ok(outcome) => r is Ok && stored(
                    old(registers).slots@,
                    final(registers).slots@,
                    self.operation.destination,
                    outcome,
                ),
                Err(e) => r == Err::<(), InstructionError>(e) && *final(registers) == *old(registers),
            },
    {
        self.operation.evaluate(registers, true)
    }
}

} // verus!
