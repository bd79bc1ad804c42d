//! The generic bit-field matcher: an ordered sequence of directives is run
//! against a raw opcode, consuming bits from the least-significant end, and
//! either fails or yields a map from field names to extracted values.

use vstd::prelude::*;
use crate::bits::{extract, bit_at, sign_extend, split_low_bits, sign_extend_i32, lemma_drop_bits_adds};
use crate::error::DecodeError;
use crate::instruction::{Unit, ConditionalOperation, spec_conditional_operation_from};
use crate::register::{
    Register,
    ControlRegister,
    spec_register_from,
    spec_register_from_pair,
    spec_control_register_from,
};
use vstd::arithmetic::power2::pow2;

verus! {

/// The name of a field a directive extracts.
#[derive(PartialEq, Eq, Structural, Clone, Copy, Debug)]
pub enum FieldName {
    /// "p": the parallel-with-next bit of a 32-bit opcode.
    P,
    /// "s": the side bit (false = A, true = B).
    S,
    /// "h": MVKH rather than MVK.
    H,
    /// "x": the cross-path bit.
    X,
    /// "z": the zero-test bit of a compact conditional branch.
    Z,
    /// "cst": a constant or displacement field.
    Cst,
    /// "cst20": bits 2..0 of a split compact constant.
    Cst20,
    /// "cst43": bits 4..3 of a split compact constant.
    Cst43,
    /// "cst65": bits 6..5 of a split compact constant.
    Cst65,
    /// "cst7": bit 7 of a split compact constant.
    Cst7,
    /// "dst": the destination register.
    Dst,
    /// "src": the source register.
    Src,
    /// "cond": the conditional-execution predicate.
    Cond,
    /// "crhi": the high 5 bits of a control-register encoding.
    Crhi,
    /// "crlo": the low 5 bits of a control-register encoding.
    Crlo,
    /// "op": the pointer-branch selector.
    Op,
    /// "nop": a NOP cycle count attached to a branch.
    Nop,
    /// "ms": the index extension of a compact register.
    Ms,
    /// "ms_bit": whether "ms" extends the destination or the source.
    MsBit,
    /// "unit": the L/S/D unit selector of a compact opcode.
    UnitField,
    /// "cc": the two-bit condition code of a compact opcode.
    Cc,
    /// "SAT": the saturation bit of a compact instruction header.
    Sat,
    /// "BR": the compact-branch enable bit of a header.
    Br,
    /// "DSZ_1": the two-bit data-size selector of a header.
    Dsz1,
    /// "DSZ_2": the data-size mode bit of a header.
    Dsz2,
    /// "RS": the register-set bit of a header.
    Rs,
    /// "PROT": the protected-loads bit of a header.
    Prot,
    /// "layout": the per-slot compact layout of a header.
    Layout,
    /// "N3": the cycle count of a compact NOP.
    N3,
}

/// One directive of a format: how many bits to consume and what to do with
/// them.
#[derive(Debug)]
#[allow(inconsistent_fields)]
pub enum ParsingInstruction {
    /// Fails unless the extracted bits equal `value`.
    Match { size: usize, value: u32 },
    /// Fails unless the extracted bits are one of `values`.
    MatchMultiple { size: usize, values: Vec<u32> },
    /// Stores one bit as a boolean.
    Bit { name: FieldName },
    /// Fails unless the bit equals `value`; also stores it.
    BitMatch { name: FieldName, value: bool },
    /// Stores `size` bits as a boolean sequence, least-significant first.
    BitArray { size: usize, name: FieldName },
    /// Stores the bits as a u8 when `size` is at most 8, else as a u32.
    Unsigned { size: usize, name: FieldName },
    /// Sign-extends the bits from `size` to a signed 32-bit value.
    Signed { size: usize, name: FieldName },
    /// Builds a scalar register using the previously-matched "s" bit.
    Register { size: usize, name: FieldName },
    /// Builds a normalized register pair using the "s" bit.
    RegisterPair { size: usize, name: FieldName },
    /// Builds a scalar register using "s" XOR "x" as the side.
    RegisterCrosspath { size: usize, name: FieldName },
    /// Looks the bits up in the control-register table, using a
    /// previously-matched "crhi" field (default 0) as the high bits; fails
    /// on an unknown encoding.
    ControlRegister { size: usize, name: FieldName },
    /// Two bits selecting a unit: 0 is L, 1 is S, 2 is D, 3 fails.
    LSDUnit { name: FieldName },
    /// Four bits: the low three are creg, the high one is z; stores the
    /// decoded predicate (None for the unconditional encoding).
    ConditionalOperation { name: FieldName },
}

/// An extracted field value.
#[derive(Debug)]
pub enum ParsedVariable {
    Bool(bool),
    BoolVec(Vec<bool>),
    U32(u32),
    U8(u8),
    I32(i32),
    Register(Register),
    ControlRegister(ControlRegister),
    Unit(Unit),
    ConditionalOperation(Option<ConditionalOperation>),
}

/// The mathematical value of an extracted field.
pub ghost enum ParsedValue {
    Bool(bool),
    Bits(Seq<bool>),
    U32(u32),
    U8(u8),
    I32(i32),
    Reg(Register),
    CtrlReg(ControlRegister),
    UnitVal(Unit),
    Predicate(Option<ConditionalOperation>),
}

impl View for ParsedVariable {
    type V = ParsedValue;

    open spec fn view(&self) -> ParsedValue {
        match self {
            ParsedVariable::Bool(b) => ParsedValue::Bool(*b),
            ParsedVariable::BoolVec(v) => ParsedValue::Bits(v@),
            ParsedVariable::U32(x) => ParsedValue::U32(*x),
            ParsedVariable::U8(x) => ParsedValue::U8(*x),
            ParsedVariable::I32(x) => ParsedValue::I32(*x),
            ParsedVariable::Register(r) => ParsedValue::Reg(*r),
            ParsedVariable::ControlRegister(r) => ParsedValue::CtrlReg(*r),
            ParsedVariable::Unit(u) => ParsedValue::UnitVal(*u),
            ParsedVariable::ConditionalOperation(c) => ParsedValue::Predicate(*c),
        }
    }
}

/// The boolean held by a value; anything else is an internal error.
pub open spec fn spec_value_bool(v: ParsedValue) -> Result<bool, DecodeError> {
    match v {
        ParsedValue::Bool(b) => Ok(b),
        _ => Err(DecodeError::Other),
    }
}

/// The boolean sequence held by a value.
pub open spec fn spec_value_bits(v: ParsedValue) -> Result<Seq<bool>, DecodeError> {
    match v {
        ParsedValue::Bits(s) => Ok(s),
        _ => Err(DecodeError::Other),
    }
}

/// The unsigned value, widening a u8; other kinds are internal errors.
pub open spec fn spec_value_u32(v: ParsedValue) -> Result<u32, DecodeError> {
    match v {
        ParsedValue::U32(x) => Ok(x),
        ParsedValue::U8(x) => Ok(x as u32),
        _ => Err(DecodeError::Other),
    }
}

/// The unsigned value, truncating a u32 to its low byte.
pub open spec fn spec_value_u8(v: ParsedValue) -> Result<u8, DecodeError> {
    match v {
        ParsedValue::U8(x) => Ok(x),
        ParsedValue::U32(x) => Ok((x % 0x100) as u8),
        _ => Err(DecodeError::Other),
    }
}

/// The signed value held by a value.
pub open spec fn spec_value_i32(v: ParsedValue) -> Result<i32, DecodeError> {
    match v {
        ParsedValue::I32(x) => Ok(x),
        _ => Err(DecodeError::Other),
    }
}

/// The register held by a value.
pub open spec fn spec_value_register(v: ParsedValue) -> Result<Register, DecodeError> {
    match v {
        ParsedValue::Reg(r) => Ok(r),
        _ => Err(DecodeError::Other),
    }
}

/// The control register held by a value.
pub open spec fn spec_value_control_register(v: ParsedValue) -> Result<
    ControlRegister,
    DecodeError,
> {
    match v {
        ParsedValue::CtrlReg(r) => Ok(r),
        _ => Err(DecodeError::Other),
    }
}

/// The unit held by a value.
pub open spec fn spec_value_unit(v: ParsedValue) -> Result<Unit, DecodeError> {
    match v {
        ParsedValue::UnitVal(u) => Ok(u),
        _ => Err(DecodeError::Other),
    }
}

/// The predicate held by a value.
pub open spec fn spec_value_predicate(v: ParsedValue) -> Result<
    Option<ConditionalOperation>,
    DecodeError,
> {
    match v {
        ParsedValue::Predicate(c) => Ok(c),
        _ => Err(DecodeError::Other),
    }
}

/// The value stored under `name`; a missing name is an internal error.
pub open spec fn spec_get(m: Map<FieldName, ParsedValue>, name: FieldName) -> Result<
    ParsedValue,
    DecodeError,
> {
    if m.contains_key(name) {
        Ok(m[name])
    } else {
        Err(DecodeError::Other)
    }
}

/// The boolean stored under `name`.
pub open spec fn spec_get_bool(m: Map<FieldName, ParsedValue>, name: FieldName) -> Result<
    bool,
    DecodeError,
> {
    match spec_get(m, name) {
        Ok(v) => spec_value_bool(v),
        Err(e) => Err(e),
    }
}

/// The u8 stored under `name` (a u32 is truncated to its low byte).
pub open spec fn spec_get_u8(m: Map<FieldName, ParsedValue>, name: FieldName) -> Result<
    u8,
    DecodeError,
> {
    match spec_get(m, name) {
        Ok(v) => spec_value_u8(v),
        Err(e) => Err(e),
    }
}

/// The u32 stored under `name` (a u8 is widened).
pub open spec fn spec_get_u32(m: Map<FieldName, ParsedValue>, name: FieldName) -> Result<
    u32,
    DecodeError,
> {
    match spec_get(m, name) {
        Ok(v) => spec_value_u32(v),
        Err(e) => Err(e),
    }
}

/// The signed value stored under `name`.
pub open spec fn spec_get_i32(m: Map<FieldName, ParsedValue>, name: FieldName) -> Result<
    i32,
    DecodeError,
> {
    match spec_get(m, name) {
        Ok(v) => spec_value_i32(v),
        Err(e) => Err(e),
    }
}

/// The register stored under `name`.
pub open spec fn spec_get_register(m: Map<FieldName, ParsedValue>, name: FieldName) -> Result<
    Register,
    DecodeError,
> {
    match spec_get(m, name) {
        Ok(v) => spec_value_register(v),
        Err(e) => Err(e),
    }
}

/// The control register stored under `name`.
pub open spec fn spec_get_control_register(
    m: Map<FieldName, ParsedValue>,
    name: FieldName,
) -> Result<ControlRegister, DecodeError> {
    match spec_get(m, name) {
        Ok(v) => spec_value_control_register(v),
        Err(e) => Err(e),
    }
}

/// The unit stored under `name`.
pub open spec fn spec_get_unit(m: Map<FieldName, ParsedValue>, name: FieldName) -> Result<
    Unit,
    DecodeError,
> {
    match spec_get(m, name) {
        Ok(v) => spec_value_unit(v),
        Err(e) => Err(e),
    }
}

/// The predicate stored under `name`.
pub open spec fn spec_get_predicate(m: Map<FieldName, ParsedValue>, name: FieldName) -> Result<
    Option<ConditionalOperation>,
    DecodeError,
> {
    match spec_get(m, name) {
        Ok(v) => spec_value_predicate(v),
        Err(e) => Err(e),
    }
}

/// The extracted-field map: a vector of name/value bindings where a later
/// binding for a name shadows an earlier one.
pub struct ParsedVariables {
    entries: Vec<(FieldName, ParsedVariable)>,
}

/// The map a sequence of bindings denotes: each binding in order, a later
/// one overwriting an earlier one for the same name.
pub open spec fn map_of_entries(s: Seq<(FieldName, ParsedVariable)>) -> Map<
    FieldName,
    ParsedValue,
>
    decreases s.len(),
{
    if s.len() == 0 {
        Map::empty()
    } else {
        map_of_entries(s.drop_last()).insert(s.last().0, s.last().1@)
    }
}

proof fn lemma_map_of_entries_found(s: Seq<(FieldName, ParsedVariable)>, i: int, k: FieldName)
    requires
        0 <= i < s.len(),
        s[i].0 == k,
        forall|j: int| i < j < s.len() ==> s[j].0 != k,
    ensures
        map_of_entries(s).contains_key(k),
        map_of_entries(s)[k] == s[i].1@,
    decreases s.len(),
{
    if i == s.len() - 1 {
    } else {
        lemma_map_of_entries_found(s.drop_last(), i, k);
    }
}

proof fn lemma_map_of_entries_absent(s: Seq<(FieldName, ParsedVariable)>, k: FieldName)
    requires
        forall|j: int| 0 <= j < s.len() ==> s[j].0 != k,
    ensures
        !map_of_entries(s).contains_key(k),
    decreases s.len(),
{
    if s.len() > 0 {
        lemma_map_of_entries_absent(s.drop_last(), k);
    }
}

impl View for ParsedVariables {
    type V = Map<FieldName, ParsedValue>;

    closed spec fn view(&self) -> Map<FieldName, ParsedValue> {
        map_of_entries(self.entries@)
    }
}

impl ParsedVariables {
    /// An empty map.
    pub fn new() -> (r: Self)
        ensures
            r@ == Map::<FieldName, ParsedValue>::empty(),
    {
        let r = ParsedVariables { entries: Vec::new() };
        proof {
            assert(r.entries@.len() == 0);
        }
        r
    }

    /// Binds `name` to `var`, shadowing any earlier binding.
    pub fn insert(&mut self, name: FieldName, var: ParsedVariable)
        ensures
            final(self)@ == old(self)@.insert(name, var@),
    {
        self.entries.push((name, var));
        proof {
            assert(self.entries@.drop_last() =~= old(self).entries@);
        }
    }

    /// Looks `name` up; None when the map holds no binding for it.
    pub fn get<'a>(&'a self, name: FieldName) -> (r: Option<&'a ParsedVariable>)
        ensures
            match r {
                Some(v) => self@.contains_key(name) && v@ == self@[name],
                None => !self@.contains_key(name),
            },
    {
        let n = self.entries.len();
        let mut i = n;
        while i > 0
            invariant
                i <= n,
                n == self.entries@.len(),
                forall|j: int| i <= j < n ==> self.entries@[j].0 != name,
            decreases i,
        {
            i = i - 1;
            if self.entries[i].0 == name {
                proof {
                    lemma_map_of_entries_found(self.entries@, i as int, name);
                }
                return Some(&self.entries[i].1);
            }
        }
        proof {
            lemma_map_of_entries_absent(self.entries@, name);
        }
        None
    }
}

impl ParsedVariable {
    /// The boolean this variable holds; any other kind is an error.
    pub fn get_bool(&self) -> (r: Result<bool, DecodeError>)
        ensures
            r == spec_value_bool(self@),
    {
        if let ParsedVariable::Bool(value) = self {
            Ok(*value)
        } else {
            Err(DecodeError::Other)
        }
    }

    /// A copy of the boolean sequence this variable holds.
    pub fn get_bool_vec(&self) -> (r: Result<Vec<bool>, DecodeError>)
        ensures
            match r {
                Ok(v) => spec_value_bits(self@) == Ok::<Seq<bool>, DecodeError>(v@),
                Err(e) => spec_value_bits(self@) == Err::<Seq<bool>, DecodeError>(e),
            },
    {
        if let ParsedVariable::BoolVec(value) = self {
            let mut copy: Vec<bool> = Vec::new();
            let mut i: usize = 0;
            while i < value.len()
                invariant
                    i <= value@.len(),
                    copy@ =~= value@.take(i as int),
                decreases value@.len() - i,
            {
                copy.push(value[i]);
                i = i + 1;
            }
            proof {
                assert(copy@ =~= value@);
            }
            Ok(copy)
        } else {
            Err(DecodeError::Other)
        }
    }

    /// The unsigned value, widening a stored u8.
    pub fn get_u32(&self) -> (r: Result<u32, DecodeError>)
        ensures
            r == spec_value_u32(self@),
    {
        if let ParsedVariable::U32(value) = self {
            Ok(*value)
        } else if let ParsedVariable::U8(value) = self {
            Ok(*value as u32)
        } else {
            Err(DecodeError::Other)
        }
    }

    /// The unsigned value, truncating a stored u32 to its low byte.
    pub fn get_u8(&self) -> (r: Result<u8, DecodeError>)
        ensures
            r == spec_value_u8(self@),
    {
        if let ParsedVariable::U8(value) = self {
            Ok(*value)
        } else if let ParsedVariable::U32(value) = self {
            Ok((*value % 0x100) as u8)
        } else {
            Err(DecodeError::Other)
        }
    }

    /// The signed value this variable holds.
    pub fn get_i32(&self) -> (r: Result<i32, DecodeError>)
        ensures
            r == spec_value_i32(self@),
    {
        if let ParsedVariable::I32(value) = self {
            Ok(*value)
        } else {
            Err(DecodeError::Other)
        }
    }

    /// The register this variable holds.
    pub fn get_register(&self) -> (r: Result<Register, DecodeError>)
        ensures
            r == spec_value_register(self@),
    {
        if let ParsedVariable::Register(value) = self {
            Ok(*value)
        } else {
            Err(DecodeError::Other)
        }
    }

    /// The control register this variable holds.
    pub fn get_control_register(&self) -> (r: Result<ControlRegister, DecodeError>)
        ensures
            r == spec_value_control_register(self@),
    {
        if let ParsedVariable::ControlRegister(value) = self {
            Ok(*value)
        } else {
            Err(DecodeError::Other)
        }
    }

    /// The unit this variable holds.
    pub fn get_unit(&self) -> (r: Result<Unit, DecodeError>)
        ensures
            r == spec_value_unit(self@),
    {
        if let ParsedVariable::Unit(value) = self {
            Ok(*value)
        } else {
            Err(DecodeError::Other)
        }
    }

    /// The predicate this variable holds.
    pub fn get_conditional_operation(&self) -> (r: Result<
        Option<ConditionalOperation>,
        DecodeError,
    >)
        ensures
            r == spec_value_predicate(self@),
    {
        if let ParsedVariable::ConditionalOperation(value) = self {
            Ok(*value)
        } else {
            Err(DecodeError::Other)
        }
    }

    /// Looks `name` up in an extracted-field map; a missing name is an
    /// internal error.
    pub fn try_get<'a>(map: &'a ParsedVariables, name: FieldName) -> (r: Result<
        &'a ParsedVariable,
        DecodeError,
    >)
        ensures
            match r {
                Ok(v) => spec_get(map@, name) == Ok::<ParsedValue, DecodeError>(v@),
                Err(e) => spec_get(map@, name) == Err::<ParsedValue, DecodeError>(e),
            },
    {
        match map.get(name) {
            Some(value) => Ok(value),
            None => Err(DecodeError::Other),
        }
    }
}

/// Reads the boolean stored under `name`.
pub fn get_bool_field(map: &ParsedVariables, name: FieldName) -> (r: Result<bool, DecodeError>)
    ensures
        r == spec_get_bool(map@, name),
{
    match ParsedVariable::try_get(map, name) {
        Ok(v) => v.get_bool(),
        Err(e) => Err(e),
    }
}

/// Reads the u8 stored under `name` (a u32 is truncated to its low byte).
pub fn get_u8_field(map: &ParsedVariables, name: FieldName) -> (r: Result<u8, DecodeError>)
    ensures
        r == spec_get_u8(map@, name),
{
    match ParsedVariable::try_get(map, name) {
        Ok(v) => v.get_u8(),
        Err(e) => Err(e),
    }
}

/// Reads the u32 stored under `name` (a u8 is widened).
pub fn get_u32_field(map: &ParsedVariables, name: FieldName) -> (r: Result<u32, DecodeError>)
    ensures
        r == spec_get_u32(map@, name),
{
    match ParsedVariable::try_get(map, name) {
        Ok(v) => v.get_u32(),
        Err(e) => Err(e),
    }
}

/// Reads the signed value stored under `name`.
pub fn get_i32_field(map: &ParsedVariables, name: FieldName) -> (r: Result<i32, DecodeError>)
    ensures
        r == spec_get_i32(map@, name),
{
    match ParsedVariable::try_get(map, name) {
        Ok(v) => v.get_i32(),
        Err(e) => Err(e),
    }
}

/// Reads the register stored under `name`.
pub fn get_register_field(map: &ParsedVariables, name: FieldName) -> (r: Result<
    Register,
    DecodeError,
>)
    ensures
        r == spec_get_register(map@, name),
{
    match ParsedVariable::try_get(map, name) {
        Ok(v) => v.get_register(),
        Err(e) => Err(e),
    }
}

/// Reads the control register stored under `name`.
pub fn get_control_register_field(map: &ParsedVariables, name: FieldName) -> (r: Result<
    ControlRegister,
    DecodeError,
>)
    ensures
        r == spec_get_control_register(map@, name),
{
    match ParsedVariable::try_get(map, name) {
        Ok(v) => v.get_control_register(),
        Err(e) => Err(e),
    }
}

/// Reads the unit stored under `name`.
pub fn get_unit_field(map: &ParsedVariables, name: FieldName) -> (r: Result<Unit, DecodeError>)
    ensures
        r == spec_get_unit(map@, name),
{
    match ParsedVariable::try_get(map, name) {
        Ok(v) => v.get_unit(),
        Err(e) => Err(e),
    }
}

/// Reads the predicate stored under `name`.
pub fn get_predicate_field(map: &ParsedVariables, name: FieldName) -> (r: Result<
    Option<ConditionalOperation>,
    DecodeError,
>)
    ensures
        r == spec_get_predicate(map@, name),
{
    match ParsedVariable::try_get(map, name) {
        Ok(v) => v.get_conditional_operation(),
        Err(e) => Err(e),
    }
}

/// What running the directives `fmt[i..]` against `op` yields, with the
/// cursor `pos` bits above the least-significant end and `acc` already
/// extracted.  The public entry point is `spec_parse`.
pub open spec fn spec_parse_from(
    op: u32,
    fmt: Seq<ParsingInstruction>,
    i: int,
    pos: nat,
    acc: Map<FieldName, ParsedValue>,
) -> Result<Map<FieldName, ParsedValue>, DecodeError>
    decreases fmt.len() - i,
{
    if i < 0 || i >= fmt.len() {
        Ok(acc)
    } else {
        match fmt[i] {
            ParsingInstruction::Match { size, value } => if extract(op, pos, size as nat)
                == value as nat {
                spec_parse_from(op, fmt, i + 1, pos + size as nat, acc)
            } else {
                Err(DecodeError::InvalidInput)
            },
            ParsingInstruction::MatchMultiple { size, values } => if exists|j: int|
                0 <= j < values@.len() && extract(op, pos, size as nat) == values@[j] as nat {
                spec_parse_from(op, fmt, i + 1, pos + size as nat, acc)
            } else {
                Err(DecodeError::InvalidInput)
            },
            ParsingInstruction::Bit { name } => spec_parse_from(
                op,
                fmt,
                i + 1,
                pos + 1,
                acc.insert(name, ParsedValue::Bool(bit_at(op, pos))),
            ),
            ParsingInstruction::BitMatch { name, value } => if bit_at(op, pos) == value {
                spec_parse_from(
                    op,
                    fmt,
                    i + 1,
                    pos + 1,
                    acc.insert(name, ParsedValue::Bool(bit_at(op, pos))),
                )
            } else {
                Err(DecodeError::InvalidInput)
            },
            ParsingInstruction::BitArray { size, name } => spec_parse_from(
                op,
                fmt,
                i + 1,
                pos + size as nat,
                acc.insert(
                    name,
                    ParsedValue::Bits(
                        Seq::new(size as nat, |j: int| bit_at(op, (pos + j) as nat)),
                    ),
                ),
            ),
            ParsingInstruction::Unsigned { size, name } => spec_parse_from(
                op,
                fmt,
                i + 1,
                pos + size as nat,
                acc.insert(
                    name,
                    if size > 8 {
                        ParsedValue::U32(extract(op, pos, size as nat) as u32)
                    } else {
                        ParsedValue::U8(extract(op, pos, size as nat) as u8)
                    },
                ),
            ),
            ParsingInstruction::Signed { size, name } => spec_parse_from(
                op,
                fmt,
                i + 1,
                pos + size as nat,
                acc.insert(
                    name,
                    ParsedValue::I32(
                        if size == 0 {
                            0i32
                        } else {
                            sign_extend(
                                extract(op, pos, if size > 32 { 32nat } else { size as nat }),
                                if size > 32 { 32nat } else { size as nat },
                            ) as i32
                        },
                    ),
                ),
            ),
            ParsingInstruction::Register { size, name } => match spec_get_bool(acc, FieldName::S) {
                Ok(side) => spec_parse_from(
                    op,
                    fmt,
                    i + 1,
                    pos + size as nat,
                    acc.insert(
                        name,
                        ParsedValue::Reg(
                            spec_register_from((extract(op, pos, size as nat) % 0x100) as u8, side),
                        ),
                    ),
                ),
                Err(e) => Err(e),
            },
            ParsingInstruction::RegisterPair { size, name } => match spec_get_bool(
                acc,
                FieldName::S,
            ) {
                Ok(side) => spec_parse_from(
                    op,
                    fmt,
                    i + 1,
                    pos + size as nat,
                    acc.insert(
                        name,
                        ParsedValue::Reg(
                            spec_register_from_pair(
                                (extract(op, pos, size as nat) % 0x100) as u8,
                                side,
                            ),
                        ),
                    ),
                ),
                Err(e) => Err(e),
            },
            ParsingInstruction::RegisterCrosspath { size, name } => match spec_get_bool(
                acc,
                FieldName::S,
            ) {
                Ok(s) => match spec_get_bool(acc, FieldName::X) {
                    Ok(x) => spec_parse_from(
                        op,
                        fmt,
                        i + 1,
                        pos + size as nat,
                        acc.insert(
                            name,
                            ParsedValue::Reg(
                                spec_register_from(
                                    (extract(op, pos, size as nat) % 0x100) as u8,
                                    s != x,
                                ),
                            ),
                        ),
                    ),
                    Err(e) => Err(e),
                },
                Err(e) => Err(e),
            },
            ParsingInstruction::ControlRegister { size, name } => {
                let high: Result<u8, DecodeError> = if acc.contains_key(FieldName::Crhi) {
                    spec_value_u8(acc[FieldName::Crhi])
                } else {
                    Ok(0u8)
                };
                match high {
                    Ok(h) => match spec_control_register_from(
                        (extract(op, pos, size as nat) % 0x100) as u8,
                        h,
                    ) {
                        Some(cr) => spec_parse_from(
                            op,
                            fmt,
                            i + 1,
                            pos + size as nat,
                            acc.insert(name, ParsedValue::CtrlReg(cr)),
                        ),
                        None => Err(DecodeError::Other),
                    },
                    Err(e) => Err(e),
                }
            },
            ParsingInstruction::LSDUnit { name } => {
                let v = extract(op, pos, 2);
                if v == 0 {
                    spec_parse_from(
                        op,
                        fmt,
                        i + 1,
                        pos + 2,
                        acc.insert(name, ParsedValue::UnitVal(Unit::L)),
                    )
                } else if v == 1 {
                    spec_parse_from(
                        op,
                        fmt,
                        i + 1,
                        pos + 2,
                        acc.insert(name, ParsedValue::UnitVal(Unit::S)),
                    )
                } else if v == 2 {
                    spec_parse_from(
                        op,
                        fmt,
                        i + 1,
                        pos + 2,
                        acc.insert(name, ParsedValue::UnitVal(Unit::D)),
                    )
                } else {
                    Err(DecodeError::Other)
                }
            },
            ParsingInstruction::ConditionalOperation { name } => {
                let v = extract(op, pos, 4);
                spec_parse_from(
                    op,
                    fmt,
                    i + 1,
                    pos + 4,
                    acc.insert(
                        name,
                        ParsedValue::Predicate(
                            spec_conditional_operation_from(
                                (v % 8) as u8,
                                (v / 8) % 2 == 1,
                            ),
                        ),
                    ),
                )
            },
        }
    }
}

/// What running the whole format `fmt` against `op` yields.
pub open spec fn spec_parse(op: u32, fmt: Seq<ParsingInstruction>) -> Result<
    Map<FieldName, ParsedValue>,
    DecodeError,
> {
    spec_parse_from(op, fmt, 0, 0, Map::empty())
}


/// The matcher is a pure function: two runs on the same opcode and the
/// same format extract the same field values, and `parse` is proved to
/// return exactly this function of its inputs.
pub proof fn lemma_matcher_deterministic(
    op1: u32,
    fmt1: Seq<ParsingInstruction>,
    op2: u32,
    fmt2: Seq<ParsingInstruction>,
)
    requires
        op1 == op2,
        fmt1 == fmt2,
    ensures
        spec_parse(op1, fmt1) == spec_parse(op2, fmt2),
{
}

/// Runs an ordered format against a raw opcode: consumes bits from the
/// least-significant end, one directive at a time, and either fails or
/// yields the map of extracted fields.  The result is exactly
/// `spec_parse(opcode, format@)`: the matcher is a pure function of the
/// opcode and the format.
pub fn parse(opcode: u32, format: &[ParsingInstruction]) -> (r: Result<
    ParsedVariables,
    DecodeError,
>)
    ensures
        match r {
            Ok(m) => spec_parse(opcode, format@) == Ok::<_, DecodeError>(m@),
            Err(e) => spec_parse(opcode, format@) == Err::<Map<FieldName, ParsedValue>, _>(e),
        },
{
    let mut resulting_map = ParsedVariables::new();
    let mut temp_opcode = opcode;
    let ghost mut pos: nat = 0;
    let n = format.len();
    let mut i: usize = 0;
    proof {
        vstd::arithmetic::power2::lemma2_to64();
    }
    while i < n
        invariant
            i <= n,
            n == format@.len(),
            temp_opcode as nat == opcode as nat / pow2(pos),
            spec_parse(opcode, format@) == spec_parse_from(
                opcode,
                format@,
                i as int,
                pos,
                resulting_map@,
            ),
        decreases n - i,
    {
        let directive = &format[i];
        match directive {
            ParsingInstruction::Match { size, value } => {
                let (field, rest) = split_low_bits(temp_opcode, *size);
                proof {
                    lemma_drop_bits_adds(opcode as nat, pos, *size as nat);
                }
                if field != *value {
                    return Err(DecodeError::InvalidInput);
                }
                temp_opcode = rest;
                proof {
                    pos = pos + *size as nat;
                }
            },
            ParsingInstruction::MatchMultiple { size, values } => {
                let (field, rest) = split_low_bits(temp_opcode, *size);
                proof {
                    lemma_drop_bits_adds(opcode as nat, pos, *size as nat);
                }
                let mut found = false;
                let mut j: usize = 0;
                while j < values.len()
                    invariant
                        j <= values@.len(),
                        found == exists|k: int|
                            0 <= k < j && field as nat == values@[k] as nat,
                    decreases values@.len() - j,
                {
                    if values[j] == field {
                        found = true;
                    }
                    j = j + 1;
                }
                if !found {
                    return Err(DecodeError::InvalidInput);
                }
                temp_opcode = rest;
                proof {
                    pos = pos + *size as nat;
                }
            },
            ParsingInstruction::Bit { name } => {
                let (field, rest) = split_low_bits(temp_opcode, 1);
                proof {
                    lemma_drop_bits_adds(opcode as nat, pos, 1);
                }
                resulting_map.insert(*name, ParsedVariable::Bool(field == 1));
                temp_opcode = rest;
                proof {
                    pos = pos + 1;
                }
            },
            ParsingInstruction::BitMatch { name, value } => {
                let (field, rest) = split_low_bits(temp_opcode, 1);
                proof {
                    lemma_drop_bits_adds(opcode as nat, pos, 1);
                }
                let read_value = field == 1;
                if read_value != *value {
                    return Err(DecodeError::InvalidInput);
                }
                resulting_map.insert(*name, ParsedVariable::Bool(read_value));
                temp_opcode = rest;
                proof {
                    pos = pos + 1;
                }
            },
            ParsingInstruction::BitArray { size, name } => {
                let mut bits_vec: Vec<bool> = Vec::new();
                let mut j: usize = 0;
                while j < *size
                    invariant
                        j <= *size,
                        temp_opcode as nat == opcode as nat / pow2(pos + j as nat),
                        bits_vec@ =~= Seq::new(
                            j as nat,
                            |k: int| bit_at(opcode, (pos + k) as nat),
                        ),
                    decreases *size - j,
                {
                    let (field, rest) = split_low_bits(temp_opcode, 1);
                    proof {
                        lemma_drop_bits_adds(opcode as nat, pos, j as nat);
                        lemma_drop_bits_adds(opcode as nat, pos + j as nat, 1);
                    }
                    bits_vec.push(field == 1);
                    temp_opcode = rest;
                    j = j + 1;
                    proof {
                        assert(bits_vec@ =~= Seq::new(
                            j as nat,
                            |k: int| bit_at(opcode, (pos + k) as nat),
                        ));
                    }
                }
                resulting_map.insert(*name, ParsedVariable::BoolVec(bits_vec));
                proof {
                    pos = pos + *size as nat;
                }
            },
            ParsingInstruction::Unsigned { size, name } => {
                let (field, rest) = split_low_bits(temp_opcode, *size);
                proof {
                    lemma_drop_bits_adds(opcode as nat, pos, *size as nat);
                }
                let parsed_variable = if *size > 8 {
                    ParsedVariable::U32(field)
                } else {
                    proof {
                        if *size < 8 {
                            vstd::arithmetic::power2::lemma_pow2_strictly_increases(
                                *size as nat,
                                8,
                            );
                        }
                    }
                    ParsedVariable::U8(field as u8)
                };
                resulting_map.insert(*name, parsed_variable);
                temp_opcode = rest;
                proof {
                    pos = pos + *size as nat;
                }
            },
            ParsingInstruction::Signed { size, name } => {
                let clamped: usize = if *size > 32 {
                    32
                } else {
                    *size
                };
                let (field, rest) = split_low_bits(temp_opcode, *size);
                let (clamped_field, _) = split_low_bits(temp_opcode, clamped);
                proof {
                    lemma_drop_bits_adds(opcode as nat, pos, *size as nat);
                }
                let signed_value: i32 = if *size == 0 {
                    0
                } else {
                    proof {
                        vstd::arithmetic::power2::lemma_pow2_pos(clamped as nat);
                    }
                    sign_extend_i32(clamped_field, clamped)
                };
                resulting_map.insert(*name, ParsedVariable::I32(signed_value));
                temp_opcode = rest;
                proof {
                    pos = pos + *size as nat;
                }
            },
            ParsingInstruction::Register { size, name } => {
                let (field, rest) = split_low_bits(temp_opcode, *size);
                proof {
                    lemma_drop_bits_adds(opcode as nat, pos, *size as nat);
                }
                let side = match ParsedVariable::try_get(&resulting_map, FieldName::S) {
                    Ok(v) => match v.get_bool() {
                        Ok(b) => b,
                        Err(e) => {
                            return Err(e);
                        },
                    },
                    Err(e) => {
                        return Err(e);
                    },
                };
                let register = Register::from((field % 0x100) as u8, side);
                resulting_map.insert(*name, ParsedVariable::Register(register));
                temp_opcode = rest;
                proof {
                    pos = pos + *size as nat;
                }
            },
            ParsingInstruction::RegisterPair { size, name } => {
                let (field, rest) = split_low_bits(temp_opcode, *size);
                proof {
                    lemma_drop_bits_adds(opcode as nat, pos, *size as nat);
                }
                let side = match ParsedVariable::try_get(&resulting_map, FieldName::S) {
                    Ok(v) => match v.get_bool() {
                        Ok(b) => b,
                        Err(e) => {
                            return Err(e);
                        },
                    },
                    Err(e) => {
                        return Err(e);
                    },
                };
                let register = Register::from_pair((field % 0x100) as u8, side);
                resulting_map.insert(*name, ParsedVariable::Register(register));
                temp_opcode = rest;
                proof {
                    pos = pos + *size as nat;
                }
            },
            ParsingInstruction::RegisterCrosspath { size, name } => {
                let (field, rest) = split_low_bits(temp_opcode, *size);
                proof {
                    lemma_drop_bits_adds(opcode as nat, pos, *size as nat);
                }
                let s = match ParsedVariable::try_get(&resulting_map, FieldName::S) {
                    Ok(v) => match v.get_bool() {
                        Ok(b) => b,
                        Err(e) => {
                            return Err(e);
                        },
                    },
                    Err(e) => {
                        return Err(e);
                    },
                };
                let x = match ParsedVariable::try_get(&resulting_map, FieldName::X) {
                    Ok(v) => match v.get_bool() {
                        Ok(b) => b,
                        Err(e) => {
                            return Err(e);
                        },
                    },
                    Err(e) => {
                        return Err(e);
                    },
                };
                let register = Register::from((field % 0x100) as u8, s != x);
                resulting_map.insert(*name, ParsedVariable::Register(register));
                temp_opcode = rest;
                proof {
                    pos = pos + *size as nat;
                }
            },
            ParsingInstruction::ControlRegister { size, name } => {
                let (field, rest) = split_low_bits(temp_opcode, *size);
                proof {
                    lemma_drop_bits_adds(opcode as nat, pos, *size as nat);
                }
                let low_bits = (field % 0x100) as u8;
                let high_bits = match resulting_map.get(FieldName::Crhi) {
                    Some(v) => match v.get_u8() {
                        Ok(h) => h,
                        Err(e) => {
                            return Err(e);
                        },
                    },
                    None => 0,
                };
                let Some(value) = ControlRegister::from(low_bits, high_bits) else {
                    return Err(DecodeError::Other);
                };
                resulting_map.insert(*name, ParsedVariable::ControlRegister(value));
                temp_opcode = rest;
                proof {
                    pos = pos + *size as nat;
                }
            },
            ParsingInstruction::LSDUnit { name } => {
                let (field, rest) = split_low_bits(temp_opcode, 2);
                proof {
                    lemma_drop_bits_adds(opcode as nat, pos, 2);
                }
                let unit = match field {
                    0 => Unit::L,
                    1 => Unit::S,
                    2 => Unit::D,
                    _ => {
                        return Err(DecodeError::Other);
                    },
                };
                resulting_map.insert(*name, ParsedVariable::Unit(unit));
                temp_opcode = rest;
                proof {
                    pos = pos + 2;
                }
            },
            ParsingInstruction::ConditionalOperation { name } => {
                let (field, rest) = split_low_bits(temp_opcode, 4);
                proof {
                    lemma_drop_bits_adds(opcode as nat, pos, 4);
                }
                let creg = (field % 8) as u8;
                let z = (field / 8) % 2 == 1;
                let predicate = ConditionalOperation::from(creg, z);
                resulting_map.insert(
                    *name,
                    ParsedVariable::ConditionalOperation(predicate),
                );
                temp_opcode = rest;
                proof {
                    pos = pos + 4;
                }
            },
        }
        i = i + 1;
    }
    Ok(resulting_map)
}

} // verus!
