//! Values on both sides of the bridge: the typed values of the virtual
//! machine and the dynamically typed values of the host.

use vstd::prelude::*;
use crate::kind::ValueKind;

verus! {

/// A typed value of the virtual machine, of one of the kinds that the bridge
/// converts. A float is held as its IEEE-754 bit pattern.
#[derive(Clone, Copy, Debug, PartialEq, Eq, Structural)]
pub enum Value {
    /// A 32-bit integer.
    I32(i32),
    /// A 64-bit integer.
    I64(i64),
    /// The bits of a 32-bit float.
    F32(u32),
    /// The bits of a 64-bit float.
    F64(u64),
}

impl Value {
    /// The kind of this value.
    pub open spec fn spec_kind(self) -> ValueKind {
        match self {
            Value::I32(_) => ValueKind::I32,
            Value::I64(_) => ValueKind::I64,
            Value::F32(_) => ValueKind::F32,
            Value::F64(_) => ValueKind::F64,
        }
    }

    /// The value that a fresh slot of the given kind holds: the integer zero,
    /// or the float whose bits are all zero. No value for a kind that the
    /// bridge does not convert.
    pub open spec fn spec_zero(kind: ValueKind) -> Option<Value> {
        match kind {
            ValueKind::I32 => Some(Value::I32(0)),
            ValueKind::I64 => Some(Value::I64(0)),
            ValueKind::F32 => Some(Value::F32(0)),
            ValueKind::F64 => Some(Value::F64(0)),
            ValueKind::V128 => None,
            ValueKind::Ref => None,
        }
    }

    /// The kind of this value.
    #[verifier::when_used_as_spec(spec_kind)]
    pub fn kind(self) -> (kind: ValueKind)
        ensures
            kind == self.spec_kind(),
            kind.is_result_kind(),
    {
        match self {
            Value::I32(_) => ValueKind::I32,
            Value::I64(_) => ValueKind::I64,
            Value::F32(_) => ValueKind::F32,
            Value::F64(_) => ValueKind::F64,
        }
    }

    /// The value that a fresh slot of the given kind holds.
    #[verifier::when_used_as_spec(spec_zero)]
    pub fn zero(kind: ValueKind) -> (value: Option<Value>)
        ensures
            value == Value::spec_zero(kind),
            value is Some <==> kind.is_result_kind(),
            value matches Some(v) ==> v.kind() == kind,
    {
        match kind {
            ValueKind::I32 => Some(Value::I32(0)),
            ValueKind::I64 => Some(Value::I64(0)),
            ValueKind::F32 => Some(Value::F32(0)),
            ValueKind::F64 => Some(Value::F64(0)),
            ValueKind::V128 => None,
            ValueKind::Ref => None,
        }
    }
}

/// Whether the values are as many as the kinds and each is of its kind.
pub open spec fn conforms(values: Seq<Value>, kinds: Seq<ValueKind>) -> bool {
    &&& values.len() == kinds.len()
    &&& forall|i: int| 0 <= i < values.len() ==> (#[trigger] values[i]).kind() == kinds[i]
}

/// A value of the host, whose kind is known only when the program runs.
#[derive(Debug, PartialEq, Eq)]
pub enum HostValue {
    /// The host's undefined value.
    Undefined,
    /// The host's null value.
    Null,
    /// A truth value.
    Boolean(bool),
    /// A number. The host converts its numbers to integers by rules of its
    /// own, so a number comes with both conversions and with the bits of the
    /// double that it is.
    Number {
        /// The number as the host converts it to a 32-bit integer.
        int32: i32,
        /// The number as the host converts it to a 64-bit integer.
        int64: i64,
        /// The IEEE-754 bits of the number.
        double_bits: u64,
    },
    /// A string.
    Text(String),
    /// Any other value: an object, a function, a symbol.
    Object,
}

impl HostValue {
    /// Whether this is a number.
    pub open spec fn spec_is_number(&self) -> bool {
        self is Number
    }

    /// The value of the given kind that this host value converts to: an
    /// integer kind takes the host's own conversion to that width, the 64-bit
    /// float the bits of the double. Nothing where this is no number or the
    /// kind is none that an argument can be converted to.
    pub open spec fn spec_convert(&self, kind: ValueKind) -> Option<Value> {
        match *self {
            HostValue::Number { int32, int64, double_bits } => match kind {
                ValueKind::I32 => Some(Value::I32(int32)),
                ValueKind::I64 => Some(Value::I64(int64)),
                ValueKind::F64 => Some(Value::F64(double_bits)),
                _ => None,
            },
            _ => None,
        }
    }

    /// Whether this is a number.
    #[verifier::when_used_as_spec(spec_is_number)]
    pub fn is_number(&self) -> (b: bool)
        ensures
            b == self.spec_is_number(),
    {
        match self {
            HostValue::Number { .. } => true,
            _ => false,
        }
    }

    /// The value of the given kind that this host value converts to.
    #[verifier::when_used_as_spec(spec_convert)]
    pub fn convert(&self, kind: ValueKind) -> (value: Option<Value>)
        ensures
            value == self.spec_convert(kind),
            value is Some <==> self.is_number() && kind.is_parameter_kind(),
            value matches Some(v) ==> v.kind() == kind,
    {
        match self {
            HostValue::Number { int32, int64, double_bits } => match kind {
                ValueKind::I32 => Some(Value::I32(*int32)),
                ValueKind::I64 => Some(Value::I64(*int64)),
                ValueKind::F64 => Some(Value::F64(*double_bits)),
                _ => None,
            },
            _ => None,
        }
    }
}

} // verus!
