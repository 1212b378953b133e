//! SQL type-cast admissibility.
//!
//! Whether a value of one SQL type can be cast to another depends on the
//! context the cast appears in: an implicit cast site accepts the fewest
//! casts, an assignment more, an explicit cast site the most. For base types
//! the relation is a fixed table; struct, list and map types are compared
//! structurally, with the string type castable to and from any of them in the
//! right context. The table and the structural rules follow PostgreSQL's cast
//! catalog, with the automatic casts to string treated as assignment casts and
//! the casts from string as explicit-only.

use vstd::prelude::*;

verus! {

/// The context a cast operation is invoked in. A cast allowed in one context
/// is allowed in every more permissive context: implicit sites accept the
/// least, explicit sites the most.
#[derive(Clone, Copy, Debug, PartialEq, Eq, Structural)]
pub enum CastContext {
    Implicit,
    Assign,
    Explicit,
}

/// How permissive a context is; contexts are ordered by this rank.
pub open spec fn ctx_rank_spec(c: CastContext) -> int {
    match c {
        CastContext::Implicit => 0,
        CastContext::Assign => 1,
        CastContext::Explicit => 2,
    }
}

/// Whether a cast classified as `c` is allowed in context `allows`.
pub open spec fn ctx_allows(c: CastContext, allows: CastContext) -> bool {
    ctx_rank_spec(c) <= ctx_rank_spec(allows)
}

/// Decide `ctx_allows` executably.
pub fn cast_context_allows(c: CastContext, allows: CastContext) -> (r: bool)
    ensures
        r == ctx_allows(c, allows),
{
    let rc: u8 = match c {
        CastContext::Implicit => 0,
        CastContext::Assign => 1,
        CastContext::Explicit => 2,
    };
    let ra: u8 = match allows {
        CastContext::Implicit => 0,
        CastContext::Assign => 1,
        CastContext::Explicit => 2,
    };
    rc <= ra
}

/// The name of a SQL data type: its shape with parameters erased.
#[derive(Clone, Copy, Debug, PartialEq, Eq, Structural)]
pub enum DataTypeName {
    Boolean,
    Int16,
    Int32,
    Int64,
    Int256,
    Decimal,
    Float32,
    Float64,
    Varchar,
    Date,
    Timestamp,
    Timestamptz,
    Time,
    Interval,
    Jsonb,
    Bytea,
    Serial,
    Struct,
    List,
    MapType,
}

/// A SQL data type. Struct types carry their field types (field names play no
/// part in castability), list types their element type, map types their key
/// and value types.
#[derive(Debug, PartialEq, Eq)]
pub enum DataType {
    Boolean,
    Int16,
    Int32,
    Int64,
    Int256,
    Decimal,
    Float32,
    Float64,
    Varchar,
    Date,
    Timestamp,
    Timestamptz,
    Time,
    Interval,
    Jsonb,
    Bytea,
    Serial,
    Struct(Box<FieldList>),
    List(Box<DataType>),
    MapType(Box<DataType>, Box<DataType>),
}

/// The field types of a struct type, in order.
#[derive(Debug, PartialEq, Eq)]
pub enum FieldList {
    Nil,
    Cons(DataType, Box<FieldList>),
}

/// The cast-context table over base type names: `Some(c)` means a cast from
/// `a` to `b` is allowed in any context at least as permissive as `c`, `None`
/// that no direct cast exists. Implicit casts follow the three PostgreSQL
/// widening chains (the small integers up to the floats, date up to
/// timestamptz, time to interval), with the reverse directions as assignment
/// casts; every base type casts to the string type on assignment and the
/// string type casts to every base type explicitly; jsonb unpacks to bool and
/// the numbers explicitly; bool and int32 interconvert explicitly; serial
/// widens to int64 explicitly.
pub open spec fn cast_context_spec(a: DataTypeName, b: DataTypeName) -> Option<CastContext> {
    match (a, b) {
        (DataTypeName::Int16, DataTypeName::Int32)
        | (DataTypeName::Int16, DataTypeName::Int64)
        | (DataTypeName::Int16, DataTypeName::Decimal)
        | (DataTypeName::Int16, DataTypeName::Float32)
        | (DataTypeName::Int16, DataTypeName::Float64)
        | (DataTypeName::Int16, DataTypeName::Int256)
        | (DataTypeName::Int32, DataTypeName::Int64)
        | (DataTypeName::Int32, DataTypeName::Decimal)
        | (DataTypeName::Int32, DataTypeName::Float32)
        | (DataTypeName::Int32, DataTypeName::Float64)
        | (DataTypeName::Int32, DataTypeName::Int256)
        | (DataTypeName::Int64, DataTypeName::Decimal)
        | (DataTypeName::Int64, DataTypeName::Float32)
        | (DataTypeName::Int64, DataTypeName::Float64)
        | (DataTypeName::Int64, DataTypeName::Int256)
        | (DataTypeName::Decimal, DataTypeName::Float32)
        | (DataTypeName::Decimal, DataTypeName::Float64)
        | (DataTypeName::Float32, DataTypeName::Float64)
        | (DataTypeName::Date, DataTypeName::Timestamp)
        | (DataTypeName::Date, DataTypeName::Timestamptz)
        | (DataTypeName::Timestamp, DataTypeName::Timestamptz)
        | (DataTypeName::Time, DataTypeName::Interval) => Some(CastContext::Implicit),
        (DataTypeName::Boolean, DataTypeName::Varchar)
        | (DataTypeName::Int16, DataTypeName::Varchar)
        | (DataTypeName::Int32, DataTypeName::Int16)
        | (DataTypeName::Int32, DataTypeName::Varchar)
        | (DataTypeName::Int64, DataTypeName::Int16)
        | (DataTypeName::Int64, DataTypeName::Int32)
        | (DataTypeName::Int64, DataTypeName::Varchar)
        | (DataTypeName::Decimal, DataTypeName::Int16)
        | (DataTypeName::Decimal, DataTypeName::Int32)
        | (DataTypeName::Decimal, DataTypeName::Int64)
        | (DataTypeName::Decimal, DataTypeName::Varchar)
        | (DataTypeName::Float32, DataTypeName::Int16)
        | (DataTypeName::Float32, DataTypeName::Int32)
        | (DataTypeName::Float32, DataTypeName::Int64)
        | (DataTypeName::Float32, DataTypeName::Decimal)
        | (DataTypeName::Float32, DataTypeName::Varchar)
        | (DataTypeName::Float64, DataTypeName::Int16)
        | (DataTypeName::Float64, DataTypeName::Int32)
        | (DataTypeName::Float64, DataTypeName::Int64)
        | (DataTypeName::Float64, DataTypeName::Decimal)
        | (DataTypeName::Float64, DataTypeName::Float32)
        | (DataTypeName::Float64, DataTypeName::Varchar)
        | (DataTypeName::Int256, DataTypeName::Varchar)
        | (DataTypeName::Date, DataTypeName::Varchar)
        | (DataTypeName::Timestamp, DataTypeName::Date)
        | (DataTypeName::Timestamp, DataTypeName::Time)
        | (DataTypeName::Timestamp, DataTypeName::Varchar)
        | (DataTypeName::Timestamptz, DataTypeName::Date)
        | (DataTypeName::Timestamptz, DataTypeName::Timestamp)
        | (DataTypeName::Timestamptz, DataTypeName::Time)
        | (DataTypeName::Timestamptz, DataTypeName::Varchar)
        | (DataTypeName::Time, DataTypeName::Varchar)
        | (DataTypeName::Interval, DataTypeName::Time)
        | (DataTypeName::Interval, DataTypeName::Varchar)
        | (DataTypeName::Jsonb, DataTypeName::Varchar)
        | (DataTypeName::Bytea, DataTypeName::Varchar) => Some(CastContext::Assign),
        (DataTypeName::Boolean, DataTypeName::Int32)
        | (DataTypeName::Int32, DataTypeName::Boolean)
        | (DataTypeName::Int256, DataTypeName::Float64)
        | (DataTypeName::Jsonb, DataTypeName::Boolean)
        | (DataTypeName::Jsonb, DataTypeName::Int16)
        | (DataTypeName::Jsonb, DataTypeName::Int32)
        | (DataTypeName::Jsonb, DataTypeName::Int64)
        | (DataTypeName::Jsonb, DataTypeName::Decimal)
        | (DataTypeName::Jsonb, DataTypeName::Float32)
        | (DataTypeName::Jsonb, DataTypeName::Float64)
        | (DataTypeName::Varchar, DataTypeName::Boolean)
        | (DataTypeName::Varchar, DataTypeName::Int16)
        | (DataTypeName::Varchar, DataTypeName::Int32)
        | (DataTypeName::Varchar, DataTypeName::Int64)
        | (DataTypeName::Varchar, DataTypeName::Decimal)
        | (DataTypeName::Varchar, DataTypeName::Float32)
        | (DataTypeName::Varchar, DataTypeName::Float64)
        | (DataTypeName::Varchar, DataTypeName::Int256)
        | (DataTypeName::Varchar, DataTypeName::Date)
        | (DataTypeName::Varchar, DataTypeName::Timestamp)
        | (DataTypeName::Varchar, DataTypeName::Timestamptz)
        | (DataTypeName::Varchar, DataTypeName::Time)
        | (DataTypeName::Varchar, DataTypeName::Interval)
        | (DataTypeName::Varchar, DataTypeName::Jsonb)
        | (DataTypeName::Varchar, DataTypeName::Bytea)
        | (DataTypeName::Serial, DataTypeName::Int64) => Some(CastContext::Explicit),
        _ => None,
    }
}

/// Decide `cast_context_spec` executably.
pub fn cast_context(a: DataTypeName, b: DataTypeName) -> (r: Option<CastContext>)
    ensures
        r == cast_context_spec(a, b),
{
    match (a, b) {
        (DataTypeName::Int16, DataTypeName::Int32)
        | (DataTypeName::Int16, DataTypeName::Int64)
        | (DataTypeName::Int16, DataTypeName::Decimal)
        | (DataTypeName::Int16, DataTypeName::Float32)
        | (DataTypeName::Int16, DataTypeName::Float64)
        | (DataTypeName::Int16, DataTypeName::Int256)
        | (DataTypeName::Int32, DataTypeName::Int64)
        | (DataTypeName::Int32, DataTypeName::Decimal)
        | (DataTypeName::Int32, DataTypeName::Float32)
        | (DataTypeName::Int32, DataTypeName::Float64)
        | (DataTypeName::Int32, DataTypeName::Int256)
        | (DataTypeName::Int64, DataTypeName::Decimal)
        | (DataTypeName::Int64, DataTypeName::Float32)
        | (DataTypeName::Int64, DataTypeName::Float64)
        | (DataTypeName::Int64, DataTypeName::Int256)
        | (DataTypeName::Decimal, DataTypeName::Float32)
        | (DataTypeName::Decimal, DataTypeName::Float64)
        | (DataTypeName::Float32, DataTypeName::Float64)
        | (DataTypeName::Date, DataTypeName::Timestamp)
        | (DataTypeName::Date, DataTypeName::Timestamptz)
        | (DataTypeName::Timestamp, DataTypeName::Timestamptz)
        | (DataTypeName::Time, DataTypeName::Interval) => Some(CastContext::Implicit),
        (DataTypeName::Boolean, DataTypeName::Varchar)
        | (DataTypeName::Int16, DataTypeName::Varchar)
        | (DataTypeName::Int32, DataTypeName::Int16)
        | (DataTypeName::Int32, DataTypeName::Varchar)
        | (DataTypeName::Int64, DataTypeName::Int16)
        | (DataTypeName::Int64, DataTypeName::Int32)
        | (DataTypeName::Int64, DataTypeName::Varchar)
        | (DataTypeName::Decimal, DataTypeName::Int16)
        | (DataTypeName::Decimal, DataTypeName::Int32)
        | (DataTypeName::Decimal, DataTypeName::Int64)
        | (DataTypeName::Decimal, DataTypeName::Varchar)
        | (DataTypeName::Float32, DataTypeName::Int16)
        | (DataTypeName::Float32, DataTypeName::Int32)
        | (DataTypeName::Float32, DataTypeName::Int64)
        | (DataTypeName::Float32, DataTypeName::Decimal)
        | (DataTypeName::Float32, DataTypeName::Varchar)
        | (DataTypeName::Float64, DataTypeName::Int16)
        | (DataTypeName::Float64, DataTypeName::Int32)
        | (DataTypeName::Float64, DataTypeName::Int64)
        | (DataTypeName::Float64, DataTypeName::Decimal)
        | (DataTypeName::Float64, DataTypeName::Float32)
        | (DataTypeName::Float64, DataTypeName::Varchar)
        | (DataTypeName::Int256, DataTypeName::Varchar)
        | (DataTypeName::Date, DataTypeName::Varchar)
        | (DataTypeName::Timestamp, DataTypeName::Date)
        | (DataTypeName::Timestamp, DataTypeName::Time)
        | (DataTypeName::Timestamp, DataTypeName::Varchar)
        | (DataTypeName::Timestamptz, DataTypeName::Date)
        | (DataTypeName::Timestamptz, DataTypeName::Timestamp)
        | (DataTypeName::Timestamptz, DataTypeName::Time)
        | (DataTypeName::Timestamptz, DataTypeName::Varchar)
        | (DataTypeName::Time, DataTypeName::Varchar)
        | (DataTypeName::Interval, DataTypeName::Time)
        | (DataTypeName::Interval, DataTypeName::Varchar)
        | (DataTypeName::Jsonb, DataTypeName::Varchar)
        | (DataTypeName::Bytea, DataTypeName::Varchar) => Some(CastContext::Assign),
        (DataTypeName::Boolean, DataTypeName::Int32)
        | (DataTypeName::Int32, DataTypeName::Boolean)
        | (DataTypeName::Int256, DataTypeName::Float64)
        | (DataTypeName::Jsonb, DataTypeName::Boolean)
        | (DataTypeName::Jsonb, DataTypeName::Int16)
        | (DataTypeName::Jsonb, DataTypeName::Int32)
        | (DataTypeName::Jsonb, DataTypeName::Int64)
        | (DataTypeName::Jsonb, DataTypeName::Decimal)
        | (DataTypeName::Jsonb, DataTypeName::Float32)
        | (DataTypeName::Jsonb, DataTypeName::Float64)
        | (DataTypeName::Varchar, DataTypeName::Boolean)
        | (DataTypeName::Varchar, DataTypeName::Int16)
        | (DataTypeName::Varchar, DataTypeName::Int32)
        | (DataTypeName::Varchar, DataTypeName::Int64)
        | (DataTypeName::Varchar, DataTypeName::Decimal)
        | (DataTypeName::Varchar, DataTypeName::Float32)
        | (DataTypeName::Varchar, DataTypeName::Float64)
        | (DataTypeName::Varchar, DataTypeName::Int256)
        | (DataTypeName::Varchar, DataTypeName::Date)
        | (DataTypeName::Varchar, DataTypeName::Timestamp)
        | (DataTypeName::Varchar, DataTypeName::Timestamptz)
        | (DataTypeName::Varchar, DataTypeName::Time)
        | (DataTypeName::Varchar, DataTypeName::Interval)
        | (DataTypeName::Varchar, DataTypeName::Jsonb)
        | (DataTypeName::Varchar, DataTypeName::Bytea)
        | (DataTypeName::Serial, DataTypeName::Int64) => Some(CastContext::Explicit),
        _ => None,
    }
}


/// The name of a type: its shape with parameters erased.
pub open spec fn type_name_spec(t: DataType) -> DataTypeName {
    match t {
        DataType::Boolean => DataTypeName::Boolean,
        DataType::Int16 => DataTypeName::Int16,
        DataType::Int32 => DataTypeName::Int32,
        DataType::Int64 => DataTypeName::Int64,
        DataType::Int256 => DataTypeName::Int256,
        DataType::Decimal => DataTypeName::Decimal,
        DataType::Float32 => DataTypeName::Float32,
        DataType::Float64 => DataTypeName::Float64,
        DataType::Varchar => DataTypeName::Varchar,
        DataType::Date => DataTypeName::Date,
        DataType::Timestamp => DataTypeName::Timestamp,
        DataType::Timestamptz => DataTypeName::Timestamptz,
        DataType::Time => DataTypeName::Time,
        DataType::Interval => DataTypeName::Interval,
        DataType::Jsonb => DataTypeName::Jsonb,
        DataType::Bytea => DataTypeName::Bytea,
        DataType::Serial => DataTypeName::Serial,
        DataType::Struct(_) => DataTypeName::Struct,
        DataType::List(_) => DataTypeName::List,
        DataType::MapType(_, _) => DataTypeName::MapType,
    }
}

impl DataType {
    /// Well-formedness: struct types have at least one field, at every
    /// nesting depth. An empty record type is resolved away before cast
    /// checking ever sees it.
    pub open spec fn wf(self) -> bool
        decreases self,
    {
        match self {
            DataType::Struct(fs) => fs.len_spec() > 0 && fs.all_wf(),
            DataType::List(t) => t.wf(),
            DataType::MapType(k, v) => k.wf() && v.wf(),
            _ => true,
        }
    }

    /// The name of this type.
    pub fn name(&self) -> (r: DataTypeName)
        ensures
            r == type_name_spec(*self),
    {
        match self {
            DataType::Boolean => DataTypeName::Boolean,
            DataType::Int16 => DataTypeName::Int16,
            DataType::Int32 => DataTypeName::Int32,
            DataType::Int64 => DataTypeName::Int64,
            DataType::Int256 => DataTypeName::Int256,
            DataType::Decimal => DataTypeName::Decimal,
            DataType::Float32 => DataTypeName::Float32,
            DataType::Float64 => DataTypeName::Float64,
            DataType::Varchar => DataTypeName::Varchar,
            DataType::Date => DataTypeName::Date,
            DataType::Timestamp => DataTypeName::Timestamp,
            DataType::Timestamptz => DataTypeName::Timestamptz,
            DataType::Time => DataTypeName::Time,
            DataType::Interval => DataTypeName::Interval,
            DataType::Jsonb => DataTypeName::Jsonb,
            DataType::Bytea => DataTypeName::Bytea,
            DataType::Serial => DataTypeName::Serial,
            DataType::Struct(_) => DataTypeName::Struct,
            DataType::List(_) => DataTypeName::List,
            DataType::MapType(_, _) => DataTypeName::MapType,
        }
    }

    /// Decide structural equality of two types.
    pub fn same_as(&self, other: &DataType) -> (r: bool)
        ensures
            r == (self == other),
        decreases self,
    {
        match (self, other) {
            (DataType::Boolean, DataType::Boolean) => true,
            (DataType::Int16, DataType::Int16) => true,
            (DataType::Int32, DataType::Int32) => true,
            (DataType::Int64, DataType::Int64) => true,
            (DataType::Int256, DataType::Int256) => true,
            (DataType::Decimal, DataType::Decimal) => true,
            (DataType::Float32, DataType::Float32) => true,
            (DataType::Float64, DataType::Float64) => true,
            (DataType::Varchar, DataType::Varchar) => true,
            (DataType::Date, DataType::Date) => true,
            (DataType::Timestamp, DataType::Timestamp) => true,
            (DataType::Timestamptz, DataType::Timestamptz) => true,
            (DataType::Time, DataType::Time) => true,
            (DataType::Interval, DataType::Interval) => true,
            (DataType::Jsonb, DataType::Jsonb) => true,
            (DataType::Bytea, DataType::Bytea) => true,
            (DataType::Serial, DataType::Serial) => true,
            (DataType::Struct(a), DataType::Struct(b)) => a.same_fields(b),
            (DataType::List(a), DataType::List(b)) => a.same_as(b),
            (DataType::MapType(ak, av), DataType::MapType(bk, bv)) => ak.same_as(bk)
                && av.same_as(bv),
            _ => false,
        }
    }

    /// A structurally equal copy of this type.
    pub fn duplicate(&self) -> (r: DataType)
        ensures
            r == *self,
        decreases self,
    {
        match self {
            DataType::Boolean => DataType::Boolean,
            DataType::Int16 => DataType::Int16,
            DataType::Int32 => DataType::Int32,
            DataType::Int64 => DataType::Int64,
            DataType::Int256 => DataType::Int256,
            DataType::Decimal => DataType::Decimal,
            DataType::Float32 => DataType::Float32,
            DataType::Float64 => DataType::Float64,
            DataType::Varchar => DataType::Varchar,
            DataType::Date => DataType::Date,
            DataType::Timestamp => DataType::Timestamp,
            DataType::Timestamptz => DataType::Timestamptz,
            DataType::Time => DataType::Time,
            DataType::Interval => DataType::Interval,
            DataType::Jsonb => DataType::Jsonb,
            DataType::Bytea => DataType::Bytea,
            DataType::Serial => DataType::Serial,
            DataType::Struct(fs) => DataType::Struct(Box::new(fs.duplicate_fields())),
            DataType::List(t) => DataType::List(Box::new(t.duplicate())),
            DataType::MapType(k, v) => DataType::MapType(
                Box::new(k.duplicate()),
                Box::new(v.duplicate()),
            ),
        }
    }
}

impl FieldList {
    /// How many field types the list holds.
    pub open spec fn len_spec(self) -> nat
        decreases self,
    {
        match self {
            FieldList::Nil => 0,
            FieldList::Cons(_, rest) => 1 + rest.len_spec(),
        }
    }

    /// Whether every field type is well-formed.
    pub open spec fn all_wf(self) -> bool
        decreases self,
    {
        match self {
            FieldList::Nil => true,
            FieldList::Cons(t, rest) => t.wf() && rest.all_wf(),
        }
    }

    /// Decide structural equality of two field lists.
    pub fn same_fields(&self, other: &FieldList) -> (r: bool)
        ensures
            r == (self == other),
        decreases self,
    {
        match (self, other) {
            (FieldList::Nil, FieldList::Nil) => true,
            (FieldList::Cons(a, ra), FieldList::Cons(b, rb)) => a.same_as(b)
                && ra.same_fields(rb),
            _ => false,
        }
    }

    /// A structurally equal copy of this field list.
    pub fn duplicate_fields(&self) -> (r: FieldList)
        ensures
            r == *self,
        decreases self,
    {
        match self {
            FieldList::Nil => FieldList::Nil,
            FieldList::Cons(t, rest) => FieldList::Cons(
                t.duplicate(),
                Box::new(rest.duplicate_fields()),
            ),
        }
    }
}

/// Whether a cast from `source` to `target` is allowed in context `allows`:
/// the base table, or the structural rules for struct, list and map types.
pub open spec fn cast_ok_spec(source: DataType, target: DataType, allows: CastContext) -> bool
    decreases source, target, 1int,
{
    ||| cast_ok_struct_spec(source, target, allows)
    ||| cast_ok_array_spec(source, target, allows)
    ||| cast_ok_map_spec(source, target, allows)
    ||| cast_ok_base_spec(source, target, allows)
}

/// The base-table rule: both names are looked up in the cast-context table.
pub open spec fn cast_ok_base_spec(source: DataType, target: DataType, allows: CastContext) -> bool {
    match cast_context_spec(type_name_spec(source), type_name_spec(target)) {
        Some(c) => ctx_allows(c, allows),
        None => false,
    }
}

/// The struct rule: two struct types of the same length whose fields are
/// pairwise equal or castable; and a struct type casts to the string type on
/// assignment, the string type to a struct type only explicitly.
pub open spec fn cast_ok_struct_spec(source: DataType, target: DataType, allows: CastContext) -> bool
    decreases source, target, 0int,
{
    match (source, target) {
        (DataType::Struct(l), DataType::Struct(r)) => fields_castable_spec(*l, *r, allows),
        (DataType::Varchar, DataType::Struct(_)) => ctx_allows(CastContext::Explicit, allows),
        (DataType::Struct(_), DataType::Varchar) => ctx_allows(CastContext::Assign, allows),
        _ => false,
    }
}

/// Pairwise field castability: equal lengths, and each source field equal to
/// or castable to the target field.
pub open spec fn fields_castable_spec(l: FieldList, r: FieldList, allows: CastContext) -> bool
    decreases l, r, 1int,
{
    match (l, r) {
        (FieldList::Nil, FieldList::Nil) => true,
        (FieldList::Cons(a, ra), FieldList::Cons(b, rb)) => (a == b || cast_ok_spec(a, b, allows))
            && fields_castable_spec(*ra, *rb, allows),
        _ => false,
    }
}

/// The list rule: element types castable; and a list type casts to the string
/// type on assignment, the string type to a list type only explicitly.
pub open spec fn cast_ok_array_spec(source: DataType, target: DataType, allows: CastContext) -> bool
    decreases source, target, 0int,
{
    match (source, target) {
        (DataType::List(a), DataType::List(b)) => cast_ok_spec(*a, *b, allows),
        (DataType::Varchar, DataType::List(_)) => ctx_allows(CastContext::Explicit, allows),
        (DataType::List(_), DataType::Varchar) => ctx_allows(CastContext::Assign, allows),
        _ => false,
    }
}

/// The map rule: two map types whose key types and value types are pairwise
/// equal or castable, exactly as if each map were a list of key-value pairs.
pub open spec fn cast_ok_map_spec(source: DataType, target: DataType, allows: CastContext) -> bool
    decreases source, target, 0int,
{
    match (source, target) {
        (DataType::MapType(sk, sv), DataType::MapType(tk, tv)) => (sk == tk || cast_ok_spec(
            *sk,
            *tk,
            allows,
        )) && (sv == tv || cast_ok_spec(*sv, *tv, allows)),
        _ => false,
    }
}

/// Decide whether casting from `source` to `target` is ok in `allows` context.
pub fn cast_ok(source: &DataType, target: &DataType, allows: CastContext) -> (r: bool)
    requires
        source.wf(),
        target.wf(),
    ensures
        r == cast_ok_spec(*source, *target, allows),
    decreases source, target, 1int,
{
    if cast_ok_struct(source, target, allows) {
        true
    } else if cast_ok_array(source, target, allows) {
        true
    } else if cast_ok_map(source, target, allows) {
        true
    } else {
        cast_ok_base(source, target, allows)
    }
}

/// Decide the base-table rule. Both types are taken by name, so struct, list
/// and map types never match here.
pub fn cast_ok_base(source: &DataType, target: &DataType, allows: CastContext) -> (r: bool)
    ensures
        r == cast_ok_base_spec(*source, *target, allows),
{
    match cast_context(source.name(), target.name()) {
        Some(c) => cast_context_allows(c, allows),
        None => false,
    }
}

/// Decide the struct rule.
fn cast_ok_struct(source: &DataType, target: &DataType, allows: CastContext) -> (r: bool)
    requires
        source.wf(),
        target.wf(),
    ensures
        r == cast_ok_struct_spec(*source, *target, allows),
    decreases source, target, 0int,
{
    match (source, target) {
        (DataType::Struct(l), DataType::Struct(r)) => fields_castable(l, r, allows),
        (DataType::Varchar, DataType::Struct(_)) => cast_context_allows(
            CastContext::Explicit,
            allows,
        ),
        (DataType::Struct(_), DataType::Varchar) => cast_context_allows(
            CastContext::Assign,
            allows,
        ),
        _ => false,
    }
}

/// Decide pairwise field castability.
fn fields_castable(l: &FieldList, r: &FieldList, allows: CastContext) -> (res: bool)
    requires
        l.all_wf(),
        r.all_wf(),
    ensures
        res == fields_castable_spec(*l, *r, allows),
    decreases l, r, 1int,
{
    match (l, r) {
        (FieldList::Nil, FieldList::Nil) => true,
        (FieldList::Cons(a, ra), FieldList::Cons(b, rb)) => (a.same_as(b) || cast_ok(
            a,
            b,
            allows,
        )) && fields_castable(ra, rb, allows),
        _ => false,
    }
}

/// Decide the list rule.
fn cast_ok_array(source: &DataType, target: &DataType, allows: CastContext) -> (r: bool)
    requires
        source.wf(),
        target.wf(),
    ensures
        r == cast_ok_array_spec(*source, *target, allows),
    decreases source, target, 0int,
{
    match (source, target) {
        (DataType::List(a), DataType::List(b)) => cast_ok(a, b, allows),
        (DataType::Varchar, DataType::List(_)) => cast_context_allows(
            CastContext::Explicit,
            allows,
        ),
        (DataType::List(_), DataType::Varchar) => cast_context_allows(
            CastContext::Assign,
            allows,
        ),
        _ => false,
    }
}

/// Decide the map rule.
fn cast_ok_map(source: &DataType, target: &DataType, allows: CastContext) -> (r: bool)
    requires
        source.wf(),
        target.wf(),
    ensures
        r == cast_ok_map_spec(*source, *target, allows),
    decreases source, target, 0int,
{
    match (source, target) {
        (DataType::MapType(sk, sv), DataType::MapType(tk, tv)) => (sk.same_as(tk) || cast_ok(
            sk,
            tk,
            allows,
        )) && (sv.same_as(tv) || cast_ok(sv, tv, allows)),
        _ => false,
    }
}

/// One entry of the base cast table: a cast from `from_type` to `to_type` is
/// allowed in any context at least as permissive as `context`.
#[derive(Clone, Copy, Debug)]
pub struct CastSig {
    pub from_type: DataTypeName,
    pub to_type: DataTypeName,
    pub context: CastContext,
}

/// The position of a base type name in the fixed enumeration of castable
/// names, or -1 for the composite names, which the base table never holds.
pub open spec fn name_index_spec(n: DataTypeName) -> int {
    match n {
        DataTypeName::Boolean => 0,
        DataTypeName::Int16 => 1,
        DataTypeName::Int32 => 2,
        DataTypeName::Int64 => 3,
        DataTypeName::Decimal => 4,
        DataTypeName::Float32 => 5,
        DataTypeName::Float64 => 6,
        DataTypeName::Int256 => 7,
        DataTypeName::Date => 8,
        DataTypeName::Timestamp => 9,
        DataTypeName::Timestamptz => 10,
        DataTypeName::Time => 11,
        DataTypeName::Interval => 12,
        DataTypeName::Jsonb => 13,
        DataTypeName::Bytea => 14,
        DataTypeName::Varchar => 15,
        DataTypeName::Serial => 16,
        DataTypeName::Struct => -1,
        DataTypeName::List => -1,
        DataTypeName::MapType => -1,
    }
}

/// A base cast is only ever declared between enumerated names.
proof fn lemma_cast_names_enumerated(a: DataTypeName, b: DataTypeName)
    requires
        cast_context_spec(a, b) is Some,
    ensures
        0 <= name_index_spec(a) < 17,
        0 <= name_index_spec(b) < 17,
{
}

/// The base type names, in their fixed enumeration order.
fn all_type_names() -> (r: Vec<DataTypeName>)
    ensures
        r@.len() == 17,
        forall|i: int| 0 <= i < 17 ==> name_index_spec(#[trigger] r@[i]) == i,
{
    let mut r: Vec<DataTypeName> = Vec::new();
    r.push(DataTypeName::Boolean);
    r.push(DataTypeName::Int16);
    r.push(DataTypeName::Int32);
    r.push(DataTypeName::Int64);
    r.push(DataTypeName::Decimal);
    r.push(DataTypeName::Float32);
    r.push(DataTypeName::Float64);
    r.push(DataTypeName::Int256);
    r.push(DataTypeName::Date);
    r.push(DataTypeName::Timestamp);
    r.push(DataTypeName::Timestamptz);
    r.push(DataTypeName::Time);
    r.push(DataTypeName::Interval);
    r.push(DataTypeName::Jsonb);
    r.push(DataTypeName::Bytea);
    r.push(DataTypeName::Varchar);
    r.push(DataTypeName::Serial);
    r
}

/// The whole base cast table, as triples: sound (every listed triple is in the
/// table) and complete (every pair the table holds is listed).
pub fn cast_map_array() -> (r: Vec<(DataTypeName, DataTypeName, CastContext)>)
    ensures
        forall|j: int|
            0 <= j < r@.len() ==> cast_context_spec(#[trigger] r@[j].0, r@[j].1) == Some(r@[j].2),
        forall|a: DataTypeName, b: DataTypeName|
            #[trigger] cast_context_spec(a, b) is Some ==> exists|j: int|
                0 <= j < r@.len() && r@[j].0 == a && r@[j].1 == b,
{
    let names = all_type_names();
    let mut out: Vec<(DataTypeName, DataTypeName, CastContext)> = Vec::new();
    let n = names.len();
    for i in 0..n
        invariant
            n == names@.len(),
            n == 17,
            forall|m: int| 0 <= m < 17 ==> name_index_spec(#[trigger] names@[m]) == m,
            forall|j: int|
                0 <= j < out@.len() ==> cast_context_spec(#[trigger] out@[j].0, out@[j].1) == Some(
                    out@[j].2,
                ),
            forall|a: DataTypeName, b: DataTypeName|
                #[trigger] cast_context_spec(a, b) is Some && name_index_spec(a) < i ==> exists|
                    j: int,
                |
                    0 <= j < out@.len() && out@[j].0 == a && out@[j].1 == b,
    {
        for k in 0..n
            invariant
                n == names@.len(),
                n == 17,
                i < 17,
                forall|m: int| 0 <= m < 17 ==> name_index_spec(#[trigger] names@[m]) == m,
                forall|j: int|
                    0 <= j < out@.len() ==> cast_context_spec(#[trigger] out@[j].0, out@[j].1)
                        == Some(out@[j].2),
                forall|a: DataTypeName, b: DataTypeName|
                    #[trigger] cast_context_spec(a, b) is Some && (name_index_spec(a) < i || (
                    name_index_spec(a) == i && name_index_spec(b) < k)) ==> exists|j: int|
                        0 <= j < out@.len() && out@[j].0 == a && out@[j].1 == b,
        {
            let src = names[i];
            let dst = names[k];
            match cast_context(src, dst) {
                Some(c) => {
                    let ghost before = out@;
                    out.push((src, dst, c));
                    proof {
                        assert(out@[before.len() as int] == (src, dst, c));
                        assert forall|a: DataTypeName, b: DataTypeName|
                            #[trigger] cast_context_spec(a, b) is Some && (name_index_spec(a) < i
                                || (name_index_spec(a) == i && name_index_spec(b) < k
                                + 1)) implies exists|j: int|
                            0 <= j < out@.len() && out@[j].0 == a && out@[j].1 == b by {
                            if name_index_spec(a) == i && name_index_spec(b) == k {
                                lemma_cast_names_enumerated(a, b);
                                assert(names@[name_index_spec(a)] == a);
                                assert(names@[name_index_spec(b)] == b);
                                assert(out@[before.len() as int].0 == a);
                            } else {
                                let j = choose|j: int|
                                    0 <= j < before.len() && before[j].0 == a && before[j].1 == b;
                                assert(out@[j].0 == a && out@[j].1 == b);
                            }
                        }
                    }
                },
                None => {
                    proof {
                        assert forall|a: DataTypeName, b: DataTypeName|
                            #[trigger] cast_context_spec(a, b) is Some && (name_index_spec(a) < i
                                || (name_index_spec(a) == i && name_index_spec(b) < k
                                + 1)) implies exists|j: int|
                            0 <= j < out@.len() && out@[j].0 == a && out@[j].1 == b by {
                            if name_index_spec(a) == i && name_index_spec(b) == k {
                                lemma_cast_names_enumerated(a, b);
                                assert(names@[name_index_spec(a)] == a);
                                assert(names@[name_index_spec(b)] == b);
                                assert(false);
                            }
                        }
                    }
                },
            }
        }
        proof {
            assert forall|a: DataTypeName, b: DataTypeName|
                #[trigger] cast_context_spec(a, b) is Some && name_index_spec(a) < i
                + 1 implies exists|j: int|
                0 <= j < out@.len() && out@[j].0 == a && out@[j].1 == b by {
                lemma_cast_names_enumerated(a, b);
            }
        }
    }
    proof {
        assert forall|a: DataTypeName, b: DataTypeName|
            #[trigger] cast_context_spec(a, b) is Some implies exists|j: int|
            0 <= j < out@.len() && out@[j].0 == a && out@[j].1 == b by {
            lemma_cast_names_enumerated(a, b);
        }
    }
    out
}

/// The whole base cast table, as signatures; the same contents as
/// `cast_map_array`.
pub fn cast_sigs() -> (r: Vec<CastSig>)
    ensures
        forall|j: int|
            0 <= j < r@.len() ==> cast_context_spec(#[trigger] r@[j].from_type, r@[j].to_type)
                == Some(r@[j].context),
        forall|a: DataTypeName, b: DataTypeName|
            #[trigger] cast_context_spec(a, b) is Some ==> exists|j: int|
                0 <= j < r@.len() && r@[j].from_type == a && r@[j].to_type == b,
{
    let triples = cast_map_array();
    let mut r: Vec<CastSig> = Vec::new();
    let n = triples.len();
    for i in 0..n
        invariant
            n == triples@.len(),
            r@.len() == i,
            forall|j: int|
                0 <= j < triples@.len() ==> cast_context_spec(
                    #[trigger] triples@[j].0,
                    triples@[j].1,
                ) == Some(triples@[j].2),
            forall|a: DataTypeName, b: DataTypeName|
                #[trigger] cast_context_spec(a, b) is Some ==> exists|j: int|
                    0 <= j < triples@.len() && triples@[j].0 == a && triples@[j].1 == b,
            forall|j: int|
                0 <= j < i ==> (#[trigger] r@[j]).from_type == triples@[j].0 && r@[j].to_type
                    == triples@[j].1 && r@[j].context == triples@[j].2,
    {
        let t = triples[i];
        r.push(CastSig { from_type: t.0, to_type: t.1, context: t.2 });
    }
    proof {
        assert forall|a: DataTypeName, b: DataTypeName|
            #[trigger] cast_context_spec(a, b) is Some implies exists|j: int|
            0 <= j < r@.len() && r@[j].from_type == a && r@[j].to_type == b by {
            let j = choose|j: int|
                0 <= j < triples@.len() && triples@[j].0 == a && triples@[j].1 == b;
            assert(r@[j].from_type == a && r@[j].to_type == b);
        }
    }
    r
}

/// Two types that can be neither matched nor implicitly aligned.
#[derive(Debug, PartialEq, Eq)]
pub struct TypeMismatch {
    pub lhs: DataType,
    pub rhs: DataType,
}

/// What `least_restrictive` decides: the two types must be equal or one must
/// cast to the other implicitly, and the implicit-cast target wins.
pub open spec fn least_restrictive_spec(lhs: DataType, rhs: DataType) -> Result<
    DataType,
    TypeMismatch,
> {
    if lhs == rhs {
        Ok(lhs)
    } else if cast_ok_spec(lhs, rhs, CastContext::Implicit) {
        Ok(rhs)
    } else if cast_ok_spec(rhs, lhs, CastContext::Implicit) {
        Ok(lhs)
    } else {
        Err(TypeMismatch { lhs, rhs })
    }
}

/// Find the least restrictive of two types: the one the other casts to
/// implicitly, or the type itself when both are equal; an error names the two
/// types when neither direction works.
pub fn least_restrictive(lhs: DataType, rhs: DataType) -> (r: Result<DataType, TypeMismatch>)
    requires
        lhs.wf(),
        rhs.wf(),
    ensures
        r == least_restrictive_spec(lhs, rhs),
{
    if lhs.same_as(&rhs) {
        Ok(lhs)
    } else if cast_ok(&lhs, &rhs, CastContext::Implicit) {
        Ok(rhs)
    } else if cast_ok(&rhs, &lhs, CastContext::Implicit) {
        Ok(lhs)
    } else {
        Err(TypeMismatch { lhs, rhs })
    }
}

/// What `align_types` decides over the return types of a list of expressions,
/// `None` standing for an untyped one: fold `least_restrictive` over the typed
/// entries, carrying the accumulator.
pub open spec fn align_fold(s: Seq<Option<DataType>>, acc: Option<DataType>) -> Result<
    Option<DataType>,
    TypeMismatch,
>
    decreases s.len(),
{
    if s.len() == 0 {
        Ok(acc)
    } else {
        match s[0] {
            None => align_fold(s.subrange(1, s.len() as int), acc),
            Some(t) => match acc {
                None => align_fold(s.subrange(1, s.len() as int), Some(t)),
                Some(a) => match least_restrictive_spec(a, t) {
                    Ok(u) => align_fold(s.subrange(1, s.len() as int), Some(u)),
                    Err(e) => Err(e),
                },
            },
        }
    }
}

/// Whether every typed entry is well-formed.
pub open spec fn all_types_wf(s: Seq<Option<DataType>>) -> bool {
    forall|i: int|
        0 <= i < s.len() ==> match #[trigger] s[i] {
            Some(t) => t.wf(),
            None => true,
        }
}

/// Every intermediate accumulator of a fold over well-formed types is
/// well-formed.
proof fn lemma_least_restrictive_wf(a: DataType, b: DataType)
    requires
        a.wf(),
        b.wf(),
        least_restrictive_spec(a, b) is Ok,
    ensures
        (least_restrictive_spec(a, b)->Ok_0).wf(),
{
}

/// Find the least restrictive type over the return types of a list of
/// expressions, `None` standing for an untyped one: the fold of
/// `least_restrictive` over the typed entries, or the string type when every
/// entry is untyped. Used to align the branches of a `VALUES`, `CASE` or
/// `UNION`; the caller then casts each expression to the result.
pub fn align_types(types: &Vec<Option<DataType>>) -> (r: Result<DataType, TypeMismatch>)
    requires
        all_types_wf(types@),
    ensures
        r == (match align_fold(types@, None) {
            Ok(Some(t)) => Ok::<DataType, TypeMismatch>(t),
            Ok(None) => Ok::<DataType, TypeMismatch>(DataType::Varchar),
            Err(e) => Err::<DataType, TypeMismatch>(e),
        }),
{
    let mut acc: Option<DataType> = None;
    let n = types.len();
    proof {
        assert(types@.subrange(0, types@.len() as int) =~= types@);
    }
    for i in 0..n
        invariant
            n == types@.len(),
            all_types_wf(types@),
            match acc {
                Some(t) => t.wf(),
                None => true,
            },
            align_fold(types@, None) == align_fold(
                types@.subrange(i as int, types@.len() as int),
                acc,
            ),
    {
        let ghost pre = types@.subrange(i as int, types@.len() as int);
        let ghost post = types@.subrange(i as int + 1, types@.len() as int);
        proof {
            assert(pre[0] == types@[i as int]);
            assert(pre.subrange(1, pre.len() as int) =~= post);
        }
        match &types[i] {
            None => {},
            Some(t) => {
                match acc {
                    None => {
                        acc = Some(t.duplicate());
                    },
                    Some(a) => {
                        proof {
                            if least_restrictive_spec(a, types@[i as int]->Some_0) is Ok {
                                lemma_least_restrictive_wf(a, types@[i as int]->Some_0);
                            }
                        }
                        match least_restrictive(a, t.duplicate()) {
                            Ok(u) => {
                                acc = Some(u);
                            },
                            Err(e) => {
                                return Err(e);
                            },
                        }
                    },
                }
            },
        }
    }
    proof {
        assert(types@.subrange(n as int, types@.len() as int) =~= Seq::<
            Option<DataType>,
        >::empty());
    }
    match acc {
        Some(t) => Ok(t),
        None => Ok(DataType::Varchar),
    }
}

/// Why an array-and-element alignment failed: the argument in array position
/// is not an array, or the element types cannot be matched.
#[derive(Debug, PartialEq, Eq)]
pub enum AlignArrayError {
    ExpectsArray(DataType),
    CannotMatch(TypeMismatch),
}

/// What `align_array_and_element` decides, over the return type of the array
/// argument (`None` when it is untyped) and the return types of the element
/// arguments: the element types are aligned together with the array's element
/// type, and the result is the array type over that common element type.
pub open spec fn align_array_and_element_spec(
    array: Option<DataType>,
    elements: Seq<Option<DataType>>,
) -> Result<DataType, AlignArrayError> {
    match array {
        Some(DataType::List(inner)) => align_array_result(elements.push(Some(*inner))),
        Some(other) => Err(AlignArrayError::ExpectsArray(other)),
        None => align_array_result(elements.push(None)),
    }
}

/// The array type over the aligned common element type.
pub open spec fn align_array_result(s: Seq<Option<DataType>>) -> Result<
    DataType,
    AlignArrayError,
> {
    match align_fold(s, None) {
        Ok(Some(t)) => Ok(DataType::List(Box::new(t))),
        Ok(None) => Ok(DataType::List(Box::new(DataType::Varchar))),
        Err(e) => Err(AlignArrayError::CannotMatch(e)),
    }
}

/// Every successful fold over well-formed types yields a well-formed type.
proof fn lemma_align_fold_wf(s: Seq<Option<DataType>>, acc: Option<DataType>)
    requires
        all_types_wf(s),
        acc matches Some(t) ==> t.wf(),
    ensures
        align_fold(s, acc) matches Ok(Some(t)) ==> t.wf(),
    decreases s.len(),
{
    if s.len() > 0 {
        let rest = s.subrange(1, s.len() as int);
        assert(all_types_wf(rest)) by {
            assert(forall|i: int| 0 <= i < rest.len() ==> rest[i] == s[i + 1]);
        }
        match s[0] {
            None => lemma_align_fold_wf(rest, acc),
            Some(t) => match acc {
                None => lemma_align_fold_wf(rest, Some(t)),
                Some(a) => match least_restrictive_spec(a, t) {
                    Ok(u) => {
                        lemma_least_restrictive_wf(a, t);
                        lemma_align_fold_wf(rest, Some(u));
                    },
                    Err(_) => {},
                },
            },
        }
    }
}

/// Align an array argument and element arguments to a common array type:
/// the element types and the array's element type are aligned to their least
/// restrictive type, and the result is the array type over it. An untyped
/// argument (`None`) joins the alignment as untyped. The caller then casts
/// each argument to the result. Fails when the array argument is not an array
/// type, or when the types cannot be matched.
pub fn align_array_and_element(
    array: &Option<DataType>,
    elements: &Vec<Option<DataType>>,
) -> (r: Result<DataType, AlignArrayError>)
    requires
        all_types_wf(elements@),
        (array matches Some(t) ==> t.wf()),
    ensures
        r == align_array_and_element_spec(*array, elements@),
        r matches Ok(t) ==> t.wf(),
{
    let dummy: Option<DataType> = match array {
        None => None,
        Some(t) => match t {
            DataType::List(inner) => Some(inner.duplicate()),
            other => {
                return Err(AlignArrayError::ExpectsArray(other.duplicate()));
            },
        },
    };
    let mut combined: Vec<Option<DataType>> = Vec::new();
    let n = elements.len();
    for i in 0..n
        invariant
            n == elements@.len(),
            combined@.len() == i,
            forall|j: int| 0 <= j < i ==> combined@[j] == elements@[j],
    {
        let copied: Option<DataType> = match &elements[i] {
            None => None,
            Some(t) => Some(t.duplicate()),
        };
        combined.push(copied);
    }
    combined.push(dummy);
    proof {
        let a = *array;
        match a {
            Some(DataType::List(inner)) => {
                assert(combined@ =~= elements@.push(Some(*inner)));
            },
            Some(_) => {
                assert(false);
            },
            None => {
                assert(combined@ =~= elements@.push(None));
            },
        }
        assert(all_types_wf(combined@));
        lemma_align_fold_wf(combined@, None);
    }
    match align_types(&combined) {
        Ok(t) => {
            proof {
                let folded = align_fold(combined@, None);
                match folded {
                    Ok(Some(u)) => {
                        assert(t == u);
                        assert(t.wf());
                    },
                    Ok(None) => {
                        assert(t == DataType::Varchar);
                    },
                    Err(_) => {
                        assert(false);
                    },
                }
            }
            Ok(DataType::List(Box::new(t)))
        },
        Err(e) => Err(AlignArrayError::CannotMatch(e)),
    }
}

} // verus!
