//! Parameter values: the closed set of types a payload can carry. A value is
//! stored with its type erased, as one variant of [`ParamValue`]; the variant
//! is the tag of the type it was stored as, and a value is only ever read
//! back as that type.

use vstd::prelude::*;

verus! {

/// The tag recorded with every stored parameter: one per supported type.
#[derive(Clone, Copy, Debug, PartialEq, Eq, Structural)]
pub enum ParamKind {
    Bool,
    U8,
    U32,
    U64,
    I32,
    I64,
    Char,
    Str,
    Text,
}

/// A parameter value with its type erased: one variant per supported type.
#[derive(Debug)]
pub enum ParamValue {
    Bool(bool),
    U8(u8),
    U32(u32),
    U64(u64),
    I32(i32),
    I64(i64),
    Char(char),
    Str(&'static str),
    Text(String),
}

impl ParamValue {
    /// The tag of the type this value was stored as.
    pub open spec fn kind(self) -> ParamKind {
        match self {
            ParamValue::Bool(_) => ParamKind::Bool,
            ParamValue::U8(_) => ParamKind::U8,
            ParamValue::U32(_) => ParamKind::U32,
            ParamValue::U64(_) => ParamKind::U64,
            ParamValue::I32(_) => ParamKind::I32,
            ParamValue::I64(_) => ParamKind::I64,
            ParamValue::Char(_) => ParamKind::Char,
            ParamValue::Str(_) => ParamKind::Str,
            ParamValue::Text(_) => ParamKind::Text,
        }
    }

    /// The tag of the type this value was stored as.
    pub fn tag(&self) -> (kind: ParamKind)
        ensures
            kind == self.kind(),
    {
        match self {
            ParamValue::Bool(_) => ParamKind::Bool,
            ParamValue::U8(_) => ParamKind::U8,
            ParamValue::U32(_) => ParamKind::U32,
            ParamValue::U64(_) => ParamKind::U64,
            ParamValue::I32(_) => ParamKind::I32,
            ParamValue::I64(_) => ParamKind::I64,
            ParamValue::Char(_) => ParamKind::Char,
            ParamValue::Str(_) => ParamKind::Str,
            ParamValue::Text(_) => ParamKind::Text,
        }
    }
}

impl Clone for ParamValue {
    /// An independently owned copy of the same value under the same tag.
    fn clone(&self) -> (copy: Self)
        ensures
            copy == *self,
    {
        match self {
            ParamValue::Bool(v) => ParamValue::Bool(*v),
            ParamValue::U8(v) => ParamValue::U8(*v),
            ParamValue::U32(v) => ParamValue::U32(*v),
            ParamValue::U64(v) => ParamValue::U64(*v),
            ParamValue::I32(v) => ParamValue::I32(*v),
            ParamValue::I64(v) => ParamValue::I64(*v),
            ParamValue::Char(v) => ParamValue::Char(*v),
            ParamValue::Str(v) => ParamValue::Str(*v),
            ParamValue::Text(v) => ParamValue::Text(v.clone()),
        }
    }
}

/// A type whose values can be stored in a payload and read back.
///
/// `erased` and `recovered` say what storing and reading mean for the type;
/// the two lemmas are what every implementation owes: storing keeps the tag
/// and loses nothing, and reading succeeds exactly on the type's own tag.
pub trait ParamType: Sized {
    /// The tag under which values of this type are stored.
    spec fn kind() -> ParamKind;

    /// The stored form of a value.
    spec fn erased(self) -> ParamValue;

    /// The value that a stored form holds, if its tag is this type's.
    spec fn recovered(value: ParamValue) -> Option<Self>;

    /// A stored value carries this type's tag and reads back as itself.
    proof fn lemma_erased(x: Self)
        ensures
            x.erased().kind() == Self::kind(),
            Self::recovered(x.erased()) == Some(x),
    ;

    /// Reading succeeds exactly on this type's tag, and what is read is what
    /// was stored.
    proof fn lemma_recovered(value: ParamValue)
        ensures
            Self::recovered(value) is Some <==> value.kind() == Self::kind(),
            Self::recovered(value) matches Some(x) ==> x.erased() == value,
    ;

    /// The tag under which values of this type are stored.
    fn tag() -> (kind: ParamKind)
        ensures
            kind == Self::kind(),
    ;

    /// Stores a value: wraps it in the variant of its type.
    fn erase(self) -> (value: ParamValue)
        ensures
            value == self.erased(),
    ;

    /// Reads a stored value back as this type, handing out an owned copy.
    fn recover(value: &ParamValue) -> (found: Option<Self>)
        ensures
            found == Self::recovered(*value),
    ;
}

impl ParamType for bool {
    open spec fn kind() -> ParamKind {
        ParamKind::Bool
    }

    open spec fn erased(self) -> ParamValue {
        ParamValue::Bool(self)
    }

    open spec fn recovered(value: ParamValue) -> Option<Self> {
        match value {
            ParamValue::Bool(x) => Some(x),
            _ => None,
        }
    }

    proof fn lemma_erased(x: Self) {
    }

    proof fn lemma_recovered(value: ParamValue) {
    }

    fn tag() -> (kind: ParamKind) {
        ParamKind::Bool
    }

    fn erase(self) -> (value: ParamValue) {
        ParamValue::Bool(self)
    }

    fn recover(value: &ParamValue) -> (found: Option<Self>) {
        match value {
            ParamValue::Bool(x) => Some(*x),
            _ => None,
        }
    }
}

impl ParamType for u8 {
    open spec fn kind() -> ParamKind {
        ParamKind::U8
    }

    open spec fn erased(self) -> ParamValue {
        ParamValue::U8(self)
    }

    open spec fn recovered(value: ParamValue) -> Option<Self> {
        match value {
            ParamValue::U8(x) => Some(x),
            _ => None,
        }
    }

    proof fn lemma_erased(x: Self) {
    }

    proof fn lemma_recovered(value: ParamValue) {
    }

    fn tag() -> (kind: ParamKind) {
        ParamKind::U8
    }

    fn erase(self) -> (value: ParamValue) {
        ParamValue::U8(self)
    }

    fn recover(value: &ParamValue) -> (found: Option<Self>) {
        match value {
            ParamValue::U8(x) => Some(*x),
            _ => None,
        }
    }
}

impl ParamType for u32 {
    open spec fn kind() -> ParamKind {
        ParamKind::U32
    }

    open spec fn erased(self) -> ParamValue {
        ParamValue::U32(self)
    }

    open spec fn recovered(value: ParamValue) -> Option<Self> {
        match value {
            ParamValue::U32(x) => Some(x),
            _ => None,
        }
    }

    proof fn lemma_erased(x: Self) {
    }

    proof fn lemma_recovered(value: ParamValue) {
    }

    fn tag() -> (kind: ParamKind) {
        ParamKind::U32
    }

    fn erase(self) -> (value: ParamValue) {
        ParamValue::U32(self)
    }

    fn recover(value: &ParamValue) -> (found: Option<Self>) {
        match value {
            ParamValue::U32(x) => Some(*x),
            _ => None,
        }
    }
}

impl ParamType for u64 {
    open spec fn kind() -> ParamKind {
        ParamKind::U64
    }

    open spec fn erased(self) -> ParamValue {
        ParamValue::U64(self)
    }

    open spec fn recovered(value: ParamValue) -> Option<Self> {
        match value {
            ParamValue::U64(x) => Some(x),
            _ => None,
        }
    }

    proof fn lemma_erased(x: Self) {
    }

    proof fn lemma_recovered(value: ParamValue) {
    }

    fn tag() -> (kind: ParamKind) {
        ParamKind::U64
    }

    fn erase(self) -> (value: ParamValue) {
        ParamValue::U64(self)
    }

    fn recover(value: &ParamValue) -> (found: Option<Self>) {
        match value {
            ParamValue::U64(x) => Some(*x),
            _ => None,
        }
    }
}

impl ParamType for i32 {
    open spec fn kind() -> ParamKind {
        ParamKind::I32
    }

    open spec fn erased(self) -> ParamValue {
        ParamValue::I32(self)
    }

    open spec fn recovered(value: ParamValue) -> Option<Self> {
        match value {
            ParamValue::I32(x) => Some(x),
            _ => None,
        }
    }

    proof fn lemma_erased(x: Self) {
    }

    proof fn lemma_recovered(value: ParamValue) {
    }

    fn tag() -> (kind: ParamKind) {
        ParamKind::I32
    }

    fn erase(self) -> (value: ParamValue) {
        ParamValue::I32(self)
    }

    fn recover(value: &ParamValue) -> (found: Option<Self>) {
        match value {
            ParamValue::I32(x) => Some(*x),
            _ => None,
        }
    }
}

impl ParamType for i64 {
    open spec fn kind() -> ParamKind {
        ParamKind::I64
    }

    open spec fn erased(self) -> ParamValue {
        ParamValue::I64(self)
    }

    open spec fn recovered(value: ParamValue) -> Option<Self> {
        match value {
            ParamValue::I64(x) => Some(x),
            _ => None,
        }
    }

    proof fn lemma_erased(x: Self) {
    }

    proof fn lemma_recovered(value: ParamValue) {
    }

    fn tag() -> (kind: ParamKind) {
        ParamKind::I64
    }

    fn erase(self) -> (value: ParamValue) {
        ParamValue::I64(self)
    }

    fn recover(value: &ParamValue) -> (found: Option<Self>) {
        match value {
            ParamValue::I64(x) => Some(*x),
            _ => None,
        }
    }
}

impl ParamType for char {
    open spec fn kind() -> ParamKind {
        ParamKind::Char
    }

    open spec fn erased(self) -> ParamValue {
        ParamValue::Char(self)
    }

    open spec fn recovered(value: ParamValue) -> Option<Self> {
        match value {
            ParamValue::Char(x) => Some(x),
            _ => None,
        }
    }

    proof fn lemma_erased(x: Self) {
    }

    proof fn lemma_recovered(value: ParamValue) {
    }

    fn tag() -> (kind: ParamKind) {
        ParamKind::Char
    }

    fn erase(self) -> (value: ParamValue) {
        ParamValue::Char(self)
    }

    fn recover(value: &ParamValue) -> (found: Option<Self>) {
        match value {
            ParamValue::Char(x) => Some(*x),
            _ => None,
        }
    }
}

impl ParamType for &'static str {
    open spec fn kind() -> ParamKind {
        ParamKind::Str
    }

    open spec fn erased(self) -> ParamValue {
        ParamValue::Str(self)
    }

    open spec fn recovered(value: ParamValue) -> Option<Self> {
        match value {
            ParamValue::Str(x) => Some(x),
            _ => None,
        }
    }

    proof fn lemma_erased(x: Self) {
    }

    proof fn lemma_recovered(value: ParamValue) {
    }

    fn tag() -> (kind: ParamKind) {
        ParamKind::Str
    }

    fn erase(self) -> (value: ParamValue) {
        ParamValue::Str(self)
    }

    fn recover(value: &ParamValue) -> (found: Option<Self>) {
        match value {
            ParamValue::Str(x) => Some(*x),
            _ => None,
        }
    }
}

impl ParamType for String {
    open spec fn kind() -> ParamKind {
        ParamKind::Text
    }

    open spec fn erased(self) -> ParamValue {
        ParamValue::Text(self)
    }

    open spec fn recovered(value: ParamValue) -> Option<Self> {
        match value {
            ParamValue::Text(x) => Some(x),
            _ => None,
        }
    }

    proof fn lemma_erased(x: Self) {
    }

    proof fn lemma_recovered(value: ParamValue) {
    }

    fn tag() -> (kind: ParamKind) {
        ParamKind::Text
    }

    fn erase(self) -> (value: ParamValue) {
        ParamValue::Text(self)
    }

    fn recover(value: &ParamValue) -> (found: Option<Self>) {
        match value {
            ParamValue::Text(x) => Some(x.clone()),
            _ => None,
        }
    }
}

} // verus!
