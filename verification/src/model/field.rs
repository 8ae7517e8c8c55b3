use vstd::prelude::*;

verus! {

/// A column value as the store holds it: the closed set of scalar shapes that
/// the entities of this crate use (nullable columns hold `Null`).
#[derive(Clone, Debug)]
pub enum FieldValue {
    Null,
    Bool(bool),
    Int(i64),
    Text(String),
}

/// The mathematical value of a `FieldValue`: text becomes a sequence of
/// characters.
pub enum FieldValueV {
    Null,
    Bool(bool),
    Int(i64),
    Text(Seq<char>),
}

impl View for FieldValue {
    type V = FieldValueV;

    open spec fn view(&self) -> FieldValueV {
        match self {
            FieldValue::Null => FieldValueV::Null,
            FieldValue::Bool(b) => FieldValueV::Bool(*b),
            FieldValue::Int(i) => FieldValueV::Int(*i),
            FieldValue::Text(s) => FieldValueV::Text(s@),
        }
    }
}

impl FieldValue {
    /// A copy of this value, equal at the view level.
    pub fn dup(&self) -> (r: FieldValue)
        ensures
            r@ == self@,
    {
        match self {
            FieldValue::Null => FieldValue::Null,
            FieldValue::Bool(b) => FieldValue::Bool(*b),
            FieldValue::Int(i) => FieldValue::Int(*i),
            FieldValue::Text(s) => FieldValue::Text(s.clone()),
        }
    }
}

/// One named column value of a row.
#[derive(Clone, Debug)]
pub struct Field {
    pub name: String,
    pub value: FieldValue,
}

/// The mathematical value of a `Field`.
pub struct FieldV {
    pub name: Seq<char>,
    pub value: FieldValueV,
}

impl View for Field {
    type V = FieldV;

    open spec fn view(&self) -> FieldV {
        FieldV { name: self.name@, value: self.value@ }
    }
}

/// The text of a text value (meaningful only on `Text`).
pub open spec fn text_of(v: FieldValueV) -> Seq<char> {
    v->Text_0
}

/// The integer of an integer value (meaningful only on `Int`).
pub open spec fn int_of(v: FieldValueV) -> i64 {
    v->Int_0
}

/// The boolean of a boolean value (meaningful only on `Bool`).
pub open spec fn bool_of(v: FieldValueV) -> bool {
    v->Bool_0
}

/// A nullable integer column's value: `Null` reads as absent.
pub open spec fn opt_int_of(v: FieldValueV) -> Option<i64> {
    match v {
        FieldValueV::Int(i) => Some(i),
        _ => None,
    }
}

/// A nullable text column's value: `Null` reads as absent.
pub open spec fn opt_text_of(v: FieldValueV) -> Option<Seq<char>> {
    match v {
        FieldValueV::Text(s) => Some(s),
        _ => None,
    }
}

/// The view of an optional string.
pub open spec fn opt_text_view(o: Option<String>) -> Option<Seq<char>> {
    match o {
        Some(s) => Some(s@),
        None => None,
    }
}

impl FieldValue {
    /// Reads a text value.
    pub fn as_text(&self) -> (s: String)
        requires
            self@ is Text,
        ensures
            s@ == text_of(self@),
    {
        match self {
            FieldValue::Text(s) => s.clone(),
            _ => vstd::pervasive::unreached(),
        }
    }

    /// Reads an integer value.
    pub fn as_int(&self) -> (x: i64)
        requires
            self@ is Int,
        ensures
            x == int_of(self@),
    {
        match self {
            FieldValue::Int(x) => *x,
            _ => vstd::pervasive::unreached(),
        }
    }

    /// Reads a boolean value.
    pub fn as_bool(&self) -> (b: bool)
        requires
            self@ is Bool,
        ensures
            b == bool_of(self@),
    {
        match self {
            FieldValue::Bool(b) => *b,
            _ => vstd::pervasive::unreached(),
        }
    }

    /// Reads a nullable integer value.
    pub fn as_opt_int(&self) -> (x: Option<i64>)
        requires
            self@ is Int || self@ is Null,
        ensures
            x == opt_int_of(self@),
    {
        match self {
            FieldValue::Int(x) => Some(*x),
            FieldValue::Null => None,
            _ => vstd::pervasive::unreached(),
        }
    }

    /// Reads a nullable text value.
    pub fn as_opt_text(&self) -> (s: Option<String>)
        requires
            self@ is Text || self@ is Null,
        ensures
            opt_text_view(s) == opt_text_of(self@),
    {
        match self {
            FieldValue::Text(s) => Some(s.clone()),
            FieldValue::Null => None,
            _ => vstd::pervasive::unreached(),
        }
    }
}

/// The views of a sequence of fields.
pub open spec fn fields_view(fs: Seq<Field>) -> Seq<FieldV> {
    fs.map(|i: int, f: Field| f@)
}

impl Field {
    pub fn new(name: &str, value: FieldValue) -> (f: Field)
        ensures
            f@.name == name@,
            f@.value == value@,
    {
        Field { name: name.to_owned(), value }
    }
}

} // verus!
