use vstd::prelude::*;

use crate::error::Error;
use crate::model::filter::{
    str_eq, ListOptions, OpValInt32, OpValInt64, OpValString, OpValsInt32, OpValsInt64,
    OpValsString,
};

verus! {

/// A JSON-like parameter or result value: what the RPC boundary carries.
/// Numbers are whole; the edge that speaks real JSON rejects others.
#[derive(Debug)]
pub enum Value {
    Null,
    Bool(bool),
    Int(i64),
    Str(String),
    Arr(Vec<Value>),
    Obj(Vec<(String, Value)>),
}

/// The value under the key: of entries sharing a key, the last one wins, as
/// in a JSON object read left to right.
pub open spec fn obj_get(entries: Seq<(String, Value)>, key: Seq<char>) -> Option<Value>
    decreases entries.len(),
{
    if entries.len() == 0 {
        None
    } else if entries.last().0@ == key {
        Some(entries.last().1)
    } else {
        obj_get(entries.drop_last(), key)
    }
}

/// The member of an object value under the key, if the value is an object
/// with such a member.
pub open spec fn get_of(v: Value, key: Seq<char>) -> Option<Value> {
    match v {
        Value::Obj(es) => obj_get(es@, key),
        _ => None,
    }
}

/// Looks a member up in an object's entry list.
#[verifier::loop_isolation(false)]
pub fn obj_get_exec<'a>(entries: &'a Vec<(String, Value)>, key: &str) -> (r: Option<&'a Value>)
    ensures
        match r {
            Some(x) => obj_get(entries@, key@) == Some(*x),
            None => obj_get(entries@, key@) is None,
        },
{
    let mut i: usize = entries.len();
    proof {
        assert(entries@.subrange(0, entries@.len() as int) =~= entries@);
    }
    while i > 0
        invariant
            i <= entries.len(),
            obj_get(entries@, key@) == obj_get(entries@.subrange(0, i as int), key@),
        decreases i,
    {
        i = i - 1;
        proof {
            let pre = entries@.subrange(0, i as int + 1);
            assert(pre.last() == entries@[i as int]);
            assert(pre.drop_last() =~= entries@.subrange(0, i as int));
        }
        if str_eq(entries[i].0.as_str(), key) {
            return Some(&entries[i].1);
        }
    }
    proof {
        assert(entries@.subrange(0, 0) =~= Seq::<(String, Value)>::empty());
    }
    None
}

/// Looks a member up in a `Value` that may be an object.
pub fn get_exec<'a>(v: &'a Value, key: &str) -> (r: Option<&'a Value>)
    ensures
        match r {
            Some(x) => get_of(*v, key@) == Some(*x),
            None => get_of(*v, key@) is None,
        },
{
    match v {
        Value::Obj(es) => obj_get_exec(es, key),
        _ => None,
    }
}

// region: reading members into plain values

/// A required whole-number member.
pub open spec fn req_i64(v: Value, key: Seq<char>) -> Result<i64, Error> {
    match get_of(v, key) {
        Some(Value::Int(x)) => Ok(x),
        _ => Err(Error::InvalidParams),
    }
}

/// An optional whole-number member; absent or null reads as `None`.
pub open spec fn opt_i64(v: Value, key: Seq<char>) -> Result<Option<i64>, Error> {
    match get_of(v, key) {
        Some(Value::Int(x)) => Ok(Some(x)),
        Some(Value::Null) => Ok(None::<i64>),
        None => Ok(None::<i64>),
        Some(_) => Err(Error::InvalidParams),
    }
}

/// An optional 32-bit number member; a value out of range is rejected.
pub open spec fn opt_i32(v: Value, key: Seq<char>) -> Result<Option<i32>, Error> {
    match get_of(v, key) {
        Some(Value::Int(x)) => if i32::MIN <= x <= i32::MAX {
            Ok(Some(x as i32))
        } else {
            Err(Error::InvalidParams)
        },
        Some(Value::Null) => Ok(None::<i32>),
        None => Ok(None::<i32>),
        Some(_) => Err(Error::InvalidParams),
    }
}

/// A required text member.
pub open spec fn req_str(v: Value, key: Seq<char>) -> Result<String, Error> {
    match get_of(v, key) {
        Some(Value::Str(s)) => Ok(s),
        _ => Err(Error::InvalidParams),
    }
}

/// An optional text member; absent or null reads as `None`.
pub open spec fn opt_str(v: Value, key: Seq<char>) -> Result<Option<String>, Error> {
    match get_of(v, key) {
        Some(Value::Str(s)) => Ok(Some(s)),
        Some(Value::Null) => Ok(None::<String>),
        None => Ok(None::<String>),
        Some(_) => Err(Error::InvalidParams),
    }
}

/// A required boolean member.
pub open spec fn req_bool(v: Value, key: Seq<char>) -> Result<bool, Error> {
    match get_of(v, key) {
        Some(Value::Bool(b)) => Ok(b),
        _ => Err(Error::InvalidParams),
    }
}

/// An optional boolean member; absent or null reads as `None`.
pub open spec fn opt_bool(v: Value, key: Seq<char>) -> Result<Option<bool>, Error> {
    match get_of(v, key) {
        Some(Value::Bool(b)) => Ok(Some(b)),
        Some(Value::Null) => Ok(None::<bool>),
        None => Ok(None::<bool>),
        Some(_) => Err(Error::InvalidParams),
    }
}

pub fn req_i64_exec(v: &Value, key: &str) -> (r: Result<i64, Error>)
    ensures
        r == req_i64(*v, key@),
{
    match get_exec(v, key) {
        Some(Value::Int(x)) => Ok(*x),
        _ => Err(Error::InvalidParams),
    }
}

pub fn opt_i64_exec(v: &Value, key: &str) -> (r: Result<Option<i64>, Error>)
    ensures
        r == opt_i64(*v, key@),
{
    match get_exec(v, key) {
        Some(Value::Int(x)) => Ok(Some(*x)),
        Some(Value::Null) => Ok(None),
        None => Ok(None),
        Some(_) => Err(Error::InvalidParams),
    }
}

pub fn opt_i32_exec(v: &Value, key: &str) -> (r: Result<Option<i32>, Error>)
    ensures
        r == opt_i32(*v, key@),
{
    match get_exec(v, key) {
        Some(Value::Int(x)) => {
            if i32::MIN as i64 <= *x && *x <= i32::MAX as i64 {
                Ok(Some(#[verifier::truncate] (*x as i32)))
            } else {
                Err(Error::InvalidParams)
            }
        },
        Some(Value::Null) => Ok(None),
        None => Ok(None),
        Some(_) => Err(Error::InvalidParams),
    }
}

pub fn req_str_exec(v: &Value, key: &str) -> (r: Result<String, Error>)
    ensures
        r == req_str(*v, key@),
{
    match get_exec(v, key) {
        Some(Value::Str(s)) => Ok(s.clone()),
        _ => Err(Error::InvalidParams),
    }
}

pub fn opt_str_exec(v: &Value, key: &str) -> (r: Result<Option<String>, Error>)
    ensures
        r == opt_str(*v, key@),
{
    match get_exec(v, key) {
        Some(Value::Str(s)) => Ok(Some(s.clone())),
        Some(Value::Null) => Ok(None),
        None => Ok(None),
        Some(_) => Err(Error::InvalidParams),
    }
}

pub fn req_bool_exec(v: &Value, key: &str) -> (r: Result<bool, Error>)
    ensures
        r == req_bool(*v, key@),
{
    match get_exec(v, key) {
        Some(Value::Bool(b)) => Ok(*b),
        _ => Err(Error::InvalidParams),
    }
}

pub fn opt_bool_exec(v: &Value, key: &str) -> (r: Result<Option<bool>, Error>)
    ensures
        r == opt_bool(*v, key@),
{
    match get_exec(v, key) {
        Some(Value::Bool(b)) => Ok(Some(*b)),
        Some(Value::Null) => Ok(None),
        None => Ok(None),
        Some(_) => Err(Error::InvalidParams),
    }
}

// endregion

// region: reading filter operators

/// One text operator entry, keyed by its `$`-name. Set-membership filters are
/// built by callers directly; the RPC boundary takes the scalar operators.
pub open spec fn string_op_of(e: (String, Value)) -> Result<OpValString, Error> {
    if e.0@ == "$eq"@ {
        match e.1 {
            Value::Str(s) => Ok(OpValString::Eq(s)),
            _ => Err(Error::InvalidParams),
        }
    } else if e.0@ == "$not"@ {
        match e.1 {
            Value::Str(s) => Ok(OpValString::Not(s)),
            _ => Err(Error::InvalidParams),
        }
    } else if e.0@ == "$contains"@ {
        match e.1 {
            Value::Str(s) => Ok(OpValString::Contains(s)),
            _ => Err(Error::InvalidParams),
        }
    } else if e.0@ == "$notContains"@ {
        match e.1 {
            Value::Str(s) => Ok(OpValString::NotContains(s)),
            _ => Err(Error::InvalidParams),
        }
    } else if e.0@ == "$startsWith"@ {
        match e.1 {
            Value::Str(s) => Ok(OpValString::StartsWith(s)),
            _ => Err(Error::InvalidParams),
        }
    } else if e.0@ == "$endsWith"@ {
        match e.1 {
            Value::Str(s) => Ok(OpValString::EndsWith(s)),
            _ => Err(Error::InvalidParams),
        }
    } else {
        Err(Error::InvalidParams)
    }
}

fn string_op_of_exec(key: &String, val: &Value) -> (r: Result<OpValString, Error>)
    ensures
        r == string_op_of((*key, *val)),
{
    if str_eq(key.as_str(), "$eq") {
        match val {
            Value::Str(s) => Ok(OpValString::Eq(s.clone())),
            _ => Err(Error::InvalidParams),
        }
    } else if str_eq(key.as_str(), "$not") {
        match val {
            Value::Str(s) => Ok(OpValString::Not(s.clone())),
            _ => Err(Error::InvalidParams),
        }
    } else if str_eq(key.as_str(), "$contains") {
        match val {
            Value::Str(s) => Ok(OpValString::Contains(s.clone())),
            _ => Err(Error::InvalidParams),
        }
    } else if str_eq(key.as_str(), "$notContains") {
        match val {
            Value::Str(s) => Ok(OpValString::NotContains(s.clone())),
            _ => Err(Error::InvalidParams),
        }
    } else if str_eq(key.as_str(), "$startsWith") {
        match val {
            Value::Str(s) => Ok(OpValString::StartsWith(s.clone())),
            _ => Err(Error::InvalidParams),
        }
    } else if str_eq(key.as_str(), "$endsWith") {
        match val {
            Value::Str(s) => Ok(OpValString::EndsWith(s.clone())),
            _ => Err(Error::InvalidParams),
        }
    } else {
        Err(Error::InvalidParams)
    }
}

/// One whole-number operator entry, keyed by its `$`-name.
pub open spec fn int64_op_of(e: (String, Value)) -> Result<OpValInt64, Error> {
    if e.0@ == "$eq"@ {
        match e.1 {
            Value::Int(x) => Ok(OpValInt64::Eq(x)),
            _ => Err(Error::InvalidParams),
        }
    } else if e.0@ == "$not"@ {
        match e.1 {
            Value::Int(x) => Ok(OpValInt64::Not(x)),
            _ => Err(Error::InvalidParams),
        }
    } else if e.0@ == "$lt"@ {
        match e.1 {
            Value::Int(x) => Ok(OpValInt64::Lt(x)),
            _ => Err(Error::InvalidParams),
        }
    } else if e.0@ == "$lte"@ {
        match e.1 {
            Value::Int(x) => Ok(OpValInt64::Lte(x)),
            _ => Err(Error::InvalidParams),
        }
    } else if e.0@ == "$gt"@ {
        match e.1 {
            Value::Int(x) => Ok(OpValInt64::Gt(x)),
            _ => Err(Error::InvalidParams),
        }
    } else if e.0@ == "$gte"@ {
        match e.1 {
            Value::Int(x) => Ok(OpValInt64::Gte(x)),
            _ => Err(Error::InvalidParams),
        }
    } else {
        Err(Error::InvalidParams)
    }
}

fn int64_op_of_exec(key: &String, val: &Value) -> (r: Result<OpValInt64, Error>)
    ensures
        r == int64_op_of((*key, *val)),
{
    let x = match val {
        Value::Int(x) => *x,
        _ => {
            return Err(Error::InvalidParams);
        },
    };
    if str_eq(key.as_str(), "$eq") {
        Ok(OpValInt64::Eq(x))
    } else if str_eq(key.as_str(), "$not") {
        Ok(OpValInt64::Not(x))
    } else if str_eq(key.as_str(), "$lt") {
        Ok(OpValInt64::Lt(x))
    } else if str_eq(key.as_str(), "$lte") {
        Ok(OpValInt64::Lte(x))
    } else if str_eq(key.as_str(), "$gt") {
        Ok(OpValInt64::Gt(x))
    } else if str_eq(key.as_str(), "$gte") {
        Ok(OpValInt64::Gte(x))
    } else {
        Err(Error::InvalidParams)
    }
}

/// One 32-bit-number operator entry; a value out of range is rejected.
pub open spec fn int32_op_of(e: (String, Value)) -> Result<OpValInt32, Error> {
    match e.1 {
        Value::Int(x) => if i32::MIN <= x <= i32::MAX {
            if e.0@ == "$eq"@ {
                Ok(OpValInt32::Eq(x as i32))
            } else if e.0@ == "$not"@ {
                Ok(OpValInt32::Not(x as i32))
            } else if e.0@ == "$lt"@ {
                Ok(OpValInt32::Lt(x as i32))
            } else if e.0@ == "$lte"@ {
                Ok(OpValInt32::Lte(x as i32))
            } else if e.0@ == "$gt"@ {
                Ok(OpValInt32::Gt(x as i32))
            } else if e.0@ == "$gte"@ {
                Ok(OpValInt32::Gte(x as i32))
            } else {
                Err(Error::InvalidParams)
            }
        } else {
            Err(Error::InvalidParams)
        },
        _ => Err(Error::InvalidParams),
    }
}

fn int32_op_of_exec(key: &String, val: &Value) -> (r: Result<OpValInt32, Error>)
    ensures
        r == int32_op_of((*key, *val)),
{
    let x64 = match val {
        Value::Int(x) => *x,
        _ => {
            return Err(Error::InvalidParams);
        },
    };
    if !(i32::MIN as i64 <= x64 && x64 <= i32::MAX as i64) {
        return Err(Error::InvalidParams);
    }
    let x = #[verifier::truncate] (x64 as i32);
    if str_eq(key.as_str(), "$eq") {
        Ok(OpValInt32::Eq(x))
    } else if str_eq(key.as_str(), "$not") {
        Ok(OpValInt32::Not(x))
    } else if str_eq(key.as_str(), "$lt") {
        Ok(OpValInt32::Lt(x))
    } else if str_eq(key.as_str(), "$lte") {
        Ok(OpValInt32::Lte(x))
    } else if str_eq(key.as_str(), "$gt") {
        Ok(OpValInt32::Gt(x))
    } else if str_eq(key.as_str(), "$gte") {
        Ok(OpValInt32::Gte(x))
    } else {
        Err(Error::InvalidParams)
    }
}

/// The text operators of an operator-object's entries, in order.
pub open spec fn string_ops_of(es: Seq<(String, Value)>) -> Result<Seq<OpValString>, Error>
    decreases es.len(),
{
    if es.len() == 0 {
        Ok(Seq::<OpValString>::empty())
    } else {
        match (string_ops_of(es.drop_last()), string_op_of(es.last())) {
            (Ok(ops), Ok(op)) => Ok(ops.push(op)),
            _ => Err(Error::InvalidParams),
        }
    }
}

/// The whole-number operators of an operator-object's entries, in order.
pub open spec fn int64_ops_of(es: Seq<(String, Value)>) -> Result<Seq<OpValInt64>, Error>
    decreases es.len(),
{
    if es.len() == 0 {
        Ok(Seq::<OpValInt64>::empty())
    } else {
        match (int64_ops_of(es.drop_last()), int64_op_of(es.last())) {
            (Ok(ops), Ok(op)) => Ok(ops.push(op)),
            _ => Err(Error::InvalidParams),
        }
    }
}

/// The 32-bit-number operators of an operator-object's entries, in order.
pub open spec fn int32_ops_of(es: Seq<(String, Value)>) -> Result<Seq<OpValInt32>, Error>
    decreases es.len(),
{
    if es.len() == 0 {
        Ok(Seq::<OpValInt32>::empty())
    } else {
        match (int32_ops_of(es.drop_last()), int32_op_of(es.last())) {
            (Ok(ops), Ok(op)) => Ok(ops.push(op)),
            _ => Err(Error::InvalidParams),
        }
    }
}

proof fn lemma_string_ops_err(es: Seq<(String, Value)>, i: int)
    requires
        0 <= i < es.len(),
        string_op_of(es[i]) is Err,
    ensures
        string_ops_of(es) is Err,
    decreases es.len(),
{
    if i < es.len() - 1 {
        lemma_string_ops_err(es.drop_last(), i);
    }
}

proof fn lemma_int64_ops_err(es: Seq<(String, Value)>, i: int)
    requires
        0 <= i < es.len(),
        int64_op_of(es[i]) is Err,
    ensures
        int64_ops_of(es) is Err,
    decreases es.len(),
{
    if i < es.len() - 1 {
        lemma_int64_ops_err(es.drop_last(), i);
    }
}

proof fn lemma_int32_ops_err(es: Seq<(String, Value)>, i: int)
    requires
        0 <= i < es.len(),
        int32_op_of(es[i]) is Err,
    ensures
        int32_ops_of(es) is Err,
    decreases es.len(),
{
    if i < es.len() - 1 {
        lemma_int32_ops_err(es.drop_last(), i);
    }
}

/// The text operators a filter member denotes: a bare string means equality,
/// an object holds `$`-keyed operators.
pub open spec fn string_opvals_of(v: Value) -> Result<Seq<OpValString>, Error> {
    match v {
        Value::Str(s) => Ok(seq![OpValString::Eq(s)]),
        Value::Obj(es) => string_ops_of(es@),
        _ => Err(Error::InvalidParams),
    }
}

/// The whole-number operators a filter member denotes.
pub open spec fn int64_opvals_of(v: Value) -> Result<Seq<OpValInt64>, Error> {
    match v {
        Value::Int(x) => Ok(seq![OpValInt64::Eq(x)]),
        Value::Obj(es) => int64_ops_of(es@),
        _ => Err(Error::InvalidParams),
    }
}

/// The 32-bit-number operators a filter member denotes.
pub open spec fn int32_opvals_of(v: Value) -> Result<Seq<OpValInt32>, Error> {
    match v {
        Value::Int(x) => if i32::MIN <= x <= i32::MAX {
            Ok(seq![OpValInt32::Eq(x as i32)])
        } else {
            Err(Error::InvalidParams)
        },
        Value::Obj(es) => int32_ops_of(es@),
        _ => Err(Error::InvalidParams),
    }
}

#[verifier::loop_isolation(false)]
fn string_opvals_exec(v: &Value) -> (r: Result<OpValsString, Error>)
    ensures
        match r {
            Ok(ops) => string_opvals_of(*v) == Ok::<Seq<OpValString>, Error>(ops.0@),
            Err(e) => string_opvals_of(*v) == Err::<Seq<OpValString>, Error>(e),
        },
{
    match v {
        Value::Str(s) => {
            let ops = OpValsString(vec![OpValString::Eq(s.clone())]);
            proof {
                assert(ops.0@ =~= seq![OpValString::Eq(*s)]);
            }
            Ok(ops)
        },
        Value::Obj(es) => {
            let n = es.len();
            let mut out: Vec<OpValString> = Vec::new();
            let mut i: usize = 0;
            while i < n
                invariant
                    i <= n,
                    string_ops_of(es@.subrange(0, i as int)) == Ok::<Seq<OpValString>, Error>(
                        out@,
                    ),
                decreases n - i,
            {
                proof {
                    assert(es@.subrange(0, i as int + 1).drop_last() =~= es@.subrange(
                        0,
                        i as int,
                    ));
                    assert(es@.subrange(0, i as int + 1).last() == es@[i as int]);
                }
                match string_op_of_exec(&es[i].0, &es[i].1) {
                    Ok(op) => out.push(op),
                    Err(e) => {
                        proof {
                            lemma_string_ops_err(es@, i as int);
                        }
                        return Err(e);
                    },
                }
                i = i + 1;
            }
            proof {
                assert(es@.subrange(0, n as int) =~= es@);
            }
            Ok(OpValsString(out))
        },
        _ => Err(Error::InvalidParams),
    }
}

#[verifier::loop_isolation(false)]
fn int64_opvals_exec(v: &Value) -> (r: Result<OpValsInt64, Error>)
    ensures
        match r {
            Ok(ops) => int64_opvals_of(*v) == Ok::<Seq<OpValInt64>, Error>(ops.0@),
            Err(e) => int64_opvals_of(*v) == Err::<Seq<OpValInt64>, Error>(e),
        },
{
    match v {
        Value::Int(x) => {
            let ops = OpValsInt64(vec![OpValInt64::Eq(*x)]);
            proof {
                assert(ops.0@ =~= seq![OpValInt64::Eq(*x)]);
            }
            Ok(ops)
        },
        Value::Obj(es) => {
            let n = es.len();
            let mut out: Vec<OpValInt64> = Vec::new();
            let mut i: usize = 0;
            while i < n
                invariant
                    i <= n,
                    int64_ops_of(es@.subrange(0, i as int)) == Ok::<Seq<OpValInt64>, Error>(
                        out@,
                    ),
                decreases n - i,
            {
                proof {
                    assert(es@.subrange(0, i as int + 1).drop_last() =~= es@.subrange(
                        0,
                        i as int,
                    ));
                    assert(es@.subrange(0, i as int + 1).last() == es@[i as int]);
                }
                match int64_op_of_exec(&es[i].0, &es[i].1) {
                    Ok(op) => out.push(op),
                    Err(e) => {
                        proof {
                            lemma_int64_ops_err(es@, i as int);
                        }
                        return Err(e);
                    },
                }
                i = i + 1;
            }
            proof {
                assert(es@.subrange(0, n as int) =~= es@);
            }
            Ok(OpValsInt64(out))
        },
        _ => Err(Error::InvalidParams),
    }
}

#[verifier::loop_isolation(false)]
fn int32_opvals_exec(v: &Value) -> (r: Result<OpValsInt32, Error>)
    ensures
        match r {
            Ok(ops) => int32_opvals_of(*v) == Ok::<Seq<OpValInt32>, Error>(ops.0@),
            Err(e) => int32_opvals_of(*v) == Err::<Seq<OpValInt32>, Error>(e),
        },
{
    match v {
        Value::Int(x) => {
            if i32::MIN as i64 <= *x && *x <= i32::MAX as i64 {
                let ops = OpValsInt32(vec![OpValInt32::Eq(#[verifier::truncate] (*x as i32))]);
                proof {
                    assert(ops.0@ =~= seq![OpValInt32::Eq(*x as i32)]);
                }
                Ok(ops)
            } else {
                Err(Error::InvalidParams)
            }
        },
        Value::Obj(es) => {
            let n = es.len();
            let mut out: Vec<OpValInt32> = Vec::new();
            let mut i: usize = 0;
            while i < n
                invariant
                    i <= n,
                    int32_ops_of(es@.subrange(0, i as int)) == Ok::<Seq<OpValInt32>, Error>(
                        out@,
                    ),
                decreases n - i,
            {
                proof {
                    assert(es@.subrange(0, i as int + 1).drop_last() =~= es@.subrange(
                        0,
                        i as int,
                    ));
                    assert(es@.subrange(0, i as int + 1).last() == es@[i as int]);
                }
                match int32_op_of_exec(&es[i].0, &es[i].1) {
                    Ok(op) => out.push(op),
                    Err(e) => {
                        proof {
                            lemma_int32_ops_err(es@, i as int);
                        }
                        return Err(e);
                    },
                }
                i = i + 1;
            }
            proof {
                assert(es@.subrange(0, n as int) =~= es@);
            }
            Ok(OpValsInt32(out))
        },
        _ => Err(Error::InvalidParams),
    }
}

/// How an optional text-operator member reads: absent or null means no
/// constraint; anything else must denote operators.
pub open spec fn opt_string_opvals_parsed(
    v: Value,
    key: Seq<char>,
    r: Result<Option<OpValsString>, Error>,
) -> bool {
    match get_of(v, key) {
        None => r == Ok::<Option<OpValsString>, Error>(None),
        Some(Value::Null) => r == Ok::<Option<OpValsString>, Error>(None),
        Some(x) => match string_opvals_of(x) {
            Ok(ops) => r matches Ok(Some(o)) && o.0@ == ops,
            Err(e) => r == Err::<Option<OpValsString>, Error>(e),
        },
    }
}

pub open spec fn opt_string_opvals_ok(v: Value, key: Seq<char>) -> bool {
    match get_of(v, key) {
        None => true,
        Some(Value::Null) => true,
        Some(x) => string_opvals_of(x) is Ok,
    }
}

pub fn opt_string_opvals_exec(v: &Value, key: &str) -> (r: Result<Option<OpValsString>, Error>)
    ensures
        opt_string_opvals_parsed(*v, key@, r),
        r is Ok <==> opt_string_opvals_ok(*v, key@),
{
    match get_exec(v, key) {
        None => Ok(None),
        Some(Value::Null) => Ok(None),
        Some(x) => match string_opvals_exec(x) {
            Ok(ops) => Ok(Some(ops)),
            Err(e) => Err(e),
        },
    }
}

/// How an optional whole-number-operator member reads.
pub open spec fn opt_int64_opvals_parsed(
    v: Value,
    key: Seq<char>,
    r: Result<Option<OpValsInt64>, Error>,
) -> bool {
    match get_of(v, key) {
        None => r == Ok::<Option<OpValsInt64>, Error>(None),
        Some(Value::Null) => r == Ok::<Option<OpValsInt64>, Error>(None),
        Some(x) => match int64_opvals_of(x) {
            Ok(ops) => r matches Ok(Some(o)) && o.0@ == ops,
            Err(e) => r == Err::<Option<OpValsInt64>, Error>(e),
        },
    }
}

pub open spec fn opt_int64_opvals_ok(v: Value, key: Seq<char>) -> bool {
    match get_of(v, key) {
        None => true,
        Some(Value::Null) => true,
        Some(x) => int64_opvals_of(x) is Ok,
    }
}

pub fn opt_int64_opvals_exec(v: &Value, key: &str) -> (r: Result<Option<OpValsInt64>, Error>)
    ensures
        opt_int64_opvals_parsed(*v, key@, r),
        r is Ok <==> opt_int64_opvals_ok(*v, key@),
{
    match get_exec(v, key) {
        None => Ok(None),
        Some(Value::Null) => Ok(None),
        Some(x) => match int64_opvals_exec(x) {
            Ok(ops) => Ok(Some(ops)),
            Err(e) => Err(e),
        },
    }
}

/// How an optional 32-bit-number-operator member reads.
pub open spec fn opt_int32_opvals_parsed(
    v: Value,
    key: Seq<char>,
    r: Result<Option<OpValsInt32>, Error>,
) -> bool {
    match get_of(v, key) {
        None => r == Ok::<Option<OpValsInt32>, Error>(None),
        Some(Value::Null) => r == Ok::<Option<OpValsInt32>, Error>(None),
        Some(x) => match int32_opvals_of(x) {
            Ok(ops) => r matches Ok(Some(o)) && o.0@ == ops,
            Err(e) => r == Err::<Option<OpValsInt32>, Error>(e),
        },
    }
}

pub open spec fn opt_int32_opvals_ok(v: Value, key: Seq<char>) -> bool {
    match get_of(v, key) {
        None => true,
        Some(Value::Null) => true,
        Some(x) => int32_opvals_of(x) is Ok,
    }
}

pub fn opt_int32_opvals_exec(v: &Value, key: &str) -> (r: Result<Option<OpValsInt32>, Error>)
    ensures
        opt_int32_opvals_parsed(*v, key@, r),
        r is Ok <==> opt_int32_opvals_ok(*v, key@),
{
    match get_exec(v, key) {
        None => Ok(None),
        Some(Value::Null) => Ok(None),
        Some(x) => match int32_opvals_exec(x) {
            Ok(ops) => Ok(Some(ops)),
            Err(e) => Err(e),
        },
    }
}

// endregion

// region: list options

/// The window options a member denotes: whole-number `limit` and `offset`.
pub open spec fn list_options_parsed(v: Value, o: ListOptions) -> bool {
    &&& opt_i64(v, "limit"@) == Ok::<Option<i64>, Error>(o.limit)
    &&& opt_i64(v, "offset"@) == Ok::<Option<i64>, Error>(o.offset)
}

pub open spec fn list_options_ok(v: Value) -> bool {
    &&& opt_i64(v, "limit"@) is Ok
    &&& opt_i64(v, "offset"@) is Ok
}

pub fn list_options_exec(v: &Value) -> (r: Result<ListOptions, Error>)
    ensures
        r matches Ok(o) ==> list_options_parsed(*v, o),
        r is Ok <==> list_options_ok(*v),
        r is Err ==> r == Err::<ListOptions, Error>(Error::InvalidParams),
{
    let limit = match opt_i64_exec(v, "limit") {
        Ok(x) => x,
        Err(e) => {
            return Err(Error::InvalidParams);
        },
    };
    let offset = match opt_i64_exec(v, "offset") {
        Ok(x) => x,
        Err(e) => {
            return Err(Error::InvalidParams);
        },
    };
    Ok(ListOptions { limit, offset })
}

/// How the optional `list_options` member of list parameters reads.
pub open spec fn opt_list_options_parsed(v: Value, o: Option<ListOptions>) -> bool {
    match get_of(v, "list_options"@) {
        None => o is None,
        Some(Value::Null) => o is None,
        Some(x) => o matches Some(lo) && list_options_parsed(x, lo),
    }
}

pub open spec fn opt_list_options_ok(v: Value) -> bool {
    match get_of(v, "list_options"@) {
        None => true,
        Some(Value::Null) => true,
        Some(x) => list_options_ok(x),
    }
}

pub fn opt_list_options_exec(v: &Value) -> (r: Result<Option<ListOptions>, Error>)
    ensures
        r matches Ok(o) ==> opt_list_options_parsed(*v, o),
        r is Ok <==> opt_list_options_ok(*v),
        r is Err ==> r == Err::<Option<ListOptions>, Error>(Error::InvalidParams),
{
    match get_exec(v, "list_options") {
        None => Ok(None),
        Some(Value::Null) => Ok(None),
        Some(x) => match list_options_exec(x) {
            Ok(o) => Ok(Some(o)),
            Err(e) => Err(e),
        },
    }
}

// endregion

// region: writing members

/// The object member under the key is this whole number.
pub open spec fn enc_i64(v: Value, key: Seq<char>, x: i64) -> bool {
    match get_of(v, key) {
        Some(Value::Int(y)) => y == x,
        _ => false,
    }
}

/// The object member under the key is this 32-bit number.
pub open spec fn enc_i32(v: Value, key: Seq<char>, x: i32) -> bool {
    match get_of(v, key) {
        Some(Value::Int(y)) => y == x as i64,
        _ => false,
    }
}

/// The object member under the key is this text.
pub open spec fn enc_str(v: Value, key: Seq<char>, s: Seq<char>) -> bool {
    match get_of(v, key) {
        Some(Value::Str(t)) => t@ == s,
        _ => false,
    }
}

/// The object member under the key is this boolean.
pub open spec fn enc_bool(v: Value, key: Seq<char>, b: bool) -> bool {
    match get_of(v, key) {
        Some(Value::Bool(c)) => c == b,
        _ => false,
    }
}

/// The object member under the key is this nullable whole number.
pub open spec fn enc_opt_i64(v: Value, key: Seq<char>, x: Option<i64>) -> bool {
    match get_of(v, key) {
        Some(Value::Int(y)) => x matches Some(z) && y == z,
        Some(Value::Null) => x is None,
        _ => false,
    }
}

/// The object member under the key is this nullable text.
pub open spec fn enc_opt_str(v: Value, key: Seq<char>, s: Option<Seq<char>>) -> bool {
    match get_of(v, key) {
        Some(Value::Str(t)) => s matches Some(u) && t@ == u,
        Some(Value::Null) => s is None,
        _ => false,
    }
}

// endregion

} // verus!
