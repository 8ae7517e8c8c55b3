use vstd::prelude::*;

verus! {

// region: text predicates

/// The needle occurs in the haystack starting at position `i`.
pub open spec fn seq_contains_at(h: Seq<char>, n: Seq<char>, i: int) -> bool {
    0 <= i && i + n.len() <= h.len() && h.subrange(i, i + n.len() as int) == n
}

/// The needle occurs somewhere in the haystack.
pub open spec fn text_contains(h: Seq<char>, n: Seq<char>) -> bool {
    exists|i: int| #[trigger] seq_contains_at(h, n, i)
}

pub open spec fn text_starts_with(h: Seq<char>, n: Seq<char>) -> bool {
    n.len() <= h.len() && h.subrange(0, n.len() as int) == n
}

pub open spec fn text_ends_with(h: Seq<char>, n: Seq<char>) -> bool {
    n.len() <= h.len() && h.subrange(h.len() - n.len(), h.len() as int) == n
}

/// Whether the needle matches the haystack exactly at position `i`.
#[verifier::loop_isolation(false)]
fn match_at(hay: &str, needle: &str, i: usize, hl: usize, nl: usize) -> (r: bool)
    requires
        hl == hay@.len(),
        nl == needle@.len(),
        i + nl <= hl,
    ensures
        r == seq_contains_at(hay@, needle@, i as int),
{
    let mut j: usize = 0;
    while j < nl
        invariant
            j <= nl,
            forall|p: int| 0 <= p < j ==> hay@[i + p] == needle@[p],
        decreases nl - j,
    {
        if hay.get_char(i + j) != needle.get_char(j) {
            proof {
                assert(hay@.subrange(i as int, i + nl as int)[j as int] != needle@[j as int]);
            }
            return false;
        }
        j = j + 1;
    }
    proof {
        assert(hay@.subrange(i as int, i + nl as int) =~= needle@);
    }
    true
}

/// Substring search, specified by `text_contains`.
#[verifier::loop_isolation(false)]
pub fn str_contains(hay: &str, needle: &str) -> (r: bool)
    ensures
        r == text_contains(hay@, needle@),
{
    let hl = hay.unicode_len();
    let nl = needle.unicode_len();
    if nl > hl {
        proof {
            assert forall|i: int| !seq_contains_at(hay@, needle@, i) by {}
        }
        return false;
    }
    let last = hl - nl;
    let mut i: usize = 0;
    while i < last
        invariant
            i <= last,
            forall|p: int| 0 <= p < i ==> !#[trigger] seq_contains_at(hay@, needle@, p),
        decreases last - i,
    {
        if match_at(hay, needle, i, hl, nl) {
            return true;
        }
        i = i + 1;
    }
    if match_at(hay, needle, last, hl, nl) {
        return true;
    }
    proof {
        assert forall|p: int| !#[trigger] seq_contains_at(hay@, needle@, p) by {
            if 0 <= p < last {
                assert(!seq_contains_at(hay@, needle@, p));
            }
        }
    }
    false
}

/// Prefix test, specified by `text_starts_with`.
pub fn str_starts_with(hay: &str, needle: &str) -> (r: bool)
    ensures
        r == text_starts_with(hay@, needle@),
{
    let hl = hay.unicode_len();
    let nl = needle.unicode_len();
    if nl > hl {
        return false;
    }
    match_at(hay, needle, 0, hl, nl)
}

/// Suffix test, specified by `text_ends_with`.
pub fn str_ends_with(hay: &str, needle: &str) -> (r: bool)
    ensures
        r == text_ends_with(hay@, needle@),
{
    let hl = hay.unicode_len();
    let nl = needle.unicode_len();
    if nl > hl {
        return false;
    }
    match_at(hay, needle, hl - nl, hl, nl)
}


/// Character-wise string equality, specified over the views.
#[verifier::loop_isolation(false)]
pub fn str_eq(a: &str, b: &str) -> (r: bool)
    ensures
        r == (a@ == b@),
{
    let n = a.unicode_len();
    if n != b.unicode_len() {
        return false;
    }
    let mut i: usize = 0;
    while i < n
        invariant
            i <= n,
            forall|p: int| 0 <= p < i ==> a@[p] == b@[p],
        decreases n - i,
    {
        if a.get_char(i) != b.get_char(i) {
            return false;
        }
        i = i + 1;
    }
    proof {
        assert(a@ =~= b@);
    }
    true
}

// endregion

// region: field operators

/// One predicate on a text column.
#[derive(Clone, Debug)]
pub enum OpValString {
    Eq(String),
    Not(String),
    Contains(String),
    NotContains(String),
    StartsWith(String),
    EndsWith(String),
    In(Vec<String>),
}

/// The conjunction of predicates a filter puts on one text column.
#[derive(Clone, Debug)]
pub struct OpValsString(pub Vec<OpValString>);

/// One predicate on an `i64` column.
#[derive(Clone, Debug)]
pub enum OpValInt64 {
    Eq(i64),
    Not(i64),
    Lt(i64),
    Lte(i64),
    Gt(i64),
    Gte(i64),
    In(Vec<i64>),
}

/// The conjunction of predicates a filter puts on one `i64` column.
#[derive(Clone, Debug)]
pub struct OpValsInt64(pub Vec<OpValInt64>);

/// One predicate on an `i32` column.
#[derive(Clone, Debug)]
pub enum OpValInt32 {
    Eq(i32),
    Not(i32),
    Lt(i32),
    Lte(i32),
    Gt(i32),
    Gte(i32),
    In(Vec<i32>),
}

/// The conjunction of predicates a filter puts on one `i32` column.
#[derive(Clone, Debug)]
pub struct OpValsInt32(pub Vec<OpValInt32>);

pub open spec fn string_op_matches(s: Seq<char>, op: OpValString) -> bool {
    match op {
        OpValString::Eq(v) => s == v@,
        OpValString::Not(v) => s != v@,
        OpValString::Contains(v) => text_contains(s, v@),
        OpValString::NotContains(v) => !text_contains(s, v@),
        OpValString::StartsWith(v) => text_starts_with(s, v@),
        OpValString::EndsWith(v) => text_ends_with(s, v@),
        OpValString::In(vs) => exists|i: int| 0 <= i < vs@.len() && s == #[trigger] vs@[i]@,
    }
}

pub open spec fn string_ops_match(s: Seq<char>, ops: OpValsString) -> bool {
    forall|i: int| 0 <= i < ops.0@.len() ==> string_op_matches(s, #[trigger] ops.0@[i])
}

pub open spec fn int64_op_matches(x: i64, op: OpValInt64) -> bool {
    match op {
        OpValInt64::Eq(v) => x == v,
        OpValInt64::Not(v) => x != v,
        OpValInt64::Lt(v) => x < v,
        OpValInt64::Lte(v) => x <= v,
        OpValInt64::Gt(v) => x > v,
        OpValInt64::Gte(v) => x >= v,
        OpValInt64::In(vs) => exists|i: int| 0 <= i < vs@.len() && x == #[trigger] vs@[i],
    }
}

pub open spec fn int64_ops_match(x: i64, ops: OpValsInt64) -> bool {
    forall|i: int| 0 <= i < ops.0@.len() ==> int64_op_matches(x, #[trigger] ops.0@[i])
}

pub open spec fn int32_op_matches(x: i32, op: OpValInt32) -> bool {
    match op {
        OpValInt32::Eq(v) => x == v,
        OpValInt32::Not(v) => x != v,
        OpValInt32::Lt(v) => x < v,
        OpValInt32::Lte(v) => x <= v,
        OpValInt32::Gt(v) => x > v,
        OpValInt32::Gte(v) => x >= v,
        OpValInt32::In(vs) => exists|i: int| 0 <= i < vs@.len() && x == #[trigger] vs@[i],
    }
}

pub open spec fn int32_ops_match(x: i32, ops: OpValsInt32) -> bool {
    forall|i: int| 0 <= i < ops.0@.len() ==> int32_op_matches(x, #[trigger] ops.0@[i])
}

/// A nullable column matches only when it holds a value that matches.
pub open spec fn opt_int64_ops_match(x: Option<i64>, ops: OpValsInt64) -> bool {
    match x {
        Some(v) => int64_ops_match(v, ops),
        None => false,
    }
}

#[verifier::loop_isolation(false)]
pub fn eval_string_op(s: &String, op: &OpValString) -> (r: bool)
    ensures
        r == string_op_matches(s@, *op),
{
    match op {
        OpValString::Eq(v) => s.eq(v),
        OpValString::Not(v) => !s.eq(v),
        OpValString::Contains(v) => str_contains(s.as_str(), v.as_str()),
        OpValString::NotContains(v) => !str_contains(s.as_str(), v.as_str()),
        OpValString::StartsWith(v) => str_starts_with(s.as_str(), v.as_str()),
        OpValString::EndsWith(v) => str_ends_with(s.as_str(), v.as_str()),
        OpValString::In(vs) => {
            let n = vs.len();
            let mut i: usize = 0;
            let mut found = false;
            while i < n
                invariant
                    i <= n,
                    found == exists|p: int| 0 <= p < i && s@ == #[trigger] vs@[p]@,
                decreases n - i,
            {
                if s.eq(&vs[i]) {
                    proof {
                        assert(s@ == vs@[i as int]@);
                    }
                    found = true;
                }
                i = i + 1;
            }
            found
        },
    }
}

#[verifier::loop_isolation(false)]
pub fn eval_string_ops(s: &String, ops: &OpValsString) -> (r: bool)
    ensures
        r == string_ops_match(s@, *ops),
{
    let n = ops.0.len();
    let mut i: usize = 0;
    while i < n
        invariant
            i <= n,
            forall|p: int| 0 <= p < i ==> string_op_matches(s@, #[trigger] ops.0@[p]),
        decreases n - i,
    {
        if !eval_string_op(s, &ops.0[i]) {
            return false;
        }
        i = i + 1;
    }
    true
}

#[verifier::loop_isolation(false)]
pub fn eval_int64_op(x: i64, op: &OpValInt64) -> (r: bool)
    ensures
        r == int64_op_matches(x, *op),
{
    match op {
        OpValInt64::Eq(v) => x == *v,
        OpValInt64::Not(v) => x != *v,
        OpValInt64::Lt(v) => x < *v,
        OpValInt64::Lte(v) => x <= *v,
        OpValInt64::Gt(v) => x > *v,
        OpValInt64::Gte(v) => x >= *v,
        OpValInt64::In(vs) => {
            let n = vs.len();
            let mut i: usize = 0;
            let mut found = false;
            while i < n
                invariant
                    i <= n,
                    found == exists|p: int| 0 <= p < i && x == #[trigger] vs@[p],
                decreases n - i,
            {
                if x == vs[i] {
                    found = true;
                }
                i = i + 1;
            }
            found
        },
    }
}

#[verifier::loop_isolation(false)]
pub fn eval_int64_ops(x: i64, ops: &OpValsInt64) -> (r: bool)
    ensures
        r == int64_ops_match(x, *ops),
{
    let n = ops.0.len();
    let mut i: usize = 0;
    while i < n
        invariant
            i <= n,
            forall|p: int| 0 <= p < i ==> int64_op_matches(x, #[trigger] ops.0@[p]),
        decreases n - i,
    {
        if !eval_int64_op(x, &ops.0[i]) {
            return false;
        }
        i = i + 1;
    }
    true
}

#[verifier::loop_isolation(false)]
pub fn eval_int32_op(x: i32, op: &OpValInt32) -> (r: bool)
    ensures
        r == int32_op_matches(x, *op),
{
    match op {
        OpValInt32::Eq(v) => x == *v,
        OpValInt32::Not(v) => x != *v,
        OpValInt32::Lt(v) => x < *v,
        OpValInt32::Lte(v) => x <= *v,
        OpValInt32::Gt(v) => x > *v,
        OpValInt32::Gte(v) => x >= *v,
        OpValInt32::In(vs) => {
            let n = vs.len();
            let mut i: usize = 0;
            let mut found = false;
            while i < n
                invariant
                    i <= n,
                    found == exists|p: int| 0 <= p < i && x == #[trigger] vs@[p],
                decreases n - i,
            {
                if x == vs[i] {
                    found = true;
                }
                i = i + 1;
            }
            found
        },
    }
}

#[verifier::loop_isolation(false)]
pub fn eval_int32_ops(x: i32, ops: &OpValsInt32) -> (r: bool)
    ensures
        r == int32_ops_match(x, *ops),
{
    let n = ops.0.len();
    let mut i: usize = 0;
    while i < n
        invariant
            i <= n,
            forall|p: int| 0 <= p < i ==> int32_op_matches(x, #[trigger] ops.0@[p]),
        decreases n - i,
    {
        if !eval_int32_op(x, &ops.0[i]) {
            return false;
        }
        i = i + 1;
    }
    true
}

pub fn eval_opt_int64_ops(x: &Option<i64>, ops: &OpValsInt64) -> (r: bool)
    ensures
        r == opt_int64_ops_match(*x, *ops),
{
    match x {
        Some(v) => eval_int64_ops(*v, ops),
        None => false,
    }
}

// endregion

// region: list options

/// Pagination of a list result: a window of at most `limit` entries starting
/// `offset` entries in. A negative or missing offset means the start; a
/// negative limit means an empty window; a missing limit means no bound.
#[derive(Clone, Debug, Default)]
pub struct ListOptions {
    pub limit: Option<i64>,
    pub offset: Option<i64>,
}

/// The window of `s` that the options select.
pub open spec fn apply_list_options<T>(s: Seq<T>, opts: Option<ListOptions>) -> Seq<T> {
    match opts {
        Option::None => s,
        Option::Some(o) => {
            let off0 = match o.offset {
                Option::Some(v) => if v < 0 {
                    0
                } else {
                    v as int
                },
                Option::None => 0,
            };
            let off = if off0 > s.len() {
                s.len() as int
            } else {
                off0
            };
            let lim = match o.limit {
                Option::Some(v) => if v < 0 {
                    0
                } else {
                    v as int
                },
                Option::None => s.len() as int,
            };
            let end = if off + lim > s.len() {
                s.len() as int
            } else {
                off + lim
            };
            s.subrange(off, end)
        },
    }
}

/// Applies the options to an already filtered result.
#[verifier::loop_isolation(false)]
pub fn paginate<T>(v: Vec<T>, opts: &Option<ListOptions>) -> (r: Vec<T>)
    ensures
        r@ == apply_list_options(v@, *opts),
{
    let o = match opts {
        Option::None => {
            return v;
        },
        Option::Some(o) => o,
    };
    let ghost orig = v@;
    let mut v = v;
    let off: usize = match o.offset {
        Option::Some(ov) => {
            if ov < 0 {
                0
            } else if (ov as u64) > (v.len() as u64) {
                v.len()
            } else {
                ov as usize
            }
        },
        Option::None => 0,
    };
    let mut k: usize = 0;
    while k < off
        invariant
            k <= off,
            off <= orig.len(),
            v@ =~= orig.subrange(k as int, orig.len() as int),
        decreases off - k,
    {
        let _ = v.remove(0);
        k = k + 1;
    }
    let keep: usize = match o.limit {
        Option::Some(lv) => {
            if lv < 0 {
                0
            } else if (lv as u64) > (v.len() as u64) {
                v.len()
            } else {
                lv as usize
            }
        },
        Option::None => v.len(),
    };
    while v.len() > keep
        invariant
            keep <= v.len(),
            off + v@.len() <= orig.len(),
            v@ =~= orig.subrange(off as int, off + v@.len() as int),
        decreases v.len() - keep,
    {
        let ghost prev = v@;
        let _ = v.pop();
        proof {
            assert(v@ =~= prev.subrange(0, prev.len() - 1));
            assert(v@ =~= orig.subrange(off as int, off + v@.len() as int));
        }
    }
    proof {
        assert(v@ =~= apply_list_options(orig, *opts));
    }
    v
}

// endregion

} // verus!
