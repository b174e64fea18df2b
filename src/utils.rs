//! Helpers shared by the client's operations.
use vstd::prelude::*;
use vstd::string::StringExecFns;

use crate::data::Param;
use crate::error::ClientError;

verus! {

broadcast use vstd::std_specs::vec::group_vec_axioms;

/// `Ok(Some(u))` for a successful `fr == Ok(u)`, else its error.
pub open spec fn some_if_ok<U>(fr: Result<U, ClientError>) -> Result<Option<U>, ClientError> {
    match fr {
        Ok(u) => Ok(Some(u)),
        Err(e) => Err(e),
    }
}

/// Turns a "resource does not exist" failure into `Ok(None)`; passes any
/// other error through, and hands a success to `f`.
pub fn none_if_not_exist<T, U, F: FnOnce(T) -> Result<U, ClientError>>(
    value: Result<T, ClientError>,
    f: F,
) -> (r: Result<Option<U>, ClientError>)
    requires
        value is Ok ==> f.requires((value->Ok_0,)),
    ensures
        value is Ok ==> exists|fr: Result<U, ClientError>|
            f.ensures((value->Ok_0,), fr) && r == some_if_ok(fr),
        value is Err && value->Err_0.spec_is_resource_does_not_exist() ==> r == Ok::<
            Option<U>,
            ClientError,
        >(None),
        value is Err && !value->Err_0.spec_is_resource_does_not_exist() ==> r == Err::<
            Option<U>,
            ClientError,
        >(value->Err_0),
{
    match value {
        Ok(v) => {
            let fr = f(v);
            let ghost gfr = fr;
            let r = match fr {
                Ok(u) => Ok(Some(u)),
                Err(e) => Err(e),
            };
            assert(r == some_if_ok(gfr));
            r
        },
        Err(e) => {
            if e.is_resource_does_not_exist() {
                Ok(None)
            } else {
                Err(e)
            }
        },
    }
}

/// A JSON document, as the values that parameter flattening reads.
#[derive(Debug)]
pub enum JsonValue {
    Null,
    Bool(bool),
    /// A number, as the text that the JSON encoder writes for it.
    Number(String),
    String(String),
    Array(Vec<JsonValue>),
    /// An object's members, in the encoder's order.
    Object(Vec<(String, JsonValue)>),
}

/// The text of a boolean.
pub open spec fn bool_text(b: bool) -> Seq<char> {
    if b {
        "true"@
    } else {
        "false"@
    }
}

/// The key of a member `k` below `key`: dotted, unless `key` is empty.
pub open spec fn child_key(key: Seq<char>, k: Seq<char>) -> Seq<char> {
    if key.len() == 0 {
        k
    } else {
        key + "."@ + k
    }
}

/// The parameters that `v` stands for below `key`, in document order,
/// counting only the first `n` members where `v` is an object.
pub open spec fn flatten_upto(key: Seq<char>, v: JsonValue, n: int) -> Seq<(Seq<char>, Seq<char>)>
    decreases v, n,
{
    match v {
        JsonValue::Null => Seq::empty(),
        JsonValue::Bool(b) => seq![(key, bool_text(b))],
        JsonValue::Number(t) => seq![(key, t@)],
        JsonValue::String(t) => seq![(key, t@)],
        JsonValue::Array(_) => Seq::empty(),
        JsonValue::Object(members) => if n <= 0 || n > members.len() {
            Seq::empty()
        } else {
            flatten_upto(key, v, n - 1) + flatten_upto(
                child_key(key, members[n - 1].0@),
                members[n - 1].1,
                members[n - 1].1.width(),
            )
        },
    }
}

/// Whether an array occurs in `v`, looking only at the first `n` members
/// where `v` is an object.
pub open spec fn has_array_upto(v: JsonValue, n: int) -> bool
    decreases v, n,
{
    match v {
        JsonValue::Array(_) => true,
        JsonValue::Object(members) => if n <= 0 || n > members.len() {
            false
        } else {
            has_array_upto(v, n - 1) || has_array_upto(members[n - 1].1, members[n - 1].1.width())
        },
        _ => false,
    }
}

impl JsonValue {
    /// The number of members of an object, zero for anything else.
    pub open spec fn width(&self) -> int {
        match self {
            JsonValue::Object(members) => members.len() as int,
            _ => 0,
        }
    }
}

/// The parameters that `v` stands for below `key`.
pub open spec fn flatten(key: Seq<char>, v: JsonValue) -> Seq<(Seq<char>, Seq<char>)> {
    flatten_upto(key, v, v.width())
}

/// Whether an array occurs anywhere in `v`.
pub open spec fn has_array(v: JsonValue) -> bool {
    has_array_upto(v, v.width())
}

/// The parameters as pairs of texts.
pub open spec fn params_view(ps: Seq<Param>) -> Seq<(Seq<char>, Seq<char>)> {
    ps.map_values(|p: Param| (p.key@, p.value@))
}

/// Appends to `params` one parameter per scalar in `value`, named by the
/// dotted path to it below `key`; nulls are skipped. Arrays are refused.
pub fn build_params(key: &str, value: &JsonValue, params: &mut Vec<Param>) -> (r: Result<
    (),
    ClientError,
>)
    ensures
        r is Ok <==> !has_array(*value),
        r is Ok ==> params_view(final(params)@) == params_view(old(params)@) + flatten(
            key@,
            *value,
        ),
        r is Err ==> (r->Err_0 matches ClientError::Message(m) && m@ == "Array not supported"@),
    decreases value,
{
    match value {
        JsonValue::Null => {},
        JsonValue::Bool(b) => {
            let text = if *b {
                "true".to_string()
            } else {
                "false".to_string()
            };
            proof {
                reveal_strlit("true");
                reveal_strlit("false");
            }
            let ghost before = params@;
            params.push(Param { key: key.to_string(), value: text });
            proof {
                assert(params_view(params@) =~= params_view(before) + flatten(key@, *value));
            }
        },
        JsonValue::Number(t) => {
            let ghost before = params@;
            params.push(Param { key: key.to_string(), value: t.clone() });
            proof {
                assert(params_view(params@) =~= params_view(before) + flatten(key@, *value));
            }
        },
        JsonValue::String(t) => {
            let ghost before = params@;
            params.push(Param { key: key.to_string(), value: t.clone() });
            proof {
                assert(params_view(params@) =~= params_view(before) + flatten(key@, *value));
            }
        },
        JsonValue::Array(_) => {
            let m = "Array not supported".to_string();
            proof {
                reveal_strlit("Array not supported");
            }
            return Err(ClientError::Message(m));
        },
        JsonValue::Object(members) => {
            let ghost start = params@;
            let mut i: usize = 0;
            while i < members.len()
                invariant
                    *value == JsonValue::Object(*members),
                    i <= members.len(),
                    !has_array_upto(*value, i as int),
                    params_view(params@) == params_view(start) + flatten_upto(
                        key@,
                        *value,
                        i as int,
                    ),
                decreases members.len() - i,
            {
                let (k, v) = &members[i];
                let mut child = key.to_string();
                if !key.is_empty() {
                    child.append(".");
                }
                child.append(k.as_str());
                proof {
                    reveal_strlit(".");
                    assert(child@ == child_key(key@, k@));
                    assert(decreases_to!(members => members[i as int]));
                }
                let res = build_params(child.as_str(), v, params);
                match res {
                    Ok(()) => {},
                    Err(e) => {
                        proof {
                            assert(has_array_upto(*value, members.len() as int)) by {
                                lemma_has_array_grows(*value, i as int + 1, members.len() as int);
                            }
                        }
                        return Err(e);
                    },
                }
                i = i + 1;
            }
        },
    }
    Ok(())
}

proof fn lemma_has_array_grows(v: JsonValue, n: int, m: int)
    requires
        has_array_upto(v, n),
        0 < n <= m <= v.width(),
    ensures
        has_array_upto(v, m),
    decreases m - n,
{
    if n < m {
        lemma_has_array_grows(v, n, m - 1);
    }
}

} // verus!
