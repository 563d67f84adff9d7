//! Positional query parameters and their binding into engine-neutral form.

use vstd::prelude::*;
use vstd::string::StringExecFns;
use crate::error::Error;
use crate::value::Value;

verus! {

/// One positional query parameter. Its position in the parameter list gives
/// its placeholder (`$1`, `@p1` or `?`, depending on the engine).
pub struct QueryParam {
    pub value: Value,
}

/// A parameter value in the form every engine can bind.
#[derive(Debug, Clone, PartialEq, Eq)]
pub enum BoundParam {
    Text(String),
    Int(i64),
    /// An integer above `i64::MAX`; engines bind it as a double, as JSON
    /// consumers read such a number.
    Unsigned(u64),
    /// A binary64 bit pattern.
    Float(u64),
    Bool(bool),
    Null,
}

/// How a parameter value binds, or `None` when its shape (an array or an
/// object) has no positional binding.
pub open spec fn bound_of(v: Value) -> Option<BoundParam> {
    match v {
        Value::Null => Some(BoundParam::Null),
        Value::Bool(b) => Some(BoundParam::Bool(b)),
        Value::Int(i) => Some(BoundParam::Int(i)),
        Value::UInt(u) => if u <= i64::MAX as u64 {
            Some(BoundParam::Int(u as i64))
        } else {
            Some(BoundParam::Unsigned(u))
        },
        Value::Float(f) => Some(BoundParam::Float(f)),
        Value::Str(s) => Some(BoundParam::Text(s)),
        Value::Array(_) => None,
        Value::Object(_) => None,
    }
}

/// Every parameter of the list has a binding.
pub open spec fn all_bindable(ps: Seq<QueryParam>) -> bool {
    forall|i: int| 0 <= i < ps.len() ==> (#[trigger] bound_of(ps[i].value)).is_some()
}

/// The bindings of a list of parameters, in order.
pub open spec fn bindings_of(ps: Seq<QueryParam>) -> Seq<BoundParam> {
    ps.map_values(|p: QueryParam| bound_of(p.value).unwrap())
}

/// How one value binds.
pub fn bind_value(v: &Value) -> (r: Option<BoundParam>)
    ensures
        r == bound_of(*v),
{
    match v {
        Value::Null => Some(BoundParam::Null),
        Value::Bool(b) => Some(BoundParam::Bool(*b)),
        Value::Int(i) => Some(BoundParam::Int(*i)),
        Value::UInt(u) => {
            if *u <= i64::MAX as u64 {
                Some(BoundParam::Int(*u as i64))
            } else {
                Some(BoundParam::Unsigned(*u))
            }
        },
        Value::Float(f) => Some(BoundParam::Float(*f)),
        Value::Str(s) => Some(BoundParam::Text(s.clone())),
        Value::Array(_) => None,
        Value::Object(_) => None,
    }
}

/// Binds a parameter list in order. No list binds as no parameters; a list
/// holding an array or an object is refused as a whole.
pub fn bind_params(params: Option<&Vec<QueryParam>>) -> (r: Result<Vec<BoundParam>, Error>)
    ensures
        params is None ==> r is Ok && r->Ok_0@.len() == 0,
        params is Some ==> (r is Ok <==> all_bindable(params->Some_0@)),
        params is Some && r is Ok ==> r->Ok_0@ == bindings_of(params->Some_0@),
        r is Err ==> r->Err_0 is UnsupportedParameterType,
{
    match params {
        None => Ok(Vec::new()),
        Some(ps) => {
            let mut out: Vec<BoundParam> = Vec::new();
            let mut i: usize = 0;
            while i < ps.len()
                invariant
                    params == Some(ps),
                    i <= ps@.len(),
                    all_bindable(ps@.subrange(0, i as int)),
                    out@ == bindings_of(ps@.subrange(0, i as int)),
                decreases ps@.len() - i,
            {
                match bind_value(&ps[i].value) {
                    Some(b) => {
                        out.push(b);
                        proof {
                            let s2 = ps@.subrange(0, i + 1);
                            assert(s2.drop_last() =~= ps@.subrange(0, i as int));
                            assert(out@ =~= bindings_of(s2));
                            assert forall|k: int| 0 <= k < s2.len() implies (#[trigger] bound_of(
                                s2[k].value,
                            )).is_some() by {
                                if k < i {
                                    assert(s2[k] == ps@.subrange(0, i as int)[k]);
                                }
                            }
                        }
                    },
                    None => {
                        proof {
                            assert(!(bound_of(ps@[i as int].value).is_some()));
                            assert(!all_bindable(ps@));
                        }
                        return Err(
                            Error::UnsupportedParameterType(
                                String::from_str("query parameters must be strings, numbers, booleans or null"),
                            ),
                        );
                    },
                }
                i += 1;
            }
            proof {
                assert(ps@.subrange(0, i as int) =~= ps@);
            }
            Ok(out)
        },
    }
}

} // verus!
