//! JSON-compatible values and the per-row record that maps column names to them.

use vstd::prelude::*;
use vstd::string::StringExecFns;

verus! {

/// A JSON-compatible value as it leaves the driver layer.
///
/// A floating-point number is held as its IEEE-754 binary64 bit pattern. The
/// decoders only produce finite ones: non-finite numbers have no JSON form and
/// become `Null` (see `from_f64_bits`).
pub enum Value {
    Null,
    Bool(bool),
    Int(i64),
    UInt(u64),
    Float(u64),
    Str(String),
    Array(Vec<Value>),
    Object(Vec<(String, Value)>),
}

/// The exponent field of a binary64 bit pattern.
pub open spec fn f64_exponent(bits: u64) -> u64 {
    (bits >> 52u64) & 0x7ffu64
}

/// A binary64 bit pattern denotes a finite number unless its exponent is all ones.
pub open spec fn f64_is_finite(bits: u64) -> bool {
    f64_exponent(bits) != 0x7ffu64
}

/// The JSON value of a binary64 number: the number itself, or `Null` when it is
/// infinite or not a number.
pub open spec fn float_value(bits: u64) -> Value {
    if f64_is_finite(bits) {
        Value::Float(bits)
    } else {
        Value::Null
    }
}

impl Value {
    /// The JSON value of a binary64 bit pattern.
    pub fn from_f64_bits(bits: u64) -> (r: Value)
        ensures
            r == float_value(bits),
    {
        let exp: u64 = (bits >> 52u64) & 0x7ffu64;
        if exp != 0x7ffu64 {
            Value::Float(bits)
        } else {
            Value::Null
        }
    }
}

/// The names of a sequence of strings.
pub open spec fn names_of(cols: Seq<String>) -> Seq<Seq<char>> {
    cols.map_values(|c: String| c@)
}

/// The mapping that a row denotes: each column name to the value of that
/// column, where a later column overrides an earlier one of the same name.
pub open spec fn row_map(names: Seq<Seq<char>>, vals: Seq<Value>) -> Map<Seq<char>, Value>
    decreases names.len(),
{
    if names.len() == 0 || vals.len() == 0 {
        Map::empty()
    } else {
        row_map(names.drop_last(), vals.drop_last()).insert(names.last(), vals.last())
    }
}

/// In the mapping of a row, a column name is bound to the value of the last
/// column of that name.
pub proof fn row_map_binds_last(names: Seq<Seq<char>>, vals: Seq<Value>, k: int)
    requires
        names.len() == vals.len(),
        0 <= k < names.len(),
        forall|j: int| k < j < names.len() ==> names[j] != names[k],
    ensures
        row_map(names, vals).contains_key(names[k]),
        row_map(names, vals)[names[k]] == vals[k],
    decreases names.len(),
{
    if k < names.len() - 1 {
        let n2 = names.drop_last();
        let v2 = vals.drop_last();
        assert forall|j: int| k < j < n2.len() implies n2[j] != n2[k] by {
            assert(n2[j] == names[j]);
        }
        row_map_binds_last(n2, v2, k);
        assert(names.last() != names[k]);
    }
}

/// The mapping that a list of entries denotes; a later entry overrides an earlier one.
pub open spec fn entries_map(e: Seq<(String, Value)>) -> Map<Seq<char>, Value>
    decreases e.len(),
{
    if e.len() == 0 {
        Map::empty()
    } else {
        entries_map(e.drop_last()).insert(e.last().0@, e.last().1)
    }
}

/// No two entries share a name.
pub open spec fn unique_names(e: Seq<(String, Value)>) -> bool {
    forall|i: int, j: int| 0 <= i < j < e.len() ==> e[i].0@ != e[j].0@
}

/// Each entry's name is bound to that entry's value, and nothing else is bound.
proof fn lemma_entries_map_lookup(e: Seq<(String, Value)>)
    requires
        unique_names(e),
    ensures
        forall|i: int| 0 <= i < e.len() ==> #[trigger] entries_map(e).contains_key(e[i].0@)
            && entries_map(e)[e[i].0@] == e[i].1,
        forall|k: Seq<char>| #[trigger] entries_map(e).contains_key(k) ==> exists|i: int|
            0 <= i < e.len() && e[i].0@ == k,
    decreases e.len(),
{
    if e.len() > 0 {
        let p = e.drop_last();
        assert(unique_names(p));
        lemma_entries_map_lookup(p);
        assert forall|k: Seq<char>| #[trigger] entries_map(e).contains_key(k) implies exists|i: int|
            0 <= i < e.len() && e[i].0@ == k by {
            if k != e.last().0@ {
                assert(entries_map(p).contains_key(k));
                let i = choose|i: int| 0 <= i < p.len() && p[i].0@ == k;
                assert(e[i].0@ == k);
            } else {
                assert(e[e.len() - 1].0@ == k);
            }
        }
        assert forall|i: int| 0 <= i < e.len() implies #[trigger] entries_map(e).contains_key(e[i].0@)
            && entries_map(e)[e[i].0@] == e[i].1 by {
            if i < e.len() - 1 {
                assert(p[i] == e[i]);
                assert(e[i].0@ != e.last().0@);
                assert(entries_map(p).contains_key(p[i].0@));
            }
        }
    }
}

/// Rebinding an existing name in place denotes the same as inserting the binding.
proof fn lemma_entries_map_update(e: Seq<(String, Value)>, j: int, n: String, v: Value)
    requires
        unique_names(e),
        0 <= j < e.len(),
        e[j].0@ == n@,
    ensures
        entries_map(e.update(j, (n, v))) == entries_map(e).insert(n@, v),
        unique_names(e.update(j, (n, v))),
    decreases e.len(),
{
    let u = e.update(j, (n, v));
    if j == e.len() - 1 {
        assert(u.drop_last() =~= e.drop_last());
        assert(entries_map(u) =~= entries_map(e).insert(n@, v));
    } else {
        let p = e.drop_last();
        assert(unique_names(p));
        assert(u.drop_last() =~= p.update(j, (n, v)));
        lemma_entries_map_update(p, j, n, v);
        assert(e.last().0@ != n@);
        assert(entries_map(u) =~= entries_map(e).insert(n@, v));
    }
}

/// One row of a result set: column names bound to values, each name once.
pub struct Record {
    pub entries: Vec<(String, Value)>,
}

impl Record {
    /// Each name appears once.
    pub open spec fn wf(&self) -> bool {
        unique_names(self.entries@)
    }

    /// The mapping this record denotes.
    pub open spec fn view(&self) -> Map<Seq<char>, Value> {
        entries_map(self.entries@)
    }

    /// The record with no columns.
    pub fn new() -> (r: Record)
        ensures
            r.wf(),
            r.view() == Map::<Seq<char>, Value>::empty(),
    {
        Record { entries: Vec::new() }
    }

    /// Binds `name` to `value`, replacing an earlier binding of the same name.
    pub fn insert(&mut self, name: String, value: Value)
        requires
            old(self).wf(),
        ensures
            final(self).wf(),
            final(self).view() == old(self).view().insert(name@, value),
    {
        let mut i: usize = 0;
        while i < self.entries.len()
            invariant
                i <= self.entries@.len(),
                self.wf(),
                self.entries@ == old(self).entries@,
                forall|k: int| 0 <= k < i ==> self.entries@[k].0@ != name@,
            decreases self.entries@.len() - i,
        {
            if self.entries[i].0 == name {
                proof {
                    lemma_entries_map_update(self.entries@, i as int, name, value);
                }
                self.entries.set(i, (name, value));
                return;
            }
            i += 1;
        }
        self.entries.push((name, value));
        proof {
            assert(self.entries@.drop_last() =~= old(self).entries@);
        }
    }

    /// The value bound to `name`, if any.
    pub fn get(&self, name: &str) -> (r: Option<&Value>)
        requires
            self.wf(),
        ensures
            r == (if self.view().contains_key(name@) {
                Some(&self.view()[name@])
            } else {
                None::<&Value>
            }),
    {
        let key = String::from_str(name);
        let mut i: usize = 0;
        while i < self.entries.len()
            invariant
                i <= self.entries@.len(),
                self.wf(),
                key@ == name@,
                forall|k: int| 0 <= k < i ==> self.entries@[k].0@ != name@,
            decreases self.entries@.len() - i,
        {
            if self.entries[i].0 == key {
                proof {
                    lemma_entries_map_lookup(self.entries@);
                    assert(self.view().contains_key(self.entries@[i as int].0@));
                }
                return Some(&self.entries[i].1);
            }
            i += 1;
        }
        proof {
            lemma_entries_map_lookup(self.entries@);
            if self.view().contains_key(name@) {
                let j = choose|j: int| 0 <= j < self.entries@.len() && self.entries@[j].0@ == name@;
                assert(self.entries@[j].0@ != name@);
            }
        }
        None
    }

    /// The record of one row: column `i` is bound to `values[i]`, and a later
    /// column overrides an earlier one of the same name.
    pub fn from_row(columns: &Vec<String>, values: Vec<Value>) -> (r: Record)
        requires
            columns@.len() == values@.len(),
        ensures
            r.wf(),
            r.view() == row_map(names_of(columns@), values@),
    {
        let ghost vals = values@;
        let mut rest = values;
        let mut rec = Record::new();
        let mut i: usize = 0;
        while i < columns.len()
            invariant
                i <= columns@.len(),
                columns@.len() == vals.len(),
                rest@ == vals.subrange(i as int, vals.len() as int),
                rec.wf(),
                rec.view() == row_map(
                    names_of(columns@).subrange(0, i as int),
                    vals.subrange(0, i as int),
                ),
            decreases columns@.len() - i,
        {
            let v = rest.remove(0);
            let name = columns[i].clone();
            rec.insert(name, v);
            proof {
                let n2 = names_of(columns@).subrange(0, i + 1);
                let v2 = vals.subrange(0, i + 1);
                assert(n2.drop_last() =~= names_of(columns@).subrange(0, i as int));
                assert(v2.drop_last() =~= vals.subrange(0, i as int));
                assert(rest@ =~= vals.subrange(i + 1, vals.len() as int));
            }
            i += 1;
        }
        proof {
            assert(names_of(columns@).subrange(0, i as int) =~= names_of(columns@));
            assert(vals.subrange(0, i as int) =~= vals);
        }
        rec
    }
}

} // verus!
