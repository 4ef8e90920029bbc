//! Header fields of a request or response, held as plain bytes.

use vstd::prelude::*;
use crate::ws::ascii::{bytes_equal, lemma_lower_idempotent, lower, to_lower};

verus! {

/// The mathematical content of a header list: name and value of each field,
/// in the order the fields were added.
pub type Fields = Seq<(Seq<u8>, Seq<u8>)>;

/// The contents of a list of byte strings.
pub open spec fn byte_strings(list: Seq<Vec<u8>>) -> Seq<Seq<u8>> {
    list.map_values(|bytes: Vec<u8>| bytes@)
}

/// Whether every name is in lower case.
pub open spec fn names_lowered(fields: Fields) -> bool {
    forall|i: int| 0 <= i < fields.len() ==> lower((#[trigger] fields[i]).0) == fields[i].0
}

/// The values held under `name`, in field order.
pub open spec fn values_of(fields: Fields, name: Seq<u8>) -> Seq<Seq<u8>>
    decreases fields.len(),
{
    if fields.len() == 0 {
        Seq::empty()
    } else if fields[0].0 == name {
        seq![fields[0].1] + values_of(fields.drop_first(), name)
    } else {
        values_of(fields.drop_first(), name)
    }
}

/// The first value held under `name`, if there is any.
pub open spec fn first_value(fields: Fields, name: Seq<u8>) -> Option<Seq<u8>> {
    if values_of(fields, name).len() > 0 {
        Some(values_of(fields, name)[0])
    } else {
        None
    }
}

/// The fields whose name is not `name`, in their order.
pub open spec fn without(fields: Fields, name: Seq<u8>) -> Fields
    decreases fields.len(),
{
    if fields.len() == 0 {
        Seq::empty()
    } else if fields[0].0 == name {
        without(fields.drop_first(), name)
    } else {
        seq![fields[0]] + without(fields.drop_first(), name)
    }
}

/// The fields after `name` is set to the single value `value`.
pub open spec fn replaced(fields: Fields, name: Seq<u8>, value: Seq<u8>) -> Fields {
    without(fields, name).push((name, value))
}

/// Values under `name` in a concatenation are those of the parts, in order.
pub proof fn lemma_values_of_concat(a: Fields, b: Fields, name: Seq<u8>)
    ensures
        values_of(a + b, name) == values_of(a, name) + values_of(b, name),
    decreases a.len(),
{
    if a.len() == 0 {
        assert(a + b =~= b);
        assert(values_of(a, name) + values_of(b, name) =~= values_of(b, name));
    } else {
        assert((a + b).drop_first() =~= a.drop_first() + b);
        lemma_values_of_concat(a.drop_first(), b, name);
        assert(values_of(a + b, name) =~= values_of(a, name) + values_of(b, name));
    }
}

/// Adding a field at the end adds its value at the end of the values under
/// its name, and changes nothing under any other name.
pub proof fn lemma_values_of_push(fields: Fields, name: Seq<u8>, value: Seq<u8>, other: Seq<u8>)
    ensures
        values_of(fields.push((name, value)), other) == if other == name {
            values_of(fields, other).push(value)
        } else {
            values_of(fields, other)
        },
{
    let last: Fields = seq![(name, value)];
    assert(fields.push((name, value)) =~= fields + last);
    lemma_values_of_concat(fields, last, other);
    reveal_with_fuel(values_of, 2);
    assert(last.drop_first() =~= Fields::empty());
    if other == name {
        assert(values_of(last, other) =~= seq![value]);
        assert(values_of(fields, other) + seq![value] =~= values_of(fields, other).push(value));
    } else {
        assert(values_of(last, other) =~= Seq::<Seq<u8>>::empty());
        assert(values_of(fields, other) + Seq::<Seq<u8>>::empty() =~= values_of(fields, other));
    }
}

/// Removing a name leaves nothing under it, and changes nothing under any
/// other name.
pub proof fn lemma_values_of_without(fields: Fields, name: Seq<u8>, other: Seq<u8>)
    ensures
        values_of(without(fields, name), other) == if other == name {
            Seq::<Seq<u8>>::empty()
        } else {
            values_of(fields, other)
        },
    decreases fields.len(),
{
    if fields.len() == 0 {
    } else {
        lemma_values_of_without(fields.drop_first(), name, other);
        if fields[0].0 != name {
            let head: Fields = seq![fields[0]];
            lemma_values_of_concat(head, without(fields.drop_first(), name), other);
            reveal_with_fuel(values_of, 2);
            assert(head.drop_first() =~= Fields::empty());
            if fields[0].0 == other {
                assert(values_of(head, other) =~= seq![fields[0].1]);
            } else {
                assert(values_of(head, other) =~= Seq::<Seq<u8>>::empty());
                assert(Seq::<Seq<u8>>::empty() + values_of(fields.drop_first(), other)
                    =~= values_of(fields.drop_first(), other));
            }
        }
    }
}

/// Setting a name to one value leaves exactly that value under it, and
/// changes nothing under any other name.
pub proof fn lemma_values_of_replaced(
    fields: Fields,
    name: Seq<u8>,
    value: Seq<u8>,
    other: Seq<u8>,
)
    ensures
        values_of(replaced(fields, name, value), other) == if other == name {
            seq![value]
        } else {
            values_of(fields, other)
        },
{
    lemma_values_of_push(without(fields, name), name, value, other);
    lemma_values_of_without(fields, name, other);
    if other == name {
        assert(Seq::<Seq<u8>>::empty().push(value) =~= seq![value]);
    }
}

/// Removing a name from a field list with one more field at the end.
pub proof fn lemma_without_push(fields: Fields, field: (Seq<u8>, Seq<u8>), name: Seq<u8>)
    ensures
        without(fields.push(field), name) == if field.0 == name {
            without(fields, name)
        } else {
            without(fields, name).push(field)
        },
    decreases fields.len(),
{
    reveal_with_fuel(without, 2);
    if fields.len() == 0 {
        assert(fields.push(field).drop_first() =~= fields);
        assert(without(fields, name) =~= Fields::empty());
        if field.0 != name {
            assert(seq![field] + without(fields, name) =~= without(fields, name).push(field));
        }
    } else {
        assert(fields.push(field).drop_first() =~= fields.drop_first().push(field));
        lemma_without_push(fields.drop_first(), field, name);
        if fields[0].0 != name && field.0 != name {
            assert(seq![fields[0]] + without(fields.drop_first(), name).push(field) =~= (
            seq![fields[0]] + without(fields.drop_first(), name)).push(field));
        }
    }
}

/// Removing a name twice is removing it once.
pub proof fn lemma_without_idempotent(fields: Fields, name: Seq<u8>)
    ensures
        without(without(fields, name), name) == without(fields, name),
    decreases fields.len(),
{
    if fields.len() > 0 {
        lemma_without_idempotent(fields.drop_first(), name);
        if fields[0].0 != name {
            let rest = without(fields.drop_first(), name);
            assert((seq![fields[0]] + rest).drop_first() =~= rest);
        }
    }
}

/// Removing two names gives the same in either order.
pub proof fn lemma_without_commutes(fields: Fields, first: Seq<u8>, second: Seq<u8>)
    ensures
        without(without(fields, first), second) == without(without(fields, second), first),
    decreases fields.len(),
{
    if fields.len() > 0 {
        lemma_without_commutes(fields.drop_first(), first, second);
        let head = fields[0];
        let by_first = without(fields.drop_first(), first);
        let by_second = without(fields.drop_first(), second);
        if head.0 != first {
            assert((seq![head] + by_first).drop_first() =~= by_first);
        }
        if head.0 != second {
            assert((seq![head] + by_second).drop_first() =~= by_second);
        }
    }
}

/// One header field. The name is kept in lower case.
#[derive(Debug, PartialEq, Eq)]
struct HeaderField {
    name: Vec<u8>,
    value: Vec<u8>,
}

impl View for HeaderField {
    type V = (Seq<u8>, Seq<u8>);

    closed spec fn view(&self) -> (Seq<u8>, Seq<u8>) {
        (self.name@, self.value@)
    }
}

/// The header fields of one message. A name may occur several times; names
/// are matched without regard to ASCII case.
#[derive(Debug, Eq)]
pub struct Headers {
    fields: Vec<HeaderField>,
}

impl View for Headers {
    type V = Fields;

    closed spec fn view(&self) -> Fields {
        listed(self.fields@)
    }
}

impl PartialEq for Headers {
    /// Whether two lists hold the same fields in the same order.
    fn eq(&self, other: &Headers) -> (same: bool) {
        if self.fields.len() != other.fields.len() {
            assert(self@.len() != other@.len());
            return false;
        }
        let mut i: usize = 0;
        while i < self.fields.len()
            invariant
                i <= self.fields.len(),
                self.fields.len() == other.fields.len(),
                forall|j: int| 0 <= j < i ==> self@[j] == other@[j],
            decreases self.fields.len() - i,
        {
            let mine = &self.fields[i];
            let theirs = &other.fields[i];
            assert(self@[i as int] == mine@ && other@[i as int] == theirs@);
            if !bytes_equal(mine.name.as_slice(), theirs.name.as_slice()) || !bytes_equal(
                mine.value.as_slice(),
                theirs.value.as_slice(),
            ) {
                return false;
            }
            i += 1;
        }
        assert(self@ =~= other@);
        true
    }
}

impl vstd::std_specs::cmp::PartialEqSpecImpl for Headers {
    open spec fn obeys_eq_spec() -> bool {
        true
    }

    open spec fn eq_spec(&self, other: &Headers) -> bool {
        self@ == other@
    }
}

impl Clone for Headers {
    /// A list with the same fields.
    fn clone(&self) -> (copy: Headers)
        ensures
            copy@ == self@,
    {
        proof {
            use_type_invariant(self);
        }
        let mut fields: Vec<HeaderField> = Vec::new();
        let mut i: usize = 0;
        while i < self.fields.len()
            invariant
                i <= self.fields.len(),
                listed(fields@) == listed(self.fields@).take(i as int),
            decreases self.fields.len() - i,
        {
            let ghost before = listed(fields@);
            let field = HeaderField {
                name: vstd::slice::slice_to_vec(self.fields[i].name.as_slice()),
                value: vstd::slice::slice_to_vec(self.fields[i].value.as_slice()),
            };
            fields.push(field);
            assert(listed(fields@) =~= before.push(listed(self.fields@)[i as int]));
            assert(listed(self.fields@).take(i as int + 1) =~= listed(self.fields@).take(
                i as int,
            ).push(listed(self.fields@)[i as int]));
            i += 1;
        }
        assert(listed(self.fields@).take(i as int) =~= listed(self.fields@));
        Headers { fields }
    }
}

/// The content of a run of fields.
spec fn listed(fields: Seq<HeaderField>) -> Fields {
    fields.map_values(|field: HeaderField| field@)
}

impl Headers {
    #[verifier::type_invariant]
    spec fn well_formed(self) -> bool {
        names_lowered(self@)
    }

    /// A list without fields.
    pub fn new() -> (headers: Headers)
        ensures
            headers@ == Fields::empty(),
    {
        let headers = Headers { fields: Vec::new() };
        assert(headers@ =~= Fields::empty());
        headers
    }

    /// The number of fields. Every one of them has its name in lower case.
    pub fn len(&self) -> (n: usize)
        ensures
            n == self@.len(),
            names_lowered(self@),
    {
        proof {
            use_type_invariant(self);
        }
        self.fields.len()
    }

    /// Name and value of the field at `index`, counting from zero.
    pub fn field(&self, index: usize) -> (field: Option<(&Vec<u8>, &Vec<u8>)>)
        ensures
            match field {
                Some((name, value)) => {
                    &&& index < self@.len()
                    &&& self@[index as int] == (name@, value@)
                    &&& lower(name@) == name@
                },
                None => index >= self@.len(),
            },
    {
        proof {
            use_type_invariant(self);
        }
        if index < self.fields.len() {
            assert(self@[index as int] == self.fields[index as int]@);
            Some((&self.fields[index].name, &self.fields[index].value))
        } else {
            None
        }
    }

    /// Adds a field after those already held.
    pub fn append(&mut self, name: &[u8], value: &[u8])
        ensures
            final(self)@ == old(self)@.push((lower(name@), value@)),
    {
        proof {
            use_type_invariant(&*self);
            lemma_lower_idempotent(name@);
        }
        let mut fields = self.take_fields();
        let field = HeaderField { name: to_lower(name), value: vstd::slice::slice_to_vec(value) };
        fields.push(field);
        let ghost added = listed(fields@);
        assert(added =~= old(self)@.push((lower(name@), value@)));
        assert(names_lowered(added)) by {
            assert forall|i: int| 0 <= i < added.len() implies lower((#[trigger] added[i]).0)
                == added[i].0 by {
                if i < old(self)@.len() {
                    assert(added[i] == old(self)@[i]);
                }
            }
        }
        *self = Headers { fields };
    }

    /// Empties the list and hands its fields out.
    fn take_fields(&mut self) -> (fields: Vec<HeaderField>)
        ensures
            listed(fields@) == old(self)@,
            final(self)@ == Fields::empty(),
    {
        let mut taken = Headers::new();
        core::mem::swap(self, &mut taken);
        taken.fields
    }

    /// Sets `name` to the single value `value`: every field of that name is
    /// dropped and one field is added at the end.
    pub fn insert(&mut self, name: &[u8], value: &[u8])
        ensures
            final(self)@ == replaced(old(self)@, lower(name@), value@),
    {
        proof {
            use_type_invariant(&*self);
            lemma_lower_idempotent(name@);
        }
        let key = to_lower(name);
        let mut fields = self.take_fields();
        let mut i: usize = 0;
        assert(listed(fields@).skip(0) =~= listed(fields@));
        assert(listed(fields@).take(0) + without(listed(fields@), key@) =~= without(
            listed(fields@),
            key@,
        ));
        while i < fields.len()
            invariant
                i <= fields.len(),
                key@ == lower(name@),
                names_lowered(listed(fields@)),
                without(old(self)@, key@) == listed(fields@).take(i as int) + without(
                    listed(fields@).skip(i as int),
                    key@,
                ),
            decreases fields.len() - i,
        {
            let ghost before = listed(fields@);
            assert(before.skip(i as int).drop_first() =~= before.skip(i as int + 1));
            assert(before.skip(i as int)[0] == before[i as int]);
            if bytes_equal(fields[i].name.as_slice(), key.as_slice()) {
                let _ = fields.remove(i);
                let ghost after = listed(fields@);
                assert(after =~= before.remove(i as int));
                assert(after.take(i as int) =~= before.take(i as int));
                assert(after.skip(i as int) =~= before.skip(i as int + 1));
                assert(names_lowered(after)) by {
                    assert forall|k: int| 0 <= k < after.len() implies lower(
                        (#[trigger] after[k]).0,
                    ) == after[k].0 by {
                        if k < i {
                            assert(after[k] == before[k]);
                        } else {
                            assert(after[k] == before[k + 1]);
                        }
                    }
                }
            } else {
                assert(before.take(i as int + 1) + without(before.skip(i as int + 1), key@)
                    =~= before.take(i as int) + (seq![before[i as int]] + without(
                    before.skip(i as int + 1),
                    key@,
                )));
                i += 1;
            }
        }
        let ghost kept = listed(fields@);
        assert(kept.skip(i as int) =~= Fields::empty());
        assert(kept.take(i as int) =~= kept);
        assert(kept + Fields::empty() =~= kept);
        let field = HeaderField { name: key, value: vstd::slice::slice_to_vec(value) };
        fields.push(field);
        let ghost added = listed(fields@);
        assert(added =~= kept.push((lower(name@), value@)));
        assert(names_lowered(added)) by {
            assert forall|k: int| 0 <= k < added.len() implies lower((#[trigger] added[k]).0)
                == added[k].0 by {
                if k < kept.len() {
                    assert(added[k] == kept[k]);
                }
            }
        }
        *self = Headers { fields };
    }

    /// The first value held under `name`.
    pub fn get(&self, name: &[u8]) -> (value: Option<&Vec<u8>>)
        ensures
            match value {
                Some(bytes) => first_value(self@, lower(name@)) == Some(bytes@),
                None => first_value(self@, lower(name@)) is None,
            },
    {
        let key = to_lower(name);
        let mut i: usize = 0;
        assert(self@.skip(0) =~= self@);
        while i < self.fields.len()
            invariant
                i <= self.fields.len(),
                key@ == lower(name@),
                values_of(self@, key@) == values_of(self@.skip(i as int), key@),
            decreases self.fields.len() - i,
        {
            assert(self@.skip(i as int).drop_first() =~= self@.skip(i as int + 1));
            assert(self@.skip(i as int)[0] == self@[i as int]);
            if bytes_equal(self.fields[i].name.as_slice(), key.as_slice()) {
                return Some(&self.fields[i].value);
            }
            i += 1;
        }
        assert(self@.skip(i as int) =~= Fields::empty());
        None
    }

    /// Every value held under `name`, in field order.
    pub fn get_all(&self, name: &[u8]) -> (values: Vec<Vec<u8>>)
        ensures
            byte_strings(values@) == values_of(self@, lower(name@)),
    {
        let key = to_lower(name);
        let mut values: Vec<Vec<u8>> = Vec::new();
        let mut i: usize = 0;
        assert(byte_strings(values@) =~= Seq::<Seq<u8>>::empty());
        assert(Seq::<Seq<u8>>::empty() + values_of(self@, key@) =~= values_of(self@, key@));
        assert(self@.skip(0) =~= self@);
        while i < self.fields.len()
            invariant
                i <= self.fields.len(),
                key@ == lower(name@),
                values_of(self@, key@) == byte_strings(values@) + values_of(
                    self@.skip(i as int),
                    key@,
                ),
            decreases self.fields.len() - i,
        {
            assert(self@.skip(i as int).drop_first() =~= self@.skip(i as int + 1));
            assert(self@.skip(i as int)[0] == self@[i as int]);
            if bytes_equal(self.fields[i].name.as_slice(), key.as_slice()) {
                let ghost before = byte_strings(values@);
                let copy = vstd::slice::slice_to_vec(self.fields[i].value.as_slice());
                values.push(copy);
                assert(byte_strings(values@) =~= before.push(self@[i as int].1));
                assert(before.push(self@[i as int].1) + values_of(self@.skip(i as int + 1), key@)
                    =~= before + (seq![self@[i as int].1] + values_of(
                    self@.skip(i as int + 1),
                    key@,
                )));
            }
            i += 1;
        }
        assert(self@.skip(i as int) =~= Fields::empty());
        assert(byte_strings(values@) + Seq::<Seq<u8>>::empty() =~= byte_strings(values@));
        values
    }
}

} // verus!
