//! Script data tags and the value tree they carry.

use crate::reader::bytes_content;
use crate::reader::bytes_eq;
use bytes::Bytes;
use vstd::prelude::*;

verus! {

/// A script data payload: a name and one value.
#[derive(Debug, PartialEq)]
pub struct MetaTag {
    /// Method or object name.
    pub name: Bytes,
    /// The value that follows the name.
    pub value: MetaDataValue,
}

/// What a [`MetaTag`] stands for.
pub struct MetaTagView {
    pub name: Seq<u8>,
    pub value: MetaValue,
}

impl View for MetaTag {
    type V = MetaTagView;

    open spec fn view(&self) -> MetaTagView {
        MetaTagView { name: bytes_content(self.name), value: value_model(self.value) }
    }
}

/// A script data value.
#[derive(Debug, PartialEq)]
pub enum MetaDataValue {
    /// 0, a double, kept as its IEEE 754 bit pattern.
    Number(u64),
    /// 1
    Boolean(bool),
    /// 2
    String(Bytes),
    /// 3
    Object(MetaDataObject),
    /// 4
    MovieClip,
    /// 5
    Null,
    /// 6
    Undefined,
    /// 7
    Reference(u16),
    /// 8
    ECMAArray(MetaDataObject),
    /// 10
    StrictArray(Vec<MetaDataValue>),
    /// 11
    Date(MetaDataDate),
    /// 12
    LongString(Bytes),
    /// Any other type marker.
    Unknown(u8),
}

/// What a [`MetaDataValue`] stands for: strings are byte sequences, objects
/// and ECMA arrays are maps from key to value.
pub enum MetaValue {
    Number(u64),
    Boolean(bool),
    String(Seq<u8>),
    Object(Map<Seq<u8>, MetaValue>),
    MovieClip,
    Null,
    Undefined,
    Reference(u16),
    ECMAArray(Map<Seq<u8>, MetaValue>),
    StrictArray(Seq<MetaValue>),
    Date(MetaDataDate),
    LongString(Seq<u8>),
    Unknown(u8),
}

/// The properties of an object or an ECMA array, in the order in which their
/// keys first appeared. A well-formed object holds each key once.
#[derive(Debug, PartialEq)]
pub struct MetaDataObject {
    pub properties: Vec<MetaDataObjectProperty>,
}

/// One property of an object or an ECMA array.
#[derive(Debug, PartialEq)]
pub struct MetaDataObjectProperty {
    /// Property name.
    pub key: Bytes,
    /// Property value.
    pub value: MetaDataValue,
}

/// A point in time.
#[derive(Copy, Clone, Debug, PartialEq, Eq, Structural)]
pub struct MetaDataDate {
    /// Milliseconds since the Unix epoch: a double, kept as its IEEE 754 bit
    /// pattern.
    pub date_time: u64,
    /// Local time offset from UTC in minutes.
    pub local_date_time_offset: i16,
}

/// What `v` stands for.
pub open spec fn value_model(v: MetaDataValue) -> MetaValue
    decreases v,
{
    match v {
        MetaDataValue::Number(bits) => MetaValue::Number(bits),
        MetaDataValue::Boolean(b) => MetaValue::Boolean(b),
        MetaDataValue::String(s) => MetaValue::String(bytes_content(s)),
        MetaDataValue::Object(o) => MetaValue::Object(properties_model(o.properties@)),
        MetaDataValue::MovieClip => MetaValue::MovieClip,
        MetaDataValue::Null => MetaValue::Null,
        MetaDataValue::Undefined => MetaValue::Undefined,
        MetaDataValue::Reference(r) => MetaValue::Reference(r),
        MetaDataValue::ECMAArray(o) => MetaValue::ECMAArray(properties_model(o.properties@)),
        MetaDataValue::StrictArray(items) => MetaValue::StrictArray(values_model(items@)),
        MetaDataValue::Date(d) => MetaValue::Date(d),
        MetaDataValue::LongString(s) => MetaValue::LongString(bytes_content(s)),
        MetaDataValue::Unknown(id) => MetaValue::Unknown(id),
    }
}

/// The map that a list of properties stands for; of two properties with the
/// same key the later one counts.
pub open spec fn properties_model(props: Seq<MetaDataObjectProperty>) -> Map<Seq<u8>, MetaValue>
    decreases props,
{
    if props.len() == 0 {
        Map::empty()
    } else {
        properties_model(props.drop_last()).insert(
            bytes_content(props.last().key),
            value_model(props.last().value),
        )
    }
}

/// What each value of a list stands for, in order.
pub open spec fn values_model(values: Seq<MetaDataValue>) -> Seq<MetaValue>
    decreases values,
{
    if values.len() == 0 {
        Seq::empty()
    } else {
        values_model(values.drop_last()).push(value_model(values.last()))
    }
}

/// Whether no key occurs twice in `props`.
pub open spec fn distinct_keys(props: Seq<MetaDataObjectProperty>) -> bool {
    forall|i: int, j: int|
        0 <= i < j < props.len() ==> bytes_content(#[trigger] props[i].key) != bytes_content(
            #[trigger] props[j].key,
        )
}

/// Whether every object inside `v`, at any depth, holds each key once.
pub open spec fn value_wf(v: MetaDataValue) -> bool
    decreases v,
{
    match v {
        MetaDataValue::Object(o) => distinct_keys(o.properties@) && properties_wf(o.properties@),
        MetaDataValue::ECMAArray(o) => distinct_keys(o.properties@) && properties_wf(
            o.properties@,
        ),
        MetaDataValue::StrictArray(items) => values_wf(items@),
        _ => true,
    }
}

/// Whether the value of every property of `props` is well-formed.
pub open spec fn properties_wf(props: Seq<MetaDataObjectProperty>) -> bool
    decreases props,
{
    props.len() == 0 || (properties_wf(props.drop_last()) && value_wf(props.last().value))
}

/// Whether every value of `values` is well-formed.
pub open spec fn values_wf(values: Seq<MetaDataValue>) -> bool
    decreases values,
{
    values.len() == 0 || (values_wf(values.drop_last()) && value_wf(values.last()))
}

impl View for MetaDataValue {
    type V = MetaValue;

    open spec fn view(&self) -> MetaValue {
        value_model(*self)
    }
}

impl View for MetaDataObject {
    type V = Map<Seq<u8>, MetaValue>;

    open spec fn view(&self) -> Map<Seq<u8>, MetaValue> {
        properties_model(self.properties@)
    }
}

/// Replacing the last property that has a given key by one with the same
/// key gives that key the new value and keeps every other key of the map.
proof fn lemma_replace_value(props: Seq<MetaDataObjectProperty>, i: int, p: MetaDataObjectProperty)
    requires
        0 <= i < props.len(),
        bytes_content(p.key) == bytes_content(props[i].key),
        forall|j: int| i < j < props.len() ==> bytes_content(#[trigger] props[j].key) != bytes_content(
            p.key,
        ),
    ensures
        properties_model(props.update(i, p)) == properties_model(props).insert(
            bytes_content(p.key),
            value_model(p.value),
        ),
    decreases props.len(),
{
    let updated = props.update(i, p);
    let key = bytes_content(p.key);
    if i == props.len() - 1 {
        assert(updated.drop_last() =~= props.drop_last());
    } else {
        assert(updated.drop_last() =~= props.drop_last().update(i, p));
        lemma_replace_value(props.drop_last(), i, p);
    }
}

/// Replacing the value of a property by a well-formed one keeps the
/// properties well-formed.
proof fn lemma_replace_wf(props: Seq<MetaDataObjectProperty>, i: int, p: MetaDataObjectProperty)
    requires
        0 <= i < props.len(),
        properties_wf(props),
        value_wf(p.value),
    ensures
        properties_wf(props.update(i, p)),
    decreases props.len(),
{
    let updated = props.update(i, p);
    if i == props.len() - 1 {
        assert(updated.drop_last() =~= props.drop_last());
    } else {
        assert(updated.drop_last() =~= props.drop_last().update(i, p));
        lemma_replace_wf(props.drop_last(), i, p);
    }
}

impl MetaDataObject {
    /// Whether the object holds each key once, as does every object inside
    /// it.
    pub open spec fn wf(&self) -> bool {
        distinct_keys(self.properties@) && properties_wf(self.properties@)
    }

    /// An object without properties.
    pub fn new() -> (r: Self)
        ensures
            r@ == Map::<Seq<u8>, MetaValue>::empty(),
            r.wf(),
            r.properties@.len() == 0,
    {
        MetaDataObject { properties: Vec::new() }
    }

    /// Number of properties.
    pub fn len(&self) -> (n: usize)
        ensures
            n == self.properties@.len(),
    {
        self.properties.len()
    }

    /// Sets the property `key` to `value`: the value of a key that is
    /// already there is replaced, a new key is added at the end.
    pub fn insert(&mut self, key: Bytes, value: MetaDataValue)
        ensures
            final(self)@ == old(self)@.insert(bytes_content(key), value_model(value)),
            old(self).wf() && value_wf(value) ==> final(self).wf(),
    {
        let mut i: usize = self.properties.len();
        while i > 0
            invariant
                *self == *old(self),
                i <= self.properties@.len(),
                forall|j: int|
                    i <= j < self.properties@.len() ==> bytes_content(
                        #[trigger] self.properties@[j].key,
                    ) != bytes_content(key),
            decreases i,
        {
            i -= 1;
            if bytes_eq(&self.properties[i].key, &key) {
                let ghost before = self.properties@;
                let ghost p = MetaDataObjectProperty { key, value };
                proof {
                    lemma_replace_value(before, i as int, p);
                    if old(self).wf() && value_wf(value) {
                        lemma_replace_wf(before, i as int, p);
                    }
                }
                self.properties[i] = MetaDataObjectProperty { key, value };
                return ;
            }
        }
        let ghost before = self.properties@;
        self.properties.push(MetaDataObjectProperty { key, value });
        assert(self.properties@.drop_last() =~= before);
    }

    /// The value of the property `key`, if there is one.
    pub fn get(&self, key: &Bytes) -> (r: Option<&MetaDataValue>)
        ensures
            r is Some <==> self@.dom().contains(bytes_content(*key)),
            r is Some ==> value_model(*r->Some_0) == self@[bytes_content(*key)],
    {
        let mut i: usize = self.properties.len();
        while i > 0
            invariant
                i <= self.properties@.len(),
                forall|j: int|
                    i <= j < self.properties@.len() ==> bytes_content(
                        #[trigger] self.properties@[j].key,
                    ) != bytes_content(*key),
            decreases i,
        {
            i -= 1;
            if bytes_eq(&self.properties[i].key, key) {
                proof {
                    lemma_lookup(self.properties@, i as int);
                }
                return Some(&self.properties[i].value);
            }
        }
        proof {
            lemma_absent(self.properties@, bytes_content(*key));
        }
        None
    }
}

/// The map holds for a key the value of the last property that has it.
proof fn lemma_lookup(props: Seq<MetaDataObjectProperty>, i: int)
    requires
        0 <= i < props.len(),
        forall|j: int| i < j < props.len() ==> bytes_content(#[trigger] props[j].key) != bytes_content(
            props[i].key,
        ),
    ensures
        properties_model(props).dom().contains(bytes_content(props[i].key)),
        properties_model(props)[bytes_content(props[i].key)] == value_model(props[i].value),
    decreases props.len(),
{
    if i < props.len() - 1 {
        lemma_lookup(props.drop_last(), i);
    }
}

/// A key that no property has is not in the map.
proof fn lemma_absent(props: Seq<MetaDataObjectProperty>, key: Seq<u8>)
    requires
        forall|j: int| 0 <= j < props.len() ==> bytes_content(#[trigger] props[j].key) != key,
    ensures
        !properties_model(props).dom().contains(key),
    decreases props.len(),
{
    if props.len() > 0 {
        lemma_absent(props.drop_last(), key);
    }
}

/// A copy of `v` that shares its byte buffers.
fn clone_value(v: &MetaDataValue) -> (r: MetaDataValue)
    ensures
        value_model(r) == value_model(*v),
        value_wf(*v) ==> value_wf(r),
    decreases *v, 0nat,
{
    match v {
        MetaDataValue::Number(bits) => MetaDataValue::Number(*bits),
        MetaDataValue::Boolean(b) => MetaDataValue::Boolean(*b),
        MetaDataValue::String(s) => MetaDataValue::String(s.clone()),
        MetaDataValue::Object(o) => MetaDataValue::Object(
            MetaDataObject { properties: clone_properties(&o.properties) },
        ),
        MetaDataValue::MovieClip => MetaDataValue::MovieClip,
        MetaDataValue::Null => MetaDataValue::Null,
        MetaDataValue::Undefined => MetaDataValue::Undefined,
        MetaDataValue::Reference(r) => MetaDataValue::Reference(*r),
        MetaDataValue::ECMAArray(o) => MetaDataValue::ECMAArray(
            MetaDataObject { properties: clone_properties(&o.properties) },
        ),
        MetaDataValue::StrictArray(items) => MetaDataValue::StrictArray(clone_values(items)),
        MetaDataValue::Date(d) => MetaDataValue::Date(*d),
        MetaDataValue::LongString(s) => MetaDataValue::LongString(s.clone()),
        MetaDataValue::Unknown(id) => MetaDataValue::Unknown(*id),
    }
}

/// A copy of each property of `props`, in order.
fn clone_properties(props: &Vec<MetaDataObjectProperty>) -> (r: Vec<MetaDataObjectProperty>)
    ensures
        r@.len() == props@.len(),
        forall|i: int|
            0 <= i < r@.len() ==> bytes_content(#[trigger] r@[i].key) == bytes_content(
                props@[i].key,
            ),
        properties_model(r@) == properties_model(props@),
        properties_wf(props@) ==> properties_wf(r@),
    decreases *props, 1nat,
{
    let mut out: Vec<MetaDataObjectProperty> = Vec::new();
    let mut i: usize = 0;
    while i < props.len()
        invariant
            i <= props@.len(),
            out@.len() == i,
            forall|k: int|
                0 <= k < i ==> bytes_content(#[trigger] out@[k].key) == bytes_content(
                    props@[k].key,
                ),
            properties_model(out@) == properties_model(props@.take(i as int)),
            properties_wf(props@.take(i as int)) ==> properties_wf(out@),
        decreases props@.len() - i,
    {
        let ghost before = out@;
        let p: &MetaDataObjectProperty = &props[i];
        let copy = MetaDataObjectProperty { key: p.key.clone(), value: clone_value(&p.value) };
        out.push(copy);
        i += 1;
        proof {
            assert(out@.drop_last() =~= before);
            assert(props@.take(i as int).drop_last() =~= props@.take(i - 1));
        }
    }
    assert(props@.take(i as int) =~= props@);
    out
}

/// A copy of each value of `values`, in order.
fn clone_values(values: &Vec<MetaDataValue>) -> (r: Vec<MetaDataValue>)
    ensures
        values_model(r@) == values_model(values@),
        values_wf(values@) ==> values_wf(r@),
    decreases *values, 1nat,
{
    let mut out: Vec<MetaDataValue> = Vec::new();
    let mut i: usize = 0;
    while i < values.len()
        invariant
            i <= values@.len(),
            out@.len() == i,
            values_model(out@) == values_model(values@.take(i as int)),
            values_wf(values@.take(i as int)) ==> values_wf(out@),
        decreases values@.len() - i,
    {
        let ghost before = out@;
        let copy: MetaDataValue = clone_value(&values[i]);
        out.push(copy);
        i += 1;
        proof {
            assert(out@.drop_last() =~= before);
            assert(values@.take(i as int).drop_last() =~= values@.take(i - 1));
        }
    }
    assert(values@.take(i as int) =~= values@);
    out
}

impl Clone for MetaDataValue {
    fn clone(&self) -> (r: Self)
        ensures
            r@ == self@,
            value_wf(*self) ==> value_wf(r),
    {
        clone_value(self)
    }
}

impl Clone for MetaDataObject {
    fn clone(&self) -> (r: Self)
        ensures
            r@ == self@,
            self.wf() ==> r.wf(),
    {
        let properties: Vec<MetaDataObjectProperty> = clone_properties(&self.properties);
        MetaDataObject { properties }
    }
}

impl Clone for MetaDataObjectProperty {
    fn clone(&self) -> (r: Self)
        ensures
            bytes_content(r.key) == bytes_content(self.key),
            r.value@ == self.value@,
    {
        MetaDataObjectProperty { key: self.key.clone(), value: clone_value(&self.value) }
    }
}

impl Clone for MetaTag {
    fn clone(&self) -> (r: Self)
        ensures
            r@ == self@,
    {
        MetaTag { name: self.name.clone(), value: clone_value(&self.value) }
    }
}

} // verus!
