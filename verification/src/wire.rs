//! The wire form of values, and the marshaling between values and their wire forms.
//!
//! The fields of a map body and the properties of a message are named values, typed
//! as the broker types them. A map body may nest map bodies to any depth. Bytes have
//! no place in a map body or among the properties, and a nested body has none among
//! the properties: a value that holds one there has no wire form, and a wire value
//! that holds one stands for no value.

use vstd::prelude::*;
use crate::c_binding::tibems_status;
use crate::error::Error;
use crate::message::MapMessage;
use crate::value::TypedValue;
use crate::value::ValueMap;
use crate::value::ValueView;
use crate::value::last_at;
use crate::value::lemma_entries_view_finite;
use crate::value::lemma_entries_view_last;
use crate::value::lemma_entries_view_witness;

verus! {

/// Mathematical model of a [`WireValue`].
pub enum WireView {
    /// A boolean.
    Boolean(bool),
    /// A string.
    String(Seq<char>),
    /// A 32-bit integer.
    Int(i32),
    /// A 64-bit integer.
    Long(i64),
    /// The bit pattern of a 32-bit floating-point number.
    Float(u32),
    /// The bit pattern of a 64-bit floating-point number.
    Double(u64),
    /// A sequence of bytes.
    Bytes(Seq<u8>),
    /// The fields of a nested map body.
    Fields(Map<Seq<char>, WireView>),
}

/// The value of a field or a property, typed as the broker types it.
#[derive(Debug, PartialEq)]
pub enum WireValue {
    /// A boolean.
    Boolean(bool),
    /// A string.
    String(String),
    /// A 32-bit integer.
    Int(i32),
    /// A 64-bit integer.
    Long(i64),
    /// A 32-bit floating-point number, as its bit pattern.
    Float(u32),
    /// A 64-bit floating-point number, as its bit pattern.
    Double(u64),
    /// Bytes.
    Bytes(Vec<u8>),
    /// A nested map body.
    Fields(WireFields),
}

/// Named wire values: the fields of a map body, or the properties of a message.
///
/// Where a name occurs more than once, the last occurrence is the one that counts.
#[derive(Debug, PartialEq)]
pub struct WireFields {
    /// The names with their values.
    pub entries: Vec<(String, WireValue)>,
}

/// The mapping that a sequence of named wire values stands for: each in turn sets the
/// value of its name.
pub open spec fn fields_view(s: Seq<(String, WireValue)>) -> Map<Seq<char>, WireView>
    decreases s,
{
    if s.len() == 0 {
        Map::empty()
    } else {
        fields_view(s.drop_last()).insert(s.last().0@, s.last().1@)
    }
}

/// Whether `name` is the name of no field from position `from` on.
pub open spec fn field_absent_from(s: Seq<(String, WireValue)>, from: int, name: Seq<char>) -> bool {
    forall|j: int| from <= j < s.len() ==> (#[trigger] s[j]).0@ != name
}

/// Whether the field at position `i` is the last one with the name `name`.
pub open spec fn field_last_at(s: Seq<(String, WireValue)>, i: int, name: Seq<char>) -> bool {
    0 <= i < s.len() && s[i].0@ == name && field_absent_from(s, i + 1, name)
}

impl View for WireFields {
    type V = Map<Seq<char>, WireView>;

    open spec fn view(&self) -> Map<Seq<char>, WireView>
        decreases self,
    {
        fields_view(self.entries@)
    }
}

impl View for WireValue {
    type V = WireView;

    open spec fn view(&self) -> WireView
        decreases self,
    {
        match self {
            WireValue::Boolean(b) => WireView::Boolean(*b),
            WireValue::String(s) => WireView::String(s@),
            WireValue::Int(i) => WireView::Int(*i),
            WireValue::Long(i) => WireView::Long(*i),
            WireValue::Float(bits) => WireView::Float(*bits),
            WireValue::Double(bits) => WireView::Double(*bits),
            WireValue::Bytes(b) => WireView::Bytes(b@),
            WireValue::Fields(f) => WireView::Fields(f@),
        }
    }
}

/// Appending a field sets the value of its name.
pub proof fn lemma_fields_view_push(s: Seq<(String, WireValue)>, e: (String, WireValue))
    ensures
        fields_view(s.push(e)) == fields_view(s).insert(e.0@, e.1@),
{
    assert(s.push(e).drop_last() == s);
}

/// The mapping gives a name the value of the last field that has the name.
pub proof fn lemma_fields_view_last(s: Seq<(String, WireValue)>, i: int, name: Seq<char>)
    requires
        field_last_at(s, i, name),
    ensures
        fields_view(s).contains_key(name),
        fields_view(s)[name] == s[i].1@,
    decreases s.len(),
{
    let t = s.drop_last();
    let last = s.last();
    assert(fields_view(s) == fields_view(t).insert(last.0@, last.1@));
    assert(s[s.len() - 1] == last);
    if i < s.len() - 1 {
        assert(t[i] == s[i]);
        assert forall|j: int| i + 1 <= j < t.len() implies (#[trigger] t[j]).0@ != name by {
            assert(t[j] == s[j]);
        }
        lemma_fields_view_last(t, i, name);
        assert(last.0@ != name);
    }
}

/// A name that the mapping holds has a last field.
pub proof fn lemma_fields_view_witness(s: Seq<(String, WireValue)>, name: Seq<char>)
    requires
        fields_view(s).contains_key(name),
    ensures
        exists|i: int| field_last_at(s, i, name),
    decreases s.len(),
{
    let t = s.drop_last();
    let last = s.last();
    assert(fields_view(s) == fields_view(t).insert(last.0@, last.1@));
    assert(s[s.len() - 1] == last);
    if last.0@ == name {
        assert(field_last_at(s, s.len() - 1, name));
    } else {
        lemma_fields_view_witness(t, name);
        let i = choose|i: int| field_last_at(t, i, name);
        assert(t[i] == s[i]);
        assert forall|j: int| i + 1 <= j < s.len() implies (#[trigger] s[j]).0@ != name by {
            if j < t.len() {
                assert(t[j] == s[j]);
            }
        }
        assert(field_last_at(s, i, name));
    }
}

/// The mapping of a sequence of fields holds finitely many names.
pub proof fn lemma_fields_view_finite(s: Seq<(String, WireValue)>)
    ensures
        fields_view(s).dom().finite(),
    decreases s.len(),
{
    if s.len() > 0 {
        let t = s.drop_last();
        lemma_fields_view_finite(t);
        assert(fields_view(s) == fields_view(t).insert(s.last().0@, s.last().1@));
    } else {
        assert(fields_view(s).dom() =~= Set::<Seq<char>>::empty());
    }
}

/// The wire form of a value, if it has one.
///
/// Every value but bytes and a nested body has a wire form of its own type. Bytes have
/// none. A nested body has none among properties (`deep` is false); in a map body
/// (`deep` is true) it has one exactly if each of its values has.
pub open spec fn wire_form(v: ValueView, deep: bool) -> Option<WireView>
    decreases v,
{
    match v {
        ValueView::String(s) => Some(WireView::String(s)),
        ValueView::Integer(i) => Some(WireView::Int(i)),
        ValueView::Long(i) => Some(WireView::Long(i)),
        ValueView::Float(bits) => Some(WireView::Float(bits)),
        ValueView::Double(bits) => Some(WireView::Double(bits)),
        ValueView::Boolean(b) => Some(WireView::Boolean(b)),
        ValueView::Binary(_) => None,
        ValueView::Nested(m) => if deep {
            match wire_fields(m, true) {
                Some(f) => Some(WireView::Fields(f)),
                None => None,
            }
        } else {
            None
        },
    }
}

/// The wire form of a mapping of values: the mapping of the same names to the wire
/// forms of the values, if each value has one.
pub open spec fn wire_fields(m: Map<Seq<char>, ValueView>, deep: bool) -> Option<
    Map<Seq<char>, WireView>,
>
    decreases m,
{
    if m.dom().finite() && (forall|k: Seq<char>|
        m.dom().finite() && m.contains_key(k) ==> wire_form(#[trigger] m[k], deep) is Some) {
        Some(
            Map::new(
                |k: Seq<char>| m.contains_key(k),
                |k: Seq<char>|
                    if m.dom().finite() && m.contains_key(k) {
                        wire_form(m[k], deep)->Some_0
                    } else {
                        WireView::Boolean(false)
                    },
            ),
        )
    } else {
        None
    }
}

/// The value that a wire value stands for, if it stands for one.
///
/// Every wire value but bytes and a nested body stands for the value of its own type.
/// Bytes stand for none. A nested body stands for none among properties (`deep` is
/// false); in a map body (`deep` is true) it stands for one exactly if each of its
/// fields does.
pub open spec fn typed_form(w: WireView, deep: bool) -> Option<ValueView>
    decreases w,
{
    match w {
        WireView::String(s) => Some(ValueView::String(s)),
        WireView::Int(i) => Some(ValueView::Integer(i)),
        WireView::Long(i) => Some(ValueView::Long(i)),
        WireView::Float(bits) => Some(ValueView::Float(bits)),
        WireView::Double(bits) => Some(ValueView::Double(bits)),
        WireView::Boolean(b) => Some(ValueView::Boolean(b)),
        WireView::Bytes(_) => None,
        WireView::Fields(m) => if deep {
            match typed_fields(m, true) {
                Some(f) => Some(ValueView::Nested(f)),
                None => None,
            }
        } else {
            None
        },
    }
}

/// The mapping of values that a mapping of wire values stands for, if each of them
/// stands for a value.
pub open spec fn typed_fields(m: Map<Seq<char>, WireView>, deep: bool) -> Option<
    Map<Seq<char>, ValueView>,
>
    decreases m,
{
    if m.dom().finite() && (forall|k: Seq<char>|
        m.dom().finite() && m.contains_key(k) ==> typed_form(#[trigger] m[k], deep) is Some) {
        Some(
            Map::new(
                |k: Seq<char>| m.contains_key(k),
                |k: Seq<char>|
                    if m.dom().finite() && m.contains_key(k) {
                        typed_form(m[k], deep)->Some_0
                    } else {
                        ValueView::Boolean(false)
                    },
            ),
        )
    } else {
        None
    }
}

/// A value that has a wire form is the value that its wire form stands for.
pub proof fn law_value_round_trip(v: ValueView, deep: bool)
    requires
        wire_form(v, deep) is Some,
    ensures
        typed_form(wire_form(v, deep)->Some_0, deep) == Some(v),
    decreases v,
{
    match v {
        ValueView::Nested(m) => {
            law_fields_round_trip(m, true);
        },
        _ => {},
    }
}

/// A mapping of values that has a wire form is the mapping that its wire form stands
/// for.
pub proof fn law_fields_round_trip(m: Map<Seq<char>, ValueView>, deep: bool)
    requires
        wire_fields(m, deep) is Some,
    ensures
        typed_fields(wire_fields(m, deep)->Some_0, deep) == Some(m),
    decreases m,
{
    let w = wire_fields(m, deep)->Some_0;
    assert(w.dom() =~= m.dom());
    assert forall|k: Seq<char>| w.contains_key(k) implies typed_form(#[trigger] w[k], deep)
        == Some(m[k]) by {
        law_value_round_trip(m[k], deep);
    }
    let back = typed_fields(w, deep)->Some_0;
    assert(back =~= m);
}

/// A wire value that stands for a value is the wire form of that value.
pub proof fn law_wire_round_trip(w: WireView, deep: bool)
    requires
        typed_form(w, deep) is Some,
    ensures
        wire_form(typed_form(w, deep)->Some_0, deep) == Some(w),
    decreases w,
{
    match w {
        WireView::Fields(m) => {
            law_wire_fields_round_trip(m, true);
        },
        _ => {},
    }
}

/// A mapping of wire values that stands for a mapping of values is the wire form of
/// that mapping.
pub proof fn law_wire_fields_round_trip(m: Map<Seq<char>, WireView>, deep: bool)
    requires
        typed_fields(m, deep) is Some,
    ensures
        wire_fields(typed_fields(m, deep)->Some_0, deep) == Some(m),
    decreases m,
{
    let v = typed_fields(m, deep)->Some_0;
    assert(v.dom() =~= m.dom());
    assert forall|k: Seq<char>| v.contains_key(k) implies wire_form(#[trigger] v[k], deep)
        == Some(m[k]) by {
        law_wire_round_trip(m[k], deep);
    }
    let back = wire_fields(v, deep)->Some_0;
    assert(back =~= m);
}

impl WireFields {
    /// No fields.
    pub fn new() -> (r: Self)
        ensures
            r@ == Map::<Seq<char>, WireView>::empty(),
            r.entries@.len() == 0,
    {
        WireFields { entries: Vec::new() }
    }

    /// The number of fields.
    pub fn len(&self) -> (r: usize)
        ensures
            r == self.entries@.len(),
    {
        self.entries.len()
    }

    /// Adds a field behind the others: it sets the value of its name.
    pub fn push(&mut self, name: String, value: WireValue)
        ensures
            final(self)@ == old(self)@.insert(name@, value@),
            final(self).entries@ == old(self).entries@.push((name, value)),
    {
        proof {
            lemma_fields_view_push(self.entries@, (name, value));
        }
        self.entries.push((name, value));
    }

    /// The position of the last field with the given name, if there is one.
    pub fn position(&self, name: &String) -> (r: Option<usize>)
        ensures
            match r {
                Some(i) => field_last_at(self.entries@, i as int, name@),
                None => field_absent_from(self.entries@, 0, name@),
            },
    {
        let mut i: usize = self.entries.len();
        while i > 0
            invariant
                i <= self.entries.len(),
                field_absent_from(self.entries@, i as int, name@),
            decreases i,
        {
            i -= 1;
            if self.entries[i].0 == *name {
                return Some(i);
            }
        }
        None
    }
}

impl WireValue {
    /// The value of this wire value, if it is neither bytes nor a nested body.
    pub fn primitive(&self) -> (r: Result<TypedValue, Error>)
        ensures
            match r {
                Ok(v) => typed_form(self@, false) == Some(v@),
                Err(e) => (self is Bytes || self is Fields) && e == Error::ConversionFailure,
            },
    {
        match self {
            WireValue::Boolean(b) => Ok(TypedValue::Boolean(*b)),
            WireValue::String(s) => Ok(TypedValue::String(s.clone())),
            WireValue::Int(i) => Ok(TypedValue::Integer(*i)),
            WireValue::Long(i) => Ok(TypedValue::Long(*i)),
            WireValue::Float(bits) => Ok(TypedValue::Float(*bits)),
            WireValue::Double(bits) => Ok(TypedValue::Double(*bits)),
            WireValue::Bytes(_) => Err(Error::ConversionFailure),
            WireValue::Fields(_) => Err(Error::ConversionFailure),
        }
    }

    /// The fields of this wire value, if it is a nested body.
    pub fn nested(&self) -> (r: Result<&WireFields, Error>)
        ensures
            match r {
                Ok(f) => *self == WireValue::Fields(*f),
                Err(e) => !(self is Fields) && e == Error::ConversionFailure,
            },
    {
        match self {
            WireValue::Fields(f) => Ok(f),
            _ => Err(Error::ConversionFailure),
        }
    }
}

/// The wire form of a value; with `deep`, nested bodies are taken along.
///
/// Fails with `UnsupportedType` exactly where the value has no wire form.
pub fn encode_value(value: &TypedValue, deep: bool) -> (r: Result<WireValue, Error>)
    ensures
        match r {
            Ok(w) => wire_form(value@, deep) == Some(w@),
            Err(e) => wire_form(value@, deep) is None && e == Error::UnsupportedType,
        },
    decreases value,
{
    match value {
        TypedValue::String(s) => Ok(WireValue::String(s.clone())),
        TypedValue::Integer(i) => Ok(WireValue::Int(*i)),
        TypedValue::Long(i) => Ok(WireValue::Long(*i)),
        TypedValue::Float(bits) => Ok(WireValue::Float(*bits)),
        TypedValue::Double(bits) => Ok(WireValue::Double(*bits)),
        TypedValue::Boolean(b) => Ok(WireValue::Boolean(*b)),
        TypedValue::Binary(_) => Err(Error::UnsupportedType),
        TypedValue::Nested(m) => {
            if deep {
                match encode_map(&m.body, true) {
                    Ok(f) => Ok(WireValue::Fields(f)),
                    Err(e) => Err(e),
                }
            } else {
                Err(Error::UnsupportedType)
            }
        },
    }
}

/// The wire form of a mapping of values; with `deep`, nested bodies are taken along.
///
/// Fails with `UnsupportedType` exactly where one of the values has no wire form.
pub fn encode_map(map: &ValueMap, deep: bool) -> (r: Result<WireFields, Error>)
    ensures
        match r {
            Ok(f) => wire_fields(map@, deep) == Some(f@),
            Err(e) => wire_fields(map@, deep) is None && e == Error::UnsupportedType,
        },
    decreases map,
{
    let mut out = WireFields::new();
    let mut i: usize = 0;
    let ghost s = map.entries@;
    proof {
        lemma_entries_view_finite(s);
    }
    while i < map.entries.len()
        invariant
            i <= map.entries.len(),
            s == map.entries@,
            map@.dom().finite(),
            forall|k: Seq<char>|
                #![trigger out@.contains_key(k)]
                out@.contains_key(k) <==> exists|j: int| 0 <= j < i && last_at(s, j, k),
            forall|k: Seq<char>|
                #![trigger out@[k]]
                out@.contains_key(k) ==> wire_form(map@[k], deep) == Some(out@[k]),
        decreases map.entries.len() - i,
    {
        let name = &map.entries[i].0;
        let value = &map.entries[i].1;
        let last = match map.position(name) {
            Some(p) => p == i,
            None => false,
        };
        if last {
            proof {
                lemma_entries_view_last(s, i as int, name@);
            }
            match encode_value(value, deep) {
                Ok(w) => {
                    let ghost before = out@;
                    out.push(name.clone(), w);
                    proof {
                        assert forall|k: Seq<char>|
                            #![trigger out@.contains_key(k)]
                            out@.contains_key(k) <==> exists|j: int|
                                0 <= j < i + 1 && last_at(s, j, k) by {
                            if k == name@ {
                                assert(last_at(s, i as int, k));
                            } else if before.contains_key(k) {
                                let j = choose|j: int| 0 <= j < i && last_at(s, j, k);
                                assert(last_at(s, j, k));
                            }
                        }
                    }
                },
                Err(e) => {
                    return Err(e);
                },
            }
        } else {
            proof {
                assert forall|k: Seq<char>|
                    #![trigger out@.contains_key(k)]
                    out@.contains_key(k) <==> exists|j: int|
                        0 <= j < i + 1 && last_at(s, j, k) by {
                    if last_at(s, i as int, k) {
                        assert(false);
                    }
                    if out@.contains_key(k) {
                        let j = choose|j: int| 0 <= j < i && last_at(s, j, k);
                        assert(last_at(s, j, k));
                    }
                }
            }
        }
        i += 1;
    }
    proof {
        assert forall|k: Seq<char>| #[trigger] map@.contains_key(k) implies out@.contains_key(k)
            && wire_form(map@[k], deep) == Some(out@[k]) by {
            lemma_entries_view_witness(s, k);
            let j = choose|j: int| last_at(s, j, k);
            assert(0 <= j < i && last_at(s, j, k));
            assert(out@.contains_key(k));
            let w = out@[k];
        }
        assert forall|k: Seq<char>| out@.contains_key(k) implies map@.contains_key(k) by {
            let j = choose|j: int| 0 <= j < i && last_at(s, j, k);
            lemma_entries_view_last(s, j, k);
        }
        assert(wire_fields(map@, deep) is Some);
        let target = wire_fields(map@, deep)->Some_0;
        assert forall|k: Seq<char>| target.contains_key(k) implies #[trigger] target[k]
            == out@[k] by {
            assert(wire_form(map@[k], deep) == Some(out@[k]));
        }
        assert(target.dom() =~= out@.dom());
        assert(target =~= out@);
    }
    Ok(out)
}

/// The value that a wire value stands for; with `deep`, nested bodies are taken along.
///
/// The wire value is first taken as a primitive; where that fails, it is taken as a
/// nested body; where that fails too, or a nested body is out of place, it stands for
/// no value and the result is `UnsupportedType`.
pub fn decode_value(wire: &WireValue, deep: bool) -> (r: Result<TypedValue, Error>)
    ensures
        match r {
            Ok(v) => typed_form(wire@, deep) == Some(v@),
            Err(e) => typed_form(wire@, deep) is None && e == Error::UnsupportedType,
        },
    decreases wire,
{
    match wire.primitive() {
        Ok(v) => Ok(v),
        Err(_) => match wire.nested() {
            Ok(fields) => {
                if deep {
                    match decode_map(fields, true) {
                        Ok(body) => Ok(
                            TypedValue::Nested(
                                MapMessage {
                                    body,
                                    header: None,
                                    destination: None,
                                    reply_to: None,
                                    pointer: None,
                                },
                            ),
                        ),
                        Err(e) => Err(e),
                    }
                } else {
                    Err(Error::UnsupportedType)
                }
            },
            Err(_) => Err(Error::UnsupportedType),
        },
    }
}

/// The mapping of values that named wire values stand for; with `deep`, nested bodies
/// are taken along. No name occurs twice in the result.
///
/// Fails with `UnsupportedType` exactly where one of the wire values stands for no
/// value.
pub fn decode_map(fields: &WireFields, deep: bool) -> (r: Result<ValueMap, Error>)
    ensures
        match r {
            Ok(m) => typed_fields(fields@, deep) == Some(m@) && m.compact(),
            Err(e) => typed_fields(fields@, deep) is None && e == Error::UnsupportedType,
        },
    decreases fields,
{
    let mut out = ValueMap::new();
    let mut i: usize = 0;
    let ghost s = fields.entries@;
    proof {
        lemma_fields_view_finite(s);
    }
    while i < fields.entries.len()
        invariant
            i <= fields.entries.len(),
            s == fields.entries@,
            fields@.dom().finite(),
            out.compact(),
            forall|k: Seq<char>|
                #![trigger out@.contains_key(k)]
                out@.contains_key(k) <==> exists|j: int| 0 <= j < i && field_last_at(s, j, k),
            forall|k: Seq<char>|
                #![trigger out@[k]]
                out@.contains_key(k) ==> typed_form(fields@[k], deep) == Some(out@[k]),
        decreases fields.entries.len() - i,
    {
        let name = &fields.entries[i].0;
        let value = &fields.entries[i].1;
        let last = match fields.position(name) {
            Some(p) => p == i,
            None => false,
        };
        if last {
            proof {
                lemma_fields_view_last(s, i as int, name@);
            }
            match decode_value(value, deep) {
                Ok(v) => {
                    let ghost before = out@;
                    out.insert(name.clone(), v);
                    proof {
                        assert forall|k: Seq<char>|
                            #![trigger out@.contains_key(k)]
                            out@.contains_key(k) <==> exists|j: int|
                                0 <= j < i + 1 && field_last_at(s, j, k) by {
                            if k == name@ {
                                assert(field_last_at(s, i as int, k));
                            } else if before.contains_key(k) {
                                let j = choose|j: int| 0 <= j < i && field_last_at(s, j, k);
                                assert(field_last_at(s, j, k));
                            }
                        }
                    }
                },
                Err(e) => {
                    return Err(e);
                },
            }
        } else {
            proof {
                assert forall|k: Seq<char>|
                    #![trigger out@.contains_key(k)]
                    out@.contains_key(k) <==> exists|j: int|
                        0 <= j < i + 1 && field_last_at(s, j, k) by {
                    if field_last_at(s, i as int, k) {
                        assert(false);
                    }
                    if out@.contains_key(k) {
                        let j = choose|j: int| 0 <= j < i && field_last_at(s, j, k);
                        assert(field_last_at(s, j, k));
                    }
                }
            }
        }
        i += 1;
    }
    proof {
        assert forall|k: Seq<char>| #[trigger] fields@.contains_key(k) implies out@.contains_key(k)
            && typed_form(fields@[k], deep) == Some(out@[k]) by {
            lemma_fields_view_witness(s, k);
            let j = choose|j: int| field_last_at(s, j, k);
            assert(0 <= j < i && field_last_at(s, j, k));
            assert(out@.contains_key(k));
            let v = out@[k];
        }
        assert forall|k: Seq<char>| out@.contains_key(k) implies fields@.contains_key(k) by {
            let j = choose|j: int| 0 <= j < i && field_last_at(s, j, k);
            lemma_fields_view_last(s, j, k);
        }
        assert(typed_fields(fields@, deep) is Some);
        let target = typed_fields(fields@, deep)->Some_0;
        assert forall|k: Seq<char>| target.contains_key(k) implies #[trigger] target[k]
            == out@[k] by {
            assert(typed_form(fields@[k], deep) == Some(out@[k]));
        }
        assert(target.dom() =~= out@.dom());
        assert(target =~= out@);
    }
    Ok(out)
}

/// What to do with a field of a map body whose type is not known, after the broker
/// was asked for it in one way.
#[derive(Debug, Clone, Copy, PartialEq, Eq, Structural)]
pub enum Probe {
    /// The field is what it was asked for as: it is taken.
    Take,
    /// The field is to be asked for as a nested body.
    AskNested,
    /// The field is neither a primitive nor a nested body: it counts as bytes.
    Bytes,
    /// The field cannot be read: it is left out.
    Skip,
}

/// What to do with a field after it was asked for as a text: it is taken if the
/// broker gave a text, and left out if it gave none; if the broker cannot convert it
/// to a text, it is asked for as a nested body next; after any other failure it is
/// left out.
pub fn after_text(status: tibems_status, given: bool) -> (r: Probe)
    ensures
        r == if status == tibems_status::TIBEMS_OK {
            if given {
                Probe::Take
            } else {
                Probe::Skip
            }
        } else if status == tibems_status::TIBEMS_CONVERSION_FAILED {
            Probe::AskNested
        } else {
            Probe::Skip
        },
{
    match status {
        tibems_status::TIBEMS_OK => if given {
            Probe::Take
        } else {
            Probe::Skip
        },
        tibems_status::TIBEMS_CONVERSION_FAILED => Probe::AskNested,
        _ => Probe::Skip,
    }
}

/// What to do with a field after it was asked for as a nested body: it is taken if
/// the broker gave one; if the broker cannot convert it to one either, it counts as
/// bytes; after any other failure it is left out.
pub fn after_nested(status: tibems_status) -> (r: Probe)
    ensures
        r == if status == tibems_status::TIBEMS_OK {
            Probe::Take
        } else if status == tibems_status::TIBEMS_CONVERSION_FAILED {
            Probe::Bytes
        } else {
            Probe::Skip
        },
{
    match status {
        tibems_status::TIBEMS_OK => Probe::Take,
        tibems_status::TIBEMS_CONVERSION_FAILED => Probe::Bytes,
        _ => Probe::Skip,
    }
}

} // verus!
