//! Typed values and string-keyed maps of them.
//!
//! A [`TypedValue`] is one of eight kinds of value. One kind nests a whole map message,
//! so values form trees; the nesting is by ownership, so the trees are finite. A
//! [`ValueMap`] is the mapping from names to values that message headers and map
//! message bodies are made of.
//!
//! Floating-point values are carried as their IEEE 754 bit patterns.

use vstd::prelude::*;
use vstd::std_specs::cmp::PartialEqSpecImpl;
use crate::error::Error;
use crate::message::MapMessage;
use crate::number::bytes_text;
use crate::number::number_text;
use crate::number::show_bytes;
use crate::number::show_long;

verus! {

/// Mathematical model of a [`TypedValue`].
///
/// A nested map message stands for its body alone: what else the nested message
/// holds is not part of the value.
pub enum ValueView {
    /// A string.
    String(Seq<char>),
    /// A 32-bit integer.
    Integer(i32),
    /// A 64-bit integer.
    Long(i64),
    /// The bit pattern of a 32-bit floating-point number.
    Float(u32),
    /// The bit pattern of a 64-bit floating-point number.
    Double(u64),
    /// A sequence of bytes.
    Binary(Seq<u8>),
    /// The body of a nested map message.
    Nested(Map<Seq<char>, ValueView>),
    /// A boolean.
    Boolean(bool),
}

/// A typed value, as message headers and map message bodies hold them.
///
/// Two values are equal when they have the same model.
#[derive(Debug)]
pub enum TypedValue {
    /// A string value.
    String(String),
    /// An integer value.
    Integer(i32),
    /// A long value.
    Long(i64),
    /// A float value, as the bit pattern of the number.
    Float(u32),
    /// A double value, as the bit pattern of the number.
    Double(u64),
    /// A binary value.
    Binary(Vec<u8>),
    /// A nested map message.
    Nested(MapMessage),
    /// A boolean value.
    Boolean(bool),
}

/// A mapping from names to typed values.
///
/// The entries are kept in the order in which their names were first inserted. Where a
/// name occurs more than once among the entries, the last occurrence is the one that
/// counts; [`ValueMap::insert`] never makes a second occurrence.
///
/// Two maps are equal when they map the same names to equal values, in whatever order
/// they hold them.
#[derive(Debug)]
pub struct ValueMap {
    /// The names with their values.
    pub entries: Vec<(String, TypedValue)>,
}

/// The mapping that a sequence of entries stands for: each entry in turn sets the
/// value of its name.
pub open spec fn entries_view(s: Seq<(String, TypedValue)>) -> Map<Seq<char>, ValueView>
    decreases s,
{
    if s.len() == 0 {
        Map::empty()
    } else {
        entries_view(s.drop_last()).insert(s.last().0@, s.last().1@)
    }
}

/// Whether no name occurs twice among the entries.
pub open spec fn distinct_names(s: Seq<(String, TypedValue)>) -> bool {
    forall|i: int, j: int| 0 <= i < j < s.len() ==> (#[trigger] s[i]).0@ != (#[trigger] s[j]).0@
}

/// Whether `name` is the name of no entry from position `from` on.
pub open spec fn absent_from(s: Seq<(String, TypedValue)>, from: int, name: Seq<char>) -> bool {
    forall|j: int| from <= j < s.len() ==> (#[trigger] s[j]).0@ != name
}

/// Whether the entry at position `i` is the last one with the name `name`.
pub open spec fn last_at(s: Seq<(String, TypedValue)>, i: int, name: Seq<char>) -> bool {
    0 <= i < s.len() && s[i].0@ == name && absent_from(s, i + 1, name)
}

/// The model of a map of values that may be absent.
pub open spec fn map_view(m: Option<ValueMap>) -> Option<Map<Seq<char>, ValueView>> {
    match m {
        Some(m) => Some(m@),
        None => None,
    }
}

impl View for ValueMap {
    type V = Map<Seq<char>, ValueView>;

    open spec fn view(&self) -> Map<Seq<char>, ValueView>
        decreases self,
    {
        entries_view(self.entries@)
    }
}

impl View for TypedValue {
    type V = ValueView;

    open spec fn view(&self) -> ValueView
        decreases self,
    {
        match self {
            TypedValue::String(s) => ValueView::String(s@),
            TypedValue::Integer(i) => ValueView::Integer(*i),
            TypedValue::Long(i) => ValueView::Long(*i),
            TypedValue::Float(bits) => ValueView::Float(*bits),
            TypedValue::Double(bits) => ValueView::Double(*bits),
            TypedValue::Binary(b) => ValueView::Binary(b@),
            TypedValue::Nested(m) => ValueView::Nested(m.body@),
            TypedValue::Boolean(b) => ValueView::Boolean(*b),
        }
    }
}

/// Appending an entry sets the value of its name.
pub proof fn lemma_entries_view_push(s: Seq<(String, TypedValue)>, e: (String, TypedValue))
    ensures
        entries_view(s.push(e)) == entries_view(s).insert(e.0@, e.1@),
{
    assert(s.push(e).drop_last() == s);
}

/// The mapping holds a name exactly when some entry has it.
pub proof fn lemma_entries_view_contains(s: Seq<(String, TypedValue)>, name: Seq<char>)
    ensures
        entries_view(s).contains_key(name) <==> !absent_from(s, 0, name),
    decreases s.len(),
{
    if s.len() > 0 {
        let t = s.drop_last();
        let last = s.last();
        lemma_entries_view_contains(t, name);
        assert(entries_view(s) == entries_view(t).insert(last.0@, last.1@));
        assert(s[s.len() - 1] == last);
        if last.0@ == name {
            assert(!absent_from(s, 0, name));
        } else if absent_from(t, 0, name) {
            assert forall|j: int| 0 <= j < s.len() implies (#[trigger] s[j]).0@ != name by {
                if j < t.len() {
                    assert(t[j] == s[j]);
                }
            }
        } else {
            let j = choose|j: int| 0 <= j < t.len() && (#[trigger] t[j]).0@ == name;
            assert(s[j] == t[j]);
            assert(!absent_from(s, 0, name));
        }
    }
}

/// The mapping gives a name the value of the last entry that has the name.
pub proof fn lemma_entries_view_last(s: Seq<(String, TypedValue)>, i: int, name: Seq<char>)
    requires
        0 <= i < s.len(),
        s[i].0@ == name,
        absent_from(s, i + 1, name),
    ensures
        entries_view(s).contains_key(name),
        entries_view(s)[name] == s[i].1@,
    decreases s.len(),
{
    let t = s.drop_last();
    let last = s.last();
    assert(entries_view(s) == entries_view(t).insert(last.0@, last.1@));
    assert(s[s.len() - 1] == last);
    if i < s.len() - 1 {
        assert(t[i] == s[i]);
        assert forall|j: int| i + 1 <= j < t.len() implies (#[trigger] t[j]).0@ != name by {
            assert(t[j] == s[j]);
        }
        lemma_entries_view_last(t, i, name);
        assert(last.0@ != name);
    }
}

/// A name that the mapping holds has a last entry.
pub proof fn lemma_entries_view_witness(s: Seq<(String, TypedValue)>, name: Seq<char>)
    requires
        entries_view(s).contains_key(name),
    ensures
        exists|i: int| last_at(s, i, name),
    decreases s.len(),
{
    let t = s.drop_last();
    let last = s.last();
    assert(entries_view(s) == entries_view(t).insert(last.0@, last.1@));
    assert(s[s.len() - 1] == last);
    if last.0@ == name {
        assert(last_at(s, s.len() - 1, name));
    } else {
        lemma_entries_view_witness(t, name);
        let i = choose|i: int| last_at(t, i, name);
        assert(t[i] == s[i]);
        assert forall|j: int| i + 1 <= j < s.len() implies (#[trigger] s[j]).0@ != name by {
            if j < t.len() {
                assert(t[j] == s[j]);
            }
        }
        assert(last_at(s, i, name));
    }
}

/// The mapping of a sequence of entries holds finitely many names.
pub proof fn lemma_entries_view_finite(s: Seq<(String, TypedValue)>)
    ensures
        entries_view(s).dom().finite(),
    decreases s.len(),
{
    if s.len() > 0 {
        let t = s.drop_last();
        lemma_entries_view_finite(t);
        assert(entries_view(s) == entries_view(t).insert(s.last().0@, s.last().1@));
    } else {
        assert(entries_view(s).dom() =~= Set::<Seq<char>>::empty());
    }
}

/// Replacing the last entry that has a name sets the value of that name.
pub proof fn lemma_entries_view_update(
    s: Seq<(String, TypedValue)>,
    i: int,
    e: (String, TypedValue),
)
    requires
        0 <= i < s.len(),
        s[i].0@ == e.0@,
        absent_from(s, i + 1, e.0@),
    ensures
        entries_view(s.update(i, e)) == entries_view(s).insert(e.0@, e.1@),
    decreases s.len(),
{
    let u = s.update(i, e);
    if i == s.len() - 1 {
        assert(u.drop_last() == s.drop_last());
        assert(entries_view(s.drop_last()).insert(s.last().0@, s.last().1@).insert(e.0@, e.1@)
            == entries_view(s.drop_last()).insert(e.0@, e.1@));
    } else {
        let t = s.drop_last();
        assert(u.drop_last() == t.update(i, e));
        assert forall|j: int| i + 1 <= j < t.len() implies (#[trigger] t[j]).0@ != e.0@ by {
            assert(t[j] == s[j]);
        }
        lemma_entries_view_update(t, i, e);
        assert(s[s.len() - 1].0@ != e.0@);
        assert(entries_view(t).insert(e.0@, e.1@).insert(s.last().0@, s.last().1@)
            == entries_view(t).insert(s.last().0@, s.last().1@).insert(e.0@, e.1@));
    }
}

impl Clone for TypedValue {
    /// A copy with the same model. A nested message is copied without its handle.
    fn clone(&self) -> (r: Self)
        ensures
            r@ == self@,
        decreases self,
    {
        match self {
            TypedValue::String(s) => TypedValue::String(s.clone()),
            TypedValue::Integer(i) => TypedValue::Integer(*i),
            TypedValue::Long(i) => TypedValue::Long(*i),
            TypedValue::Float(bits) => TypedValue::Float(*bits),
            TypedValue::Double(bits) => TypedValue::Double(*bits),
            TypedValue::Binary(b) => TypedValue::Binary(b.clone()),
            TypedValue::Nested(m) => TypedValue::Nested(m.clone()),
            TypedValue::Boolean(b) => TypedValue::Boolean(*b),
        }
    }
}

impl Clone for ValueMap {
    /// A copy with the same names, in the same order, and values with the same models.
    fn clone(&self) -> (r: Self)
        ensures
            r@ == self@,
            r.entries@.len() == self.entries@.len(),
            forall|i: int|
                0 <= i < self.entries@.len() ==> (#[trigger] r.entries@[i]).0@
                    == self.entries@[i].0@ && r.entries@[i].1@ == self.entries@[i].1@,
        decreases self,
    {
        let mut entries: Vec<(String, TypedValue)> = Vec::new();
        let mut i: usize = 0;
        while i < self.entries.len()
            invariant
                i <= self.entries.len(),
                entries.len() == i,
                entries_view(entries@) == entries_view(self.entries@.take(i as int)),
                forall|j: int|
                    0 <= j < i ==> (#[trigger] entries@[j]).0@ == self.entries@[j].0@
                        && entries@[j].1@ == self.entries@[j].1@,
            decreases self.entries.len() - i,
        {
            let name = self.entries[i].0.clone();
            let value = self.entries[i].1.clone();
            proof {
                assert(self.entries@.take(i + 1).drop_last() == self.entries@.take(i as int));
                lemma_entries_view_push(entries@, (name, value));
            }
            entries.push((name, value));
            i += 1;
        }
        proof {
            assert(self.entries@.take(i as int) == self.entries@);
        }
        ValueMap { entries }
    }
}

impl Default for ValueMap {
    fn default() -> (r: Self)
        ensures
            r@ == Map::<Seq<char>, ValueView>::empty(),
            r.entries@.len() == 0,
    {
        ValueMap { entries: Vec::new() }
    }
}

impl ValueMap {
    /// Whether no name occurs twice among the entries.
    pub open spec fn compact(&self) -> bool {
        distinct_names(self.entries@)
    }

    /// The empty map.
    pub fn new() -> (r: Self)
        ensures
            r@ == Map::<Seq<char>, ValueView>::empty(),
            r.entries@.len() == 0,
            r.compact(),
    {
        ValueMap { entries: Vec::new() }
    }

    /// The number of entries.
    pub fn len(&self) -> (r: usize)
        ensures
            r == self.entries@.len(),
    {
        self.entries.len()
    }

    /// Whether the map holds no entry.
    pub fn is_empty(&self) -> (r: bool)
        ensures
            r == (self.entries@.len() == 0),
            r ==> self@ == Map::<Seq<char>, ValueView>::empty(),
    {
        self.entries.len() == 0
    }

    /// The position of the last entry with the given name, if there is one.
    pub fn position(&self, name: &String) -> (r: Option<usize>)
        ensures
            match r {
                Some(i) => last_at(self.entries@, i as int, name@),
                None => absent_from(self.entries@, 0, name@),
            },
    {
        let mut i: usize = self.entries.len();
        while i > 0
            invariant
                i <= self.entries.len(),
                absent_from(self.entries@, i as int, name@),
            decreases i,
        {
            i -= 1;
            if self.entries[i].0 == *name {
                return Some(i);
            }
        }
        None
    }

    /// Sets the value of a name, and returns the value that the name had before.
    ///
    /// An entry with this name keeps its place and gets the new value; a new name is
    /// added behind the others.
    pub fn insert(&mut self, name: String, value: TypedValue) -> (r: Option<TypedValue>)
        ensures
            final(self)@ == old(self)@.insert(name@, value@),
            old(self).compact() ==> final(self).compact(),
            match r {
                Some(before) => {
                    &&& old(self)@.contains_key(name@)
                    &&& before@ == old(self)@[name@]
                    &&& exists|i: int|
                        #![trigger old(self).entries@[i]]
                        last_at(old(self).entries@, i, name@) && final(self).entries@ == old(
                            self,
                        ).entries@.update(i, (name, value))
                },
                None => {
                    &&& !old(self)@.contains_key(name@)
                    &&& final(self).entries@ == old(self).entries@.push((name, value))
                },
            },
    {
        proof {
            lemma_entries_view_contains(self.entries@, name@);
        }
        match self.position(&name) {
            Some(i) => {
                let ghost before = self.entries@;
                proof {
                    lemma_entries_view_last(before, i as int, name@);
                    lemma_entries_view_update(before, i as int, (name, value));
                }
                let removed = self.entries.remove(i);
                self.entries.insert(i, (name, value));
                proof {
                    assert(self.entries@ == before.update(i as int, (name, value)));
                    if distinct_names(before) {
                        assert forall|a: int, b: int|
                            0 <= a < b < self.entries@.len() implies (#[trigger] self.entries@[a]).0@
                            != (#[trigger] self.entries@[b]).0@ by {
                            assert(before[a].0@ != before[b].0@);
                        }
                    }
                }
                Some(removed.1)
            },
            None => {
                proof {
                    lemma_entries_view_push(self.entries@, (name, value));
                }
                self.entries.push((name, value));
                None
            },
        }
    }

    /// The value of a name, if the map holds the name.
    pub fn get(&self, name: &str) -> (r: Option<&TypedValue>)
        ensures
            match r {
                Some(v) => self@.contains_key(name@) && self@[name@] == v@,
                None => !self@.contains_key(name@),
            },
    {
        proof {
            lemma_entries_view_contains(self.entries@, name@);
        }
        let owned = name.to_owned();
        match self.position(&owned) {
            Some(i) => {
                proof {
                    lemma_entries_view_last(self.entries@, i as int, name@);
                }
                Some(&self.entries[i].1)
            },
            None => None,
        }
    }

    /// Whether the map holds the name.
    pub fn contains_key(&self, name: &str) -> (r: bool)
        ensures
            r == self@.contains_key(name@),
    {
        self.get(name).is_some()
    }

    /// Sets each name that `other` holds to the value that it has there.
    pub fn extend(&mut self, other: &ValueMap)
        ensures
            final(self)@ == old(self)@.union_prefer_right(other@),
            old(self).compact() ==> final(self).compact(),
    {
        let ghost start = self@;
        let mut i: usize = 0;
        proof {
            assert(other.entries@.take(0) =~= Seq::<(String, TypedValue)>::empty());
            assert(start.union_prefer_right(entries_view(other.entries@.take(0))) =~= start);
        }
        while i < other.entries.len()
            invariant
                i <= other.entries.len(),
                self@ == start.union_prefer_right(entries_view(other.entries@.take(i as int))),
                old(self).compact() ==> self.compact(),
            decreases other.entries.len() - i,
        {
            let name = other.entries[i].0.clone();
            let value = other.entries[i].1.clone();
            proof {
                let before = entries_view(other.entries@.take(i as int));
                assert(other.entries@.take(i + 1).drop_last() == other.entries@.take(i as int));
                assert(entries_view(other.entries@.take(i + 1)) == before.insert(name@, value@));
                assert(start.union_prefer_right(before.insert(name@, value@))
                    =~= start.union_prefer_right(before).insert(name@, value@));
            }
            self.insert(name, value);
            i += 1;
        }
        proof {
            assert(other.entries@.take(i as int) == other.entries@);
        }
    }
}

impl TypedValue {
    /// The string, if this is a string value.
    pub fn as_string(&self) -> (r: Result<&String, Error>)
        ensures
            match r {
                Ok(s) => *self == TypedValue::String(*s),
                Err(e) => !(self is String) && e == Error::ConversionFailure,
            },
    {
        match self {
            TypedValue::String(s) => Ok(s),
            _ => Err(Error::ConversionFailure),
        }
    }

    /// The integer, if this is an integer value.
    pub fn as_integer(&self) -> (r: Result<i32, Error>)
        ensures
            match r {
                Ok(i) => *self == TypedValue::Integer(i),
                Err(e) => !(self is Integer) && e == Error::ConversionFailure,
            },
    {
        match self {
            TypedValue::Integer(i) => Ok(*i),
            _ => Err(Error::ConversionFailure),
        }
    }

    /// The long, if this is a long value.
    pub fn as_long(&self) -> (r: Result<i64, Error>)
        ensures
            match r {
                Ok(i) => *self == TypedValue::Long(i),
                Err(e) => !(self is Long) && e == Error::ConversionFailure,
            },
    {
        match self {
            TypedValue::Long(i) => Ok(*i),
            _ => Err(Error::ConversionFailure),
        }
    }

    /// The bit pattern of the float, if this is a float value.
    pub fn as_float(&self) -> (r: Result<u32, Error>)
        ensures
            match r {
                Ok(bits) => *self == TypedValue::Float(bits),
                Err(e) => !(self is Float) && e == Error::ConversionFailure,
            },
    {
        match self {
            TypedValue::Float(bits) => Ok(*bits),
            _ => Err(Error::ConversionFailure),
        }
    }

    /// The bit pattern of the double, if this is a double value.
    pub fn as_double(&self) -> (r: Result<u64, Error>)
        ensures
            match r {
                Ok(bits) => *self == TypedValue::Double(bits),
                Err(e) => !(self is Double) && e == Error::ConversionFailure,
            },
    {
        match self {
            TypedValue::Double(bits) => Ok(*bits),
            _ => Err(Error::ConversionFailure),
        }
    }

    /// The bytes, if this is a binary value.
    pub fn as_binary(&self) -> (r: Result<&Vec<u8>, Error>)
        ensures
            match r {
                Ok(b) => *self == TypedValue::Binary(*b),
                Err(e) => !(self is Binary) && e == Error::ConversionFailure,
            },
    {
        match self {
            TypedValue::Binary(b) => Ok(b),
            _ => Err(Error::ConversionFailure),
        }
    }

    /// The nested map message, if this is one.
    pub fn as_map(&self) -> (r: Result<&MapMessage, Error>)
        ensures
            match r {
                Ok(m) => *self == TypedValue::Nested(*m),
                Err(e) => !(self is Nested) && e == Error::ConversionFailure,
            },
    {
        match self {
            TypedValue::Nested(m) => Ok(m),
            _ => Err(Error::ConversionFailure),
        }
    }

    /// The boolean, if this is a boolean value.
    pub fn as_boolean(&self) -> (r: Result<bool, Error>)
        ensures
            match r {
                Ok(b) => *self == TypedValue::Boolean(b),
                Err(e) => !(self is Boolean) && e == Error::ConversionFailure,
            },
    {
        match self {
            TypedValue::Boolean(b) => Ok(*b),
            _ => Err(Error::ConversionFailure),
        }
    }
}

impl TypedValue {
    /// The text of a value: a string is its own text, a boolean is `true` or `false`,
    /// an integer or a long is its decimal text, bytes are shown as a list of numbers.
    /// A float, a double and a nested message have no text here.
    pub open spec fn text_of(self) -> Option<Seq<char>> {
        match self {
            TypedValue::String(s) => Some(s@),
            TypedValue::Boolean(b) => Some(
                if b {
                    "true"@
                } else {
                    "false"@
                },
            ),
            TypedValue::Integer(i) => Some(number_text(i as int)),
            TypedValue::Long(i) => Some(number_text(i as int)),
            TypedValue::Binary(b) => Some(bytes_text(b@)),
            TypedValue::Float(_) => None,
            TypedValue::Double(_) => None,
            TypedValue::Nested(_) => None,
        }
    }

    /// The text of this value, if it has one here.
    pub fn to_text(&self) -> (r: Option<String>)
        ensures
            match r {
                Some(t) => self.text_of() == Some(t@),
                None => self.text_of() is None,
            },
    {
        match self {
            TypedValue::String(s) => Some(s.clone()),
            TypedValue::Boolean(b) => Some(
                if *b {
                    "true".to_owned()
                } else {
                    "false".to_owned()
                },
            ),
            TypedValue::Integer(i) => Some(show_long(*i as i64)),
            TypedValue::Long(i) => Some(show_long(*i)),
            TypedValue::Binary(b) => Some(show_bytes(b)),
            TypedValue::Float(_) => None,
            TypedValue::Double(_) => None,
            TypedValue::Nested(_) => None,
        }
    }
}

/// Whether two sequences of bytes are the same.
fn same_bytes(a: &Vec<u8>, b: &Vec<u8>) -> (r: bool)
    ensures
        r == (a@ == b@),
{
    if a.len() != b.len() {
        return false;
    }
    let mut i: usize = 0;
    while i < a.len()
        invariant
            i <= a.len(),
            a.len() == b.len(),
            forall|j: int| 0 <= j < i ==> a@[j] == b@[j],
        decreases a.len() - i,
    {
        if a[i] != b[i] {
            return false;
        }
        i += 1;
    }
    assert(a@ =~= b@);
    true
}

impl TypedValue {
    /// Whether two values have the same model: they are of the same kind and hold the
    /// same; nested messages, the same body.
    pub fn same_as(&self, other: &TypedValue) -> (r: bool)
        ensures
            r == (self@ == other@),
        decreases self,
    {
        match self {
            TypedValue::String(a) => match other {
                TypedValue::String(b) => *a == *b,
                _ => false,
            },
            TypedValue::Integer(a) => match other {
                TypedValue::Integer(b) => *a == *b,
                _ => false,
            },
            TypedValue::Long(a) => match other {
                TypedValue::Long(b) => *a == *b,
                _ => false,
            },
            TypedValue::Float(a) => match other {
                TypedValue::Float(b) => *a == *b,
                _ => false,
            },
            TypedValue::Double(a) => match other {
                TypedValue::Double(b) => *a == *b,
                _ => false,
            },
            TypedValue::Binary(a) => match other {
                TypedValue::Binary(b) => same_bytes(a, b),
                _ => false,
            },
            TypedValue::Nested(a) => match other {
                TypedValue::Nested(b) => a.body.same_as(&b.body),
                _ => false,
            },
            TypedValue::Boolean(a) => match other {
                TypedValue::Boolean(b) => *a == *b,
                _ => false,
            },
        }
    }
}

/// Whether `other` maps every name of `map` to the value that `map` maps it to.
pub open spec fn included(map: Map<Seq<char>, ValueView>, other: Map<Seq<char>, ValueView>) -> bool {
    forall|k: Seq<char>|
        #![trigger map.contains_key(k)]
        map.contains_key(k) ==> other.contains_key(k) && other[k] == map[k]
}

/// Whether `other` holds every name of `map`.
pub open spec fn names_included(
    map: Map<Seq<char>, ValueView>,
    other: Map<Seq<char>, ValueView>,
) -> bool {
    forall|k: Seq<char>| #![trigger map.contains_key(k)] map.contains_key(k) ==> other.contains_key(k)
}

impl ValueMap {
    /// Whether `other` maps every name of this map to an equal value.
    fn within(&self, other: &ValueMap) -> (r: bool)
        ensures
            r == included(self@, other@),
        decreases self, 0nat,
    {
        let ghost s = self.entries@;
        let mut i: usize = 0;
        while i < self.entries.len()
            invariant
                i <= self.entries.len(),
                s == self.entries@,
                forall|k: Seq<char>, j: int|
                    0 <= j < i && #[trigger] last_at(s, j, k) ==> other@.contains_key(k) && other@[k]
                        == self@[k],
            decreases self.entries.len() - i,
        {
            let name = &self.entries[i].0;
            let last = match self.position(name) {
                Some(p) => p == i,
                None => false,
            };
            if last {
                proof {
                    lemma_entries_view_last(s, i as int, name@);
                }
                let same = match other.get(name.as_str()) {
                    Some(value) => self.entries[i].1.same_as(value),
                    None => false,
                };
                if !same {
                    assert(self@.contains_key(name@));
                    return false;
                }
            }
            proof {
                assert forall|k: Seq<char>, j: int|
                    0 <= j < i + 1 && #[trigger] last_at(s, j, k) implies other@.contains_key(k)
                    && other@[k] == self@[k] by {
                    if j == i {
                        assert(k == name@);
                    }
                }
            }
            i += 1;
        }
        proof {
            assert forall|k: Seq<char>|
                #![trigger self@.contains_key(k)]
                self@.contains_key(k) implies other@.contains_key(k) && other@[k] == self@[k] by {
                lemma_entries_view_witness(s, k);
                let j = choose|j: int| last_at(s, j, k);
                assert(last_at(s, j, k));
            }
        }
        true
    }

    /// Whether `other` holds every name of this map.
    fn names_within(&self, other: &ValueMap) -> (r: bool)
        ensures
            r == names_included(self@, other@),
    {
        let ghost s = self.entries@;
        let mut i: usize = 0;
        while i < self.entries.len()
            invariant
                i <= self.entries.len(),
                s == self.entries@,
                forall|j: int| 0 <= j < i ==> other@.contains_key((#[trigger] s[j]).0@),
            decreases self.entries.len() - i,
        {
            proof {
                lemma_entries_view_contains(other.entries@, s[i as int].0@);
                lemma_entries_view_contains(s, s[i as int].0@);
            }
            if other.position(&self.entries[i].0).is_none() {
                assert(self@.contains_key(s[i as int].0@));
                return false;
            }
            i += 1;
        }
        proof {
            assert forall|k: Seq<char>|
                #![trigger self@.contains_key(k)]
                self@.contains_key(k) implies other@.contains_key(k) by {
                lemma_entries_view_contains(s, k);
                let j = choose|j: int| 0 <= j < s.len() && (#[trigger] s[j]).0@ == k;
                assert(other@.contains_key(s[j].0@));
            }
        }
        true
    }

    /// Whether two maps have the same model: they hold the same names, and equal
    /// values under each.
    pub fn same_as(&self, other: &ValueMap) -> (r: bool)
        ensures
            r == (self@ == other@),
        decreases self, 1nat,
    {
        let r = self.within(other) && other.names_within(self);
        proof {
            if r {
                assert(self@ =~= other@);
            }
        }
        r
    }
}

impl PartialEq for TypedValue {
    fn eq(&self, other: &Self) -> (r: bool) {
        self.same_as(other)
    }
}

impl PartialEqSpecImpl for TypedValue {
    open spec fn obeys_eq_spec() -> bool {
        true
    }

    open spec fn eq_spec(&self, other: &Self) -> bool {
        self@ == other@
    }
}

impl PartialEq for ValueMap {
    fn eq(&self, other: &Self) -> (r: bool) {
        self.same_as(other)
    }
}

impl PartialEqSpecImpl for ValueMap {
    open spec fn obeys_eq_spec() -> bool {
        true
    }

    open spec fn eq_spec(&self, other: &Self) -> bool {
        self@ == other@
    }
}

} // verus!
