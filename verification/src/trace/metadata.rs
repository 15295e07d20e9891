//! Named values attached to spans and events.

use std::borrow::Cow;

use vstd::prelude::*;

use crate::text::same_text;

verus! {

/// A value that can be stored in the metadata of a span or an event.
#[derive(Debug)]
pub enum MetaValue {
    String(Cow<'static, str>),
    /// A double precision number, by its IEEE 754 bit pattern.
    Float(u64),
    Int(i64),
    Bool(bool),
}

/// What a [`MetaValue`] stands for.
pub enum MetaValueView {
    String(Seq<char>),
    Float(u64),
    Int(i64),
    Bool(bool),
}

impl View for MetaValue {
    type V = MetaValueView;

    open spec fn view(&self) -> MetaValueView {
        match *self {
            MetaValue::String(s) => MetaValueView::String(s@),
            MetaValue::Float(bits) => MetaValueView::Float(bits),
            MetaValue::Int(v) => MetaValueView::Int(v),
            MetaValue::Bool(v) => MetaValueView::Bool(v),
        }
    }
}

/// The text of a string that may be borrowed or owned.
pub(crate) fn cow_text<'a>(s: &'a Cow<'static, str>) -> (text: &'a str)
    ensures
        text@ == s@,
{
    match s {
        Cow::Borrowed(borrowed) => borrowed,
        Cow::Owned(owned) => owned.as_str(),
    }
}

/// A copy of a string that may be borrowed or owned.
pub(crate) fn clone_cow(s: &Cow<'static, str>) -> (copy: Cow<'static, str>)
    ensures
        copy == *s,
{
    match s {
        Cow::Borrowed(borrowed) => Cow::Borrowed(*borrowed),
        Cow::Owned(owned) => Cow::Owned(owned.clone()),
    }
}

impl Clone for MetaValue {
    fn clone(&self) -> (copy: MetaValue)
        ensures
            copy == *self,
    {
        match self {
            MetaValue::String(s) => MetaValue::String(clone_cow(s)),
            MetaValue::Float(bits) => MetaValue::Float(*bits),
            MetaValue::Int(v) => MetaValue::Int(*v),
            MetaValue::Bool(v) => MetaValue::Bool(*v),
        }
    }
}

/// The bit pattern without its sign, which is the highest bit.
pub open spec fn float_magnitude(bits: u64) -> u64 {
    bits % 0x8000_0000_0000_0000
}

/// The bit pattern is that of a number: its magnitude is not above that of
/// infinity.
pub open spec fn is_number(bits: u64) -> bool {
    float_magnitude(bits) <= 0x7ff0_0000_0000_0000
}

/// The two bit patterns compare equal as double precision numbers: neither is
/// "not a number", and they are the same or both are a zero.
pub open spec fn floats_equal(a: u64, b: u64) -> bool {
    &&& is_number(a)
    &&& is_number(b)
    &&& a == b || (float_magnitude(a) == 0 && float_magnitude(b) == 0)
}

/// The two values compare equal: they are of one kind and hold the same text,
/// number or truth value.
pub open spec fn meta_values_equal(a: MetaValueView, b: MetaValueView) -> bool {
    match (a, b) {
        (MetaValueView::String(x), MetaValueView::String(y)) => x == y,
        (MetaValueView::Float(x), MetaValueView::Float(y)) => floats_equal(x, y),
        (MetaValueView::Int(x), MetaValueView::Int(y)) => x == y,
        (MetaValueView::Bool(x), MetaValueView::Bool(y)) => x == y,
        _ => false,
    }
}

impl PartialEq for MetaValue {
    fn eq(&self, other: &MetaValue) -> (equal: bool) {
        match (self, other) {
            (MetaValue::String(x), MetaValue::String(y)) => same_text(cow_text(x), cow_text(y)),
            (MetaValue::Float(x), MetaValue::Float(y)) => {
                let left: u64 = *x % 0x8000_0000_0000_0000;
                let right: u64 = *y % 0x8000_0000_0000_0000;
                left <= 0x7ff0_0000_0000_0000 && right <= 0x7ff0_0000_0000_0000 && (*x == *y || (
                left == 0 && right == 0))
            },
            (MetaValue::Int(x), MetaValue::Int(y)) => *x == *y,
            (MetaValue::Bool(x), MetaValue::Bool(y)) => *x == *y,
            _ => false,
        }
    }
}

impl vstd::std_specs::cmp::PartialEqSpecImpl for MetaValue {
    open spec fn obeys_eq_spec() -> bool {
        true
    }

    open spec fn eq_spec(&self, other: &MetaValue) -> bool {
        meta_values_equal(self@, other@)
    }
}

impl MetaValue {
    /// The text of a string value, `None` for a value of another kind.
    pub fn string(&self) -> (text: Option<&str>)
        ensures
            match (self@, text) {
                (MetaValueView::String(s), Some(t)) => t@ == s,
                (MetaValueView::String(_), None) => false,
                (_, t) => t is None,
            },
    {
        match self {
            MetaValue::String(s) => Some(cow_text(s)),
            _ => None,
        }
    }
}

impl From<&'static str> for MetaValue {
    fn from(v: &'static str) -> (value: MetaValue) {
        MetaValue::String(Cow::Borrowed(v))
    }
}

impl vstd::std_specs::convert::FromSpecImpl<&'static str> for MetaValue {
    open spec fn obeys_from_spec() -> bool {
        true
    }

    open spec fn from_spec(v: &'static str) -> MetaValue {
        MetaValue::String(Cow::Borrowed(v))
    }
}

impl From<String> for MetaValue {
    fn from(v: String) -> (value: MetaValue) {
        MetaValue::String(Cow::Owned(v))
    }
}

impl vstd::std_specs::convert::FromSpecImpl<String> for MetaValue {
    open spec fn obeys_from_spec() -> bool {
        true
    }

    open spec fn from_spec(v: String) -> MetaValue {
        MetaValue::String(Cow::Owned(v))
    }
}

impl From<i64> for MetaValue {
    fn from(v: i64) -> (value: MetaValue) {
        MetaValue::Int(v)
    }
}

impl vstd::std_specs::convert::FromSpecImpl<i64> for MetaValue {
    open spec fn obeys_from_spec() -> bool {
        true
    }

    open spec fn from_spec(v: i64) -> MetaValue {
        MetaValue::Int(v)
    }
}

/// A map from names to values.
#[derive(Debug)]
pub struct Metadata {
    entries: Vec<(Cow<'static, str>, MetaValue)>,
}

/// The entries, each a name with its value, are exactly those of the map: no
/// name is listed twice, and a name is listed with a value exactly if it has
/// that value.
pub open spec fn lists(entries: Seq<(&str, &MetaValue)>, map: Map<Seq<char>, MetaValue>) -> bool {
    &&& forall|i: int, j: int|
        0 <= i < j < entries.len() ==> (#[trigger] entries[i]).0@ != (#[trigger] entries[j]).0@
    &&& forall|i: int|
        0 <= i < entries.len() ==> map.contains_key((#[trigger] entries[i]).0@)
            && map[entries[i].0@] == *entries[i].1
    &&& forall|name: Seq<char>| #[trigger]
        map.contains_key(name) ==> exists|i: int|
            0 <= i < entries.len() && (#[trigger] entries[i]).0@ == name
}

/// A list of entries determines the map that they are those of.
pub proof fn entries_determine_their_map(
    entries: Seq<(&str, &MetaValue)>,
    a: Map<Seq<char>, MetaValue>,
    b: Map<Seq<char>, MetaValue>,
)
    requires
        lists(entries, a),
        lists(entries, b),
    ensures
        a == b,
{
    assert forall|name: Seq<char>| a.contains_key(name) == b.contains_key(name) && (a.contains_key(
        name,
    ) ==> a[name] == b[name]) by {
        if a.contains_key(name) {
            let i = choose|i: int| 0 <= i < entries.len() && (#[trigger] entries[i]).0@ == name;
            assert(b[entries[i].0@] == *entries[i].1);
        }
        if b.contains_key(name) {
            let i = choose|i: int| 0 <= i < entries.len() && (#[trigger] entries[i]).0@ == name;
            assert(a.contains_key(entries[i].0@));
        }
    }
    assert(a =~= b);
}

/// The map that a list of entries stands for, a later entry of a name
/// replacing an earlier one.
spec fn map_of(entries: Seq<(Cow<'static, str>, MetaValue)>) -> Map<Seq<char>, MetaValue>
    decreases entries.len(),
{
    if entries.len() == 0 {
        Map::empty()
    } else {
        map_of(entries.drop_last()).insert(entries.last().0@, entries.last().1)
    }
}

/// No two entries have the same name.
spec fn names_distinct(entries: Seq<(Cow<'static, str>, MetaValue)>) -> bool {
    forall|i: int, j: int|
        0 <= i < j < entries.len() ==> (#[trigger] entries[i]).0@ != (#[trigger] entries[j]).0@
}

/// Where names are distinct, the map holds exactly the entries.
proof fn lemma_map_of(entries: Seq<(Cow<'static, str>, MetaValue)>)
    requires
        names_distinct(entries),
    ensures
        forall|i: int|
            0 <= i < entries.len() ==> map_of(entries).contains_key(
                (#[trigger] entries[i]).0@,
            ) && map_of(entries)[entries[i].0@] == entries[i].1,
        forall|k: Seq<char>|
            #[trigger] map_of(entries).contains_key(k) ==> exists|i: int|
                0 <= i < entries.len() && (#[trigger] entries[i]).0@ == k,
        map_of(entries).dom().finite(),
        map_of(entries).len() == entries.len(),
    decreases entries.len(),
{
    if entries.len() > 0 {
        let init = entries.drop_last();
        lemma_map_of(init);
        assert forall|i: int| 0 <= i < entries.len() implies map_of(entries).contains_key(
            (#[trigger] entries[i]).0@,
        ) && map_of(entries)[entries[i].0@] == entries[i].1 by {
            if i < init.len() {
                assert(init[i] == entries[i]);
            }
        }
        assert forall|k: Seq<char>| #[trigger] map_of(entries).contains_key(k) implies exists|i: int|
            0 <= i < entries.len() && (#[trigger] entries[i]).0@ == k by {
            if k == entries.last().0@ {
                assert(entries[entries.len() - 1].0@ == k);
            } else {
                assert(map_of(init).contains_key(k));
                let i = choose|i: int| 0 <= i < init.len() && (#[trigger] init[i]).0@ == k;
                assert(entries[i].0@ == k);
            }
        }
        if map_of(init).contains_key(entries.last().0@) {
            let i = choose|i: int|
                0 <= i < init.len() && (#[trigger] init[i]).0@ == entries.last().0@;
            assert(entries[i].0@ == entries[entries.len() - 1].0@);
        }
    }
}

impl View for Metadata {
    type V = Map<Seq<char>, MetaValue>;

    closed spec fn view(&self) -> Map<Seq<char>, MetaValue> {
        map_of(self.entries@)
    }
}

impl Clone for Metadata {
    fn clone(&self) -> (copy: Metadata)
        ensures
            copy@ == self@,
    {
        proof {
            use_type_invariant(self);
        }
        let mut entries: Vec<(Cow<'static, str>, MetaValue)> = Vec::new();
        let mut i: usize = 0;
        while i < self.entries.len()
            invariant
                i <= self.entries.len(),
                entries@ == self.entries@.take(i as int),
            decreases self.entries.len() - i,
        {
            entries.push((clone_cow(&self.entries[i].0), self.entries[i].1.clone()));
            assert(entries@ =~= self.entries@.take(i + 1));
            i += 1;
        }
        assert(entries@ =~= self.entries@);
        Metadata { entries }
    }
}

impl Metadata {
    #[verifier::type_invariant]
    spec fn well_formed(self) -> bool {
        names_distinct(self.entries@)
    }

    /// A map without entries.
    pub fn new() -> (map: Metadata)
        ensures
            map@ == Map::<Seq<char>, MetaValue>::empty(),
    {
        Metadata { entries: Vec::new() }
    }

    /// The number of names that have a value.
    pub fn len(&self) -> (n: usize)
        ensures
            self@.dom().finite(),
            n == self@.len(),
    {
        proof {
            use_type_invariant(self);
            lemma_map_of(self.entries@);
        }
        self.entries.len()
    }

    /// Whether no name has a value.
    pub fn is_empty(&self) -> (empty: bool)
        ensures
            empty == (self@ == Map::<Seq<char>, MetaValue>::empty()),
    {
        proof {
            use_type_invariant(self);
            lemma_map_of(self.entries@);
        }
        if self.entries.len() > 0 {
            assert(self@.contains_key(self.entries@[0].0@));
            return false;
        }
        true
    }

    /// The value of `name`, if it has one.
    pub fn get(&self, name: &str) -> (value: Option<&MetaValue>)
        ensures
            match value {
                Some(v) => self@.contains_key(name@) && *v == self@[name@],
                None => !self@.contains_key(name@),
            },
    {
        proof {
            use_type_invariant(self);
            lemma_map_of(self.entries@);
        }
        let mut i: usize = 0;
        while i < self.entries.len()
            invariant
                i <= self.entries.len(),
                forall|k: int| 0 <= k < i ==> (#[trigger] self.entries@[k]).0@ != name@,
                forall|k: int|
                    0 <= k < self.entries.len() ==> self@.contains_key(
                        (#[trigger] self.entries@[k]).0@,
                    ) && self@[self.entries@[k].0@] == self.entries@[k].1,
            decreases self.entries.len() - i,
        {
            if same_text(cow_text(&self.entries[i].0), name) {
                assert(self@.contains_key(self.entries@[i as int].0@));
                return Some(&self.entries[i].1);
            }
            i += 1;
        }
        None
    }

    /// The entries of the map, each a name with its value.
    pub fn entries(&self) -> (entries: Vec<(&str, &MetaValue)>)
        ensures
            lists(entries@, self@),
            entries@.len() == self@.len(),
    {
        proof {
            use_type_invariant(self);
            lemma_map_of(self.entries@);
        }
        let mut entries: Vec<(&str, &MetaValue)> = Vec::new();
        let mut i: usize = 0;
        while i < self.entries.len()
            invariant
                i <= self.entries.len(),
                entries.len() == i,
                forall|k: int|
                    0 <= k < i ==> (#[trigger] entries@[k]).0@ == self.entries@[k].0@
                        && *entries@[k].1 == self.entries@[k].1,
            decreases self.entries.len() - i,
        {
            entries.push((cow_text(&self.entries[i].0), &self.entries[i].1));
            i += 1;
        }
        proof {
            assert forall|name: Seq<char>| #[trigger] self@.contains_key(name) implies exists|k: int|
                0 <= k < entries.len() && (#[trigger] entries@[k]).0@ == name by {
                let k = choose|k: int|
                    0 <= k < self.entries.len() && (#[trigger] self.entries@[k]).0@ == name;
                assert(entries@[k].0@ == name);
            }
            assert forall|k: int| 0 <= k < entries.len() implies self@.contains_key(
                (#[trigger] entries@[k]).0@,
            ) && self@[entries@[k].0@] == *entries@[k].1 by {
                assert(self@.contains_key(self.entries@[k].0@));
            }
        }
        entries
    }

    /// Gives `name` the value `value`, in place of the value that it had.
    pub fn insert(&mut self, name: Cow<'static, str>, value: MetaValue)
        ensures
            final(self)@ == old(self)@.insert(name@, value),
    {
        proof {
            use_type_invariant(&*self);
        }
        let mut entries: Vec<(Cow<'static, str>, MetaValue)> = Vec::new();
        std::mem::swap(&mut entries, &mut self.entries);
        let ghost before = entries@;
        assert(before == old(self).entries@);
        let mut i: usize = 0;
        while i < entries.len()
            invariant
                i <= entries.len(),
                entries@ == before,
                forall|k: int| 0 <= k < i ==> (#[trigger] entries@[k]).0@ != name@,
            ensures
                i < entries.len() ==> entries@[i as int].0@ == name@,
            decreases entries.len() - i,
        {
            if same_text(cow_text(&entries[i].0), cow_text(&name)) {
                break;
            }
            i += 1;
        }
        proof {
            lemma_map_of(before);
        }
        if i < entries.len() {
            entries.set(i, (name, value));
            proof {
                let after = entries@;
                lemma_map_of(after);
                let l = map_of(after);
                let r = map_of(before).insert(name@, value);
                assert forall|k: Seq<char>| l.contains_key(k) == r.contains_key(k) by {
                    if l.contains_key(k) {
                        let j = choose|j: int| 0 <= j < after.len() && (#[trigger] after[j]).0@ == k;
                        assert(before[j].0@ == k);
                    }
                    if r.contains_key(k) && k != name@ {
                        let j = choose|j: int|
                            0 <= j < before.len() && (#[trigger] before[j]).0@ == k;
                        assert(after[j].0@ == k);
                    }
                    assert(after[i as int].0@ == name@);
                }
                assert forall|k: Seq<char>| l.contains_key(k) implies l[k] == r[k] by {
                    let j = choose|j: int| 0 <= j < after.len() && (#[trigger] after[j]).0@ == k;
                    assert(l[k] == after[j].1);
                    assert(before[j].0@ == k);
                }
                assert(l =~= r);
            }
        } else {
            entries.push((name, value));
            assert(entries@.drop_last() =~= before);
        }
        self.entries = entries;
    }
}

} // verus!
