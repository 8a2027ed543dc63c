//! The dynamic value that is exchanged with the engine.
//!
//! A [`Value`] holds a superset of JSON: numbers, strings, byte strings, arrays
//! and maps, and besides them handles to what only the engine can look into
//! (script functions and objects, DOM elements, assets).
//!
//! A value is a plain value. It holds what a value of the engine's held when
//! it was read, or what the engine is to hold once it is written; nothing of
//! it lives in the engine. It is made, read, changed and compared without the
//! engine, and it may go to any thread.
//!
//! - A float is carried by the 64 bits of its double.
//! - An array and a map have an identity, a number that stands for their
//!   storage. It is drawn from a source of [`Identities`] when the array or map
//!   is made, and no source gives a number twice. A copy of a value has the
//!   identity of the value, and `==` compares arrays and maps by it: two
//!   arrays that were made apart, with one source, are not equal, whatever
//!   they hold. The copy holds elements of its own: a change of one copy is
//!   not seen in another.
//! - A script function or object, a DOM element and the like are carried by
//!   the eight bytes that the engine gave for them.
//! - To parse a text into a value and to write a value as text is the
//!   engine's part.
//!
//! What a value holds is stated by its view, a [`Model`]. Every operation of
//! this module is described over models.

#![allow(non_camel_case_types, non_snake_case)]

use crate::ieee::{float_of_int, int_to_float_bits};
use crate::schandler::NativeHandler;
use crate::scvalue::{VALUE_RESULT, VALUE_TYPE};
use crate::text::{append_decimal, decimal};
use vstd::prelude::*;

verus! {

/// Unit tag of a plain string.
pub const UNIT_STRING: u32 = 0;

/// Unit tag of an error string.
pub const UNIT_ERROR: u32 = 1;

/// Unit tag of a symbol.
pub const UNIT_SYMBOL: u32 = 0xffff;

/// The types whose data this library carries through without looking into it:
/// eight bytes that the engine gave and that only the engine can read.
#[derive(Clone, Copy, PartialEq, Eq, Structural, Debug)]
pub enum Foreign {
    /// A point in time.
    Date,
    /// An amount of money.
    Currency,
    /// A script function.
    Function,
    /// A script object.
    Object,
    /// A DOM element.
    DomObject,
    /// A resource that the engine manages.
    Resource,
    /// `N..M`.
    Range,
    /// An array of value-name pairs.
    Enum,
    /// A native asset.
    Asset,
    /// A type this library has no name for.
    Unknown,
}

impl Foreign {
    /// The type tag of such a value.
    pub open spec fn spec_kind(self) -> VALUE_TYPE {
        match self {
            Foreign::Date => VALUE_TYPE::T_DATE,
            Foreign::Currency => VALUE_TYPE::T_CURRENCY,
            Foreign::Function => VALUE_TYPE::T_FUNCTION,
            Foreign::Object => VALUE_TYPE::T_OBJECT,
            Foreign::DomObject => VALUE_TYPE::T_DOM_OBJECT,
            Foreign::Resource => VALUE_TYPE::T_RESOURCE,
            Foreign::Range => VALUE_TYPE::T_RANGE,
            Foreign::Enum => VALUE_TYPE::T_ENUM,
            Foreign::Asset => VALUE_TYPE::T_ASSET,
            Foreign::Unknown => VALUE_TYPE::T_UNKNOWN,
        }
    }

    /// The type tag of such a value.
    pub fn kind(self) -> (t: VALUE_TYPE)
        ensures
            t == self.spec_kind(),
    {
        match self {
            Foreign::Date => VALUE_TYPE::T_DATE,
            Foreign::Currency => VALUE_TYPE::T_CURRENCY,
            Foreign::Function => VALUE_TYPE::T_FUNCTION,
            Foreign::Object => VALUE_TYPE::T_OBJECT,
            Foreign::DomObject => VALUE_TYPE::T_DOM_OBJECT,
            Foreign::Resource => VALUE_TYPE::T_RESOURCE,
            Foreign::Range => VALUE_TYPE::T_RANGE,
            Foreign::Enum => VALUE_TYPE::T_ENUM,
            Foreign::Asset => VALUE_TYPE::T_ASSET,
            Foreign::Unknown => VALUE_TYPE::T_UNKNOWN,
        }
    }
}

/// What a value holds, without its unit tag.
pub enum Content {
    /// Nothing at all.
    Undefined,
    /// An explicit `null`.
    Null,
    /// A boolean.
    Bool(bool),
    /// An integer.
    Int(i32),
    /// A double float, by its bits.
    Float(u64),
    /// A string.
    Text(Seq<char>),
    /// A byte string.
    Bytes(Seq<u8>),
    /// An array: its identity and its elements.
    Array(u64, Seq<Model>),
    /// A map: its identity and its key-value pairs, in the order in which the
    /// keys came.
    Pairs(u64, Seq<(Model, Model)>),
    /// A color.
    Color(u32),
    /// A time span in seconds, a double float by its bits.
    Duration(u64),
    /// An angle in radians, a double float by its bits.
    Angle(u64),
    /// A length, a double float by its bits; the unit tag says in what.
    Length(u64),
    /// Eight bytes of the engine's.
    Foreign(Foreign, u64),
}

/// The mathematical model of a [`Value`]: its unit tag and what it holds.
pub struct Model {
    /// The unit tag.
    pub unit: u32,
    /// What the value holds.
    pub content: Content,
}

impl Model {
    /// The model of `undefined`.
    pub open spec fn undefined() -> Model {
        Model { unit: 0, content: Content::Undefined }
    }

    /// The model of a value without a unit.
    pub open spec fn plain(content: Content) -> Model {
        Model { unit: 0, content }
    }

    /// The model of a string of the given sub-type.
    pub open spec fn text(unit: u32, chars: Seq<char>) -> Model {
        Model { unit, content: Content::Text(chars) }
    }

    /// The model of an array of `n` undefined elements, with the given
    /// identity.
    pub open spec fn blank_array(identity: u64, n: nat) -> Model {
        Model::plain(Content::Array(identity, Seq::new(n, |i: int| Model::undefined())))
    }

    /// The identity of an array or a map; no other value has one.
    pub open spec fn identity(self) -> Option<u64> {
        match self.content {
            Content::Array(identity, _) => Some(identity),
            Content::Pairs(identity, _) => Some(identity),
            _ => None,
        }
    }

    /// Whether a source that has given out the numbers below `bound`, and
    /// no others, can have given the identity of this value.
    pub open spec fn drawn_below(self, bound: u64) -> bool {
        match self.identity() {
            Some(identity) => identity < bound,
            None => true,
        }
    }

    /// The type tag.
    pub open spec fn kind(self) -> VALUE_TYPE {
        match self.content {
            Content::Undefined => VALUE_TYPE::T_UNDEFINED,
            Content::Null => VALUE_TYPE::T_NULL,
            Content::Bool(_) => VALUE_TYPE::T_BOOL,
            Content::Int(_) => VALUE_TYPE::T_INT,
            Content::Float(_) => VALUE_TYPE::T_FLOAT,
            Content::Text(_) => VALUE_TYPE::T_STRING,
            Content::Bytes(_) => VALUE_TYPE::T_BYTES,
            Content::Array(_, _) => VALUE_TYPE::T_ARRAY,
            Content::Pairs(_, _) => VALUE_TYPE::T_MAP,
            Content::Color(_) => VALUE_TYPE::T_COLOR,
            Content::Duration(_) => VALUE_TYPE::T_DURATION,
            Content::Angle(_) => VALUE_TYPE::T_ANGLE,
            Content::Length(_) => VALUE_TYPE::T_LENGTH,
            Content::Foreign(f, _) => f.spec_kind(),
        }
    }

    /// Whether the value is an array or a map: a value with storage of its own,
    /// which is compared by the identity of that storage.
    pub open spec fn is_composite(self) -> bool {
        self.content is Array || self.content is Pairs
    }

    /// The integer that the value gives: its own, or 1 and 0 for a boolean.
    pub open spec fn to_int(self) -> Option<i32> {
        match self.content {
            Content::Int(i) => Some(i),
            Content::Bool(b) => Some(if b { 1i32 } else { 0i32 }),
            _ => None,
        }
    }

    /// The boolean that the value gives: its own, or whether an integer is not zero.
    pub open spec fn to_bool(self) -> Option<bool> {
        match self.content {
            Content::Bool(b) => Some(b),
            Content::Int(i) => Some(i != 0),
            _ => None,
        }
    }

    /// The float that the value gives, by its bits: its own, or the float that
    /// is equal to an integer.
    pub open spec fn to_float(self) -> Option<u64> {
        match self.content {
            Content::Float(bits) => Some(bits),
            Content::Int(i) => Some(float_of_int(i)),
            _ => None,
        }
    }

    /// The time span that the value holds, a float by its bits.
    pub open spec fn to_duration(self) -> Option<u64> {
        match self.content {
            Content::Duration(bits) => Some(bits),
            _ => None,
        }
    }

    /// The angle that the value holds, a float by its bits.
    pub open spec fn to_angle(self) -> Option<u64> {
        match self.content {
            Content::Angle(bits) => Some(bits),
            _ => None,
        }
    }

    /// The length that the value holds, a float by its bits.
    pub open spec fn to_length(self) -> Option<u64> {
        match self.content {
            Content::Length(bits) => Some(bits),
            _ => None,
        }
    }

    /// The key of the pair of a map at `index`; `undefined` where there is none.
    pub open spec fn key(self, index: int) -> Model {
        match self.content {
            Content::Pairs(_, pairs) => if 0 <= index < pairs.len() {
                pairs[index].0
            } else {
                Model::undefined()
            },
            _ => Model::undefined(),
        }
    }

    /// The color that the value holds.
    pub open spec fn to_color(self) -> Option<u32> {
        match self.content {
            Content::Color(c) => Some(c),
            _ => None,
        }
    }

    /// The characters of a string.
    pub open spec fn as_string(self) -> Option<Seq<char>> {
        match self.content {
            Content::Text(s) => Some(s),
            _ => None,
        }
    }

    /// The bytes of a byte string.
    pub open spec fn as_bytes(self) -> Option<Seq<u8>> {
        match self.content {
            Content::Bytes(b) => Some(b),
            _ => None,
        }
    }

    /// The number of elements of an array, or of pairs of a map; 0 for any
    /// other value.
    pub open spec fn len(self) -> nat {
        match self.content {
            Content::Array(_, items) => items.len(),
            Content::Pairs(_, pairs) => pairs.len(),
            _ => 0,
        }
    }

    /// The element of an array at `index`, or the value of the pair of a map
    /// at `index`; `undefined` where there is none.
    pub open spec fn get(self, index: int) -> Model {
        match self.content {
            Content::Array(_, items) => if 0 <= index < items.len() {
                items[index]
            } else {
                Model::undefined()
            },
            Content::Pairs(_, pairs) => if 0 <= index < pairs.len() {
                pairs[index].1
            } else {
                Model::undefined()
            },
            _ => Model::undefined(),
        }
    }

    /// Whether two keys are the same key. A key is matched by what it holds,
    /// whatever its unit; an array or a map is no key that can be found again.
    pub open spec fn same_key(self, other: Model) -> bool {
        !self.is_composite() && self.content == other.content
    }
}

impl Model {
    /// Whether two values are equal.
    ///
    /// Two values that are no arrays and no maps are equal where they hold the
    /// same, whatever their units. An array is equal to the arrays of its own
    /// identity, a map to the maps of its own identity, and neither to
    /// anything else, whatever they hold.
    pub open spec fn equals(self, other: Model) -> bool {
        match (self.content, other.content) {
            (Content::Array(a, _), Content::Array(b, _)) => a == b,
            (Content::Pairs(a, _), Content::Pairs(b, _)) => a == b,
            _ => self.same_key(other),
        }
    }

    /// The value with storage of its own, of the identity `fresh`: an array or
    /// a map holds what it held under the new identity, and any other value
    /// is as it was.
    pub open spec fn isolated(self, fresh: u64) -> Model {
        match self.content {
            Content::Array(_, items) => Model { unit: self.unit, content: Content::Array(fresh, items) },
            Content::Pairs(_, pairs) => Model { unit: self.unit, content: Content::Pairs(fresh, pairs) },
            _ => self,
        }
    }

    /// Whether putting a value at `index` makes an array of a value that was
    /// none, for which an identity is drawn.
    pub open spec fn set_makes_array(self, index: int) -> bool {
        0 <= index <= INDEX_MAX && !self.is_composite()
    }

    /// The value after `src` was put at `index`.
    ///
    /// An array takes it at that place, growing by `undefined` elements where
    /// the place lies behind its end. A map takes it as the value of the pair at
    /// that place, if it has one. Any other value becomes an array first, of
    /// the identity `fresh`. An index beyond [`INDEX_MAX`] changes nothing.
    pub open spec fn set(self, index: int, src: Model, fresh: u64) -> Model {
        if index < 0 || index > INDEX_MAX {
            self
        } else {
            match self.content {
                Content::Array(identity, items) => Model {
                    unit: self.unit,
                    content: Content::Array(identity, put(items, index, src)),
                },
                Content::Pairs(identity, pairs) => if index < pairs.len() {
                    Model {
                        unit: self.unit,
                        content: Content::Pairs(identity, pairs.update(index, (pairs[index].0, src))),
                    }
                } else {
                    self
                },
                _ => Model::plain(Content::Array(fresh, put(Seq::empty(), index, src))),
            }
        }
    }

    /// The value after `src` was appended to it.
    pub open spec fn push(self, src: Model, fresh: u64) -> Model {
        self.set(self.len() as int, src, fresh)
    }

    /// The value after `value` was stored under `key`.
    ///
    /// A map takes it in place of the value that the key had, or as a new pair
    /// at its end. Any other value becomes a map of that one pair, of the
    /// identity `fresh`.
    pub open spec fn set_item(self, key: Model, value: Model, fresh: u64) -> Model {
        match self.content {
            Content::Pairs(identity, pairs) => {
                let at = key_position(pairs, key);
                Model {
                    unit: self.unit,
                    content: Content::Pairs(
                        identity,
                        if at < pairs.len() {
                            pairs.update(at, (pairs[at].0, value))
                        } else {
                            pairs.push((key, value))
                        },
                    ),
                }
            },
            _ => Model::plain(Content::Pairs(fresh, seq![(key, value)])),
        }
    }

    /// The value stored under `key` in a map; `undefined` where there is none.
    pub open spec fn get_item(self, key: Model) -> Model {
        match self.content {
            Content::Pairs(_, pairs) => {
                let at = key_position(pairs, key);
                if at < pairs.len() {
                    pairs[at].1
                } else {
                    Model::undefined()
                }
            },
            _ => Model::undefined(),
        }
    }
}

/// The largest index that an element can be put at.
pub const INDEX_MAX: usize = 0x7fff_ffff;

/// `items` with `src` at `index`: in place of the element there, or behind as
/// many `undefined` elements as it takes to reach that place.
pub open spec fn put(items: Seq<Model>, index: int, src: Model) -> Seq<Model> {
    if index < items.len() {
        items.update(index, src)
    } else {
        items + Seq::new((index - items.len()) as nat, |i: int| Model::undefined()) + seq![src]
    }
}

/// The first position in `pairs` whose key is `key`, or the length of `pairs`
/// if there is none.
pub open spec fn key_position(pairs: Seq<(Model, Model)>, key: Model) -> int
    decreases pairs.len(),
{
    if pairs.len() == 0 {
        0
    } else if pairs[0].0.same_key(key) {
        0
    } else {
        1 + key_position(pairs.drop_first(), key)
    }
}

/// A source of identities for arrays and maps.
///
/// It gives out the numbers from 0 on, one after another and none of them
/// twice. Its view is the number that it gives next: every number below has
/// been given, and none from there on. Values are compared by identity among
/// those that were made with one source.
#[derive(Debug)]
pub struct Identities {
    next: u64,
}

impl View for Identities {
    type V = u64;

    closed spec fn view(&self) -> u64 {
        self.next
    }
}

impl Identities {
    /// A source that has given out nothing yet.
    pub fn new() -> (r: Identities)
        ensures
            r@ == 0,
    {
        Identities { next: 0 }
    }

    /// Whether every number was given out: nothing can be drawn any more.
    pub fn is_spent(&self) -> (r: bool)
        ensures
            r == (self@ == u64::MAX),
    {
        self.next == u64::MAX
    }

    /// Draws an identity: the next number, which the source never gives
    /// again.
    pub fn draw(&mut self) -> (identity: u64)
        requires
            old(self)@ < u64::MAX,
        ensures
            identity == old(self)@,
            final(self)@ == old(self)@ + 1,
    {
        let identity = self.next;
        self.next = self.next + 1;
        identity
    }
}

/// A pair of a map.
#[derive(Debug)]
struct Entry {
    key: Value,
    value: Value,
}

#[derive(Debug)]
enum Body {
    Undefined,
    Null,
    Bool(bool),
    Int(i32),
    Float(u64),
    Text(String),
    Bytes(Vec<u8>),
    Array(u64, Vec<Value>),
    Pairs(u64, Vec<Entry>),
    Color(u32),
    Duration(u64),
    Angle(u64),
    Length(u64),
    Foreign(Foreign, u64),
}

/// A dynamic value.
///
/// See the [module-level](index.html) documentation.
#[derive(Debug)]
pub struct Value {
    unit: u32,
    body: Body,
}

/// What a value holds: the model that its view is.
spec fn model_of(v: Value) -> Model
    decreases v,
{
    Model {
        unit: v.unit,
        content: match v.body {
            Body::Undefined => Content::Undefined,
            Body::Null => Content::Null,
            Body::Bool(b) => Content::Bool(b),
            Body::Int(i) => Content::Int(i),
            Body::Float(bits) => Content::Float(bits),
            Body::Text(s) => Content::Text(s@),
            Body::Bytes(b) => Content::Bytes(b@),
            Body::Array(identity, items) => Content::Array(
                identity,
                Seq::new(
                    items.len() as nat,
                    |i: int|
                        if 0 <= i < items.len() {
                            model_of(items[i])
                        } else {
                            Model::undefined()
                        },
                ),
            ),
            Body::Pairs(identity, pairs) => Content::Pairs(
                identity,
                Seq::new(
                    pairs.len() as nat,
                    |i: int|
                        if 0 <= i < pairs.len() {
                            (model_of(pairs[i].key), model_of(pairs[i].value))
                        } else {
                            (Model::undefined(), Model::undefined())
                        },
                ),
            ),
            Body::Color(c) => Content::Color(c),
            Body::Duration(bits) => Content::Duration(bits),
            Body::Angle(bits) => Content::Angle(bits),
            Body::Length(bits) => Content::Length(bits),
            Body::Foreign(f, d) => Content::Foreign(f, d),
        },
    }
}

impl View for Value {
    type V = Model;

    closed spec fn view(&self) -> Model {
        model_of(*self)
    }
}

/// The models of a sequence of values.
pub open spec fn models(items: Seq<Value>) -> Seq<Model> {
    Seq::new(items.len(), |i: int| items[i]@)
}

/// The models of the pairs of a map.
spec fn pair_models(pairs: Seq<Entry>) -> Seq<(Model, Model)> {
    Seq::new(pairs.len(), |i: int| (pairs[i].key@, pairs[i].value@))
}

/// An array's view is the sequence of its elements' views.
proof fn lemma_array_view(v: Value)
    requires
        v.body is Array,
    ensures
        v@ == (Model { unit: v.unit, content: Content::Array(v.body->Array_0, models(v.body->Array_1@)) }),
{
    assert(v@.content->Array_1 =~= models(v.body->Array_1@));
}

/// A map's view is the sequence of its pairs' views.
proof fn lemma_pairs_view(v: Value)
    requires
        v.body is Pairs,
    ensures
        v@ == (Model { unit: v.unit, content: Content::Pairs(v.body->Pairs_0, pair_models(v.body->Pairs_1@)) }),
{
    assert(v@.content->Pairs_1 =~= pair_models(v.body->Pairs_1@));
}

impl Value {
    /// Return a new value object, `undefined`.
    pub fn new() -> (r: Value)
        ensures
            r@ == Model::undefined(),
    {
        Value { unit: 0, body: Body::Undefined }
    }

    /// Make an explicit array value with the given length; its elements are
    /// `undefined`. Its identity is drawn from `ids`.
    pub fn array(ids: &mut Identities, length: usize) -> (r: Value)
        requires
            old(ids)@ < u64::MAX,
        ensures
            r@ == Model::blank_array(old(ids)@, length as nat),
            final(ids)@ == old(ids)@ + 1,
    {
        let mut items: Vec<Value> = Vec::new();
        let mut i: usize = 0;
        while i < length
            invariant
                i <= length,
                items.len() == i,
                forall|j: int| 0 <= j < i ==> items[j]@ == Model::undefined(),
            decreases length - i,
        {
            items.push(Value::new());
            i = i + 1;
        }
        let r = Value { unit: 0, body: Body::Array(ids.draw(), items) };
        proof {
            lemma_array_view(r);
            assert(models(items@) =~= Seq::new(length as nat, |i: int| Model::undefined()));
        }
        r
    }

    /// Make an array value that holds the given values, in their order. Its
    /// identity is drawn from `ids`.
    pub fn from_values(ids: &mut Identities, items: Vec<Value>) -> (r: Value)
        requires
            old(ids)@ < u64::MAX,
        ensures
            r@ == Model::plain(Content::Array(old(ids)@, models(items@))),
            final(ids)@ == old(ids)@ + 1,
    {
        let r = Value { unit: 0, body: Body::Array(ids.draw(), items) };
        proof {
            lemma_array_view(r);
        }
        r
    }

    /// Make an explicit map value, without pairs. Its identity is drawn from
    /// `ids`.
    pub fn map(ids: &mut Identities) -> (r: Value)
        requires
            old(ids)@ < u64::MAX,
        ensures
            r@ == Model::plain(Content::Pairs(old(ids)@, Seq::empty())),
            final(ids)@ == old(ids)@ + 1,
    {
        let pairs: Vec<Entry> = Vec::new();
        let r = Value { unit: 0, body: Body::Pairs(ids.draw(), pairs) };
        proof {
            lemma_pairs_view(r);
            assert(pair_models(pairs@) =~= Seq::empty());
        }
        r
    }

    /// Make an explicit json `null` value.
    pub fn null() -> (r: Value)
        ensures
            r@ == Model::plain(Content::Null),
    {
        Value { unit: 0, body: Body::Null }
    }

    /// Make a symbol value.
    pub fn symbol(val: &str) -> (r: Value)
        ensures
            r@ == Model::text(UNIT_SYMBOL, val@),
    {
        Value { unit: UNIT_SYMBOL, body: Body::Text(String::from_str(val)) }
    }

    /// Make an error value.
    pub fn error(val: &str) -> (r: Value)
        ensures
            r@ == Model::text(UNIT_ERROR, val@),
    {
        Value { unit: UNIT_ERROR, body: Body::Text(String::from_str(val)) }
    }

    /// Make a color value, in 0xAABBGGRR form.
    pub fn color(val: u32) -> (r: Value)
        ensures
            r@ == Model::plain(Content::Color(val)),
    {
        Value { unit: 0, body: Body::Color(val) }
    }

    /// Get inner value type.
    pub fn get_type(&self) -> (t: VALUE_TYPE)
        ensures
            t == self@.kind(),
    {
        match &self.body {
            Body::Undefined => VALUE_TYPE::T_UNDEFINED,
            Body::Null => VALUE_TYPE::T_NULL,
            Body::Bool(_) => VALUE_TYPE::T_BOOL,
            Body::Int(_) => VALUE_TYPE::T_INT,
            Body::Float(_) => VALUE_TYPE::T_FLOAT,
            Body::Text(_) => VALUE_TYPE::T_STRING,
            Body::Bytes(_) => VALUE_TYPE::T_BYTES,
            Body::Array(_, _) => VALUE_TYPE::T_ARRAY,
            Body::Pairs(_, _) => VALUE_TYPE::T_MAP,
            Body::Color(_) => VALUE_TYPE::T_COLOR,
            Body::Duration(_) => VALUE_TYPE::T_DURATION,
            Body::Angle(_) => VALUE_TYPE::T_ANGLE,
            Body::Length(_) => VALUE_TYPE::T_LENGTH,
            Body::Foreign(f, _) => f.kind(),
        }
    }

    /// Get inner value type and its subtype (e.g. units).
    pub fn full_type(&self) -> (r: (VALUE_TYPE, u32))
        ensures
            r.0 == self@.kind(),
            r.1 == self@.unit,
    {
        (self.get_type(), self.unit)
    }
}

impl Value {
    /// A copy of the elements of an array.
    fn copy_items(items: &Vec<Value>) -> (out: Vec<Value>)
        ensures
            models(out@) == models(items@),
        decreases items,
    {
        let mut out: Vec<Value> = Vec::new();
        let mut i: usize = 0;
        while i < items.len()
            invariant
                i <= items.len(),
                out.len() == i,
                forall|j: int| 0 <= j < i ==> out[j]@ == items[j]@,
            decreases items.len() - i,
        {
            proof {
                broadcast use vstd::std_specs::vec::axiom_vec_index_decreases;

                assert(decreases_to!(items => items[i as int]));
            }
            let item = items[i].copy();
            out.push(item);
            i = i + 1;
        }
        assert(models(out@) =~= models(items@));
        out
    }

    /// A copy of the pairs of a map.
    fn copy_pairs(pairs: &Vec<Entry>) -> (out: Vec<Entry>)
        ensures
            pair_models(out@) == pair_models(pairs@),
        decreases pairs,
    {
        let mut out: Vec<Entry> = Vec::new();
        let mut i: usize = 0;
        while i < pairs.len()
            invariant
                i <= pairs.len(),
                out.len() == i,
                forall|j: int|
                    0 <= j < i ==> out[j].key@ == pairs[j].key@ && out[j].value@ == pairs[j].value@,
            decreases pairs.len() - i,
        {
            proof {
                broadcast use vstd::std_specs::vec::axiom_vec_index_decreases;

                assert(decreases_to!(pairs => pairs[i as int]));
                assert(decreases_to!(pairs[i as int] => pairs[i as int].key));
                assert(decreases_to!(pairs[i as int] => pairs[i as int].value));
            }
            let key = pairs[i].key.copy();
            let value = pairs[i].value.copy();
            out.push(Entry { key, value });
            i = i + 1;
        }
        assert(pair_models(out@) =~= pair_models(pairs@));
        out
    }

    /// A copy of the value. An array or a map is copied with all that it
    /// holds, and the copy has its identity.
    fn copy(&self) -> (r: Value)
        ensures
            r@ == self@,
        decreases self,
    {
        match &self.body {
            Body::Undefined => Value { unit: self.unit, body: Body::Undefined },
            Body::Null => Value { unit: self.unit, body: Body::Null },
            Body::Bool(b) => Value { unit: self.unit, body: Body::Bool(*b) },
            Body::Int(i) => Value { unit: self.unit, body: Body::Int(*i) },
            Body::Float(bits) => Value { unit: self.unit, body: Body::Float(*bits) },
            Body::Text(s) => Value { unit: self.unit, body: Body::Text(s.clone()) },
            Body::Bytes(b) => Value { unit: self.unit, body: Body::Bytes(b.clone()) },
            Body::Array(identity, items) => {
                proof {
                    assert(decreases_to!(self => self.body->Array_1));
                }
                let copies = Value::copy_items(items);
                let r = Value { unit: self.unit, body: Body::Array(*identity, copies) };
                proof {
                    lemma_array_view(r);
                    lemma_array_view(*self);
                }
                r
            },
            Body::Pairs(identity, pairs) => {
                proof {
                    assert(decreases_to!(self => self.body->Pairs_1));
                }
                let copies = Value::copy_pairs(pairs);
                let r = Value { unit: self.unit, body: Body::Pairs(*identity, copies) };
                proof {
                    lemma_pairs_view(r);
                    lemma_pairs_view(*self);
                }
                r
            },
            Body::Color(c) => Value { unit: self.unit, body: Body::Color(*c) },
            Body::Duration(bits) => Value { unit: self.unit, body: Body::Duration(*bits) },
            Body::Angle(bits) => Value { unit: self.unit, body: Body::Angle(*bits) },
            Body::Length(bits) => Value { unit: self.unit, body: Body::Length(*bits) },
            Body::Foreign(f, d) => Value { unit: self.unit, body: Body::Foreign(*f, *d) },
        }
    }
}

/// Copies value.
///
/// The copy holds what the value holds. The copy of an array or of a map has
/// the identity of the value it was taken from.
impl Clone for Value {
    fn clone(&self) -> (r: Value)
        ensures
            r@ == self@,
    {
        self.copy()
    }
}

/// Return default value (`undefined`).
impl Default for Value {
    fn default() -> (r: Value)
        ensures
            r@ == Model::undefined(),
    {
        Value::new()
    }
}

/// Where the first `i` keys are not `key`, and the key at `i` is it or `i` is
/// the end, `i` is the key's position.
proof fn lemma_key_position(pairs: Seq<(Model, Model)>, key: Model, i: int)
    requires
        0 <= i <= pairs.len(),
        forall|j: int| 0 <= j < i ==> !pairs[j].0.same_key(key),
        i < pairs.len() ==> pairs[i].0.same_key(key),
    ensures
        key_position(pairs, key) == i,
    decreases pairs.len(),
{
    if pairs.len() > 0 && i > 0 {
        let rest = pairs.drop_first();
        assert forall|j: int| 0 <= j < i - 1 implies !rest[j].0.same_key(key) by {
            assert(rest[j] == pairs[j + 1]);
        }
        if i - 1 < rest.len() {
            assert(rest[i - 1] == pairs[i]);
        }
        lemma_key_position(rest, key, i - 1);
    }
}

/// A key's position is a place in the sequence at which the key stands, and
/// no earlier place holds it; or it is the end, and no place holds it.
pub proof fn lemma_key_position_is_first(pairs: Seq<(Model, Model)>, key: Model)
    ensures
        0 <= key_position(pairs, key) <= pairs.len(),
        key_position(pairs, key) < pairs.len() ==> pairs[key_position(pairs, key)].0.same_key(key),
        forall|j: int| 0 <= j < key_position(pairs, key) ==> !pairs[j].0.same_key(key),
    decreases pairs.len(),
{
    if pairs.len() > 0 && !pairs[0].0.same_key(key) {
        let rest = pairs.drop_first();
        lemma_key_position_is_first(rest, key);
        let at = key_position(rest, key);
        if at < rest.len() {
            assert(rest[at] == pairs[at + 1]);
        }
        assert forall|j: int| 0 <= j < at + 1 implies !pairs[j].0.same_key(key) by {
            if j > 0 {
                assert(rest[j - 1] == pairs[j]);
            }
        }
    }
}

/// Whether two byte strings hold the same bytes.
fn same_bytes(a: &Vec<u8>, b: &Vec<u8>) -> (r: bool)
    ensures
        r == (a@ == b@),
{
    if a.len() != b.len() {
        return false;
    }
    let mut i: usize = 0;
    while i < a.len()
        invariant
            i <= a.len(),
            a.len() == b.len(),
            forall|j: int| 0 <= j < i ==> a[j] == b[j],
        decreases a.len() - i,
    {
        if a[i] != b[i] {
            return false;
        }
        i = i + 1;
    }
    assert(a@ =~= b@);
    true
}

impl Value {
    /// Whether the value is an array or a map.
    fn is_composite(&self) -> (r: bool)
        ensures
            r == self@.is_composite(),
    {
        match &self.body {
            Body::Array(_, _) => true,
            Body::Pairs(_, _) => true,
            _ => false,
        }
    }

    /// Whether the value holds what `other` holds, where the value is no
    /// array and no map.
    fn same_content(&self, other: &Value) -> (r: bool)
        ensures
            r == self@.same_key(other@),
    {
        match (&self.body, &other.body) {
            (Body::Undefined, Body::Undefined) => true,
            (Body::Null, Body::Null) => true,
            (Body::Bool(a), Body::Bool(b)) => *a == *b,
            (Body::Int(a), Body::Int(b)) => *a == *b,
            (Body::Float(a), Body::Float(b)) => *a == *b,
            (Body::Text(a), Body::Text(b)) => *a == *b,
            (Body::Bytes(a), Body::Bytes(b)) => same_bytes(a, b),
            (Body::Color(a), Body::Color(b)) => *a == *b,
            (Body::Duration(a), Body::Duration(b)) => *a == *b,
            (Body::Angle(a), Body::Angle(b)) => *a == *b,
            (Body::Length(a), Body::Length(b)) => *a == *b,
            (Body::Foreign(f, a), Body::Foreign(g, b)) => *f == *g && *a == *b,
            _ => false,
        }
    }

    /// The position of the first pair whose key is `key`, or the number of
    /// pairs if there is none.
    fn find_key(pairs: &Vec<Entry>, key: &Value) -> (at: usize)
        ensures
            at == key_position(pair_models(pairs@), key@),
            at <= pairs.len(),
    {
        let mut i: usize = 0;
        while i < pairs.len()
            invariant
                i <= pairs.len(),
                forall|j: int| 0 <= j < i ==> !pair_models(pairs@)[j].0.same_key(key@),
            decreases pairs.len() - i,
        {
            if pairs[i].key.same_content(key) {
                proof {
                    lemma_key_position(pair_models(pairs@), key@, i as int);
                }
                return i;
            }
            i = i + 1;
        }
        proof {
            lemma_key_position(pair_models(pairs@), key@, i as int);
        }
        i
    }

    /// Compare two values.
    ///
    /// Two values that are no arrays and no maps are equal where they hold the
    /// same, whatever their units. An array or a map is equal only to a value
    /// of its own kind that has its identity: to itself and to its copies.
    pub fn equals(&self, other: &Value) -> (r: bool)
        ensures
            r == self@.equals(other@),
    {
        match (&self.body, &other.body) {
            (Body::Array(a, _), Body::Array(b, _)) => *a == *b,
            (Body::Pairs(a, _), Body::Pairs(b, _)) => *a == *b,
            _ => self.same_content(other),
        }
    }

    /// Detaches the value from the storage that it shares with its copies: an
    /// array or a map holds what it held, under an identity of its own that is
    /// drawn from `ids`. It is no longer equal to the copies that were taken
    /// of it before. Any other value stays as it is, and nothing is drawn.
    pub fn isolate(&mut self, ids: &mut Identities)
        requires
            old(ids)@ < u64::MAX,
        ensures
            final(self)@ == old(self)@.isolated(old(ids)@),
            final(ids)@ == if old(self)@.is_composite() {
                (old(ids)@ + 1) as u64
            } else {
                old(ids)@
            },
    {
        let mut body = Body::Undefined;
        std::mem::swap(&mut self.body, &mut body);
        let ghost before = Value { unit: self.unit, body };
        let body = match body {
            Body::Array(_, items) => Body::Array(ids.draw(), items),
            Body::Pairs(_, pairs) => Body::Pairs(ids.draw(), pairs),
            other => other,
        };
        self.body = body;
        proof {
            if before.body is Array {
                lemma_array_view(before);
                lemma_array_view(*self);
            } else if before.body is Pairs {
                lemma_pairs_view(before);
                lemma_pairs_view(*self);
            }
        }
    }

    /// Clear the value: it is `undefined` from then on. The result is the
    /// value itself, for what is done with it next.
    pub fn clear(&mut self) -> (r: &mut Value)
        ensures
            mut_ref_current(r)@ == Model::undefined(),
            mut_ref_future(r) == *final(self),
    {
        self.unit = 0;
        self.body = Body::Undefined;
        self
    }

    /// Return the number of items in an array or a map; 0 for any other value.
    pub fn len(&self) -> (n: usize)
        ensures
            n == self@.len(),
    {
        match &self.body {
            Body::Array(_, items) => {
                proof {
                    lemma_array_view(*self);
                }
                items.len()
            },
            Body::Pairs(_, pairs) => {
                proof {
                    lemma_pairs_view(*self);
                }
                pairs.len()
            },
            _ => 0,
        }
    }

    /// Returns `true` if `self` is `undefined` or has zero elements.
    pub fn is_empty(&self) -> (r: bool)
        ensures
            r == (self@.content is Undefined || self@.len() == 0),
    {
        self.is_undefined() || self.len() == 0
    }

    /// Retrieve the value of the sub-element at `index`: the element of an
    /// array, or the value of the pair of a map. Where there is none, and for
    /// any other value, the result is `undefined`.
    pub fn get(&self, index: usize) -> (r: Value)
        ensures
            r@ == self@.get(index as int),
    {
        match &self.body {
            Body::Array(_, items) => {
                proof {
                    lemma_array_view(*self);
                }
                if index < items.len() {
                    items[index].clone()
                } else {
                    Value::new()
                }
            },
            Body::Pairs(_, pairs) => {
                proof {
                    lemma_pairs_view(*self);
                }
                if index < pairs.len() {
                    pairs[index].value.clone()
                } else {
                    Value::new()
                }
            },
            _ => Value::new(),
        }
    }

    /// Retrieve the key of the pair of a map at `index`. Where there is none,
    /// and for any other value, the result is `undefined`.
    pub fn key(&self, index: usize) -> (r: Value)
        ensures
            r@ == self@.key(index as int),
    {
        match &self.body {
            Body::Pairs(_, pairs) => {
                proof {
                    lemma_pairs_view(*self);
                }
                if index < pairs.len() {
                    pairs[index].key.clone()
                } else {
                    Value::new()
                }
            },
            _ => Value::new(),
        }
    }

    /// Retrieve the value of the sub-element by key; `undefined` where the
    /// value is no map or has no such key.
    pub fn get_item(&self, key: &Value) -> (r: Value)
        ensures
            r@ == self@.get_item(key@),
    {
        match &self.body {
            Body::Pairs(_, pairs) => {
                proof {
                    lemma_pairs_view(*self);
                }
                let at = Value::find_key(pairs, key);
                if at < pairs.len() {
                    pairs[at].value.clone()
                } else {
                    Value::new()
                }
            },
            _ => Value::new(),
        }
    }
}

impl Value {
    #[allow(missing_docs)]
    pub fn is_undefined(&self) -> (r: bool)
        ensures
            r == (self@.kind() == VALUE_TYPE::T_UNDEFINED),
    {
        self.get_type() == VALUE_TYPE::T_UNDEFINED
    }

    #[allow(missing_docs)]
    pub fn is_null(&self) -> (r: bool)
        ensures
            r == (self@.kind() == VALUE_TYPE::T_NULL),
    {
        self.get_type() == VALUE_TYPE::T_NULL
    }

    #[allow(missing_docs)]
    pub fn is_bool(&self) -> (r: bool)
        ensures
            r == (self@.kind() == VALUE_TYPE::T_BOOL),
    {
        self.get_type() == VALUE_TYPE::T_BOOL
    }

    #[allow(missing_docs)]
    pub fn is_int(&self) -> (r: bool)
        ensures
            r == (self@.kind() == VALUE_TYPE::T_INT),
    {
        self.get_type() == VALUE_TYPE::T_INT
    }

    #[allow(missing_docs)]
    pub fn is_float(&self) -> (r: bool)
        ensures
            r == (self@.kind() == VALUE_TYPE::T_FLOAT),
    {
        self.get_type() == VALUE_TYPE::T_FLOAT
    }

    #[allow(missing_docs)]
    pub fn is_bytes(&self) -> (r: bool)
        ensures
            r == (self@.kind() == VALUE_TYPE::T_BYTES),
    {
        self.get_type() == VALUE_TYPE::T_BYTES
    }

    #[allow(missing_docs)]
    pub fn is_string(&self) -> (r: bool)
        ensures
            r == (self@.kind() == VALUE_TYPE::T_STRING),
    {
        self.get_type() == VALUE_TYPE::T_STRING
    }

    #[allow(missing_docs)]
    pub fn is_date(&self) -> (r: bool)
        ensures
            r == (self@.kind() == VALUE_TYPE::T_DATE),
    {
        self.get_type() == VALUE_TYPE::T_DATE
    }

    #[allow(missing_docs)]
    pub fn is_currency(&self) -> (r: bool)
        ensures
            r == (self@.kind() == VALUE_TYPE::T_CURRENCY),
    {
        self.get_type() == VALUE_TYPE::T_CURRENCY
    }

    #[allow(missing_docs)]
    pub fn is_color(&self) -> (r: bool)
        ensures
            r == (self@.kind() == VALUE_TYPE::T_COLOR),
    {
        self.get_type() == VALUE_TYPE::T_COLOR
    }

    #[allow(missing_docs)]
    pub fn is_duration(&self) -> (r: bool)
        ensures
            r == (self@.kind() == VALUE_TYPE::T_DURATION),
    {
        self.get_type() == VALUE_TYPE::T_DURATION
    }

    #[allow(missing_docs)]
    pub fn is_angle(&self) -> (r: bool)
        ensures
            r == (self@.kind() == VALUE_TYPE::T_ANGLE),
    {
        self.get_type() == VALUE_TYPE::T_ANGLE
    }

    #[allow(missing_docs)]
    pub fn is_map(&self) -> (r: bool)
        ensures
            r == (self@.kind() == VALUE_TYPE::T_MAP),
    {
        self.get_type() == VALUE_TYPE::T_MAP
    }

    #[allow(missing_docs)]
    pub fn is_array(&self) -> (r: bool)
        ensures
            r == (self@.kind() == VALUE_TYPE::T_ARRAY),
    {
        self.get_type() == VALUE_TYPE::T_ARRAY
    }

    #[allow(missing_docs)]
    pub fn is_function(&self) -> (r: bool)
        ensures
            r == (self@.kind() == VALUE_TYPE::T_FUNCTION),
    {
        self.get_type() == VALUE_TYPE::T_FUNCTION
    }

    #[allow(missing_docs)]
    pub fn is_object(&self) -> (r: bool)
        ensures
            r == (self@.kind() == VALUE_TYPE::T_OBJECT),
    {
        self.get_type() == VALUE_TYPE::T_OBJECT
    }

    #[allow(missing_docs)]
    pub fn is_dom_element(&self) -> (r: bool)
        ensures
            r == (self@.kind() == VALUE_TYPE::T_DOM_OBJECT),
    {
        self.get_type() == VALUE_TYPE::T_DOM_OBJECT
    }

    #[allow(missing_docs)]
    pub fn is_symbol(&self) -> (r: bool)
        ensures
            r == (self@.kind() == VALUE_TYPE::T_STRING && self@.unit == UNIT_SYMBOL),
    {
        self.get_type() == VALUE_TYPE::T_STRING && self.unit == UNIT_SYMBOL
    }

    #[allow(missing_docs)]
    pub fn is_error_string(&self) -> (r: bool)
        ensures
            r == (self@.kind() == VALUE_TYPE::T_STRING && self@.unit == UNIT_ERROR),
    {
        self.get_type() == VALUE_TYPE::T_STRING && self.unit == UNIT_ERROR
    }

    /// Value to integer: `Some` for an integer and for a boolean (1 and 0),
    /// `None` for a value of any other type.
    pub fn to_int(&self) -> (r: Option<i32>)
        ensures
            r == self@.to_int(),
    {
        match &self.body {
            Body::Int(i) => Some(*i),
            Body::Bool(b) => Some(if *b { 1i32 } else { 0i32 }),
            _ => None,
        }
    }

    /// Value to bool: `Some` for a boolean and for an integer (whether it is
    /// not zero), `None` for a value of any other type.
    pub fn to_bool(&self) -> (r: Option<bool>)
        ensures
            r == self@.to_bool(),
    {
        match &self.body {
            Body::Bool(b) => Some(*b),
            Body::Int(i) => Some(*i != 0),
            _ => None,
        }
    }

    /// Value to color: `Some` for a color, `None` for a value of any other type.
    pub fn to_color(&self) -> (r: Option<u32>)
        ensures
            r == self@.to_color(),
    {
        match &self.body {
            Body::Color(c) => Some(*c),
            _ => None,
        }
    }

    /// Value as string: `Some` for a string of any sub-type, `None` for a
    /// value of any other type.
    pub fn as_string(&self) -> (r: Option<String>)
        ensures
            r is Some == self@.as_string() is Some,
            r matches Some(s) ==> self@.as_string() == Some(s@),
    {
        match &self.body {
            Body::Text(s) => Some(s.clone()),
            _ => None,
        }
    }

    /// Value as byte slice: `Some` for a byte string, `None` for a value of
    /// any other type.
    pub fn as_bytes(&self) -> (r: Option<&[u8]>)
        ensures
            r is Some == self@.as_bytes() is Some,
            r matches Some(b) ==> self@.as_bytes() == Some(b@),
    {
        match &self.body {
            Body::Bytes(b) => Some(b.as_slice()),
            _ => None,
        }
    }

    /// Value to byte vector: `Some` for a byte string, `None` for a value of
    /// any other type.
    pub fn to_bytes(&self) -> (r: Option<Vec<u8>>)
        ensures
            r is Some == self@.as_bytes() is Some,
            r matches Some(b) ==> self@.as_bytes() == Some(b@),
    {
        match self.as_bytes() {
            Some(r) => Some(vstd::slice::slice_to_vec(r)),
            None => None,
        }
    }
}

/// Value from integer.
impl From<i32> for Value {
    fn from(val: i32) -> (r: Value)
        ensures
            r@ == Model::plain(Content::Int(val)),
    {
        Value { unit: 0, body: Body::Int(val) }
    }
}

impl vstd::std_specs::convert::FromSpecImpl<i32> for Value {
    open spec fn obeys_from_spec() -> bool {
        false
    }

    open spec fn from_spec(v: i32) -> Value {
        arbitrary()
    }
}

/// Value from bool.
impl From<bool> for Value {
    fn from(val: bool) -> (r: Value)
        ensures
            r@ == Model::plain(Content::Bool(val)),
    {
        Value { unit: 0, body: Body::Bool(val) }
    }
}

impl vstd::std_specs::convert::FromSpecImpl<bool> for Value {
    open spec fn obeys_from_spec() -> bool {
        false
    }

    open spec fn from_spec(v: bool) -> Value {
        arbitrary()
    }
}

/// Value from string.
impl<'a> From<&'a str> for Value {
    fn from(val: &'a str) -> (r: Value)
        ensures
            r@ == Model::text(UNIT_STRING, val@),
    {
        Value { unit: UNIT_STRING, body: Body::Text(String::from_str(val)) }
    }
}

impl<'a> vstd::std_specs::convert::FromSpecImpl<&'a str> for Value {
    open spec fn obeys_from_spec() -> bool {
        false
    }

    open spec fn from_spec(v: &'a str) -> Value {
        arbitrary()
    }
}

/// Value from string.
impl From<String> for Value {
    fn from(val: String) -> (r: Value)
        ensures
            r@ == Model::text(UNIT_STRING, val@),
    {
        Value { unit: UNIT_STRING, body: Body::Text(val) }
    }
}

impl vstd::std_specs::convert::FromSpecImpl<String> for Value {
    open spec fn obeys_from_spec() -> bool {
        false
    }

    open spec fn from_spec(v: String) -> Value {
        arbitrary()
    }
}

/// Value from binary array (sequence of bytes).
impl<'a> From<&'a [u8]> for Value {
    fn from(val: &'a [u8]) -> (r: Value)
        ensures
            r@ == Model::plain(Content::Bytes(val@)),
    {
        Value { unit: 0, body: Body::Bytes(vstd::slice::slice_to_vec(val)) }
    }
}

impl<'a> vstd::std_specs::convert::FromSpecImpl<&'a [u8]> for Value {
    open spec fn obeys_from_spec() -> bool {
        false
    }

    open spec fn from_spec(v: &'a [u8]) -> Value {
        arbitrary()
    }
}

/// Compare two values; see [`Value::equals`].
impl PartialEq for Value {
    fn eq(&self, other: &Self) -> (r: bool)
        ensures
            r == self@.equals(other@),
    {
        self.equals(other)
    }
}

impl vstd::std_specs::cmp::PartialEqSpecImpl for Value {
    open spec fn obeys_eq_spec() -> bool {
        true
    }

    open spec fn eq_spec(&self, other: &Value) -> bool {
        self@.equals(other@)
    }
}

impl Value {
    /// Puts `src` at `index` of `items`: in place of the element there, or
    /// behind as many `undefined` elements as it takes to reach that place.
    fn put_item(items: &mut Vec<Value>, index: usize, src: Value)
        ensures
            models(final(items)@) == put(models(old(items)@), index as int, src@),
    {
        let ghost before = items@;
        if index < items.len() {
            items.set(index, src);
            assert(models(items@) =~= put(models(before), index as int, src@));
        } else {
            while items.len() < index
                invariant
                    before.len() <= items.len() <= index,
                    forall|j: int| 0 <= j < before.len() ==> items[j] == before[j],
                    forall|j: int| before.len() <= j < items.len() ==> items[j]@ == Model::undefined(),
                decreases index - items.len(),
            {
                items.push(Value::new());
            }
            items.push(src);
            assert(models(items@) =~= put(models(before), index as int, src@));
        }
    }

    /// Insert or set value at given `index`.
    ///
    /// An array takes the value at that place, and grows by `undefined`
    /// elements where the place lies behind its end. A map takes it as the
    /// value of the pair at that place, if it has one. Any other value becomes
    /// an array first, with an identity that is drawn from `ids`. An index
    /// beyond [`INDEX_MAX`] changes nothing.
    pub fn set(&mut self, ids: &mut Identities, index: usize, src: Value)
        requires
            old(ids)@ < u64::MAX,
        ensures
            final(self)@ == old(self)@.set(index as int, src@, old(ids)@),
            final(ids)@ == if old(self)@.set_makes_array(index as int) {
                (old(ids)@ + 1) as u64
            } else {
                old(ids)@
            },
    {
        if index > INDEX_MAX {
            return ;
        }
        let mut body = Body::Undefined;
        std::mem::swap(&mut self.body, &mut body);
        let ghost before = Value { unit: self.unit, body };
        match body {
            Body::Array(identity, items) => {
                let mut items = items;
                Value::put_item(&mut items, index, src);
                self.body = Body::Array(identity, items);
                proof {
                    lemma_array_view(before);
                    lemma_array_view(*self);
                }
            },
            Body::Pairs(identity, pairs) => {
                let mut pairs = pairs;
                if index < pairs.len() {
                    let key = pairs[index].key.clone();
                    pairs.set(index, Entry { key, value: src });
                }
                self.body = Body::Pairs(identity, pairs);
                proof {
                    lemma_pairs_view(before);
                    lemma_pairs_view(*self);
                    let p = pair_models(before.body->Pairs_1@);
                    if index < p.len() {
                        assert(pair_models(pairs@) =~= p.update(index as int, (p[index as int].0, src@)));
                    } else {
                        assert(pair_models(pairs@) =~= p);
                    }
                }
            },
            _ => {
                let mut items: Vec<Value> = Vec::new();
                Value::put_item(&mut items, index, src);
                self.unit = 0;
                self.body = Body::Array(ids.draw(), items);
                proof {
                    lemma_array_view(*self);
                    assert(models(Seq::<Value>::empty()) =~= Seq::<Model>::empty());
                }
            },
        }
    }

    /// Append value to the end of an array; a value that is no array and no
    /// map becomes an array of that one element, with an identity that is
    /// drawn from `ids`.
    pub fn push(&mut self, ids: &mut Identities, src: Value)
        requires
            old(ids)@ < u64::MAX,
        ensures
            final(self)@ == old(self)@.push(src@, old(ids)@),
            final(ids)@ == if old(self)@.is_composite() {
                old(ids)@
            } else {
                (old(ids)@ + 1) as u64
            },
    {
        let at = self.len();
        self.set(ids, at, src);
    }

    /// Insert or set value of sub-element by key.
    ///
    /// A map takes the value in place of the one that the key had, or as a new
    /// pair at its end. Any other value becomes a map of that one pair, with
    /// an identity that is drawn from `ids`.
    pub fn set_item(&mut self, ids: &mut Identities, key: Value, value: Value)
        requires
            old(ids)@ < u64::MAX,
        ensures
            final(self)@ == old(self)@.set_item(key@, value@, old(ids)@),
            final(ids)@ == if old(self)@.content is Pairs {
                old(ids)@
            } else {
                (old(ids)@ + 1) as u64
            },
    {
        let mut body = Body::Undefined;
        std::mem::swap(&mut self.body, &mut body);
        let ghost before = Value { unit: self.unit, body };
        match body {
            Body::Pairs(identity, pairs) => {
                let mut pairs = pairs;
                let at = Value::find_key(&pairs, &key);
                if at < pairs.len() {
                    let kept = pairs[at].key.clone();
                    pairs.set(at, Entry { key: kept, value });
                } else {
                    pairs.push(Entry { key, value });
                }
                self.body = Body::Pairs(identity, pairs);
                proof {
                    lemma_pairs_view(before);
                    lemma_pairs_view(*self);
                    let p = pair_models(before.body->Pairs_1@);
                    if at < p.len() {
                        assert(pair_models(pairs@) =~= p.update(at as int, (p[at as int].0, value@)));
                    } else {
                        assert(pair_models(pairs@) =~= p.push((key@, value@)));
                    }
                }
            },
            _ => {
                let mut pairs: Vec<Entry> = Vec::new();
                pairs.push(Entry { key, value });
                self.unit = 0;
                self.body = Body::Pairs(ids.draw(), pairs);
                proof {
                    lemma_pairs_view(*self);
                    assert(pair_models(pairs@) =~= seq![(key@, value@)]);
                }
            },
        }
    }
}

impl Value {
    /// Make a float value from the bits of a double float.
    pub fn float(bits: u64) -> (r: Value)
        ensures
            r@ == Model::plain(Content::Float(bits)),
    {
        Value { unit: 0, body: Body::Float(bits) }
    }

    /// Make a duration value, in seconds, from the bits of a double float.
    pub fn duration(bits: u64) -> (r: Value)
        ensures
            r@ == Model::plain(Content::Duration(bits)),
    {
        Value { unit: 0, body: Body::Duration(bits) }
    }

    /// Make an angle value, in radians, from the bits of a double float.
    pub fn angle(bits: u64) -> (r: Value)
        ensures
            r@ == Model::plain(Content::Angle(bits)),
    {
        Value { unit: 0, body: Body::Angle(bits) }
    }

    /// Make a length value from the bits of a double float and its unit.
    pub fn length(bits: u64, unit: u32) -> (r: Value)
        ensures
            r@ == (Model { unit, content: Content::Length(bits) }),
    {
        Value { unit, body: Body::Length(bits) }
    }

    /// Make a value of a type that only the engine can look into, from the
    /// eight bytes that the engine gave for it.
    pub fn foreign(kind: Foreign, unit: u32, data: u64) -> (r: Value)
        ensures
            r@ == (Model { unit, content: Content::Foreign(kind, data) }),
    {
        Value { unit, body: Body::Foreign(kind, data) }
    }

    /// The eight bytes of the engine's that the value carries, and their type.
    pub fn to_foreign(&self) -> (r: Option<(Foreign, u64)>)
        ensures
            r == (match self@.content {
                Content::Foreign(kind, data) => Some((kind, data)),
                _ => None,
            }),
    {
        match &self.body {
            Body::Foreign(kind, data) => Some((*kind, *data)),
            _ => None,
        }
    }

    /// The value with another unit tag.
    pub fn with_unit(self, unit: u32) -> (r: Value)
        ensures
            r@ == (Model { unit, content: self@.content }),
    {
        let r = Value { unit, body: self.body };
        proof {
            if self.body is Array {
                lemma_array_view(self);
                lemma_array_view(r);
            } else if self.body is Pairs {
                lemma_pairs_view(self);
                lemma_pairs_view(r);
            }
        }
        r
    }

    /// Value to float, by its bits: `Some` for a float and for an integer (the
    /// float that is equal to it), `None` for a value of any other type.
    pub fn to_float(&self) -> (r: Option<u64>)
        ensures
            r == self@.to_float(),
    {
        match &self.body {
            Body::Float(bits) => Some(*bits),
            Body::Int(i) => Some(int_to_float_bits(*i)),
            _ => None,
        }
    }

    /// Value to length, a float by its bits: `Some` for a length, `None` for a
    /// value of any other type. The unit of the length is the unit of the value.
    pub fn to_length(&self) -> (r: Option<u64>)
        ensures
            r == self@.to_length(),
    {
        match &self.body {
            Body::Length(bits) => Some(*bits),
            _ => None,
        }
    }

    /// Value to duration, a float by its bits: `Some` for a duration, `None`
    /// for a value of any other type.
    pub fn to_duration(&self) -> (r: Option<u64>)
        ensures
            r == self@.to_duration(),
    {
        match &self.body {
            Body::Duration(bits) => Some(*bits),
            _ => None,
        }
    }

    /// Value to angle, a float by its bits: `Some` for an angle, `None` for a
    /// value of any other type.
    pub fn to_angle(&self) -> (r: Option<u64>)
        ensures
            r == self@.to_angle(),
    {
        match &self.body {
            Body::Angle(bits) => Some(*bits),
            _ => None,
        }
    }

    /// Copies the value into `dst`, whatever `dst` held.
    pub fn pack_to(&self, dst: &mut Value)
        ensures
            final(dst)@ == self@,
    {
        *dst = self.clone();
    }

    /// Copies of the arguments of a call, in their order. What is handed to a
    /// call is always a copy: the caller keeps its values.
    pub fn pack_args(args: &[Value]) -> (argv: Vec<Value>)
        ensures
            models(argv@) == models(args@),
    {
        let argc = args.len();
        let mut argv: Vec<Value> = Vec::new();
        let mut i: usize = 0;
        while i < argc
            invariant
                argc == args.len(),
                i <= argc,
                argv.len() == i,
                forall|j: int| 0 <= j < i ==> argv[j]@ == args[j]@,
            decreases argc - i,
        {
            let mut slot = Value::new();
            args[i].pack_to(&mut slot);
            argv.push(slot);
            i = i + 1;
        }
        assert(models(argv@) =~= models(args@));
        argv
    }

    /// Owned copies of the arguments that a call came with, in their order. The
    /// arguments themselves are only lent for the time of the call.
    pub fn unpack_from(args: &[Value]) -> (argv: Vec<Value>)
        ensures
            models(argv@) == models(args@),
    {
        let mut argv: Vec<Value> = Vec::new();
        let mut i: usize = 0;
        while i < args.len()
            invariant
                i <= args.len(),
                argv.len() == i,
                forall|j: int| 0 <= j < i ==> argv[j]@ == args[j]@,
            decreases args.len() - i,
        {
            let v = args[i].clone();
            argv.push(v);
            i = i + 1;
        }
        assert(models(argv@) =~= models(args@));
        argv
    }
}

/// All that the engine is handed to invoke a function value.
pub struct Invocation {
    /// The function to call.
    pub function: Value,
    /// The object that is `this` inside the function; `undefined` for a
    /// global function.
    pub this: Value,
    /// Copies of the arguments.
    pub argv: Vec<Value>,
    /// An url or a name of the script, for the engine's error reports.
    pub name: String,
}

impl Value {
    /// Function invocation, its first half: what the engine is to be handed.
    ///
    /// The function held by `self` is to be called with the context of `this`
    /// (it is optional for global functions) and with copies of `args`. `name`
    /// is an url or a name of the script, used for error reporting in the
    /// script; it is empty where none is given.
    pub fn call(&self, this: Option<Value>, args: &[Value], name: Option<&str>) -> (r: Invocation)
        ensures
            r.function@ == self@,
            r.this@ == (match this {
                Some(t) => t@,
                None => Model::undefined(),
            }),
            models(r.argv@) == models(args@),
            r.name@ == (match name {
                Some(n) => n@,
                None => Seq::<char>::empty(),
            }),
    {
        let argv = Value::pack_args(args);
        let this = match this {
            Some(t) => t,
            None => Value::new(),
        };
        let name = match name {
            Some(n) => String::from_str(n),
            None => String::new(),
        };
        Invocation { function: self.clone(), this, argv, name }
    }
}

impl Invocation {
    /// Function invocation, its second half: what the caller gets once the
    /// engine has answered with `ok` and the returned value `rv`.
    ///
    /// A call that the engine could not make gives its error code. A call that
    /// was made gives the returned value, also where the script failed and
    /// the value is an error value.
    pub fn complete<T>(ok: VALUE_RESULT, rv: T) -> (r: Result<T, VALUE_RESULT>)
        ensures
            ok == VALUE_RESULT::OK ==> r == Ok::<T, VALUE_RESULT>(rv),
            ok != VALUE_RESULT::OK ==> r == Err::<T, VALUE_RESULT>(ok),
    {
        match ok {
            VALUE_RESULT::OK => Ok(rv),
            _ => Err(ok),
        }
    }
}

/// The claim of a cell on what it holds in the engine.
///
/// A cell that the engine has written to holds one reference to what the
/// engine keeps for it, and that reference is to be released by the engine's
/// `clear` once: when the cell is cleared, or when it is dropped, whichever
/// comes first. A cell that was handed over into storage of the engine's has
/// no claim any more, and is never cleared. The claim keeps account of this:
/// it is asked before every `clear`, and it says whether the `clear` is due.
#[derive(Debug)]
pub struct Claim {
    held: bool,
}

impl View for Claim {
    type V = bool;

    /// Whether the cell holds a reference that is still to be released.
    closed spec fn view(&self) -> bool {
        self.held
    }
}

impl Claim {
    /// The claim of a cell that the engine has just written to, by its `init`
    /// or `copy`: one reference, to be released.
    pub fn taken() -> (r: Claim)
        ensures
            r@,
    {
        Claim { held: true }
    }

    /// The engine writes to the cell again: the cell holds a reference again.
    pub fn take(&mut self)
        ensures
            final(self)@,
    {
        self.held = true;
    }

    /// The cell is cleared or dropped: whether the engine's `clear` is due.
    /// It is due where the reference is still held, and the reference is
    /// released with it.
    pub fn release(&mut self) -> (due: bool)
        ensures
            due == old(self)@,
            !final(self)@,
    {
        let due = self.held;
        self.held = false;
        due
    }

    /// The cell was moved into storage of the engine's: it is the engine's to
    /// release, and no `clear` of this cell is due any more.
    pub fn hand_over(&mut self)
        ensures
            !final(self)@,
    {
        self.held = false;
    }
}

/// How many times the engine's `clear` is due in `n` releases of a claim, one
/// after another.
pub open spec fn spec_clears_due(held: bool, n: nat) -> nat
    decreases n,
{
    if n == 0 {
        0
    } else if held {
        1 + spec_clears_due(false, (n - 1) as nat)
    } else {
        spec_clears_due(false, (n - 1) as nat)
    }
}

/// A reference is released exactly once: however often a cell that holds one
/// is cleared and dropped, the engine's `clear` is due once, at the first time;
/// and for a cell that holds none, it is never due.
pub proof fn lemma_cleared_once(held: bool, n: nat)
    ensures
        spec_clears_due(held, n) == if held && n > 0 {
            1nat
        } else {
            0nat
        },
    decreases n,
{
    if n > 0 {
        lemma_cleared_once(false, (n - 1) as nat);
    }
}

/// The result of a checked conversion, from what the engine answered: what
/// was read where the engine reports success, and nothing where the type of
/// the value does not allow the conversion.
pub fn checked<T>(ok: VALUE_RESULT, val: T) -> (r: Option<T>)
    ensures
        ok == VALUE_RESULT::OK ==> r == Some(val),
        ok != VALUE_RESULT::OK ==> r is None,
{
    match ok {
        VALUE_RESULT::OK => Some(val),
        _ => None,
    }
}

/// The result of a comparison, from what the engine answered: two values are
/// equal only where the engine says so.
pub fn compared(ok: VALUE_RESULT) -> (r: bool)
    ensures
        r == (ok == VALUE_RESULT::OK_TRUE),
{
    match ok {
        VALUE_RESULT::OK_TRUE => true,
        _ => false,
    }
}

/// The result of parsing a text of `length` characters into a value, from
/// what the engine answered: the number of characters that it left unparsed.
///
/// Where the whole text was taken, the result is the value. Where it was not,
/// the error is the offset of the character at which the parse failed: the
/// number of characters that were taken before it.
pub fn parsed<T>(length: u32, unparsed: u32, value: T) -> (r: Result<T, u32>)
    requires
        unparsed <= length,
    ensures
        unparsed == 0 ==> r == Ok::<T, u32>(value),
        unparsed != 0 ==> r == Err::<T, u32>((length - unparsed) as u32),
{
    if unparsed == 0 {
        Ok(value)
    } else {
        Err(length - unparsed)
    }
}

/// Helper trait: a type that can be read out of a value.
pub trait FromValue: Sized {
    /// Whether a value that holds `m` converts to this type.
    spec fn accepts(m: Model) -> bool;

    /// Whether `out` is what a value that holds `m` converts to.
    spec fn yields(m: Model, out: Self) -> bool;

    /// Converts value to specified type.
    fn from_value(v: &Value) -> (r: Option<Self>)
        ensures
            r is Some == Self::accepts(v@),
            r matches Some(out) ==> Self::yields(v@, out),
    ;
}

impl FromValue for Value {
    open spec fn accepts(m: Model) -> bool {
        true
    }

    open spec fn yields(m: Model, out: Value) -> bool {
        out@ == m
    }

    fn from_value(v: &Value) -> (r: Option<Value>)
        ensures
            r matches Some(c) && c@ == v@,
    {
        Some(v.clone())
    }
}

impl FromValue for bool {
    open spec fn accepts(m: Model) -> bool {
        m.to_bool() is Some
    }

    open spec fn yields(m: Model, out: bool) -> bool {
        m.to_bool() == Some(out)
    }

    fn from_value(v: &Value) -> (r: Option<bool>)
        ensures
            r == v@.to_bool(),
    {
        v.to_bool()
    }
}

impl FromValue for i32 {
    open spec fn accepts(m: Model) -> bool {
        m.to_int() is Some
    }

    open spec fn yields(m: Model, out: i32) -> bool {
        m.to_int() == Some(out)
    }

    fn from_value(v: &Value) -> (r: Option<i32>)
        ensures
            r == v@.to_int(),
    {
        v.to_int()
    }
}

impl FromValue for Vec<u8> {
    open spec fn accepts(m: Model) -> bool {
        m.as_bytes() is Some
    }

    open spec fn yields(m: Model, out: Vec<u8>) -> bool {
        m.as_bytes() == Some(out@)
    }

    fn from_value(v: &Value) -> (r: Option<Vec<u8>>)
        ensures
            r matches Some(b) ==> v@.as_bytes() == Some(b@),
    {
        v.to_bytes()
    }
}

impl FromValue for String {
    open spec fn accepts(m: Model) -> bool {
        m.as_string() is Some
    }

    open spec fn yields(m: Model, out: String) -> bool {
        m.as_string() == Some(out@)
    }

    fn from_value(v: &Value) -> (r: Option<String>)
        ensures
            r matches Some(s) ==> v@.as_string() == Some(s@),
    {
        v.as_string()
    }
}

/// The name of a type in lower case, as a value is labelled with it.
pub open spec fn type_label(t: VALUE_TYPE) -> Seq<char> {
    match t {
        VALUE_TYPE::T_UNDEFINED => "undefined"@,
        VALUE_TYPE::T_NULL => "null"@,
        VALUE_TYPE::T_BOOL => "bool"@,
        VALUE_TYPE::T_INT => "int"@,
        VALUE_TYPE::T_FLOAT => "float"@,
        VALUE_TYPE::T_STRING => "string"@,
        VALUE_TYPE::T_DATE => "date"@,
        VALUE_TYPE::T_CURRENCY => "currency"@,
        VALUE_TYPE::T_LENGTH => "length"@,
        VALUE_TYPE::T_ARRAY => "array"@,
        VALUE_TYPE::T_MAP => "map"@,
        VALUE_TYPE::T_FUNCTION => "function"@,
        VALUE_TYPE::T_BYTES => "bytes"@,
        VALUE_TYPE::T_OBJECT => "object"@,
        VALUE_TYPE::T_DOM_OBJECT => "dom_object"@,
        VALUE_TYPE::T_RESOURCE => "resource"@,
        VALUE_TYPE::T_RANGE => "range"@,
        VALUE_TYPE::T_DURATION => "duration"@,
        VALUE_TYPE::T_ANGLE => "angle"@,
        VALUE_TYPE::T_COLOR => "color"@,
        VALUE_TYPE::T_ENUM => "enum"@,
        VALUE_TYPE::T_ASSET => "asset"@,
        VALUE_TYPE::T_UNKNOWN => "unknown"@,
    }
}

/// The name of a string's sub-type, or its number where it has no name.
pub open spec fn string_unit_label(unit: u32) -> Seq<char> {
    if unit == 0xfffe {
        "file"@
    } else if unit == 0xffff {
        "symbol"@
    } else if unit == 0 {
        "string"@
    } else if unit == 1 {
        "error"@
    } else if unit == 2 {
        "secure"@
    } else {
        decimal(unit as nat)
    }
}

/// The name of an object's sub-type, or its number where it has no name.
pub open spec fn object_unit_label(unit: u32) -> Seq<char> {
    if unit == 0 {
        "array"@
    } else if unit == 1 {
        "object"@
    } else if unit == 2 {
        "class"@
    } else if unit == 3 {
        "native"@
    } else if unit == 4 {
        "function"@
    } else if unit == 5 {
        "error"@
    } else {
        decimal(unit as nat)
    }
}

impl Model {
    /// The label of the value's type: the type's name, and behind a colon the
    /// sub-type of a string that is not a plain one, and of an object.
    pub open spec fn label(self) -> Seq<char> {
        let t = self.kind();
        if t == VALUE_TYPE::T_STRING && self.unit != 0 {
            type_label(t) + ":"@ + string_unit_label(self.unit)
        } else if t == VALUE_TYPE::T_OBJECT {
            type_label(t) + ":"@ + object_unit_label(self.unit)
        } else {
            type_label(t)
        }
    }

    /// The value with its type showed: for `undefined` and `null` their name,
    /// for any other value its label, a colon and the value's own text.
    pub open spec fn debug_text(self, json: Seq<char>) -> Seq<char> {
        let t = self.kind();
        if t == VALUE_TYPE::T_UNDEFINED || t == VALUE_TYPE::T_NULL {
            type_label(t)
        } else {
            self.label() + ":"@ + json
        }
    }
}

/// The name of a type in lower case.
fn type_label_str(t: VALUE_TYPE) -> (s: &'static str)
    ensures
        s@ == type_label(t),
{
    match t {
        VALUE_TYPE::T_UNDEFINED => "undefined",
        VALUE_TYPE::T_NULL => "null",
        VALUE_TYPE::T_BOOL => "bool",
        VALUE_TYPE::T_INT => "int",
        VALUE_TYPE::T_FLOAT => "float",
        VALUE_TYPE::T_STRING => "string",
        VALUE_TYPE::T_DATE => "date",
        VALUE_TYPE::T_CURRENCY => "currency",
        VALUE_TYPE::T_LENGTH => "length",
        VALUE_TYPE::T_ARRAY => "array",
        VALUE_TYPE::T_MAP => "map",
        VALUE_TYPE::T_FUNCTION => "function",
        VALUE_TYPE::T_BYTES => "bytes",
        VALUE_TYPE::T_OBJECT => "object",
        VALUE_TYPE::T_DOM_OBJECT => "dom_object",
        VALUE_TYPE::T_RESOURCE => "resource",
        VALUE_TYPE::T_RANGE => "range",
        VALUE_TYPE::T_DURATION => "duration",
        VALUE_TYPE::T_ANGLE => "angle",
        VALUE_TYPE::T_COLOR => "color",
        VALUE_TYPE::T_ENUM => "enum",
        VALUE_TYPE::T_ASSET => "asset",
        VALUE_TYPE::T_UNKNOWN => "unknown",
    }
}

/// Appends the name of a string's sub-type, or its number.
fn append_string_unit(out: &mut String, unit: u32)
    ensures
        final(out)@ == old(out)@ + string_unit_label(unit),
{
    if unit == 0xfffe {
        out.append("file");
    } else if unit == 0xffff {
        out.append("symbol");
    } else if unit == 0 {
        out.append("string");
    } else if unit == 1 {
        out.append("error");
    } else if unit == 2 {
        out.append("secure");
    } else {
        append_decimal(out, unit as u64);
    }
}

/// Appends the name of an object's sub-type, or its number.
fn append_object_unit(out: &mut String, unit: u32)
    ensures
        final(out)@ == old(out)@ + object_unit_label(unit),
{
    if unit == 0 {
        out.append("array");
    } else if unit == 1 {
        out.append("object");
    } else if unit == 2 {
        out.append("class");
    } else if unit == 3 {
        out.append("native");
    } else if unit == 4 {
        out.append("function");
    } else if unit == 5 {
        out.append("error");
    } else {
        append_decimal(out, unit as u64);
    }
}

impl Value {
    /// The label of the value's type: the type's name in lower case, and behind
    /// a colon the sub-type of a string that is not a plain one, and of an
    /// object.
    pub fn type_label(&self) -> (s: String)
        ensures
            s@ == self@.label(),
    {
        let t = self.get_type();
        let mut s = String::from_str(type_label_str(t));
        if t == VALUE_TYPE::T_STRING && self.unit != 0 {
            s.append(":");
            append_string_unit(&mut s, self.unit);
            assert(s@ =~= self@.label());
        } else if t == VALUE_TYPE::T_OBJECT {
            s.append(":");
            append_object_unit(&mut s, self.unit);
            assert(s@ =~= self@.label());
        }
        s
    }

    /// Print the value with its type showed explicitly. `json` is the text
    /// of the value itself, as the engine writes it.
    pub fn debug_string(&self, json: &str) -> (s: String)
        ensures
            s@ == self@.debug_text(json@),
    {
        if self.is_undefined() || self.is_null() {
            return String::from_str(type_label_str(self.get_type()));
        }
        let mut s = self.type_label();
        s.append(":");
        s.append(json);
        s
    }
}

/// A value made from a boolean gives that boolean back, and gives it as the
/// integer 1 or 0.
pub proof fn lemma_bool_round_trip(v: Value, x: bool)
    requires
        v@ == Model::plain(Content::Bool(x)),
    ensures
        v@.to_bool() == Some(x),
        v@.to_int() == Some(if x { 1i32 } else { 0i32 }),
        v@.kind() == VALUE_TYPE::T_BOOL,
{
}

/// A value made from an integer gives that integer back, gives whether it is
/// not zero as a boolean, and gives the float that is equal to it.
pub proof fn lemma_int_round_trip(v: Value, x: i32)
    requires
        v@ == Model::plain(Content::Int(x)),
    ensures
        v@.to_int() == Some(x),
        v@.to_bool() == Some(x != 0),
        v@.to_float() == Some(float_of_int(x)),
        v@.kind() == VALUE_TYPE::T_INT,
{
}

/// A value made from a float gives the bits of that float back, and gives no
/// integer.
pub proof fn lemma_float_round_trip(v: Value, bits: u64)
    requires
        v@ == Model::plain(Content::Float(bits)),
    ensures
        v@.to_float() == Some(bits),
        v@.to_int() is None,
        v@.kind() == VALUE_TYPE::T_FLOAT,
{
}

/// A value made from a string gives the characters of that string back,
/// whatever its sub-type.
pub proof fn lemma_string_round_trip(v: Value, unit: u32, chars: Seq<char>)
    requires
        v@ == Model::text(unit, chars),
    ensures
        v@.as_string() == Some(chars),
        v@.kind() == VALUE_TYPE::T_STRING,
{
}

/// A value made from bytes gives those bytes back.
pub proof fn lemma_bytes_round_trip(v: Value, bytes: Seq<u8>)
    requires
        v@ == Model::plain(Content::Bytes(bytes)),
    ensures
        v@.as_bytes() == Some(bytes),
        v@.kind() == VALUE_TYPE::T_BYTES,
{
}

/// A conversion gives `None` exactly where the type tag does not allow it:
/// an integer and a boolean are asked of an integer or a boolean, a float of
/// a float or an integer, a string of a string, bytes of a byte string.
pub proof fn lemma_conversions_are_checked(m: Model)
    ensures
        m.to_int() is Some <==> m.kind() == VALUE_TYPE::T_INT || m.kind() == VALUE_TYPE::T_BOOL,
        m.to_bool() is Some <==> m.kind() == VALUE_TYPE::T_INT || m.kind() == VALUE_TYPE::T_BOOL,
        m.to_float() is Some <==> m.kind() == VALUE_TYPE::T_FLOAT || m.kind() == VALUE_TYPE::T_INT,
        m.as_string() is Some <==> m.kind() == VALUE_TYPE::T_STRING,
        m.as_bytes() is Some <==> m.kind() == VALUE_TYPE::T_BYTES,
        m.to_color() is Some <==> m.kind() == VALUE_TYPE::T_COLOR,
        m.to_duration() is Some <==> m.kind() == VALUE_TYPE::T_DURATION,
        m.to_angle() is Some <==> m.kind() == VALUE_TYPE::T_ANGLE,
{
}

/// What was put at an index is found there again, and an array is as long
/// as its highest index asks for.
pub proof fn lemma_set_then_get(m: Model, index: int, src: Model, fresh: u64)
    requires
        0 <= index <= INDEX_MAX,
        !(m.content is Pairs),
    ensures
        m.set(index, src, fresh).get(index) == src,
        m.set(index, src, fresh).kind() == VALUE_TYPE::T_ARRAY,
        m.content is Array ==> m.set(index, src, fresh).len() == if index < m.len() {
            m.len()
        } else {
            (index + 1) as nat
        },
        !(m.content is Array) ==> m.set(index, src, fresh).len() == index + 1,
{
}

/// To be the same key is an equivalence among the values that are no arrays
/// and no maps: every such value is the same key as itself, and it does not
/// matter from which side two keys are held against each other, nor through
/// which third key.
pub proof fn lemma_same_key_is_equivalence(a: Model, b: Model, c: Model)
    ensures
        !a.is_composite() ==> a.same_key(a),
        a.same_key(b) ==> b.same_key(a),
        a.same_key(b) && b.same_key(c) ==> a.same_key(c),
        a.is_composite() ==> !a.same_key(b) && !b.same_key(a),
{
}

/// What was appended to an array is its last element, the array is longer by
/// one, and the elements before are what they were.
pub proof fn lemma_push(m: Model, src: Model, index: int, fresh: u64)
    requires
        m.content is Array,
        m.len() <= INDEX_MAX,
        0 <= index < m.len(),
    ensures
        m.push(src, fresh).len() == m.len() + 1,
        m.push(src, fresh).get(m.len() as int) == src,
        m.push(src, fresh).get(index) == m.get(index),
        m.push(src, fresh).unit == m.unit,
{
}

/// What was stored under a key is found under it again, and the map grows by
/// one pair exactly where the key is new. A key is any value but an array or a
/// map.
pub proof fn lemma_set_item_then_get_item(m: Model, key: Model, value: Model, fresh: u64)
    requires
        !key.is_composite(),
    ensures
        m.set_item(key, value, fresh).get_item(key) == value,
        m.set_item(key, value, fresh).kind() == VALUE_TYPE::T_MAP,
        m.content is Pairs ==> m.set_item(key, value, fresh).len() == if key_position(
            m.content->Pairs_1,
            key,
        ) < m.len() {
            m.len()
        } else {
            m.len() + 1
        },
        !(m.content is Pairs) ==> m.set_item(key, value, fresh).len() == 1,
{
    match m.content {
        Content::Pairs(_, pairs) => {
            lemma_key_position_is_first(pairs, key);
            let at = key_position(pairs, key);
            let after = m.set_item(key, value, fresh).content->Pairs_1;
            if at < pairs.len() {
                assert(after[at].0.same_key(key));
            } else {
                assert(after[at] == (key, value));
                assert(key.same_key(key));
            }
            assert forall|j: int| 0 <= j < at implies !after[j].0.same_key(key) by {
                assert(after[j] == pairs[j]);
            }
            lemma_key_position(after, key, at);
        },
        _ => {
            let after = seq![(key, value)];
            assert(after[0].0.same_key(key));
            lemma_key_position(after, key, 0);
        },
    }
}

/// Storing under one key leaves what is found under any other key.
pub proof fn lemma_set_item_keeps_others(m: Model, key: Model, value: Model, other: Model, fresh: u64)
    requires
        m.content is Pairs,
        !key.is_composite(),
        !other.same_key(key),
        !key.same_key(other),
    ensures
        m.set_item(key, value, fresh).get_item(other) == m.get_item(other),
{
    let pairs = m.content->Pairs_1;
    lemma_key_position_is_first(pairs, key);
    lemma_key_position_is_first(pairs, other);
    let at = key_position(pairs, key);
    let was = key_position(pairs, other);
    let after = m.set_item(key, value, fresh).content->Pairs_1;
    assert forall|j: int| 0 <= j < after.len() implies after[j].0.same_key(other) == (j
        < pairs.len() && pairs[j].0.same_key(other)) by {
        if j < pairs.len() && j != at {
            assert(after[j] == pairs[j]);
        }
    }
    if was < pairs.len() {
        assert(after[was] == pairs[was]);
        lemma_key_position(after, other, was);
    } else {
        lemma_key_position(after, other, after.len() as int);
    }
}

/// Equality is an equivalence: every value is equal to itself, and so to each
/// of its copies, which have its view; it does not matter from which side two
/// values are compared, nor through which third value.
pub proof fn lemma_equals_is_equivalence(a: Model, b: Model, c: Model)
    ensures
        a.equals(a),
        a.equals(b) ==> b.equals(a),
        a.equals(b) && b.equals(c) ==> a.equals(c),
{
}

/// An array or a map is compared by its identity, not by what it holds: it is
/// equal to a value exactly where that value is of its kind and has its
/// identity.
pub proof fn lemma_composites_compare_by_identity(a: Model, b: Model)
    requires
        a.is_composite(),
    ensures
        a.equals(b) == (a.kind() == b.kind() && a.identity() == b.identity()),
        b.equals(a) == a.equals(b),
{
}

/// Two arrays or maps that were made apart with one source are not equal,
/// whatever they hold: what gets its identity once the source stands at
/// `bound` is not equal to anything that got its identity before.
pub proof fn lemma_made_apart_is_unequal(earlier: Model, later: Model, bound: u64)
    requires
        earlier.is_composite(),
        earlier.drawn_below(bound),
        later.identity() matches Some(identity) && identity >= bound,
    ensures
        !earlier.equals(later),
        !later.equals(earlier),
{
}

/// An array or a map that was detached from its storage holds what it held,
/// and is no longer equal to its copies of before: to nothing that was equal
/// to it and got its identity before the source stood at `fresh`.
pub proof fn lemma_isolated_is_apart(m: Model, copy: Model, fresh: u64, index: int)
    requires
        m.is_composite(),
        m.drawn_below(fresh),
        copy.equals(m),
    ensures
        !m.isolated(fresh).equals(copy),
        !copy.equals(m.isolated(fresh)),
        m.isolated(fresh).equals(m.isolated(fresh)),
        m.isolated(fresh).kind() == m.kind(),
        m.isolated(fresh).unit == m.unit,
        m.isolated(fresh).len() == m.len(),
        m.isolated(fresh).get(index) == m.get(index),
        m.isolated(fresh).key(index) == m.key(index),
{
}

/// A function of the host that script can call: a closure in its box.
///
/// The engine holds the box by a tag and calls back through two functions:
/// one to invoke the closure, one to release the box when the last value
/// that refers to the function is cleared. After the release the closure is
/// gone, and there is nothing left that a second release could drop.
pub struct NativeFunctor<F> {
    functor: NativeHandler<F>,
}

impl<F: Fn(&[Value]) -> Value> NativeFunctor<F> {
    /// The closure, until the functor is released.
    pub closed spec fn functor(&self) -> Option<F> {
        self.functor@
    }

    /// Boxes a closure.
    pub fn wrap(f: F) -> (r: NativeFunctor<F>)
        ensures
            r.functor() == Some(f),
    {
        NativeFunctor { functor: NativeHandler::from(f) }
    }

    /// Whether the functor is released.
    pub fn is_released(&self) -> (r: bool)
        ensures
            r == self.functor() is None,
    {
        self.functor.is_null()
    }

    /// Invokes the closure with owned copies of the arguments, and packs what
    /// it returns into `retval`. The result is whether the closure was
    /// invoked: a released functor is not, and leaves `retval` as it was.
    pub fn invoke(&self, argv: &[Value], retval: &mut Value) -> (done: bool)
        requires
            self.functor() matches Some(f) ==> forall|a: &[Value]|
                models(a@) == models(argv@) ==> #[trigger] (&f).requires((a,)),
        ensures
            done == self.functor() is Some,
            !done ==> *final(retval) == *old(retval),
            done ==> exists|a: &[Value], r: Value|
                models(a@) == models(argv@) && #[trigger] (&self.functor()->0).ensures((a,), r)
                    && final(retval)@ == r@,
    {
        if self.functor.is_null() {
            return false;
        }
        let me = self.functor.as_ref();
        assert(self.functor() == Some(*me));
        assert forall|a: &[Value]| models(a@) == models(argv@) implies #[trigger] me.requires((a,)) by {
            assert((&self.functor()->0).requires((a,)));
        }
        _functor_invoke(me, argv, retval);
        proof {
            let (a, r) = choose|a: &[Value], r: Value|
                models(a@) == models(argv@) && #[trigger] me.ensures((a,), r) && retval@ == r@;
            assert((&self.functor()->0).ensures((a,), r));
        }
        true
    }

    /// Releases the box: the closure is dropped, if it is still there. The
    /// result is whether it was: a closure is dropped by the first release of
    /// its box, and by no later one.
    pub fn release(&mut self) -> (dropped: bool)
        ensures
            dropped == old(self).functor() is Some,
            final(self).functor() is None,
    {
        let dropped = !self.functor.is_null();
        self.functor.destroy();
        dropped
    }
}

/// The callback of the engine that releases a functor: the box is taken, and
/// with it the closure is dropped.
pub fn _functor_release<F>(tag: F) {
    // the box ends here, and the closure with it
    let boxed = tag;
}

/// The callback of the engine that invokes a functor.
///
/// The arguments are copied, so that the closure gets values of its own
/// while the engine lends its arguments only for the time of the call. What
/// the closure returns is packed into `retval`.
pub fn _functor_invoke<F: Fn(&[Value]) -> Value>(me: &F, argv: &[Value], retval: &mut Value)
    requires
        forall|a: &[Value]| models(a@) == models(argv@) ==> #[trigger] me.requires((a,)),
    ensures
        exists|a: &[Value], r: Value|
            models(a@) == models(argv@) && #[trigger] me.ensures((a,), r) && final(retval)@ == r@,
{
    let args = Value::unpack_from(argv);
    let a = args.as_slice();
    let rv = me(a);
    rv.pack_to(retval);
    assert(models(a@) == models(argv@) && me.ensures((a,), rv) && retval@ == rv@);
}

/// How the data of a value is read from the engine, and written to it.
#[derive(Clone, Copy, PartialEq, Eq, Structural, Debug)]
pub enum Reading {
    /// There is no data: the type says it all.
    Nothing,
    /// As an integer of 32 bits.
    Int,
    /// As a double float.
    Float,
    /// As a string.
    Text,
    /// As bytes.
    Bytes,
    /// Element by element.
    Items,
    /// Pair by pair.
    Pairs,
    /// Not at all: the eight bytes of the cell are carried as they are.
    Handle,
}

/// How the data of a value of the given type is read.
pub open spec fn spec_reading(kind: VALUE_TYPE) -> Reading {
    match kind {
        VALUE_TYPE::T_UNDEFINED | VALUE_TYPE::T_NULL => Reading::Nothing,
        VALUE_TYPE::T_BOOL | VALUE_TYPE::T_INT | VALUE_TYPE::T_COLOR => Reading::Int,
        VALUE_TYPE::T_FLOAT | VALUE_TYPE::T_DURATION | VALUE_TYPE::T_ANGLE | VALUE_TYPE::T_LENGTH => Reading::Float,
        VALUE_TYPE::T_STRING => Reading::Text,
        VALUE_TYPE::T_BYTES => Reading::Bytes,
        VALUE_TYPE::T_ARRAY => Reading::Items,
        VALUE_TYPE::T_MAP => Reading::Pairs,
        _ => Reading::Handle,
    }
}

/// How the data of a value of the given type is read.
pub fn reading(kind: VALUE_TYPE) -> (r: Reading)
    ensures
        r == spec_reading(kind),
{
    match kind {
        VALUE_TYPE::T_UNDEFINED | VALUE_TYPE::T_NULL => Reading::Nothing,
        VALUE_TYPE::T_BOOL | VALUE_TYPE::T_INT | VALUE_TYPE::T_COLOR => Reading::Int,
        VALUE_TYPE::T_FLOAT | VALUE_TYPE::T_DURATION | VALUE_TYPE::T_ANGLE | VALUE_TYPE::T_LENGTH => Reading::Float,
        VALUE_TYPE::T_STRING => Reading::Text,
        VALUE_TYPE::T_BYTES => Reading::Bytes,
        VALUE_TYPE::T_ARRAY => Reading::Items,
        VALUE_TYPE::T_MAP => Reading::Pairs,
        _ => Reading::Handle,
    }
}

/// The 32 bits of an unsigned number read as a signed one.
pub open spec fn spec_signed(c: u32) -> i32 {
    if c <= i32::MAX {
        c as i32
    } else {
        (c - 0x1_0000_0000) as i32
    }
}

/// The 32 bits of a signed number read as an unsigned one.
pub open spec fn spec_unsigned(i: i32) -> u32 {
    if i >= 0 {
        i as u32
    } else {
        (i + 0x1_0000_0000) as u32
    }
}

/// The 32 bits of an unsigned number read as a signed one.
fn signed(c: u32) -> (i: i32)
    ensures
        i == spec_signed(c),
{
    if c <= 0x7fff_ffff {
        c as i32
    } else {
        (c as i64 - 0x1_0000_0000) as i32
    }
}

/// The 32 bits of a signed number read as an unsigned one.
fn unsigned(i: i32) -> (c: u32)
    ensures
        c == spec_unsigned(i),
{
    if i >= 0 {
        i as u32
    } else {
        (i as i64 + 0x1_0000_0000) as u32
    }
}

/// The type whose eight bytes are carried as they are, for a type tag.
pub open spec fn spec_foreign(kind: VALUE_TYPE) -> Foreign {
    match kind {
        VALUE_TYPE::T_DATE => Foreign::Date,
        VALUE_TYPE::T_CURRENCY => Foreign::Currency,
        VALUE_TYPE::T_FUNCTION => Foreign::Function,
        VALUE_TYPE::T_OBJECT => Foreign::Object,
        VALUE_TYPE::T_DOM_OBJECT => Foreign::DomObject,
        VALUE_TYPE::T_RESOURCE => Foreign::Resource,
        VALUE_TYPE::T_RANGE => Foreign::Range,
        VALUE_TYPE::T_ENUM => Foreign::Enum,
        VALUE_TYPE::T_ASSET => Foreign::Asset,
        _ => Foreign::Unknown,
    }
}

impl Model {
    /// The integer that the engine holds for the value: 1 or 0 for a boolean,
    /// the integer itself, and the 32 bits of a color.
    pub open spec fn int_data(self) -> Option<i32> {
        match self.content {
            Content::Bool(b) => Some(if b { 1i32 } else { 0i32 }),
            Content::Int(i) => Some(i),
            Content::Color(c) => Some(spec_signed(c)),
            _ => None,
        }
    }

    /// The float that the engine holds for the value, by its bits: that of a
    /// float, a duration, an angle or a length.
    pub open spec fn float_data(self) -> Option<u64> {
        match self.content {
            Content::Float(bits) => Some(bits),
            Content::Duration(bits) => Some(bits),
            Content::Angle(bits) => Some(bits),
            Content::Length(bits) => Some(bits),
            _ => None,
        }
    }

    /// The value of the given type and unit that the engine holds the integer
    /// `data` for.
    pub open spec fn of_int(kind: VALUE_TYPE, unit: u32, data: i32) -> Model {
        Model {
            unit,
            content: match kind {
                VALUE_TYPE::T_BOOL => Content::Bool(data != 0),
                VALUE_TYPE::T_COLOR => Content::Color(spec_unsigned(data)),
                _ => Content::Int(data),
            },
        }
    }

    /// The value of the given type and unit that the engine holds the float
    /// with the bits `bits` for.
    pub open spec fn of_float(kind: VALUE_TYPE, unit: u32, bits: u64) -> Model {
        Model {
            unit,
            content: match kind {
                VALUE_TYPE::T_DURATION => Content::Duration(bits),
                VALUE_TYPE::T_ANGLE => Content::Angle(bits),
                VALUE_TYPE::T_LENGTH => Content::Length(bits),
                _ => Content::Float(bits),
            },
        }
    }

    /// The value of the given type and unit whose eight bytes are `data`.
    pub open spec fn of_handle(kind: VALUE_TYPE, unit: u32, data: u64) -> Model {
        Model { unit, content: Content::Foreign(spec_foreign(kind), data) }
    }
}

impl Value {
    /// The integer that the engine is to hold for the value: `Some` for a
    /// boolean, an integer and a color.
    pub fn int_data(&self) -> (r: Option<i32>)
        ensures
            r == self@.int_data(),
            r is Some <==> spec_reading(self@.kind()) is Int,
    {
        match &self.body {
            Body::Bool(b) => Some(if *b { 1i32 } else { 0i32 }),
            Body::Int(i) => Some(*i),
            Body::Color(c) => Some(signed(*c)),
            _ => None,
        }
    }

    /// The float that the engine is to hold for the value, by its bits: `Some`
    /// for a float, a duration, an angle and a length.
    pub fn float_data(&self) -> (r: Option<u64>)
        ensures
            r == self@.float_data(),
            r is Some <==> spec_reading(self@.kind()) is Float,
    {
        match &self.body {
            Body::Float(bits) => Some(*bits),
            Body::Duration(bits) => Some(*bits),
            Body::Angle(bits) => Some(*bits),
            Body::Length(bits) => Some(*bits),
            _ => None,
        }
    }

    /// The value of a type that is read as an integer, from the integer that
    /// the engine holds for it.
    pub fn of_int(kind: VALUE_TYPE, unit: u32, data: i32) -> (r: Value)
        requires
            spec_reading(kind) is Int,
        ensures
            r@ == Model::of_int(kind, unit, data),
            r@.kind() == kind,
    {
        match kind {
            VALUE_TYPE::T_BOOL => Value { unit, body: Body::Bool(data != 0) },
            VALUE_TYPE::T_COLOR => Value { unit, body: Body::Color(unsigned(data)) },
            _ => Value { unit, body: Body::Int(data) },
        }
    }

    /// The value of a type that is read as a float, from the bits of the float
    /// that the engine holds for it.
    pub fn of_float(kind: VALUE_TYPE, unit: u32, bits: u64) -> (r: Value)
        requires
            spec_reading(kind) is Float,
        ensures
            r@ == Model::of_float(kind, unit, bits),
            r@.kind() == kind,
    {
        match kind {
            VALUE_TYPE::T_DURATION => Value { unit, body: Body::Duration(bits) },
            VALUE_TYPE::T_ANGLE => Value { unit, body: Body::Angle(bits) },
            VALUE_TYPE::T_LENGTH => Value { unit, body: Body::Length(bits) },
            _ => Value { unit, body: Body::Float(bits) },
        }
    }

    /// The value of a type that only the engine can look into, from the eight
    /// bytes of its cell.
    pub fn of_handle(kind: VALUE_TYPE, unit: u32, data: u64) -> (r: Value)
        requires
            spec_reading(kind) is Handle,
        ensures
            r@ == Model::of_handle(kind, unit, data),
            r@.kind() == kind,
    {
        let f = match kind {
            VALUE_TYPE::T_DATE => Foreign::Date,
            VALUE_TYPE::T_CURRENCY => Foreign::Currency,
            VALUE_TYPE::T_FUNCTION => Foreign::Function,
            VALUE_TYPE::T_OBJECT => Foreign::Object,
            VALUE_TYPE::T_DOM_OBJECT => Foreign::DomObject,
            VALUE_TYPE::T_RESOURCE => Foreign::Resource,
            VALUE_TYPE::T_RANGE => Foreign::Range,
            VALUE_TYPE::T_ENUM => Foreign::Enum,
            VALUE_TYPE::T_ASSET => Foreign::Asset,
            _ => Foreign::Unknown,
        };
        Value { unit, body: Body::Foreign(f, data) }
    }
}

/// A value survives the way into the engine and back: a value that is made
/// of the type, the unit and the data that the engine holds for a value is
/// that value.
pub proof fn lemma_data_round_trip(m: Model)
    ensures
        m.int_data() matches Some(data) ==> Model::of_int(m.kind(), m.unit, data) == m,
        m.float_data() matches Some(bits) ==> Model::of_float(m.kind(), m.unit, bits) == m,
        m.content matches Content::Foreign(f, data) ==> Model::of_handle(m.kind(), m.unit, data) == m,
        m.int_data() is Some <==> spec_reading(m.kind()) is Int,
        m.float_data() is Some <==> spec_reading(m.kind()) is Float,
        m.content is Foreign <==> spec_reading(m.kind()) is Handle,
        m.content is Text <==> spec_reading(m.kind()) is Text,
        m.content is Bytes <==> spec_reading(m.kind()) is Bytes,
        m.content is Array <==> spec_reading(m.kind()) is Items,
        m.content is Pairs <==> spec_reading(m.kind()) is Pairs,
        m.content is Undefined || m.content is Null <==> spec_reading(m.kind()) is Nothing,
{
}

/// The two readings of 32 bits undo one another.
pub proof fn lemma_signed_round_trip(c: u32, i: i32)
    ensures
        spec_unsigned(spec_signed(c)) == c,
        spec_signed(spec_unsigned(i)) == i,
{
}

} // verus!
