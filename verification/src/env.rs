//! The environment a link is painted in, and style values that refer to it.
//!
//! A style value is either a value of its own or the name of a value that the
//! environment holds.  Names are looked up each time a value is needed, so a
//! change of the environment shows at the next paint without anything being
//! invalidated.

use crate::color::Color;
use crate::length::Length;
use vstd::prelude::*;
use vstd::std_specs::convert::FromSpecImpl;

verus! {

/// The name of a value in an [`Env`].
#[derive(PartialEq, Eq, Debug)]
pub struct Key {
    name: String,
}

impl Clone for Key {
    /// A key with the same name.
    fn clone(&self) -> (copy: Key)
        ensures
            copy == *self,
            copy@ == self@,
    {
        Key { name: self.name.clone() }
    }
}

impl View for Key {
    type V = Seq<char>;

    closed spec fn view(&self) -> Seq<char> {
        self.name@
    }
}

impl Key {
    /// The key with the given name.
    pub fn new(name: &str) -> (key: Key)
        ensures
            key@ == name@,
    {
        Key { name: name.to_owned() }
    }

    /// The name of the key.
    pub fn name(&self) -> (name: &str)
        ensures
            name@ == self@,
    {
        self.name.as_str()
    }
}

/// A value that an environment can hold.
#[derive(Clone, Copy, PartialEq, Eq, Structural, Debug)]
pub enum Value {
    Color(Color),
    Length(Length),
}

/// A type of values that an environment can hold.
pub trait ValueType: Copy {
    /// The value of this type that `value` holds, if it holds one.
    spec fn from_value(value: Value) -> Option<Self>;

    /// The value of this type that `value` holds, if it holds one.
    fn try_from_value(value: &Value) -> (found: Option<Self>)
        ensures
            found == Self::from_value(*value),
    ;
}

impl ValueType for Color {
    open spec fn from_value(value: Value) -> Option<Color> {
        match value {
            Value::Color(color) => Some(color),
            Value::Length(_) => None,
        }
    }

    fn try_from_value(value: &Value) -> (found: Option<Color>) {
        match value {
            Value::Color(color) => Some(*color),
            Value::Length(_) => None,
        }
    }
}

impl ValueType for Length {
    open spec fn from_value(value: Value) -> Option<Length> {
        match value {
            Value::Color(_) => None,
            Value::Length(length) => Some(length),
        }
    }

    fn try_from_value(value: &Value) -> (found: Option<Length>) {
        match value {
            Value::Color(_) => None,
            Value::Length(length) => Some(*length),
        }
    }
}

/// What a list of bindings defines: each name is bound to the value of the
/// last entry that names it.
pub open spec fn bindings(entries: Seq<(Key, Value)>) -> Map<Seq<char>, Value>
    decreases entries.len(),
{
    if entries.len() == 0 {
        Map::empty()
    } else {
        bindings(entries.drop_last()).insert(entries.last().0@, entries.last().1)
    }
}

/// A name that no entry carries is not bound.
proof fn lemma_unbound(entries: Seq<(Key, Value)>, name: Seq<char>)
    requires
        forall|j: int| 0 <= j < entries.len() ==> entries[j].0@ != name,
    ensures
        !bindings(entries).contains_key(name),
    decreases entries.len(),
{
    if entries.len() > 0 {
        lemma_unbound(entries.drop_last(), name);
    }
}

/// A name is bound to the value of the last entry that carries it.
proof fn lemma_bound(entries: Seq<(Key, Value)>, at: int, name: Seq<char>)
    requires
        0 <= at < entries.len(),
        entries[at].0@ == name,
        forall|j: int| at < j < entries.len() ==> entries[j].0@ != name,
    ensures
        bindings(entries).contains_key(name),
        bindings(entries)[name] == entries[at].1,
    decreases entries.len(),
{
    if at < entries.len() - 1 {
        lemma_bound(entries.drop_last(), at, name);
    }
}

/// A finite set of named values: the theme and whatever else the host
/// provides to the widgets it paints.
pub struct Env {
    entries: Vec<(Key, Value)>,
}

impl View for Env {
    type V = Map<Seq<char>, Value>;

    closed spec fn view(&self) -> Map<Seq<char>, Value> {
        bindings(self.entries@)
    }
}

impl Env {
    /// Whether the environment binds `name` to a value of type `T`.
    pub open spec fn defines<T: ValueType>(&self, name: Seq<char>) -> bool {
        self@.contains_key(name) && T::from_value(self@[name]) is Some
    }

    /// The value of type `T` that the environment binds `name` to.
    pub open spec fn value_of<T: ValueType>(&self, name: Seq<char>) -> T
        recommends
            self.defines::<T>(name),
    {
        T::from_value(self@[name])->Some_0
    }

    /// The environment that binds nothing.
    pub fn empty() -> (env: Env)
        ensures
            env@ == Map::<Seq<char>, Value>::empty(),
    {
        Env { entries: Vec::new() }
    }

    /// The environment with `key` bound to `value`, and every other name bound
    /// as before.
    pub fn adding(self, key: Key, value: Value) -> (env: Env)
        ensures
            env@ == self@.insert(key@, value),
    {
        let mut entries = self.entries;
        let ghost before = entries@;
        entries.push((key, value));
        proof {
            assert(entries@.drop_last() == before);
        }
        Env { entries }
    }

    /// The value bound to `key`, if there is one.
    pub fn try_get(&self, key: &Key) -> (found: Option<Value>)
        ensures
            found.is_some() == self@.contains_key(key@),
            found.is_some() ==> found == Some(self@[key@]),
    {
        let mut i: usize = self.entries.len();
        while i > 0
            invariant
                i <= self.entries.len(),
                forall|j: int| i <= j < self.entries.len() ==> self.entries[j].0@ != key@,
            decreases i,
        {
            i -= 1;
            if self.entries[i].0.name == key.name {
                proof {
                    lemma_bound(self.entries@, i as int, key@);
                }
                return Some(self.entries[i].1);
            }
        }
        proof {
            lemma_unbound(self.entries@, key@);
        }
        None
    }

    /// Whether the environment binds `key` to a value of type `T`.
    pub fn has<T: ValueType>(&self, key: &Key) -> (b: bool)
        ensures
            b == self.defines::<T>(key@),
    {
        match self.try_get(key) {
            Some(value) => T::try_from_value(&value).is_some(),
            None => false,
        }
    }

    /// The value of type `T` bound to `key`.
    pub fn get<T: ValueType>(&self, key: &Key) -> (value: T)
        requires
            self.defines::<T>(key@),
        ensures
            value == self.value_of::<T>(key@),
    {
        let bound = self.try_get(key);
        let found = T::try_from_value(&bound.unwrap());
        found.unwrap()
    }
}

/// Either a value of its own or the key of a value in the environment.
#[derive(PartialEq, Eq, Debug)]
pub enum KeyOrValue<T> {
    /// A value that holds wherever the link is painted.
    Concrete(T),
    /// The key of a value that is looked up in the environment at each paint.
    Key(Key),
}

impl<T: Copy> Clone for KeyOrValue<T> {
    /// The same style value once more.
    fn clone(&self) -> (copy: KeyOrValue<T>)
        ensures
            copy == *self,
    {
        match self {
            KeyOrValue::Concrete(value) => KeyOrValue::Concrete(*value),
            KeyOrValue::Key(key) => KeyOrValue::Key(key.clone()),
        }
    }
}

impl<T: ValueType> From<T> for KeyOrValue<T> {
    /// The style value that is `value` wherever it is resolved.
    fn from(value: T) -> (style: KeyOrValue<T>) {
        KeyOrValue::Concrete(value)
    }
}

impl<T: ValueType> FromSpecImpl<T> for KeyOrValue<T> {
    open spec fn obeys_from_spec() -> bool {
        true
    }

    open spec fn from_spec(value: T) -> KeyOrValue<T> {
        KeyOrValue::Concrete(value)
    }
}

impl<T: ValueType> From<Key> for KeyOrValue<T> {
    /// The style value that is whatever the environment binds `key` to.
    fn from(key: Key) -> (style: KeyOrValue<T>) {
        KeyOrValue::Key(key)
    }
}

impl<T: ValueType> FromSpecImpl<Key> for KeyOrValue<T> {
    open spec fn obeys_from_spec() -> bool {
        true
    }

    open spec fn from_spec(key: Key) -> KeyOrValue<T> {
        KeyOrValue::Key(key)
    }
}

impl<T: ValueType> KeyOrValue<T> {
    /// Whether the style value has a value in `env`.
    pub open spec fn resolvable(self, env: &Env) -> bool {
        match self {
            KeyOrValue::Concrete(_) => true,
            KeyOrValue::Key(key) => env.defines::<T>(key@),
        }
    }

    /// The value that the style value has in `env`.
    pub open spec fn resolved(self, env: &Env) -> T
        recommends
            self.resolvable(env),
    {
        match self {
            KeyOrValue::Concrete(value) => value,
            KeyOrValue::Key(key) => env.value_of::<T>(key@),
        }
    }

    /// Whether [`KeyOrValue::resolve`] accepts `env`.
    pub fn is_resolvable(&self, env: &Env) -> (b: bool)
        ensures
            b == self.resolvable(env),
    {
        match self {
            KeyOrValue::Concrete(_) => true,
            KeyOrValue::Key(key) => env.has::<T>(key),
        }
    }

    /// The value that the style value has in `env`: its own, or the one that
    /// `env` binds its key to.
    pub fn resolve(&self, env: &Env) -> (value: T)
        requires
            self.resolvable(env),
        ensures
            value == self.resolved(env),
    {
        match self {
            KeyOrValue::Concrete(value) => *value,
            KeyOrValue::Key(key) => env.get::<T>(key),
        }
    }
}

} // verus!
