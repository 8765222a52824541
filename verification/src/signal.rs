//! Typed value updates that travel from reactive UI state to a renderer.
//!
//! An update is a key and a value of one of six kinds. The two float kinds carry
//! the IEEE-754 bit pattern of the value, so that an update compares and copies
//! exactly.

use vstd::prelude::*;
use vstd::string::*;

verus! {

/// Bit pattern of a 32-bit float.
#[derive(Debug, Clone, Copy, PartialEq, Eq)]
pub struct F32Bits(pub u32);

/// Bit pattern of a 64-bit float.
#[derive(Debug, Clone, Copy, PartialEq, Eq)]
pub struct F64Bits(pub u64);

/// The value of an update, by kind.
pub enum SignalValue {
    /// A boolean.
    Bool(bool),
    /// A 32-bit float, as its bit pattern.
    F32(u32),
    /// A 64-bit float, as its bit pattern.
    F64(u64),
    /// A 32-bit signed integer.
    I32(i32),
    /// A 32-bit unsigned integer.
    U32(u32),
    /// A text.
    String(Seq<char>),
}

/// What an update says: under `key`, the signal now holds `value`.
pub struct SignalUpdateView {
    /// Name of the signal.
    pub key: Seq<char>,
    /// Its new value.
    pub value: SignalValue,
}

/// A value update for the signal named by the first field.
#[derive(Debug, Clone, PartialEq, Eq)]
pub enum SignalUpdate {
    /// Boolean signal: (key, value).
    Bool(String, bool),
    /// 32-bit float signal: (key, bit pattern of the value).
    F32(String, u32),
    /// 64-bit float signal: (key, bit pattern of the value).
    F64(String, u64),
    /// 32-bit signed integer signal: (key, value).
    I32(String, i32),
    /// 32-bit unsigned integer signal: (key, value).
    U32(String, u32),
    /// Text signal: (key, value).
    String(String, String),
}

impl View for SignalUpdate {
    type V = SignalUpdateView;

    open spec fn view(&self) -> SignalUpdateView {
        match *self {
            SignalUpdate::Bool(key, v) => SignalUpdateView {
                key: key@,
                value: SignalValue::Bool(v),
            },
            SignalUpdate::F32(key, v) => SignalUpdateView { key: key@, value: SignalValue::F32(v) },
            SignalUpdate::F64(key, v) => SignalUpdateView { key: key@, value: SignalValue::F64(v) },
            SignalUpdate::I32(key, v) => SignalUpdateView { key: key@, value: SignalValue::I32(v) },
            SignalUpdate::U32(key, v) => SignalUpdateView { key: key@, value: SignalValue::U32(v) },
            SignalUpdate::String(key, v) => SignalUpdateView {
                key: key@,
                value: SignalValue::String(v@),
            },
        }
    }
}

/// The value that a consumer waiting for `key` takes from an update: the
/// update's value where the key is the awaited one, nothing otherwise.
pub open spec fn value_for(update: SignalUpdateView, key: Seq<char>) -> Option<SignalValue> {
    if update.key == key {
        Some(update.value)
    } else {
        None
    }
}

/// Whether the text of `held` is `key`.
fn key_is(held: &String, key: &str) -> (same: bool)
    ensures
        same == (held@ == key@),
{
    let wanted = key.to_owned();
    *held == wanted
}

impl SignalUpdate {
    /// The name of the signal that the update is for.
    pub fn key(&self) -> (key: &String)
        ensures
            key@ == self@.key,
    {
        match self {
            SignalUpdate::Bool(key, _) => key,
            SignalUpdate::F32(key, _) => key,
            SignalUpdate::F64(key, _) => key,
            SignalUpdate::I32(key, _) => key,
            SignalUpdate::U32(key, _) => key,
            SignalUpdate::String(key, _) => key,
        }
    }

    /// The boolean that the update carries for `key`, if it is a boolean update
    /// for that key.
    pub fn as_bool(&self, key: &str) -> (value: Option<bool>)
        ensures
            value == match value_for(self@, key@) {
                Some(SignalValue::Bool(v)) => Some(v),
                _ => None,
            },
    {
        match self {
            SignalUpdate::Bool(held, v) => if key_is(held, key) {
                Some(*v)
            } else {
                None
            },
            _ => None,
        }
    }

    /// The bit pattern of the 32-bit float that the update carries for `key`,
    /// if it is such an update for that key.
    pub fn as_f32_bits(&self, key: &str) -> (value: Option<u32>)
        ensures
            value == match value_for(self@, key@) {
                Some(SignalValue::F32(v)) => Some(v),
                _ => None,
            },
    {
        match self {
            SignalUpdate::F32(held, v) => if key_is(held, key) {
                Some(*v)
            } else {
                None
            },
            _ => None,
        }
    }

    /// The bit pattern of the 64-bit float that the update carries for `key`,
    /// if it is such an update for that key.
    pub fn as_f64_bits(&self, key: &str) -> (value: Option<u64>)
        ensures
            value == match value_for(self@, key@) {
                Some(SignalValue::F64(v)) => Some(v),
                _ => None,
            },
    {
        match self {
            SignalUpdate::F64(held, v) => if key_is(held, key) {
                Some(*v)
            } else {
                None
            },
            _ => None,
        }
    }

    /// The signed integer that the update carries for `key`, if it is such an
    /// update for that key.
    pub fn as_i32(&self, key: &str) -> (value: Option<i32>)
        ensures
            value == match value_for(self@, key@) {
                Some(SignalValue::I32(v)) => Some(v),
                _ => None,
            },
    {
        match self {
            SignalUpdate::I32(held, v) => if key_is(held, key) {
                Some(*v)
            } else {
                None
            },
            _ => None,
        }
    }

    /// The unsigned integer that the update carries for `key`, if it is such an
    /// update for that key.
    pub fn as_u32(&self, key: &str) -> (value: Option<u32>)
        ensures
            value == match value_for(self@, key@) {
                Some(SignalValue::U32(v)) => Some(v),
                _ => None,
            },
    {
        match self {
            SignalUpdate::U32(held, v) => if key_is(held, key) {
                Some(*v)
            } else {
                None
            },
            _ => None,
        }
    }

    /// The text that the update carries for `key`, if it is a text update for
    /// that key.
    pub fn as_string(&self, key: &str) -> (value: Option<String>)
        ensures
            match value_for(self@, key@) {
                Some(SignalValue::String(v)) => value is Some && value->0@ == v,
                _ => value is None,
            },
    {
        match self {
            SignalUpdate::String(held, v) => if key_is(held, key) {
                Some(v.clone())
            } else {
                None
            },
            _ => None,
        }
    }
}

/// A value that can become the payload of a [`SignalUpdate`].
pub trait IntoSignalUpdate: Sized {
    /// The value of the update that `self` turns into.
    spec fn signal_value(self) -> SignalValue;

    /// Wraps `self` in the update of its kind, under `key`.
    fn into_signal_update(self, key: String) -> (update: SignalUpdate)
        ensures
            update@ == (SignalUpdateView { key: key@, value: self.signal_value() }),
    ;
}

impl IntoSignalUpdate for bool {
    open spec fn signal_value(self) -> SignalValue {
        SignalValue::Bool(self)
    }

    fn into_signal_update(self, key: String) -> (update: SignalUpdate) {
        SignalUpdate::Bool(key, self)
    }
}

impl IntoSignalUpdate for F32Bits {
    open spec fn signal_value(self) -> SignalValue {
        SignalValue::F32(self.0)
    }

    fn into_signal_update(self, key: String) -> (update: SignalUpdate) {
        SignalUpdate::F32(key, self.0)
    }
}

impl IntoSignalUpdate for F64Bits {
    open spec fn signal_value(self) -> SignalValue {
        SignalValue::F64(self.0)
    }

    fn into_signal_update(self, key: String) -> (update: SignalUpdate) {
        SignalUpdate::F64(key, self.0)
    }
}

impl IntoSignalUpdate for i32 {
    open spec fn signal_value(self) -> SignalValue {
        SignalValue::I32(self)
    }

    fn into_signal_update(self, key: String) -> (update: SignalUpdate) {
        SignalUpdate::I32(key, self)
    }
}

impl IntoSignalUpdate for u32 {
    open spec fn signal_value(self) -> SignalValue {
        SignalValue::U32(self)
    }

    fn into_signal_update(self, key: String) -> (update: SignalUpdate) {
        SignalUpdate::U32(key, self)
    }
}

impl IntoSignalUpdate for String {
    open spec fn signal_value(self) -> SignalValue {
        SignalValue::String(self@)
    }

    fn into_signal_update(self, key: String) -> (update: SignalUpdate) {
        SignalUpdate::String(key, self)
    }
}

/// Builds the update that carries `value` under `key`.
pub fn make_signal_update<T: IntoSignalUpdate>(key: String, value: T) -> (update: SignalUpdate)
    ensures
        update@ == (SignalUpdateView { key: key@, value: value.signal_value() }),
{
    value.into_signal_update(key)
}

/// A value that can be made from whatever a signal carries, for consumers that
/// keep one resource per signal.
pub trait FromSignalUpdate: Sized {
    /// Makes the value from a signal's value.
    fn from_signal<T: IntoSignalUpdate>(value: T) -> Self where Self: From<T>;
}

} // verus!
