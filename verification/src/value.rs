//! The values that a message can carry.
//!
//! [`Arg`] is a closed union: a value is a URI, an identifier, an integer, a
//! string, a boolean, a dictionary, a list or null, and dictionaries and
//! lists hold values again, to any depth. On the wire a value has no tag. It
//! is written as the bare token of its content, and a reader sees only the
//! [`WireShape`] of that token. The shape gives the variant away, except that
//! a string token may be a URI or a string, and a number token an identifier
//! or an integer: there the reader has to know what the position expects.

use std::collections::HashMap;
use vstd::prelude::*;
use crate::id::WampId;

verus! {

/// uri: a string URI as defined in URIs.
pub type WampUri = String;

/// integer: a non-negative integer.
pub type WampInteger = usize;

/// string: a Unicode string, including the empty string.
pub type WampString = String;

/// bool: a boolean value (true or false).
pub type WampBool = bool;

/// dict: a dictionary (map) where keys MUST be strings.
pub type WampDict = HashMap<String, Arg>;

/// list: a list (array) where items can be of any type.
pub type WampList = Vec<Arg>;

/// Unnamed WAMP argument list.
pub type WampArgs = Option<WampList>;

/// Named WAMP argument map.
pub type WampKwArgs = Option<WampDict>;

/// Generic enum that can hold any concrete WAMP value.
#[derive(Debug)]
pub enum Arg {
    /// uri: a string URI as defined in URIs.
    Uri(WampUri),
    /// id: an integer ID as defined in IDs.
    Id(WampId),
    /// integer: a non-negative integer.
    Integer(WampInteger),
    /// string: a Unicode string, including the empty string.
    String(WampString),
    /// bool: a boolean value (true or false).
    Bool(WampBool),
    /// dict: a dictionary (map) where keys MUST be strings.
    Dict(WampDict),
    /// list: a list (array) where items can be again any of this enumeration.
    List(WampList),
    /// The absence of a value.
    Null,
}

/// The kinds of token that the wire formats tell apart by themselves.
#[derive(Debug, Clone, Copy, PartialEq, Eq, Structural)]
pub enum WireShape {
    /// A string token.
    String,
    /// A number token.
    Number,
    /// A boolean token.
    Boolean,
    /// A map from string keys to tokens.
    Object,
    /// A sequence of tokens.
    Array,
    /// The token for no value, or no token at all.
    Null,
}

impl Arg {
    /// The shape of the token that stands for the value on the wire.
    pub open spec fn shape(self) -> WireShape {
        match self {
            Arg::Uri(_) | Arg::String(_) => WireShape::String,
            Arg::Id(_) | Arg::Integer(_) => WireShape::Number,
            Arg::Bool(_) => WireShape::Boolean,
            Arg::Dict(_) => WireShape::Object,
            Arg::List(_) => WireShape::Array,
            Arg::Null => WireShape::Null,
        }
    }

    /// Whether `self` and `other` are of the same variant.
    pub open spec fn same_variant(self, other: Arg) -> bool {
        match self {
            Arg::Uri(_) => other is Uri,
            Arg::Id(_) => other is Id,
            Arg::Integer(_) => other is Integer,
            Arg::String(_) => other is String,
            Arg::Bool(_) => other is Bool,
            Arg::Dict(_) => other is Dict,
            Arg::List(_) => other is List,
            Arg::Null => other is Null,
        }
    }

    /// Whether the variant of the value cannot be read off its shape: the
    /// reader needs to be told which of two variants to expect.
    pub open spec fn needs_hint(self) -> bool {
        self.shape() == WireShape::String || self.shape() == WireShape::Number
    }

    /// The shape of the token that stands for the value on the wire.
    pub fn wire_shape(&self) -> (shape: WireShape)
        ensures
            shape == self.shape(),
    {
        match self {
            Arg::Uri(_) => WireShape::String,
            Arg::Id(_) => WireShape::Number,
            Arg::Integer(_) => WireShape::Number,
            Arg::String(_) => WireShape::String,
            Arg::Bool(_) => WireShape::Boolean,
            Arg::Dict(_) => WireShape::Object,
            Arg::List(_) => WireShape::Array,
            Arg::Null => WireShape::Null,
        }
    }
}

/// Two values of one shape are of one variant, unless the shape is that of a
/// string, which a URI and a string share, or that of a number, which an
/// identifier and an integer share.
pub proof fn lemma_shape_tells_variant(a: Arg, b: Arg)
    requires
        a.shape() == b.shape(),
    ensures
        a.same_variant(b) || (a.needs_hint() && b.needs_hint()),
        !a.needs_hint() ==> a.same_variant(b),
        a.shape() == WireShape::String ==> (a is Uri || a is String),
        a.shape() == WireShape::Number ==> (a is Id || a is Integer),
{
}

/// An argument list that was left out differs from one that is there and
/// empty, and so for the keyword arguments.
pub proof fn lemma_absent_is_not_empty(args: WampList, kwargs: WampDict)
    ensures
        Option::<WampList>::None != Some(args),
        Option::<WampDict>::None != Some(kwargs),
{
}

} // verus!
