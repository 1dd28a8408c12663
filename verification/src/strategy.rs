//! Pixel-value strategies for the conversion pipeline: the normalization
//! applied to raw channel values, the output representation that encodes a
//! normalized value into a stored element, and the compatibility relation
//! between the two.

use vstd::prelude::*;

verus! {

/// A normalization strategy: a pure transform applied to the raw channel
/// triple before representation encoding. `Identity` performs no transform;
/// the interface is open for further strategies.
#[derive(Clone, Copy, PartialEq, Eq, Structural)]
pub enum Normalization {
    /// Leaves the raw channel values unchanged.
    Identity,
}

/// The value a normalization strategy turns one raw channel value into.
pub open spec fn norm_value(n: Normalization, v: u8) -> u8 {
    match n {
        Normalization::Identity => v,
    }
}

/// Applies the normalization to a raw channel triple, in channel order
/// R, G, B. Identity normalization leaves every value numerically unchanged.
pub fn apply_normalization(n: Normalization, channels: (u8, u8, u8)) -> (r: (u8, u8, u8))
    ensures
        r.0 == norm_value(n, channels.0),
        r.1 == norm_value(n, channels.1),
        r.2 == norm_value(n, channels.2),
        n is Identity ==> r == channels,
{
    match n {
        Normalization::Identity => channels,
    }
}

/// The kind of an output representation: 8-bit unsigned, either taken as-is
/// or remapped through quantization parameters.
#[derive(Clone, Copy, PartialEq, Eq, Structural)]
pub enum DataTypeKind {
    /// Unparameterized 8-bit unsigned output.
    U8,
    /// 8-bit unsigned output remapped through a quantization map.
    QuantizedU8,
}

/// The registry of (normalization, representation) pairs that may be used
/// together. A normalization must not push values into a range the
/// representation cannot encode; identity normalization keeps the raw
/// 0..=255 range, which both 8-bit representations encode.
pub open spec fn compatible(n: Normalization, d: DataTypeKind) -> bool {
    match (n, d) {
        (Normalization::Identity, DataTypeKind::U8) => true,
        (Normalization::Identity, DataTypeKind::QuantizedU8) => true,
    }
}

/// Decides the compatibility registry.
pub fn is_compatible(n: Normalization, d: DataTypeKind) -> (r: bool)
    ensures
        r == compatible(n, d),
{
    match (n, d) {
        (Normalization::Identity, DataTypeKind::U8) => true,
        (Normalization::Identity, DataTypeKind::QuantizedU8) => true,
    }
}

/// Quantization parameters, realized as the value map they induce: entry `v`
/// holds the encoded output for the normalized channel value `v`. For
/// parameters `scale` and `zero_point` the conventional map is
/// `round(v / scale) + zero_point`, saturated to `0..=255`; building the map
/// from such parameters is the caller's concern, since the induced map — not
/// the parameters themselves — is what the pipeline consumes, one lookup per
/// channel.
pub struct QuantMap {
    table: Vec<u8>,
}

impl QuantMap {
    /// The encoded output for each of the 256 possible channel values.
    pub closed spec fn map_view(self) -> Seq<u8> {
        self.table@
    }

    /// A quantization map covers every 8-bit channel value.
    pub open spec fn wf(self) -> bool {
        self.map_view().len() == 256
    }

    /// Builds a quantization map from the 256 encoded outputs, entry `v`
    /// being the output for channel value `v`; rejects a table of any other
    /// length.
    pub fn from_table(table: Vec<u8>) -> (r: Option<QuantMap>)
        ensures
            table@.len() == 256 ==> (r matches Some(q) && q.map_view() == table@ && q.wf()),
            table@.len() != 256 ==> r is None,
    {
        if table.len() == 256 {
            Some(QuantMap { table })
        } else {
            None
        }
    }

    /// The encoded output for the normalized channel value `v`.
    pub fn value_for(&self, v: u8) -> (r: u8)
        requires
            self.wf(),
        ensures
            r == self.map_view()[v as int],
    {
        self.table[v as usize]
    }
}

/// An output representation: the strategy that encodes a normalized channel
/// value into the stored element. The stored element type here is 8-bit
/// unsigned for both kinds; `QuantizedU8` carries the quantization map it
/// encodes through.
pub enum Representation {
    /// Stores the normalized value as-is.
    U8,
    /// Remaps the normalized value through the quantization map.
    QuantizedU8(QuantMap),
}

impl Representation {
    /// The kind this representation is of, for the compatibility registry.
    pub open spec fn kind(self) -> DataTypeKind {
        match self {
            Representation::U8 => DataTypeKind::U8,
            Representation::QuantizedU8(_) => DataTypeKind::QuantizedU8,
        }
    }

    /// A representation is well formed when the quantization map it carries,
    /// if any, covers every channel value.
    pub open spec fn wf(self) -> bool {
        match self {
            Representation::U8 => true,
            Representation::QuantizedU8(q) => q.wf(),
        }
    }

    /// The stored element a normalized channel value is encoded to.
    pub open spec fn spec_encode(self, v: u8) -> u8 {
        match self {
            Representation::U8 => v,
            Representation::QuantizedU8(q) => q.map_view()[v as int],
        }
    }

    /// Encodes one normalized channel value.
    pub fn encode(&self, v: u8) -> (r: u8)
        requires
            self.wf(),
        ensures
            r == self.spec_encode(v),
    {
        match self {
            Representation::U8 => v,
            Representation::QuantizedU8(q) => q.value_for(v),
        }
    }
}

} // verus!
