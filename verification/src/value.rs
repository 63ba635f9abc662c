//! The values a metadata field can hold.
//!
//! A [`MetadataValue`] is a closed union: one variant for each scalar kind of
//! value, and for each scalar kind one more variant that carries an ordered
//! list of values of that kind. Every function over it matches all variants,
//! so a new variant cannot be added without the compiler pointing at each
//! place that has to handle it.
use scrypto::prelude::{
    Decimal, GlobalAddress, Instant, NonFungibleGlobalId, NonFungibleLocalId, PublicKey,
    PublicKeyHash, UncheckedOrigin, UncheckedUrl,
};
use vstd::prelude::*;

verus! {

/// The scalar kinds of metadata value.
#[derive(Clone, Copy, Debug, PartialEq, Eq, Structural)]
pub enum ValueKind {
    /// A text string.
    String,
    /// A boolean.
    Bool,
    /// An unsigned 8-bit integer.
    U8,
    /// An unsigned 32-bit integer.
    U32,
    /// An unsigned 64-bit integer.
    U64,
    /// A signed 32-bit integer.
    I32,
    /// A signed 64-bit integer.
    I64,
    /// A fixed-point decimal.
    Decimal,
    /// The address of a global entity.
    GlobalAddress,
    /// A public key.
    PublicKey,
    /// A non-fungible's global identifier.
    NonFungibleGlobalId,
    /// A non-fungible's local identifier.
    NonFungibleLocalId,
    /// A point in time.
    Instant,
    /// A URL.
    Url,
    /// An origin: a scheme and a host.
    Origin,
    /// The hash of a public key.
    PublicKeyHash,
}

/// A metadata value: a scalar of some kind, or an ordered list of scalars of
/// one kind.
#[derive(Debug, PartialEq, Eq)]
pub enum MetadataValue {
    /// A text string.
    String(String),
    /// A boolean.
    Bool(bool),
    /// An unsigned 8-bit integer.
    U8(u8),
    /// An unsigned 32-bit integer.
    U32(u32),
    /// An unsigned 64-bit integer.
    U64(u64),
    /// A signed 32-bit integer.
    I32(i32),
    /// A signed 64-bit integer.
    I64(i64),
    /// A fixed-point decimal.
    Decimal(Decimal),
    /// The address of a global entity.
    GlobalAddress(GlobalAddress),
    /// A public key.
    PublicKey(PublicKey),
    /// A non-fungible's global identifier.
    NonFungibleGlobalId(NonFungibleGlobalId),
    /// A non-fungible's local identifier.
    NonFungibleLocalId(NonFungibleLocalId),
    /// A point in time.
    Instant(Instant),
    /// A URL.
    Url(UncheckedUrl),
    /// An origin: a scheme and a host.
    Origin(UncheckedOrigin),
    /// The hash of a public key.
    PublicKeyHash(PublicKeyHash),
    /// An ordered list, each item a text string.
    StringArray(Vec<String>),
    /// An ordered list, each item a boolean.
    BoolArray(Vec<bool>),
    /// An ordered list, each item an unsigned 8-bit integer.
    U8Array(Vec<u8>),
    /// An ordered list, each item an unsigned 32-bit integer.
    U32Array(Vec<u32>),
    /// An ordered list, each item an unsigned 64-bit integer.
    U64Array(Vec<u64>),
    /// An ordered list, each item a signed 32-bit integer.
    I32Array(Vec<i32>),
    /// An ordered list, each item a signed 64-bit integer.
    I64Array(Vec<i64>),
    /// An ordered list, each item a fixed-point decimal.
    DecimalArray(Vec<Decimal>),
    /// An ordered list, each item the address of a global entity.
    GlobalAddressArray(Vec<GlobalAddress>),
    /// An ordered list, each item a public key.
    PublicKeyArray(Vec<PublicKey>),
    /// An ordered list, each item a non-fungible's global identifier.
    NonFungibleGlobalIdArray(Vec<NonFungibleGlobalId>),
    /// An ordered list, each item a non-fungible's local identifier.
    NonFungibleLocalIdArray(Vec<NonFungibleLocalId>),
    /// An ordered list, each item a point in time.
    InstantArray(Vec<Instant>),
    /// An ordered list, each item a URL.
    UrlArray(Vec<UncheckedUrl>),
    /// An ordered list, each item an origin: a scheme and a host.
    OriginArray(Vec<UncheckedOrigin>),
    /// An ordered list, each item the hash of a public key.
    PublicKeyHashArray(Vec<PublicKeyHash>),
}

/// The mathematical content of a [`MetadataValue`]: text as a sequence of
/// characters, a list as a sequence of its items in order.
pub enum ValueView {
    String(Seq<char>),
    Bool(bool),
    U8(u8),
    U32(u32),
    U64(u64),
    I32(i32),
    I64(i64),
    Decimal(Decimal),
    GlobalAddress(GlobalAddress),
    PublicKey(PublicKey),
    NonFungibleGlobalId(NonFungibleGlobalId),
    NonFungibleLocalId(NonFungibleLocalId),
    Instant(Instant),
    Url(UncheckedUrl),
    Origin(UncheckedOrigin),
    PublicKeyHash(PublicKeyHash),
    StringArray(Seq<Seq<char>>),
    BoolArray(Seq<bool>),
    U8Array(Seq<u8>),
    U32Array(Seq<u32>),
    U64Array(Seq<u64>),
    I32Array(Seq<i32>),
    I64Array(Seq<i64>),
    DecimalArray(Seq<Decimal>),
    GlobalAddressArray(Seq<GlobalAddress>),
    PublicKeyArray(Seq<PublicKey>),
    NonFungibleGlobalIdArray(Seq<NonFungibleGlobalId>),
    NonFungibleLocalIdArray(Seq<NonFungibleLocalId>),
    InstantArray(Seq<Instant>),
    UrlArray(Seq<UncheckedUrl>),
    OriginArray(Seq<UncheckedOrigin>),
    PublicKeyHashArray(Seq<PublicKeyHash>),
}

impl ValueView {
    /// The scalar kind of this value, or of its items if it is a list.
    pub open spec fn kind(self) -> ValueKind {
        match self {
            ValueView::String(_) | ValueView::StringArray(_) => ValueKind::String,
            ValueView::Bool(_) | ValueView::BoolArray(_) => ValueKind::Bool,
            ValueView::U8(_) | ValueView::U8Array(_) => ValueKind::U8,
            ValueView::U32(_) | ValueView::U32Array(_) => ValueKind::U32,
            ValueView::U64(_) | ValueView::U64Array(_) => ValueKind::U64,
            ValueView::I32(_) | ValueView::I32Array(_) => ValueKind::I32,
            ValueView::I64(_) | ValueView::I64Array(_) => ValueKind::I64,
            ValueView::Decimal(_) | ValueView::DecimalArray(_) => ValueKind::Decimal,
            ValueView::GlobalAddress(_) | ValueView::GlobalAddressArray(_) => {
                ValueKind::GlobalAddress
            }
            ValueView::PublicKey(_) | ValueView::PublicKeyArray(_) => ValueKind::PublicKey,
            ValueView::NonFungibleGlobalId(_) | ValueView::NonFungibleGlobalIdArray(_) => {
                ValueKind::NonFungibleGlobalId
            }
            ValueView::NonFungibleLocalId(_) | ValueView::NonFungibleLocalIdArray(_) => {
                ValueKind::NonFungibleLocalId
            }
            ValueView::Instant(_) | ValueView::InstantArray(_) => ValueKind::Instant,
            ValueView::Url(_) | ValueView::UrlArray(_) => ValueKind::Url,
            ValueView::Origin(_) | ValueView::OriginArray(_) => ValueKind::Origin,
            ValueView::PublicKeyHash(_) | ValueView::PublicKeyHashArray(_) => {
                ValueKind::PublicKeyHash
            }
        }
    }

    /// Whether this value is a list.
    pub open spec fn is_array(self) -> bool {
        match self {
            ValueView::String(_)
            | ValueView::Bool(_)
            | ValueView::U8(_)
            | ValueView::U32(_)
            | ValueView::U64(_)
            | ValueView::I32(_)
            | ValueView::I64(_)
            | ValueView::Decimal(_)
            | ValueView::GlobalAddress(_)
            | ValueView::PublicKey(_)
            | ValueView::NonFungibleGlobalId(_)
            | ValueView::NonFungibleLocalId(_)
            | ValueView::Instant(_)
            | ValueView::Url(_)
            | ValueView::Origin(_)
            | ValueView::PublicKeyHash(_) => false,
            ValueView::StringArray(_)
            | ValueView::BoolArray(_)
            | ValueView::U8Array(_)
            | ValueView::U32Array(_)
            | ValueView::U64Array(_)
            | ValueView::I32Array(_)
            | ValueView::I64Array(_)
            | ValueView::DecimalArray(_)
            | ValueView::GlobalAddressArray(_)
            | ValueView::PublicKeyArray(_)
            | ValueView::NonFungibleGlobalIdArray(_)
            | ValueView::NonFungibleLocalIdArray(_)
            | ValueView::InstantArray(_)
            | ValueView::UrlArray(_)
            | ValueView::OriginArray(_)
            | ValueView::PublicKeyHashArray(_) => true,
        }
    }
}

impl View for MetadataValue {
    type V = ValueView;

    open spec fn view(&self) -> ValueView {
        match *self {
            MetadataValue::String(value) => ValueView::String(value@),
            MetadataValue::Bool(value) => ValueView::Bool(value),
            MetadataValue::U8(value) => ValueView::U8(value),
            MetadataValue::U32(value) => ValueView::U32(value),
            MetadataValue::U64(value) => ValueView::U64(value),
            MetadataValue::I32(value) => ValueView::I32(value),
            MetadataValue::I64(value) => ValueView::I64(value),
            MetadataValue::Decimal(value) => ValueView::Decimal(value),
            MetadataValue::GlobalAddress(value) => ValueView::GlobalAddress(value),
            MetadataValue::PublicKey(value) => ValueView::PublicKey(value),
            MetadataValue::NonFungibleGlobalId(value) => ValueView::NonFungibleGlobalId(value),
            MetadataValue::NonFungibleLocalId(value) => ValueView::NonFungibleLocalId(value),
            MetadataValue::Instant(value) => ValueView::Instant(value),
            MetadataValue::Url(value) => ValueView::Url(value),
            MetadataValue::Origin(value) => ValueView::Origin(value),
            MetadataValue::PublicKeyHash(value) => ValueView::PublicKeyHash(value),
            MetadataValue::StringArray(items) => ValueView::StringArray(
                items@.map_values(|item: String| item@),
            ),
            MetadataValue::BoolArray(items) => ValueView::BoolArray(items@),
            MetadataValue::U8Array(items) => ValueView::U8Array(items@),
            MetadataValue::U32Array(items) => ValueView::U32Array(items@),
            MetadataValue::U64Array(items) => ValueView::U64Array(items@),
            MetadataValue::I32Array(items) => ValueView::I32Array(items@),
            MetadataValue::I64Array(items) => ValueView::I64Array(items@),
            MetadataValue::DecimalArray(items) => ValueView::DecimalArray(items@),
            MetadataValue::GlobalAddressArray(items) => ValueView::GlobalAddressArray(items@),
            MetadataValue::PublicKeyArray(items) => ValueView::PublicKeyArray(items@),
            MetadataValue::NonFungibleGlobalIdArray(items) => {
                ValueView::NonFungibleGlobalIdArray(items@)
            },
            MetadataValue::NonFungibleLocalIdArray(items) => {
                ValueView::NonFungibleLocalIdArray(items@)
            },
            MetadataValue::InstantArray(items) => ValueView::InstantArray(items@),
            MetadataValue::UrlArray(items) => ValueView::UrlArray(items@),
            MetadataValue::OriginArray(items) => ValueView::OriginArray(items@),
            MetadataValue::PublicKeyHashArray(items) => ValueView::PublicKeyHashArray(items@),
        }
    }
}

impl MetadataValue {
    /// The scalar kind of this value, or of its items if it is a list.
    pub fn kind(&self) -> (kind: ValueKind)
        ensures
            kind == self@.kind(),
    {
        match self {
            MetadataValue::String(_) | MetadataValue::StringArray(_) => ValueKind::String,
            MetadataValue::Bool(_) | MetadataValue::BoolArray(_) => ValueKind::Bool,
            MetadataValue::U8(_) | MetadataValue::U8Array(_) => ValueKind::U8,
            MetadataValue::U32(_) | MetadataValue::U32Array(_) => ValueKind::U32,
            MetadataValue::U64(_) | MetadataValue::U64Array(_) => ValueKind::U64,
            MetadataValue::I32(_) | MetadataValue::I32Array(_) => ValueKind::I32,
            MetadataValue::I64(_) | MetadataValue::I64Array(_) => ValueKind::I64,
            MetadataValue::Decimal(_) | MetadataValue::DecimalArray(_) => ValueKind::Decimal,
            MetadataValue::GlobalAddress(_) | MetadataValue::GlobalAddressArray(_) => {
                ValueKind::GlobalAddress
            }
            MetadataValue::PublicKey(_) | MetadataValue::PublicKeyArray(_) => ValueKind::PublicKey,
            MetadataValue::NonFungibleGlobalId(_) | MetadataValue::NonFungibleGlobalIdArray(_) => {
                ValueKind::NonFungibleGlobalId
            }
            MetadataValue::NonFungibleLocalId(_) | MetadataValue::NonFungibleLocalIdArray(_) => {
                ValueKind::NonFungibleLocalId
            }
            MetadataValue::Instant(_) | MetadataValue::InstantArray(_) => ValueKind::Instant,
            MetadataValue::Url(_) | MetadataValue::UrlArray(_) => ValueKind::Url,
            MetadataValue::Origin(_) | MetadataValue::OriginArray(_) => ValueKind::Origin,
            MetadataValue::PublicKeyHash(_) | MetadataValue::PublicKeyHashArray(_) => {
                ValueKind::PublicKeyHash
            }
        }
    }

    /// Whether this value is a list.
    pub fn is_array(&self) -> (array: bool)
        ensures
            array == self@.is_array(),
    {
        match self {
            MetadataValue::String(_)
            | MetadataValue::Bool(_)
            | MetadataValue::U8(_)
            | MetadataValue::U32(_)
            | MetadataValue::U64(_)
            | MetadataValue::I32(_)
            | MetadataValue::I64(_)
            | MetadataValue::Decimal(_)
            | MetadataValue::GlobalAddress(_)
            | MetadataValue::PublicKey(_)
            | MetadataValue::NonFungibleGlobalId(_)
            | MetadataValue::NonFungibleLocalId(_)
            | MetadataValue::Instant(_)
            | MetadataValue::Url(_)
            | MetadataValue::Origin(_)
            | MetadataValue::PublicKeyHash(_) => false,
            MetadataValue::StringArray(_)
            | MetadataValue::BoolArray(_)
            | MetadataValue::U8Array(_)
            | MetadataValue::U32Array(_)
            | MetadataValue::U64Array(_)
            | MetadataValue::I32Array(_)
            | MetadataValue::I64Array(_)
            | MetadataValue::DecimalArray(_)
            | MetadataValue::GlobalAddressArray(_)
            | MetadataValue::PublicKeyArray(_)
            | MetadataValue::NonFungibleGlobalIdArray(_)
            | MetadataValue::NonFungibleLocalIdArray(_)
            | MetadataValue::InstantArray(_)
            | MetadataValue::UrlArray(_)
            | MetadataValue::OriginArray(_)
            | MetadataValue::PublicKeyHashArray(_) => true,
        }
    }
}

} // verus!
