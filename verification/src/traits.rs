//! Traits that check property use at compile time, and the builders that
//! complete a property with an element or qualifier data.

use vstd::prelude::*;
use crate::codec::{
    encode_cfstring_ref, encode_u32, encode_vec_u32, native_byte_order, pointer_bytes, word_bytes,
    words_bytes, ByteOrder,
};
use crate::object::{Device, Global, Stream, System};
use crate::property::{
    with_element, with_qualifier_bytes, Listenable, NeedBoth, NeedElement, NeedQualifier, NoExtra,
    Property, ReadWrite,
};

verus! {

// ---- Compile-time checks ----

/// A property of object kind `Self` may be used on an object of kind `T`.
pub trait ObjectCompatibleWith<T> {}

impl ObjectCompatibleWith<System> for System {}

impl ObjectCompatibleWith<Device> for Device {}

impl ObjectCompatibleWith<Stream> for Stream {}

impl ObjectCompatibleWith<System> for Global {}

impl ObjectCompatibleWith<Device> for Global {}

impl ObjectCompatibleWith<Stream> for Global {}

/// The access mode permits writing.
pub trait Writeable {}

impl Writeable for ReadWrite {}

/// The property supports listeners.
pub trait CanListen {}

impl CanListen for Listenable {}

/// The property has all the data it needs.
pub trait HasAllData {}

impl HasAllData for NoExtra {}

// ---- Qualifiers ----

/// A value that can serve as qualifier data: its bytes, in a byte order.
pub trait IntoQualifierBytes: Sized {
    /// The bytes of the value in the given byte order.
    spec fn qualifier_bytes(&self, order: ByteOrder) -> Seq<u8>;

    /// The bytes of the value in the given byte order.
    fn into_bytes(self, order: ByteOrder) -> (bytes: Vec<u8>)
        ensures
            bytes@ == self.qualifier_bytes(order),
    ;
}

impl IntoQualifierBytes for u32 {
    open spec fn qualifier_bytes(&self, order: ByteOrder) -> Seq<u8> {
        word_bytes(order, *self)
    }

    fn into_bytes(self, order: ByteOrder) -> (bytes: Vec<u8>) {
        encode_u32(order, self)
    }
}

impl IntoQualifierBytes for Vec<u32> {
    open spec fn qualifier_bytes(&self, order: ByteOrder) -> Seq<u8> {
        words_bytes(order, self@)
    }

    fn into_bytes(self, order: ByteOrder) -> (bytes: Vec<u8>) {
        encode_vec_u32(order, &self)
    }
}

/// A reference to a string object, given by its address: the qualifier
/// that properties keyed by a UID or bundle ID take. The string must stay
/// alive while a property that carries the reference is in use.
#[derive(Debug, Clone, Copy, PartialEq, Eq, Structural)]
pub struct StringRef(pub usize);

impl IntoQualifierBytes for StringRef {
    open spec fn qualifier_bytes(&self, order: ByteOrder) -> Seq<u8> {
        pointer_bytes(order, self.0)
    }

    fn into_bytes(self, order: ByteOrder) -> (bytes: Vec<u8>) {
        encode_cfstring_ref(order, self.0)
    }
}

/// Attaches qualifier data to a property that needs it.
pub trait MissingQualifier<T> {
    /// The property once the qualifier is attached.
    type Output;

    /// Attaches `qualifier`, encoded in the machine's byte order.
    fn with_qualifier(self, qualifier: T) -> Self::Output where T: IntoQualifierBytes;
}

impl<V, D, A, L, T> MissingQualifier<T> for Property<V, D, A, L, NeedQualifier<T>> {
    type Output = Property<V, D, A, L, NoExtra>;

    fn with_qualifier(self, qualifier: T) -> (p: Self::Output) where T: IntoQualifierBytes
        ensures
            p@ == with_qualifier_bytes(self@, qualifier.qualifier_bytes(ByteOrder::Little)) || p@
                == with_qualifier_bytes(self@, qualifier.qualifier_bytes(ByteOrder::Big)),
    {
        let bytes = qualifier.into_bytes(native_byte_order());
        self.set_qualifier(bytes)
    }
}

impl<V, D, A, L, T> MissingQualifier<T> for Property<V, D, A, L, NeedBoth<T>> {
    type Output = Property<V, D, A, L, NeedElement>;

    fn with_qualifier(self, qualifier: T) -> (p: Self::Output) where T: IntoQualifierBytes
        ensures
            p@ == with_qualifier_bytes(self@, qualifier.qualifier_bytes(ByteOrder::Little)) || p@
                == with_qualifier_bytes(self@, qualifier.qualifier_bytes(ByteOrder::Big)),
    {
        let bytes = qualifier.into_bytes(native_byte_order());
        self.set_qualifier(bytes)
    }
}

/// Sets the element of a property that needs one.
pub trait MissingElement {
    /// The property once the element is set.
    type Output;

    /// Sets `element` as the element of the property's address.
    fn for_element(self, element: u32) -> Self::Output;
}

impl<V, D, A, L> MissingElement for Property<V, D, A, L, NeedElement> {
    type Output = Property<V, D, A, L, NoExtra>;

    fn for_element(self, element: u32) -> (p: Self::Output)
        ensures
            p@ == with_element(self@, element),
    {
        self.set_element(element)
    }
}

impl<V, D, A, L, T> MissingElement for Property<V, D, A, L, NeedBoth<T>> {
    type Output = Property<V, D, A, L, NeedQualifier<T>>;

    fn for_element(self, element: u32) -> (p: Self::Output)
        ensures
            p@ == with_element(self@, element),
    {
        self.set_element(element)
    }
}

} // verus!
