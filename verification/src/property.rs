//! Properties: the address of a value on a HAL object, with type-level
//! markers for its value type, owning object, access, listenability and the
//! data it still needs (an element, a qualifier, or both).

use vstd::prelude::*;
use core::marker::PhantomData;
use crate::hal_codes::ELEMENT_MAIN;

verus! {

// ---- Markers ----

/// The property can be read but not written.
pub struct ReadOnly;

/// The property can be read and written.
pub struct ReadWrite;

/// The property supports change listeners.
pub struct Listenable;

/// The property does not support change listeners.
pub struct Silent;

/// The property needs no further data.
pub struct NoExtra;

/// The property still needs an element.
pub struct NeedElement;

/// The property still needs qualifier data of type `T`.
pub struct NeedQualifier<T>(T);

/// The property still needs an element and qualifier data of type `T`.
pub struct NeedBoth<T>(T);

// ---- Addresses ----

/// Where a property lives on an object: selector, scope and element.
#[derive(Debug, Clone, Copy, PartialEq, Eq, Structural)]
pub struct PropertyAddress {
    /// Which property.
    pub selector: u32,
    /// Global, input or output.
    pub scope: u32,
    /// The element (channel); `0` is the object as a whole.
    pub element: u32,
}

/// The address of a selector in a scope, on the main element.
pub fn address(selector: u32, scope: u32) -> (a: PropertyAddress)
    ensures
        a == (PropertyAddress { selector, scope, element: ELEMENT_MAIN }),
{
    PropertyAddress { selector, scope, element: ELEMENT_MAIN }
}

// ---- Properties ----

/// A property of value type `T` on objects of kind `Object`, with access
/// mode `Access`, listenability `L` and outstanding data `E`.
pub struct Property<T, Object, Access, L, E> {
    address: PropertyAddress,
    qualifier: Option<Vec<u8>>,
    _value: PhantomData<T>,
    _object: PhantomData<Object>,
    _access: PhantomData<Access>,
    _listenable: PhantomData<L>,
    _extra_data: PhantomData<E>,
}

/// What a [`Property`] holds: its address and its qualifier bytes, if any.
pub struct PropertyView {
    /// The address.
    pub address: PropertyAddress,
    /// The qualifier bytes.
    pub qualifier: Option<Seq<u8>>,
}

/// The bytes of an optional qualifier.
pub open spec fn qualifier_view(q: Option<Vec<u8>>) -> Option<Seq<u8>> {
    match q {
        Some(v) => Some(v@),
        None => None,
    }
}

impl<T, Object, Access, L, E> View for Property<T, Object, Access, L, E> {
    type V = PropertyView;

    closed spec fn view(&self) -> PropertyView {
        PropertyView { address: self.address, qualifier: qualifier_view(self.qualifier) }
    }
}

/// A property with its address's element set to `element`.
pub open spec fn with_element(p: PropertyView, element: u32) -> PropertyView {
    PropertyView { address: PropertyAddress { element, ..p.address }, ..p }
}

/// A property with its qualifier set to `bytes`.
pub open spec fn with_qualifier_bytes(p: PropertyView, bytes: Seq<u8>) -> PropertyView {
    PropertyView { qualifier: Some(bytes), ..p }
}

impl<T, Object, Access, L, E> Property<T, Object, Access, L, E> {
    /// A property at `address` with no qualifier.
    pub fn new(address: PropertyAddress) -> (p: Self)
        ensures
            p@ == (PropertyView { address, qualifier: None }),
    {
        Property {
            address,
            qualifier: None,
            _value: PhantomData,
            _object: PhantomData,
            _access: PhantomData,
            _listenable: PhantomData,
            _extra_data: PhantomData,
        }
    }

    /// The address of this property.
    pub fn address(&self) -> (a: PropertyAddress)
        ensures
            a == self@.address,
    {
        self.address
    }

    /// The qualifier bytes of this property, if it has any.
    pub fn qualifier(&self) -> (q: &Option<Vec<u8>>)
        ensures
            qualifier_view(*q) == self@.qualifier,
    {
        &self.qualifier
    }

    /// The same address and qualifier under another set of markers.
    fn retag<Q>(self) -> (p: Property<T, Object, Access, L, Q>)
        ensures
            p@ == self@,
    {
        Property {
            address: self.address,
            qualifier: self.qualifier,
            _value: PhantomData,
            _object: PhantomData,
            _access: PhantomData,
            _listenable: PhantomData,
            _extra_data: PhantomData,
        }
    }

    /// The property with its element set.
    pub(crate) fn set_element<Q>(self, element: u32) -> (p: Property<T, Object, Access, L, Q>)
        ensures
            p@ == with_element(self@, element),
    {
        let mut new: Property<T, Object, Access, L, Q> = self.retag();
        new.address.element = element;
        new
    }

    /// The property with its qualifier set.
    pub(crate) fn set_qualifier<Q>(self, bytes: Vec<u8>) -> (p: Property<T, Object, Access, L, Q>)
        ensures
            p@ == with_qualifier_bytes(self@, bytes@),
    {
        let mut new: Property<T, Object, Access, L, Q> = self.retag();
        new.qualifier = Some(bytes);
        new
    }
}

/// Setting the element and setting the qualifier give the same property in
/// either order.
pub proof fn lemma_element_qualifier_commute(p: PropertyView, element: u32, bytes: Seq<u8>)
    ensures
        with_qualifier_bytes(with_element(p, element), bytes) == with_element(
            with_qualifier_bytes(p, bytes),
            element,
        ),
{
}

} // verus!
