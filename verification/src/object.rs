//! Audio objects: the system, devices and streams, told apart by a type
//! parameter, and the choices that their operations make on what the HAL
//! reports.

use vstd::prelude::*;
use core::marker::PhantomData;
use crate::data_types::Scope;
use crate::errors::CoreAudioError;
use crate::hal_codes::{
    SCOPE_GLOBAL, SCOPE_INPUT, SCOPE_OUTPUT, SELECTOR_DEFAULT_INPUT_DEVICE,
    SELECTOR_DEFAULT_OUTPUT_DEVICE, SELECTOR_DEVICES, SELECTOR_STREAMS, SYSTEM_OBJECT_ID,
};
use crate::property::{address, Listenable, NoExtra, Property, PropertyAddress, PropertyView, ReadOnly, ReadWrite};

verus! {

/// Properties that every kind of object has.
pub struct Global;

/// The system object.
pub struct System;

/// A device.
pub struct Device;

/// A stream.
pub struct Stream;

/// An object known to the HAL, of the kind `T`.
pub struct AudioObject<T> {
    id: u32,
    _marker: PhantomData<T>,
}

impl<T> View for AudioObject<T> {
    type V = u32;

    /// The object's ID.
    closed spec fn view(&self) -> u32 {
        self.id
    }
}

impl<T> AudioObject<T> {
    /// The object's ID.
    pub fn id(&self) -> (id: u32)
        ensures
            id == self@,
    {
        self.id
    }
}

impl Default for AudioObject<System> {
    /// The system object.
    fn default() -> (s: Self)
        ensures
            s@ == SYSTEM_OBJECT_ID,
    {
        AudioObject { id: SYSTEM_OBJECT_ID, _marker: PhantomData }
    }
}

impl From<u32> for AudioObject<Device> {
    fn from(value: u32) -> (d: Self)
        ensures
            d@ == value,
    {
        AudioObject { id: value, _marker: PhantomData }
    }
}

impl vstd::std_specs::convert::FromSpecImpl<u32> for AudioObject<Device> {
    open spec fn obeys_from_spec() -> bool {
        true
    }

    closed spec fn from_spec(value: u32) -> Self {
        AudioObject { id: value, _marker: PhantomData }
    }
}

impl From<u32> for AudioObject<Stream> {
    fn from(value: u32) -> (s: Self)
        ensures
            s@ == value,
    {
        AudioObject { id: value, _marker: PhantomData }
    }
}

impl vstd::std_specs::convert::FromSpecImpl<u32> for AudioObject<Stream> {
    open spec fn obeys_from_spec() -> bool {
        true
    }

    closed spec fn from_spec(value: u32) -> Self {
        AudioObject { id: value, _marker: PhantomData }
    }
}

/// The IDs of a list of objects.
pub open spec fn ids_of<T>(objects: Seq<AudioObject<T>>) -> Seq<u32> {
    objects.map_values(|o: AudioObject<T>| o@)
}

// ---- Properties that the object model reads ----

/// The IDs of all devices the HAL knows.
pub fn system_devices() -> (p: Property<Vec<u32>, System, ReadOnly, Listenable, NoExtra>)
    ensures
        p@ == (PropertyView {
            address: PropertyAddress { selector: SELECTOR_DEVICES, scope: SCOPE_GLOBAL, element: 0 },
            qualifier: None,
        }),
{
    Property::new(address(SELECTOR_DEVICES, SCOPE_GLOBAL))
}

/// The ID of the default device of a scope.
pub fn system_default_device(scope: Scope) -> (p: Property<u32, System, ReadWrite, Listenable, NoExtra>)
    ensures
        p@ == (PropertyView {
            address: PropertyAddress {
                selector: match scope {
                    Scope::Input => SELECTOR_DEFAULT_INPUT_DEVICE,
                    Scope::Output => SELECTOR_DEFAULT_OUTPUT_DEVICE,
                },
                scope: SCOPE_GLOBAL,
                element: 0,
            },
            qualifier: None,
        }),
{
    match scope {
        Scope::Input => Property::new(address(SELECTOR_DEFAULT_INPUT_DEVICE, SCOPE_GLOBAL)),
        Scope::Output => Property::new(address(SELECTOR_DEFAULT_OUTPUT_DEVICE, SCOPE_GLOBAL)),
    }
}

/// The IDs of a device's streams in a scope.
pub fn device_streams(scope: Scope) -> (p: Property<Vec<u32>, Device, ReadOnly, Listenable, NoExtra>)
    ensures
        p@ == (PropertyView {
            address: PropertyAddress {
                selector: SELECTOR_STREAMS,
                scope: match scope {
                    Scope::Input => SCOPE_INPUT,
                    Scope::Output => SCOPE_OUTPUT,
                },
                element: 0,
            },
            qualifier: None,
        }),
{
    match scope {
        Scope::Input => Property::new(address(SELECTOR_STREAMS, SCOPE_INPUT)),
        Scope::Output => Property::new(address(SELECTOR_STREAMS, SCOPE_OUTPUT)),
    }
}

// ---- Choices on what the HAL reports ----

/// The devices with the given IDs, in order.
pub fn devices_from_ids(ids: &Vec<u32>) -> (devices: Vec<AudioObject<Device>>)
    ensures
        ids_of(devices@) == ids@,
{
    let mut devices: Vec<AudioObject<Device>> = Vec::new();
    let mut i: usize = 0;
    while i < ids.len()
        invariant
            i <= ids@.len(),
            devices@.len() == i,
            forall|k: int| 0 <= k < i ==> devices@[k]@ == ids@[k],
        decreases ids@.len() - i,
    {
        devices.push(AudioObject::<Device>::from(ids[i]));
        i = i + 1;
    }
    assert(ids_of(devices@) =~= ids@);
    devices
}

/// The streams with the given IDs, in order.
pub fn streams_from_ids(ids: &Vec<u32>) -> (streams: Vec<AudioObject<Stream>>)
    ensures
        ids_of(streams@) == ids@,
{
    let mut streams: Vec<AudioObject<Stream>> = Vec::new();
    let mut i: usize = 0;
    while i < ids.len()
        invariant
            i <= ids@.len(),
            streams@.len() == i,
            forall|k: int| 0 <= k < i ==> streams@[k]@ == ids@[k],
        decreases ids@.len() - i,
    {
        streams.push(AudioObject::<Stream>::from(ids[i]));
        i = i + 1;
    }
    assert(ids_of(streams@) =~= ids@);
    streams
}

/// All streams of a device: its input streams, then its output streams.
pub fn streams_of_both_scopes(input: &Vec<u32>, output: &Vec<u32>) -> (streams: Vec<AudioObject<Stream>>)
    requires
        input@.len() + output@.len() <= usize::MAX,
    ensures
        ids_of(streams@) == input@ + output@,
{
    let mut ids: Vec<u32> = Vec::new();
    let mut i: usize = 0;
    while i < input.len()
        invariant
            i <= input@.len(),
            ids@ == input@.take(i as int),
        decreases input@.len() - i,
    {
        ids.push(input[i]);
        assert(ids@ =~= input@.take(i + 1));
        i = i + 1;
    }
    let mut j: usize = 0;
    while j < output.len()
        invariant
            i == input@.len(),
            j <= output@.len(),
            ids@ == input@ + output@.take(j as int),
        decreases output@.len() - j,
    {
        ids.push(output[j]);
        assert(ids@ =~= input@ + output@.take(j + 1));
        j = j + 1;
    }
    assert(input@.take(input@.len() as int) =~= input@);
    assert(output@.take(output@.len() as int) =~= output@);
    streams_from_ids(&ids)
}

/// Whether a device reported a non-empty list of streams.
pub open spec fn reported_streams(list: Result<Vec<u32>, CoreAudioError>) -> bool {
    list matches Ok(ids) && ids@.len() > 0
}

/// The IDs of `ids` whose matching list in `lists` holds a stream, in order.
pub open spec fn ids_with_streams(ids: Seq<u32>, lists: Seq<Result<Vec<u32>, CoreAudioError>>) -> Seq<u32>
    decreases ids.len(),
{
    if ids.len() == 0 || lists.len() == 0 {
        Seq::empty()
    } else {
        ids_with_streams(ids.drop_last(), lists.drop_last()) + if reported_streams(lists.last()) {
            seq![ids.last()]
        } else {
            Seq::empty()
        }
    }
}

/// Keeps the devices whose stream list, read for the scope, was read
/// without error and is not empty; `stream_lists[i]` is what reading the
/// streams of `devices[i]` gave.
pub fn keep_devices_with_streams(
    devices: Vec<AudioObject<Device>>,
    stream_lists: &Vec<Result<Vec<u32>, CoreAudioError>>,
) -> (kept: Vec<AudioObject<Device>>)
    requires
        devices@.len() == stream_lists@.len(),
    ensures
        ids_of(kept@) == ids_with_streams(ids_of(devices@), stream_lists@),
{
    let mut kept: Vec<AudioObject<Device>> = Vec::new();
    let mut i: usize = 0;
    let n = devices.len();
    while i < n
        invariant
            n == devices@.len(),
            n == stream_lists@.len(),
            i <= n,
            ids_of(kept@) == ids_with_streams(
                ids_of(devices@).take(i as int),
                stream_lists@.take(i as int),
            ),
        decreases n - i,
    {
        let keep = match &stream_lists[i] {
            Ok(ids) => ids.len() > 0,
            Err(_) => false,
        };
        let ghost before = kept@;
        if keep {
            kept.push(AudioObject::<Device>::from(devices[i].id()));
        }
        proof {
            let ids_next = ids_of(devices@).take(i + 1);
            let lists_next = stream_lists@.take(i + 1);
            assert(ids_next.drop_last() =~= ids_of(devices@).take(i as int));
            assert(lists_next.drop_last() =~= stream_lists@.take(i as int));
            assert(lists_next.last() == stream_lists@[i as int]);
            assert(ids_next.last() == devices@[i as int]@);
            assert(ids_of(kept@) =~= ids_with_streams(ids_next, lists_next));
        }
        i = i + 1;
    }
    assert(ids_of(devices@).take(n as int) =~= ids_of(devices@));
    assert(stream_lists@.take(n as int) =~= stream_lists@);
    kept
}

} // verus!
