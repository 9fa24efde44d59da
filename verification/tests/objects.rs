use coreaudio::data_types::Scope;
use coreaudio::hal_codes::{
    ELEMENT_MAIN, SCOPE_GLOBAL, SCOPE_INPUT, SCOPE_OUTPUT, SELECTOR_DEFAULT_INPUT_DEVICE,
    SELECTOR_DEFAULT_OUTPUT_DEVICE, SELECTOR_DEVICES, SELECTOR_STREAMS,
};
use coreaudio::io_proc::{buffer_shape, IOProcState};
use coreaudio::listener::{callback_status, latest, wait_error, WaitFailure};
use coreaudio::object::{
    device_streams, devices_from_ids, keep_devices_with_streams, streams_from_ids,
    streams_of_both_scopes, system_default_device, system_devices,
};
use coreaudio::property::{address, NeedBoth, NeedElement, NeedQualifier, Property, PropertyAddress, ReadOnly, Silent, ReadWrite, Listenable};
use coreaudio::{
    AudioObject, CoreAudioError, Device, ErrorKind, MissingElement, MissingQualifier, Stream,
    StringRef, System,
};

#[test]
fn objects_and_ids() {
    let system = AudioObject::<System>::default();
    assert_eq!(system.id(), 1);
    assert_eq!(AudioObject::<Device>::from(73).id(), 73);
    assert_eq!(AudioObject::<Stream>::from(74).id(), 74);
    let devices = devices_from_ids(&vec![5, 6, 7]);
    assert_eq!(devices.iter().map(|d| d.id()).collect::<Vec<_>>(), vec![5, 6, 7]);
    let streams = streams_from_ids(&vec![]);
    assert!(streams.is_empty());
}

#[test]
fn streams_of_both_scopes_input_first() {
    let streams = streams_of_both_scopes(&vec![10, 11], &vec![20]);
    assert_eq!(streams.iter().map(|s| s.id()).collect::<Vec<_>>(), vec![10, 11, 20]);
}

#[test]
fn devices_with_streams_are_kept() {
    let devices = devices_from_ids(&vec![1, 2, 3, 4]);
    let lists: Vec<Result<Vec<u32>, CoreAudioError>> = vec![
        Ok(vec![100]),
        Ok(vec![]),
        Err(CoreAudioError::from_error_kind(ErrorKind::BadDevice)),
        Ok(vec![200, 201]),
    ];
    let kept = keep_devices_with_streams(devices, &lists);
    assert_eq!(kept.iter().map(|d| d.id()).collect::<Vec<_>>(), vec![1, 4]);
}

#[test]
fn object_model_properties() {
    assert_eq!(system_devices().address(), PropertyAddress { selector: SELECTOR_DEVICES, scope: SCOPE_GLOBAL, element: 0 });
    assert_eq!(system_default_device(Scope::Input).address().selector, SELECTOR_DEFAULT_INPUT_DEVICE);
    assert_eq!(system_default_device(Scope::Output).address().selector, SELECTOR_DEFAULT_OUTPUT_DEVICE);
    assert_eq!(device_streams(Scope::Input).address(), PropertyAddress { selector: SELECTOR_STREAMS, scope: SCOPE_INPUT, element: 0 });
    assert_eq!(device_streams(Scope::Output).address().scope, SCOPE_OUTPUT);
    assert!(device_streams(Scope::Output).qualifier().is_none());
}

#[test]
fn element_and_qualifier_in_either_order() {
    let base = address(0x766F6C6D, SCOPE_OUTPUT);
    assert_eq!(base.element, ELEMENT_MAIN);
    let a: Property<String, Device, ReadOnly, Silent, NeedBoth<u32>> = Property::new(base);
    let b: Property<String, Device, ReadOnly, Silent, NeedBoth<u32>> = Property::new(base);
    let first = a.for_element(2).with_qualifier(0x1234);
    let second = b.with_qualifier(0x1234).for_element(2);
    assert_eq!(first.address(), second.address());
    assert_eq!(first.qualifier(), second.qualifier());
    assert_eq!(first.address().element, 2);
    assert_eq!(first.qualifier().clone().unwrap(), 0x1234u32.to_ne_bytes().to_vec());

    let e: Property<bool, Device, ReadWrite, Listenable, NeedElement> = Property::new(base);
    let e = e.for_element(1);
    assert_eq!(e.address().element, 1);
    assert!(e.qualifier().is_none());

    let q: Property<Vec<u32>, Device, ReadOnly, Silent, NeedQualifier<Vec<u32>>> = Property::new(base);
    let q = q.with_qualifier(vec![1, 2]);
    let mut expected = 1u32.to_ne_bytes().to_vec();
    expected.extend_from_slice(&2u32.to_ne_bytes());
    assert_eq!(q.qualifier().clone().unwrap(), expected);
    assert_eq!(q.address(), base);
}

#[test]
fn io_proc_play_and_pause() {
    let mut state = IOProcState::new();
    assert!(!state.is_running());
    assert_eq!(state.begin_pause().unwrap_err().kind(), ErrorKind::AlreadyPaused);
    assert!(state.begin_play().is_ok());
    let refused = state.finish_play(i32::from_be_bytes(*b"!dev")).unwrap_err();
    assert_eq!(refused.kind(), ErrorKind::BadDevice);
    assert!(!state.is_running());
    assert!(state.finish_play(0).is_ok());
    assert!(state.is_running());
    let e = state.begin_play().unwrap_err();
    assert_eq!(e.as_tuple(), (ErrorKind::AlreadyRunning, -1));
    assert!(state.begin_pause().is_ok());
    assert!(state.finish_pause(-1).is_err());
    assert!(state.is_running());
    assert!(state.finish_pause(0).is_ok());
    assert!(!state.is_running());
}

#[test]
fn render_buffer_shapes() {
    let s = buffer_shape(4096, 2);
    assert_eq!(s.sample_count, 1024);
    assert_eq!(s.frame_count, 512);
    assert!(s.is_interleaved);
    let s = buffer_shape(2048, 1);
    assert_eq!(s.frame_count, 512);
    assert!(!s.is_interleaved);
    assert_eq!(s.channels, 1);
}

#[test]
fn listener_decisions() {
    assert_eq!(latest(vec![1, 2, 3]), Some(3));
    assert_eq!(latest(Vec::<u32>::new()), None);
    assert_eq!(wait_error(WaitFailure::Timeout).as_tuple(), (ErrorKind::ListenerTimeout, -1));
    assert_eq!(wait_error(WaitFailure::Disconnected).as_tuple(), (ErrorKind::ListenerHangUp, -1));
    assert_eq!(callback_status(None, true), 0);
    assert_eq!(callback_status(None, false), -1);
    assert_eq!(callback_status(Some(CoreAudioError::from(i32::from_be_bytes(*b"who?"))), false), 0x77686F3F);
}

#[test]
fn string_reference_qualifier() {
    let base = address(0x75696464, SCOPE_GLOBAL);
    let p: Property<u32, System, ReadOnly, Silent, NeedQualifier<StringRef>> = Property::new(base);
    let p = p.with_qualifier(StringRef(0x5566));
    assert_eq!(p.qualifier().clone().unwrap(), 0x5566usize.to_ne_bytes().to_vec());
    assert_eq!(p.address(), base);
}
