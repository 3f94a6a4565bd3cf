use std::sync::Arc;

use clap_validator::host::{any_audio_thread, ClapHost, HostExtension, RegistrationError};
use clap_validator::instance::{HostPluginInstance, PluginHandle, ThreadId};

const MAIN: ThreadId = ThreadId { id: 1 };
const AUDIO: ThreadId = ThreadId { id: 7 };
const OTHER: ThreadId = ThreadId { id: 123 };

fn host() -> ClapHost {
    ClapHost::new(MAIN)
}

fn instance(address: u64, audio_thread: Option<ThreadId>) -> Arc<HostPluginInstance> {
    let instance = HostPluginInstance::new();
    instance.plugin.store(Some(PluginHandle { address }));
    instance.audio_thread.store(audio_thread);
    Arc::new(instance)
}

fn first_error(host: &mut ClapHost) -> Option<String> {
    host.thread_safety_check().err()
}

#[test]
fn a_new_host_has_no_violation() {
    assert_eq!(host().thread_safety_check(), Ok(()));
}

#[test]
fn a_new_instance_is_empty() {
    let instance = HostPluginInstance::new();
    assert_eq!(instance.plugin.load(), None);
    assert_eq!(instance.audio_thread.load(), None);
}

#[test]
fn the_host_introduces_itself() {
    let description = HostPluginInstance::host_description();
    assert_eq!(description.name, "clap-validator");
    assert_eq!(description.version, "0.1.0");
}

#[test]
fn main_thread_calls_are_fine_on_the_main_thread() {
    let mut host = host();
    host.assert_main_thread("f()", MAIN);
    assert_eq!(first_error(&mut host), None);
}

#[test]
fn main_thread_calls_are_reported_on_other_threads() {
    let mut host = host();
    host.assert_main_thread("f()", OTHER);
    assert_eq!(
        first_error(&mut host).as_deref(),
        Some(
            "'f()' may only be called from the main thread (thread ThreadId(1)), but it was \
             called from thread ThreadId(123)"
        )
    );
}

#[test]
fn only_the_first_violation_is_kept() {
    let mut host = host();
    host.assert_audio_thread("first()", MAIN);
    host.assert_main_thread("second()", OTHER);
    host.assert_audio_thread("third()", OTHER);
    assert_eq!(
        first_error(&mut host).as_deref(),
        Some(
            "'first()' may only be called from an audio thread, but it was called from the main \
             thread"
        )
    );
    // Once it has been handed out, the host starts over
    assert_eq!(first_error(&mut host), None);
    host.assert_audio_thread("third()", OTHER);
    assert_eq!(
        first_error(&mut host).as_deref(),
        Some(
            "'third()' may only be called from an audio thread, but it was called from an \
             unknown thread"
        )
    );
}

#[test]
fn audio_thread_calls_are_fine_on_an_audio_thread() {
    let mut host = host();
    host.register_instance(instance(16, None)).unwrap();
    host.register_instance(instance(32, Some(AUDIO))).unwrap();
    host.assert_audio_thread("f()", AUDIO);
    assert_eq!(first_error(&mut host), None);
    host.assert_not_audio_thread("f()", AUDIO);
    assert_eq!(
        first_error(&mut host).as_deref(),
        Some("'f()' was called from an audio thread, this is not allowed")
    );
    host.assert_not_audio_thread("f()", OTHER);
    assert_eq!(first_error(&mut host), None);
}

#[test]
fn audio_threads_are_read_when_they_are_needed() {
    let mut host = host();
    let instance = instance(16, None);
    host.register_instance(instance.clone()).unwrap();
    assert!(!host.is_audio_thread(AUDIO));
    instance.audio_thread.store(Some(AUDIO));
    assert!(host.is_audio_thread(AUDIO));
    assert!(!host.is_audio_thread(OTHER));
    assert_eq!(host.audio_threads(), vec![Some(AUDIO)]);
    host.unregister_instance(instance).unwrap();
    assert!(!host.is_audio_thread(AUDIO));
}

#[test]
fn instances_that_are_not_registered_do_not_count() {
    let mut host = host();
    host.register_instance(instance(16, Some(AUDIO))).unwrap();
    let unregistered = instance(32, Some(OTHER));
    assert!(!host.is_audio_thread(OTHER));
    host.assert_not_audio_thread("f()", OTHER);
    assert_eq!(first_error(&mut host), None);
    unregistered.audio_thread.store(Some(MAIN));
    assert!(!host.is_audio_thread(MAIN));
    assert!(host.is_audio_thread(AUDIO));
    assert_eq!(host.audio_threads(), vec![Some(AUDIO)]);
}

#[test]
fn instances_stand_under_their_own_plugins() {
    let mut host = host();
    host.register_instance(instance(7, Some(AUDIO))).unwrap();
    host.register_instance(instance(8, Some(OTHER))).unwrap();
    // Another value for the same plugin is the same instance to the host
    assert_eq!(host.unregister_instance(instance(8, None)), Ok(()));
    assert!(host.is_audio_thread(AUDIO));
    assert!(!host.is_audio_thread(OTHER));
    assert_eq!(
        host.unregister(Some(PluginHandle { address: 8 })),
        Err(RegistrationError::NotRegistered)
    );
    assert_eq!(host.unregister(Some(PluginHandle { address: 7 })), Ok(()));
}

#[test]
fn audio_threads_are_searched() {
    let threads = vec![None, Some(AUDIO)];
    assert!(any_audio_thread(&threads, AUDIO));
    assert!(!any_audio_thread(&threads, MAIN));
    assert!(!any_audio_thread(&Vec::new(), AUDIO));

    let mut host = host();
    host.check_audio_thread("f()", AUDIO, &threads);
    assert_eq!(first_error(&mut host), None);
    host.check_not_audio_thread("f()", AUDIO, &threads);
    assert!(first_error(&mut host).is_some());
}

#[test]
fn each_plugin_is_registered_once() {
    let mut host = host();
    host.register_instance(instance(16, Some(AUDIO))).unwrap();
    assert_eq!(
        host.register_instance(instance(16, Some(OTHER))),
        Err(RegistrationError::AlreadyRegistered)
    );
    assert!(host.is_audio_thread(AUDIO));
    assert!(!host.is_audio_thread(OTHER));
}

#[test]
fn an_instance_needs_a_plugin() {
    let mut host = host();
    let instance = Arc::new(HostPluginInstance::new());
    assert_eq!(
        host.register_instance(instance.clone()),
        Err(RegistrationError::NoPlugin)
    );
    assert_eq!(
        host.unregister_instance(instance),
        Err(RegistrationError::NoPlugin)
    );
}

#[test]
fn unregistering_undoes_registering() {
    let mut host = host();
    let first = instance(16, Some(AUDIO));
    let second = instance(32, Some(OTHER));
    assert_eq!(
        host.unregister_instance(first.clone()),
        Err(RegistrationError::NotRegistered)
    );
    host.register_instance(first.clone()).unwrap();
    host.register_instance(second).unwrap();
    assert_eq!(host.unregister_instance(first.clone()), Ok(()));
    assert!(!host.is_audio_thread(AUDIO));
    assert!(host.is_audio_thread(OTHER));
    assert_eq!(
        host.unregister_instance(first.clone()),
        Err(RegistrationError::NotRegistered)
    );
    assert_eq!(host.register_instance(first), Ok(()));
}

#[test]
fn calls_leave_instances_alone() {
    let mut host = host();
    host.register(Some(PluginHandle { address: 3 }), instance(3, Some(AUDIO)))
        .unwrap();
    host.assert_main_thread("f()", OTHER);
    assert!(host.is_audio_thread(AUDIO));
    assert_eq!(host.unregister(Some(PluginHandle { address: 3 })), Ok(()));
    assert!(first_error(&mut host).is_some());
}

#[test]
fn extensions_are_found_by_their_identifiers() {
    let host = host();
    assert_eq!(
        host.get_extension(b"clap.audio-ports"),
        Some(HostExtension::AudioPorts)
    );
    assert_eq!(
        host.get_extension(b"clap.note-ports"),
        Some(HostExtension::NotePorts)
    );
    assert_eq!(
        host.get_extension(b"clap.params"),
        Some(HostExtension::Params)
    );
    assert_eq!(
        host.get_extension(b"clap.state"),
        Some(HostExtension::State)
    );
    assert_eq!(
        host.get_extension(b"clap.thread-check"),
        Some(HostExtension::ThreadCheck)
    );
    assert_eq!(host.get_extension(b"clap.gui"), None);
    assert_eq!(host.get_extension(b"clap.param"), None);
    assert_eq!(host.get_extension(b"clap.params\0"), None);
    assert_eq!(host.get_extension(b""), None);
}

fn violation_name(call: fn(&mut ClapHost)) -> String {
    let mut host = host();
    host.register_instance(instance(16, Some(AUDIO))).unwrap();
    call(&mut host);
    let message = first_error(&mut host).unwrap();
    message.split('\'').nth(1).unwrap().to_string()
}

#[test]
fn callbacks_name_themselves() {
    assert_eq!(
        violation_name(|host| {
            host.ext_audio_ports_is_rescan_flag_supported(OTHER, 1);
        }),
        "clap_host_audio_ports::is_rescan_flag_supported()"
    );
    assert_eq!(
        violation_name(|host| host.ext_audio_ports_rescan(OTHER, 1)),
        "clap_host_audio_ports::rescan()"
    );
    assert_eq!(
        violation_name(|host| {
            host.ext_note_ports_supported_dialects(OTHER);
        }),
        "clap_host_note_ports::supported_dialects()"
    );
    assert_eq!(
        violation_name(|host| host.ext_note_ports_rescan(OTHER, 1)),
        "clap_host_note_ports::rescan()"
    );
    assert_eq!(
        violation_name(|host| host.ext_params_rescan(OTHER, 1)),
        "clap_host_params::rescan()"
    );
    assert_eq!(
        violation_name(|host| host.ext_params_clear(OTHER, 2, 1)),
        "clap_host_params::clear()"
    );
    assert_eq!(
        violation_name(|host| host.ext_params_request_flush(AUDIO)),
        "clap_host_params::request_flush()"
    );
    assert_eq!(
        violation_name(|host| host.ext_state_mark_dirty(OTHER)),
        "clap_host_state::mark_dirty()"
    );
}

#[test]
fn callbacks_answer() {
    let mut host = host();
    host.register_instance(instance(16, Some(AUDIO))).unwrap();
    assert!(host.ext_audio_ports_is_rescan_flag_supported(MAIN, 0));
    assert_eq!(host.ext_note_ports_supported_dialects(MAIN), 7);
    assert!(host.ext_thread_check_is_main_thread(MAIN));
    assert!(!host.ext_thread_check_is_main_thread(AUDIO));
    assert!(host.ext_thread_check_is_audio_thread(AUDIO));
    assert!(!host.ext_thread_check_is_audio_thread(MAIN));
    host.ext_params_request_flush(MAIN);
    host.ext_params_request_flush(OTHER);
    assert_eq!(first_error(&mut host), None);
}
