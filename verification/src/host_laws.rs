//! What holds of the host as a whole.
use std::sync::Arc;

use vstd::prelude::*;

use crate::host::{HostExtension, HostView};
use crate::instance::{HostPluginInstance, PluginHandle, ThreadId};

verus! {

/// The state after some calls in a row, each of which may have violated a thread rule.
pub open spec fn after_calls(host: HostView, violations: Seq<Option<Seq<char>>>) -> HostView
    decreases violations.len(),
{
    if violations.len() == 0 {
        host
    } else {
        after_calls(host, violations.drop_last()).with_violation(violations.last())
    }
}

/// A violation that has been kept stays as it is until it is handed out, whatever calls come
/// after it.
pub proof fn law_violation_stays(host: HostView, violations: Seq<Option<Seq<char>>>)
    requires
        host.error is Some,
    ensures
        after_calls(host, violations) == host,
    decreases violations.len(),
{
    if violations.len() > 0 {
        law_violation_stays(host, violations.drop_last());
    }
}

/// Calls that follow the thread rules leave the host as it is.
pub proof fn law_no_violation(host: HostView, violations: Seq<Option<Seq<char>>>)
    requires
        forall|i: int| 0 <= i < violations.len() ==> violations[i] is None,
    ensures
        after_calls(host, violations) == host,
    decreases violations.len(),
{
    if violations.len() > 0 {
        law_no_violation(host, violations.drop_last());
    }
}

/// Of all the violations in a row of calls it is the first one that the host keeps.
pub proof fn law_first_violation_is_kept(
    host: HostView,
    violations: Seq<Option<Seq<char>>>,
    first: int,
)
    requires
        host.error is None,
        0 <= first < violations.len(),
        violations[first] is Some,
        forall|i: int| 0 <= i < first ==> violations[i] is None,
    ensures
        after_calls(host, violations) == (HostView { error: violations[first], ..host }),
    decreases violations.len(),
{
    if first == violations.len() - 1 {
        law_no_violation(host, violations.drop_last());
    } else {
        law_first_violation_is_kept(host, violations.drop_last(), first);
    }
}

/// Once a violation has been handed out, the host keeps the next one again.
pub proof fn law_host_starts_over(host: HostView, violation: Option<Seq<char>>)
    ensures
        (HostView { error: None, ..host }).with_violation(violation).error == violation,
{
}

/// A call that only the main thread may make is a violation exactly if it comes from another
/// thread.
pub proof fn law_main_thread_rule(
    host: HostView,
    function_name: Seq<char>,
    current_thread: ThreadId,
)
    requires
        host.error is None,
    ensures
        host.after_main_thread_call(function_name, current_thread).error is None
            <==> current_thread == host.main_thread,
{
}

/// On every thread exactly one of two things is a violation: a call that only audio threads may
/// make, or a call that no audio thread may make.
pub proof fn law_audio_thread_rules(
    host: HostView,
    function_name: Seq<char>,
    current_thread: ThreadId,
    audio_threads: Seq<Option<ThreadId>>,
)
    requires
        host.error is None,
    ensures
        host.after_audio_thread_call(function_name, current_thread, audio_threads).error is Some
            <==> host.after_not_audio_thread_call(
            function_name,
            current_thread,
            audio_threads,
        ).error is None,
        host.after_audio_thread_call(function_name, current_thread, audio_threads).error is None
            <==> crate::host::is_among(audio_threads, current_thread),
{
}

/// A thread that counts as an audio thread was read from a registered instance. If a thread does
/// not count as one, then something else was read from each registered instance.
pub proof fn law_audio_threads_come_from_instances(
    host: HostView,
    audio_threads: Seq<Option<ThreadId>>,
    thread: ThreadId,
)
    requires
        host.read_as(audio_threads),
    ensures
        crate::host::is_among(audio_threads, thread) ==> crate::host::was_read(
            host.instances,
            Some(thread),
        ),
        !crate::host::is_among(audio_threads, thread) ==> forall|address: u64| #[trigger]
            host.instances.contains_key(address) ==> exists|read: Option<ThreadId>|
                read != Some(thread) && #[trigger] crate::host::read_at(
                    host.instances,
                    address,
                    read,
                ),
{
    if crate::host::is_among(audio_threads, thread) {
        let i = choose|i: int|
            0 <= i < audio_threads.len() && audio_threads[i] == Some(thread);
        assert(crate::host::was_read(host.instances, audio_threads[i]));
    } else {
        assert forall|address: u64| #[trigger]
            host.instances.contains_key(address) implies exists|read: Option<ThreadId>|
            read != Some(thread) && #[trigger] crate::host::read_at(
                host.instances,
                address,
                read,
            ) by {
            let i = choose|i: int|
                0 <= i < audio_threads.len() && crate::host::read_at(
                    host.instances,
                    address,
                    #[trigger] audio_threads[i],
                );
            assert(audio_threads.contains(audio_threads[i]));
        }
    }
}

/// Whether nobody stores to the audio threads of the registered instances, so that every read of
/// one of them gives the same.
pub open spec fn audio_threads_rest(host: HostView) -> bool {
    forall|address: u64, first: Option<ThreadId>, second: Option<ThreadId>| #[trigger]
        crate::host::read_at(host.instances, address, first) && #[trigger] crate::host::read_at(
            host.instances,
            address,
            second,
        ) ==> first == second
}

/// As long as nobody stores to the audio threads of the registered instances, a thread is an audio
/// thread exactly if it is the one of a registered instance, however often the question is asked.
pub proof fn law_audio_threads_are_those_of_instances(
    host: HostView,
    audio_threads: Seq<Option<ThreadId>>,
    thread: ThreadId,
)
    requires
        audio_threads_rest(host),
        host.read_as(audio_threads),
    ensures
        crate::host::is_among(audio_threads, thread) <==> crate::host::was_read(
            host.instances,
            Some(thread),
        ),
{
    law_audio_threads_come_from_instances(host, audio_threads, thread);
    if crate::host::was_read(host.instances, Some(thread)) {
        let address = choose|address: u64|
            crate::host::read_at(host.instances, address, Some(thread));
        assert(host.instances.contains_key(address));
        let i = choose|i: int|
            0 <= i < audio_threads.len() && crate::host::read_at(
                host.instances,
                address,
                #[trigger] audio_threads[i],
            );
        assert(audio_threads[i] == Some(thread));
    }
}

/// As long as nobody stores to the audio threads of the registered instances, a call that no audio
/// thread may make is a violation exactly on the audio thread of a registered instance, and a call
/// that only audio threads may make is one exactly on every other thread.
pub proof fn law_audio_thread_rules_go_by_instances(
    host: HostView,
    function_name: Seq<char>,
    current_thread: ThreadId,
    audio_threads: Seq<Option<ThreadId>>,
)
    requires
        audio_threads_rest(host),
        host.read_as(audio_threads),
        host.error is None,
    ensures
        host.after_not_audio_thread_call(function_name, current_thread, audio_threads).error is Some
            <==> crate::host::was_read(host.instances, Some(current_thread)),
        host.after_audio_thread_call(function_name, current_thread, audio_threads).error is Some
            <==> !crate::host::was_read(host.instances, Some(current_thread)),
{
    law_audio_threads_are_those_of_instances(host, audio_threads, current_thread);
}

/// An instance that is not registered has no influence on which threads are audio threads: what
/// counts was read from another instance. Nor has anything else about the host.
pub proof fn law_unregistered_instances_do_not_count(
    host: HostView,
    instance: HostPluginInstance,
    audio_threads: Seq<Option<ThreadId>>,
    thread: ThreadId,
    other_host: HostView,
)
    requires
        host.read_as(audio_threads),
        forall|address: u64| #[trigger]
            host.instances.contains_key(address) ==> *host.instances[address] != instance,
    ensures
        crate::host::is_among(audio_threads, thread) ==> exists|address: u64| #[trigger]
            crate::host::read_at(host.instances, address, Some(thread))
                && *host.instances[address] != instance,
        other_host.instances == host.instances ==> other_host.read_as(audio_threads),
{
    law_audio_threads_come_from_instances(host, audio_threads, thread);
}

/// Each registered instance stands under a handle that was read from it: this holds of a host
/// without instances, registering an instance under a handle that was read from it keeps it, and
/// so does everything else that can happen to a host.
pub proof fn law_instances_stand_under_their_plugins(
    host: HostView,
    plugin: PluginHandle,
    instance: Arc<HostPluginInstance>,
    violation: Option<Seq<char>>,
)
    ensures
        host.instances == Map::<u64, Arc<HostPluginInstance>>::empty() ==> host.filed_by_plugin(),
        host.filed_by_plugin() && crate::host::plugin_read(&*instance, Some(plugin))
            ==> host.with_instance(plugin, instance).filed_by_plugin(),
        host.filed_by_plugin() ==> host.without_instance(plugin).filed_by_plugin(),
        host.filed_by_plugin() ==> host.with_violation(violation).filed_by_plugin(),
        host.filed_by_plugin() ==> (HostView { error: None, ..host }).filed_by_plugin(),
{
    if host.filed_by_plugin() && crate::host::plugin_read(&*instance, Some(plugin)) {
        let after = host.with_instance(plugin, instance);
        assert forall|address: u64| #[trigger]
            after.instances.contains_key(address) implies crate::host::plugin_read(
            &*after.instances[address],
            Some(PluginHandle { address }),
        ) by {
            if address == plugin.address {
                assert(PluginHandle { address } == plugin);
            } else {
                assert(host.instances.contains_key(address));
            }
        }
    }
    if host.filed_by_plugin() {
        let after = host.without_instance(plugin);
        assert forall|address: u64| #[trigger]
            after.instances.contains_key(address) implies crate::host::plugin_read(
            &*after.instances[address],
            Some(PluginHandle { address }),
        ) by {
            assert(host.instances.contains_key(address));
        }
    }
}

/// Registering an instance under what was read from it, and unregistering one, keep each
/// registered instance under a handle that was read from it, whether they succeed or not.
pub proof fn law_registration_keeps_instances_under_their_plugins(
    host: HostView,
    plugin: Option<PluginHandle>,
    instance: Arc<HostPluginInstance>,
)
    requires
        host.filed_by_plugin(),
    ensures
        crate::host::plugin_read(&*instance, plugin) ==> host.registering(
            plugin,
            instance,
        ).1.filed_by_plugin(),
        host.unregistering(plugin).1.filed_by_plugin(),
{
    if let Some(handle) = plugin {
        law_instances_stand_under_their_plugins(host, handle, instance, None);
    }
}

/// Whether nobody stores to the plugins of the registered instances, so that every read of one of
/// them gives the same.
pub open spec fn plugins_rest(host: HostView) -> bool {
    forall|address: u64, first: Option<PluginHandle>, second: Option<PluginHandle>|
        host.instances.contains_key(address) && #[trigger] crate::host::plugin_read(
            &*host.instances[address],
            first,
        ) && #[trigger] crate::host::plugin_read(&*host.instances[address], second) ==> first
            == second
}

/// As long as nobody stores to the plugins of the registered instances, what is read from an
/// instance is the handle that it stands under, so that no two registered instances have the same
/// plugin.
pub proof fn law_one_instance_for_each_plugin(
    host: HostView,
    first: u64,
    second: u64,
    plugin: Option<PluginHandle>,
)
    requires
        host.filed_by_plugin(),
        plugins_rest(host),
        host.instances.contains_key(first),
        host.instances.contains_key(second),
        crate::host::plugin_read(&*host.instances[first], plugin),
        crate::host::plugin_read(&*host.instances[second], plugin),
    ensures
        plugin == Some(PluginHandle { address: first }),
        first == second,
{
    assert(crate::host::plugin_read(
        &*host.instances[first],
        Some(PluginHandle { address: first }),
    ));
    assert(crate::host::plugin_read(
        &*host.instances[second],
        Some(PluginHandle { address: second }),
    ));
}

/// As long as no instance is registered, no thread is an audio thread.
pub proof fn law_no_instance_no_audio_thread(
    host: HostView,
    audio_threads: Seq<Option<ThreadId>>,
    thread: ThreadId,
)
    requires
        host.instances == Map::<u64, Arc<HostPluginInstance>>::empty(),
        host.read_as(audio_threads),
    ensures
        !crate::host::is_among(audio_threads, thread),
{
    assert(host.instances.dom() =~= Set::empty());
}

/// Thread rules and registered instances have nothing to do with each other: a call leaves the
/// instances and the main thread alone, and an instance that comes or goes leaves the kept
/// violation alone.
pub proof fn law_calls_and_instances_are_independent(
    host: HostView,
    violation: Option<Seq<char>>,
    plugin: PluginHandle,
    instance: Arc<HostPluginInstance>,
)
    ensures
        host.with_violation(violation).instances == host.instances,
        host.with_violation(violation).main_thread == host.main_thread,
        host.with_instance(plugin, instance).error == host.error,
        host.with_instance(plugin, instance).main_thread == host.main_thread,
        host.without_instance(plugin).error == host.error,
        host.without_instance(plugin).main_thread == host.main_thread,
        host.with_violation(violation).with_instance(plugin, instance) == host.with_instance(
            plugin,
            instance,
        ).with_violation(violation),
        host.with_violation(violation).without_instance(plugin) == host.without_instance(
            plugin,
        ).with_violation(violation),
{
}

/// Unregistering an instance undoes its registration.
pub proof fn law_unregister_undoes_register(
    host: HostView,
    plugin: PluginHandle,
    instance: Arc<HostPluginInstance>,
)
    requires
        !host.instances.contains_key(plugin.address),
    ensures
        host.with_instance(plugin, instance).without_instance(plugin) == host,
        host.with_instance(plugin, instance).instances.contains_key(plugin.address),
        host.with_instance(plugin, instance).instances[plugin.address] == instance,
{
    assert(host.with_instance(plugin, instance).without_instance(plugin).instances
        =~= host.instances);
}

/// Registering or unregistering an instance leaves those of other plugins alone.
pub proof fn law_other_instances_stay(
    host: HostView,
    plugin: PluginHandle,
    instance: Arc<HostPluginInstance>,
    other: PluginHandle,
)
    requires
        other != plugin,
    ensures
        host.with_instance(plugin, instance).instances.contains_key(other.address)
            == host.instances.contains_key(other.address),
        host.without_instance(plugin).instances.contains_key(other.address)
            == host.instances.contains_key(other.address),
        host.instances.contains_key(other.address) ==> host.with_instance(
            plugin,
            instance,
        ).instances[other.address] == host.instances[other.address],
        host.instances.contains_key(other.address) ==> host.without_instance(
            plugin,
        ).instances[other.address] == host.instances[other.address],
{
}

/// Each extension of the host can be reached under exactly one identifier.
pub proof fn law_extensions_have_one_identifier(extension: HostExtension) -> (identifier: Seq<u8>)
    ensures
        crate::host::extension_of(identifier) == Some(extension),
        forall|other: Seq<u8>| #[trigger]
            crate::host::extension_of(other) == Some(extension) ==> other == identifier,
{
    reveal_strlit("clap.audio-ports");
    reveal_strlit("clap.note-ports");
    reveal_strlit("clap.params");
    reveal_strlit("clap.state");
    reveal_strlit("clap.thread-check");
    let audio_ports = crate::clap::ascii("clap.audio-ports"@);
    let note_ports = crate::clap::ascii("clap.note-ports"@);
    let params = crate::clap::ascii("clap.params"@);
    let state = crate::clap::ascii("clap.state"@);
    let thread_check = crate::clap::ascii("clap.thread-check"@);
    assert(audio_ports.len() == 16 && note_ports.len() == 15 && params.len() == 11 && state.len()
        == 10 && thread_check.len() == 17);
    match extension {
        HostExtension::AudioPorts => audio_ports,
        HostExtension::NotePorts => note_ports,
        HostExtension::Params => params,
        HostExtension::State => state,
        HostExtension::ThreadCheck => thread_check,
    }
}

/// Once there is a violation, no further call changes anything, whichever function it is for and
/// whichever thread it comes from. It stays until it is handed out.
pub proof fn law_later_calls_change_nothing(
    host: HostView,
    function_name: Seq<char>,
    current_thread: ThreadId,
    audio_threads: Seq<Option<ThreadId>>,
)
    requires
        host.error is Some,
    ensures
        host.after_main_thread_call(function_name, current_thread) == host,
        host.after_audio_thread_call(function_name, current_thread, audio_threads) == host,
        host.after_not_audio_thread_call(function_name, current_thread, audio_threads) == host,
{
}

/// A call from a thread that may make it leaves the whole state as it is, be there a violation or
/// not.
pub proof fn law_allowed_calls_change_nothing(
    host: HostView,
    function_name: Seq<char>,
    current_thread: ThreadId,
    audio_threads: Seq<Option<ThreadId>>,
)
    ensures
        current_thread == host.main_thread ==> host.after_main_thread_call(
            function_name,
            current_thread,
        ) == host,
        (exists|i: int|
            0 <= i < audio_threads.len() && #[trigger] audio_threads[i] == Some(current_thread))
            ==> host.after_audio_thread_call(function_name, current_thread, audio_threads) == host,
        (forall|i: int|
            0 <= i < audio_threads.len() ==> #[trigger] audio_threads[i] != Some(current_thread))
            ==> host.after_not_audio_thread_call(function_name, current_thread, audio_threads)
            == host,
{
}

/// The first call from a thread that may not make it adds a message and changes nothing else. The
/// message names the function, and it tells the threads apart.
pub proof fn law_first_forbidden_call_is_reported(
    host: HostView,
    function_name: Seq<char>,
    current_thread: ThreadId,
    audio_threads: Seq<Option<ThreadId>>,
)
    requires
        host.error is None,
    ensures
        current_thread != host.main_thread ==> host.after_main_thread_call(
            function_name,
            current_thread,
        ) == (HostView {
            error: Some(
                "'"@ + function_name + "' may only be called from the main thread (thread "@ + (
                "ThreadId("@ + crate::text::decimal(host.main_thread.id as nat) + ")"@)
                    + "), but it was called from thread "@ + ("ThreadId("@ + crate::text::decimal(
                    current_thread.id as nat,
                ) + ")"@),
            ),
            ..host
        }),
        (forall|i: int|
            0 <= i < audio_threads.len() ==> #[trigger] audio_threads[i] != Some(current_thread))
            ==> host.after_audio_thread_call(function_name, current_thread, audio_threads) == (
        HostView {
            error: Some(
                "'"@ + function_name + (if current_thread == host.main_thread {
                    "' may only be called from an audio thread, but it was called from the main thread"@
                } else {
                    "' may only be called from an audio thread, but it was called from an unknown thread"@
                }),
            ),
            ..host
        }),
        (exists|i: int|
            0 <= i < audio_threads.len() && #[trigger] audio_threads[i] == Some(current_thread))
            ==> host.after_not_audio_thread_call(function_name, current_thread, audio_threads) == (
        HostView {
            error: Some(
                "'"@ + function_name + "' was called from an audio thread, this is not allowed"@,
            ),
            ..host
        }),
{
}

/// A plugin can be registered exactly if it is not registered yet, however many others are. The
/// instance then stands under the plugin's address, and everything else is as before. If it cannot
/// be registered, then nothing changes.
pub proof fn law_any_new_plugin_can_be_registered(
    host: HostView,
    handle: PluginHandle,
    instance: Arc<HostPluginInstance>,
)
    ensures
        ({
            let (result, after) = host.registering(Some(handle), instance);
            &&& result is Ok <==> !host.instances.contains_key(handle.address)
            &&& result matches Err(error) ==> error
                == crate::host::RegistrationError::AlreadyRegistered && after == host
            &&& result is Ok ==> after.instances.contains_key(handle.address)
                && after.instances[handle.address] == instance
            &&& forall|other: u64|
                other != handle.address ==> (#[trigger] after.instances.contains_key(other)
                    <==> host.instances.contains_key(other)) && after.instances[other]
                    == host.instances[other]
            &&& after.main_thread == host.main_thread
            &&& after.error == host.error
        }),
        host.registering(None, instance).0 == Err::<(), crate::host::RegistrationError>(
            crate::host::RegistrationError::NoPlugin,
        ),
        host.registering(None, instance).1 == host,
{
}

/// A plugin can be unregistered exactly if it is registered. Nothing stands under its address then,
/// and everything else is as before. If it cannot be unregistered, then nothing changes.
pub proof fn law_any_registered_plugin_can_be_unregistered(host: HostView, handle: PluginHandle)
    ensures
        ({
            let (result, after) = host.unregistering(Some(handle));
            &&& result is Ok <==> host.instances.contains_key(handle.address)
            &&& result matches Err(error) ==> error
                == crate::host::RegistrationError::NotRegistered && after == host
            &&& !after.instances.contains_key(handle.address)
            &&& forall|other: u64|
                other != handle.address ==> (#[trigger] after.instances.contains_key(other)
                    <==> host.instances.contains_key(other)) && (after.instances.contains_key(other)
                    ==> after.instances[other] == host.instances[other])
            &&& after.main_thread == host.main_thread
            &&& after.error == host.error
        }),
        host.unregistering(None).0 == Err::<(), crate::host::RegistrationError>(
            crate::host::RegistrationError::NoPlugin,
        ),
        host.unregistering(None).1 == host,
{
}

/// Two different plugins can be registered one after the other, and the order does not matter.
pub proof fn law_registrations_commute(
    host: HostView,
    left: PluginHandle,
    left_instance: Arc<HostPluginInstance>,
    right: PluginHandle,
    right_instance: Arc<HostPluginInstance>,
)
    requires
        left != right,
        !host.instances.contains_key(left.address),
        !host.instances.contains_key(right.address),
    ensures
        host.registering(Some(left), left_instance).1.registering(Some(right), right_instance)
            == host.registering(Some(right), right_instance).1.registering(
            Some(left),
            left_instance,
        ),
        host.registering(Some(left), left_instance).1.registering(
            Some(right),
            right_instance,
        ).0 is Ok,
{
    let first = host.registering(Some(left), left_instance).1.registering(
        Some(right),
        right_instance,
    );
    let second = host.registering(Some(right), right_instance).1.registering(
        Some(left),
        left_instance,
    );
    assert(first.1.instances =~= second.1.instances);
}

/// What counts as a read of a plugin or of an audio thread is a load from the instance's own cell.
pub proof fn law_reads_are_loads(
    instance: &HostPluginInstance,
    plugin: Option<PluginHandle>,
    audio_thread: Option<ThreadId>,
)
    ensures
        crate::host::plugin_read(instance, plugin) <==> call_ensures(
            crossbeam::atomic::AtomicCell::<Option<PluginHandle>>::load,
            (&instance.plugin,),
            plugin,
        ),
        crate::host::audio_thread_read(instance, audio_thread) <==> call_ensures(
            crossbeam::atomic::AtomicCell::<Option<ThreadId>>::load,
            (&instance.audio_thread,),
            audio_thread,
        ),
{
}

/// The audio threads that the host goes by are one load for each registered instance: as many as
/// there are instances, each from the cell of a registered instance, and none left out.
pub proof fn law_audio_threads_are_loads(
    host: HostView,
    audio_threads: Seq<Option<ThreadId>>,
    at: int,
    address: u64,
)
    requires
        host.read_as(audio_threads),
    ensures
        audio_threads.len() == host.instances.dom().len(),
        0 <= at < audio_threads.len() ==> exists|from: u64| #[trigger]
            host.instances.contains_key(from) && call_ensures(
                crossbeam::atomic::AtomicCell::<Option<ThreadId>>::load,
                (&host.instances[from].audio_thread,),
                audio_threads[at],
            ),
        host.instances.contains_key(address) ==> exists|i: int|
            0 <= i < audio_threads.len() && call_ensures(
                crossbeam::atomic::AtomicCell::<Option<ThreadId>>::load,
                (&host.instances[address].audio_thread,),
                #[trigger] audio_threads[i],
            ),
{
    if 0 <= at < audio_threads.len() {
        assert(crate::host::was_read(host.instances, audio_threads[at]));
        let from = choose|from: u64|
            crate::host::read_at(host.instances, from, audio_threads[at]);
        assert(host.instances.contains_key(from));
    }
    if host.instances.contains_key(address) {
        let i = choose|i: int|
            0 <= i < audio_threads.len() && crate::host::read_at(
                host.instances,
                address,
                #[trigger] audio_threads[i],
            );
        assert(0 <= i < audio_threads.len());
    }
}

/// Each extension is found under its own identifier, and nothing is found under any other.
pub proof fn law_extensions_are_found_by_identifier(extension_id: Seq<u8>)
    ensures
        crate::host::extension_of(extension_id) == Some(HostExtension::AudioPorts)
            <==> extension_id == crate::clap::ascii("clap.audio-ports"@),
        crate::host::extension_of(extension_id) == Some(HostExtension::NotePorts)
            <==> extension_id == crate::clap::ascii("clap.note-ports"@),
        crate::host::extension_of(extension_id) == Some(HostExtension::Params) <==> extension_id
            == crate::clap::ascii("clap.params"@),
        crate::host::extension_of(extension_id) == Some(HostExtension::State) <==> extension_id
            == crate::clap::ascii("clap.state"@),
        crate::host::extension_of(extension_id) == Some(HostExtension::ThreadCheck)
            <==> extension_id == crate::clap::ascii("clap.thread-check"@),
{
    reveal_strlit("clap.audio-ports");
    reveal_strlit("clap.note-ports");
    reveal_strlit("clap.params");
    reveal_strlit("clap.state");
    reveal_strlit("clap.thread-check");
    let audio = crate::clap::ascii("clap.audio-ports"@);
    let note = crate::clap::ascii("clap.note-ports"@);
    let params = crate::clap::ascii("clap.params"@);
    let state = crate::clap::ascii("clap.state"@);
    let thread = crate::clap::ascii("clap.thread-check"@);
    assert(audio.len() == 16 && note.len() == 15 && params.len() == 11 && state.len() == 10
        && thread.len() == 17);
}

} // verus!
