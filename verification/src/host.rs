//! The host: which thread may call what, which plugin instances there are, and what the host
//! answers.
use std::collections::HashMap;
use std::sync::Arc;

use vstd::prelude::*;
use vstd::string::*;

use crate::clap;
use crate::instance::{HostPluginInstance, PluginHandle, ThreadId};
use crate::text;

verus! {

broadcast use vstd::std_specs::hash::group_hash_axioms;

/// How a thread is written in a message.
pub open spec fn thread_text(thread: ThreadId) -> Seq<char> {
    "ThreadId("@ + text::decimal(thread.id as nat) + ")"@
}

/// What is wrong with a call that only the main thread may make, if anything is.
pub open spec fn main_thread_violation(
    function_name: Seq<char>,
    main_thread: ThreadId,
    current_thread: ThreadId,
) -> Option<Seq<char>> {
    if current_thread == main_thread {
        None
    } else {
        Some(
            "'"@ + function_name + "' may only be called from the main thread (thread "@
                + thread_text(main_thread) + "), but it was called from thread "@ + thread_text(
                current_thread,
            ),
        )
    }
}

/// Whether a thread is one of the audio threads of the instances.
pub open spec fn is_among(threads: Seq<Option<ThreadId>>, thread: ThreadId) -> bool {
    threads.contains(Some(thread))
}

/// What is wrong with a call that only an audio thread may make, if anything is.
pub open spec fn audio_thread_violation(
    function_name: Seq<char>,
    main_thread: ThreadId,
    current_thread: ThreadId,
    audio_threads: Seq<Option<ThreadId>>,
) -> Option<Seq<char>> {
    if is_among(audio_threads, current_thread) {
        None
    } else if current_thread == main_thread {
        Some(
            "'"@ + function_name
                + "' may only be called from an audio thread, but it was called from the main thread"@,
        )
    } else {
        Some(
            "'"@ + function_name
                + "' may only be called from an audio thread, but it was called from an unknown thread"@,
        )
    }
}

/// What is wrong with a call that no audio thread may make, if anything is.
pub open spec fn not_audio_thread_violation(
    function_name: Seq<char>,
    current_thread: ThreadId,
    audio_threads: Seq<Option<ThreadId>>,
) -> Option<Seq<char>> {
    if is_among(audio_threads, current_thread) {
        Some("'"@ + function_name + "' was called from an audio thread, this is not allowed"@)
    } else {
        None
    }
}

/// Whether a read of an instance's plugin can have given this.
pub open spec fn plugin_read(instance: &HostPluginInstance, plugin: Option<PluginHandle>) -> bool {
    call_ensures(
        crossbeam::atomic::AtomicCell::<Option<PluginHandle>>::load,
        (&instance.plugin,),
        plugin,
    )
}

/// Whether a read of an instance's audio thread can have given this.
pub open spec fn audio_thread_read(
    instance: &HostPluginInstance,
    audio_thread: Option<ThreadId>,
) -> bool {
    call_ensures(
        crossbeam::atomic::AtomicCell::<Option<ThreadId>>::load,
        (&instance.audio_thread,),
        audio_thread,
    )
}

/// Whether a read of the audio thread of the instance at an address can have given this.
pub open spec fn read_at(
    instances: Map<u64, Arc<HostPluginInstance>>,
    address: u64,
    audio_thread: Option<ThreadId>,
) -> bool {
    instances.contains_key(address) && audio_thread_read(&*instances[address], audio_thread)
}

/// Whether a read of the audio thread of some instance can have given this.
pub open spec fn was_read(
    instances: Map<u64, Arc<HostPluginInstance>>,
    audio_thread: Option<ThreadId>,
) -> bool {
    exists|address: u64| read_at(instances, address, audio_thread)
}

/// The state of a host.
#[verifier::ext_equal]
pub struct HostView {
    /// The thread that counts as the main thread.
    pub main_thread: ThreadId,
    /// The first violation of a thread rule that nobody has asked for yet.
    pub error: Option<Seq<char>>,
    /// The registered plugin instances by the addresses of their plugins.
    pub instances: Map<u64, Arc<HostPluginInstance>>,
}

impl HostView {
    /// The state after a call that may have violated a thread rule. An earlier violation stays.
    pub open spec fn with_violation(self, violation: Option<Seq<char>>) -> HostView {
        HostView {
            error: if self.error is Some {
                self.error
            } else {
                violation
            },
            ..self
        }
    }

    /// The state after a call that only the main thread may make.
    pub open spec fn after_main_thread_call(
        self,
        function_name: Seq<char>,
        current_thread: ThreadId,
    ) -> HostView {
        self.with_violation(
            main_thread_violation(function_name, self.main_thread, current_thread),
        )
    }

    /// The state after a call that only an audio thread may make.
    pub open spec fn after_audio_thread_call(
        self,
        function_name: Seq<char>,
        current_thread: ThreadId,
        audio_threads: Seq<Option<ThreadId>>,
    ) -> HostView {
        self.with_violation(
            audio_thread_violation(function_name, self.main_thread, current_thread, audio_threads),
        )
    }

    /// The state after a call that no audio thread may make.
    pub open spec fn after_not_audio_thread_call(
        self,
        function_name: Seq<char>,
        current_thread: ThreadId,
        audio_threads: Seq<Option<ThreadId>>,
    ) -> HostView {
        self.with_violation(
            not_audio_thread_violation(function_name, current_thread, audio_threads),
        )
    }

    /// The state with one more instance.
    pub open spec fn with_instance(
        self,
        plugin: PluginHandle,
        instance: Arc<HostPluginInstance>,
    ) -> HostView {
        HostView { instances: self.instances.insert(plugin.address, instance), ..self }
    }

    /// The state without an instance.
    pub open spec fn without_instance(self, plugin: PluginHandle) -> HostView {
        HostView { instances: self.instances.remove(plugin.address), ..self }
    }

    /// Whether these are the audio threads, or `None` for instances without one, that were read
    /// from the cells of the registered instances: there are as many as there are instances, each
    /// was read from an instance, and each instance was read.
    pub open spec fn read_as(self, audio_threads: Seq<Option<ThreadId>>) -> bool {
        &&& audio_threads.len() == self.instances.dom().len()
        &&& forall|i: int|
            0 <= i < audio_threads.len() ==> was_read(self.instances, #[trigger] audio_threads[i])
        &&& forall|address: u64| #[trigger]
            self.instances.contains_key(address) ==> exists|i: int|
                0 <= i < audio_threads.len() && read_at(
                    self.instances,
                    address,
                    #[trigger] audio_threads[i],
                )
    }

    /// Whether each registered instance stands under a handle that was read from it.
    pub open spec fn filed_by_plugin(self) -> bool {
        forall|address: u64| #[trigger]
            self.instances.contains_key(address) ==> plugin_read(
                &*self.instances[address],
                Some(PluginHandle { address }),
            )
    }

    /// What registering an instance for a plugin results in, and the state after it.
    pub open spec fn registering(
        self,
        plugin: Option<PluginHandle>,
        instance: Arc<HostPluginInstance>,
    ) -> (Result<(), RegistrationError>, HostView) {
        match plugin {
            None => (Err(RegistrationError::NoPlugin), self),
            Some(handle) => if self.instances.contains_key(handle.address) {
                (Err(RegistrationError::AlreadyRegistered), self)
            } else {
                (Ok(()), self.with_instance(handle, instance))
            },
        }
    }

    /// What unregistering the instance of a plugin results in, and the state after it.
    pub open spec fn unregistering(self, plugin: Option<PluginHandle>) -> (
        Result<(), RegistrationError>,
        HostView,
    ) {
        match plugin {
            None => (Err(RegistrationError::NoPlugin), self),
            Some(handle) => if self.instances.contains_key(handle.address) {
                (Ok(()), self.without_instance(handle))
            } else {
                (Err(RegistrationError::NotRegistered), self)
            },
        }
    }
}

/// Why an instance could not be registered or unregistered.
#[derive(Debug, Clone, Copy, PartialEq, Eq, Structural)]
pub enum RegistrationError {
    /// The instance has no plugin yet.
    NoPlugin,
    /// Another instance is registered for the plugin.
    AlreadyRegistered,
    /// No instance is registered for the plugin.
    NotRegistered,
}

/// The extensions that the host offers to plugins.
#[derive(Debug, Clone, Copy, PartialEq, Eq, Structural)]
pub enum HostExtension {
    /// Audio ports.
    AudioPorts,
    /// Note ports.
    NotePorts,
    /// Parameters.
    Params,
    /// Saved state.
    State,
    /// Questions about the current thread.
    ThreadCheck,
}

/// The extension behind an identifier, if the host has it.
pub open spec fn extension_of(extension_id: Seq<u8>) -> Option<HostExtension> {
    if extension_id == clap::ascii("clap.audio-ports"@) {
        Some(HostExtension::AudioPorts)
    } else if extension_id == clap::ascii("clap.note-ports"@) {
        Some(HostExtension::NotePorts)
    } else if extension_id == clap::ascii("clap.params"@) {
        Some(HostExtension::Params)
    } else if extension_id == clap::ascii("clap.state"@) {
        Some(HostExtension::State)
    } else if extension_id == clap::ascii("clap.thread-check"@) {
        Some(HostExtension::ThreadCheck)
    } else {
        None
    }
}

/// A host for plugins. It answers the plugins' calls and checks that they come from the right
/// threads. The first violation is kept until [`ClapHost::thread_safety_check`] hands it out.
///
/// The host is a plain value. Plugins and threads that share one share it behind a lock, and each
/// function here is what happens while the lock is held.
pub struct ClapHost {
    main_thread_id: ThreadId,
    thread_safety_error: Option<String>,
    instances: HashMap<u64, Arc<HostPluginInstance>>,
}

impl View for ClapHost {
    type V = HostView;

    closed spec fn view(&self) -> HostView {
        HostView {
            main_thread: self.main_thread_id,
            error: match self.thread_safety_error {
                Some(message) => Some(message@),
                None => None,
            },
            instances: self.instances@,
        }
    }
}

/// Writes a thread for a message.
fn write_thread(thread: ThreadId) -> (result: String)
    ensures
        result@ == thread_text(thread),
{
    let mut result = "ThreadId(".to_owned();
    result.append(text::decimal_text(thread.id).as_str());
    result.append(")");
    result
}

/// Whether a thread is one of the audio threads that were read from the instances.
pub fn any_audio_thread(audio_threads: &Vec<Option<ThreadId>>, thread_id: ThreadId) -> (found: bool)
    ensures
        found == is_among(audio_threads@, thread_id),
        found == exists|i: int|
            0 <= i < audio_threads@.len() && #[trigger] audio_threads@[i] == Some(thread_id),
{
    let mut at: usize = 0;
    while at < audio_threads.len()
        invariant
            at <= audio_threads@.len(),
            forall|i: int| 0 <= i < at ==> audio_threads@[i] != Some(thread_id),
        decreases audio_threads@.len() - at,
    {
        match audio_threads[at] {
            Some(audio_thread) => {
                if audio_thread == thread_id {
                    assert(audio_threads@[at as int] == Some(thread_id));
                    return true;
                }
            },
            None => {},
        }
        at = at + 1;
    }
    false
}

impl ClapHost {
    /// Makes a host without instances. The given thread counts as the main thread.
    pub fn new(main_thread_id: ThreadId) -> (host: ClapHost)
        ensures
            host@ == (HostView {
                main_thread: main_thread_id,
                error: None,
                instances: Map::empty(),
            }),
    {
        ClapHost { main_thread_id, thread_safety_error: None, instances: HashMap::new() }
    }

    /// Registers an instance for the plugin that was read from it. Each plugin can be registered
    /// once.
    pub fn register(
        &mut self,
        plugin: Option<PluginHandle>,
        instance: Arc<HostPluginInstance>,
    ) -> (result: Result<(), RegistrationError>)
        ensures
            (result, final(self)@) == old(self)@.registering(plugin, instance),
            final(self)@.main_thread == old(self)@.main_thread,
            final(self)@.error == old(self)@.error,
            match plugin {
                None => result == Err::<(), RegistrationError>(RegistrationError::NoPlugin),
                Some(handle) => if old(self)@.instances.contains_key(handle.address) {
                    result == Err::<(), RegistrationError>(RegistrationError::AlreadyRegistered)
                } else {
                    result == Ok::<(), RegistrationError>(()) && final(self)@.instances
                        == old(self)@.instances.insert(handle.address, instance)
                },
            },
            result is Err ==> final(self)@.instances == old(self)@.instances,
    {
        match plugin {
            None => Err(RegistrationError::NoPlugin),
            Some(handle) => {
                if self.instances.contains_key(&handle.address) {
                    Err(RegistrationError::AlreadyRegistered)
                } else {
                    self.instances.insert(handle.address, instance);
                    Ok(())
                }
            },
        }
    }

    /// Registers an instance. Its plugin must have been stored in it before.
    pub fn register_instance(&mut self, instance: Arc<HostPluginInstance>) -> (result: Result<
        (),
        RegistrationError,
    >)
        ensures
            exists|plugin: Option<PluginHandle>| #[trigger]
                plugin_read(&*instance, plugin) && (result, final(self)@) == old(self)@.registering(
                    plugin,
                    instance,
                ),
    {
        let plugin = instance.plugin.load();
        assert(plugin_read(&*instance, plugin));
        self.register(plugin, instance)
    }

    /// Removes the instance that is registered for the plugin that was read from it.
    pub fn unregister(&mut self, plugin: Option<PluginHandle>) -> (result: Result<
        (),
        RegistrationError,
    >)
        ensures
            (result, final(self)@) == old(self)@.unregistering(plugin),
            final(self)@.main_thread == old(self)@.main_thread,
            final(self)@.error == old(self)@.error,
            match plugin {
                None => result == Err::<(), RegistrationError>(RegistrationError::NoPlugin),
                Some(handle) => if old(self)@.instances.contains_key(handle.address) {
                    result == Ok::<(), RegistrationError>(()) && final(self)@.instances
                        == old(self)@.instances.remove(handle.address)
                } else {
                    result == Err::<(), RegistrationError>(RegistrationError::NotRegistered)
                },
            },
            result is Err ==> final(self)@.instances == old(self)@.instances,
    {
        match plugin {
            None => Err(RegistrationError::NoPlugin),
            Some(handle) => {
                let removed = self.instances.remove(&handle.address);
                match removed {
                    Some(_) => Ok(()),
                    None => {
                        assert(self@.instances =~= old(self)@.instances);
                        Err(RegistrationError::NotRegistered)
                    },
                }
            },
        }
    }

    /// Removes an instance from the registered ones.
    pub fn unregister_instance(&mut self, instance: Arc<HostPluginInstance>) -> (result: Result<
        (),
        RegistrationError,
    >)
        ensures
            exists|plugin: Option<PluginHandle>| #[trigger]
                plugin_read(&*instance, plugin) && (result, final(self)@)
                    == old(self)@.unregistering(plugin),
    {
        let plugin = instance.plugin.load();
        assert(plugin_read(&*instance, plugin));
        self.unregister(plugin)
    }

    /// Hands out the first violation of a thread rule since the last time this was asked, if
    /// there was one, and forgets it.
    pub fn thread_safety_check(&mut self) -> (result: Result<(), String>)
        ensures
            match old(self)@.error {
                Some(message) => result matches Err(error) && error@ == message,
                None => result is Ok,
            },
            final(self)@ == (HostView { error: None, ..old(self)@ }),
    {
        match self.thread_safety_error.take() {
            Some(error) => Err(error),
            None => Ok(()),
        }
    }

    /// Keeps a violation, unless there is an earlier one.
    fn keep_first(&mut self, violation: Option<String>)
        ensures
            final(self)@ == old(self)@.with_violation(
                match violation {
                    Some(message) => Some(message@),
                    None => None,
                },
            ),
    {
        if self.thread_safety_error.is_none() {
            self.thread_safety_error = violation;
        }
    }

    /// Checks that the current thread is the main thread. A violation can be had from
    /// [`ClapHost::thread_safety_check`]. Later violations do not replace earlier ones.
    pub fn assert_main_thread(&mut self, function_name: &str, current_thread_id: ThreadId)
        ensures
            final(self)@ == old(self)@.after_main_thread_call(function_name@, current_thread_id),
            old(self)@.error is Some || current_thread_id == old(self)@.main_thread ==> final(self)@
                == old(self)@,
            old(self)@.error is None && current_thread_id != old(self)@.main_thread ==> final(self)@.error is Some,
    {
        if !self.is_main_thread(current_thread_id) {
            let mut message = "'".to_owned();
            message.append(function_name);
            message.append("' may only be called from the main thread (thread ");
            message.append(write_thread(self.main_thread_id).as_str());
            message.append("), but it was called from thread ");
            message.append(write_thread(current_thread_id).as_str());
            self.keep_first(Some(message));
        }
    }

    /// Whether a thread is the main thread.
    pub(crate) fn is_main_thread(&self, thread_id: ThreadId) -> (result: bool)
        ensures
            result == (thread_id == self@.main_thread),
    {
        thread_id == self.main_thread_id
    }

    /// Reads the audio thread of each registered instance.
    pub fn audio_threads(&self) -> (threads: Vec<Option<ThreadId>>)
        ensures
            self@.read_as(threads@),
    {
        let mut threads: Vec<Option<ThreadId>> = Vec::new();
        let ghost values = vstd::std_specs::iter::IteratorSpec::remaining(
            &vstd::std_specs::hash::spec_values_iter(&self.instances),
        ).unref();
        for instance in iter: self.instances.values()
            invariant
                threads@.len() == iter.index(),
                iter.seq().unref() == values,
                values.len() == iter.seq().len(),
                values.len() == self@.instances.dom().len(),
                forall|i: int|
                    0 <= i < threads@.len() ==> audio_thread_read(
                        &*values[i],
                        #[trigger] threads@[i],
                    ),
        {
            let thread = instance.audio_thread.load();
            assert(audio_thread_read(&**instance, thread));
            threads.push(thread);
        }
        proof {
            assert(values.to_set() == self@.instances.values());
            assert forall|i: int| 0 <= i < threads@.len() implies was_read(
                self@.instances,
                #[trigger] threads@[i],
            ) by {
                assert(values.to_set().contains(values[i]));
                let address = choose|address: u64| #[trigger]
                    self@.instances.contains_key(address) && self@.instances[address] == values[i];
                assert(read_at(self@.instances, address, threads@[i]));
            }
            assert forall|address: u64| #[trigger]
                self@.instances.contains_key(address) implies exists|i: int|
                0 <= i < threads@.len() && read_at(
                    self@.instances,
                    address,
                    #[trigger] threads@[i],
                ) by {
                assert(values.to_set().contains(self@.instances[address]));
                let i = choose|i: int|
                    0 <= i < values.len() && values[i] == self@.instances[address];
                assert(read_at(self@.instances, address, threads@[i]));
            }
        }
        threads
    }

    /// Whether a thread is the audio thread of a registered instance at this moment.
    pub fn is_audio_thread(&self, thread_id: ThreadId) -> (result: bool)
        ensures
            exists|threads: Seq<Option<ThreadId>>| #[trigger]
                self@.read_as(threads) && result == is_among(threads, thread_id),
    {
        let threads = self.audio_threads();
        any_audio_thread(&threads, thread_id)
    }

    /// Checks that the current thread is one of the given audio threads. Later violations do not
    /// replace earlier ones.
    pub fn check_audio_thread(
        &mut self,
        function_name: &str,
        current_thread_id: ThreadId,
        audio_threads: &Vec<Option<ThreadId>>,
    )
        ensures
            final(self)@ == old(self)@.after_audio_thread_call(
                function_name@,
                current_thread_id,
                audio_threads@,
            ),
            old(self)@.error is Some || audio_threads@.contains(Some(current_thread_id)) ==> final(self)@ == old(self)@,
            old(self)@.error is None && !audio_threads@.contains(Some(current_thread_id)) ==> final(self)@.error is Some,
    {
        if !any_audio_thread(audio_threads, current_thread_id) {
            let mut message = "'".to_owned();
            message.append(function_name);
            if self.is_main_thread(current_thread_id) {
                message.append(
                    "' may only be called from an audio thread, but it was called from the main thread",
                );
            } else {
                message.append(
                    "' may only be called from an audio thread, but it was called from an unknown thread",
                );
            }
            self.keep_first(Some(message));
        }
    }

    /// Checks that the current thread is an audio thread. A violation can be had from
    /// [`ClapHost::thread_safety_check`]. Later violations do not replace earlier ones.
    pub fn assert_audio_thread(&mut self, function_name: &str, current_thread_id: ThreadId)
        ensures
            exists|threads: Seq<Option<ThreadId>>| #[trigger]
                old(self)@.read_as(threads) && final(self)@ == old(self)@.after_audio_thread_call(
                    function_name@,
                    current_thread_id,
                    threads,
                ),
    {
        let threads = self.audio_threads();
        self.check_audio_thread(function_name, current_thread_id, &threads);
    }

    /// Checks that the current thread is none of the given audio threads. Later violations do not
    /// replace earlier ones.
    pub fn check_not_audio_thread(
        &mut self,
        function_name: &str,
        current_thread_id: ThreadId,
        audio_threads: &Vec<Option<ThreadId>>,
    )
        ensures
            final(self)@ == old(self)@.after_not_audio_thread_call(
                function_name@,
                current_thread_id,
                audio_threads@,
            ),
            old(self)@.error is Some || !audio_threads@.contains(Some(current_thread_id)) ==> final(self)@ == old(self)@,
            old(self)@.error is None && audio_threads@.contains(Some(current_thread_id)) ==> final(self)@.error is Some,
    {
        if any_audio_thread(audio_threads, current_thread_id) {
            let mut message = "'".to_owned();
            message.append(function_name);
            message.append("' was called from an audio thread, this is not allowed");
            self.keep_first(Some(message));
        }
    }

    /// Checks that the current thread is **not** an audio thread. A violation can be had from
    /// [`ClapHost::thread_safety_check`]. Later violations do not replace earlier ones.
    pub fn assert_not_audio_thread(&mut self, function_name: &str, current_thread_id: ThreadId)
        ensures
            exists|threads: Seq<Option<ThreadId>>| #[trigger]
                old(self)@.read_as(threads) && final(self)@
                    == old(self)@.after_not_audio_thread_call(
                    function_name@,
                    current_thread_id,
                    threads,
                ),
    {
        let threads = self.audio_threads();
        self.check_not_audio_thread(function_name, current_thread_id, &threads);
    }

    /// Finds the extension that a plugin asks for. The identifier comes without its final zero
    /// byte.
    pub fn get_extension(&self, extension_id: &[u8]) -> (extension: Option<HostExtension>)
        ensures
            extension == extension_of(extension_id@),
    {
        if clap::same_bytes(extension_id, &clap::ext_audio_ports()) {
            Some(HostExtension::AudioPorts)
        } else if clap::same_bytes(extension_id, &clap::ext_note_ports()) {
            Some(HostExtension::NotePorts)
        } else if clap::same_bytes(extension_id, &clap::ext_params()) {
            Some(HostExtension::Params)
        } else if clap::same_bytes(extension_id, &clap::ext_state()) {
            Some(HostExtension::State)
        } else if clap::same_bytes(extension_id, &clap::ext_thread_check()) {
            Some(HostExtension::ThreadCheck)
        } else {
            None
        }
    }
}

} // verus!
