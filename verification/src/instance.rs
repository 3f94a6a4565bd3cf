//! What the host keeps about one instance of a plugin.
use crossbeam::atomic::AtomicCell;
use vstd::prelude::*;

verus! {

/// A thread of the running program.
#[derive(Debug, Clone, Copy, PartialEq, Eq, Structural)]
pub struct ThreadId {
    /// A number that no other thread has.
    pub id: u64,
}

/// A plugin instance, told apart from the others by its address.
#[derive(Debug, Clone, Copy, PartialEq, Eq, Structural)]
pub struct PluginHandle {
    /// The address of the plugin's own structure.
    pub address: u64,
}

/// The atomic cell of `crossbeam`. Its contents change behind a shared reference, so that nothing
/// is said about them. What a cell was made with never changes.
#[verifier::external_type_specification]
#[verifier::external_body]
#[verifier::reject_recursive_types(T)]
pub struct ExAtomicCell<T>(AtomicCell<T>);

/// The plugin that a cell was made with, if any.
pub uninterp spec fn initial_plugin(cell: AtomicCell<Option<PluginHandle>>) -> Option<PluginHandle>;

/// The audio thread that a cell was made with, if any.
pub uninterp spec fn initial_audio_thread(cell: AtomicCell<Option<ThreadId>>) -> Option<ThreadId>;

/// Makes a cell for a plugin with `AtomicCell::new`.
///
/// Trusted: the cell is made with the given value. What it holds later on is up to every thread
/// that shares it.
#[verifier::external_body]
fn plugin_cell(value: Option<PluginHandle>) -> (cell: AtomicCell<Option<PluginHandle>>)
    ensures
        initial_plugin(cell) == value,
{
    AtomicCell::new(value)
}

/// Makes a cell for an audio thread with `AtomicCell::new`.
///
/// Trusted: the cell is made with the given value. What it holds later on is up to every thread
/// that shares it.
#[verifier::external_body]
fn audio_thread_cell(value: Option<ThreadId>) -> (cell: AtomicCell<Option<ThreadId>>)
    ensures
        initial_audio_thread(cell) == value,
{
    AtomicCell::new(value)
}

/// Trusted: nothing is claimed of `AtomicCell::load`. The value is the one that some thread stored
/// last.
pub assume_specification<T: Copy>[ AtomicCell::<T>::load ](cell: &AtomicCell<T>) -> (value: T)
;

/// How the host introduces itself to plugins.
#[derive(Debug, Clone, Copy)]
pub struct HostDescription {
    /// The host's name.
    pub name: &'static str,
    /// Who makes it.
    pub vendor: &'static str,
    /// Where to find it.
    pub url: &'static str,
    /// Its version.
    pub version: &'static str,
}

/// Information about a plugin instance while it runs. It is shared between the host and whatever
/// drives the instance.
pub struct HostPluginInstance {
    /// The plugin that this instance stands for. It is known only after the plugin has been
    /// created, and creating it takes a host that already exists.
    pub plugin: AtomicCell<Option<PluginHandle>>,
    /// The instance's audio thread, if it has one.
    pub audio_thread: AtomicCell<Option<ThreadId>>,
}

impl HostPluginInstance {
    /// Makes an instance without a plugin and without an audio thread. Both are stored later.
    pub fn new() -> (instance: HostPluginInstance)
        ensures
            initial_plugin(instance.plugin) is None,
            initial_audio_thread(instance.audio_thread) is None,
    {
        HostPluginInstance { plugin: plugin_cell(None), audio_thread: audio_thread_cell(None) }
    }

    /// How the host introduces itself to every instance.
    pub fn host_description() -> (description: HostDescription)
        ensures
            description.name@ == "clap-validator"@,
            description.vendor@ == "Robbert van der Helm"@,
            description.url@ == "https://github.com/robbert-vdh/clap-validator"@,
            description.version@ == "0.1.0"@,
    {
        HostDescription {
            name: "clap-validator",
            vendor: "Robbert van der Helm",
            url: "https://github.com/robbert-vdh/clap-validator",
            version: "0.1.0",
        }
    }
}

} // verus!
