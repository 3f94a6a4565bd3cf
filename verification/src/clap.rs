//! The constants of the CLAP interface that the host and the parameter rules go by.
//!
//! The values come from `clap_sys`. What stands here says which values the rest of the library
//! relies on.
use vstd::prelude::*;

verus! {

/// The bits of a parameter's flags that the rules on parameters look at.
#[derive(Debug, Clone, Copy, PartialEq, Eq, Structural)]
pub struct ParamFlags {
    /// The parameter takes whole values only.
    pub stepped: u32,
    /// The parameter switches the plugin's processing off.
    pub bypass: u32,
    /// The parameter can be automated.
    pub automatable: u32,
    /// The parameter can be automated for each note ID.
    pub automatable_per_note_id: u32,
    /// The parameter can be automated for each key.
    pub automatable_per_key: u32,
    /// The parameter can be automated for each channel.
    pub automatable_per_channel: u32,
    /// The parameter can be automated for each port.
    pub automatable_per_port: u32,
    /// The parameter can be modulated.
    pub modulatable: u32,
    /// The parameter can be modulated for each note ID.
    pub modulatable_per_note_id: u32,
    /// The parameter can be modulated for each key.
    pub modulatable_per_key: u32,
    /// The parameter can be modulated for each channel.
    pub modulatable_per_channel: u32,
    /// The parameter can be modulated for each port.
    pub modulatable_per_port: u32,
}

/// The flag bits of the interface.
pub open spec fn clap_param_flags() -> ParamFlags {
    ParamFlags {
        stepped: 0x0001,
        bypass: 0x0010,
        automatable: 0x0020,
        automatable_per_note_id: 0x0040,
        automatable_per_key: 0x0080,
        automatable_per_channel: 0x0100,
        automatable_per_port: 0x0200,
        modulatable: 0x0400,
        modulatable_per_note_id: 0x0800,
        modulatable_per_key: 0x1000,
        modulatable_per_channel: 0x2000,
        modulatable_per_port: 0x4000,
    }
}

/// Collects the `CLAP_PARAM_IS_*` constants of `clap_sys::ext::params`.
///
/// Trusted: each constant has the value that `clap_param_flags` gives it.
#[verifier::external_body]
pub(crate) fn param_flags() -> (flags: ParamFlags)
    ensures
        flags == clap_param_flags(),
{
    ParamFlags {
        stepped: clap_sys::ext::params::CLAP_PARAM_IS_STEPPED,
        bypass: clap_sys::ext::params::CLAP_PARAM_IS_BYPASS,
        automatable: clap_sys::ext::params::CLAP_PARAM_IS_AUTOMATABLE,
        automatable_per_note_id: clap_sys::ext::params::CLAP_PARAM_IS_AUTOMATABLE_PER_NOTE_ID,
        automatable_per_key: clap_sys::ext::params::CLAP_PARAM_IS_AUTOMATABLE_PER_KEY,
        automatable_per_channel: clap_sys::ext::params::CLAP_PARAM_IS_AUTOMATABLE_PER_CHANNEL,
        automatable_per_port: clap_sys::ext::params::CLAP_PARAM_IS_AUTOMATABLE_PER_PORT,
        modulatable: clap_sys::ext::params::CLAP_PARAM_IS_MODULATABLE,
        modulatable_per_note_id: clap_sys::ext::params::CLAP_PARAM_IS_MODULATABLE_PER_NOTE_ID,
        modulatable_per_key: clap_sys::ext::params::CLAP_PARAM_IS_MODULATABLE_PER_KEY,
        modulatable_per_channel: clap_sys::ext::params::CLAP_PARAM_IS_MODULATABLE_PER_CHANNEL,
        modulatable_per_port: clap_sys::ext::params::CLAP_PARAM_IS_MODULATABLE_PER_PORT,
    }
}

/// The note dialects that the host supports.
#[derive(Debug, Clone, Copy, PartialEq, Eq, Structural)]
pub struct NoteDialects {
    /// CLAP's own note events.
    pub clap: u32,
    /// MIDI 1.0.
    pub midi: u32,
    /// MIDI 1.0 with polyphonic expression.
    pub midi_mpe: u32,
}

/// The bits of these dialects in the interface.
pub open spec fn clap_note_dialects() -> NoteDialects {
    NoteDialects { clap: 1, midi: 2, midi_mpe: 4 }
}

/// Collects the `CLAP_NOTE_DIALECT_*` constants of `clap_sys::ext::note_ports`.
///
/// Trusted: each constant has the value that `clap_note_dialects` gives it.
#[verifier::external_body]
pub(crate) fn note_dialects() -> (dialects: NoteDialects)
    ensures
        dialects == clap_note_dialects(),
{
    NoteDialects {
        clap: clap_sys::ext::note_ports::CLAP_NOTE_DIALECT_CLAP,
        midi: clap_sys::ext::note_ports::CLAP_NOTE_DIALECT_MIDI,
        midi_mpe: clap_sys::ext::note_ports::CLAP_NOTE_DIALECT_MIDI_MPE,
    }
}

/// The bytes of a text of plain ASCII characters.
pub open spec fn ascii(text: Seq<char>) -> Seq<u8> {
    Seq::new(text.len(), |i: int| text[i] as u8)
}

/// Gives `clap_sys::ext::audio_ports::CLAP_EXT_AUDIO_PORTS` without its final zero byte.
///
/// Trusted: the constant is the stated identifier.
#[verifier::external_body]
pub(crate) fn ext_audio_ports() -> (id: Vec<u8>)
    ensures
        id@ == ascii("clap.audio-ports"@),
{
    clap_sys::ext::audio_ports::CLAP_EXT_AUDIO_PORTS.to_bytes().to_vec()
}

/// Gives `clap_sys::ext::note_ports::CLAP_EXT_NOTE_PORTS` without its final zero byte.
///
/// Trusted: the constant is the stated identifier.
#[verifier::external_body]
pub(crate) fn ext_note_ports() -> (id: Vec<u8>)
    ensures
        id@ == ascii("clap.note-ports"@),
{
    clap_sys::ext::note_ports::CLAP_EXT_NOTE_PORTS.to_bytes().to_vec()
}

/// Gives `clap_sys::ext::params::CLAP_EXT_PARAMS` without its final zero byte.
///
/// Trusted: the constant is the stated identifier.
#[verifier::external_body]
pub(crate) fn ext_params() -> (id: Vec<u8>)
    ensures
        id@ == ascii("clap.params"@),
{
    clap_sys::ext::params::CLAP_EXT_PARAMS.to_bytes().to_vec()
}

/// Gives `clap_sys::ext::state::CLAP_EXT_STATE` without its final zero byte.
///
/// Trusted: the constant is the stated identifier.
#[verifier::external_body]
pub(crate) fn ext_state() -> (id: Vec<u8>)
    ensures
        id@ == ascii("clap.state"@),
{
    clap_sys::ext::state::CLAP_EXT_STATE.to_bytes().to_vec()
}

/// Gives `clap_sys::ext::thread_check::CLAP_EXT_THREAD_CHECK` without its final zero byte.
///
/// Trusted: the constant is the stated identifier.
#[verifier::external_body]
pub(crate) fn ext_thread_check() -> (id: Vec<u8>)
    ensures
        id@ == ascii("clap.thread-check"@),
{
    clap_sys::ext::thread_check::CLAP_EXT_THREAD_CHECK.to_bytes().to_vec()
}

/// Whether two byte strings are the same.
pub(crate) fn same_bytes(left: &[u8], right: &Vec<u8>) -> (same: bool)
    ensures
        same == (left@ == right@),
{
    if left.len() != right.len() {
        return false;
    }
    let mut at: usize = 0;
    while at < left.len()
        invariant
            at <= left@.len(),
            left@.len() == right@.len(),
            forall|i: int| 0 <= i < at ==> left@[i] == right@[i],
        decreases left@.len() - at,
    {
        if left[at] != right[at] {
            return false;
        }
        at = at + 1;
    }
    assert(left@ == right@);
    true
}

/// The bytes of a text of plain ASCII characters are its UTF-8.
pub proof fn law_ascii_is_utf8(text: Seq<char>)
    requires
        vstd::utf8::is_ascii_chars(text),
    ensures
        ascii(text) == vstd::utf8::encode_utf8(text),
{
    vstd::utf8::is_ascii_chars_encode_utf8(text);
    assert(ascii(text) =~= vstd::utf8::encode_utf8(text));
}

} // verus!
