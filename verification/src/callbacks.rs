//! What the host does when a plugin calls one of its functions.
//!
//! Each function here is behind one entry of the tables that the host hands to plugins. The
//! calling thread is an argument. A host that is missing altogether is dealt with where the
//! pointer arrives.
use vstd::prelude::*;

use crate::clap;
use crate::host::ClapHost;
use crate::instance::ThreadId;

verus! {

impl ClapHost {
    /// A plugin asks whether the host can rescan audio ports in some way. It can in every way.
    pub fn ext_audio_ports_is_rescan_flag_supported(&mut self, current_thread_id: ThreadId, _flag: u32) -> (supported: bool)
        ensures
            supported,
            final(self)@ == old(self)@.after_main_thread_call(
                "clap_host_audio_ports::is_rescan_flag_supported()"@,
                current_thread_id,
            ),
    {
        self.assert_main_thread("clap_host_audio_ports::is_rescan_flag_supported()", current_thread_id);
        true
    }
    /// A plugin asks the host to look at its audio ports again.
    pub fn ext_audio_ports_rescan(&mut self, current_thread_id: ThreadId, _flags: u32)
        ensures
            final(self)@ == old(self)@.after_main_thread_call(
                "clap_host_audio_ports::rescan()"@,
                current_thread_id,
            ),
    {
        self.assert_main_thread("clap_host_audio_ports::rescan()", current_thread_id);
    }
    /// A plugin asks which note dialects the host supports: CLAP, MIDI, and MIDI with polyphonic
    /// expression.
    pub fn ext_note_ports_supported_dialects(&mut self, current_thread_id: ThreadId) -> (dialects: u32)
        ensures
            dialects == clap::clap_note_dialects().clap | clap::clap_note_dialects().midi
                | clap::clap_note_dialects().midi_mpe,
            dialects == 7,
            final(self)@ == old(self)@.after_main_thread_call(
                "clap_host_note_ports::supported_dialects()"@,
                current_thread_id,
            ),
    {
        self.assert_main_thread("clap_host_note_ports::supported_dialects()", current_thread_id);
        let known = clap::note_dialects();
        assert(1u32 | 2u32 | 4u32 == 7u32) by (bit_vector);
        known.clap | known.midi | known.midi_mpe
    }
    /// A plugin asks the host to look at its note ports again.
    pub fn ext_note_ports_rescan(&mut self, current_thread_id: ThreadId, _flags: u32)
        ensures
            final(self)@ == old(self)@.after_main_thread_call(
                "clap_host_note_ports::rescan()"@,
                current_thread_id,
            ),
    {
        self.assert_main_thread("clap_host_note_ports::rescan()", current_thread_id);
    }
    /// A plugin asks the host to look at its parameters again.
    pub fn ext_params_rescan(&mut self, current_thread_id: ThreadId, _flags: u32)
        ensures
            final(self)@ == old(self)@.after_main_thread_call(
                "clap_host_params::rescan()"@,
                current_thread_id,
            ),
    {
        self.assert_main_thread("clap_host_params::rescan()", current_thread_id);
    }
    /// A plugin asks the host to forget what it keeps about a parameter.
    pub fn ext_params_clear(&mut self, current_thread_id: ThreadId, _param_id: u32, _flags: u32)
        ensures
            final(self)@ == old(self)@.after_main_thread_call(
                "clap_host_params::clear()"@,
                current_thread_id,
            ),
    {
        self.assert_main_thread("clap_host_params::clear()", current_thread_id);
    }
    /// A plugin asks the host to flush its parameters. Every thread but an audio thread may do so.
    pub fn ext_params_request_flush(&mut self, current_thread_id: ThreadId)
        ensures
            exists|threads: Seq<Option<ThreadId>>| #[trigger]
                old(self)@.read_as(threads) && final(self)@
                    == old(self)@.after_not_audio_thread_call(
                    "clap_host_params::request_flush()"@,
                    current_thread_id,
                    threads,
                ),
    {
        self.assert_not_audio_thread("clap_host_params::request_flush()", current_thread_id);
    }
    /// A plugin says that its state has changed.
    pub fn ext_state_mark_dirty(&mut self, current_thread_id: ThreadId)
        ensures
            final(self)@ == old(self)@.after_main_thread_call(
                "clap_host_state::mark_dirty()"@,
                current_thread_id,
            ),
    {
        self.assert_main_thread("clap_host_state::mark_dirty()", current_thread_id);
    }
    /// A plugin asks whether it is on the main thread.
    pub fn ext_thread_check_is_main_thread(&self, current_thread_id: ThreadId) -> (result: bool)
        ensures
            result == (current_thread_id == self@.main_thread),
    {
        self.is_main_thread(current_thread_id)
    }

    /// A plugin asks whether it is on an audio thread.
    pub fn ext_thread_check_is_audio_thread(&self, current_thread_id: ThreadId) -> (result: bool)
        ensures
            exists|threads: Seq<Option<ThreadId>>| #[trigger]
                self@.read_as(threads) && result == crate::host::is_among(threads, current_thread_id),
    {
        self.is_audio_thread(current_thread_id)
    }
}

} // verus!
