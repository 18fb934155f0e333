//! Verified core of the SpeakIn voice-input tool: the recognition protocol
//! and sessions, hotkeys, the text pipeline, settings and storage rules,
//! and the AI optimization clients' protocol side.
pub mod ai;
pub mod asr;
pub mod audio;
pub mod control;
pub mod filler;
pub mod hotkey;
pub mod ids;
pub mod input;
pub mod pipeline;
pub mod protocol;
pub mod recorder;
pub mod replacements;
pub mod settings;
pub mod storage;
pub mod text;

use vstd::prelude::*;

verus! {

/// The uninstall cleanup: removes every keyring credential this
/// application wrote, the fixed keys and one per AI provider id (read by
/// the caller from the application's own provider file), as
/// [`storage::uninstall_cleanup`] does.  Best effort; it never fails.
pub fn run_uninstall_cleanup(log: &mut storage::KeyringLog, provider_ids: &[String])
    ensures
        storage::extends(*old(log), *final(log)),
        storage::new_calls(*old(log), *final(log)).len() == storage::cleanup_keys(provider_ids@).len(),
        forall|i: int| 0 <= i < storage::cleanup_keys(provider_ids@).len() ==> storage::deletes_entry(
            #[trigger] storage::new_calls(*old(log), *final(log))[i],
            storage::cleanup_keys(provider_ids@)[i],
        ),
{
    storage::uninstall_cleanup(log, provider_ids);
}

} // verus!
