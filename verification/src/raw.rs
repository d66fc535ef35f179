//! Raw-mode control: a snapshot type for terminal mode settings, the pure
//! computation of the raw settings from a snapshot, and an
//! ownership-consuming guard that restores exactly the snapshot captured at
//! entry.
//!
//! Reading the current settings from the device and applying a snapshot to it
//! are single calls at the process boundary and stay outside this crate; the
//! guard's contracts pin everything decided here: which snapshot is saved,
//! which settings are applied, and that release hands back the saved
//! snapshot field for field, exactly once (the guard is consumed).

use vstd::prelude::*;

verus! {

/// Input-flag bits cleared in raw mode: break-to-interrupt, parity marking,
/// carriage-return translation, stripping and software flow control.
pub const RAW_CLEAR_INPUT: u32 = 0x1 | 0x2 | 0x8 | 0x20 | 0x40 | 0x80 | 0x100 | 0x400;

/// Output-flag bits cleared in raw mode: implementation-defined output
/// processing.
pub const RAW_CLEAR_OUTPUT: u32 = 0x1;

/// Control-flag bits cleared in raw mode: character-size selection and
/// parity generation.
pub const RAW_CLEAR_CONTROL: u32 = 0x30 | 0x100;

/// Control-flag bits set in raw mode: eight-bit characters.
pub const RAW_SET_CONTROL: u32 = 0x30;

/// Local-flag bits cleared in raw mode: signal-generating keys, canonical
/// line editing, echo in its forms, and extended input processing.
pub const RAW_CLEAR_LOCAL: u32 = 0x1 | 0x2 | 0x8 | 0x40 | 0x8000;

/// A platform mode snapshot, as plain flag words plus the two control
/// characters the raw-mode switch touches: the minimum read count and the
/// read timeout in tenths of a second.
#[derive(Clone, Copy, Debug, PartialEq, Eq, Structural)]
pub struct ModeSnapshot {
    pub input_flags: u32,
    pub output_flags: u32,
    pub control_flags: u32,
    pub local_flags: u32,
    pub min_read: u8,
    pub timeout_tenths: u8,
}

/// The raw-mode settings derived from a snapshot: line buffering, echo and
/// signal-generating keys off, bytes delivered as typed, one byte at a time
/// without timeout; everything not named is left as in the snapshot.
pub open spec fn raw_of(m: ModeSnapshot) -> ModeSnapshot {
    ModeSnapshot {
        input_flags: m.input_flags & !RAW_CLEAR_INPUT,
        output_flags: m.output_flags & !RAW_CLEAR_OUTPUT,
        control_flags: (m.control_flags & !RAW_CLEAR_CONTROL) | RAW_SET_CONTROL,
        local_flags: m.local_flags & !RAW_CLEAR_LOCAL,
        min_read: 1,
        timeout_tenths: 0,
    }
}

/// Computes the raw-mode settings for a snapshot; follows [`raw_of`].
pub fn make_raw(m: &ModeSnapshot) -> (r: ModeSnapshot)
    ensures
        r == raw_of(*m),
{
    ModeSnapshot {
        input_flags: m.input_flags & !RAW_CLEAR_INPUT,
        output_flags: m.output_flags & !RAW_CLEAR_OUTPUT,
        control_flags: (m.control_flags & !RAW_CLEAR_CONTROL) | RAW_SET_CONTROL,
        local_flags: m.local_flags & !RAW_CLEAR_LOCAL,
        min_read: 1,
        timeout_tenths: 0,
    }
}

/// Why raw mode could not be entered.
#[derive(Clone, Copy, Debug, PartialEq, Eq, Structural)]
pub enum DeviceError {
    /// The device's mode could not be read: it is not a terminal, or the
    /// query was rejected.
    NotATerminal,
    /// The device rejected the mode change.
    ModeChangeRejected,
}

/// An active raw-mode session: it owns the snapshot captured at entry.
/// Restoration happens exactly once, because [`RawModeGuard::release`]
/// consumes the guard; calling it twice is not a runtime error but a type
/// error.
pub struct RawModeGuard {
    saved: ModeSnapshot,
}

impl RawModeGuard {
    /// The snapshot captured when the session was entered.
    pub closed spec fn saved_mode(&self) -> ModeSnapshot {
        self.saved
    }

    /// The settings to apply to the device for this session; follows
    /// [`raw_of`] applied to the saved snapshot.
    pub fn raw_settings(&self) -> (r: ModeSnapshot)
        ensures
            r == raw_of(self.saved_mode()),
    {
        make_raw(&self.saved)
    }

    /// Ends the session, handing back the exact snapshot captured at entry
    /// for the caller to apply. The guard is consumed: whatever happens to
    /// the returned snapshot, no second restoration can be attempted.
    pub fn release(self) -> (r: ModeSnapshot)
        ensures
            r == self.saved_mode(),
    {
        self.saved
    }
}

/// Decides whether a raw-mode session can begin, from the result of querying
/// the device's current mode: a successful query is captured in a guard, a
/// failed one is the device refusing mode queries. Returns `Ok` exactly when
/// the query succeeded.
pub fn enter_raw_mode(current: Option<ModeSnapshot>) -> (r: Result<RawModeGuard, DeviceError>)
    ensures
        (match current {
            Some(m) => r matches Ok(g) && g.saved_mode() == m,
            None => r matches Err(e) && e == DeviceError::NotATerminal,
        }),
{
    match current {
        Some(m) => Ok(RawModeGuard { saved: m }),
        None => Err(DeviceError::NotATerminal),
    }
}

/// Model of the device's mode register at the boundary: applying a snapshot
/// replaces the settings with exactly that snapshot, whatever was there.
pub open spec fn apply_mode(_current: ModeSnapshot, applied: ModeSnapshot) -> ModeSnapshot {
    applied
}

/// A raw-mode session restores, on release, a snapshot equal field for field
/// to the one captured at entry; entering and immediately releasing — once
/// or twice in sequence — leaves the device's mode as it was.
pub proof fn lemma_session_round_trip(m0: ModeSnapshot)
    ensures
        ({
            let raw_once = apply_mode(m0, raw_of(m0));
            let restored_once = apply_mode(raw_once, m0);
            let raw_twice = apply_mode(restored_once, raw_of(restored_once));
            let restored_twice = apply_mode(raw_twice, restored_once);
            restored_once == m0 && restored_twice == m0
        }),
{
}

} // verus!
