use crate::error::control_outcome;
use crate::error::TtyError;
use crate::mode::is_raw_of;
use crate::mode::raw_mode_with;
use crate::mode::ModeLayout;
use crate::mode::TerminalMode;
use crate::stdin_guard::OriginalStdin;
use crate::store::saved;
use crate::store::TtyModeStore;
use vstd::prelude::*;

verus! {

/// What the caller has to do next for a raw-mode request.
#[derive(Debug, Clone, Copy, PartialEq, Eq)]
pub enum RawStep {
    /// No baseline is saved: read the descriptor's current mode and hand it
    /// to `accept_baseline`, apply the plan's raw mode and hand the outcome
    /// to `finish_enable`.
    ReadCurrent,
    /// Apply this mode to the descriptor once queued output has drained.
    Apply(TerminalMode),
    /// Nothing to do.
    Done,
}

/// The mode a raw mode is derived from: the saved baseline where there is
/// one, else the descriptor's current mode.
pub open spec fn baseline(store: Map<u32, TerminalMode>, id: u32, current: TerminalMode)
    -> TerminalMode {
    if store.contains_key(id) {
        store[id]
    } else {
        current
    }
}

/// The store after a successful enable request on a descriptor whose mode
/// was `current`.
pub open spec fn store_after_enable(store: Map<u32, TerminalMode>, id: u32, current: TerminalMode)
    -> Map<u32, TerminalMode> {
    store.insert(id, baseline(store, id, current))
}

/// The store after a disable request.
pub open spec fn store_after_disable(store: Map<u32, TerminalMode>, id: u32) -> Map<
    u32,
    TerminalMode,
> {
    store.remove(id)
}

/// The descriptor's mode after a successful disable request: the saved
/// snapshot where there is one, else the mode it had.
pub open spec fn mode_after_disable(store: Map<u32, TerminalMode>, id: u32, current: TerminalMode)
    -> TerminalMode {
    match saved(store, id) {
        Some(snapshot) => snapshot,
        None => current,
    }
}

/// How a request goes on once its descriptor is known.
#[derive(Debug, Clone, Copy, PartialEq, Eq)]
pub struct RequestStart {
    /// The descriptor the request works on.
    pub fd: i32,
    /// Whether standard input's mode has to be read and recorded first.
    pub capture_stdin: bool,
}

/// Opens a request with the outcome of the descriptor lookup. A missing
/// descriptor ends the request with the resource-not-found error before
/// anything else happens; otherwise the one-time capture of standard input
/// is asked for exactly while no capture has been made.
pub fn start_request(found: Option<i32>, guard: &OriginalStdin) -> (r: Result<
    RequestStart,
    TtyError,
>)
    ensures
        r == match found {
            Some(fd) => Ok::<RequestStart, TtyError>(
                RequestStart { fd, capture_stdin: !guard.attempted },
            ),
            None => Err::<RequestStart, TtyError>(TtyError::Resource),
        },
{
    match found {
        Some(fd) => Ok(RequestStart { fd, capture_stdin: guard.needs_capture() }),
        None => Err(TtyError::Resource),
    }
}

/// What an enable request applies, and what it saves once that has worked.
#[derive(Debug, Clone, Copy, PartialEq, Eq)]
pub struct EnablePlan {
    /// The mode that was read, to be saved as the baseline.
    pub base: TerminalMode,
    /// The raw mode derived from it, to be applied.
    pub raw: TerminalMode,
}

/// Starts a raw-mode request for `id`.
///
/// Enabling with a saved baseline derives the raw mode from that baseline and
/// asks for it to be applied; enabling without one asks for the current mode.
/// Disabling removes the saved snapshot and asks for it to be applied, or
/// does nothing where none is saved. Only disabling changes the store. A
/// snapshot handed out for restoring is not kept: should applying it fail,
/// the resource is no longer tracked and the failure is final.
pub fn begin_set_raw(
    store: &mut TtyModeStore,
    layout: &ModeLayout,
    id: u32,
    enable_raw: bool,
    allow_signals: bool,
) -> (step: RawStep)
    requires
        enable_raw ==> layout.slots_exist(),
    ensures
        enable_raw ==> final(store)@ == old(store)@,
        enable_raw && !old(store)@.contains_key(id) ==> step == RawStep::ReadCurrent,
        enable_raw && old(store)@.contains_key(id) ==> (match step {
            RawStep::Apply(raw) => is_raw_of(raw, old(store)@[id], *layout, allow_signals),
            _ => false,
        }),
        !enable_raw ==> final(store)@ == store_after_disable(old(store)@, id),
        !enable_raw ==> step == (match saved(old(store)@, id) {
            Some(snapshot) => RawStep::Apply(snapshot),
            None => RawStep::Done,
        }),
{
    if enable_raw {
        match store.get(id) {
            Some(base) => RawStep::Apply(raw_mode_with(base, layout, allow_signals)),
            None => RawStep::ReadCurrent,
        }
    } else {
        match store.take(id) {
            Some(snapshot) => RawStep::Apply(snapshot),
            None => RawStep::Done,
        }
    }
}

/// Continues an enable request with the outcome of reading the descriptor's
/// current mode.
///
/// A mode that was read becomes the base of the plan, together with the raw
/// mode derived from it for the caller to apply. A failed read is a
/// terminal-control error. Nothing is saved here: the base enters the store
/// in `finish_enable`, once the raw mode has been applied.
pub fn accept_baseline(
    layout: &ModeLayout,
    current: Result<TerminalMode, i32>,
    allow_signals: bool,
) -> (r: Result<EnablePlan, TtyError>)
    requires
        layout.slots_exist(),
    ensures
        match current {
            Ok(mode) => r matches Ok(plan) && plan.base == mode && is_raw_of(
                plan.raw,
                mode,
                *layout,
                allow_signals,
            ),
            Err(errno) => r == Err::<EnablePlan, TtyError>(TtyError::Nix(errno)),
        },
{
    match current {
        Ok(mode) => Ok(EnablePlan { base: mode, raw: raw_mode_with(mode, layout, allow_signals) }),
        Err(errno) => Err(TtyError::Nix(errno)),
    }
}

/// Ends an enable request with the outcome of applying the raw mode.
///
/// The baseline is saved only when the raw mode has been applied, so that an
/// identifier is in the store exactly while its descriptor is in raw mode. A
/// failed apply is a terminal-control error and leaves the store as it was:
/// an enable that fails, at the read or at the apply, changes nothing.
pub fn finish_enable(
    store: &mut TtyModeStore,
    id: u32,
    base: TerminalMode,
    applied: Result<(), i32>,
) -> (r: Result<(), TtyError>)
    ensures
        match applied {
            Ok(_) => final(store)@ == old(store)@.insert(id, base) && r == Ok::<(), TtyError>(()),
            Err(errno) => final(store)@ == old(store)@ && r == Err::<(), TtyError>(
                TtyError::Nix(errno),
            ),
        },
{
    match applied {
        Ok(_) => {
            store.set(id, base);
            Ok(())
        },
        Err(errno) => Err(TtyError::Nix(errno)),
    }
}

/// The errno a request ends with on a modelled descriptor, if any: that of
/// the read, where a read is made and fails, else that of the apply, where
/// an apply is made and fails. A read is made only to enable without a saved
/// baseline; an apply is made unless a disable finds no snapshot.
pub open spec fn failure_of(
    store: Map<u32, TerminalMode>,
    id: u32,
    enable_raw: bool,
    read_failure: Option<i32>,
    apply_failure: Option<i32>,
) -> Option<i32> {
    if enable_raw && !store.contains_key(id) && read_failure is Some {
        read_failure
    } else if enable_raw || store.contains_key(id) {
        apply_failure
    } else {
        None
    }
}

/// Applies `mode` to a modelled descriptor, unless the apply is to fail.
fn apply_on(device: &mut TerminalMode, mode: TerminalMode, failure: Option<i32>) -> (r: Result<
    (),
    i32,
>)
    ensures
        match failure {
            Some(errno) => r == Err::<(), i32>(errno) && *final(device) == *old(device),
            None => r == Ok::<(), i32>(()) && *final(device) == mode,
        },
{
    match failure {
        Some(errno) => Err(errno),
        None => {
            *device = mode;
            Ok(())
        },
    }
}

/// Carries out a whole request on a modelled descriptor: its mode is held in
/// `*device`, a read of it fails with `read_failure` where one is given, and
/// an apply fails with `apply_failure` where one is given. The steps are
/// taken in order, as a caller with a real descriptor takes them.
///
/// A request that fails reports the errno of the call that failed and leaves
/// the descriptor's mode as it was; a failed enable leaves the store as it
/// was too, while a failed disable has removed the snapshot.
pub fn set_raw_on(
    store: &mut TtyModeStore,
    layout: &ModeLayout,
    device: &mut TerminalMode,
    id: u32,
    enable_raw: bool,
    allow_signals: bool,
    read_failure: Option<i32>,
    apply_failure: Option<i32>,
) -> (r: Result<(), TtyError>)
    requires
        enable_raw ==> layout.slots_exist(),
    ensures
        r == match failure_of(old(store)@, id, enable_raw, read_failure, apply_failure) {
            Some(errno) => Err::<(), TtyError>(TtyError::Nix(errno)),
            None => Ok::<(), TtyError>(()),
        },
        r is Ok && enable_raw ==> final(store)@ == store_after_enable(
            old(store)@,
            id,
            *old(device),
        ),
        r is Ok && enable_raw ==> is_raw_of(
            *final(device),
            baseline(old(store)@, id, *old(device)),
            *layout,
            allow_signals,
        ),
        r is Ok && !enable_raw ==> *final(device) == mode_after_disable(
            old(store)@,
            id,
            *old(device),
        ),
        r is Err ==> *final(device) == *old(device),
        r is Err && enable_raw ==> final(store)@ == old(store)@,
        !enable_raw ==> final(store)@ == store_after_disable(old(store)@, id),
{
    proof {
        lemma_enable_steps_follow_model(store@, id, *device);
    }
    match begin_set_raw(store, layout, id, enable_raw, allow_signals) {
        RawStep::ReadCurrent => {
            let current = match read_failure {
                Some(errno) => Err(errno),
                None => Ok(*device),
            };
            match accept_baseline(layout, current, allow_signals) {
                Ok(plan) => {
                    let applied = apply_on(device, plan.raw, apply_failure);
                    finish_enable(store, id, plan.base, applied)
                },
                Err(error) => Err(error),
            }
        },
        RawStep::Apply(mode) => {
            let applied = apply_on(device, mode, apply_failure);
            control_outcome(applied)
        },
        RawStep::Done => Ok(()),
    }
}

/// Entering raw mode and leaving it again puts the descriptor into the mode
/// the raw mode was derived from, whatever the raw mode was.
pub proof fn lemma_disable_restores_baseline(
    store: Map<u32, TerminalMode>,
    id: u32,
    current: TerminalMode,
    raw: TerminalMode,
)
    ensures
        mode_after_disable(store_after_enable(store, id, current), id, raw) == baseline(
            store,
            id,
            current,
        ),
        !store_after_disable(store_after_enable(store, id, current), id).contains_key(id),
{
}

/// Entering raw mode on a descriptor that was not in raw mode and leaving it
/// again restores the descriptor's mode exactly, and leaves the store as it
/// was.
pub proof fn lemma_round_trip(
    store: Map<u32, TerminalMode>,
    id: u32,
    original: TerminalMode,
    raw: TerminalMode,
)
    requires
        !store.contains_key(id),
    ensures
        baseline(store, id, original) == original,
        mode_after_disable(store_after_enable(store, id, original), id, raw) == original,
        store_after_disable(store_after_enable(store, id, original), id) == store,
{
    assert(store.insert(id, original).remove(id) =~= store);
}

/// Disabling raw mode on a descriptor that has no saved snapshot changes
/// neither the store nor the descriptor's mode.
pub proof fn lemma_disable_unknown(store: Map<u32, TerminalMode>, id: u32, current: TerminalMode)
    requires
        !store.contains_key(id),
    ensures
        saved(store, id) is None,
        store_after_disable(store, id) == store,
        mode_after_disable(store, id, current) == current,
{
    assert(store.remove(id) =~= store);
}

/// Enabling raw mode again while it is on keeps the first baseline: the
/// second raw mode is derived from the original mode, not from the first raw
/// mode, and a later disable restores the original.
pub proof fn lemma_reentry_keeps_baseline(
    store: Map<u32, TerminalMode>,
    id: u32,
    original: TerminalMode,
    first_raw: TerminalMode,
    second_raw: TerminalMode,
)
    requires
        !store.contains_key(id),
    ensures
        ({
            let once = store_after_enable(store, id, original);
            let twice = store_after_enable(once, id, first_raw);
            &&& baseline(once, id, first_raw) == original
            &&& twice == once
            &&& mode_after_disable(twice, id, second_raw) == original
            &&& store_after_disable(twice, id) == store
        }),
{
    let once = store_after_enable(store, id, original);
    let twice = store_after_enable(once, id, first_raw);
    assert(twice =~= once);
    assert(once.remove(id) =~= store);
}

/// A successful enable leaves a store with a saved baseline as it is, and
/// saves the current mode in a store without one.
pub proof fn lemma_enable_steps_follow_model(
    store: Map<u32, TerminalMode>,
    id: u32,
    current: TerminalMode,
)
    ensures
        store.contains_key(id) ==> store_after_enable(store, id, current) == store,
        !store.contains_key(id) ==> store_after_enable(store, id, current) == store.insert(
            id,
            current,
        ),
{
    if store.contains_key(id) {
        assert(store.insert(id, store[id]) =~= store);
    }
}

} // verus!
