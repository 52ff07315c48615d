//! Laws of the hotkey manager.
//!
//! Each proof function here states a property of the manager's lifecycle
//! over the transition relations that `register_hotkeys` and
//! `unregister_hotkeys` ensure, for any collaborator implementing
//! [`ShortcutOs`].

use vstd::prelude::*;

use crate::manager::HotkeyConfig;
use crate::manager::HotkeyError;
use crate::manager::HotkeyManager;
use crate::manager::failure_message;
use crate::manager::register_set_post;
use crate::manager::start_action;
use crate::manager::stop_action;
use crate::manager::teardown_live;
use crate::manager::unregister_all_post;
use crate::os::FaultKind;
use crate::os::ShortcutOs;

verus! {

/// From a consistent state — the shortcuts live at the system level are
/// exactly the recorded bindings — a teardown on a collaborator that honours
/// every unregistration leaves nothing live.
proof fn lemma_teardown_of_consistent_state<O: ShortcutOs>(os: O, m: HotkeyManager)
    requires
        os.live() == m.values(),
        forall|v: Seq<char>| !(#[trigger] os.unregister_fault(v)),
    ensures
        teardown_live(os, m) == Set::<Seq<char>>::empty(),
{
    assert(teardown_live(os, m) =~= Set::<Seq<char>>::empty());
}

/// Law: register-set with a disabled configuration mutates nothing — the
/// bindings are exactly the prior ones, the collaborator is untouched (so no
/// register or unregister was performed), and the call succeeds.
pub proof fn lemma_disabled_changes_nothing<O: ShortcutOs>(
    os0: O,
    os1: O,
    m0: HotkeyManager,
    m1: HotkeyManager,
    cfg: HotkeyConfig,
    r: Result<(), HotkeyError>,
)
    requires
        register_set_post(os0, os1, m0, m1, cfg, r),
        !cfg.enabled,
    ensures
        m1 == m0,
        os1 == os0,
        r is Ok,
{
}

/// Law: register-set with an enabled configuration whose two shortcuts both
/// parse and are both accepted by the system succeeds, and the bindings come
/// out as exactly the two configured action/shortcut pairs — which is what a
/// following bindings query returns.
pub proof fn lemma_success_binds_exactly<O: ShortcutOs>(
    os0: O,
    os1: O,
    m0: HotkeyManager,
    m1: HotkeyManager,
    cfg: HotkeyConfig,
    r: Result<(), HotkeyError>,
)
    requires
        register_set_post(os0, os1, m0, m1, cfg, r),
        cfg.enabled,
        os0.parses(cfg.start_recording_hotkey@),
        os0.parses(cfg.stop_recording_hotkey@),
        os0.register_fault(cfg.start_recording_hotkey@) is None,
        os0.register_fault(cfg.stop_recording_hotkey@) is None,
    ensures
        r is Ok,
        m1.start_binding() == Some(cfg.start_recording_hotkey@),
        m1.stop_binding() == Some(cfg.stop_recording_hotkey@),
        m1.binding_pairs() == seq![
            (start_action(), cfg.start_recording_hotkey@),
            (stop_action(), cfg.stop_recording_hotkey@),
        ],
        m1.bindings() == Map::<Seq<char>, Seq<char>>::empty().insert(
            start_action(),
            cfg.start_recording_hotkey@,
        ).insert(stop_action(), cfg.stop_recording_hotkey@),
{
    assert(m1.binding_pairs() =~= seq![
        (start_action(), cfg.start_recording_hotkey@),
        (stop_action(), cfg.stop_recording_hotkey@),
    ]);
}

/// Law: two successive successful register-set calls leave only the second
/// call's shortcuts live at the system level — nothing from the first call
/// leaks — provided the collaborator honours unregistrations and the state
/// was consistent to begin with.
pub proof fn lemma_replace_leaves_only_new<O: ShortcutOs>(
    os0: O,
    os1: O,
    os2: O,
    m0: HotkeyManager,
    m1: HotkeyManager,
    m2: HotkeyManager,
    cfg1: HotkeyConfig,
    cfg2: HotkeyConfig,
    r1: Result<(), HotkeyError>,
    r2: Result<(), HotkeyError>,
)
    requires
        register_set_post(os0, os1, m0, m1, cfg1, r1),
        register_set_post(os1, os2, m1, m2, cfg2, r2),
        cfg1.enabled,
        cfg2.enabled,
        os0.live() == m0.values(),
        forall|v: Seq<char>| !(#[trigger] os0.unregister_fault(v)),
        os0.parses(cfg1.start_recording_hotkey@),
        os0.parses(cfg1.stop_recording_hotkey@),
        os0.register_fault(cfg1.start_recording_hotkey@) is None,
        os0.register_fault(cfg1.stop_recording_hotkey@) is None,
        os0.parses(cfg2.start_recording_hotkey@),
        os0.parses(cfg2.stop_recording_hotkey@),
        os0.register_fault(cfg2.start_recording_hotkey@) is None,
        os0.register_fault(cfg2.stop_recording_hotkey@) is None,
    ensures
        r1 is Ok,
        r2 is Ok,
        os2.live() == Set::<Seq<char>>::empty().insert(cfg2.start_recording_hotkey@).insert(
            cfg2.stop_recording_hotkey@,
        ),
        os2.live() == m2.values(),
{
    lemma_teardown_of_consistent_state(os0, m0);
    assert(os1.live() =~= m1.values());
    assert forall|v: Seq<char>| !(#[trigger] os1.unregister_fault(v)) by {
        assert(!os0.unregister_fault(v));
    }
    assert(os1.parses(cfg2.start_recording_hotkey@));
    assert(os1.parses(cfg2.stop_recording_hotkey@));
    assert(os1.register_fault(cfg2.start_recording_hotkey@) is None);
    assert(os1.register_fault(cfg2.stop_recording_hotkey@) is None);
    lemma_teardown_of_consistent_state(os1, m1);
    assert(os2.live() =~= Set::<Seq<char>>::empty().insert(cfg2.start_recording_hotkey@).insert(
        cfg2.stop_recording_hotkey@,
    ));
    assert(os2.live() =~= m2.values());
}

/// Law: when the system refuses the second action's shortcut as already
/// claimed elsewhere, register-set fails with an error naming that action
/// and `needs_permission` false, and — under the rollback policy — the
/// bindings come out empty and no shortcut of the call remains live.
pub proof fn lemma_conflict_on_stop_rolls_back<O: ShortcutOs>(
    os0: O,
    os1: O,
    m0: HotkeyManager,
    m1: HotkeyManager,
    cfg: HotkeyConfig,
    r: Result<(), HotkeyError>,
)
    requires
        register_set_post(os0, os1, m0, m1, cfg, r),
        cfg.enabled,
        os0.live() == m0.values(),
        forall|v: Seq<char>| !(#[trigger] os0.unregister_fault(v)),
        os0.parses(cfg.start_recording_hotkey@),
        os0.register_fault(cfg.start_recording_hotkey@) is None,
        os0.parses(cfg.stop_recording_hotkey@),
        os0.register_fault(cfg.stop_recording_hotkey@) == Some(FaultKind::Conflict),
    ensures
        r matches Err(e) && !e.needs_permission && (exists|d: Seq<char>|
            e.error@ == failure_message(stop_action(), cfg.stop_recording_hotkey@, d)),
        m1.is_empty(),
        os1.live() == Set::<Seq<char>>::empty(),
{
    lemma_teardown_of_consistent_state(os0, m0);
    assert(os1.live() =~= Set::<Seq<char>>::empty());
}

/// Law: unregister-all always succeeds and always leaves the bindings
/// empty, whatever the collaborator answers — even if it refuses every
/// unregistration, so that stale shortcuts stay live at the system level.
pub proof fn lemma_unregister_all_always_succeeds<O: ShortcutOs>(
    os0: O,
    os1: O,
    m0: HotkeyManager,
    m1: HotkeyManager,
    r: Result<(), String>,
)
    requires
        unregister_all_post(os0, os1, m0, m1, r),
    ensures
        r is Ok,
        m1.is_empty(),
        m1.binding_pairs() == Seq::<(Seq<char>, Seq<char>)>::empty(),
{
    assert(m1.binding_pairs() =~= Seq::<(Seq<char>, Seq<char>)>::empty());
}

/// Law: no observer ever sees a partially applied hotkey set.  After any
/// register-set call the bindings are the previous ones (disabled
/// configuration), empty (a failure, rolled back), or the complete new set —
/// never some but not all of a call's intended entries.
pub proof fn lemma_no_partial_bindings<O: ShortcutOs>(
    os0: O,
    os1: O,
    m0: HotkeyManager,
    m1: HotkeyManager,
    cfg: HotkeyConfig,
    r: Result<(), HotkeyError>,
)
    requires
        register_set_post(os0, os1, m0, m1, cfg, r),
    ensures
        m1 == m0 || m1.is_empty() || (m1.start_binding() == Some(cfg.start_recording_hotkey@)
            && m1.stop_binding() == Some(cfg.stop_recording_hotkey@)),
        m0.is_empty() || m0.is_fully_bound() ==> m1.is_empty() || m1.is_fully_bound(),
{
}

/// Law: the shortcuts live at the system level are exactly the values of the
/// recorded bindings.  Any register-set call made from a consistent state on
/// a collaborator that honours unregistrations ends in a consistent state —
/// including every failure, thanks to the rollback policy.
pub proof fn lemma_register_set_preserves_consistency<O: ShortcutOs>(
    os0: O,
    os1: O,
    m0: HotkeyManager,
    m1: HotkeyManager,
    cfg: HotkeyConfig,
    r: Result<(), HotkeyError>,
)
    requires
        register_set_post(os0, os1, m0, m1, cfg, r),
        os0.live() == m0.values(),
        forall|v: Seq<char>| !(#[trigger] os0.unregister_fault(v)),
    ensures
        os1.live() == m1.values(),
{
    if cfg.enabled {
        lemma_teardown_of_consistent_state(os0, m0);
        assert(os1.live() =~= m1.values());
    }
}

/// Law: unregister-all restores the empty consistent state whenever the
/// collaborator honours every unregistration.
pub proof fn lemma_unregister_all_preserves_consistency<O: ShortcutOs>(
    os0: O,
    os1: O,
    m0: HotkeyManager,
    m1: HotkeyManager,
    r: Result<(), String>,
)
    requires
        unregister_all_post(os0, os1, m0, m1, r),
        os0.live() == m0.values(),
        forall|v: Seq<char>| !(#[trigger] os0.unregister_fault(v)),
    ensures
        os1.live() == m1.values(),
        os1.live() == Set::<Seq<char>>::empty(),
{
    lemma_teardown_of_consistent_state(os0, m0);
    assert(m1.values() =~= Set::<Seq<char>>::empty());
}

} // verus!
