//! The hotkey manager: the single source of truth for which shortcut is
//! bound to which action.
//!
//! The manager recognizes two actions, `start_recording` and
//! `stop_recording`, and owns one piece of state: the set of currently
//! registered bindings.  `register_hotkeys` replaces the whole set
//! atomically — on any failure it rolls back every registration the call
//! made, so the bindings are always either empty or complete.  The exact
//! outcome of every operation, including what is left live at the system
//! level, is captured by the transition relations [`register_set_post`] and
//! [`unregister_all_post`].

use vstd::prelude::*;
use vstd::string::StringExecFns;

use crate::os::FaultKind;
use crate::os::same_behavior;
use crate::os::ShortcutOs;

verus! {

/// The action bound to the shortcut that starts a recording.
pub open spec fn start_action() -> Seq<char> {
    "start_recording"@
}

/// The action bound to the shortcut that stops a recording.
pub open spec fn stop_action() -> Seq<char> {
    "stop_recording"@
}

/// A caller-supplied configuration: whether hotkeys are enabled at all, and
/// one shortcut string per recognized action.
#[derive(Debug, Clone)]
pub struct HotkeyConfig {
    pub enabled: bool,
    pub start_recording_hotkey: String,
    pub stop_recording_hotkey: String,
}

/// A failed attempt to register a hotkey set: a human-readable explanation
/// naming the failing action and shortcut, and whether the failure calls for
/// the user to grant an operating-system permission.
#[derive(Debug, Clone)]
pub struct HotkeyError {
    pub error: String,
    pub needs_permission: bool,
}

/// The message a registration failure carries: it names the failing action,
/// the offending shortcut string, and the collaborator's own explanation.
pub open spec fn failure_message(action: Seq<char>, shortcut: Seq<char>, detail: Seq<char>)
    -> Seq<char> {
    "failed to register "@ + action + " hotkey '"@ + shortcut + "': "@ + detail
}

/// The message returned when an empty shortcut string is checked for
/// validity: the empty string is rejected before the parser ever sees it.
pub open spec fn empty_shortcut_message() -> Seq<char> {
    "shortcut must not be empty"@
}

fn compose_failure(action: &str, shortcut: &String, detail: &String) -> (r: String)
    ensures
        r@ == failure_message(action@, shortcut@, detail@),
{
    let mut m: String = "failed to register ".to_owned();
    m.append(action);
    m.append(" hotkey '");
    m.append(shortcut.as_str());
    m.append("': ");
    m.append(detail.as_str());
    m
}

/// The views of the string pairs in a binding snapshot.
pub open spec fn pairs_view(r: Seq<(String, String)>) -> Seq<(Seq<char>, Seq<char>)> {
    r.map_values(|p: (String, String)| (p.0@, p.1@))
}

/// The record of which action is bound to which shortcut string.
pub struct HotkeyManager {
    start_recording: Option<String>,
    stop_recording: Option<String>,
}

impl HotkeyManager {
    /// The shortcut currently bound to the start-recording action.
    pub closed spec fn start_binding(self) -> Option<Seq<char>> {
        match self.start_recording {
            Some(s) => Some(s@),
            None => None,
        }
    }

    /// The shortcut currently bound to the stop-recording action.
    pub closed spec fn stop_binding(self) -> Option<Seq<char>> {
        match self.stop_recording {
            Some(s) => Some(s@),
            None => None,
        }
    }

    /// No action is bound.
    pub open spec fn is_empty(self) -> bool {
        self.start_binding() is None && self.stop_binding() is None
    }

    /// Every recognized action is bound.
    pub open spec fn is_fully_bound(self) -> bool {
        self.start_binding() is Some && self.stop_binding() is Some
    }

    /// The set of shortcut strings bound to some action.
    pub open spec fn values(self) -> Set<Seq<char>> {
        Set::new(
            |v: Seq<char>| self.start_binding() == Some(v) || self.stop_binding() == Some(v),
        )
    }

    /// The bindings as a mapping from action to shortcut string.
    pub open spec fn bindings(self) -> Map<Seq<char>, Seq<char>> {
        let m = Map::<Seq<char>, Seq<char>>::empty();
        let m = match self.start_binding() {
            Some(v) => m.insert(start_action(), v),
            None => m,
        };
        match self.stop_binding() {
            Some(v) => m.insert(stop_action(), v),
            None => m,
        }
    }

    /// The bindings as action/shortcut pairs in the fixed action order.
    pub open spec fn binding_pairs(self) -> Seq<(Seq<char>, Seq<char>)> {
        (match self.start_binding() {
            Some(v) => seq![(start_action(), v)],
            None => Seq::<(Seq<char>, Seq<char>)>::empty(),
        }) + (match self.stop_binding() {
            Some(v) => seq![(stop_action(), v)],
            None => Seq::<(Seq<char>, Seq<char>)>::empty(),
        })
    }

    /// A manager with no bindings.
    pub fn new() -> (r: Self)
        ensures
            r.is_empty(),
    {
        HotkeyManager { start_recording: None, stop_recording: None }
    }
}

impl Default for HotkeyManager {
    fn default() -> (r: Self)
        ensures
            r.is_empty(),
    {
        HotkeyManager::new()
    }
}

/// What one best-effort unregistration leaves live: on a fault the shortcut
/// stays, otherwise it is gone.
pub open spec fn after_unregister<O: ShortcutOs>(os: O, live: Set<Seq<char>>, v: Seq<char>)
    -> Set<Seq<char>> {
    if os.unregister_fault(v) {
        live
    } else {
        live.remove(v)
    }
}

/// What tearing down every current binding of `m` leaves live, starting from
/// `os.live()`: each bound shortcut is unregistered best-effort, in the fixed
/// action order.
pub open spec fn teardown_live<O: ShortcutOs>(os: O, m: HotkeyManager) -> Set<Seq<char>> {
    let l0 = os.live();
    let l1 = match m.start_binding() {
        Some(v) => after_unregister(os, l0, v),
        None => l0,
    };
    match m.stop_binding() {
        Some(v) => after_unregister(os, l1, v),
        None => l1,
    }
}

/// The exact relation between the states before and after
/// [`HotkeyManager::register_hotkeys`].
///
/// A disabled configuration changes nothing.  Otherwise the old bindings are
/// torn down best-effort, and the two shortcuts are parsed and registered in
/// the fixed action order; the first failure aborts the call with an error
/// naming the failing action, after rolling back any registration the call
/// already made, so the bindings come out either complete or empty.
pub open spec fn register_set_post<O: ShortcutOs>(
    os0: O,
    os1: O,
    m0: HotkeyManager,
    m1: HotkeyManager,
    cfg: HotkeyConfig,
    r: Result<(), HotkeyError>,
) -> bool {
    if !cfg.enabled {
        &&& os1 == os0
        &&& m1 == m0
        &&& r is Ok
    } else {
        let s = cfg.start_recording_hotkey@;
        let t = cfg.stop_recording_hotkey@;
        let base = teardown_live(os0, m0);
        &&& same_behavior(os0, os1)
        &&& (if !os0.parses(s) || os0.register_fault(s) is Some {
            &&& r matches Err(e) && e.needs_permission == (os0.parses(s) && os0.register_fault(
                s,
            ) == Some(FaultKind::Permission)) && (exists|d: Seq<char>|
                e.error@ == failure_message(start_action(), s, d))
            &&& m1.is_empty()
            &&& os1.live() == base
        } else if !os0.parses(t) || os0.register_fault(t) is Some {
            &&& r matches Err(e) && e.needs_permission == (os0.parses(t) && os0.register_fault(
                t,
            ) == Some(FaultKind::Permission)) && (exists|d: Seq<char>|
                e.error@ == failure_message(stop_action(), t, d))
            &&& m1.is_empty()
            &&& os1.live() == after_unregister(os0, base.insert(s), s)
        } else {
            &&& r is Ok
            &&& m1.start_binding() == Some(s)
            &&& m1.stop_binding() == Some(t)
            &&& os1.live() == base.insert(s).insert(t)
        })
    }
}

/// The exact relation between the states before and after
/// [`HotkeyManager::unregister_hotkeys`]: the call always succeeds, the
/// bindings come out empty, and each previously bound shortcut was
/// unregistered best-effort.
pub open spec fn unregister_all_post<O: ShortcutOs>(
    os0: O,
    os1: O,
    m0: HotkeyManager,
    m1: HotkeyManager,
    r: Result<(), String>,
) -> bool {
    &&& r is Ok
    &&& m1.is_empty()
    &&& same_behavior(os0, os1)
    &&& os1.live() == teardown_live(os0, m0)
}

impl HotkeyManager {
    /// Best-effort unregistration of every current binding, then clear the
    /// record.  A failure to release a stale shortcut never blocks progress.
    fn clear_bindings<O: ShortcutOs>(&mut self, os: &mut O)
        ensures
            final(self).is_empty(),
            same_behavior(*old(os), *final(os)),
            final(os).live() == teardown_live(*old(os), *old(self)),
    {
        match &self.start_recording {
            Some(v) => {
                let _ = os.unregister(v);
            },
            None => {},
        }
        match &self.stop_recording {
            Some(v) => {
                let _ = os.unregister(v);
            },
            None => {},
        }
        self.start_recording = None;
        self.stop_recording = None;
    }

    /// Parse one shortcut string and register it, reporting a failure of
    /// either step as a [`HotkeyError`] that names the action.
    fn try_register<O: ShortcutOs>(os: &mut O, shortcut: &String, action: &str) -> (r: Result<
        (),
        HotkeyError,
    >)
        ensures
            same_behavior(*old(os), *final(os)),
            (if !old(os).parses(shortcut@) || old(os).register_fault(shortcut@) is Some {
                &&& r matches Err(e)
                &&& e.needs_permission == (old(os).parses(shortcut@) && old(os).register_fault(
                    shortcut@,
                ) == Some(FaultKind::Permission))
                &&& exists|d: Seq<char>| e.error@ == failure_message(action@, shortcut@, d)
                &&& final(os).live() == old(os).live()
            } else {
                &&& r is Ok
                &&& final(os).live() == old(os).live().insert(shortcut@)
            }),
    {
        match os.parse_check(shortcut.as_str()) {
            Err(msg) => {
                let error = compose_failure(action, shortcut, &msg);
                Err(HotkeyError { error, needs_permission: false })
            },
            Ok(()) => {
                match os.register(shortcut) {
                    Ok(()) => Ok(()),
                    Err(e) => {
                        let needs_permission = match e.kind {
                            FaultKind::Permission => true,
                            FaultKind::Conflict => false,
                        };
                        let error = compose_failure(action, shortcut, &e.message);
                        Err(HotkeyError { error, needs_permission })
                    },
                }
            },
        }
    }

    /// Atomically replace the whole hotkey set as `config` asks.
    ///
    /// A disabled configuration performs no system interaction and leaves
    /// the existing bindings untouched.  Otherwise every current binding is
    /// unregistered best-effort, and the two configured shortcuts are parsed
    /// and registered in the fixed action order; the first failure aborts
    /// the call, rolls back any registration this call made, and reports the
    /// failing action, with `needs_permission` set exactly when the system
    /// refused for want of a permission grant.
    pub fn register_hotkeys<O: ShortcutOs>(&mut self, os: &mut O, config: &HotkeyConfig) -> (r:
        Result<(), HotkeyError>)
        ensures
            register_set_post(*old(os), *final(os), *old(self), *final(self), *config, r),
    {
        if !config.enabled {
            return Ok(());
        }
        self.clear_bindings(os);
        match Self::try_register(os, &config.start_recording_hotkey, "start_recording") {
            Err(e) => {
                proof {
                    let d = choose|d: Seq<char>|
                        e.error@ == failure_message(
                            "start_recording"@,
                            config.start_recording_hotkey@,
                            d,
                        );
                    assert(e.error@ == failure_message(
                        start_action(),
                        config.start_recording_hotkey@,
                        d,
                    ));
                }
                return Err(e);
            },
            Ok(()) => {},
        }
        match Self::try_register(os, &config.stop_recording_hotkey, "stop_recording") {
            Err(e) => {
                let _ = os.unregister(&config.start_recording_hotkey);
                proof {
                    let d = choose|d: Seq<char>|
                        e.error@ == failure_message(
                            "stop_recording"@,
                            config.stop_recording_hotkey@,
                            d,
                        );
                    assert(e.error@ == failure_message(
                        stop_action(),
                        config.stop_recording_hotkey@,
                        d,
                    ));
                }
                return Err(e);
            },
            Ok(()) => {},
        }
        self.start_recording = Some(config.start_recording_hotkey.clone());
        self.stop_recording = Some(config.stop_recording_hotkey.clone());
        Ok(())
    }

    /// Unregister every bound shortcut, best-effort, and clear the bindings.
    /// Always succeeds: "not bound anymore" is the desired end state and the
    /// record is cleared whatever the system answers.
    pub fn unregister_hotkeys<O: ShortcutOs>(&mut self, os: &mut O) -> (r: Result<(), String>)
        ensures
            unregister_all_post(*old(os), *final(os), *old(self), *final(self), r),
    {
        self.clear_bindings(os);
        Ok(())
    }

    /// A snapshot of the current bindings as action/shortcut pairs, in the
    /// fixed action order.  Never fails and changes nothing.
    pub fn get_registered_hotkeys(&self) -> (r: Vec<(String, String)>)
        ensures
            pairs_view(r@) == self.binding_pairs(),
    {
        let mut r: Vec<(String, String)> = Vec::new();
        match &self.start_recording {
            Some(v) => {
                r.push(("start_recording".to_owned(), v.clone()));
            },
            None => {},
        }
        match &self.stop_recording {
            Some(v) => {
                r.push(("stop_recording".to_owned(), v.clone()));
            },
            None => {},
        }
        proof {
            assert(pairs_view(r@) =~= self.binding_pairs());
        }
        r
    }
}

/// Syntactic validity check of a shortcut string: the empty string is
/// rejected outright, anything else is answered by the parser.  The system's
/// registration table is never consulted or touched.
pub fn check_hotkey_availability<O: ShortcutOs>(os: &O, shortcut_str: String) -> (r: Result<
    bool,
    String,
>)
    ensures
        r is Ok <==> (shortcut_str@.len() > 0 && os.parses(shortcut_str@)),
        (r matches Ok(b) ==> b),
        shortcut_str@.len() == 0 ==> (r matches Err(m) && m@ == empty_shortcut_message()),
{
    if shortcut_str.as_str().is_empty() {
        Err("shortcut must not be empty".to_owned())
    } else {
        match os.parse_check(shortcut_str.as_str()) {
            Ok(()) => Ok(true),
            Err(m) => Err(m),
        }
    }
}

} // verus!
