//! The interface to the platform's global-shortcut subsystem.
//!
//! The manager never talks to the operating system directly: it is handed a
//! collaborator that can syntactically check a shortcut string, register a
//! shortcut system-wide, and unregister one.  The collaborator carries a
//! mathematical model of its behaviour — which strings parse, which
//! registrations it refuses and why, and the set of shortcuts currently live
//! at the system level — so everything the manager does with it is verified
//! against that model.

use vstd::prelude::*;

verus! {

/// Why the system refused to register a shortcut: either the combination is
/// already claimed elsewhere, or the process lacks the input-monitoring
/// permission the platform demands for global shortcuts.
#[derive(Clone, Copy, Debug, PartialEq, Eq)]
pub enum FaultKind {
    Conflict,
    Permission,
}

/// A refusal reported by the system when registering a shortcut.
#[derive(Clone, Debug)]
pub struct OsError {
    pub kind: FaultKind,
    pub message: String,
}

/// The global-shortcut collaborator.
///
/// Its spec functions model the collaborator's behaviour: `live` is the set
/// of shortcut strings currently registered system-wide through this handle,
/// `parses` is its shortcut grammar, and the two fault functions say which
/// calls it will refuse.  The exec methods are contracted against that model;
/// mutating methods change only `live`, never the behaviour functions.
pub trait ShortcutOs: Sized {
    /// The shortcut strings currently registered at the system level
    /// through this collaborator.
    spec fn live(&self) -> Set<Seq<char>>;

    /// Whether a shortcut string is syntactically well-formed.
    spec fn parses(&self, s: Seq<char>) -> bool;

    /// Whether (and why) registering this shortcut would be refused.
    spec fn register_fault(&self, s: Seq<char>) -> Option<FaultKind>;

    /// Whether unregistering this shortcut would fail.
    spec fn unregister_fault(&self, s: Seq<char>) -> bool;

    /// Syntactic check of a shortcut string; touches no system state.
    fn parse_check(&self, s: &str) -> (r: Result<(), String>)
        ensures
            r is Ok <==> self.parses(s@),
    ;

    /// Register a shortcut system-wide.  Only the live set may change: the
    /// grammar and the fault behaviour are as before.
    fn register(&mut self, s: &String) -> (r: Result<(), OsError>)
        requires
            old(self).parses(s@),
        ensures
            forall|t: Seq<char>|
                #![trigger old(self).parses(t)]
                #![trigger final(self).parses(t)]
                old(self).parses(t) == final(self).parses(t),
            forall|t: Seq<char>|
                #![trigger old(self).register_fault(t)]
                #![trigger final(self).register_fault(t)]
                old(self).register_fault(t) == final(self).register_fault(t),
            forall|t: Seq<char>|
                #![trigger old(self).unregister_fault(t)]
                #![trigger final(self).unregister_fault(t)]
                old(self).unregister_fault(t) == final(self).unregister_fault(t),
            old(self).register_fault(s@) is None ==> r is Ok && final(self).live()
                == old(self).live().insert(s@),
            (match old(self).register_fault(s@) {
                Some(k) => r matches Err(e) && e.kind == k && final(self).live()
                    == old(self).live(),
                None => true,
            }),
    ;

    /// Unregister a shortcut.  On failure the shortcut stays live.  Only the
    /// live set may change: the grammar and the fault behaviour are as
    /// before.
    fn unregister(&mut self, s: &String) -> (r: Result<(), String>)
        ensures
            forall|t: Seq<char>|
                #![trigger old(self).parses(t)]
                #![trigger final(self).parses(t)]
                old(self).parses(t) == final(self).parses(t),
            forall|t: Seq<char>|
                #![trigger old(self).register_fault(t)]
                #![trigger final(self).register_fault(t)]
                old(self).register_fault(t) == final(self).register_fault(t),
            forall|t: Seq<char>|
                #![trigger old(self).unregister_fault(t)]
                #![trigger final(self).unregister_fault(t)]
                old(self).unregister_fault(t) == final(self).unregister_fault(t),
            old(self).unregister_fault(s@) ==> r is Err && final(self).live()
                == old(self).live(),
            !old(self).unregister_fault(s@) ==> r is Ok && final(self).live()
                == old(self).live().remove(s@),
    ;
}

/// Two collaborator states behave the same: they agree on the grammar and on
/// every fault.  Registering and unregistering change only what is live, so
/// they preserve this relation.
pub open spec fn same_behavior<O: ShortcutOs>(a: O, b: O) -> bool {
    &&& forall|s: Seq<char>| #![trigger a.parses(s)] #![trigger b.parses(s)]
        a.parses(s) == b.parses(s)
    &&& forall|s: Seq<char>| #![trigger a.register_fault(s)] #![trigger b.register_fault(s)]
        a.register_fault(s) == b.register_fault(s)
    &&& forall|s: Seq<char>|
        #![trigger a.unregister_fault(s)]
        #![trigger b.unregister_fault(s)]
        a.unregister_fault(s) == b.unregister_fault(s)
}

} // verus!
