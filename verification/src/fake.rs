//! An in-process global-shortcut collaborator.
//!
//! `FakeShortcutOs` records which shortcuts are live in a plain table and can
//! be configured, string by string, to refuse parsing or registration, or to
//! fail every unregistration.  It is a fully verified implementation of
//! [`ShortcutOs`], so the manager's laws can be instantiated with it, and
//! tests can drive the manager against deterministic system behaviour.

use vstd::prelude::*;

use crate::os::FaultKind;
use crate::os::OsError;
use crate::os::ShortcutOs;

verus! {

/// Whether some string in `v` has view `s`.
pub open spec fn has_view(v: Seq<String>, s: Seq<char>) -> bool {
    exists|i: int| 0 <= i < v.len() && v[i]@ == s
}

/// The set of views of the strings in `v`.
pub open spec fn view_set(v: Seq<String>) -> Set<Seq<char>> {
    Set::new(|s: Seq<char>| has_view(v, s))
}

proof fn lemma_has_view_push(v: Seq<String>, x: String, t: Seq<char>)
    ensures
        has_view(v.push(x), t) == (has_view(v, t) || t == x@),
{
    if has_view(v, t) {
        let i = choose|i: int| 0 <= i < v.len() && v[i]@ == t;
        assert(v.push(x)[i]@ == t);
    }
    if t == x@ {
        assert(v.push(x)[v.len() as int]@ == t);
    }
    if has_view(v.push(x), t) {
        let i = choose|i: int| 0 <= i < v.push(x).len() && v.push(x)[i]@ == t;
        if i < v.len() {
            assert(v[i]@ == t);
        }
    }
}

fn contains_string(v: &Vec<String>, key: &String) -> (r: bool)
    ensures
        r == has_view(v@, key@),
{
    let mut i: usize = 0;
    while i < v.len()
        invariant
            i <= v@.len(),
            forall|j: int| 0 <= j < i ==> v@[j]@ != key@,
        decreases v@.len() - i,
    {
        if v[i] == *key {
            assert(v@[i as int]@ == key@);
            return true;
        }
        i += 1;
    }
    false
}

fn push_unique(v: &mut Vec<String>, s: &String)
    ensures
        view_set(final(v)@) == view_set(old(v)@).insert(s@),
{
    if !contains_string(v, s) {
        v.push(s.clone());
        proof {
            assert forall|t: Seq<char>|
                view_set(v@).contains(t) == view_set(old(v)@).insert(s@).contains(t) by {
                lemma_has_view_push(old(v)@, *s, t);
            }
            assert(view_set(v@) =~= view_set(old(v)@).insert(s@));
        }
    } else {
        proof {
            assert(view_set(v@) =~= view_set(old(v)@).insert(s@));
        }
    }
}

fn remove_string(v: &mut Vec<String>, s: &String)
    ensures
        view_set(final(v)@) == view_set(old(v)@).remove(s@),
{
    let mut kept: Vec<String> = Vec::new();
    let mut i: usize = 0;
    while i < v.len()
        invariant
            i <= v@.len(),
            v@ == old(v)@,
            forall|j: int| 0 <= j < kept@.len() ==> kept@[j]@ != s@,
            forall|j: int| 0 <= j < kept@.len() ==> has_view(v@, #[trigger] kept@[j]@),
            forall|k: int| 0 <= k < i && (#[trigger] v@[k]@) != s@ ==> has_view(kept@, v@[k]@),
        decreases v@.len() - i,
    {
        let ghost pre = kept@;
        if !(v[i] == *s) {
            kept.push(v[i].clone());
            proof {
                assert(kept@ == pre.push(v@[i as int]));
                assert forall|j: int| 0 <= j < kept@.len() implies kept@[j]@ != s@ by {
                    if j < pre.len() {
                        assert(pre[j]@ != s@);
                    } else {
                        assert(kept@[j]@ == v@[i as int]@);
                    }
                }
                assert forall|j: int| 0 <= j < kept@.len() implies has_view(
                    v@,
                    #[trigger] kept@[j]@,
                ) by {
                    if j < pre.len() {
                        assert(has_view(v@, pre[j]@));
                    } else {
                        assert(v@[i as int]@ == kept@[j]@);
                    }
                }
                assert forall|k: int| 0 <= k < i + 1 && (#[trigger] v@[k]@) != s@ implies has_view(
                    kept@,
                    v@[k]@,
                ) by {
                    lemma_has_view_push(pre, v@[i as int], v@[k]@);
                }
            }
        } else {
            proof {
                assert(v@[i as int]@ == s@);
            }
        }
        i += 1;
    }
    proof {
        assert forall|t: Seq<char>|
            view_set(kept@).contains(t) == view_set(old(v)@).remove(s@).contains(t) by {
            if has_view(kept@, t) {
                let j = choose|j: int| 0 <= j < kept@.len() && kept@[j]@ == t;
                assert(kept@[j]@ != s@);
            }
            if has_view(v@, t) && t != s@ {
                let k = choose|k: int| 0 <= k < v@.len() && v@[k]@ == t;
                assert(has_view(kept@, v@[k]@));
            }
        }
    }
    *v = kept;
    proof {
        assert(view_set(v@) =~= view_set(old(v)@).remove(s@));
    }
}

/// A configurable, recording stand-in for the platform's global-shortcut
/// subsystem.  Freshly constructed, it parses every string, accepts every
/// registration, and succeeds on every unregistration.
pub struct FakeShortcutOs {
    registered: Vec<String>,
    unparseable: Vec<String>,
    conflict_on: Vec<String>,
    permission_on: Vec<String>,
    fail_unregister: bool,
}

impl FakeShortcutOs {
    /// A collaborator with nothing live, a grammar that accepts everything,
    /// and no configured faults.
    pub fn new() -> (r: Self)
        ensures
            r.live() == Set::<Seq<char>>::empty(),
            forall|s: Seq<char>| #[trigger] r.parses(s),
            forall|s: Seq<char>| #[trigger] r.register_fault(s) is None,
            forall|s: Seq<char>| !(#[trigger] r.unregister_fault(s)),
    {
        let r = FakeShortcutOs {
            registered: Vec::new(),
            unparseable: Vec::new(),
            conflict_on: Vec::new(),
            permission_on: Vec::new(),
            fail_unregister: false,
        };
        proof {
            assert(view_set(r.registered@) =~= Set::<Seq<char>>::empty());
        }
        r
    }

    /// Configure the grammar to reject `s`.
    pub fn refuse_parse(&mut self, s: String)
        ensures
            forall|t: Seq<char>| #[trigger] final(self).parses(t) == (old(self).parses(t) && t
                != s@),
            final(self).live() == old(self).live(),
            forall|t: Seq<char>| #[trigger] final(self).register_fault(t) == old(
                self,
            ).register_fault(t),
            forall|t: Seq<char>| #[trigger] final(self).unregister_fault(t) == old(
                self,
            ).unregister_fault(t),
    {
        let ghost olds = self.unparseable@;
        self.unparseable.push(s);
        proof {
            assert forall|t: Seq<char>| #[trigger] self.parses(t) == (old(self).parses(t) && t
                != s@) by {
                lemma_has_view_push(olds, s, t);
            }
        }
    }

    /// Configure registration of `s` to fail because the combination is
    /// already claimed elsewhere.
    pub fn refuse_register_conflict(&mut self, s: String)
        ensures
            forall|t: Seq<char>| #[trigger] final(self).register_fault(t) == (if t == s@ {
                Some(FaultKind::Conflict)
            } else {
                old(self).register_fault(t)
            }),
            final(self).live() == old(self).live(),
            forall|t: Seq<char>| #[trigger] final(self).parses(t) == old(self).parses(t),
            forall|t: Seq<char>| #[trigger] final(self).unregister_fault(t) == old(
                self,
            ).unregister_fault(t),
    {
        let ghost olds = self.conflict_on@;
        self.conflict_on.push(s);
        proof {
            assert forall|t: Seq<char>| #[trigger] self.register_fault(t) == (if t == s@ {
                Some(FaultKind::Conflict)
            } else {
                old(self).register_fault(t)
            }) by {
                lemma_has_view_push(olds, s, t);
            }
        }
    }

    /// Configure registration of `s` to fail for want of the platform's
    /// input-monitoring permission.
    pub fn refuse_register_permission(&mut self, s: String)
        ensures
            forall|t: Seq<char>| #[trigger] final(self).register_fault(t) == (if t == s@ && old(
                self,
            ).register_fault(t) is None {
                Some(FaultKind::Permission)
            } else {
                old(self).register_fault(t)
            }),
            final(self).live() == old(self).live(),
            forall|t: Seq<char>| #[trigger] final(self).parses(t) == old(self).parses(t),
            forall|t: Seq<char>| #[trigger] final(self).unregister_fault(t) == old(
                self,
            ).unregister_fault(t),
    {
        let ghost olds = self.permission_on@;
        self.permission_on.push(s);
        proof {
            assert forall|t: Seq<char>| #[trigger] self.register_fault(t) == (if t == s@ && old(
                self,
            ).register_fault(t) is None {
                Some(FaultKind::Permission)
            } else {
                old(self).register_fault(t)
            }) by {
                lemma_has_view_push(olds, s, t);
            }
        }
    }

    /// Configure every unregistration to fail (or succeed again).
    pub fn set_fail_unregister(&mut self, fail: bool)
        ensures
            forall|t: Seq<char>| #[trigger] final(self).unregister_fault(t) == fail,
            final(self).live() == old(self).live(),
            forall|t: Seq<char>| #[trigger] final(self).parses(t) == old(self).parses(t),
            forall|t: Seq<char>| #[trigger] final(self).register_fault(t) == old(
                self,
            ).register_fault(t),
    {
        self.fail_unregister = fail;
    }

    /// Whether `s` is live at the (fake) system level.
    pub fn is_live(&self, s: &String) -> (r: bool)
        ensures
            r == self.live().contains(s@),
    {
        contains_string(&self.registered, s)
    }
}

impl ShortcutOs for FakeShortcutOs {
    closed spec fn live(&self) -> Set<Seq<char>> {
        view_set(self.registered@)
    }

    closed spec fn parses(&self, s: Seq<char>) -> bool {
        !has_view(self.unparseable@, s)
    }

    closed spec fn register_fault(&self, s: Seq<char>) -> Option<FaultKind> {
        if has_view(self.conflict_on@, s) {
            Some(FaultKind::Conflict)
        } else if has_view(self.permission_on@, s) {
            Some(FaultKind::Permission)
        } else {
            None
        }
    }

    closed spec fn unregister_fault(&self, s: Seq<char>) -> bool {
        self.fail_unregister
    }

    fn parse_check(&self, s: &str) -> (r: Result<(), String>) {
        let key = s.to_owned();
        if contains_string(&self.unparseable, &key) {
            Err("invalid shortcut format".to_owned())
        } else {
            Ok(())
        }
    }

    fn register(&mut self, s: &String) -> (r: Result<(), OsError>) {
        if contains_string(&self.conflict_on, s) {
            Err(
                OsError {
                    kind: FaultKind::Conflict,
                    message: "the key combination is already in use".to_owned(),
                },
            )
        } else if contains_string(&self.permission_on, s) {
            Err(
                OsError {
                    kind: FaultKind::Permission,
                    message: "the system denied permission to watch global input".to_owned(),
                },
            )
        } else {
            push_unique(&mut self.registered, s);
            Ok(())
        }
    }

    fn unregister(&mut self, s: &String) -> (r: Result<(), String>) {
        if self.fail_unregister {
            Err("the system refused to release the shortcut".to_owned())
        } else {
            remove_string(&mut self.registered, s);
            Ok(())
        }
    }
}

} // verus!
