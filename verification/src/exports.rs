//! The exports table of an instance: named live extern values in
//! module declaration order.

use crate::externals::Extern;
use crate::externals::ExternV;
use crate::externals::Global;
use crate::types::Value;
use vstd::prelude::*;
use vstd::string::*;

verus! {

/// Whether some entry of `v` carries `name`.
pub open spec fn contains_name(v: Seq<(Seq<char>, ExternV)>, name: Seq<char>) -> bool {
    exists|i: int| 0 <= i < v.len() && v[i].0 == name
}

/// Whether the first entry of `v` named `name` is a mutable global
/// whose value type `value` inhabits — the condition under which a
/// write through the export table succeeds.
pub open spec fn can_set_global(v: Seq<(Seq<char>, ExternV)>, name: Seq<char>, value: Value) -> bool {
    exists|i: int|
        {
            &&& 0 <= i < v.len()
            &&& v[i].0 == name
            &&& forall|j: int| 0 <= j < i ==> v[j].0 != name
            &&& v[i].1 matches ExternV::Global(g) && g.ty.mutability && value.spec_ty() == g.ty.ty
        }
}

/// An ordered mapping from export name to live extern value. Order is
/// the module's declaration order; names are unique when the table was
/// produced by instantiating a valid module.
#[derive(Clone, Debug)]
pub struct Exports {
    entries: Vec<(String, Extern)>,
}

impl View for Exports {
    type V = Seq<(Seq<char>, ExternV)>;

    closed spec fn view(&self) -> Seq<(Seq<char>, ExternV)> {
        self.entries@.map_values(|e: (String, Extern)| (e.0@, e.1@))
    }
}

impl Exports {
    /// Creates an empty exports table.
    pub fn new() -> (r: Exports)
        ensures
            r@ == Seq::<(Seq<char>, ExternV)>::empty(),
    {
        let r = Exports { entries: Vec::new() };
        proof {
            assert(r@ =~= Seq::<(Seq<char>, ExternV)>::empty());
        }
        r
    }

    /// Appends one named extern value.
    pub fn insert(&mut self, name: String, value: Extern)
        ensures
            final(self)@ == old(self)@.push((name@, value@)),
    {
        let ghost old_view = self@;
        let ghost pair_view = (name@, value@);
        self.entries.push((name, value));
        proof {
            assert(self@ =~= old_view.push(pair_view));
        }
    }

    /// The number of exports.
    pub fn len(&self) -> (r: usize)
        ensures
            r == self@.len(),
    {
        self.entries.len()
    }

    /// The entry at position `i` in declaration order.
    pub fn nth(&self, i: usize) -> (r: &(String, Extern))
        requires
            i < self@.len(),
        ensures
            (r.0@, r.1@) == self@[i as int],
    {
        &self.entries[i]
    }

    /// Looks up an export by name. Returns the first entry carrying
    /// `name`, or `None` when no entry does.
    pub fn get(&self, name: &str) -> (r: Option<&Extern>)
        ensures
            r matches Some(e) ==> exists|i: int|
                {
                    &&& 0 <= i < self@.len()
                    &&& self@[i].0 == name@
                    &&& forall|j: int| 0 <= j < i ==> self@[j].0 != name@
                    &&& e@ == self@[i].1
                },
            r is None ==> !contains_name(self@, name@),
    {
        let needle: String = name.to_owned();
        let n: usize = self.entries.len();
        let mut i: usize = 0;
        while i < n
            invariant
                n == self.entries.len(),
                n == self@.len(),
                i <= n,
                needle@ == name@,
                forall|j: int| 0 <= j < i ==> self@[j].0 != name@,
            decreases n - i,
        {
            proof {
                assert(self@[i as int] == (self.entries@[i as int].0@, self.entries@[i as int].1@));
            }
            if self.entries[i].0 == needle {
                return Some(&self.entries[i].1);
            }
            i = i + 1;
        }
        None
    }

    /// Writes `value` through the export table into the global named
    /// `name`. Returns `true` and updates exactly that entry when the
    /// first export named `name` is a mutable global whose type
    /// `value` inhabits; otherwise leaves the table unchanged and
    /// returns `false`.
    pub fn set_global(&mut self, name: &str, value: Value) -> (r: bool)
        ensures
            r == can_set_global(old(self)@, name@, value),
            !r ==> final(self)@ == old(self)@,
            r ==> exists|i: int|
                {
                    &&& 0 <= i < old(self)@.len()
                    &&& old(self)@[i].0 == name@
                    &&& forall|j: int| 0 <= j < i ==> old(self)@[j].0 != name@
                    &&& old(self)@[i].1 matches ExternV::Global(g) && g.ty.mutability
                        && value.spec_ty() == g.ty.ty && final(self)@ == old(self)@.update(
                        i,
                        (name@, ExternV::Global(Global { handle: g.handle, ty: g.ty, value })),
                    )
                },
    {
        let needle: String = name.to_owned();
        let n: usize = self.entries.len();
        let mut i: usize = 0;
        while i < n
            invariant
                self@ == old(self)@,
                self.entries@ == old(self).entries@,
                n == self.entries.len(),
                n == self@.len(),
                i <= n,
                needle@ == name@,
                forall|j: int| 0 <= j < i ==> self@[j].0 != name@,
            decreases n - i,
        {
            proof {
                assert(self@[i as int] == (self.entries@[i as int].0@, self.entries@[i as int].1@));
            }
            if self.entries[i].0 == needle {
                let ghost ov = old(self)@;
                let ghost fi = i as int;
                match &self.entries[i].1 {
                    Extern::Global(g) => {
                        proof {
                            assert(ov[fi].1 == ExternV::Global(*g));
                        }
                        if g.ty.mutability && value.ty() == g.ty.ty {
                            let updated = Global { handle: g.handle, ty: g.ty, value };
                            let entry_name = self.entries[i].0.clone();
                            self.entries.set(i, (entry_name, Extern::Global(updated)));
                            proof {
                                assert(self@ =~= ov.update(fi, (name@, ExternV::Global(updated))));
                                assert(ov[fi].1 matches ExternV::Global(g2) && g2.ty.mutability
                                    && value.spec_ty() == g2.ty.ty);
                                assert(can_set_global(ov, name@, value));
                            }
                            return true;
                        }
                        proof {
                            lemma_no_set_global(ov, name@, value, fi);
                        }
                        return false;
                    },
                    _ => {
                        proof {
                            assert(!(ov[fi].1 is Global));
                            lemma_no_set_global(ov, name@, value, fi);
                        }
                        return false;
                    },
                }
            }
            i = i + 1;
        }
        proof {
            assert forall|k: int| 0 <= k < old(self)@.len() implies old(self)@[k].0 != name@ by {}
        }
        false
    }
}

/// If entry `i` is the first of `v` named `name` but is not a mutable
/// global that `value` inhabits, no entry witnesses
/// [`can_set_global`]: a witness would itself have to be the first
/// entry named `name`, which is `i`.
proof fn lemma_no_set_global(v: Seq<(Seq<char>, ExternV)>, name: Seq<char>, value: Value, i: int)
    requires
        0 <= i < v.len(),
        v[i].0 == name,
        forall|j: int| 0 <= j < i ==> v[j].0 != name,
        !(v[i].1 matches ExternV::Global(g) && g.ty.mutability && value.spec_ty() == g.ty.ty),
    ensures
        !can_set_global(v, name, value),
{
    assert forall|k: int|
        !{
            &&& 0 <= k < v.len()
            &&& v[k].0 == name
            &&& forall|j: int| 0 <= j < k ==> v[j].0 != name
            &&& v[k].1 matches ExternV::Global(g) && g.ty.mutability && value.spec_ty() == g.ty.ty
        } by {
        if 0 <= k < v.len() && v[k].0 == name && (forall|j: int| 0 <= j < k ==> v[j].0 != name) {
            if k < i {
                assert(v[k].0 != name);
            } else if k > i {
                assert(v[i].0 != name);
            }
        }
    }
}

} // verus!
