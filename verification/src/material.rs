//! The material registry: sprite-path records created on demand, one per
//! material name, never duplicated.

use vstd::prelude::*;
use crate::text::{chars_eq, chars_of};

verus! {

/// A material's render record: the sprite path its texture is loaded from.
#[derive(Debug, Clone)]
pub struct Mat {
    pub spr: Vec<char>,
}

/// One registered material: its name and its record.
#[derive(Debug, Clone)]
pub struct MatEntry {
    pub name: Vec<char>,
    pub mat: Mat,
}

/// The registry of materials seen so far, keyed by name. Names are unique
/// and every record's sprite path is the name behind the `materials/` prefix.
#[derive(Debug)]
pub struct MatRegistry {
    entries: Vec<MatEntry>,
}

impl MatRegistry {
    /// The registered entries, in registration order.
    pub closed spec fn entries(self) -> Seq<MatEntry> {
        self.entries@
    }

    /// Whether a material of this name is registered.
    pub open spec fn contains(self, name: Seq<char>) -> bool {
        exists|i: int| 0 <= i < self.entries().len() && self.entries()[i].name@ == name
    }

    /// Names are unique and each sprite path is `materials/` plus the name.
    pub open spec fn wf(self) -> bool {
        &&& forall|i: int, j: int|
            0 <= i < j < self.entries().len() ==> self.entries()[i].name@ != self.entries()[j].name@
        &&& forall|i: int|
            0 <= i < self.entries().len() ==> (#[trigger] self.entries()[i]).mat.spr@
                == "materials/"@ + self.entries()[i].name@
    }

    pub fn new() -> (r: MatRegistry)
        ensures
            r.wf(),
            r.entries() == Seq::<MatEntry>::empty(),
    {
        MatRegistry { entries: Vec::new() }
    }

    /// How many materials are registered.
    pub fn len(&self) -> (n: usize)
        ensures
            n == self.entries().len(),
    {
        self.entries.len()
    }

    /// Finds the record registered under `mat`, if any.
    pub fn lookup<'a>(&'a self, mat: &str) -> (r: Option<&'a Mat>)
        requires
            self.wf(),
        ensures
            self.contains(mat@) <==> r is Some,
            r matches Some(m) ==> m.spr@ == "materials/"@ + mat@,
    {
        let key = chars_of(mat);
        let mut i: usize = 0;
        while i < self.entries.len()
            invariant
                0 <= i <= self.entries@.len(),
                self.wf(),
                key@ == mat@,
                forall|j: int| 0 <= j < i ==> self.entries@[j].name@ != mat@,
            decreases self.entries@.len() - i,
        {
            if chars_eq(&self.entries[i].name, &key) {
                proof {
                    assert(self.entries()[i as int].name@ == mat@);
                    assert(self.entries()[i as int].mat.spr@ == "materials/"@ + mat@);
                }
                return Some(&self.entries[i].mat);
            }
            i += 1;
        }
        None
    }
}

/// Registers the material under its name if it is not yet known, giving it
/// the sprite path `materials/` plus the name; a name already registered is
/// left exactly as it was.
pub fn ensure(reg: &mut MatRegistry, mat: &str)
    requires
        old(reg).wf(),
    ensures
        final(reg).wf(),
        final(reg).contains(mat@),
        old(reg).contains(mat@) ==> *final(reg) == *old(reg),
        !old(reg).contains(mat@) ==> {
            &&& final(reg).entries().len() == old(reg).entries().len() + 1
            &&& final(reg).entries().subrange(0, old(reg).entries().len() as int) == old(
                reg,
            ).entries()
            &&& final(reg).entries().last().name@ == mat@
            &&& final(reg).entries().last().mat.spr@ == "materials/"@ + mat@
        },
{
    let key = chars_of(mat);
    let mut i: usize = 0;
    let mut found: bool = false;
    while i < reg.entries.len() && !found
        invariant
            0 <= i <= reg.entries@.len(),
            *reg == *old(reg),
            key@ == mat@,
            found ==> exists|j: int| 0 <= j < i && reg.entries@[j].name@ == mat@,
            !found ==> forall|j: int| 0 <= j < i ==> reg.entries@[j].name@ != mat@,
        decreases reg.entries@.len() - i,
    {
        if chars_eq(&reg.entries[i].name, &key) {
            found = true;
        }
        i += 1;
    }
    if !found {
        let mut spr = chars_of("materials/");
        let ghost head = spr@;
        let mut k: usize = 0;
        while k < key.len()
            invariant
                0 <= k <= key@.len(),
                *reg == *old(reg),
                key@ == mat@,
                spr@ == head + key@.subrange(0, k as int),
            decreases key@.len() - k,
        {
            spr.push(key[k]);
            proof {
                assert(spr@ =~= head + key@.subrange(0, k + 1));
            }
            k += 1;
        }
        proof {
            assert(spr@ =~= "materials/"@ + mat@);
        }
        let ghost pre = reg.entries@;
        let ghost n0 = pre.len() as int;
        let entry = MatEntry { name: key, mat: Mat { spr } };
        reg.entries.push(entry);
        proof {
            assert(pre == old(reg).entries());
            assert(reg.entries() == pre.push(entry));
            assert(reg.entries().subrange(0, n0) =~= pre);
            assert(reg.entries().last().name@ == mat@);
            assert(reg.entries().last().mat.spr@ == "materials/"@ + mat@);
            assert forall|i2: int, j2: int|
                0 <= i2 < j2 < reg.entries().len() implies reg.entries()[i2].name@
                != reg.entries()[j2].name@ by {
                assert(reg.entries()[i2] == pre[i2]);
                assert(old(reg).entries()[i2] == pre[i2]);
                if j2 == n0 {
                    assert(pre[i2].name@ != mat@);
                    assert(reg.entries()[j2].name@ == mat@);
                } else {
                    assert(reg.entries()[j2] == pre[j2]);
                    assert(old(reg).entries()[j2] == pre[j2]);
                    assert(old(reg).entries()[i2].name@ != old(reg).entries()[j2].name@);
                }
            }
            assert forall|i2: int|
                0 <= i2 < reg.entries().len() implies (#[trigger] reg.entries()[i2]).mat.spr@
                == "materials/"@ + reg.entries()[i2].name@ by {
                if i2 < n0 {
                    assert(reg.entries()[i2] == pre[i2]);
                    assert((#[trigger] old(reg).entries()[i2]).mat.spr@ == "materials/"@ + old(
                        reg,
                    ).entries()[i2].name@);
                }
            }
            assert(reg.contains(mat@)) by {
                assert(reg.entries()[n0].name@ == mat@);
            }
        }
    }
}

} // verus!
