use vstd::prelude::*;

verus! {

/// A stable token that addresses a view node and its element across
/// rebuild passes. Identities are totally ordered by their number.
#[derive(Clone, Copy, Debug, PartialEq, Eq, Structural, Hash)]
pub struct Id {
    pub raw: u64,
}

impl Id {
    /// The identity with the given number.
    pub fn from_raw(raw: u64) -> (r: Id)
        ensures
            r.raw == raw,
    {
        Id { raw }
    }

    /// The number of this identity.
    pub fn to_raw(&self) -> (r: u64)
        ensures
            r == self.raw,
    {
        self.raw
    }
}

/// The allocation context of a build pass: the counter from which fresh
/// identities are minted, and the path of identities from the root down to
/// the node being built.
pub struct Cx {
    pub next: u64,
    pub path: Vec<Id>,
}

impl Cx {
    /// Every identity that this context has minted lies below its counter.
    pub open spec fn wf(&self) -> bool {
        forall|i: int| 0 <= i < self.path@.len() ==> (#[trigger] self.path@[i]).raw < self.next
    }

    /// A fresh context: no identity minted yet, at the root.
    pub fn new() -> (r: Cx)
        ensures
            r.wf(),
            r.next == 0,
            r.path@ == Seq::<Id>::empty(),
    {
        Cx { next: 0, path: Vec::new() }
    }

    /// The path from the root to the node being built.
    pub fn id_path(&self) -> (r: &Vec<Id>)
        ensures
            r@ == self.path@,
    {
        &self.path
    }

    /// Mints a fresh identity and enters it: descendants built from here on
    /// have it on their path. The identity differs from every identity that
    /// this context minted before.
    pub fn enter(&mut self) -> (r: Id)
        requires
            old(self).wf(),
            old(self).next < u64::MAX,
        ensures
            final(self).wf(),
            r.raw == old(self).next,
            final(self).next == old(self).next + 1,
            final(self).path@ == old(self).path@.push(r),
            forall|i: int| 0 <= i < old(self).path@.len() ==> (#[trigger] old(self).path@[i]) != r,
    {
        let id = Id { raw: self.next };
        self.next = self.next + 1;
        self.path.push(id);
        id
    }

    /// Leaves the node entered last: its identity leaves the path.
    pub fn leave(&mut self)
        requires
            old(self).wf(),
            old(self).path@.len() > 0,
        ensures
            final(self).wf(),
            final(self).next == old(self).next,
            final(self).path@ == old(self).path@.drop_last(),
    {
        self.path.pop();
    }
}

} // verus!
