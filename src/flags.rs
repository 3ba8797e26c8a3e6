use vstd::prelude::*;

verus! {

/// Bit of work: the element's state must be brought up to date.
pub const UPDATE: u8 = 1;

/// Bit of work: layout must run again.
pub const LAYOUT: u8 = 2;

/// Bit of work: the accessibility tree must be rebuilt.
pub const ACCESSIBILITY: u8 = 4;

/// Bit of work: the element must be painted again.
pub const PAINT: u8 = 8;

/// Bit of work: the widget tree's structure changed.
pub const TREE: u8 = 16;

/// Every bit of work at once.
pub const ALL: u8 = 31;

/// A set of dirty bits reported by a rebuild: what the retained tree must
/// recompute. Combined with bitwise or, the empty set being the identity.
#[derive(Clone, Copy, Debug, PartialEq, Eq, Structural)]
pub struct ChangeFlags {
    pub bits: u8,
}

/// `a` holds every bit of `b`.
pub open spec fn includes(a: u8, b: u8) -> bool {
    a & b == b
}

/// The or of every element of `s`.
pub open spec fn or_all(s: Seq<u8>) -> u8
    decreases s.len(),
{
    if s.len() == 0 {
        0
    } else {
        (or_all(s.drop_last()) | s.last()) as u8
    }
}

/// The bits of each element of `s`.
pub open spec fn bits_of(s: Seq<ChangeFlags>) -> Seq<u8> {
    s.map_values(|f: ChangeFlags| f.bits)
}

impl ChangeFlags {
    /// The empty set: nothing to recompute.
    pub fn empty() -> (r: ChangeFlags)
        ensures
            r.bits == 0,
    {
        ChangeFlags { bits: 0 }
    }

    /// The set of every bit of work.
    pub fn all() -> (r: ChangeFlags)
        ensures
            r.bits == ALL,
    {
        ChangeFlags { bits: ALL }
    }

    /// The set made of the given bits.
    pub fn from_bits(bits: u8) -> (r: ChangeFlags)
        ensures
            r.bits == bits,
    {
        ChangeFlags { bits }
    }

    /// Whether no bit is set.
    pub fn is_empty(&self) -> (r: bool)
        ensures
            r == (self.bits == 0),
    {
        self.bits == 0
    }

    /// Whether every bit of `other` is set in `self`.
    pub fn contains(&self, other: ChangeFlags) -> (r: bool)
        ensures
            r == includes(self.bits, other.bits),
    {
        self.bits & other.bits == other.bits
    }

    /// The union of two sets.
    pub fn union(self, other: ChangeFlags) -> (r: ChangeFlags)
        ensures
            r.bits == self.bits | other.bits,
            includes(r.bits, self.bits),
            includes(r.bits, other.bits),
    {
        let a = self.bits;
        let b = other.bits;
        assert(((a | b) & a == a) && ((a | b) & b == b)) by (bit_vector);
        ChangeFlags { bits: a | b }
    }

    /// Combines a node's own changes with the flags that its children
    /// returned: `own` or-ed with every child's flags.
    pub fn combine(own: ChangeFlags, children: &Vec<ChangeFlags>) -> (r: ChangeFlags)
        ensures
            r.bits == own.bits | or_all(bits_of(children@)),
    {
        let mut acc: u8 = 0;
        let mut i: usize = 0;
        while i < children.len()
            invariant
                i <= children.len(),
                acc == or_all(bits_of(children@).take(i as int)),
            decreases children.len() - i,
        {
            let ghost s = bits_of(children@);
            assert(s.take(i + 1).drop_last() =~= s.take(i as int));
            acc = acc | children[i].bits;
            i = i + 1;
        }
        assert(bits_of(children@).take(children.len() as int) =~= bits_of(children@));
        ChangeFlags { bits: own.bits | acc }
    }
}

proof fn lemma_or_includes(a: u8, b: u8, c: u8)
    requires
        includes(a, c),
    ensures
        includes((a | b) as u8, c),
{
    assert(a & c == c ==> (a | b) & c == c) by (bit_vector);
}

/// The or of a sequence holds every bit of each of its elements.
pub proof fn lemma_or_all_includes(s: Seq<u8>, i: int)
    requires
        0 <= i < s.len(),
    ensures
        includes(or_all(s), s[i]),
    decreases s.len(),
{
    let a = or_all(s.drop_last());
    let b = s.last();
    if i == s.len() - 1 {
        assert((a | b) & b == b) by (bit_vector);
    } else {
        lemma_or_all_includes(s.drop_last(), i);
        lemma_or_includes(a, b, s[i]);
    }
}

/// Change flags only accumulate: the flags that a parent reports, its own
/// changes combined with its children's, hold every bit that any child
/// reported, and so also the or of all of them.
pub proof fn lemma_parent_flags_include_children(own: ChangeFlags, children: Seq<ChangeFlags>)
    ensures
        includes(own.bits | or_all(bits_of(children)), or_all(bits_of(children))),
        forall|i: int|
            0 <= i < children.len() ==> includes(
                #[trigger] (own.bits | or_all(bits_of(children))) as u8,
                children[i].bits,
            ),
{
    let o = or_all(bits_of(children));
    let a = own.bits;
    assert((a | o) & o == o) by (bit_vector);
    assert forall|i: int| 0 <= i < children.len() implies includes(
        (own.bits | or_all(bits_of(children))) as u8,
        children[i].bits,
    ) by {
        lemma_or_all_includes(bits_of(children), i);
        lemma_or_includes(o, a, children[i].bits);
        assert(o | a == a | o) by (bit_vector);
    }
}

} // verus!
