use vstd::prelude::*;
use vstd::string::StringExecFns;

verus! {

/// One reaction modifier that can be attached to a character: a named,
/// signed adjustment that can be switched on and off without deleting it.
#[derive(Clone, Debug, Eq, PartialOrd, Ord, Hash)]
pub struct ReactionMod {
    pub name: String,
    pub modi: i32,
    pub enabled: bool,
}

/// Structural equality of two modifiers: name, value and enabled flag all agree.
pub open spec fn mod_eq(a: ReactionMod, b: ReactionMod) -> bool {
    a.name@ == b.name@ && a.modi == b.modi && a.enabled == b.enabled
}

impl ReactionMod {
    /// Creates a new reaction modifier. Starts out enabled.
    pub fn new(name: &str, modifier: i32) -> (r: ReactionMod)
        ensures
            r.name@ == name@,
            r.modi == modifier,
            r.enabled,
    {
        ReactionMod { name: String::from_str(name), modi: modifier, enabled: true }
    }
}

impl PartialEq for ReactionMod {
    fn eq(&self, other: &Self) -> (r: bool) {
        self.name == other.name && self.modi == other.modi && self.enabled == other.enabled
    }
}

impl vstd::std_specs::cmp::PartialEqSpecImpl for ReactionMod {
    open spec fn obeys_eq_spec() -> bool {
        true
    }

    open spec fn eq_spec(&self, other: &Self) -> bool {
        mod_eq(*self, *other)
    }
}

impl Default for ReactionMod {
    /// An unnamed, disabled modifier of value zero.
    fn default() -> (r: Self)
        ensures
            r.name@ == Seq::<char>::empty(),
            r.modi == 0,
            !r.enabled,
    {
        ReactionMod { name: String::new(), modi: 0, enabled: false }
    }
}

/// The sum of `modi` over every modifier of the sequence, enabled or not.
pub open spec fn value_sum(mods: Seq<ReactionMod>) -> int
    decreases mods.len(),
{
    if mods.len() == 0 {
        0
    } else {
        value_sum(mods.drop_last()) + mods.last().modi
    }
}

/// The sum of `modi` over only the enabled modifiers of the sequence.
pub open spec fn enabled_value_sum(mods: Seq<ReactionMod>) -> int
    decreases mods.len(),
{
    if mods.len() == 0 {
        0
    } else {
        enabled_value_sum(mods.drop_last()) + if mods.last().enabled {
            mods.last().modi as int
        } else {
            0
        }
    }
}

/// When every modifier of the sequence is enabled, the enabled-only sum
/// agrees with the sum over all modifiers.
pub proof fn lemma_all_enabled_sums_agree(mods: Seq<ReactionMod>)
    requires
        forall|i: int| 0 <= i < mods.len() ==> mods[i].enabled,
    ensures
        enabled_value_sum(mods) == value_sum(mods),
    decreases mods.len(),
{
    if mods.len() > 0 {
        lemma_all_enabled_sums_agree(mods.drop_last());
    }
}

/// Removing the modifier at `i` takes exactly its value out of the
/// all-modifiers sum, and out of the enabled-only sum when it is enabled.
proof fn lemma_sums_remove(mods: Seq<ReactionMod>, i: int)
    requires
        0 <= i < mods.len(),
    ensures
        value_sum(mods.remove(i)) == value_sum(mods) - mods[i].modi,
        enabled_value_sum(mods.remove(i)) == enabled_value_sum(mods) - if mods[i].enabled {
            mods[i].modi as int
        } else {
            0
        },
    decreases mods.len(),
{
    if i == mods.len() - 1 {
        assert(mods.remove(i) =~= mods.drop_last());
    } else {
        lemma_sums_remove(mods.drop_last(), i);
        assert(mods.remove(i).drop_last() =~= mods.drop_last().remove(i));
        assert(mods.remove(i).last() == mods.last());
    }
}

/// Order-independence of summation: two sequences that hold the same
/// modifiers in any order (equal multisets) have the same sum over all
/// modifiers and the same sum over enabled modifiers.
pub proof fn lemma_sums_permutation(s1: Seq<ReactionMod>, s2: Seq<ReactionMod>)
    requires
        s1.to_multiset() == s2.to_multiset(),
    ensures
        value_sum(s1) == value_sum(s2),
        enabled_value_sum(s1) == enabled_value_sum(s2),
    decreases s1.len(),
{
    broadcast use vstd::seq_lib::group_to_multiset_ensures;

    if s1.len() == 0 {
        assert(s2.to_multiset().len() == 0);
    } else {
        let last: int = s1.len() - 1;
        let x = s1[last];
        assert(s1.contains(x));
        assert(s1.to_multiset().count(x) > 0);
        assert(s2.to_multiset().count(x) > 0);
        assert(s2.contains(x));
        let i = choose|i: int| 0 <= i < s2.len() && s2[i] == x;
        assert(s1.remove(last).to_multiset() == s1.to_multiset().remove(x));
        assert(s2.remove(i).to_multiset() == s2.to_multiset().remove(x));
        lemma_sums_permutation(s1.remove(last), s2.remove(i));
        lemma_sums_remove(s1, last);
        lemma_sums_remove(s2, i);
    }
}

/// A single character: a name and an ordered list of reaction modifiers.
/// Insertion order is meaningful and preserved; it drives display order.
#[derive(Clone, Debug, Eq, PartialOrd, Ord, Hash)]
pub struct Character {
    pub name: String,
    pub reaction_modifiers: Vec<ReactionMod>,
}

impl Character {
    /// Creates a new character with no reaction modifiers.
    pub fn new(name: &str) -> (c: Character)
        ensures
            c.name@ == name@,
            c.reaction_modifiers@ == Seq::<ReactionMod>::empty(),
    {
        Character { name: String::from_str(name), reaction_modifiers: Vec::new() }
    }

    /// Sums up the reaction modifiers on this character.
    /// If `count_disabled` is false, only modifiers with `enabled == true`
    /// are considered; otherwise all modifiers count regardless.
    ///
    /// The accumulator is wide enough that the sum of any list of `i32`
    /// values the machine can hold fits without overflow.
    pub fn reaction_sum(&self, count_disabled: bool) -> (r: i128)
        ensures
            count_disabled ==> r as int == value_sum(self.reaction_modifiers@),
            !count_disabled ==> r as int == enabled_value_sum(self.reaction_modifiers@),
    {
        let mods = &self.reaction_modifiers;
        let mut total: i128 = 0;
        let mut idx: usize = 0;
        while idx < mods.len()
            invariant
                idx <= mods.len(),
                count_disabled ==> total as int == value_sum(mods@.subrange(0, idx as int)),
                !count_disabled ==> total as int == enabled_value_sum(
                    mods@.subrange(0, idx as int),
                ),
                -(idx as int) * 0x8000_0000 <= total as int <= (idx as int) * 0x8000_0000,
            decreases mods@.len() - idx,
        {
            proof {
                assert(mods@.subrange(0, idx as int + 1).drop_last() =~= mods@.subrange(
                    0,
                    idx as int,
                ));
            }
            let m = &mods[idx];
            if count_disabled || m.enabled {
                total = total + (m.modi as i128);
            }
            idx = idx + 1;
        }
        proof {
            assert(mods@.subrange(0, mods@.len() as int) =~= mods@);
        }
        total
    }
}

impl PartialEq for Character {
    fn eq(&self, other: &Self) -> (r: bool) {
        if !(self.name == other.name) {
            return false;
        }
        let n = self.reaction_modifiers.len();
        if n != other.reaction_modifiers.len() {
            return false;
        }
        let mut idx: usize = 0;
        while idx < n
            invariant
                idx <= n,
                n == self.reaction_modifiers@.len(),
                n == other.reaction_modifiers@.len(),
                forall|j: int|
                    0 <= j < idx ==> mod_eq(
                        self.reaction_modifiers@[j],
                        other.reaction_modifiers@[j],
                    ),
            decreases n - idx,
        {
            if !(self.reaction_modifiers[idx] == other.reaction_modifiers[idx]) {
                return false;
            }
            idx = idx + 1;
        }
        true
    }
}

impl vstd::std_specs::cmp::PartialEqSpecImpl for Character {
    open spec fn obeys_eq_spec() -> bool {
        true
    }

    open spec fn eq_spec(&self, other: &Self) -> bool {
        &&& self.name@ == other.name@
        &&& self.reaction_modifiers@.len() == other.reaction_modifiers@.len()
        &&& forall|j: int|
            0 <= j < self.reaction_modifiers@.len() ==> mod_eq(
                self.reaction_modifiers@[j],
                other.reaction_modifiers@[j],
            )
    }
}

impl Default for Character {
    /// An unnamed character with no reaction modifiers.
    fn default() -> (r: Self)
        ensures
            r.name@ == Seq::<char>::empty(),
            r.reaction_modifiers@ == Seq::<ReactionMod>::empty(),
    {
        Character { name: String::new(), reaction_modifiers: Vec::new() }
    }
}

} // verus!
