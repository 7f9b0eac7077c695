//! Capabilities.

use std::collections::HashSet;

use vstd::prelude::*;

use crate::arena::alloc_items;
use crate::child::CapsSpec;
use crate::config::Capabilities;
use crate::error::BuildError;

verus! {

/// The highest number of a capability.
pub const LAST_CAPABILITY: u8 = 40;

/// The word of a capability set that holds capability `nr`.
pub open spec fn word_of(nr: u8) -> int {
    if nr > 31 {
        1
    } else {
        0
    }
}

/// Whether bit number `b` of `word` is set.
pub open spec fn has_bit(word: u32, b: u32) -> bool {
    word & (1u32 << b) != 0
}

/// Whether the capability set holds capability `nr`.
pub open spec fn holds(words: Seq<u32>, nr: u8) -> bool {
    has_bit(words[word_of(nr)], (nr % 32) as u32)
}

/// Whether two numbers stand for the same capability of a set, which has only
/// sixty-four.
pub open spec fn is_same(a: u8, b: u8) -> bool {
    word_of(a) == word_of(b) && a % 32 == b % 32
}

/// Whether the first `n` of `keep` name capability `nr`.
pub open spec fn names(keep: Seq<u8>, n: int, nr: u8) -> bool {
    exists|i: int| 0 <= i < n && is_same(#[trigger] keep[i], nr)
}

/// What `keep` does not hold.
pub open spec fn outside(keep: Seq<u8>) -> spec_fn(u8) -> bool {
    |nr: u8| !keep.contains(nr)
}

/// The numbers of `all` that `keep` does not hold, in the order of `all`.
pub open spec fn dropped(all: Seq<u8>, keep: Seq<u8>) -> Seq<u8> {
    all.filter(outside(keep))
}

/// `caps::all`, with the `index` of each: the numbers of all capabilities, each
/// once. In which order they come is left open, for the set has none.
#[verifier::external_body]
fn all_capabilities() -> (r: Vec<u8>)
    ensures
        r@.no_duplicates(),
        forall|nr: u8| r@.contains(nr) <==> nr <= LAST_CAPABILITY,
{
    caps::all().into_iter().map(|capability| capability.index()).collect()
}

proof fn lemma_set_bit(word: u32, b: u32, c: u32)
    requires
        b < 32,
        c < 32,
    ensures
        has_bit(word | (1u32 << b), c) <==> has_bit(word, c) || b == c,
{
    assert((word | (1u32 << b)) & (1u32 << c) != 0 <==> word & (1u32 << c) != 0 || b == c)
        by (bit_vector)
        requires
            b < 32,
            c < 32,
    ;
}

proof fn lemma_no_bit(c: u32)
    requires
        c < 32,
    ensures
        !has_bit(0, c),
{
    assert(0u32 & (1u32 << c) == 0) by (bit_vector)
        requires
            c < 32,
    ;
}

impl Capabilities {
    /// The numbers of the capabilities that are kept.
    fn kept_numbers(&self) -> (r: HashSet<u8>)
        ensures
            r@ == self.keep@.to_set(),
    {
        let mut numbers: HashSet<u8> = HashSet::new();
        let mut i: usize = 0;
        while i < self.keep.len()
            invariant
                i <= self.keep@.len(),
                numbers@ == self.keep@.take(i as int).to_set(),
            decreases self.keep@.len() - i,
        {
            numbers.insert(self.keep[i]);
            proof {
                let before = self.keep@.take(i as int);
                before.lemma_push_to_set_commute(self.keep@[i as int]);
                assert(self.keep@.take(i + 1) =~= before.push(self.keep@[i as int]));
            }
            i += 1;
        }
        assert(self.keep@.take(i as int) =~= self.keep@);
        numbers
    }

    /// The set of the capabilities that are kept.
    fn kept_words(&self) -> (r: [u32; 2])
        ensures
            forall|nr: u8|
                holds(r@, nr) <==> #[trigger] names(self.keep@, self.keep@.len() as int, nr),
    {
        let mut words: [u32; 2] = [0u32; 2];
        proof {
            assert forall|nr: u8| holds(words@, nr) <==> #[trigger] names(self.keep@, 0, nr) by {
                lemma_no_bit((nr % 32) as u32);
            }
        }
        let mut i: usize = 0;
        while i < self.keep.len()
            invariant
                i <= self.keep@.len(),
                forall|nr: u8| holds(words@, nr) <==> #[trigger] names(self.keep@, i as int, nr),
            decreases self.keep@.len() - i,
        {
            let nr: u8 = self.keep[i];
            let idx: usize = if nr > 31 {
                1
            } else {
                0
            };
            let b: u32 = (nr % 32) as u32;
            let ghost before = words@;
            let bit: u32 = 1u32 << b;
            let word: u32 = words[idx] | bit;
            words[idx] = word;
            proof {
                assert forall|x: u8| holds(words@, x) <==> #[trigger] names(
                    self.keep@,
                    i + 1,
                    x,
                ) by {
                    assert(holds(before, x) <==> names(self.keep@, i as int, x));
                    lemma_set_bit(before[idx as int], b, (x % 32) as u32);
                    if names(self.keep@, i + 1, x) {
                        let k = choose|k: int|
                            0 <= k < i + 1 && is_same(#[trigger] self.keep@[k], x);
                        if k < i {
                            assert(names(self.keep@, i as int, x));
                        }
                    }
                    if names(self.keep@, i as int, x) {
                        let k = choose|k: int| 0 <= k < i && is_same(#[trigger] self.keep@[k], x);
                        assert(is_same(self.keep@[k], x));
                    }
                    if is_same(nr, x) {
                        assert(is_same(self.keep@[i as int], x));
                    }
                }
            }
            i += 1;
        }
        words
    }

    /// Whether the sets of `r` hold exactly what is kept, and the ambient set is
    /// cleared.
    pub open spec fn keeps(self, r: CapsSpec) -> bool {
        let n = self.keep@.len() as int;
        &&& forall|nr: u8| holds(r.effective@, nr) <==> #[trigger] names(self.keep@, n, nr)
        &&& r.permitted@ == r.effective@
        &&& r.inheritable@ == r.effective@
        &&& r.clear_ambient
    }

    /// Prepares the capabilities, where `all` are the numbers of all there are.
    pub fn prepare_from<'a>(&self, arena: &'a bumpalo::Bump, all: &Vec<u8>) -> (r: CapsSpec<'a>)
        ensures
            self.keeps(r),
            r.bounding_drop@ == dropped(all@, self.keep@).map_values(|nr: u8| nr as u32),
    {
        let words = self.kept_words();
        let kept = self.kept_numbers();
        let mut drops: Vec<u32> = Vec::new();
        let mut i: usize = 0;
        proof {
            reveal(Seq::filter);
            assert(drops@ =~= dropped(all@.take(0), self.keep@).map_values(|nr: u8| nr as u32));
        }
        while i < all.len()
            invariant
                i <= all@.len(),
                kept@ == self.keep@.to_set(),
                drops@ == dropped(all@.take(i as int), self.keep@).map_values(
                    |nr: u8| nr as u32,
                ),
            decreases all@.len() - i,
        {
            let nr: u8 = all[i];
            if !kept.contains(&nr) {
                drops.push(nr as u32);
            }
            i += 1;
            proof {
                reveal(Seq::filter);
                assert(all@.take(i as int).drop_last() =~= all@.take(i - 1));
                assert(drops@ =~= dropped(all@.take(i as int), self.keep@).map_values(
                    |nr: u8| nr as u32,
                ));
            }
        }
        assert(all@.take(i as int) =~= all@);
        CapsSpec {
            effective: words,
            permitted: words,
            inheritable: words,
            bounding_drop: alloc_items(arena, drops),
            clear_ambient: true,
        }
    }

    /// Whether `r` keeps what is to be kept, and drops every other capability
    /// from the bounding set, each once.
    pub open spec fn yields(self, r: CapsSpec) -> bool {
        &&& self.keeps(r)
        &&& r.bounding_drop@.no_duplicates()
        &&& forall|nr: u32|
            r.bounding_drop@.contains(nr) <==> nr <= LAST_CAPABILITY && !self.keep@.contains(
                nr as u8,
            )
    }

    /// Prepares the capabilities. Nothing can be wrong with them.
    pub fn prepare<'a>(&self, arena: &'a bumpalo::Bump) -> (r: Result<CapsSpec<'a>, BuildError>)
        ensures
            r matches Ok(caps) && self.yields(caps),
    {
        let all = all_capabilities();
        let caps = self.prepare_from(arena, &all);
        proof {
            lemma_dropped(all@, self.keep@, caps.bounding_drop@);
        }
        Ok(caps)
    }
}

proof fn lemma_dropped(all: Seq<u8>, keep: Seq<u8>, drops: Seq<u32>)
    requires
        all.no_duplicates(),
        forall|nr: u8| all.contains(nr) <==> nr <= LAST_CAPABILITY,
        drops == dropped(all, keep).map_values(|nr: u8| nr as u32),
    ensures
        drops.no_duplicates(),
        forall|nr: u32|
            drops.contains(nr) <==> nr <= LAST_CAPABILITY && !keep.contains(nr as u8),
{
    let few = dropped(all, keep);
    lemma_filter(all, outside(keep));
    assert forall|i: int, j: int| 0 <= i < drops.len() && 0 <= j < drops.len() && i != j implies
        drops[i] != drops[j] by {
        assert(few[i] != few[j]);
    }
    assert forall|nr: u32|
        drops.contains(nr) <==> nr <= LAST_CAPABILITY && !keep.contains(nr as u8) by {
        if drops.contains(nr) {
            let i = choose|i: int| 0 <= i < drops.len() && drops[i] == nr;
            assert(few.contains(few[i]));
            assert(all.contains(few[i]) && outside(keep)(few[i]));
            assert(drops[i] == few[i] as u32);
            assert(nr as u8 == few[i]);
        }
        if nr <= LAST_CAPABILITY && !keep.contains(nr as u8) {
            assert(all.contains(nr as u8) && outside(keep)(nr as u8));
            assert(few.contains(nr as u8));
            let i = choose|i: int| 0 <= i < few.len() && few[i] == nr as u8;
            assert(drops[i] == nr);
        }
    }
}

/// What a filter leaves is what satisfies it, and nothing twice.
proof fn lemma_filter(s: Seq<u8>, p: spec_fn(u8) -> bool)
    requires
        s.no_duplicates(),
    ensures
        s.filter(p).no_duplicates(),
        forall|x: u8| s.filter(p).contains(x) <==> s.contains(x) && p(x),
    decreases s.len(),
{
    reveal(Seq::filter);
    if s.len() > 0 {
        let before = s.drop_last();
        lemma_filter(before, p);
        let kept = before.filter(p);
        let all = s.filter(p);
        assert forall|x: u8| all.contains(x) <==> s.contains(x) && p(x) by {
            assert(kept.contains(x) <==> before.contains(x) && p(x));
            if s.contains(x) && x != s.last() {
                let i = choose|i: int| 0 <= i < s.len() && s[i] == x;
                assert(before[i] == x);
            }
            if before.contains(x) {
                let i = choose|i: int| 0 <= i < before.len() && before[i] == x;
                assert(s[i] == x);
            }
            if p(s.last()) {
                assert(all == kept.push(s.last()));
                assert(all[kept.len() as int] == s.last());
                if all.contains(x) && x != s.last() {
                    let i = choose|i: int| 0 <= i < all.len() && all[i] == x;
                    assert(kept[i] == x);
                }
                if kept.contains(x) {
                    let i = choose|i: int| 0 <= i < kept.len() && kept[i] == x;
                    assert(all[i] == x);
                }
            }
            if x == s.last() {
                assert(s[s.len() - 1] == x);
            }
        }
        if p(s.last()) {
            assert(!before.contains(s.last()));
            assert(!kept.contains(s.last()));
            assert(all == kept.push(s.last()));
            assert forall|i: int, j: int|
                0 <= i < all.len() && 0 <= j < all.len() && i != j implies all[i] != all[j] by {
                if i == kept.len() {
                    assert(kept[j] != s.last());
                } else if j == kept.len() {
                    assert(kept[i] != s.last());
                }
            }
        }
    }
}

/// A capability that is kept is in each of the three sets, under its own bit, and
/// stays in the bounding set; every other capability is in none of them and is
/// dropped, once. The ambient set is cleared. A set has sixty-four bits: a number
/// beyond them counts for one in its second half.
pub proof fn law_exactly_the_kept_are_kept(
    config: Capabilities,
    arena: &bumpalo::Bump,
    r: Result<CapsSpec, BuildError>,
    nr: u8,
)
    requires
        call_ensures(Capabilities::prepare, (&config, arena), r),
    ensures
        r matches Ok(caps) && {
            &&& nr < 64 ==> (caps.effective@[(nr / 32) as int] & (1u32 << ((nr % 32) as u32)) != 0
                <==> exists|i: int|
                0 <= i < config.keep@.len() && (#[trigger] config.keep@[i] == nr
                    || config.keep@[i] >= 64 && config.keep@[i] % 32 + 32 == nr))
            &&& caps.permitted@ == caps.effective@
            &&& caps.inheritable@ == caps.effective@
            &&& caps.clear_ambient
            &&& caps.bounding_drop@.contains(nr as u32) <==> nr <= 40 && !config.keep@.contains(nr)
            &&& forall|i: int|
                0 <= i < caps.bounding_drop@.len() ==> #[trigger] caps.bounding_drop@[i] <= 40
            &&& caps.bounding_drop@.no_duplicates()
        },
{
    let caps = r->Ok_0;
    let n = config.keep@.len() as int;
    assert(holds(caps.effective@, nr) <==> names(config.keep@, n, nr));
    if nr < 64 {
        if names(config.keep@, n, nr) {
            let i = choose|i: int| 0 <= i < n && is_same(#[trigger] config.keep@[i], nr);
            assert(config.keep@[i] == nr || config.keep@[i] >= 64 && config.keep@[i] % 32 + 32
                == nr);
        }
        if exists|i: int|
            0 <= i < n && (#[trigger] config.keep@[i] == nr || config.keep@[i] >= 64
                && config.keep@[i] % 32 + 32 == nr) {
            let i = choose|i: int|
                0 <= i < n && (#[trigger] config.keep@[i] == nr || config.keep@[i] >= 64
                    && config.keep@[i] % 32 + 32 == nr);
            assert(is_same(config.keep@[i], nr));
        }
    }
    assert forall|i: int|
        0 <= i < caps.bounding_drop@.len() implies #[trigger] caps.bounding_drop@[i] <= 40 by {
        assert(caps.bounding_drop@.contains(caps.bounding_drop@[i]));
    }
}

/// Of any list of capabilities, those that are kept are left out of what is dropped,
/// and the others are in it.
pub proof fn law_what_is_dropped_of_a_list(
    config: Capabilities,
    arena: &bumpalo::Bump,
    all: Vec<u8>,
    r: CapsSpec,
    nr: u8,
)
    requires
        all@.no_duplicates(),
        call_ensures(Capabilities::prepare_from, (&config, arena, &all), r),
    ensures
        r.bounding_drop@.contains(nr as u32) <==> all@.contains(nr) && !config.keep@.contains(nr),
        r.bounding_drop@.len() <= all@.len(),
        r.permitted@ == r.effective@ && r.inheritable@ == r.effective@ && r.clear_ambient,
{
    let few = dropped(all@, config.keep@);
    lemma_filter(all@, outside(config.keep@));
    let drops = r.bounding_drop@;
    if drops.contains(nr as u32) {
        let i = choose|i: int| 0 <= i < drops.len() && drops[i] == nr as u32;
        assert(drops[i] == few[i] as u32);
        assert(few.contains(few[i]));
    }
    if all@.contains(nr) && !config.keep@.contains(nr) {
        assert(outside(config.keep@)(nr));
        assert(few.contains(nr));
        let i = choose|i: int| 0 <= i < few.len() && few[i] == nr;
        assert(drops[i] == nr as u32);
    }
    all@.lemma_filter_len(outside(config.keep@));
}

} // verus!
