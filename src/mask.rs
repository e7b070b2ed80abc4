//! Conversion between line offsets (a line's number on its chip) and
//! request-local indices (its position in a request's own offset list), and
//! the bitmasks built from those indices.
use vstd::prelude::*;
use vstd::relations::injective_on;
use vstd::set_lib::{lemma_int_range, lemma_map_size, set_int_range};

verus! {

/// Most lines one request can hold; also the width of a mask.
pub const GPIO_V2_LINES_MAX: usize = 64;

/// Whether bit `i` of `m` is set.
pub open spec fn has_bit(m: u64, i: u64) -> bool {
    (m >> i) & 1 == 1
}

/// The indices of the bits set in `m`.
pub open spec fn mask_indices(m: u64) -> Set<int> {
    Set::new(|i: int| 0 <= i < 64 && has_bit(m, i as u64))
}

/// Position of the first occurrence of `t` in `s`.
pub open spec fn first_index(s: Seq<u32>, t: u32) -> Option<int>
    decreases s.len(),
{
    if s.len() == 0 {
        None
    } else if s[0] == t {
        Some(0)
    } else {
        match first_index(s.drop_first(), t) {
            Some(i) => Some(i + 1),
            None => None,
        }
    }
}

/// `i` is the position of the first occurrence of `t` in `s`.
pub open spec fn is_first_index(s: Seq<u32>, t: u32, i: int) -> bool {
    &&& 0 <= i < s.len()
    &&& s[i] == t
    &&& forall|j: int| 0 <= j < i ==> s[j] != t
}

/// The positions in `offsets` whose offset occurs in `targets`.
pub open spec fn matched_indices(offsets: Seq<u32>, targets: Seq<u32>) -> Set<int> {
    Set::new(|i: int| 0 <= i < offsets.len() && targets.contains(offsets[i]))
}

/// The offsets of `targets` that also occur in `offsets`.
pub open spec fn matched_offsets(offsets: Seq<u32>, targets: Seq<u32>) -> Set<u32> {
    Set::new(|o: u32| targets.contains(o) && offsets.contains(o))
}

/// The mask whose bits are exactly the indices below `n`.
pub open spec fn is_full_mask(m: u64, n: int) -> bool {
    forall|i: u64| i < 64 ==> (has_bit(m, i) <==> (i as int) < n)
}

/// `first_index` finds the first occurrence, and nothing when there is none.
pub proof fn lemma_first_index(s: Seq<u32>, t: u32)
    ensures
        forall|i: int| first_index(s, t) == Some(i) <==> #[trigger] is_first_index(s, t, i),
        first_index(s, t) is None <==> !s.contains(t),
    decreases s.len(),
{
    if s.len() > 0 {
        lemma_first_index(s.drop_first(), t);
        if s[0] != t {
            assert forall|i: int| first_index(s, t) == Some(i) <==> is_first_index(s, t, i) by {
                if is_first_index(s, t, i) {
                    assert(is_first_index(s.drop_first(), t, i - 1));
                }
                if first_index(s, t) == Some(i) {
                    assert(is_first_index(s.drop_first(), t, i - 1));
                    assert forall|j: int| 0 <= j < i implies s[j] != t by {
                        if j > 0 {
                            assert(s[j] == s.drop_first()[j - 1]);
                        }
                    }
                }
            }
            if s.contains(t) {
                let k = choose|k: int| 0 <= k < s.len() && s[k] == t;
                assert(s.drop_first()[k - 1] == t);
            }
            if s.drop_first().contains(t) {
                let k = choose|k: int| 0 <= k < s.drop_first().len() && s.drop_first()[k] == t;
                assert(s[k + 1] == t);
            }
        } else {
            assert(s.contains(t)) by {
                assert(s[0] == t);
            }
        }
    }
}

/// Setting bit `k` of `m` changes that bit alone.
pub proof fn lemma_set_bit(m: u64, k: u64, i: u64)
    requires
        k < 64,
        i < 64,
    ensures
        has_bit(m | (1u64 << k), i) == (has_bit(m, i) || i == k),
{
    assert(((m | (1u64 << k)) >> i) & 1 == 1 <==> ((m >> i) & 1 == 1 || i == k)) by (bit_vector)
        requires
            k < 64,
            i < 64,
    ;
}

/// Zero has no bit set.
pub proof fn lemma_zero_mask(i: u64)
    requires
        i < 64,
    ensures
        !has_bit(0u64, i),
{
    assert((0u64 >> i) & 1 != 1) by (bit_vector);
}

/// Bit `i` of `m & (1 << k)` is set only where `i == k` and `m` has it.
pub proof fn lemma_test_bit(m: u64, k: u64)
    requires
        k < 64,
    ensures
        (m & (1u64 << k) != 0) == has_bit(m, k),
{
    assert((m & (1u64 << k) != 0) == ((m >> k) & 1 == 1)) by (bit_vector)
        requires
            k < 64,
    ;
}

/// Position of the first occurrence of `target` in `offsets`, if any.
pub fn index_of_offset(offsets: &[u32], target: u32) -> (r: Option<usize>)
    ensures
        r matches Some(i) ==> first_index(offsets@, target) == Some(i as int),
        r is None ==> first_index(offsets@, target) is None,
        r matches Some(i) ==> is_first_index(offsets@, target, i as int),
        r is None <==> !offsets@.contains(target),
{
    proof {
        lemma_first_index(offsets@, target);
    }
    let mut i: usize = 0;
    while i < offsets.len()
        invariant
            i <= offsets.len(),
            forall|j: int| 0 <= j < i ==> offsets@[j] != target,
        decreases offsets.len() - i,
    {
        if offsets[i] == target {
            proof {
                lemma_first_index(offsets@, target);
            }
            assert(is_first_index(offsets@, target, i as int));
            return Some(i);
        }
        i += 1;
    }
    None
}

/// The mask with one bit for each position of `offsets` whose offset occurs
/// in `targets`; targets that are not in `offsets` set no bit.
pub fn offsets_to_mask(offsets: &[u32], targets: &[u32]) -> (r: u64)
    requires
        offsets.len() <= GPIO_V2_LINES_MAX,
    ensures
        mask_indices(r) == matched_indices(offsets@, targets@),
        forall|i: u64|
            i < 64 ==> (has_bit(r, i) <==> ((i as int) < offsets.len() && targets@.contains(
                offsets@[i as int],
            ))),
{
    let mut mask: u64 = 0;
    let mut index: usize = 0;
    proof {
        assert forall|i: u64| i < 64 implies !has_bit(0u64, i) by {
            lemma_zero_mask(i);
        }
    }
    while index < offsets.len()
        invariant
            index <= offsets.len() <= 64,
            forall|i: u64|
                i < 64 ==> (has_bit(mask, i) <==> ((i as int) < index && targets@.contains(
                    offsets@[i as int],
                ))),
        decreases offsets.len() - index,
    {
        if contains(targets, offsets[index]) {
            let ghost old_mask = mask;
            mask = mask | (1u64 << (index as u64));
            proof {
                assert forall|i: u64| i < 64 implies has_bit(mask, i) == (has_bit(old_mask, i) || i
                    == index as u64) by {
                    lemma_set_bit(old_mask, index as u64, i);
                }
            }
        }
        index += 1;
    }
    assert(mask_indices(mask) =~= matched_indices(offsets@, targets@)) by {
        assert forall|i: int| mask_indices(mask).contains(i) <==> matched_indices(
            offsets@,
            targets@,
        ).contains(i) by {
            if 0 <= i < 64 {
                assert(has_bit(mask, i as u64) == (i < offsets.len() && targets@.contains(
                    offsets@[i],
                )));
            }
        }
    }
    mask
}

/// Whether `value` occurs in `items`.
fn contains(items: &[u32], value: u32) -> (r: bool)
    ensures
        r == items@.contains(value),
{
    let mut i: usize = 0;
    while i < items.len()
        invariant
            i <= items.len(),
            forall|j: int| 0 <= j < i ==> items@[j] != value,
        decreases items.len() - i,
    {
        if items[i] == value {
            return true;
        }
        i += 1;
    }
    false
}

/// The mask with the bits of the first `n` indices set.
pub fn full_mask(n: usize) -> (r: u64)
    requires
        n <= GPIO_V2_LINES_MAX,
    ensures
        is_full_mask(r, n as int),
        mask_indices(r) == set_int_range(0, n as int),
{
    let mut mask: u64 = 0;
    let mut index: usize = 0;
    proof {
        assert forall|i: u64| i < 64 implies !has_bit(0u64, i) by {
            lemma_zero_mask(i);
        }
    }
    while index < n
        invariant
            index <= n <= 64,
            is_full_mask(mask, index as int),
        decreases n - index,
    {
        let ghost old_mask = mask;
        mask = mask | (1u64 << (index as u64));
        proof {
            assert forall|i: u64| i < 64 implies has_bit(mask, i) == (has_bit(old_mask, i) || i
                == index as u64) by {
                lemma_set_bit(old_mask, index as u64, i);
            }
        }
        index += 1;
    }
    assert(mask_indices(mask) =~= set_int_range(0, n as int)) by {
        assert forall|i: int| 0 <= i < 64 implies #[trigger] has_bit(mask, i as u64) == (i < n) by {}
    }
    mask
}

/// A mask built from a list of distinct offsets has one bit for each target
/// offset that the list holds, and each such bit stands at that offset's
/// position in the list.
pub proof fn lemma_mask_bit_count(offsets: Seq<u32>, targets: Seq<u32>)
    requires
        offsets.len() <= GPIO_V2_LINES_MAX,
        offsets.no_duplicates(),
    ensures
        matched_indices(offsets, targets).finite(),
        matched_indices(offsets, targets).len() == matched_offsets(offsets, targets).len(),
        forall|i: int| #[trigger]
            matched_indices(offsets, targets).contains(i) ==> targets.contains(offsets[i]),
{
    let x = matched_indices(offsets, targets);
    let f = |i: int| offsets[i];
    lemma_int_range(0, offsets.len() as int);
    assert(x.subset_of(set_int_range(0, offsets.len() as int)));
    vstd::set_lib::lemma_set_subset_finite(set_int_range(0, offsets.len() as int), x);
    assert(injective_on(f, x));
    assert(x.map(f) =~= matched_offsets(offsets, targets)) by {
        assert forall|o: u32| matched_offsets(offsets, targets).contains(o) implies x.map(f).contains(
            o,
        ) by {
            let k = choose|k: int| 0 <= k < offsets.len() && offsets[k] == o;
            assert(x.contains(k));
            assert(f(k) == o);
        }
        assert forall|o: u32| x.map(f).contains(o) implies matched_offsets(offsets, targets).contains(
            o,
        ) by {
            let k = choose|k: int| x.contains(k) && f(k) == o;
            assert(offsets.contains(offsets[k]));
        }
    }
    lemma_map_size(x, matched_offsets(offsets, targets), f);
}

} // verus!
