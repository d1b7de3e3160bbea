//! The argument decoder: turns a fixed-capacity, null-terminated
//! wide-character name into narrow text for logging.
//!
//! The decoder never reads past a 64-element window; a missing terminator
//! inside the window means the whole window is the name. Each character is
//! narrowed to its low eight bits, which is lossy beyond Latin-1 and
//! acceptable for diagnostic text.

use vstd::prelude::*;

verus! {

/// The number of wide characters the decoder will ever read.
pub const NAME_CAPACITY: usize = 64;

/// A wide character narrowed to its low eight bits.
pub open spec fn narrowed(c: u16) -> u8 {
    (c & 0xff) as u8
}

/// The index of the first null in `s`, or `s.len()` when there is none.
pub open spec fn first_nul(s: Seq<u16>) -> nat
    decreases s.len(),
{
    if s.len() == 0 {
        0
    } else if s[0] == 0 {
        0
    } else {
        (1 + first_nul(s.drop_first())) as nat
    }
}

/// The decoded form of the wide-character window `s`: every character before
/// the first null, narrowed to its low eight bits.
pub open spec fn decoded_name(s: Seq<u16>) -> Seq<u8> {
    s.take(first_nul(s) as int).map(|i: int, c: u16| narrowed(c))
}

/// The first null comes no later than the end of the window.
pub proof fn lemma_first_nul_le(s: Seq<u16>)
    ensures
        first_nul(s) <= s.len(),
    decreases s.len(),
{
    if s.len() != 0 && s[0] != 0 {
        lemma_first_nul_le(s.drop_first());
    }
}

/// A window whose first `k` characters are non-null and whose character at
/// `k` (if any) is null has its first null exactly at `k`.
pub proof fn lemma_first_nul_at(s: Seq<u16>, k: int)
    requires
        0 <= k <= s.len(),
        forall|j: int| 0 <= j < k ==> s[j] != 0,
        k < s.len() ==> s[k] == 0,
    ensures
        first_nul(s) == k,
    decreases k,
{
    if k == 0 {
    } else {
        assert(s[0] != 0);
        let t = s.drop_first();
        assert forall|j: int| 0 <= j < k - 1 implies t[j] != 0 by {
            assert(t[j] == s[j + 1]);
        }
        if k - 1 < t.len() {
            assert(t[k - 1] == s[k]);
        }
        lemma_first_nul_at(t, k - 1);
    }
}

/// Every character before the first null is itself non-null.
pub proof fn lemma_before_first_nul_nonzero(s: Seq<u16>)
    ensures
        forall|j: int| 0 <= j < first_nul(s) ==> s[j] != 0,
    decreases s.len(),
{
    if s.len() != 0 && s[0] != 0 {
        let t = s.drop_first();
        lemma_before_first_nul_nonzero(t);
        lemma_first_nul_le(t);
        assert forall|j: int| 0 <= j < first_nul(s) implies s[j] != 0 by {
            if j > 0 {
                assert(0 <= j - 1 < first_nul(t));
                assert(t[j - 1] == s[j]);
            }
        }
    }
}

/// Law: a decoded name is never longer than the window it was read from, so
/// never longer than 64.
pub proof fn lemma_decoded_name_bounded(s: Seq<u16>)
    requires
        s.len() <= NAME_CAPACITY,
    ensures
        decoded_name(s).len() <= NAME_CAPACITY,
{
    lemma_first_nul_le(s);
}

/// Law: when a zero low byte occurs only on the null terminator itself, the
/// decoded name contains no null byte.
///
/// A window such as `[0x0100, 0, ...]` narrows its first character to a null
/// byte, so the law asks that no character before the terminator have a zero
/// low byte.
pub proof fn lemma_decoded_name_no_nul(s: Seq<u16>)
    requires
        forall|j: int| 0 <= j < s.len() && #[trigger] narrowed(s[j]) == 0 ==> s[j] == 0,
    ensures
        forall|j: int| 0 <= j < decoded_name(s).len() ==> #[trigger] decoded_name(s)[j] != 0,
{
    lemma_before_first_nul_nonzero(s);
    lemma_first_nul_le(s);
    assert forall|j: int| 0 <= j < decoded_name(s).len() implies #[trigger] decoded_name(s)[j]
        != 0 by {
        assert(decoded_name(s)[j] == narrowed(s[j]));
        assert(s[j] != 0);
    }
}

/// Law: a full 64-character window with no null terminator decodes to exactly
/// 64 characters.
pub proof fn lemma_decoded_name_full(s: Seq<u16>)
    requires
        s.len() == NAME_CAPACITY,
        forall|j: int| 0 <= j < s.len() ==> s[j] != 0,
    ensures
        decoded_name(s).len() == NAME_CAPACITY,
{
    lemma_first_nul_at(s, s.len() as int);
}

/// Decodes the null-terminated wide-character name in a 64-element window,
/// narrowing each character to its low eight bits and stopping at the first
/// null or at the end of the window.
pub fn convert_variable_name(variable_name: &[u16]) -> (name: Vec<u8>)
    requires
        variable_name@.len() == NAME_CAPACITY,
    ensures
        name@ == decoded_name(variable_name@),
{
    let mut name: Vec<u8> = Vec::new();
    let mut i: usize = 0;
    while i < NAME_CAPACITY && variable_name[i] != 0
        invariant
            i <= NAME_CAPACITY,
            variable_name@.len() == NAME_CAPACITY,
            forall|j: int| 0 <= j < i ==> variable_name@[j] != 0,
            name@ == variable_name@.take(i as int).map(|j: int, c: u16| narrowed(c)),
        decreases NAME_CAPACITY - i,
    {
        let c = variable_name[i];
        name.push((c & 0xff) as u8);
        proof {
            assert(name@ =~= variable_name@.take(i as int + 1).map(
                |j: int, c: u16| narrowed(c),
            ));
        }
        i += 1;
    }
    proof {
        lemma_first_nul_at(variable_name@, i as int);
        assert(name@ =~= decoded_name(variable_name@));
    }
    name
}

} // verus!
