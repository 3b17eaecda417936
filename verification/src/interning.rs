//! The model of an interning table: a sequence without repeated items, in
//! which adding an item that is already present gives back its position and
//! adding a new one appends it.
use vstd::prelude::*;

verus! {

/// No item occurs twice in `s`.
pub open spec fn no_duplicates<A>(s: Seq<A>) -> bool {
    forall|i: int, j: int| 0 <= i < s.len() && 0 <= j < s.len() && i != j ==> s[i] != s[j]
}

/// The position of `x` in `s`, where it occurs.
pub open spec fn position_of<A>(s: Seq<A>, x: A) -> int {
    choose|i: int| 0 <= i < s.len() && s[i] == x
}

/// The table and the position that interning `x` into `s` gives: the
/// position of `x` if `s` holds it, else `s` with `x` appended and the new
/// last position.
pub open spec fn intern<A>(s: Seq<A>, x: A) -> (Seq<A>, int) {
    if s.contains(x) {
        (s, position_of(s, x))
    } else {
        (s.push(x), s.len() as int)
    }
}

/// Where `x` occurs in `s`, `position_of` names that place, and in a table
/// without repeated items it names no other.
pub proof fn lemma_position_of<A>(s: Seq<A>, x: A, i: int)
    requires
        0 <= i < s.len(),
        s[i] == x,
        no_duplicates(s),
    ensures
        position_of(s, x) == i,
{
}

/// Interning keeps a table free of repeated items, and the position it
/// gives holds the interned item.
pub proof fn lemma_intern_sound<A>(s: Seq<A>, x: A)
    requires
        no_duplicates(s),
    ensures
        no_duplicates(intern(s, x).0),
        0 <= intern(s, x).1 < intern(s, x).0.len(),
        intern(s, x).0[intern(s, x).1] == x,
        s.is_prefix_of(intern(s, x).0),
{
    if s.contains(x) {
        let i = choose|i: int| 0 <= i < s.len() && s[i] == x;
        assert(s.is_prefix_of(s));
    } else {
        assert(s.is_prefix_of(s.push(x))) by {
            assert(s.push(x).subrange(0, s.len() as int) =~= s);
        }
    }
}

/// Interning the same item twice gives the same position, and the second
/// time leaves the table as it was.
pub proof fn lemma_intern_idempotent<A>(s: Seq<A>, x: A)
    requires
        no_duplicates(s),
    ensures
        intern(intern(s, x).0, x).0 == intern(s, x).0,
        intern(intern(s, x).0, x).1 == intern(s, x).1,
{
    lemma_intern_sound(s, x);
    let t = intern(s, x).0;
    let i = intern(s, x).1;
    assert(t.contains(x)) by {
        assert(t[i] == x);
    }
    lemma_position_of(t, x, i);
}

/// Interning two different items gives two different positions.
pub proof fn lemma_intern_distinct<A>(s: Seq<A>, x: A, y: A)
    requires
        no_duplicates(s),
        x != y,
    ensures
        intern(s, x).1 != intern(intern(s, x).0, y).1,
{
    lemma_intern_sound(s, x);
    let t = intern(s, x).0;
    lemma_intern_sound(t, y);
    let u = intern(t, y).0;
    assert(t.is_prefix_of(u));
    let i = intern(s, x).1;
    let j = intern(t, y).1;
    assert(u[i] == t[i]);
}

/// Appending an item that a table lacks keeps it free of repeated items,
/// and a later lookup finds the item at the position where it was
/// appended.
pub proof fn lemma_lookup_after_append<A>(s: Seq<A>, x: A)
    requires
        no_duplicates(s),
        !s.contains(x),
    ensures
        no_duplicates(s.push(x)),
        s.push(x).contains(x),
        position_of(s.push(x), x) == s.len(),
{
    let t = s.push(x);
    assert forall|i: int, j: int| 0 <= i < t.len() && 0 <= j < t.len() && i != j implies t[i]
        != t[j] by {
        if i < s.len() && j < s.len() {
            assert(t[i] == s[i] && t[j] == s[j]);
        } else if i < s.len() {
            assert(t[i] == s[i]);
        } else if j < s.len() {
            assert(t[j] == s[j]);
        }
    }
    assert(t[s.len() as int] == x);
    lemma_position_of(t, x, s.len() as int);
}

} // verus!
