//! The student roster: a list kept in surname order.

use vstd::prelude::*;

use crate::models::Student;
use crate::models::StudentView;
use crate::text::lemma_text_le_transitive;
use crate::text::lemma_text_lt_asymmetric;
use crate::text::lemma_text_lt_irreflexive;
use crate::text::text_less;
use crate::text::text_lt;

verus! {

/// No entry's surname comes before that of an entry ahead of it.
pub open spec fn ordered_by_surname(roster: Seq<StudentView>) -> bool {
    forall|i: int, j: int|
        0 <= i < j < roster.len() ==> !text_lt(
            #[trigger] roster[j].name.surname,
            #[trigger] roster[i].name.surname,
        )
}

/// The test "has this surname".
pub open spec fn has_surname(surname: Seq<char>) -> spec_fn(StudentView) -> bool {
    |s: StudentView| s.name.surname == surname
}

/// The entries with a given surname, in roster order.
pub open spec fn with_surname(roster: Seq<StudentView>, surname: Seq<char>) -> Seq<StudentView> {
    roster.filter(has_surname(surname))
}

/// The test "has another identifier than this".
pub open spec fn has_other_id(id: u128) -> spec_fn(StudentView) -> bool {
    |s: StudentView| s.id != id
}

/// The roster without the entries that carry `id`.
pub open spec fn without_id(roster: Seq<StudentView>, id: u128) -> Seq<StudentView> {
    roster.filter(has_other_id(id))
}

/// The index of the first entry that carries `id`.
pub open spec fn position_of_id(roster: Seq<StudentView>, id: u128) -> Option<int>
    decreases roster.len(),
{
    if roster.len() == 0 {
        None
    } else if roster[0].id == id {
        Some(0)
    } else {
        match position_of_id(roster.drop_first(), id) {
            Some(i) => Some(i + 1),
            None => None,
        }
    }
}

/// How many leading entries have a surname that comes before `surname`.
pub open spec fn place_of(surname: Seq<char>, roster: Seq<StudentView>) -> int
    decreases roster.len(),
{
    if roster.len() > 0 && text_lt(roster[0].name.surname, surname) {
        1 + place_of(surname, roster.drop_first())
    } else {
        0
    }
}

/// The roster with `entry` put in behind the leading entries whose surname
/// comes before its own, hence ahead of any entry of the same surname.
pub open spec fn placed(entry: StudentView, roster: Seq<StudentView>) -> Seq<StudentView> {
    roster.insert(place_of(entry.name.surname, roster), entry)
}

/// The roster in surname order, entries of one surname in the order they
/// had: each entry, from the last to the first, is placed into the sorted
/// rest.
pub open spec fn sorted_by_surname(roster: Seq<StudentView>) -> Seq<StudentView>
    decreases roster.len(),
{
    if roster.len() == 0 {
        roster
    } else {
        placed(roster[0], sorted_by_surname(roster.drop_first()))
    }
}

/// `place_of` is an index into the roster or its length; every entry ahead
/// of it has a surname before `surname`, and the entry at it has not.
pub proof fn lemma_place_of(surname: Seq<char>, roster: Seq<StudentView>)
    ensures
        0 <= place_of(surname, roster) <= roster.len(),
        forall|j: int|
            0 <= j < place_of(surname, roster) ==> text_lt(
                #[trigger] roster[j].name.surname,
                surname,
            ),
        place_of(surname, roster) < roster.len() ==> !text_lt(
            roster[place_of(surname, roster)].name.surname,
            surname,
        ),
    decreases roster.len(),
{
    if roster.len() > 0 && text_lt(roster[0].name.surname, surname) {
        let rest = roster.drop_first();
        lemma_place_of(surname, rest);
        let p = place_of(surname, roster);
        assert forall|j: int| 0 <= j < p implies text_lt(
            #[trigger] roster[j].name.surname,
            surname,
        ) by {
            if j > 0 {
                assert(roster[j] == rest[j - 1]);
            }
        }
        if p < roster.len() {
            assert(roster[p] == rest[p - 1]);
        }
    }
}

/// An index with the two properties of `place_of` is `place_of`.
pub proof fn lemma_place_of_unique(surname: Seq<char>, roster: Seq<StudentView>, p: int)
    requires
        0 <= p <= roster.len(),
        forall|j: int| 0 <= j < p ==> text_lt(#[trigger] roster[j].name.surname, surname),
        p < roster.len() ==> !text_lt(roster[p].name.surname, surname),
    ensures
        place_of(surname, roster) == p,
    decreases p,
{
    if p > 0 {
        let rest = roster.drop_first();
        assert(text_lt(roster[0].name.surname, surname));
        assert forall|j: int| 0 <= j < p - 1 implies text_lt(
            #[trigger] rest[j].name.surname,
            surname,
        ) by {
            assert(rest[j] == roster[j + 1]);
        }
        if p - 1 < rest.len() {
            assert(rest[p - 1] == roster[p]);
        }
        lemma_place_of_unique(surname, rest, p - 1);
    }
}

/// Placing an entry into an ordered roster leaves it ordered.
pub proof fn lemma_placed_ordered(entry: StudentView, roster: Seq<StudentView>)
    requires
        ordered_by_surname(roster),
    ensures
        ordered_by_surname(placed(entry, roster)),
{
    let key = entry.name.surname;
    let p = place_of(key, roster);
    lemma_place_of(key, roster);
    let out = placed(entry, roster);
    assert forall|i: int, j: int| 0 <= i < j < out.len() implies !text_lt(
        #[trigger] out[j].name.surname,
        #[trigger] out[i].name.surname,
    ) by {
        if j < p {
            assert(out[i] == roster[i] && out[j] == roster[j]);
        } else if j == p {
            assert(out[j] == entry && out[i] == roster[i]);
            lemma_text_lt_asymmetric(roster[i].name.surname, key);
        } else if i == p {
            assert(out[i] == entry && out[j] == roster[j - 1]);
            if j - 1 > p {
                lemma_text_le_transitive(key, roster[p].name.surname, roster[j - 1].name.surname);
            }
        } else if i < p {
            assert(out[i] == roster[i] && out[j] == roster[j - 1]);
        } else {
            assert(out[i] == roster[i - 1] && out[j] == roster[j - 1]);
        }
    }
}

/// A test that no entry passes selects nothing.
proof fn lemma_filter_none(roster: Seq<StudentView>, pred: spec_fn(StudentView) -> bool)
    requires
        forall|j: int| 0 <= j < roster.len() ==> !pred(#[trigger] roster[j]),
    ensures
        roster.filter(pred) == Seq::<StudentView>::empty(),
    decreases roster.len(),
{
    if roster.len() == 0 {
        roster.lemma_filter_len(pred);
        assert(roster.filter(pred) =~= Seq::<StudentView>::empty());
    } else {
        let front = roster.drop_last();
        assert forall|j: int| 0 <= j < front.len() implies !pred(#[trigger] front[j]) by {
            assert(front[j] == roster[j]);
        }
        lemma_filter_none(front, pred);
        front.lemma_filter_push(roster.last(), pred);
        assert(front.push(roster.last()) =~= roster);
    }
}

/// Placing an entry adds it to the entries of its own surname, ahead of
/// them, and leaves the entries of every other surname as they were.
pub proof fn lemma_placed_surname_group(
    entry: StudentView,
    roster: Seq<StudentView>,
    surname: Seq<char>,
)
    ensures
        with_surname(placed(entry, roster), surname) == if entry.name.surname == surname {
            seq![entry] + with_surname(roster, surname)
        } else {
            with_surname(roster, surname)
        },
{
    let key = entry.name.surname;
    let p = place_of(key, roster);
    lemma_place_of(key, roster);
    let pred = has_surname(surname);
    let head = roster.take(p);
    let tail = roster.skip(p);
    assert(roster =~= head + tail);
    assert(placed(entry, roster) =~= head + (seq![entry] + tail));
    Seq::filter_distributes_over_add(head, tail, pred);
    Seq::filter_distributes_over_add(head, seq![entry] + tail, pred);
    tail.lemma_filter_prepend(entry, pred);
    if key == surname {
        let kept = head.filter(pred);
        assert forall|j: int| 0 <= j < head.len() implies !pred(#[trigger] head[j]) by {
            assert(head[j] == roster[j]);
            lemma_text_lt_irreflexive(surname);
        }
        lemma_filter_none(head, pred);
        assert(head.filter(pred) + (seq![entry] + tail.filter(pred)) =~= seq![entry] + (
        head.filter(pred) + tail.filter(pred)));
    } else {
        assert(Seq::<StudentView>::empty() + tail.filter(pred) =~= tail.filter(pred));
    }
}

/// Sorting changes no length.
pub proof fn lemma_sorted_len(roster: Seq<StudentView>)
    ensures
        sorted_by_surname(roster).len() == roster.len(),
    decreases roster.len(),
{
    if roster.len() > 0 {
        lemma_sorted_len(roster.drop_first());
        lemma_place_of(roster[0].name.surname, sorted_by_surname(roster.drop_first()));
    }
}

/// The sorted roster is in surname order.
pub proof fn lemma_sorted_is_ordered(roster: Seq<StudentView>)
    ensures
        ordered_by_surname(sorted_by_surname(roster)),
    decreases roster.len(),
{
    if roster.len() > 0 {
        lemma_sorted_is_ordered(roster.drop_first());
        lemma_placed_ordered(roster[0], sorted_by_surname(roster.drop_first()));
    }
}

/// Sorting is stable: the entries of any one surname come out in the order
/// in which they went in.
pub proof fn lemma_sorted_is_stable(roster: Seq<StudentView>, surname: Seq<char>)
    ensures
        with_surname(sorted_by_surname(roster), surname) == with_surname(roster, surname),
    decreases roster.len(),
{
    if roster.len() > 0 {
        let rest = roster.drop_first();
        lemma_sorted_is_stable(rest, surname);
        lemma_placed_surname_group(roster[0], sorted_by_surname(rest), surname);
        rest.lemma_filter_prepend(roster[0], has_surname(surname));
        assert(roster =~= seq![roster[0]] + rest);
    }
}

/// Sorting keeps every entry, as often as it occurs.
pub proof fn lemma_sorted_is_permutation(roster: Seq<StudentView>)
    ensures
        sorted_by_surname(roster).to_multiset() == roster.to_multiset(),
    decreases roster.len(),
{
    if roster.len() > 0 {
        let rest = roster.drop_first();
        let sorted_rest = sorted_by_surname(rest);
        lemma_sorted_is_permutation(rest);
        lemma_place_of(roster[0].name.surname, sorted_rest);
        vstd::seq_lib::to_multiset_insert(
            sorted_rest,
            place_of(roster[0].name.surname, sorted_rest),
            roster[0],
        );
        vstd::seq_lib::to_multiset_insert(rest, 0, roster[0]);
        assert(rest.insert(0, roster[0]) =~= roster);
    }
}

/// A roster that is in surname order already is its own sorted form.
pub proof fn lemma_sorted_of_ordered(roster: Seq<StudentView>)
    requires
        ordered_by_surname(roster),
    ensures
        sorted_by_surname(roster) == roster,
    decreases roster.len(),
{
    if roster.len() > 0 {
        let rest = roster.drop_first();
        assert forall|i: int, j: int| 0 <= i < j < rest.len() implies !text_lt(
            #[trigger] rest[j].name.surname,
            #[trigger] rest[i].name.surname,
        ) by {
            assert(rest[i] == roster[i + 1] && rest[j] == roster[j + 1]);
        }
        lemma_sorted_of_ordered(rest);
        if rest.len() > 0 {
            assert(rest[0] == roster[1]);
        }
        lemma_place_of_unique(roster[0].name.surname, rest, 0);
        assert(rest.insert(0, roster[0]) =~= roster);
    }
}

/// The first entry of a roster leads the entries of its surname.
proof fn lemma_first_leads_its_group(roster: Seq<StudentView>)
    requires
        roster.len() > 0,
    ensures
        with_surname(roster, roster[0].name.surname).len() > 0,
        with_surname(roster, roster[0].name.surname)[0] == roster[0],
        forall|surname: Seq<char>|
            #[trigger] with_surname(roster.drop_first(), surname) == if surname
                == roster[0].name.surname {
                with_surname(roster, surname).drop_first()
            } else {
                with_surname(roster, surname)
            },
{
    let rest = roster.drop_first();
    assert(roster =~= seq![roster[0]] + rest);
    assert forall|surname: Seq<char>|
        #[trigger] with_surname(rest, surname) == if surname == roster[0].name.surname {
            with_surname(roster, surname).drop_first()
        } else {
            with_surname(roster, surname)
        } by {
        rest.lemma_filter_prepend(roster[0], has_surname(surname));
        if surname == roster[0].name.surname {
            assert((seq![roster[0]] + with_surname(rest, surname)).drop_first() =~= with_surname(
                rest,
                surname,
            ));
        } else {
            assert(Seq::<StudentView>::empty() + with_surname(rest, surname) =~= with_surname(
                rest,
                surname,
            ));
        }
    }
    rest.lemma_filter_prepend(roster[0], has_surname(roster[0].name.surname));
}

/// In an ordered roster no surname that occurs comes before that of the
/// first entry.
proof fn lemma_first_is_least(roster: Seq<StudentView>, surname: Seq<char>)
    requires
        ordered_by_surname(roster),
        with_surname(roster, surname).len() > 0,
    ensures
        roster.len() > 0,
        !text_lt(surname, roster[0].name.surname),
{
    let group = with_surname(roster, surname);
    roster.lemma_filter_pred(has_surname(surname), 0);
    assert(group.contains(group[0]));
    roster.lemma_filter_contains_rev(has_surname(surname), group[0]);
    let j = choose|j: int| 0 <= j < roster.len() && roster[j] == group[0];
    if j == 0 {
        lemma_text_lt_irreflexive(surname);
    }
}

/// Two ordered rosters that hold the same entries of every surname, in the
/// same order, are the same roster.
pub proof fn lemma_ordered_rosters_with_same_groups(a: Seq<StudentView>, b: Seq<StudentView>)
    requires
        ordered_by_surname(a),
        ordered_by_surname(b),
        forall|surname: Seq<char>| #[trigger]
            with_surname(a, surname) == with_surname(b, surname),
    ensures
        a == b,
    decreases a.len(),
{
    if a.len() == 0 {
        if b.len() > 0 {
            lemma_first_leads_its_group(b);
            assert(with_surname(a, b[0].name.surname) == with_surname(b, b[0].name.surname));
            a.lemma_filter_len(has_surname(b[0].name.surname));
        }
        assert(a =~= b);
    } else {
        lemma_first_leads_its_group(a);
        let ka = a[0].name.surname;
        assert(with_surname(a, ka) == with_surname(b, ka));
        lemma_first_is_least(b, ka);
        lemma_first_leads_its_group(b);
        let kb = b[0].name.surname;
        assert(with_surname(a, kb) == with_surname(b, kb));
        lemma_first_is_least(a, kb);
        crate::text::lemma_text_lt_total(ka, kb);
        assert(ka == kb);
        assert(a[0] == b[0]);
        let ra = a.drop_first();
        let rb = b.drop_first();
        assert forall|i: int, j: int| 0 <= i < j < ra.len() implies !text_lt(
            #[trigger] ra[j].name.surname,
            #[trigger] ra[i].name.surname,
        ) by {
            assert(ra[i] == a[i + 1] && ra[j] == a[j + 1]);
        }
        assert forall|i: int, j: int| 0 <= i < j < rb.len() implies !text_lt(
            #[trigger] rb[j].name.surname,
            #[trigger] rb[i].name.surname,
        ) by {
            assert(rb[i] == b[i + 1] && rb[j] == b[j + 1]);
        }
        assert forall|surname: Seq<char>| #[trigger]
            with_surname(ra, surname) == with_surname(rb, surname) by {
            assert(with_surname(a, surname) == with_surname(b, surname));
        }
        lemma_ordered_rosters_with_same_groups(ra, rb);
        assert(a =~= seq![a[0]] + ra);
        assert(b =~= seq![b[0]] + rb);
    }
}

/// The sorted roster is the only roster that is in surname order and holds
/// the entries of every surname in the order in which they went in.
pub proof fn lemma_stable_sort_is_unique(sorted: Seq<StudentView>, roster: Seq<StudentView>)
    requires
        ordered_by_surname(sorted),
        forall|surname: Seq<char>| #[trigger]
            with_surname(sorted, surname) == with_surname(roster, surname),
    ensures
        sorted == sorted_by_surname(roster),
{
    let model = sorted_by_surname(roster);
    lemma_sorted_is_ordered(roster);
    assert forall|surname: Seq<char>| #[trigger]
        with_surname(sorted, surname) == with_surname(model, surname) by {
        lemma_sorted_is_stable(roster, surname);
        assert(with_surname(sorted, surname) == with_surname(roster, surname));
    }
    lemma_ordered_rosters_with_same_groups(sorted, model);
}

/// Taking entries off an ordered roster leaves it ordered.
pub proof fn lemma_filter_keeps_order(roster: Seq<StudentView>, pred: spec_fn(StudentView) -> bool)
    requires
        ordered_by_surname(roster),
    ensures
        ordered_by_surname(roster.filter(pred)),
    decreases roster.len(),
{
    if roster.len() == 0 {
        roster.lemma_filter_len(pred);
    } else {
        let front = roster.drop_last();
        let last = roster.last();
        assert forall|i: int, j: int| 0 <= i < j < front.len() implies !text_lt(
            #[trigger] front[j].name.surname,
            #[trigger] front[i].name.surname,
        ) by {
            assert(front[i] == roster[i] && front[j] == roster[j]);
        }
        lemma_filter_keeps_order(front, pred);
        front.lemma_filter_push(last, pred);
        assert(front.push(last) =~= roster);
        let kept = front.filter(pred);
        let out = roster.filter(pred);
        if pred(last) {
            assert forall|i: int, j: int| 0 <= i < j < out.len() implies !text_lt(
                #[trigger] out[j].name.surname,
                #[trigger] out[i].name.surname,
            ) by {
                if j < kept.len() {
                    assert(out[i] == kept[i] && out[j] == kept[j]);
                } else {
                    assert(out[j] == last);
                    assert(out[i] == kept[i]);
                    assert(kept.contains(kept[i]));
                    front.lemma_filter_contains_rev(pred, kept[i]);
                    let k = choose|k: int| 0 <= k < front.len() && front[k] == kept[i];
                    assert(roster[k] == front[k]);
                    assert(roster[roster.len() - 1] == last);
                }
            }
        }
    }
}

/// `position_of_id` points at the first entry that carries the identifier.
pub proof fn lemma_position_of_id(roster: Seq<StudentView>, id: u128)
    ensures
        match position_of_id(roster, id) {
            Some(i) => 0 <= i < roster.len() && roster[i].id == id && forall|j: int|
                0 <= j < i ==> (#[trigger] roster[j]).id != id,
            None => forall|j: int| 0 <= j < roster.len() ==> (#[trigger] roster[j]).id != id,
        },
    decreases roster.len(),
{
    if roster.len() > 0 && roster[0].id != id {
        let rest = roster.drop_first();
        lemma_position_of_id(rest, id);
        match position_of_id(rest, id) {
            Some(i) => {
                assert(roster[i + 1] == rest[i]);
                assert forall|j: int| 0 <= j < i + 1 implies (#[trigger] roster[j]).id != id by {
                    if j > 0 {
                        assert(roster[j] == rest[j - 1]);
                    }
                }
            },
            None => {
                assert forall|j: int| 0 <= j < roster.len() implies (#[trigger] roster[j]).id
                    != id by {
                    if j > 0 {
                        assert(roster[j] == rest[j - 1]);
                    }
                }
            },
        }
    }
}

/// The first index at which an identifier occurs is `position_of_id`.
pub proof fn lemma_position_of_id_unique(roster: Seq<StudentView>, id: u128, i: int)
    requires
        0 <= i <= roster.len(),
        forall|j: int| 0 <= j < i ==> (#[trigger] roster[j]).id != id,
        i < roster.len() ==> roster[i].id == id,
    ensures
        position_of_id(roster, id) == if i < roster.len() {
            Some(i)
        } else {
            None
        },
{
    lemma_position_of_id(roster, id);
}

/// The index of the first student that carries `id`.
pub fn find_by_id(students: &Vec<Student>, id: u128) -> (found: Option<usize>)
    ensures
        match found {
            Some(i) => position_of_id(students.deep_view(), id) == Some(i as int),
            None => position_of_id(students.deep_view(), id) is None,
        },
{
    let mut i: usize = 0;
    while i < students.len()
        invariant
            i <= students.len(),
            forall|j: int| 0 <= j < i ==> (#[trigger] students.deep_view()[j]).id != id,
        decreases students.len() - i,
    {
        if students[i].id == id {
            proof {
                lemma_position_of_id_unique(students.deep_view(), id, i as int);
            }
            return Some(i);
        }
        i += 1;
    }
    proof {
        lemma_position_of_id_unique(students.deep_view(), id, i as int);
    }
    None
}

/// Takes every student that carries `id` off the list.
pub fn remove_by_id(students: &mut Vec<Student>, id: u128)
    ensures
        final(students).deep_view() == without_id(old(students).deep_view(), id),
{
    let ghost before = students.deep_view();
    let ghost seen: int = 0;
    let mut i: usize = 0;
    proof {
        assert(before.take(0) =~= Seq::<StudentView>::empty());
        assert(students.deep_view().take(0) =~= Seq::<StudentView>::empty());
        assert(students.deep_view().skip(0) =~= before.skip(0));
    }
    while i < students.len()
        invariant
            0 <= i <= students.len(),
            i <= seen <= before.len(),
            students.len() - i == before.len() - seen,
            students.deep_view().take(i as int) == without_id(before.take(seen), id),
            students.deep_view().skip(i as int) == before.skip(seen),
        decreases students.len() - i,
    {
        let ghost current = students.deep_view();
        proof {
            assert(current.skip(i as int)[0] == before.skip(seen)[0]);
            assert(before.take(seen + 1) =~= before.take(seen).push(before[seen]));
            before.take(seen).lemma_filter_push(before[seen], has_other_id(id));
        }
        if students[i].id == id {
            let _ = students.remove(i);
            proof {
                assert(students.deep_view() =~= current.remove(i as int));
                assert(students.deep_view().take(i as int) =~= current.take(i as int));
                assert(students.deep_view().skip(i as int) =~= current.skip(i as int).skip(1));
                assert(before.skip(seen).skip(1) =~= before.skip(seen + 1));
                seen = seen + 1;
            }
        } else {
            proof {
                assert(current.take(i + 1) =~= current.take(i as int).push(current[i as int]));
                assert(current.skip(i as int).skip(1) =~= current.skip(i + 1));
                assert(before.skip(seen).skip(1) =~= before.skip(seen + 1));
                seen = seen + 1;
            }
            i += 1;
        }
    }
    proof {
        assert(students.deep_view().take(i as int) =~= students.deep_view());
        assert(before.take(seen) =~= before);
    }
}

/// Puts the students in surname order; students of one surname keep the
/// order they had.
pub fn sort_by_surname(students: &mut Vec<Student>)
    ensures
        final(students).deep_view() == sorted_by_surname(old(students).deep_view()),
{
    let ghost before = students.deep_view();
    let mut sorted: Vec<Student> = Vec::new();
    proof {
        assert(before.skip(before.len() as int) =~= Seq::<StudentView>::empty());
        assert(sorted.deep_view() =~= Seq::<StudentView>::empty());
        assert(students.deep_view() =~= before.take(before.len() as int));
    }
    while students.len() > 0
        invariant
            students.len() <= before.len(),
            students.deep_view() == before.take(students.len() as int),
            sorted.deep_view() == sorted_by_surname(before.skip(students.len() as int)),
        decreases students.len(),
    {
        let ghost remaining = students.deep_view();
        let ghost done = sorted.deep_view();
        let entry = students.pop().unwrap();
        let mut p: usize = 0;
        while p < sorted.len() && text_less(
            sorted[p].name.surname.as_str(),
            entry.name.surname.as_str(),
        )
            invariant
                p <= sorted.len(),
                sorted.deep_view() == done,
                forall|j: int|
                    0 <= j < p ==> text_lt(#[trigger] done[j].name.surname, entry@.name.surname),
            decreases sorted.len() - p,
        {
            p += 1;
        }
        proof {
            lemma_place_of_unique(entry@.name.surname, done, p as int);
            let k = students.len() as int;
            assert(entry@ == remaining[k]);
            assert(remaining[k] == before[k]);
            assert(before.skip(k).drop_first() =~= before.skip(k + 1));
            assert(before.skip(k)[0] == before[k]);
            assert(students.deep_view() =~= before.take(k));
        }
        sorted.insert(p, entry);
        proof {
            assert(sorted.deep_view() =~= done.insert(p as int, entry@));
        }
    }
    proof {
        assert(before.skip(0) =~= before);
    }
    *students = sorted;
}

} // verus!
