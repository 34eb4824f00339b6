//! Grouping entries by a text, in the order of the texts.

use vstd::prelude::*;

use crate::text::chars_of;

verus! {

/// One text comes before another: at the first character in which they differ,
/// or because it ends there.
pub open spec fn text_lt(a: Seq<char>, b: Seq<char>) -> bool
    decreases a.len(),
{
    if b.len() == 0 {
        false
    } else if a.len() == 0 {
        true
    } else if a[0] != b[0] {
        a[0] < b[0]
    } else {
        text_lt(a.skip(1), b.skip(1))
    }
}

proof fn lemma_lt_irreflexive(a: Seq<char>)
    ensures
        !text_lt(a, a),
    decreases a.len(),
{
    if a.len() > 0 {
        lemma_lt_irreflexive(a.skip(1));
    }
}

proof fn lemma_lt_transitive(a: Seq<char>, b: Seq<char>, c: Seq<char>)
    requires
        text_lt(a, b),
        text_lt(b, c),
    ensures
        text_lt(a, c),
    decreases a.len(),
{
    if a.len() > 0 && b.len() > 0 && c.len() > 0 && a[0] == b[0] && b[0] == c[0] {
        lemma_lt_transitive(a.skip(1), b.skip(1), c.skip(1));
    }
}

proof fn lemma_lt_total(a: Seq<char>, b: Seq<char>)
    ensures
        text_lt(a, b) || a == b || text_lt(b, a),
    decreases a.len(),
{
    if a.len() > 0 && b.len() > 0 && a[0] == b[0] {
        lemma_lt_total(a.skip(1), b.skip(1));
        if a.skip(1) == b.skip(1) {
            assert(a =~= seq![a[0]] + a.skip(1));
            assert(b =~= seq![b[0]] + b.skip(1));
        }
    } else if a.len() == 0 && b.len() == 0 {
        assert(a =~= b);
    }
}

/// How two texts are ordered.
#[derive(Clone, Copy, Debug, PartialEq, Eq, Structural)]
pub enum TextOrder {
    Before,
    Same,
    After,
}

/// Tells how two texts are ordered.
pub fn text_order(a: &str, b: &str) -> (r: TextOrder)
    ensures
        r == TextOrder::Before <==> text_lt(a@, b@),
        r == TextOrder::Same <==> a@ == b@,
        r == TextOrder::After <==> text_lt(b@, a@),
{
    let left = chars_of(a);
    let right = chars_of(b);
    let mut i: usize = 0;
    proof {
        lemma_lt_total(a@, b@);
        assert(a@.skip(0) =~= a@);
        assert(b@.skip(0) =~= b@);
    }
    while i < left.len() && i < right.len()
        invariant
            i <= left@.len(),
            i <= right@.len(),
            left@ == a@,
            right@ == b@,
            text_lt(a@, b@) == text_lt(a@.skip(i as int), b@.skip(i as int)),
            text_lt(b@, a@) == text_lt(b@.skip(i as int), a@.skip(i as int)),
            a@ == b@ <==> a@.skip(i as int) == b@.skip(i as int),
            text_lt(a@, b@) || a@ == b@ || text_lt(b@, a@),
        decreases left@.len() - i,
    {
        proof {
            let x = a@.skip(i as int);
            let y = b@.skip(i as int);
            assert(x[0] == a@[i as int] && y[0] == b@[i as int]);
            assert(x.skip(1) =~= a@.skip(i + 1));
            assert(y.skip(1) =~= b@.skip(i + 1));
            assert(x =~= seq![x[0]] + x.skip(1));
            assert(y =~= seq![y[0]] + y.skip(1));
        }
        if left[i] != right[i] {
            if left[i] < right[i] {
                return TextOrder::Before;
            }
            return TextOrder::After;
        }
        i += 1;
    }
    proof {
        let x = a@.skip(i as int);
        let y = b@.skip(i as int);
        if x.len() == 0 && y.len() == 0 {
            assert(x =~= y);
            lemma_lt_irreflexive(x);
        }
    }
    if i < right.len() {
        TextOrder::Before
    } else if i < left.len() {
        TextOrder::After
    } else {
        TextOrder::Same
    }
}

/// The entries among the first that have a text, in order.
pub open spec fn members_of(keys: Seq<Option<String>>, text: Seq<char>, n: int) -> Seq<usize>
    decreases n,
{
    if n <= 0 {
        Seq::empty()
    } else if keys[n - 1] is Some && keys[n - 1]->0@ == text {
        members_of(keys, text, n - 1).push((n - 1) as usize)
    } else {
        members_of(keys, text, n - 1)
    }
}

/// Entries grouped by their text.
#[derive(Debug)]
pub struct Groups {
    pub keys: Vec<String>,
    pub members: Vec<Vec<usize>>,
}

/// Entries are grouped: the texts are in order, each group holds exactly the
/// entries with its text, and every entry with a text is in a group.
pub open spec fn grouped(groups: Groups, keys: Seq<Option<String>>, n: int) -> bool {
    &&& groups.keys@.len() == groups.members@.len()
    &&& forall|i: int, j: int|
        0 <= i < j < groups.keys@.len() ==> text_lt(
            (#[trigger] groups.keys@[i])@,
            (#[trigger] groups.keys@[j])@,
        )
    &&& forall|i: int|
        0 <= i < groups.keys@.len() ==> (#[trigger] groups.members@[i])@ == members_of(
            keys,
            groups.keys@[i]@,
            n,
        ) && groups.members@[i]@.len() > 0
    &&& forall|k: int|
        0 <= k < n && (#[trigger] keys[k]) is Some ==> exists|i: int|
            0 <= i < groups.keys@.len() && (#[trigger] groups.keys@[i])@ == keys[k]->0@
}

fn position_of(keys: &Vec<String>, text: &str) -> (r: (usize, bool))
    requires
        forall|i: int, j: int|
            0 <= i < j < keys@.len() ==> text_lt(
                (#[trigger] keys@[i])@,
                (#[trigger] keys@[j])@,
            ),
    ensures
        r.0 <= keys@.len(),
        forall|i: int| 0 <= i < r.0 ==> text_lt((#[trigger] keys@[i])@, text@),
        r.1 ==> r.0 < keys@.len() && keys@[r.0 as int]@ == text@,
        !r.1 ==> forall|i: int| r.0 <= i < keys@.len() ==> text_lt(text@, (#[trigger] keys@[i])@),
{
    let mut i: usize = 0;
    while i < keys.len()
        invariant
            i <= keys@.len(),
            forall|a: int, b: int|
                0 <= a < b < keys@.len() ==> text_lt(
                    (#[trigger] keys@[a])@,
                    (#[trigger] keys@[b])@,
                ),
            forall|k: int| 0 <= k < i ==> text_lt((#[trigger] keys@[k])@, text@),
        decreases keys@.len() - i,
    {
        match text_order(keys[i].as_str(), text) {
            TextOrder::Before => {},
            TextOrder::Same => return (i, true),
            TextOrder::After => {
                proof {
                    assert forall|k: int| i <= k < keys@.len() implies text_lt(
                        text@,
                        (#[trigger] keys@[k])@,
                    ) by {
                        if k > i {
                            assert(text_lt(keys@[i as int]@, keys@[k]@));
                            lemma_lt_transitive(text@, keys@[i as int]@, keys@[k]@);
                        }
                    }
                }
                return (i, false);
            },
        }
        i += 1;
    }
    (i, false)
}

proof fn lemma_no_members(keys: Seq<Option<String>>, text: Seq<char>, n: int)
    requires
        0 <= n <= keys.len(),
        forall|k: int| 0 <= k < n && (#[trigger] keys[k]) is Some ==> keys[k]->0@ != text,
    ensures
        members_of(keys, text, n).len() == 0,
    decreases n,
{
    if n > 0 {
        lemma_no_members(keys, text, n - 1);
    }
}

fn add_entry(groups: &mut Groups, keys: &Vec<Option<String>>, at: usize)
    requires
        at < keys@.len(),
        grouped(*old(groups), keys@, at as int),
    ensures
        grouped(*final(groups), keys@, at + 1),
{
    let ghost before = *groups;
    let text = match &keys[at] {
        Some(text) => text,
        None => {
            proof {
                assert(members_same(before, keys@, at as int));
            }
            return;
        },
    };
    let (position, found) = position_of(&groups.keys, text.as_str());
    if found {
        let mut list = groups.members.remove(position);
        list.push(at);
        groups.members.insert(position, list);
        proof {
            let p = position as int;
            assert(groups.members@ =~= before.members@.update(p, groups.members@[p]));
            assert forall|i: int| 0 <= i < groups.keys@.len() implies (
            #[trigger] groups.members@[i])@ == members_of(keys@, groups.keys@[i]@, at + 1)
                && groups.members@[i]@.len() > 0 by {
                let previous = before.members@[i];
                if i != p {
                    if i < p {
                        assert(text_lt(before.keys@[i]@, before.keys@[p]@));
                    } else {
                        assert(text_lt(before.keys@[p]@, before.keys@[i]@));
                    }
                    lemma_lt_irreflexive(text@);
                    assert(before.keys@[i]@ != text@);
                }
            }
            assert forall|k: int| 0 <= k < at + 1 && (#[trigger] keys@[k]) is Some implies exists|
                i: int,
            |
                0 <= i < groups.keys@.len() && (#[trigger] groups.keys@[i])@ == keys@[k]->0@ by {
                if k == at {
                    assert(groups.keys@[p]@ == keys@[k]->0@);
                }
            }
        }
    } else {
        let mut list: Vec<usize> = Vec::new();
        list.push(at);
        groups.keys.insert(position, text.as_str().to_owned());
        groups.members.insert(position, list);
        proof {
            let p = position as int;
            assert forall|k: int| 0 <= k < at && (#[trigger] keys@[k]) is Some implies keys@[k]->0@
                != text@ by {
                let i = choose|i: int|
                    0 <= i < before.keys@.len() && (#[trigger] before.keys@[i])@ == keys@[k]->0@;
                lemma_lt_irreflexive(text@);
                if i < p {
                    assert(text_lt(before.keys@[i]@, text@));
                } else {
                    assert(text_lt(text@, before.keys@[i]@));
                }
            }
            lemma_no_members(keys@, text@, at as int);
            assert forall|i: int, j: int| 0 <= i < j < groups.keys@.len() implies text_lt(
                (#[trigger] groups.keys@[i])@,
                (#[trigger] groups.keys@[j])@,
            ) by {
                let a = if i < p {
                    i
                } else {
                    i - 1
                };
                let b = if j < p {
                    j
                } else {
                    j - 1
                };
                if i == p {
                    assert(groups.keys@[j] == before.keys@[b]);
                } else if j == p {
                    assert(groups.keys@[i] == before.keys@[a]);
                } else {
                    assert(groups.keys@[i] == before.keys@[a]);
                    assert(groups.keys@[j] == before.keys@[b]);
                }
            }
            assert forall|i: int| 0 <= i < groups.keys@.len() implies (
            #[trigger] groups.members@[i])@ == members_of(keys@, groups.keys@[i]@, at + 1)
                && groups.members@[i]@.len() > 0 by {
                if i == p {
                    assert(groups.members@[p]@ =~= members_of(keys@, text@, at + 1));
                } else {
                    let a = if i < p {
                        i
                    } else {
                        i - 1
                    };
                    let previous = before.members@[a];
                    assert(groups.members@[i] == before.members@[a]);
                    assert(groups.keys@[i] == before.keys@[a]);
                    lemma_lt_irreflexive(text@);
                    if i < p {
                        assert(text_lt(before.keys@[a]@, text@));
                    } else {
                        assert(text_lt(text@, before.keys@[a]@));
                    }
                    assert(before.keys@[a]@ != text@);
                }
            }
            assert forall|k: int| 0 <= k < at + 1 && (#[trigger] keys@[k]) is Some implies exists|
                i: int,
            |
                0 <= i < groups.keys@.len() && (#[trigger] groups.keys@[i])@ == keys@[k]->0@ by {
                if k == at {
                    assert(groups.keys@[p]@ == keys@[k]->0@);
                } else {
                    let i = choose|i: int|
                        0 <= i < before.keys@.len() && (#[trigger] before.keys@[i])@
                            == keys@[k]->0@;
                    if i < p {
                        assert(groups.keys@[i] == before.keys@[i]);
                    } else {
                        assert(groups.keys@[i + 1] == before.keys@[i]);
                    }
                }
            }
        }
    }
}

spec fn members_same(groups: Groups, keys: Seq<Option<String>>, at: int) -> bool {
    forall|i: int|
        0 <= i < groups.keys@.len() ==> (#[trigger] groups.members@[i])@ == members_of(
            keys,
            groups.keys@[i]@,
            at + 1,
        )
}

/// Groups the entries that have a text by it.
pub fn group_by_text(keys: &Vec<Option<String>>) -> (groups: Groups)
    ensures
        grouped(groups, keys@, keys@.len() as int),
{
    let mut groups = Groups { keys: Vec::new(), members: Vec::new() };
    let mut i: usize = 0;
    while i < keys.len()
        invariant
            i <= keys@.len(),
            grouped(groups, keys@, i as int),
        decreases keys@.len() - i,
    {
        add_entry(&mut groups, keys, i);
        i += 1;
    }
    groups
}

} // verus!
