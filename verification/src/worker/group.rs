//! Grouping a list by a text, the groups in the order of their texts.

use crate::text::{
    is_text_before, law_text_before_total, law_text_before_transitive, lemma_texts_push,
    text_before, text_eq, texts,
};
use vstd::prelude::*;
use vstd::string::*;

verus! {

/// The places in a list that share a key, in order.
#[derive(Debug)]
pub struct Group {
    pub key: String,
    pub members: Vec<usize>,
}

/// A key and the places that share it.
pub struct GroupView {
    pub key: Seq<char>,
    pub members: Seq<usize>,
}

impl View for Group {
    type V = GroupView;

    open spec fn view(&self) -> GroupView {
        GroupView { key: self.key@, members: self.members@ }
    }
}

/// The texts of groups.
pub open spec fn group_views(groups: Seq<Group>) -> Seq<GroupView> {
    Seq::new(groups.len(), |i: int| groups[i]@)
}

/// Groups with one more place: in the group with its key, or in a new one where that belongs.
pub open spec fn with_member(groups: Seq<GroupView>, key: Seq<char>, place: usize) -> Seq<GroupView>
    decreases groups.len(),
{
    if groups.len() == 0 {
        seq![GroupView { key, members: seq![place] }]
    } else if groups[0].key == key {
        seq![GroupView { key, members: groups[0].members.push(place) }] + groups.drop_first()
    } else if text_before(key, groups[0].key) {
        seq![GroupView { key, members: seq![place] }] + groups
    } else {
        seq![groups[0]] + with_member(groups.drop_first(), key, place)
    }
}

/// The groups of a list by its keys, in the order of the keys.
pub open spec fn grouped(keys: Seq<Seq<char>>) -> Seq<GroupView>
    decreases keys.len(),
{
    if keys.len() == 0 {
        Seq::empty()
    } else {
        with_member(grouped(keys.drop_last()), keys.last(), (keys.len() - 1) as usize)
    }
}

fn insert_member(groups: Vec<Group>, key: &str, place: usize) -> (r: Vec<Group>)
    ensures
        group_views(r@) == with_member(group_views(groups@), key@, place),
{
    let ghost all = group_views(groups@);
    let mut r: Vec<Group> = groups;
    let mut p: usize = 0;
    assert(all.take(0) + with_member(all.skip(0), key@, place) =~= with_member(
        all,
        key@,
        place,
    )) by {
        assert(all.skip(0) =~= all);
    }
    while p < r.len() && !text_eq(r[p].key.as_str(), key) && !is_text_before(
        key,
        r[p].key.as_str(),
    )
        invariant
            p <= r@.len(),
            all == group_views(r@),
            all.take(p as int) + with_member(all.skip(p as int), key@, place) == with_member(
                all,
                key@,
                place,
            ),
        decreases r@.len() - p,
    {
        assert(all.skip(p as int).drop_first() =~= all.skip(p + 1));
        assert(all.skip(p as int)[0] == all[p as int]);
        assert(all.take(p as int) + (seq![all[p as int]] + with_member(
            all.skip(p + 1),
            key@,
            place,
        )) =~= all.take(p + 1) + with_member(all.skip(p + 1), key@, place));
        p = p + 1;
    }
    let ghost goal = with_member(all, key@, place);
    if p < r.len() && text_eq(r[p].key.as_str(), key) {
        assert(all.skip(p as int)[0] == all[p as int]);
        assert(all.skip(p as int).drop_first() =~= all.skip(p + 1));
        let mut g: Group = r.remove(p);
        let ghost members = g.members@;
        g.members.push(place);
        r.insert(p, g);
        assert(group_views(r@) =~= all.take(p as int) + (seq![
            GroupView { key: key@, members: members.push(place) },
        ] + all.skip(p + 1)));
    } else {
        let mut members: Vec<usize> = Vec::new();
        members.push(place);
        let g = Group { key: key.to_owned(), members };
        r.insert(p, g);
        assert(members@ =~= seq![place]);
        assert(p < all.len() ==> all.skip(p as int)[0] == all[p as int]);
        assert(group_views(r@) =~= all.take(p as int) + (seq![
            GroupView { key: key@, members: seq![place] },
        ] + all.skip(p as int)));
        assert(p == all.len() ==> seq![GroupView { key: key@, members: seq![place] }] + all.skip(
            p as int,
        ) =~= seq![GroupView { key: key@, members: seq![place] }]);
    }
    r
}

/// The groups of a list by its keys, in the order of the keys.
pub fn group_by_key(keys: &Vec<String>) -> (r: Vec<Group>)
    ensures
        group_views(r@) == grouped(texts(keys@)),
{
    let ghost all = texts(keys@);
    let mut r: Vec<Group> = Vec::new();
    assert(group_views(r@) =~= grouped(all.take(0)));
    for i in 0..keys.len()
        invariant
            all == texts(keys@),
            group_views(r@) == grouped(all.take(i as int)),
    {
        assert(all.take(i + 1).drop_last() =~= all.take(i as int));
        r = insert_member(r, keys[i].as_str(), i);
    }
    assert(all.take(keys@.len() as int) =~= all);
    r
}

/// Each group's key stands before the next one's.
pub open spec fn in_order(groups: Seq<GroupView>) -> bool {
    forall|a: int, b: int|
        0 <= a < b < groups.len() ==> text_before(
            (#[trigger] groups[a]).key,
            (#[trigger] groups[b]).key,
        )
}

/// The places of a key in a list, in order.
pub open spec fn places_of(keys: Seq<Seq<char>>, key: Seq<char>) -> Seq<usize>
    decreases keys.len(),
{
    if keys.len() == 0 {
        Seq::empty()
    } else {
        let before = places_of(keys.drop_last(), key);
        if keys.last() == key {
            before.push((keys.len() - 1) as usize)
        } else {
            before
        }
    }
}

/// There is a group with this key.
pub open spec fn has_group(groups: Seq<GroupView>, key: Seq<char>) -> bool {
    exists|a: int| 0 <= a < groups.len() && (#[trigger] groups[a]).key == key
}

proof fn lemma_with_member(groups: Seq<GroupView>, key: Seq<char>, place: usize)
    requires
        in_order(groups),
    ensures
        in_order(with_member(groups, key, place)),
        forall|x: Seq<char>|
            text_before(x, key) && (forall|b: int|
                0 <= b < groups.len() ==> text_before(x, (#[trigger] groups[b]).key)) ==> (forall|
                a: int,
            |
                0 <= a < with_member(groups, key, place).len() ==> text_before(
                    x,
                    (#[trigger] with_member(groups, key, place)[a]).key,
                )),
        has_group(with_member(groups, key, place), key),
        forall|k: Seq<char>|
            has_group(groups, k) ==> #[trigger] has_group(with_member(groups, key, place), k),
        forall|a: int|
            0 <= a < with_member(groups, key, place).len() ==> {
                let g = #[trigger] with_member(groups, key, place)[a];
                if g.key != key {
                    exists|b: int| 0 <= b < groups.len() && #[trigger] groups[b] == g
                } else {
                    ||| !has_group(groups, key) && g.members == seq![place]
                    ||| exists|b: int|
                        0 <= b < groups.len() && (#[trigger] groups[b]).key == key && g.members
                            == groups[b].members.push(place)
                }
            },
    decreases groups.len(),
{
    let all = with_member(groups, key, place);
    if groups.len() == 0 {
        assert(all[0].key == key);
    } else {
        law_text_before_total(key, groups[0].key);
        let rest = groups.drop_first();
        assert forall|b: int| 0 <= b < rest.len() implies #[trigger] rest[b] == groups[b + 1] by {}
        if groups[0].key == key {
            assert(all[0].key == key);
            assert forall|a: int| 1 <= a < all.len() implies #[trigger] all[a] == groups[a] by {}
            assert forall|k: Seq<char>| has_group(groups, k) implies #[trigger] has_group(
                all,
                k,
            ) by {
                let b = choose|b: int| 0 <= b < groups.len() && (#[trigger] groups[b]).key == k;
                assert(all[b].key == k);
            }
            assert forall|a: int| 1 <= a < all.len() implies (#[trigger] all[a]).key != key by {
                law_text_before_total(groups[0].key, groups[a].key);
            }
        } else if text_before(key, groups[0].key) {
            assert forall|a: int| 1 <= a < all.len() implies #[trigger] all[a] == groups[a - 1] by {}
            assert(all[0].key == key);
            assert forall|b: int| 0 <= b < groups.len() implies text_before(
                key,
                (#[trigger] groups[b]).key,
            ) by {
                if b > 0 {
                    law_text_before_transitive(key, groups[0].key, groups[b].key);
                }
            }
            assert forall|k: Seq<char>| has_group(groups, k) implies #[trigger] has_group(
                all,
                k,
            ) by {
                let b = choose|b: int| 0 <= b < groups.len() && (#[trigger] groups[b]).key == k;
                assert(all[b + 1].key == k);
            }
            assert(!has_group(groups, key)) by {
                if has_group(groups, key) {
                    let b = choose|b: int|
                        0 <= b < groups.len() && (#[trigger] groups[b]).key == key;
                    law_text_before_total(key, groups[b].key);
                }
            }
            assert forall|a: int| 1 <= a < all.len() implies (#[trigger] all[a]).key != key by {
                law_text_before_total(key, groups[a - 1].key);
            }
        } else {
            assert(in_order(rest));
            lemma_with_member(rest, key, place);
            let tail = with_member(rest, key, place);
            assert forall|a: int| 1 <= a < all.len() implies #[trigger] all[a] == tail[a - 1] by {}
            assert(all[0] == groups[0]);
            assert forall|a: int| 0 <= a < tail.len() implies text_before(
                groups[0].key,
                (#[trigger] tail[a]).key,
            ) by {}
            assert(in_order(all));
            let w = choose|w: int| 0 <= w < tail.len() && (#[trigger] tail[w]).key == key;
            assert(all[w + 1].key == key);
            assert forall|k: Seq<char>| has_group(groups, k) implies #[trigger] has_group(
                all,
                k,
            ) by {
                let b = choose|b: int| 0 <= b < groups.len() && (#[trigger] groups[b]).key == k;
                if b == 0 {
                    assert(all[0].key == k);
                } else {
                    assert(rest[b - 1].key == k);
                    assert(has_group(rest, k));
                    assert(has_group(tail, k));
                    let c = choose|c: int| 0 <= c < tail.len() && (#[trigger] tail[c]).key == k;
                    assert(all[c + 1].key == k);
                }
            }
            assert(has_group(groups, key) ==> has_group(rest, key)) by {
                if has_group(groups, key) {
                    let b = choose|b: int|
                        0 <= b < groups.len() && (#[trigger] groups[b]).key == key;
                    assert(rest[b - 1].key == key);
                }
            }
            assert forall|a: int| 0 <= a < all.len() implies {
                let g = #[trigger] all[a];
                if g.key != key {
                    exists|b: int| 0 <= b < groups.len() && #[trigger] groups[b] == g
                } else {
                    ||| !has_group(groups, key) && g.members == seq![place]
                    ||| exists|b: int|
                        0 <= b < groups.len() && (#[trigger] groups[b]).key == key && g.members
                            == groups[b].members.push(place)
                }
            } by {
                let g = all[a];
                if a > 0 {
                    assert(g == tail[a - 1]);
                    if g.key != key {
                        let b = choose|b: int| 0 <= b < rest.len() && #[trigger] rest[b] == g;
                        assert(groups[b + 1] == g);
                    } else if has_group(rest, key) {
                        let b = choose|b: int|
                            0 <= b < rest.len() && (#[trigger] rest[b]).key == key && g.members
                                == rest[b].members.push(place);
                        assert(groups[b + 1].key == key);
                    }
                }
            }
            assert forall|x: Seq<char>|
                text_before(x, key) && (forall|b: int|
                    0 <= b < groups.len() ==> text_before(
                        x,
                        (#[trigger] groups[b]).key,
                    )) implies (forall|a: int|
                0 <= a < all.len() ==> text_before(x, (#[trigger] all[a]).key)) by {
                assert forall|b: int| 0 <= b < rest.len() implies text_before(
                    x,
                    (#[trigger] rest[b]).key,
                ) by {
                    assert(rest[b] == groups[b + 1]);
                }
                assert forall|a: int| 0 <= a < all.len() implies text_before(
                    x,
                    (#[trigger] all[a]).key,
                ) by {
                    if a == 0 {
                        assert(all[0] == groups[0]);
                    } else {
                        assert(all[a] == tail[a - 1]);
                    }
                }
            }
        }
    }
}

/// The groups stand in the order of their keys, each key once; each holds exactly the places of its
/// key, in order; and every item of the list is in a group.
pub proof fn law_grouped(keys: Seq<Seq<char>>)
    ensures
        in_order(grouped(keys)),
        forall|a: int|
            0 <= a < grouped(keys).len() ==> (#[trigger] grouped(keys)[a]).members == places_of(
                keys,
                grouped(keys)[a].key,
            ),
        forall|i: int| 0 <= i < keys.len() ==> has_group(grouped(keys), #[trigger] keys[i]),
        forall|k: Seq<char>| !has_group(grouped(keys), k) ==> places_of(keys, k).len() == 0,
    decreases keys.len(),
{
    if keys.len() > 0 {
        let rest = keys.drop_last();
        let key = keys.last();
        let place = (keys.len() - 1) as usize;
        law_grouped(rest);
        let before = grouped(rest);
        lemma_with_member(before, key, place);
        let all = grouped(keys);
        assert forall|a: int| 0 <= a < all.len() implies (#[trigger] all[a]).members == places_of(
            keys,
            all[a].key,
        ) by {
            let g = all[a];
            if g.key != key {
                let b = choose|b: int| 0 <= b < before.len() && #[trigger] before[b] == g;
                assert(before[b].members == places_of(rest, g.key));
            } else if !has_group(before, key) && g.members == seq![place] {
                assert(places_of(rest, key) =~= Seq::empty());
                assert(places_of(keys, key) =~= seq![place]);
            } else {
                let b = choose|b: int|
                    0 <= b < before.len() && (#[trigger] before[b]).key == key && g.members
                        == before[b].members.push(place);
                assert(before[b].members == places_of(rest, key));
            }
        }
        assert forall|i: int| 0 <= i < keys.len() implies has_group(
            all,
            #[trigger] keys[i],
        ) by {
            if i < rest.len() {
                assert(keys[i] == rest[i]);
                assert(has_group(before, rest[i]));
            }
        }
        assert forall|k: Seq<char>| !has_group(all, k) implies places_of(keys, k).len() == 0 by {
            assert(!has_group(before, k));
        }
    }
}

/// The lines of a group: its heading, and the row of each of its places.
pub open spec fn group_lines(heading: Seq<char>, members: Seq<usize>, rows: Seq<Seq<char>>) -> Seq<
    Seq<char>,
> {
    seq![heading] + Seq::new(members.len(), |i: int| rows[members[i] as int])
}

/// The lines of groups, in order.
pub open spec fn groups_lines(
    groups: Seq<GroupView>,
    headings: Seq<Seq<char>>,
    rows: Seq<Seq<char>>,
) -> Seq<Seq<char>>
    decreases groups.len(),
{
    if groups.len() == 0 {
        Seq::empty()
    } else {
        let n = (groups.len() - 1) as int;
        groups_lines(groups.drop_last(), headings, rows) + group_lines(
            headings[n],
            groups[n].members,
            rows,
        )
    }
}

/// All members of the groups are places in a list of this length.
pub open spec fn members_in(groups: Seq<GroupView>, len: nat) -> bool {
    forall|a: int, b: int|
        #![trigger groups[a].members[b]]
        0 <= a < groups.len() && 0 <= b < groups[a].members.len() ==> groups[a].members[b] < len
}

proof fn lemma_places_bounded(keys: Seq<Seq<char>>, key: Seq<char>)
    requires
        keys.len() <= usize::MAX,
    ensures
        forall|b: int|
            0 <= b < places_of(keys, key).len() ==> (
            #[trigger] places_of(keys, key)[b]) < keys.len(),
    decreases keys.len(),
{
    if keys.len() > 0 {
        lemma_places_bounded(keys.drop_last(), key);
        let before = places_of(keys.drop_last(), key);
        let all = places_of(keys, key);
        assert forall|b: int| 0 <= b < all.len() implies (#[trigger] all[b]) < keys.len() by {
            if b < before.len() {
                assert(all[b] == before[b]);
            }
        }
    }
}

/// The members of a list's groups are places in the list.
pub proof fn lemma_members_in(keys: Seq<Seq<char>>)
    requires
        keys.len() <= usize::MAX,
    ensures
        members_in(grouped(keys), keys.len()),
{
    law_grouped(keys);
    let groups = grouped(keys);
    assert forall|a: int, b: int|
        #![trigger groups[a].members[b]]
        0 <= a < groups.len() && 0 <= b < groups[a].members.len() implies groups[a].members[b]
        < keys.len() by {
        lemma_places_bounded(keys, groups[a].key);
        assert(groups[a].members == places_of(keys, groups[a].key));
    }
}

fn push_group(lines: &mut Vec<String>, heading: &String, members: &Vec<usize>, rows: &Vec<String>)
    requires
        forall|b: int| 0 <= b < members@.len() ==> (#[trigger] members@[b]) < rows@.len(),
    ensures
        texts(final(lines)@) == texts(old(lines)@) + group_lines(
            heading@,
            members@,
            texts(rows@),
        ),
{
    broadcast use lemma_texts_push;

    let ghost before = texts(lines@);
    let ghost all = group_lines(heading@, members@, texts(rows@));
    lines.push(heading.clone());
    assert(texts(lines@) =~= before + all.take(1));
    for i in 0..members.len()
        invariant
            all == group_lines(heading@, members@, texts(rows@)),
            texts(lines@) == before + all.take(i + 1),
            forall|b: int| 0 <= b < members@.len() ==> (#[trigger] members@[b]) < rows@.len(),
    {
        let place: usize = members[i];
        let ghost so_far = texts(lines@);
        let row: String = rows[place].clone();
        assert(all[i + 1] == row@);
        lines.push(row);
        assert(texts(lines@) == so_far.push(all[i + 1]));
        assert(all.take(i + 2) =~= all.take(i + 1).push(all[i + 1]));
        assert(before + all.take(i + 2) =~= (before + all.take(i + 1)).push(all[i + 1]));
    }
    assert(all.take((members@.len() + 1) as int) =~= all);
}

/// The lines of groups, in order.
pub(crate) fn lines_of_groups(groups: &Vec<Group>, headings: &Vec<String>, rows: &Vec<String>) -> (r: Vec<
    String,
>)
    requires
        members_in(group_views(groups@), rows@.len()),
        headings@.len() == groups@.len(),
    ensures
        texts(r@) == groups_lines(group_views(groups@), texts(headings@), texts(rows@)),
{
    let ghost all = group_views(groups@);
    let mut lines: Vec<String> = Vec::new();
    assert(texts(lines@) =~= groups_lines(all.take(0), texts(headings@), texts(rows@)));
    for i in 0..groups.len()
        invariant
            all == group_views(groups@),
            headings@.len() == groups@.len(),
            members_in(all, rows@.len()),
            texts(lines@) == groups_lines(all.take(i as int), texts(headings@), texts(rows@)),
    {
        assert(all.take(i + 1).drop_last() =~= all.take(i as int));
        assert(all.take(i + 1).last() == groups@[i as int]@);
        assert forall|b: int| 0 <= b < groups@[i as int].members@.len() implies (
        #[trigger] groups@[i as int].members@[b]) < rows@.len() by {
            assert(all[i as int].members[b] < rows@.len());
        }
        push_group(&mut lines, &headings[i], &groups[i].members, rows);
    }
    assert(all.take(groups@.len() as int) =~= all);
    lines
}

/// What is seen of a group is its key and its members.
pub proof fn law_group_is_seen_whole(group: Group)
    ensures
        group@.key == group.key@,
        group@.members == group.members@,
{
}

} // verus!
