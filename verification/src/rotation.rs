use vstd::prelude::*;

use crate::catalogue::{first_index_of, lemma_catalogue_ids};
use crate::designs::{
    btc_design, catalogue_ids, codex_design, codex_id, discord_design, is_known_design,
    media_design, normalize_design, same_text, spec_normalize_design, weather_design,
};

verus! {

/// The characters of each string of `v`.
pub open spec fn texts(v: Seq<String>) -> Seq<Seq<char>> {
    v.map_values(|s: String| s@)
}

/// The characters of each string of an optional list.
pub open spec fn opt_texts(v: Option<Vec<String>>) -> Option<Seq<Seq<char>>> {
    match v {
        Some(list) => Some(texts(list@)),
        None => None,
    }
}

/// The designs that `src` stands for, each kept at its first occurrence.
pub open spec fn dedup_normalized(src: Seq<Seq<char>>) -> Seq<Seq<char>>
    decreases src.len(),
{
    if src.len() == 0 {
        Seq::empty()
    } else {
        let prev = dedup_normalized(src.drop_last());
        let n = spec_normalize_design(src.last());
        if prev.contains(n) {
            prev
        } else {
            prev.push(n)
        }
    }
}

/// The rotation queue that a stored list stands for: the stored entries
/// (all designs when nothing is stored), normalised and without repeats,
/// or the Codex widget alone when that leaves nothing.
pub open spec fn spec_normalize_rotation(saved: Option<Seq<Seq<char>>>) -> Seq<Seq<char>> {
    let src = match saved {
        Some(s) => s,
        None => catalogue_ids(),
    };
    let d = dedup_normalized(src);
    if d.len() == 0 {
        seq![codex_id()]
    } else {
        d
    }
}

/// A rotation queue that the widget can run: not empty, no design twice,
/// only designs of the catalogue.
pub open spec fn is_valid_queue(q: Seq<Seq<char>>) -> bool {
    &&& q.len() > 0
    &&& q.no_duplicates()
    &&& forall|i: int| 0 <= i < q.len() ==> #[trigger] is_known_design(q[i])
}

/// Whether `v` holds a string with the characters of `t`.
pub fn contains_text(v: &Vec<String>, t: &str) -> (r: bool)
    ensures
        r == texts(v@).contains(t@),
{
    let mut i: usize = 0;
    while i < v.len()
        invariant
            0 <= i <= v.len(),
            forall|k: int| 0 <= k < i ==> v@[k]@ != t@,
        decreases v.len() - i,
    {
        if same_text(v[i].as_str(), t) {
            proof {
                assert(texts(v@)[i as int] == t@);
            }
            return true;
        }
        i = i + 1;
    }
    proof {
        if texts(v@).contains(t@) {
            let k = choose|k: int| 0 <= k < texts(v@).len() && texts(v@)[k] == t@;
            assert(v@[k]@ == t@);
        }
    }
    false
}

/// Appending a string appends its characters.
pub proof fn lemma_texts_push(v: Seq<String>, s: String)
    ensures
        texts(v.push(s)) == texts(v).push(s@),
{
    assert(texts(v.push(s)) =~= texts(v).push(s@));
}

/// Every design of the catalogue, in catalogue order.
pub fn all_designs() -> (v: Vec<String>)
    ensures
        texts(v@) == catalogue_ids(),
{
    let mut v: Vec<String> = Vec::new();
    v.push(codex_design().to_owned());
    v.push(weather_design().to_owned());
    v.push(discord_design().to_owned());
    v.push(btc_design().to_owned());
    v.push(media_design().to_owned());
    proof {
        lemma_catalogue_ids();
        assert(texts(v@) =~= catalogue_ids());
    }
    v
}

/// A normalised list keeps no design twice and only designs of the catalogue.
pub proof fn lemma_dedup_normalized_valid(src: Seq<Seq<char>>)
    ensures
        dedup_normalized(src).no_duplicates(),
        forall|i: int|
            0 <= i < dedup_normalized(src).len() ==> #[trigger] is_known_design(
                dedup_normalized(src)[i],
            ),
        src.len() > 0 ==> dedup_normalized(src).len() > 0,
    decreases src.len(),
{
    if src.len() > 0 {
        lemma_dedup_normalized_valid(src.drop_last());
        lemma_normalize_known(src.last());
        let prev = dedup_normalized(src.drop_last());
        let n = spec_normalize_design(src.last());
        if !prev.contains(n) {
            let q = prev.push(n);
            assert forall|i: int, j: int| 0 <= i < q.len() && 0 <= j < q.len() && i != j implies q[i]
                != q[j] by {
                if i == q.len() - 1 {
                    assert(prev[j] == q[j]);
                } else if j == q.len() - 1 {
                    assert(prev[i] == q[i]);
                }
            }
        }
    }
}

/// The normalised design is a design of the catalogue.
pub proof fn lemma_normalize_known(id: Seq<char>)
    ensures
        is_known_design(spec_normalize_design(id)),
        is_known_design(id) ==> spec_normalize_design(id) == id,
{
    lemma_catalogue_ids();
    if is_known_design(id) {
        let k = choose|k: int| 0 <= k < catalogue_ids().len() && catalogue_ids()[k] == id;
        assert(k == 0 || k == 1 || k == 2 || k == 3 || k == 4);
    }
    assert(catalogue_ids()[0] == codex_id());
}

/// Builds the rotation queue from a stored list: each entry is normalised,
/// repeats are dropped (the first occurrence stays), all designs stand in
/// for a missing list, and the Codex widget alone for an empty result.
pub fn normalize_rotation_designs(saved: Option<Vec<String>>) -> (designs: Vec<String>)
    ensures
        texts(designs@) == spec_normalize_rotation(opt_texts(saved)),
        is_valid_queue(texts(designs@)),
{
    let ghost saved_view = opt_texts(saved);
    let source: Vec<String> = match saved {
        Some(v) => v,
        None => all_designs(),
    };
    let ghost src = texts(source@);
    assert(src == match saved_view {
        Some(s) => s,
        None => catalogue_ids(),
    });
    let mut designs: Vec<String> = Vec::new();
    let mut i: usize = 0;
    assert(src.take(0) =~= Seq::<Seq<char>>::empty());
    while i < source.len()
        invariant
            0 <= i <= source.len(),
            src == texts(source@),
            texts(designs@) == dedup_normalized(src.take(i as int)),
        decreases source.len() - i,
    {
        let normalized: String = normalize_design(source[i].as_str()).to_owned();
        proof {
            assert(src.take(i + 1).drop_last() =~= src.take(i as int));
            assert(src.take(i + 1).last() == source@[i as int]@);
        }
        if !contains_text(&designs, normalized.as_str()) {
            proof {
                lemma_texts_push(designs@, normalized);
            }
            designs.push(normalized);
        }
        i = i + 1;
    }
    proof {
        assert(src.take(source.len() as int) =~= src);
    }
    if designs.len() == 0 {
        designs.push(codex_design().to_owned());
        proof {
            assert(texts(designs@) =~= seq![codex_id()]);
            lemma_catalogue_ids();
            assert(is_known_design(codex_id()));
        }
    } else {
        proof {
            lemma_dedup_normalized_valid(src);
        }
    }
    designs
}

/// The queue with `id` added at the end, unless it is already queued.
pub open spec fn spec_include(q: Seq<Seq<char>>, id: Seq<char>) -> Seq<Seq<char>> {
    if q.contains(id) {
        q
    } else {
        q.push(id)
    }
}

/// The queue without any entry equal to `id`, the others in their order.
pub open spec fn remove_all(q: Seq<Seq<char>>, id: Seq<char>) -> Seq<Seq<char>>
    decreases q.len(),
{
    if q.len() == 0 {
        Seq::empty()
    } else {
        let rest = remove_all(q.drop_last(), id);
        if q.last() == id {
            rest
        } else {
            rest.push(q.last())
        }
    }
}

/// The queue with `id` taken out; when that leaves nothing, `id` stays as
/// the only entry, so the queue is never empty.
pub open spec fn spec_exclude(q: Seq<Seq<char>>, id: Seq<char>) -> Seq<Seq<char>> {
    let kept = remove_all(q, id);
    if kept.len() == 0 {
        seq![id]
    } else {
        kept
    }
}

/// The queue with the entries at `i` and `j` exchanged.
pub open spec fn spec_swap(q: Seq<Seq<char>>, i: int, j: int) -> Seq<Seq<char>> {
    q.update(i, q[j]).update(j, q[i])
}

/// Where `id` stands in the queue; 0 when it is not queued.
pub open spec fn position_or_zero(q: Seq<Seq<char>>, id: Seq<char>) -> int {
    if q.contains(id) {
        first_index_of(q, id)
    } else {
        0
    }
}

/// A copy of a list of strings.
pub fn copy_designs(v: &Vec<String>) -> (r: Vec<String>)
    ensures
        texts(r@) == texts(v@),
{
    let mut r: Vec<String> = Vec::new();
    let mut i: usize = 0;
    while i < v.len()
        invariant
            0 <= i <= v.len(),
            texts(r@) == texts(v@).take(i as int),
        decreases v.len() - i,
    {
        let s = v[i].clone();
        proof {
            lemma_texts_push(r@, s);
            assert(texts(v@).take(i + 1) =~= texts(v@).take(i as int).push(s@));
        }
        r.push(s);
        i = i + 1;
    }
    assert(texts(v@).take(v.len() as int) =~= texts(v@));
    r
}

/// Queues `id` at the end unless it is already queued.
pub fn include_design(q: &mut Vec<String>, id: &str)
    ensures
        texts(final(q)@) == spec_include(texts(old(q)@), id@),
{
    if !contains_text(q, id) {
        let s = id.to_owned();
        proof {
            lemma_texts_push(q@, s);
        }
        q.push(s);
    }
}

/// Takes `id` out of the queue; when that would leave the queue empty,
/// `id` is queued alone.
pub fn exclude_design(q: &mut Vec<String>, id: &str)
    ensures
        texts(final(q)@) == spec_exclude(texts(old(q)@), id@),
{
    let ghost src = texts(q@);
    let mut kept: Vec<String> = Vec::new();
    let mut i: usize = 0;
    assert(src.take(0) =~= Seq::<Seq<char>>::empty());
    while i < q.len()
        invariant
            0 <= i <= q.len(),
            src == texts(q@),
            texts(kept@) == remove_all(src.take(i as int), id@),
        decreases q.len() - i,
    {
        proof {
            assert(src.take(i + 1).drop_last() =~= src.take(i as int));
            assert(src.take(i + 1).last() == q@[i as int]@);
        }
        if !same_text(q[i].as_str(), id) {
            let s = q[i].clone();
            proof {
                lemma_texts_push(kept@, s);
            }
            kept.push(s);
        }
        i = i + 1;
    }
    assert(src.take(q.len() as int) =~= src);
    if kept.len() == 0 {
        let s = id.to_owned();
        proof {
            lemma_texts_push(kept@, s);
            assert(texts(kept@).push(s@) =~= seq![id@]);
        }
        kept.push(s);
    }
    *q = kept;
}

/// Exchanges the entries at `i` and `i + 1`.
pub fn swap_adjacent(q: &mut Vec<String>, i: usize)
    requires
        i + 1 < old(q).len(),
    ensures
        texts(final(q)@) == spec_swap(texts(old(q)@), i as int, i + 1),
{
    let ghost before = texts(q@);
    let moved = q.remove(i + 1);
    q.insert(i, moved);
    assert(texts(q@) =~= spec_swap(before, i as int, i + 1));
}

/// Where `id` stands in the queue; 0 when it is not queued.
pub fn position_of(q: &Vec<String>, id: &str) -> (p: usize)
    ensures
        p as int == position_or_zero(texts(q@), id@),
{
    let ghost t = texts(q@);
    let mut i: usize = 0;
    while i < q.len()
        invariant
            0 <= i <= q.len(),
            t == texts(q@),
            forall|k: int| 0 <= k < i ==> t[k] != id@,
        decreases q.len() - i,
    {
        if same_text(q[i].as_str(), id) {
            proof {
                lemma_first_index_of(t, id@, i as int);
            }
            return i;
        }
        i = i + 1;
    }
    proof {
        if t.contains(id@) {
            let k = choose|k: int| 0 <= k < t.len() && t[k] == id@;
            assert(t[k] != id@);
        }
    }
    0
}

/// The first index of `id` is the first position that holds it.
pub proof fn lemma_first_index_of(q: Seq<Seq<char>>, id: Seq<char>, i: int)
    requires
        0 <= i < q.len(),
        q[i] == id,
        forall|k: int| 0 <= k < i ==> q[k] != id,
    ensures
        first_index_of(q, id) == i,
        q.contains(id),
    decreases i,
{
    if i > 0 {
        assert(q[0] != id);
        lemma_first_index_of(q.drop_first(), id, i - 1);
    }
}

} // verus!
