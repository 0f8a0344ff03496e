//! First-match lookup in association vectors, for catalogs keyed by
//! numeric id and by name.

use vstd::prelude::*;

verus! {

/// First value paired with `id`, if any.
pub open spec fn assoc_id_s<V>(s: Seq<(u64, V)>, id: u64) -> Option<V>
    decreases s.len(),
{
    if s.len() == 0 {
        Option::None
    } else if s[0].0 == id {
        Option::Some(s[0].1)
    } else {
        assoc_id_s(s.drop_first(), id)
    }
}

/// First value paired with a key whose characters are `name`, if any.
pub open spec fn assoc_name_s<V>(s: Seq<(String, V)>, name: Seq<char>) -> Option<V>
    decreases s.len(),
{
    if s.len() == 0 {
        Option::None
    } else if s[0].0@ == name {
        Option::Some(s[0].1)
    } else {
        assoc_name_s(s.drop_first(), name)
    }
}

proof fn lemma_assoc_id_step<V>(s: Seq<(u64, V)>, id: u64, i: int)
    requires
        0 <= i < s.len(),
        forall|j: int| 0 <= j < i ==> (#[trigger] s[j]).0 != id,
    ensures
        assoc_id_s(s, id) == assoc_id_s(s.subrange(i, s.len() as int), id),
    decreases i,
{
    if i > 0 {
        lemma_assoc_id_step(s.drop_first(), id, i - 1);
        assert(s.drop_first().subrange(i - 1, s.drop_first().len() as int) =~= s.subrange(
            i,
            s.len() as int,
        ));
    } else {
        assert(s.subrange(0, s.len() as int) =~= s);
    }
}

proof fn lemma_assoc_name_step<V>(s: Seq<(String, V)>, name: Seq<char>, i: int)
    requires
        0 <= i < s.len(),
        forall|j: int| 0 <= j < i ==> (#[trigger] s[j]).0@ != name,
    ensures
        assoc_name_s(s, name) == assoc_name_s(s.subrange(i, s.len() as int), name),
    decreases i,
{
    if i > 0 {
        lemma_assoc_name_step(s.drop_first(), name, i - 1);
        assert(s.drop_first().subrange(i - 1, s.drop_first().len() as int) =~= s.subrange(
            i,
            s.len() as int,
        ));
    } else {
        assert(s.subrange(0, s.len() as int) =~= s);
    }
}

/// Whether the id list holds the given id.
pub open spec fn has_id_s(ids: Seq<u64>, id: u64) -> bool {
    exists|i: int| 0 <= i < ids.len() && ids[i] == id
}

/// Whether the id list holds the given id.
pub fn contains_id(ids: &Vec<u64>, id: u64) -> (r: bool)
    ensures
        r == has_id_s(ids@, id),
{
    let mut i: usize = 0;
    while i < ids.len()
        invariant
            i <= ids@.len(),
            forall|j: int| 0 <= j < i ==> ids@[j] != id,
        decreases ids@.len() - i,
    {
        if ids[i] == id {
            return true;
        }
        i = i + 1;
    }
    false
}

/// Look an id up in an id-keyed association vector.
pub fn get_by_id<'a, V>(s: &'a Vec<(u64, V)>, id: u64) -> (r: Option<&'a V>)
    ensures
        match r {
            Option::Some(v) => assoc_id_s(s@, id) == Option::Some(*v),
            Option::None => assoc_id_s(s@, id) is None,
        },
{
    let mut i: usize = 0;
    while i < s.len()
        invariant
            i <= s@.len(),
            forall|j: int| 0 <= j < i ==> (#[trigger] s@[j]).0 != id,
        decreases s@.len() - i,
    {
        if s[i].0 == id {
            proof {
                lemma_assoc_id_step(s@, id, i as int);
                assert(s@.subrange(i as int, s@.len() as int)[0] == s@[i as int]);
            }
            return Option::Some(&s[i].1);
        }
        i = i + 1;
    }
    proof {
        lemma_assoc_id_none(s@, id);
    }
    Option::None
}

proof fn lemma_assoc_id_none<V>(s: Seq<(u64, V)>, id: u64)
    requires
        forall|j: int| 0 <= j < s.len() ==> (#[trigger] s[j]).0 != id,
    ensures
        assoc_id_s(s, id) is None,
    decreases s.len(),
{
    if s.len() > 0 {
        lemma_assoc_id_none(s.drop_first(), id);
    }
}

proof fn lemma_assoc_name_none<V>(s: Seq<(String, V)>, name: Seq<char>)
    requires
        forall|j: int| 0 <= j < s.len() ==> (#[trigger] s[j]).0@ != name,
    ensures
        assoc_name_s(s, name) is None,
    decreases s.len(),
{
    if s.len() > 0 {
        lemma_assoc_name_none(s.drop_first(), name);
    }
}

/// Look a name up in a name-keyed association vector.
pub fn get_by_name<'a, V>(s: &'a Vec<(String, V)>, name: &String) -> (r: Option<&'a V>)
    ensures
        match r {
            Option::Some(v) => assoc_name_s(s@, name@) == Option::Some(*v),
            Option::None => assoc_name_s(s@, name@) is None,
        },
{
    let mut i: usize = 0;
    while i < s.len()
        invariant
            i <= s@.len(),
            forall|j: int| 0 <= j < i ==> (#[trigger] s@[j]).0@ != name@,
        decreases s@.len() - i,
    {
        if s[i].0 == *name {
            proof {
                lemma_assoc_name_step(s@, name@, i as int);
                assert(s@.subrange(i as int, s@.len() as int)[0] == s@[i as int]);
            }
            return Option::Some(&s[i].1);
        }
        i = i + 1;
    }
    proof {
        lemma_assoc_name_none(s@, name@);
    }
    Option::None
}

} // verus!
