//! Reshaping of indicator results before they are handed back as columns.

use vstd::prelude::*;

verus! {

/// Splits a list of triples into the list of first, second and third parts.
pub fn unzip_triple<T>(data: Vec<(T, T, T)>) -> (r: (Vec<T>, Vec<T>, Vec<T>))
    ensures
        r.0@ == data@.map_values(|t: (T, T, T)| t.0),
        r.1@ == data@.map_values(|t: (T, T, T)| t.1),
        r.2@ == data@.map_values(|t: (T, T, T)| t.2),
{
    let capacity = data.len();
    let mut vec1: Vec<T> = Vec::with_capacity(capacity);
    let mut vec2: Vec<T> = Vec::with_capacity(capacity);
    let mut vec3: Vec<T> = Vec::with_capacity(capacity);
    let ghost all = data@;
    for (a, b, c) in it: data
        invariant
            it.seq() == all,
            vec1@.len() == it.index(),
            vec1@ == all.take(it.index() as int).map_values(|t: (T, T, T)| t.0),
            vec2@ == all.take(it.index() as int).map_values(|t: (T, T, T)| t.1),
            vec3@ == all.take(it.index() as int).map_values(|t: (T, T, T)| t.2),
    {
        proof {
            let i = it.index() as int;
            assert(all.take(i + 1) =~= all.take(i).push(all[i]));
        }
        vec1.push(a);
        vec2.push(b);
        vec3.push(c);
    }
    proof {
        assert(all.take(all.len() as int) =~= all);
    }
    (vec1, vec2, vec3)
}

/// Splits a list of pairs into the list of first parts and the list of second parts.
pub fn unzip_pair<T>(data: Vec<(T, T)>) -> (r: (Vec<T>, Vec<T>))
    ensures
        r.0@ == data@.map_values(|t: (T, T)| t.0),
        r.1@ == data@.map_values(|t: (T, T)| t.1),
{
    let capacity = data.len();
    let mut firsts: Vec<T> = Vec::with_capacity(capacity);
    let mut seconds: Vec<T> = Vec::with_capacity(capacity);
    let ghost all = data@;
    for (a, b) in it: data
        invariant
            it.seq() == all,
            firsts@.len() == it.index(),
            firsts@ == all.take(it.index() as int).map_values(|t: (T, T)| t.0),
            seconds@ == all.take(it.index() as int).map_values(|t: (T, T)| t.1),
    {
        proof {
            let i = it.index() as int;
            assert(all.take(i + 1) =~= all.take(i).push(all[i]));
        }
        firsts.push(a);
        seconds.push(b);
    }
    proof {
        assert(all.take(all.len() as int) =~= all);
    }
    (firsts, seconds)
}

/// Splits a list of quadruples into the lists of their four parts.
pub fn unzip_quad<T>(data: Vec<(T, T, T, T)>) -> (r: (Vec<T>, Vec<T>, Vec<T>, Vec<T>))
    ensures
        r.0@ == data@.map_values(|t: (T, T, T, T)| t.0),
        r.1@ == data@.map_values(|t: (T, T, T, T)| t.1),
        r.2@ == data@.map_values(|t: (T, T, T, T)| t.2),
        r.3@ == data@.map_values(|t: (T, T, T, T)| t.3),
{
    let capacity = data.len();
    let mut v0: Vec<T> = Vec::with_capacity(capacity);
    let mut v1: Vec<T> = Vec::with_capacity(capacity);
    let mut v2: Vec<T> = Vec::with_capacity(capacity);
    let mut v3: Vec<T> = Vec::with_capacity(capacity);
    let ghost all = data@;
    for (a, b, c, d) in it: data
        invariant
            it.seq() == all,
            v0@.len() == it.index(),
            v0@ == all.take(it.index() as int).map_values(|t: (T, T, T, T)| t.0),
            v1@ == all.take(it.index() as int).map_values(|t: (T, T, T, T)| t.1),
            v2@ == all.take(it.index() as int).map_values(|t: (T, T, T, T)| t.2),
            v3@ == all.take(it.index() as int).map_values(|t: (T, T, T, T)| t.3),
    {
        proof {
            let i = it.index() as int;
            assert(all.take(i + 1) =~= all.take(i).push(all[i]));
        }
        v0.push(a);
        v1.push(b);
        v2.push(c);
        v3.push(d);
    }
    proof {
        assert(all.take(all.len() as int) =~= all);
    }
    (v0, v1, v2, v3)
}

/// Splits a list of quintuples into the lists of their five parts.
pub fn unzip_five<T>(data: Vec<(T, T, T, T, T)>) -> (r: (Vec<T>, Vec<T>, Vec<T>, Vec<T>, Vec<T>))
    ensures
        r.0@ == data@.map_values(|t: (T, T, T, T, T)| t.0),
        r.1@ == data@.map_values(|t: (T, T, T, T, T)| t.1),
        r.2@ == data@.map_values(|t: (T, T, T, T, T)| t.2),
        r.3@ == data@.map_values(|t: (T, T, T, T, T)| t.3),
        r.4@ == data@.map_values(|t: (T, T, T, T, T)| t.4),
{
    let capacity = data.len();
    let mut v0: Vec<T> = Vec::with_capacity(capacity);
    let mut v1: Vec<T> = Vec::with_capacity(capacity);
    let mut v2: Vec<T> = Vec::with_capacity(capacity);
    let mut v3: Vec<T> = Vec::with_capacity(capacity);
    let mut v4: Vec<T> = Vec::with_capacity(capacity);
    let ghost all = data@;
    for (a, b, c, d, e) in it: data
        invariant
            it.seq() == all,
            v0@.len() == it.index(),
            v0@ == all.take(it.index() as int).map_values(|t: (T, T, T, T, T)| t.0),
            v1@ == all.take(it.index() as int).map_values(|t: (T, T, T, T, T)| t.1),
            v2@ == all.take(it.index() as int).map_values(|t: (T, T, T, T, T)| t.2),
            v3@ == all.take(it.index() as int).map_values(|t: (T, T, T, T, T)| t.3),
            v4@ == all.take(it.index() as int).map_values(|t: (T, T, T, T, T)| t.4),
    {
        proof {
            let i = it.index() as int;
            assert(all.take(i + 1) =~= all.take(i).push(all[i]));
        }
        v0.push(a);
        v1.push(b);
        v2.push(c);
        v3.push(d);
        v4.push(e);
    }
    proof {
        assert(all.take(all.len() as int) =~= all);
    }
    (v0, v1, v2, v3, v4)
}

/// Putting the parts of a split list back together
pub proof fn law_unzip_triple_rezips<T>(data: Seq<(T, T, T)>)
    ensures
        ({
            let a = data.map_values(|t: (T, T, T)| t.0);
            let b = data.map_values(|t: (T, T, T)| t.1);
            let c = data.map_values(|t: (T, T, T)| t.2);
            Seq::new(data.len(), |i: int| (a[i], b[i], c[i])) == data
        }),
{
    let a = data.map_values(|t: (T, T, T)| t.0);
    let b = data.map_values(|t: (T, T, T)| t.1);
    let c = data.map_values(|t: (T, T, T)| t.2);
    assert(Seq::new(data.len(), |i: int| (a[i], b[i], c[i])) =~= data);
}

/// Putting the two parts of a split list of pairs back together gives the list again.
pub proof fn law_unzip_pair_rezips<T>(data: Seq<(T, T)>)
    ensures
        ({
            let a = data.map_values(|t: (T, T)| t.0);
            let b = data.map_values(|t: (T, T)| t.1);
            Seq::new(data.len(), |i: int| (a[i], b[i])) == data
        }),
{
    let a = data.map_values(|t: (T, T)| t.0);
    let b = data.map_values(|t: (T, T)| t.1);
    assert(Seq::new(data.len(), |i: int| (a[i], b[i])) =~= data);
}

} // verus!
