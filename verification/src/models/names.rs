//! Lists of classnames that hold each name at most once.
use vstd::prelude::*;

verus! {

/// The texts of a list of strings.
pub open spec fn names(v: Seq<String>) -> Seq<Seq<char>> {
    v.map_values(|s: String| s@)
}

/// No text occurs twice.
pub open spec fn no_duplicates(s: Seq<Seq<char>>) -> bool {
    forall|i: int, j: int| 0 <= i < j < s.len() ==> s[i] != s[j]
}

/// `target` after adding each non-empty name of `added`, in order, unless
/// it is already there.
pub open spec fn add_unique_spec(target: Seq<Seq<char>>, added: Seq<Seq<char>>) -> Seq<Seq<char>>
    decreases added.len(),
{
    if added.len() == 0 {
        target
    } else {
        let t = add_unique_spec(target, added.drop_last());
        let c = added.last();
        if c.len() > 0 && !t.contains(c) {
            t.push(c)
        } else {
            t
        }
    }
}

/// The position of the first occurrence of `x` in `s`, if any.
pub open spec fn first_index(s: Seq<Seq<char>>, x: Seq<char>) -> Option<int> {
    if exists|i: int| 0 <= i < s.len() && s[i] == x {
        Some(
            choose|i: int|
                0 <= i < s.len() && s[i] == x && forall|j: int| 0 <= j < i ==> s[j] != x,
        )
    } else {
        None
    }
}

pub proof fn lemma_first_index_exists(s: Seq<Seq<char>>, x: Seq<char>, k: int)
    requires
        0 <= k < s.len(),
        s[k] == x,
        forall|j: int| 0 <= j < k ==> s[j] != x,
    ensures
        first_index(s, x) == Some(k),
{
    assert(exists|i: int| 0 <= i < s.len() && s[i] == x);
    let c = choose|i: int|
        0 <= i < s.len() && s[i] == x && forall|j: int| 0 <= j < i ==> s[j] != x;
    assert(exists|i: int|
        0 <= i < s.len() && s[i] == x && forall|j: int| 0 <= j < i ==> s[j] != x) by {
        assert(0 <= k < s.len() && s[k] == x && forall|j: int| 0 <= j < k ==> s[j] != x);
    }
    if c < k {
        assert(s[c] != x);
    } else if c > k {
        assert(s[k] != x);
    }
}

/// A copy of a list of strings.
pub fn copy_names(v: &Vec<String>) -> (r: Vec<String>)
    ensures
        r@ == v@,
{
    let mut r: Vec<String> = Vec::new();
    let mut i: usize = 0;
    while i < v.len()
        invariant
            i <= v@.len(),
            r@ == v@.take(i as int),
        decreases v@.len() - i,
    {
        r.push(v[i].clone());
        i = i + 1;
        proof {
            assert(r@ =~= v@.take(i as int));
        }
    }
    proof {
        assert(v@.take(i as int) =~= v@);
    }
    r
}

/// Whether `v` holds the text `x`.
pub fn contains_name(v: &Vec<String>, x: &String) -> (r: bool)
    ensures
        r == names(v@).contains(x@),
{
    let mut i: usize = 0;
    while i < v.len()
        invariant
            i <= v@.len(),
            forall|j: int| 0 <= j < i ==> v@[j]@ != x@,
        decreases v@.len() - i,
    {
        if v[i] == *x {
            proof {
                assert(names(v@)[i as int] == x@);
            }
            return true;
        }
        i = i + 1;
    }
    proof {
        if names(v@).contains(x@) {
            let k = choose|k: int| 0 <= k < names(v@).len() && names(v@)[k] == x@;
            assert(v@[k]@ == x@);
        }
    }
    false
}

/// Adds each non-empty classname that `target` does not hold yet, in order.
pub fn add_unique(target: &mut Vec<String>, classnames: Vec<String>)
    ensures
        names(final(target)@) == add_unique_spec(names(old(target)@), names(classnames@)),
{
    let ghost start = names(target@);
    let ghost added = names(classnames@);
    let mut i: usize = 0;
    while i < classnames.len()
        invariant
            i <= classnames@.len(),
            added == names(classnames@),
            names(target@) == add_unique_spec(start, added.take(i as int)),
        decreases classnames@.len() - i,
    {
        let classname = &classnames[i];
        proof {
            assert(added.take(i + 1).drop_last() =~= added.take(i as int));
            assert(added.take(i + 1).last() == classname@);
        }
        let present = contains_name(target, classname);
        if !classname.as_str().is_empty() && !present {
            target.push(classname.clone());
        }
        proof {
            assert(names(target@) =~= add_unique_spec(start, added.take(i + 1)));
        }
        i = i + 1;
    }
    proof {
        assert(added.take(i as int) =~= added);
    }
}


/// Removes the first occurrence of `x`, and gives it back.
pub fn remove_name(v: &mut Vec<String>, x: &str) -> (r: Option<String>)
    ensures
        match first_index(names(old(v)@), x@) {
            Some(i) => r matches Some(s) && s@ == x@ && names(final(v)@) == names(old(v)@).remove(
                i,
            ),
            None => r is None && final(v)@ == old(v)@,
        },
{
    let mut i: usize = 0;
    while i < v.len()
        invariant
            i <= v@.len(),
            v@ == old(v)@,
            forall|j: int| 0 <= j < i ==> v@[j]@ != x@,
        decreases v@.len() - i,
    {
        if crate::text::same_text(v[i].as_str(), x) {
            proof {
                lemma_first_index_exists(names(v@), x@, i as int);
            }
            let removed = v.remove(i);
            proof {
                assert(names(v@) =~= names(old(v)@).remove(i as int));
            }
            return Some(removed);
        }
        i = i + 1;
    }
    proof {
        assert(!(exists|k: int| 0 <= k < names(v@).len() && names(v@)[k] == x@)) by {
            if exists|k: int| 0 <= k < names(v@).len() && names(v@)[k] == x@ {
                let k = choose|k: int| 0 <= k < names(v@).len() && names(v@)[k] == x@;
                assert(v@[k]@ == x@);
            }
        }
    }
    None
}

/// Adding names never drops or reorders what was there: the old list is a
/// prefix of the new one.
pub proof fn lemma_add_unique_prefix(target: Seq<Seq<char>>, added: Seq<Seq<char>>)
    ensures
        add_unique_spec(target, added).len() >= target.len(),
        add_unique_spec(target, added).take(target.len() as int) == target,
    decreases added.len(),
{
    if added.len() > 0 {
        lemma_add_unique_prefix(target, added.drop_last());
        let t = add_unique_spec(target, added.drop_last());
        assert(t.push(added.last()).take(target.len() as int) =~= t.take(target.len() as int));
    }
}

/// A name is in the result exactly when it was in the list already, or it
/// is a non-empty name that was added.
pub proof fn lemma_add_unique_contains(
    target: Seq<Seq<char>>,
    added: Seq<Seq<char>>,
    x: Seq<char>,
)
    ensures
        add_unique_spec(target, added).contains(x) <==> (target.contains(x) || (x.len() > 0
            && added.contains(x))),
    decreases added.len(),
{
    if added.len() > 0 {
        let rest = added.drop_last();
        lemma_add_unique_contains(target, rest, x);
        let t = add_unique_spec(target, rest);
        let c = added.last();
        assert(added =~= rest.push(c));
        assert(added.contains(x) <==> (rest.contains(x) || c == x)) by {
            if added.contains(x) {
                let k = choose|k: int| 0 <= k < added.len() && added[k] == x;
                if k < rest.len() {
                    assert(rest[k] == x);
                }
            }
            if rest.contains(x) {
                let k = choose|k: int| 0 <= k < rest.len() && rest[k] == x;
                assert(added[k] == x);
            }
            if c == x {
                assert(added[added.len() - 1] == x);
            }
        }
        if c.len() > 0 && !t.contains(c) {
            assert(t.push(c).contains(x) <==> (t.contains(x) || c == x)) by {
                if t.push(c).contains(x) {
                    let k = choose|k: int| 0 <= k < t.push(c).len() && t.push(c)[k] == x;
                    if k < t.len() {
                        assert(t[k] == x);
                    }
                }
                if t.contains(x) {
                    let k = choose|k: int| 0 <= k < t.len() && t[k] == x;
                    assert(t.push(c)[k] == x);
                }
                if c == x {
                    assert(t.push(c)[t.len() as int] == x);
                }
            }
        }
    }
}

/// A list without duplicates keeps none after adding names.
pub proof fn lemma_add_unique_no_duplicates(target: Seq<Seq<char>>, added: Seq<Seq<char>>)
    requires
        no_duplicates(target),
    ensures
        no_duplicates(add_unique_spec(target, added)),
    decreases added.len(),
{
    if added.len() > 0 {
        lemma_add_unique_no_duplicates(target, added.drop_last());
        let t = add_unique_spec(target, added.drop_last());
        let c = added.last();
        if c.len() > 0 && !t.contains(c) {
            assert forall|i: int, j: int| 0 <= i < j < t.push(c).len() implies t.push(c)[i]
                != t.push(c)[j] by {
                if j == t.len() {
                    assert(t.push(c)[i] == t[i]);
                    if t[i] == c {
                        assert(t.contains(c));
                    }
                } else {
                    assert(t.push(c)[i] == t[i] && t.push(c)[j] == t[j]);
                }
            }
        }
    }
}

/// Adding names that are all there already changes nothing.
pub proof fn lemma_add_unique_absorbs(target: Seq<Seq<char>>, added: Seq<Seq<char>>)
    requires
        forall|i: int| 0 <= i < added.len() && added[i].len() > 0 ==> target.contains(
            #[trigger] added[i],
        ),
    ensures
        add_unique_spec(target, added) == target,
    decreases added.len(),
{
    if added.len() > 0 {
        let rest = added.drop_last();
        assert forall|i: int| 0 <= i < rest.len() && rest[i].len() > 0 implies target.contains(
            #[trigger] rest[i],
        ) by {
            assert(rest[i] == added[i]);
        }
        lemma_add_unique_absorbs(target, rest);
        let c = added.last();
        assert(c == added[added.len() - 1]);
    }
}

/// Adding the same names twice is the same as adding them once.
pub proof fn lemma_add_unique_idempotent(target: Seq<Seq<char>>, added: Seq<Seq<char>>)
    ensures
        add_unique_spec(add_unique_spec(target, added), added) == add_unique_spec(target, added),
{
    let once = add_unique_spec(target, added);
    assert forall|i: int| 0 <= i < added.len() && added[i].len() > 0 implies once.contains(
        #[trigger] added[i],
    ) by {
        assert(added.contains(added[i]));
        lemma_add_unique_contains(target, added, added[i]);
    }
    lemma_add_unique_absorbs(once, added);
}

} // verus!
