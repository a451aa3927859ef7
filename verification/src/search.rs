//! Finding the first item of a list that fits, and lists of strings taken by
//! their characters.

use vstd::prelude::*;
use vstd::utf8::{encode_utf8, encode_utf8_decode_utf8};
use crate::utils::{is_text, is_text_spec};

verus! {

/// `i` is the first position of `s` whose item satisfies `p`.
pub open spec fn first_at<T>(s: Seq<T>, p: spec_fn(T) -> bool, i: int) -> bool {
    &&& 0 <= i < s.len()
    &&& p(s[i])
    &&& forall|j: int| 0 <= j < i ==> !p(#[trigger] s[j])
}

/// The first position of `s` whose item satisfies `p`, if there is one.
pub open spec fn first_where<T>(s: Seq<T>, p: spec_fn(T) -> bool) -> Option<int> {
    if exists|i: int| first_at(s, p, i) {
        Some(choose|i: int| first_at(s, p, i))
    } else {
        None
    }
}

/// A position that is first is the one `first_where` names.
pub proof fn lemma_first_where_found<T>(s: Seq<T>, p: spec_fn(T) -> bool, i: int)
    requires
        first_at(s, p, i),
    ensures
        first_where(s, p) == Some(i),
{
    let k = choose|k: int| first_at(s, p, k);
    assert(first_at(s, p, k));
    if k < i {
        assert(!p(s[k]));
    }
    if i < k {
        assert(!p(s[i]));
    }
}

/// Where no item satisfies `p`, `first_where` finds nothing.
pub proof fn lemma_first_where_absent<T>(s: Seq<T>, p: spec_fn(T) -> bool)
    requires
        forall|j: int| 0 <= j < s.len() ==> !p(#[trigger] s[j]),
    ensures
        first_where(s, p) is None,
{
    if exists|i: int| first_at(s, p, i) {
        let k = choose|k: int| first_at(s, p, k);
        assert(!p(s[k]));
    }
}

/// What `first_where` finds is a first position, and nothing found means no item satisfies `p`.
pub proof fn lemma_first_where_is_first<T>(s: Seq<T>, p: spec_fn(T) -> bool)
    ensures
        first_where(s, p) matches Some(i) ==> first_at(s, p, i),
        first_where(s, p) is None ==> forall|j: int| 0 <= j < s.len() ==> !p(#[trigger] s[j]),
{
    if first_where(s, p) is None {
        assert forall|j: int| 0 <= j < s.len() implies !p(#[trigger] s[j]) by {
            if p(s[j]) {
                lemma_some_first(s, p, j);
            }
        }
    }
}

/// An item that satisfies `p` at `j` means some position at or before `j` is first.
pub proof fn lemma_some_first<T>(s: Seq<T>, p: spec_fn(T) -> bool, j: int)
    requires
        0 <= j < s.len(),
        p(s[j]),
    ensures
        exists|i: int| first_at(s, p, i) && i <= j,
    decreases j,
{
    if exists|k: int| 0 <= k < j && p(s[k]) {
        let k = choose|k: int| 0 <= k < j && p(s[k]);
        lemma_some_first(s, p, k);
        let i = choose|i: int| first_at(s, p, i) && i <= k;
        assert(first_at(s, p, i) && i <= j);
    } else {
        assert(first_at(s, p, j));
    }
}

/// What `first_where` finds after one more item was appended.
pub proof fn lemma_first_where_push<T>(s: Seq<T>, x: T, p: spec_fn(T) -> bool)
    ensures
        first_where(s.push(x), p) == match first_where(s, p) {
            Some(i) => Some(i),
            None => if p(x) {
                Some(s.len() as int)
            } else {
                None
            },
        },
{
    let t = s.push(x);
    lemma_first_where_is_first(s, p);
    match first_where(s, p) {
        Some(i) => {
            assert(forall|j: int| 0 <= j < i ==> t[j] == s[j]);
            assert(t[i] == s[i]);
            assert(first_at(t, p, i));
            lemma_first_where_found(t, p, i);
        },
        None => {
            assert(forall|j: int| 0 <= j < s.len() ==> t[j] == s[j]);
            if p(x) {
                assert(first_at(t, p, s.len() as int));
                lemma_first_where_found(t, p, s.len() as int);
            } else {
                lemma_first_where_absent(t, p);
            }
        },
    }
}

/// Compares two strings character by character.
pub fn same_text(a: &str, b: &str) -> (r: bool)
    ensures
        r == (a@ == b@),
{
    let x = a.as_bytes();
    let y = b.as_bytes();
    proof {
        encode_utf8_decode_utf8(a@);
        encode_utf8_decode_utf8(b@);
    }
    if x.len() != y.len() {
        return false;
    }
    let mut i: usize = 0;
    while i < x.len()
        invariant
            x@ == encode_utf8(a@),
            y@ == encode_utf8(b@),
            x@.len() == y@.len(),
            i <= x@.len(),
            forall|j: int| 0 <= j < i ==> x@[j] == y@[j],
        decreases x.len() - i,
    {
        if x[i] != y[i] {
            return false;
        }
        i += 1;
    }
    assert(x@ =~= y@);
    true
}

/// The strings of a list, each as its characters.
pub open spec fn texts(list: Seq<String>) -> Seq<Seq<char>> {
    Seq::new(list.len(), |i: int| list[i]@)
}

/// The strings equal to `key`.
pub open spec fn is_key(key: Seq<char>) -> spec_fn(Seq<char>) -> bool {
    |m: Seq<char>| m == key
}

/// The strings that name a plain-text MIME type.
pub open spec fn names_text() -> spec_fn(Seq<char>) -> bool {
    |m: Seq<char>| is_text_spec(m)
}

/// Whether `key` occurs in `list`.
pub open spec fn has_key(list: Seq<Seq<char>>, key: Seq<char>) -> bool {
    first_where(list, is_key(key)) is Some
}

/// Whether no string occurs twice in `list`.
pub open spec fn distinct(list: Seq<Seq<char>>) -> bool {
    forall|i: int, j: int| 0 <= i < j < list.len() ==> list[i] != list[j]
}

/// The first position of `key` in `list`.
pub fn position(list: &Vec<String>, key: &str) -> (r: Option<usize>)
    ensures
        match r {
            Some(i) => first_where(texts(list@), is_key(key@)) == Some(i as int),
            None => first_where(texts(list@), is_key(key@)) is None,
        },
{
    let mut i: usize = 0;
    while i < list.len()
        invariant
            i <= list.len(),
            forall|j: int| 0 <= j < i ==> !is_key(key@)(#[trigger] texts(list@)[j]),
        decreases list.len() - i,
    {
        if same_text(list[i].as_str(), key) {
            proof {
                assert(first_at(texts(list@), is_key(key@), i as int));
                lemma_first_where_found(texts(list@), is_key(key@), i as int);
            }
            return Some(i);
        }
        i += 1;
    }
    proof {
        lemma_first_where_absent(texts(list@), is_key(key@));
    }
    None
}

/// The first position in `list` of a plain-text MIME type.
pub fn first_text(list: &Vec<String>) -> (r: Option<usize>)
    ensures
        match r {
            Some(i) => first_where(texts(list@), names_text()) == Some(i as int),
            None => first_where(texts(list@), names_text()) is None,
        },
{
    let mut i: usize = 0;
    while i < list.len()
        invariant
            i <= list.len(),
            forall|j: int| 0 <= j < i ==> !names_text()(#[trigger] texts(list@)[j]),
        decreases list.len() - i,
    {
        if is_text(list[i].as_str()) {
            proof {
                assert(first_at(texts(list@), names_text(), i as int));
                lemma_first_where_found(texts(list@), names_text(), i as int);
            }
            return Some(i);
        }
        i += 1;
    }
    proof {
        lemma_first_where_absent(texts(list@), names_text());
    }
    None
}

/// A copy of a list of strings.
pub fn clone_texts(list: &Vec<String>) -> (r: Vec<String>)
    ensures
        r@ == list@,
{
    let mut r: Vec<String> = Vec::new();
    let mut i: usize = 0;
    while i < list.len()
        invariant
            i <= list.len(),
            r@ == list@.take(i as int),
        decreases list.len() - i,
    {
        r.push(list[i].clone());
        assert(r@ =~= list@.take(i + 1));
        i += 1;
    }
    assert(list@.take(list@.len() as int) =~= list@);
    r
}

} // verus!
