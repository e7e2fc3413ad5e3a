//! Finding the `Authorization` header among the headers of a request.

use vstd::prelude::*;
use vstd::string::*;

verus! {

/// The header's name in small letters.
pub open spec fn small_name() -> Seq<char> {
    seq!['a', 'u', 't', 'h', 'o', 'r', 'i', 'z', 'a', 't', 'i', 'o', 'n']
}

/// The header's name in capital letters.
pub open spec fn capital_name() -> Seq<char> {
    seq!['A', 'U', 'T', 'H', 'O', 'R', 'I', 'Z', 'A', 'T', 'I', 'O', 'N']
}

/// `name` spells `Authorization`, each letter small or capital.
pub open spec fn names_authorization(name: Seq<char>) -> bool {
    &&& name.len() == small_name().len()
    &&& forall|i: int|
        0 <= i < name.len() ==> name[i] == small_name()[i] || name[i] == capital_name()[i]
}

/// `at` is the place of the first header in `headers` that is named
/// `Authorization`.
pub open spec fn first_authorization(headers: Seq<(String, String)>, at: int) -> bool {
    &&& 0 <= at < headers.len()
    &&& names_authorization(headers[at].0@)
    &&& forall|j: int| 0 <= j < at ==> !names_authorization(#[trigger] headers[j].0@)
}

/// The value of the first header named `Authorization`, if there is one.
pub open spec fn authorization_of(headers: Seq<(String, String)>) -> Option<Seq<char>> {
    if exists|at: int| first_authorization(headers, at) {
        Some(headers[choose|at: int| first_authorization(headers, at)].1@)
    } else {
        None
    }
}

/// Whether a header name is `Authorization`, whatever the case of its letters.
pub fn is_authorization(name: &str) -> (yes: bool)
    ensures
        yes == names_authorization(name@),
{
    let small = "authorization";
    let capital = "AUTHORIZATION";
    proof {
        reveal_strlit("authorization");
        reveal_strlit("AUTHORIZATION");
        assert(small@ =~= small_name());
        assert(capital@ =~= capital_name());
    }
    if name.unicode_len() != 13 {
        return false;
    }
    let mut i: usize = 0;
    while i < 13
        invariant
            i <= 13 == name@.len(),
            small@ == small_name(),
            capital@ == capital_name(),
            forall|j: int| 0 <= j < i ==> name@[j] == small_name()[j] || name@[j] == capital_name()[j],
        decreases 13 - i,
    {
        let c = name.get_char(i);
        if c != small.get_char(i) && c != capital.get_char(i) {
            return false;
        }
        i += 1;
    }
    true
}

/// Looks up the `Authorization` header of a request: the value of the
/// first header of that name, the case of its letters set aside.
pub fn find_authorization(headers: &Vec<(String, String)>) -> (value: Option<&str>)
    ensures
        match authorization_of(headers@) {
            Some(v) => value matches Some(x) && x@ == v,
            None => value is None,
        },
{
    let mut i: usize = 0;
    while i < headers.len()
        invariant
            i <= headers@.len(),
            forall|j: int| 0 <= j < i ==> !names_authorization(#[trigger] headers@[j].0@),
        decreases headers@.len() - i,
    {
        if is_authorization(headers[i].0.as_str()) {
            proof {
                first_is_unique(headers@, i as int);
            }
            return Some(headers[i].1.as_str());
        }
        i += 1;
    }
    None
}

/// There is at most one first place.
proof fn first_is_unique(headers: Seq<(String, String)>, at: int)
    requires
        first_authorization(headers, at),
    ensures
        authorization_of(headers) == Some(headers[at].1@),
{
    let chosen = choose|k: int| first_authorization(headers, k);
    assert(first_authorization(headers, chosen));
}

} // verus!
