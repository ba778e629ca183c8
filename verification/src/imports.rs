//! The imports of a declaration: what the declaration itself needs, and what
//! a reference to each type in its signatures needs.

use crate::code_type::strategy_for;
use crate::interface::{type_views, Type, TypeView};
use crate::oracle::KotlinLanguageOracle;
use crate::text::text_views;
use vstd::prelude::*;
use vstd::string::*;

verus! {

/// What a reference to a type imports; nothing where its strategy names no import.
pub open spec fn imports_of(type_: TypeView) -> Seq<Seq<char>> {
    match strategy_for(type_).import_code() {
        Some(imports) => imports,
        None => Seq::empty(),
    }
}

/// What references to the given types import: the imports of each type, in
/// the order of the types. An import that two types need is listed twice.
pub open spec fn referenced_imports(types: Seq<TypeView>) -> Seq<Seq<char>>
    decreases types.len(),
{
    if types.len() == 0 {
        Seq::empty()
    } else {
        referenced_imports(types.drop_last()) + imports_of(types.last())
    }
}

/// Appends copies of `more` to `list`.
pub fn append_texts(list: &mut Vec<String>, more: &Vec<String>)
    ensures
        text_views(final(list)@) == text_views(old(list)@) + text_views(more@),
{
    let ghost before = text_views(list@);
    let mut i: usize = 0;
    while i < more.len()
        invariant
            i <= more.len(),
            text_views(list@) == before + text_views(more@).take(i as int),
        decreases more.len() - i,
    {
        let ghost earlier = list@;
        list.push(more[i].clone());
        assert(text_views(list@) =~= text_views(earlier).push(more@[i as int]@));
        assert(text_views(more@).take(i + 1) =~= text_views(more@).take(i as int).push(
            more@[i as int]@,
        ));
        assert(before + text_views(more@).take(i as int).push(more@[i as int]@) =~= (before
            + text_views(more@).take(i as int)).push(more@[i as int]@));
        i += 1;
    }
    assert(text_views(more@).take(more.len() as int) =~= text_views(more@));
}

/// Collects what references to the given types import.
pub fn collect_imports(types: &Vec<Type>, oracle: &KotlinLanguageOracle) -> (r: Vec<String>)
    ensures
        text_views(r@) == referenced_imports(type_views(types@)),
{
    let mut r: Vec<String> = Vec::new();
    let mut i: usize = 0;
    assert(text_views(r@) =~= Seq::<Seq<char>>::empty());
    assert(type_views(types@).take(0).len() == 0);
    while i < types.len()
        invariant
            i <= types.len(),
            text_views(r@) == referenced_imports(type_views(types@).take(i as int)),
        decreases types.len() - i,
    {
        let ghost done = type_views(types@).take(i as int);
        let ghost next = type_views(types@).take(i + 1);
        assert(next.drop_last() =~= done);
        assert(next.last() == types@[i as int]@);
        match oracle.find(&types[i]).import_code(oracle) {
            Some(imports) => {
                append_texts(&mut r, &imports);
            },
            None => {
                assert(text_views(r@) + Seq::<Seq<char>>::empty() =~= text_views(r@));
            },
        }
        i += 1;
    }
    assert(type_views(types@).take(types.len() as int) =~= type_views(types@));
    r
}

} // verus!
