//! Identifier conventions: the case conversions that the generated Kotlin
//! uses, and the renaming of failure types.

use heck::{CamelCase, MixedCase, ShoutySnakeCase};
use vstd::prelude::*;
use vstd::string::*;

verus! {

/// The name in `CamelCase`, as the `heck` crate converts it.
pub uninterp spec fn camel_case(name: Seq<char>) -> Seq<char>;

/// The name in `mixedCase`, as the `heck` crate converts it.
pub uninterp spec fn mixed_case(name: Seq<char>) -> Seq<char>;

/// The name in `SHOUTY_SNAKE_CASE`, as the `heck` crate converts it.
pub uninterp spec fn shouty_snake_case(name: Seq<char>) -> Seq<char>;

/// Calls `heck::CamelCase::to_camel_case` on a `str`.
///
/// Trusted: the conversion splits the text into words by Unicode's rules and
/// by changes of case, so its result is not written out here. The contract
/// only gives the result the name `camel_case`: it depends on the text alone.
#[verifier::external_body]
pub(crate) fn to_camel_case(name: &str) -> (r: String)
    ensures
        r@ == camel_case(name@),
{
    name.to_camel_case()
}

/// Calls `heck::MixedCase::to_mixed_case` on a `str`.
///
/// Trusted: the contract only gives the result the name `mixed_case`; it
/// depends on the text alone.
#[verifier::external_body]
pub(crate) fn to_mixed_case(name: &str) -> (r: String)
    ensures
        r@ == mixed_case(name@),
{
    name.to_mixed_case()
}

/// Calls `heck::ShoutySnakeCase::to_shouty_snake_case` on a `str`.
///
/// Trusted: the contract only gives the result the name `shouty_snake_case`;
/// it depends on the text alone.
#[verifier::external_body]
pub(crate) fn to_shouty_snake_case(name: &str) -> (r: String)
    ensures
        r@ == shouty_snake_case(name@),
{
    name.to_shouty_snake_case()
}

/// Whether `text` ends with `suffix`.
pub open spec fn ends_with(text: Seq<char>, suffix: Seq<char>) -> bool {
    text.len() >= suffix.len() && text.subrange(text.len() - suffix.len(), text.len() as int)
        == suffix
}

/// The name of the Kotlin exception for a failure type: a trailing `Error`
/// becomes `Exception`, and a name without that ending stays as it is.
pub open spec fn exception_name_text(name: Seq<char>) -> Seq<char> {
    if ends_with(name, "Error"@) {
        name.subrange(0, name.len() - "Error"@.len()) + "Exception"@
    } else {
        name
    }
}

/// Renames a failure type for Kotlin, where `Error` means a failure that
/// cannot be recovered from and a throwable that can be caught is an
/// `Exception`.
pub fn exception_name(name: &str) -> (r: String)
    ensures
        r@ == exception_name_text(name@),
{
    proof {
        reveal_strlit("Error");
    }
    let n = name.unicode_len();
    if n >= 5 && name.get_char(n - 5) == 'E' && name.get_char(n - 4) == 'r' && name.get_char(n - 3)
        == 'r' && name.get_char(n - 2) == 'o' && name.get_char(n - 1) == 'r' {
        assert(name@.subrange(n - 5, n as int) =~= "Error"@);
        let stem = name.substring_char(0, n - 5);
        String::from_str(stem).concat("Exception")
    } else {
        assert(!ends_with(name@, "Error"@)) by {
            if ends_with(name@, "Error"@) {
                let tail = name@.subrange(n - 5, n as int);
                assert(tail[0] == 'E' && tail[1] == 'r' && tail[2] == 'r' && tail[3] == 'o'
                    && tail[4] == 'r');
            }
        }
        String::from_str(name)
    }
}

/// Renaming a failure type twice gives what renaming it once gives: a name
/// that was given the ending `Exception` no longer ends in `Error`, and any
/// other name was left as it is.
pub proof fn lemma_exception_name_idempotent(name: Seq<char>)
    ensures
        exception_name_text(exception_name_text(name)) == exception_name_text(name),
{
    reveal_strlit("Error");
    reveal_strlit("Exception");
    if ends_with(name, "Error"@) {
        let renamed = exception_name_text(name);
        let n = renamed.len() as int;
        assert(renamed[n - 5] == 'p');
        if ends_with(renamed, "Error"@) {
            let tail = renamed.subrange(n - 5, n);
            assert(tail[0] == 'E');
        }
    }
}


} // verus!
