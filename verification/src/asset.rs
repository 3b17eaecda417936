//! Choosing the default asset archive from the command line: the argument
//! after the first "-d", or "todo" where there is none.
use vstd::prelude::*;

use crate::big_buffer::strings_view;
use crate::g_game::first_position_of;
use crate::text_util::str_eq;

verus! {

/// The name of the default asset archive for the arguments `args`.
pub open spec fn default_archive(args: Seq<Seq<char>>) -> Seq<char> {
    match first_position_of(args, "-d"@) {
        Some(i) => if i + 1 < args.len() {
            args[i + 1]
        } else {
            "todo"@
        },
        None => "todo"@,
    }
}

/// The first position of a name is where it first occurs: the name is
/// there, and at no earlier position; where it has no first position, it
/// occurs nowhere.
pub proof fn lemma_first_position_found(names: Seq<Seq<char>>, s: Seq<char>)
    ensures
        first_position_of(names, s) matches Some(i) ==> 0 <= i < names.len() && names[i] == s,
        first_position_of(names, s) is None ==> !names.contains(s),
        forall|j: int|
            0 <= j < names.len() && names[j] == s ==> (first_position_of(names, s) matches Some(i)
                && i <= j),
    decreases names.len(),
{
    if names.len() > 0 {
        lemma_first_position_found(names.drop_first(), s);
        if names[0] != s {
            assert forall|j: int| 0 <= j < names.len() && names[j] == s implies (first_position_of(
                names,
                s,
            ) matches Some(i) && i <= j) by {
                assert(names.drop_first()[j - 1] == names[j]);
            }
            if first_position_of(names, s) is None {
                assert forall|j: int| 0 <= j < names.len() implies names[j] != s by {
                    if j > 0 {
                        assert(names.drop_first()[j - 1] == names[j]);
                    }
                }
            }
        }
    }
}

/// The name of the default asset archive: the argument after the first
/// "-d"; "todo" where "-d" is missing or is the last argument.
pub fn default_filename(args: &Vec<String>) -> (res: String)
    ensures
        res@ == default_archive(strings_view(args@)),
{
    let ghost names = strings_view(args@);
    proof {
        lemma_first_position_found(names, "-d"@);
    }
    let n = args.len();
    let mut i: usize = 0;
    while i < n
        invariant
            names == strings_view(args@),
            n == names.len(),
            i <= n,
            forall|j: int| 0 <= j < i ==> names[j] != "-d"@,
            first_position_of(names, "-d"@) matches Some(k) ==> i <= k && 0 <= k < n && names[k]
                == "-d"@,
            forall|j: int|
                0 <= j < names.len() && names[j] == "-d"@ ==> (first_position_of(
                    names,
                    "-d"@,
                ) matches Some(k) && k <= j),
        decreases n - i,
    {
        if str_eq(args[i].as_str(), "-d") {
            assert(names[i as int] == "-d"@);
            if i + 1 < n {
                return args[i + 1].clone();
            } else {
                return String::from_str("todo");
            }
        }
        i = i + 1;
    }
    String::from_str("todo")
}

/// The default archive is the argument right after the first "-d": where
/// "-d" occurs at `i` and nowhere before, and an argument follows it, that
/// argument; "todo" where "-d" is missing or last.
pub proof fn lemma_default_archive(args: Seq<Seq<char>>)
    ensures
        forall|i: int|
            0 <= i < args.len() && #[trigger] args[i] == "-d"@ && (forall|j: int| 0 <= j < i ==> args[j] != "-d"@)
                ==> default_archive(args) == if i + 1 < args.len() {
                args[i + 1]
            } else {
                "todo"@
            },
        !args.contains("-d"@) ==> default_archive(args) == "todo"@,
{
    lemma_first_position_found(args, "-d"@);
    assert forall|i: int|
        0 <= i < args.len() && #[trigger] args[i] == "-d"@ && (forall|j: int| 0 <= j < i ==> args[j] != "-d"@)
            implies default_archive(args) == if i + 1 < args.len() {
            args[i + 1]
        } else {
            "todo"@
        } by {
        let k = first_position_of(args, "-d"@)->0;
        assert(k <= i);
        if k < i {
            assert(args[k] == "-d"@);
        }
    }
}

} // verus!
