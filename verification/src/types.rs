//! The descriptions of types as they are written in source text.
//!
//! The code that the derive generates asks for the description of each field's type
//! through that type's `Introspect` implementation. Given a type as written (its name
//! and its type arguments), [`describe_type`] finds the description that those
//! implementations give: the built-in ones of [`crate::introspect`], and those of the
//! user types already described.
use std::collections::{BTreeMap, BTreeSet};

use vstd::prelude::*;

use crate::derive::is_word;
use crate::introspect::{
    fixed_int, fixed_int_metadata, option_metadata, option_of, result_metadata, result_of,
    vec_metadata, vec_of, Introspect,
};
use crate::metadata::{MetaSpec, Metadata};

verus! {

/// A type as written: the name of its last path segment and its type arguments
/// (`Option<Vec<u8>>` is `Option` applied to `Vec` applied to `u8`).
pub struct TypeExpr {
    pub name: String,
    pub args: Vec<TypeExpr>,
}

/// A user type whose description is known.
pub struct KnownType {
    pub name: String,
    pub metadata: Metadata,
}

/// The value of an optional description.
pub open spec fn opt_meta_view(m: Option<Metadata>) -> Option<MetaSpec> {
    match m {
        Some(d) => Some(d@),
        None => None,
    }
}

/// `n` names one of the integer types, each described as a fixed-width integer.
pub open spec fn is_int_name(n: Seq<char>) -> bool {
    ||| n == "u8"@
    ||| n == "u16"@
    ||| n == "u32"@
    ||| n == "u64"@
    ||| n == "u128"@
    ||| n == "i8"@
    ||| n == "i16"@
    ||| n == "i32"@
    ||| n == "i64"@
    ||| n == "i128"@
}

/// The description of the user type named `n`: that of the last entry of `known` with
/// this name, if there is one.
pub open spec fn known_lookup(known: Seq<KnownType>, n: Seq<char>) -> Option<MetaSpec>
    decreases known.len(),
{
    if known.len() == 0 {
        None
    } else if known.last().name@ == n {
        Some(known.last().metadata@)
    } else {
        known_lookup(known.drop_last(), n)
    }
}

/// The description of the type `t`, as its `Introspect` implementation gives it:
/// `String`, `bool` and the integers as themselves; `Vec` and `BTreeSet` as a container
/// of their argument; `Option` as an optional argument; `Box` as its argument; `Result`
/// by its two arguments; `BTreeMap`, whose two arguments must be described, as a string;
/// any other name as the user type described under it. None where an argument is
/// missing or has no description, or where the name is unknown.
pub open spec fn spec_describe(t: TypeExpr, known: Seq<KnownType>) -> Option<MetaSpec>
    decreases t,
{
    let n = t.name@;
    if n == "String"@ {
        Some(MetaSpec::String)
    } else if n == "bool"@ {
        Some(MetaSpec::Bool)
    } else if is_int_name(n) {
        Some(fixed_int())
    } else if n == "Vec"@ || n == "BTreeSet"@ || n == "Option"@ || n == "Box"@ {
        if t.args@.len() == 0 {
            None
        } else {
            proof {
                broadcast use vstd::std_specs::vec::axiom_vec_decreases_to_view;
                assert(decreases_to!(t.args => t.args@));
            }
            match spec_describe(t.args@[0], known) {
                None => None,
                Some(m) => Some(
                    if n == "Option"@ {
                        option_of(m)
                    } else if n == "Box"@ {
                        m
                    } else {
                        vec_of(m)
                    },
                ),
            }
        }
    } else if n == "Result"@ || n == "BTreeMap"@ {
        if t.args@.len() < 2 {
            None
        } else {
            proof {
                broadcast use vstd::std_specs::vec::axiom_vec_decreases_to_view;
                assert(decreases_to!(t.args => t.args@));
            }
            match (spec_describe(t.args@[0], known), spec_describe(t.args@[1], known)) {
                (Some(a), Some(b)) => Some(
                    if n == "Result"@ {
                        result_of(a, b)
                    } else {
                        MetaSpec::String
                    },
                ),
                _ => None,
            }
        }
    } else {
        known_lookup(known, n)
    }
}

/// Finds the description of the user type named `name` among `known`; the last entry
/// under that name wins.
pub fn lookup_known(known: &Vec<KnownType>, name: &String) -> (r: Option<Metadata>)
    ensures
        opt_meta_view(r) == known_lookup(known@, name@),
{
    let mut i: usize = known.len();
    assert(known@.take(i as int) =~= known@);
    while i > 0
        invariant
            i <= known@.len(),
            known_lookup(known@, name@) == known_lookup(known@.take(i as int), name@),
        decreases i,
    {
        let k = &known[i - 1];
        assert(known@.take(i as int).drop_last() =~= known@.take(i - 1));
        assert(known@.take(i as int).last() == known@[i - 1]);
        if *name == k.name {
            return Some(k.metadata.deep_copy());
        }
        i = i - 1;
    }
    assert(known@.take(0).len() == 0);
    None
}

/// `name` names one of the integer types.
fn is_int_type(name: &String) -> (r: bool)
    ensures
        r == is_int_name(name@),
{
    is_word(name, "u8") || is_word(name, "u16") || is_word(name, "u32") || is_word(name, "u64")
        || is_word(name, "u128") || is_word(name, "i8") || is_word(name, "i16") || is_word(
        name,
        "i32",
    ) || is_word(name, "i64") || is_word(name, "i128")
}

/// Computes the description of the type `t`, or none where it has none.
pub fn describe_type(t: &TypeExpr, known: &Vec<KnownType>) -> (r: Option<Metadata>)
    ensures
        opt_meta_view(r) == spec_describe(*t, known@),
    decreases t,
{
    let n = &t.name;
    if is_word(n, "String") {
        Some(Metadata::String)
    } else if is_word(n, "bool") {
        Some(Metadata::Bool)
    } else if is_int_type(n) {
        Some(fixed_int_metadata())
    } else if is_word(n, "Vec") || is_word(n, "BTreeSet") || is_word(n, "Option") || is_word(
        n,
        "Box",
    ) {
        if t.args.len() == 0 {
            None
        } else {
            proof {
                broadcast use vstd::std_specs::vec::axiom_vec_decreases_to_view;
                assert(decreases_to!(t.args => t.args@));
            }
            match describe_type(&t.args[0], known) {
                None => None,
                Some(m) => {
                    if is_word(n, "Option") {
                        Some(option_metadata(m))
                    } else if is_word(n, "Box") {
                        Some(m)
                    } else {
                        Some(vec_metadata(m))
                    }
                },
            }
        }
    } else if is_word(n, "Result") || is_word(n, "BTreeMap") {
        if t.args.len() < 2 {
            None
        } else {
            proof {
                broadcast use vstd::std_specs::vec::axiom_vec_decreases_to_view;
                assert(decreases_to!(t.args => t.args@));
            }
            let a = describe_type(&t.args[0], known);
            let b = describe_type(&t.args[1], known);
            match (a, b) {
                (Some(a), Some(b)) => {
                    if is_word(n, "Result") {
                        Some(result_metadata(a, b))
                    } else {
                        Some(Metadata::String)
                    }
                },
                _ => None,
            }
        }
    } else {
        lookup_known(known, n)
    }
}

/// The characters of the names of the built-in types, which tell them apart.
proof fn lemma_builtin_names()
    ensures
        "String"@.len() == 6,
        "String"@[0] == 'S',
        "String"@[1] == 't',
        "String"@[2] == 'r',
        "String"@[3] == 'i',
        "String"@[4] == 'n',
        "String"@[5] == 'g',
        "bool"@.len() == 4,
        "bool"@[0] == 'b',
        "bool"@[1] == 'o',
        "bool"@[2] == 'o',
        "bool"@[3] == 'l',
        "u8"@.len() == 2,
        "u8"@[0] == 'u',
        "u8"@[1] == '8',
        "u16"@.len() == 3,
        "u16"@[0] == 'u',
        "u16"@[1] == '1',
        "u16"@[2] == '6',
        "u32"@.len() == 3,
        "u32"@[0] == 'u',
        "u32"@[1] == '3',
        "u32"@[2] == '2',
        "u64"@.len() == 3,
        "u64"@[0] == 'u',
        "u64"@[1] == '6',
        "u64"@[2] == '4',
        "u128"@.len() == 4,
        "u128"@[0] == 'u',
        "u128"@[1] == '1',
        "u128"@[2] == '2',
        "u128"@[3] == '8',
        "i8"@.len() == 2,
        "i8"@[0] == 'i',
        "i8"@[1] == '8',
        "i16"@.len() == 3,
        "i16"@[0] == 'i',
        "i16"@[1] == '1',
        "i16"@[2] == '6',
        "i32"@.len() == 3,
        "i32"@[0] == 'i',
        "i32"@[1] == '3',
        "i32"@[2] == '2',
        "i64"@.len() == 3,
        "i64"@[0] == 'i',
        "i64"@[1] == '6',
        "i64"@[2] == '4',
        "i128"@.len() == 4,
        "i128"@[0] == 'i',
        "i128"@[1] == '1',
        "i128"@[2] == '2',
        "i128"@[3] == '8',
        "Vec"@.len() == 3,
        "Vec"@[0] == 'V',
        "Vec"@[1] == 'e',
        "Vec"@[2] == 'c',
        "BTreeSet"@.len() == 8,
        "BTreeSet"@[0] == 'B',
        "BTreeSet"@[1] == 'T',
        "BTreeSet"@[2] == 'r',
        "BTreeSet"@[3] == 'e',
        "BTreeSet"@[4] == 'e',
        "BTreeSet"@[5] == 'S',
        "BTreeSet"@[6] == 'e',
        "BTreeSet"@[7] == 't',
        "Option"@.len() == 6,
        "Option"@[0] == 'O',
        "Option"@[1] == 'p',
        "Option"@[2] == 't',
        "Option"@[3] == 'i',
        "Option"@[4] == 'o',
        "Option"@[5] == 'n',
        "Box"@.len() == 3,
        "Box"@[0] == 'B',
        "Box"@[1] == 'o',
        "Box"@[2] == 'x',
        "Result"@.len() == 6,
        "Result"@[0] == 'R',
        "Result"@[1] == 'e',
        "Result"@[2] == 's',
        "Result"@[3] == 'u',
        "Result"@[4] == 'l',
        "Result"@[5] == 't',
        "BTreeMap"@.len() == 8,
        "BTreeMap"@[0] == 'B',
        "BTreeMap"@[1] == 'T',
        "BTreeMap"@[2] == 'r',
        "BTreeMap"@[3] == 'e',
        "BTreeMap"@[4] == 'e',
        "BTreeMap"@[5] == 'M',
        "BTreeMap"@[6] == 'a',
        "BTreeMap"@[7] == 'p',
{
    reveal_strlit("String");
    reveal_strlit("bool");
    reveal_strlit("u8");
    reveal_strlit("u16");
    reveal_strlit("u32");
    reveal_strlit("u64");
    reveal_strlit("u128");
    reveal_strlit("i8");
    reveal_strlit("i16");
    reveal_strlit("i32");
    reveal_strlit("i64");
    reveal_strlit("i128");
    reveal_strlit("Vec");
    reveal_strlit("BTreeSet");
    reveal_strlit("Option");
    reveal_strlit("Box");
    reveal_strlit("Result");
    reveal_strlit("BTreeMap");
}

/// A type written as the name of `String`, `bool` or an integer type is described as that
/// type's `Introspect` implementation describes it, whatever its arguments and whatever
/// user types are known.
pub proof fn law_describe_named_builtins(t: TypeExpr, known: Seq<KnownType>)
    ensures
        t.name@ == "String"@ ==> spec_describe(t, known)
            == Some(<String as Introspect>::spec_introspect()),
        t.name@ == "bool"@ ==> spec_describe(t, known)
            == Some(<bool as Introspect>::spec_introspect()),
        t.name@ == "u8"@ ==> spec_describe(t, known) == Some(<u8 as Introspect>::spec_introspect()),
        t.name@ == "u16"@ ==> spec_describe(t, known)
            == Some(<u16 as Introspect>::spec_introspect()),
        t.name@ == "u32"@ ==> spec_describe(t, known)
            == Some(<u32 as Introspect>::spec_introspect()),
        t.name@ == "u64"@ ==> spec_describe(t, known)
            == Some(<u64 as Introspect>::spec_introspect()),
        t.name@ == "u128"@ ==> spec_describe(t, known)
            == Some(<u128 as Introspect>::spec_introspect()),
        t.name@ == "i8"@ ==> spec_describe(t, known) == Some(<i8 as Introspect>::spec_introspect()),
        t.name@ == "i16"@ ==> spec_describe(t, known)
            == Some(<i16 as Introspect>::spec_introspect()),
        t.name@ == "i32"@ ==> spec_describe(t, known)
            == Some(<i32 as Introspect>::spec_introspect()),
        t.name@ == "i64"@ ==> spec_describe(t, known)
            == Some(<i64 as Introspect>::spec_introspect()),
        t.name@ == "i128"@ ==> spec_describe(t, known)
            == Some(<i128 as Introspect>::spec_introspect()),
{
    lemma_builtin_names();
}

/// A container written with an argument that is described as the type `T` is described
/// as the container of `T`, as the container's `Introspect` implementation describes it:
/// `Vec<T>` and `BTreeSet<T>` as a vector of `T`, `Option<T>` as an optional `T`, `Box<T>`
/// as `T` itself.
pub proof fn law_describe_one_argument<T: Introspect>(t: TypeExpr, known: Seq<KnownType>)
    requires
        t.args@.len() >= 1,
        spec_describe(t.args@[0], known) == Some(T::spec_introspect()),
    ensures
        t.name@ == "Vec"@ ==> spec_describe(t, known) == Some(
            <Vec<T> as Introspect>::spec_introspect(),
        ),
        t.name@ == "BTreeSet"@ ==> spec_describe(t, known) == Some(
            <BTreeSet<T> as Introspect>::spec_introspect(),
        ),
        t.name@ == "Option"@ ==> spec_describe(t, known) == Some(
            <Option<T> as Introspect>::spec_introspect(),
        ),
        t.name@ == "Box"@ ==> spec_describe(t, known) == Some(
            <Box<T> as Introspect>::spec_introspect(),
        ),
{
    lemma_builtin_names();
}

/// A type written with two arguments described as `T` and `E` is described, when it is
/// `Result`, as `Result<T, E>` (success type first), and when it is `BTreeMap`, as
/// `BTreeMap<T, E>`, as their `Introspect` implementations describe them.
pub proof fn law_describe_two_arguments<T: Introspect, E: Introspect>(
    t: TypeExpr,
    known: Seq<KnownType>,
)
    requires
        t.args@.len() >= 2,
        spec_describe(t.args@[0], known) == Some(T::spec_introspect()),
        spec_describe(t.args@[1], known) == Some(E::spec_introspect()),
    ensures
        t.name@ == "Result"@ ==> spec_describe(t, known) == Some(
            <Result<T, E> as Introspect>::spec_introspect(),
        ),
        t.name@ == "BTreeMap"@ ==> spec_describe(t, known) == Some(
            <BTreeMap<T, E> as Introspect>::spec_introspect(),
        ),
{
    lemma_builtin_names();
}

/// A container written without the argument it needs has no description.
pub proof fn law_describe_missing_argument(t: TypeExpr, known: Seq<KnownType>)
    requires
        t.args@.len() == 0,
    ensures
        t.name@ == "Vec"@ || t.name@ == "BTreeSet"@ || t.name@ == "Option"@ || t.name@ == "Box"@
            || t.name@ == "Result"@ || t.name@ == "BTreeMap"@ ==> spec_describe(t, known) is None,
{
    lemma_builtin_names();
}

/// A user type is described as it was last recorded: a type written as the name of the
/// last known user type, which is not the name of a built-in type, is described as that
/// user type's recorded description.
pub proof fn law_describe_user_type(t: TypeExpr, known: Seq<KnownType>)
    requires
        known.len() > 0,
        t.name@ == known.last().name@,
        !(t.name@ == "String"@
            || t.name@ == "bool"@
            || t.name@ == "u8"@
            || t.name@ == "u16"@
            || t.name@ == "u32"@
            || t.name@ == "u64"@
            || t.name@ == "u128"@
            || t.name@ == "i8"@
            || t.name@ == "i16"@
            || t.name@ == "i32"@
            || t.name@ == "i64"@
            || t.name@ == "i128"@
            || t.name@ == "Vec"@
            || t.name@ == "BTreeSet"@
            || t.name@ == "Option"@
            || t.name@ == "Box"@
            || t.name@ == "Result"@
            || t.name@ == "BTreeMap"@),
    ensures
        spec_describe(t, known) == Some(known.last().metadata@),
{
}

} // verus!
