//! Naming: ASCII lowercasing, the generated symbol name, the `_ptr`/`_len`
//! suffixes of a decomposed slice parameter, and the written names of the
//! scalar types.

use vstd::prelude::*;
use vstd::string::StrSliceExecFns;
use vstd::string::StringExecFns;

use crate::model::ScalarKind;

verus! {

/// A character lowered as ASCII: `'A'` through `'Z'` map to `'a'` through
/// `'z'`, every other character is unchanged.
pub open spec fn lower_char(c: char) -> char {
    if 'A' <= c && c <= 'Z' {
        ((c as u8) + 32) as char
    } else {
        c
    }
}

/// A character sequence lowered as ASCII, character by character.
pub open spec fn lower_of(s: Seq<char>) -> Seq<char> {
    s.map_values(|c: char| lower_char(c))
}

/// Relies on `String::push` of std: appends the given character to the end
/// of the string.
#[verifier::external_body]
fn push_char(s: &mut String, c: char)
    ensures
        final(s)@ == old(s)@.push(c),
{
    s.push(c);
}

/// Builds the ASCII-lowered copy of a string.
pub fn lower_string(s: &String) -> (r: String)
    ensures
        r@ == lower_of(s@),
{
    let st = s.as_str();
    let n = st.unicode_len();
    let mut r = String::new();
    let mut i: usize = 0;
    while i < n
        invariant
            i <= n,
            n == st@.len(),
            st@ == s@,
            r@ == lower_of(s@).take(i as int),
        decreases n - i,
    {
        let c = st.get_char(i);
        let lc: char = if 'A' <= c && c <= 'Z' {
            ((c as u8) + 32) as char
        } else {
            c
        };
        assert(lc == lower_char(s@[i as int]));
        push_char(&mut r, lc);
        i = i + 1;
        assert(r@ =~= lower_of(s@).take(i as int));
    }
    assert(lower_of(s@).take(n as int) =~= lower_of(s@));
    r
}

/// The view of an optional string.
pub open spec fn opt_view(o: Option<String>) -> Option<Seq<char>> {
    match o {
        Option::Some(s) => Option::Some(s@),
        Option::None => Option::None,
    }
}

/// The exported symbol name of a generated declaration: the lowered subject
/// name and the method name joined by an underscore, with the lowered
/// capability name between them when the block implements a capability.
/// The method name itself is kept as written.
pub open spec fn symbol_of(
    subject: Seq<char>,
    capability: Option<Seq<char>>,
    method: Seq<char>,
) -> Seq<char> {
    match capability {
        Option::Some(cap) => lower_of(subject) + "_"@ + lower_of(cap) + "_"@ + method,
        Option::None => lower_of(subject) + "_"@ + method,
    }
}

/// Builds the exported symbol name of a method.
pub fn symbol_for(subject: &String, capability: &Option<String>, method: &String) -> (r: String)
    ensures
        r@ == symbol_of(subject@, opt_view(*capability), method@),
{
    let mut r = lower_string(subject);
    r.append("_");
    match capability {
        Option::Some(cap) => {
            let lc = lower_string(cap);
            r.append(lc.as_str());
            r.append("_");
            r.append(method.as_str());
            assert(r@ =~= symbol_of(subject@, opt_view(*capability), method@));
        },
        Option::None => {
            r.append(method.as_str());
            assert(r@ =~= symbol_of(subject@, opt_view(*capability), method@));
        },
    }
    r
}

/// Whether a string equals a given literal.
pub fn eq_str(name: &String, lit: &str) -> (r: bool)
    ensures
        r == (name@ == lit@),
{
    let other = String::from_str(lit);
    *name == other
}

/// The written name of each scalar type.
pub open spec fn scalar_name(k: ScalarKind) -> Seq<char> {
    match k {
        ScalarKind::Bool => "bool"@,
        ScalarKind::Char => "char"@,
        ScalarKind::I8 => "i8"@,
        ScalarKind::I16 => "i16"@,
        ScalarKind::I32 => "i32"@,
        ScalarKind::I64 => "i64"@,
        ScalarKind::I128 => "i128"@,
        ScalarKind::Isize => "isize"@,
        ScalarKind::U8 => "u8"@,
        ScalarKind::U16 => "u16"@,
        ScalarKind::U32 => "u32"@,
        ScalarKind::U64 => "u64"@,
        ScalarKind::U128 => "u128"@,
        ScalarKind::Usize => "usize"@,
        ScalarKind::F32 => "f32"@,
        ScalarKind::F64 => "f64"@,
    }
}

/// The scalar kind a written name denotes, if any: membership in the fixed
/// scalar set is decided by the written form alone.
pub open spec fn scalar_of_name(name: Seq<char>) -> Option<ScalarKind> {
    if name == "bool"@ {
        Option::Some(ScalarKind::Bool)
    } else if name == "char"@ {
        Option::Some(ScalarKind::Char)
    } else if name == "i8"@ {
        Option::Some(ScalarKind::I8)
    } else if name == "i16"@ {
        Option::Some(ScalarKind::I16)
    } else if name == "i32"@ {
        Option::Some(ScalarKind::I32)
    } else if name == "i64"@ {
        Option::Some(ScalarKind::I64)
    } else if name == "i128"@ {
        Option::Some(ScalarKind::I128)
    } else if name == "isize"@ {
        Option::Some(ScalarKind::Isize)
    } else if name == "u8"@ {
        Option::Some(ScalarKind::U8)
    } else if name == "u16"@ {
        Option::Some(ScalarKind::U16)
    } else if name == "u32"@ {
        Option::Some(ScalarKind::U32)
    } else if name == "u64"@ {
        Option::Some(ScalarKind::U64)
    } else if name == "u128"@ {
        Option::Some(ScalarKind::U128)
    } else if name == "usize"@ {
        Option::Some(ScalarKind::Usize)
    } else if name == "f32"@ {
        Option::Some(ScalarKind::F32)
    } else if name == "f64"@ {
        Option::Some(ScalarKind::F64)
    } else {
        Option::None
    }
}

/// Looks a written type name up in the fixed scalar set.
pub fn scalar_for_name(name: &String) -> (r: Option<ScalarKind>)
    ensures
        r == scalar_of_name(name@),
{
    if eq_str(name, "bool") {
        Option::Some(ScalarKind::Bool)
    } else if eq_str(name, "char") {
        Option::Some(ScalarKind::Char)
    } else if eq_str(name, "i8") {
        Option::Some(ScalarKind::I8)
    } else if eq_str(name, "i16") {
        Option::Some(ScalarKind::I16)
    } else if eq_str(name, "i32") {
        Option::Some(ScalarKind::I32)
    } else if eq_str(name, "i64") {
        Option::Some(ScalarKind::I64)
    } else if eq_str(name, "i128") {
        Option::Some(ScalarKind::I128)
    } else if eq_str(name, "isize") {
        Option::Some(ScalarKind::Isize)
    } else if eq_str(name, "u8") {
        Option::Some(ScalarKind::U8)
    } else if eq_str(name, "u16") {
        Option::Some(ScalarKind::U16)
    } else if eq_str(name, "u32") {
        Option::Some(ScalarKind::U32)
    } else if eq_str(name, "u64") {
        Option::Some(ScalarKind::U64)
    } else if eq_str(name, "u128") {
        Option::Some(ScalarKind::U128)
    } else if eq_str(name, "usize") {
        Option::Some(ScalarKind::Usize)
    } else if eq_str(name, "f32") {
        Option::Some(ScalarKind::F32)
    } else if eq_str(name, "f64") {
        Option::Some(ScalarKind::F64)
    } else {
        Option::None
    }
}

/// The written name of a scalar kind, for rendering a generated declaration.
pub fn scalar_name_of(k: ScalarKind) -> (r: String)
    ensures
        r@ == scalar_name(k),
{
    match k {
        ScalarKind::Bool => String::from_str("bool"),
        ScalarKind::Char => String::from_str("char"),
        ScalarKind::I8 => String::from_str("i8"),
        ScalarKind::I16 => String::from_str("i16"),
        ScalarKind::I32 => String::from_str("i32"),
        ScalarKind::I64 => String::from_str("i64"),
        ScalarKind::I128 => String::from_str("i128"),
        ScalarKind::Isize => String::from_str("isize"),
        ScalarKind::U8 => String::from_str("u8"),
        ScalarKind::U16 => String::from_str("u16"),
        ScalarKind::U32 => String::from_str("u32"),
        ScalarKind::U64 => String::from_str("u64"),
        ScalarKind::U128 => String::from_str("u128"),
        ScalarKind::Usize => String::from_str("usize"),
        ScalarKind::F32 => String::from_str("f32"),
        ScalarKind::F64 => String::from_str("f64"),
    }
}

} // verus!
