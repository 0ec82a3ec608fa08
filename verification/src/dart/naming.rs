//! How identifiers of the Rust API are spelled in Dart.
use vstd::prelude::*;

verus! {

/// ASCII upper case of a character; other characters are unchanged.
pub open spec fn upper(c: char) -> char {
    if 'a' <= c && c <= 'z' {
        ((c as u32 - 32) as u8) as char
    } else {
        c
    }
}

/// ASCII lower case of a character; other characters are unchanged.
pub open spec fn lower(c: char) -> char {
    if 'A' <= c && c <= 'Z' {
        ((c as u32 + 32) as u8) as char
    } else {
        c
    }
}

/// The state of the camel-case transducer before the next character:
/// `0` lower-cases it, `1` upper-cases it, `2` keeps it.
pub open spec fn case_of(mode: nat, c: char) -> char {
    if mode == 0 { lower(c) } else if mode == 1 { upper(c) } else { c }
}

/// The state after reading `c` in state `mode`. An underscore is dropped and
/// makes the next letter upper case, except before the first letter of a
/// lower-camel name.
pub open spec fn next_mode(mode: nat, c: char) -> nat {
    if c == '_' {
        if mode == 0 { 0 } else { 1 }
    } else {
        2
    }
}

/// The camel-cased spelling of `cs` from state `mode`: underscores are
/// removed and the first letter after each is upper-cased.
pub open spec fn camel(cs: Seq<char>, mode: nat) -> Seq<char>
    decreases cs.len(),
{
    if cs.len() == 0 {
        Seq::empty()
    } else {
        let c = cs[0];
        let rest = camel(cs.skip(1), next_mode(mode, c));
        if c == '_' {
            rest
        } else {
            seq![case_of(mode, c)] + rest
        }
    }
}

/// `UpperCamelCase` of a snake-case or camel-case name.
pub open spec fn upper_camel(s: Seq<char>) -> Seq<char> {
    camel(s, 1)
}

/// `lowerCamelCase` of a snake-case or camel-case name.
pub open spec fn lower_camel(s: Seq<char>) -> Seq<char> {
    camel(s, 0)
}

fn upper_char(c: char) -> (r: char)
    ensures
        r == upper(c),
{
    if 'a' <= c && c <= 'z' {
        ((c as u32 - 32) as u8) as char
    } else {
        c
    }
}

fn lower_char(c: char) -> (r: char)
    ensures
        r == lower(c),
{
    if 'A' <= c && c <= 'Z' {
        ((c as u32 + 32) as u8) as char
    } else {
        c
    }
}

fn camel_case(name: &str, start: u8) -> (res: String)
    requires
        start <= 1,
    ensures
        res@ == camel(name@, start as nat),
{
    let cs = crate::text::chars_of(name);
    let mut out = String::new();
    let mut mode: u8 = start;
    let mut i: usize = 0;
    assert(cs@.skip(0) =~= cs@);
    assert(out@ + camel(cs@.skip(0), mode as nat) =~= camel(name@, start as nat));
    while i < cs.len()
        invariant
            i <= cs@.len(),
            cs@ == name@,
            mode <= 2,
            out@ + camel(cs@.skip(i as int), mode as nat) == camel(name@, start as nat),
        decreases cs.len() - i,
    {
        let c = cs[i];
        let ghost rest = cs@.skip(i as int);
        assert(rest.skip(1) =~= cs@.skip(i + 1));
        assert(rest[0] == c);
        if c != '_' {
            let d = if mode == 0 { lower_char(c) } else if mode == 1 { upper_char(c) } else { c };
            assert(d == case_of(mode as nat, c));
            crate::text::push_char(&mut out, d);
            mode = 2;
        } else if mode != 0 {
            mode = 1;
        }
        i += 1;
        assert(out@ + camel(cs@.skip(i as int), mode as nat) =~= camel(name@, start as nat));
    }
    assert(cs@.skip(i as int) =~= Seq::<char>::empty());
    out
}

/// Dart naming rules for the generated code.
pub struct NamingConvention {}

impl NamingConvention {
    /// The name of a class, record, enum or callback type: `UpperCamelCase`.
    pub fn class_name(name: &str) -> (res: String)
        ensures
            res@ == upper_camel(name@),
    {
        camel_case(name, 1)
    }

    /// The name of a parameter: `lowerCamelCase`.
    pub fn param_name(name: &str) -> (res: String)
        ensures
            res@ == lower_camel(name@),
    {
        camel_case(name, 0)
    }

    /// The name of a function or method: `lowerCamelCase`.
    pub fn function_name(name: &str) -> (res: String)
        ensures
            res@ == lower_camel(name@),
    {
        camel_case(name, 0)
    }

    /// The name of an enum case or field: `lowerCamelCase`.
    pub fn property_name(name: &str) -> (res: String)
        ensures
            res@ == lower_camel(name@),
    {
        camel_case(name, 0)
    }

    /// The name of the `dart:ffi` struct that mirrors a blittable record:
    /// `_$$` before the class name and `Struct` after it.
    pub fn record_struct_name(name: &str) -> (res: String)
        ensures
            res@ == "_$$"@ + upper_camel(name@) + "Struct"@,
    {
        let class = camel_case(name, 1);
        crate::text::cat3("_$$", class.as_str(), "Struct")
    }
}


/// Changing the case of a character that is not an underscore never
/// makes one.
proof fn lemma_case_keeps_non_underscore(mode: nat, c: char)
    requires
        c != '_',
    ensures
        case_of(mode, c) != '_',
{
    if mode == 0 && 'A' <= c && c <= 'Z' {
        assert((((c as u32 + 32) as u8) as char) as u32 == (c as u32 + 32));
    } else if mode == 1 && 'a' <= c && c <= 'z' {
        assert((((c as u32 - 32) as u8) as char) as u32 == (c as u32 - 32));
    }
}

/// Camel-cased names have no underscores.
pub proof fn law_camel_has_no_underscore(s: Seq<char>, mode: nat)
    ensures
        forall|i: int| 0 <= i < camel(s, mode).len() ==> #[trigger] camel(s, mode)[i] != '_',
    decreases s.len(),
{
    if s.len() > 0 {
        let c = s[0];
        law_camel_has_no_underscore(s.skip(1), next_mode(mode, c));
        let rest = camel(s.skip(1), next_mode(mode, c));
        if c != '_' {
            lemma_case_keeps_non_underscore(mode, c);
            assert forall|i: int| 0 <= i < camel(s, mode).len() implies #[trigger] camel(s, mode)[i] != '_' by {
                if i > 0 {
                    assert(camel(s, mode)[i] == rest[i - 1]);
                }
            }
        }
    }
}

/// Class names, and parameter, function and property names, have no
/// underscores.
pub proof fn law_dart_names_have_no_underscore(name: Seq<char>)
    ensures
        forall|i: int| 0 <= i < upper_camel(name).len() ==> #[trigger] upper_camel(name)[i] != '_',
        forall|i: int| 0 <= i < lower_camel(name).len() ==> #[trigger] lower_camel(name)[i] != '_',
{
    law_camel_has_no_underscore(name, 1);
    law_camel_has_no_underscore(name, 0);
}

} // verus!
