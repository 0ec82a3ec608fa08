//! The Dart binding plan: what each generated declaration is made of.
pub mod api_type;
pub mod emit;
pub mod function;
pub mod lower;
pub mod naming;
pub mod record;
pub mod scalars;
pub mod templates;
pub mod type_check;
pub mod types;

use vstd::prelude::*;
use crate::text::{join, rust_lines, views};

verus! {

/// A doc comment in Dart: each line of `doc` after `/// `, the lines
/// separated by newlines.
pub open spec fn dart_doc_text(doc: Seq<char>) -> Seq<char> {
    join(rust_lines(doc).map_values(|l: Seq<char>| "/// "@ + l), "\n"@)
}

/// Turns documentation text into a Dart doc comment.
pub fn to_dart_doc(doc: &str) -> (res: String)
    ensures
        res@ == dart_doc_text(doc@),
{
    let ls = crate::text::lines(doc);
    let mut commented: Vec<String> = Vec::new();
    let mut i: usize = 0;
    while i < ls.len()
        invariant
            i <= ls@.len(),
            commented@.len() == i,
            forall|j: int| 0 <= j < i ==> (#[trigger] commented@[j])@ == "/// "@ + ls@[j]@,
        decreases ls.len() - i,
    {
        commented.push(crate::text::cat2("/// ", ls[i].as_str()));
        i += 1;
    }
    proof {
        assert(views(commented@) =~= views(ls@).map_values(|l: Seq<char>| "/// "@ + l));
    }
    crate::text::join_strings(&commented, "\n")
}

} // verus!
