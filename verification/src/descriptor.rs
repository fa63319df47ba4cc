//! The one-line descriptor file that references the downloaded file: its
//! content is a literal external contract with a downstream tool.

use vstd::prelude::*;

verus! {

/// The descriptor content for a downloaded file at `path`: exactly `FROM `
/// followed by the path, with nothing after it.
pub open spec fn descriptor_chars(path: Seq<char>) -> Seq<char> {
    "FROM "@ + path
}

/// Builds the descriptor file content for the downloaded file's canonical
/// absolute path.
pub fn descriptor_content(path: &str) -> (r: String)
    ensures
        r@ == descriptor_chars(path@),
{
    let mut r = String::new();
    r.append("FROM ");
    r.append(path);
    r
}

/// Descriptor content starts with the five characters `FROM ` and a space,
/// and carries the whole path unchanged after them: no truncation, no
/// trailing content.
pub proof fn lemma_descriptor_exact(path: Seq<char>)
    ensures
        descriptor_chars(path).len() == 5 + path.len(),
        descriptor_chars(path).subrange(0, 5) == "FROM "@,
        descriptor_chars(path).subrange(5, descriptor_chars(path).len() as int) == path,
{
    reveal_strlit("FROM ");
    assert(descriptor_chars(path).subrange(0, 5) =~= "FROM "@);
    assert(descriptor_chars(path).subrange(5, descriptor_chars(path).len() as int) =~= path);
}

} // verus!
