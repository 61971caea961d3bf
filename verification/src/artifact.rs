//! Recognising the packaged companion archive among the files that the build
//! tool leaves in its output directory.

use vstd::prelude::*;
use vstd::string::StrSliceExecFns;

verus! {

/// Whether a file name is that of the packaged companion archive: it begins
/// with `tracing-slf4j` and ends with `all.jar`.
pub open spec fn artifact_name(name: Seq<char>) -> bool {
    "tracing-slf4j"@.is_prefix_of(name) && "all.jar"@.is_suffix_of(name)
}

/// Whether `index` is the place of the first archive name in `names`.
pub open spec fn is_first_artifact(names: Seq<Seq<char>>, index: int) -> bool {
    &&& 0 <= index < names.len()
    &&& artifact_name(names[index])
    &&& forall|earlier: int| 0 <= earlier < index ==> !artifact_name(#[trigger] names[earlier])
}

/// The place of the first archive name in `names`, if there is one.
pub open spec fn first_artifact(names: Seq<Seq<char>>) -> Option<int> {
    if exists|index: int| is_first_artifact(names, index) {
        Some(choose|index: int| is_first_artifact(names, index))
    } else {
        None
    }
}

/// The file names of a directory listing as character sequences.
pub open spec fn listing(names: Vec<String>) -> Seq<Seq<char>> {
    Seq::new(names@.len(), |i: int| names@[i]@)
}

/// Two first places in one listing are the same place.
pub proof fn lemma_first_artifact_unique(names: Seq<Seq<char>>, a: int, b: int)
    requires
        is_first_artifact(names, a),
        is_first_artifact(names, b),
    ensures
        a == b,
{
    if a < b {
        assert(!artifact_name(names[a]));
    } else if b < a {
        assert(!artifact_name(names[b]));
    }
}

/// `first_artifact` finds an archive name exactly when the listing holds one,
/// and then it is the earliest.
pub proof fn lemma_first_artifact(names: Seq<Seq<char>>)
    ensures
        first_artifact(names) matches Some(index) ==> is_first_artifact(names, index),
        first_artifact(names) is None <==> forall|i: int|
            0 <= i < names.len() ==> !artifact_name(#[trigger] names[i]),
{
    if first_artifact(names) is None {
        assert forall|i: int| 0 <= i < names.len() implies !artifact_name(#[trigger] names[i]) by {
            if artifact_name(names[i]) {
                lemma_earliest_exists(names, i);
            }
        }
    } else {
        let index = first_artifact(names)->0;
        assert(is_first_artifact(names, index));
        assert(artifact_name(names[index]));
    }
}

/// Where some name up to `bound` is an archive name, there is a first one.
proof fn lemma_earliest_exists(names: Seq<Seq<char>>, bound: int)
    requires
        0 <= bound < names.len(),
        artifact_name(names[bound]),
    ensures
        exists|index: int| is_first_artifact(names, index),
    decreases bound,
{
    if exists|earlier: int| 0 <= earlier < bound && artifact_name(#[trigger] names[earlier]) {
        let earlier = choose|earlier: int|
            0 <= earlier < bound && artifact_name(#[trigger] names[earlier]);
        lemma_earliest_exists(names, earlier);
    } else {
        assert(is_first_artifact(names, bound));
    }
}

/// Whether `text` begins with `prefix`.
fn starts_with(text: &str, prefix: &str) -> (found: bool)
    ensures
        found == prefix@.is_prefix_of(text@),
{
    let text_len: usize = text.unicode_len();
    let prefix_len: usize = prefix.unicode_len();
    if prefix_len > text_len {
        return false;
    }
    let mut at: usize = 0;
    while at < prefix_len
        invariant
            at <= prefix_len <= text_len,
            text_len == text@.len(),
            prefix_len == prefix@.len(),
            forall|j: int| 0 <= j < at ==> text@[j] == prefix@[j],
        decreases prefix_len - at,
    {
        if text.get_char(at) != prefix.get_char(at) {
            assert(text@.subrange(0, prefix_len as int)[at as int] == text@[at as int]);
            return false;
        }
        at += 1;
    }
    true
}

/// Whether `text` ends with `suffix`.
fn ends_with(text: &str, suffix: &str) -> (found: bool)
    ensures
        found == suffix@.is_suffix_of(text@),
{
    let text_len: usize = text.unicode_len();
    let suffix_len: usize = suffix.unicode_len();
    if suffix_len > text_len {
        return false;
    }
    let skip: usize = text_len - suffix_len;
    let mut at: usize = 0;
    while at < suffix_len
        invariant
            at <= suffix_len <= text_len,
            skip == text_len - suffix_len,
            text_len == text@.len(),
            suffix_len == suffix@.len(),
            forall|j: int| 0 <= j < at ==> text@[skip + j] == suffix@[j],
        decreases suffix_len - at,
    {
        if text.get_char(skip + at) != suffix.get_char(at) {
            assert(text@.subrange(skip as int, text_len as int)[at as int] == text@[skip + at]);
            return false;
        }
        at += 1;
    }
    true
}

/// Tells whether a file name is that of the packaged companion archive.
pub fn is_artifact_name(name: &str) -> (found: bool)
    ensures
        found == artifact_name(name@),
{
    starts_with(name, "tracing-slf4j") && ends_with(name, "all.jar")
}

/// Scans a directory listing for the packaged companion archive and returns
/// the place of the first name that matches, or `None` where no name does.
/// Later matches are not looked at.
pub fn find_artifact(names: &Vec<String>) -> (found: Option<usize>)
    ensures
        found matches Some(index) ==> first_artifact(listing(*names)) == Some(index as int),
        found is None ==> first_artifact(listing(*names)) is None,
        found matches Some(index) ==> is_first_artifact(listing(*names), index as int),
        found is None ==> forall|i: int|
            0 <= i < names@.len() ==> !artifact_name(#[trigger] names@[i]@),
{
    let mut at: usize = 0;
    while at < names.len()
        invariant
            at <= names@.len(),
            forall|i: int| 0 <= i < at ==> !artifact_name(#[trigger] listing(*names)[i]),
        decreases names@.len() - at,
    {
        if is_artifact_name(names[at].as_str()) {
            proof {
                assert(listing(*names)[at as int] == names@[at as int]@);
                assert(is_first_artifact(listing(*names), at as int));
                lemma_first_artifact(listing(*names));
                lemma_first_artifact_unique(
                    listing(*names),
                    at as int,
                    first_artifact(listing(*names))->0,
                );
            }
            return Some(at);
        }
        assert(listing(*names)[at as int] == names@[at as int]@);
        at += 1;
    }
    proof {
        lemma_first_artifact(listing(*names));
        assert forall|i: int| 0 <= i < names@.len() implies !artifact_name(
            #[trigger] names@[i]@,
        ) by {
            assert(listing(*names)[i] == names@[i]@);
        }
    }
    None
}

} // verus!
