//! Locale tags: their shape, and the form in which they are sent.
//!
//! Declarations may write a tag with underscores (`pl_PL`); the platform wants
//! hyphens (`pl-PL`).
//!
//! The localized texts of a name or a description are a map from locale to
//! text, written as a list of pairs in the order of declaration.  For the
//! list to be a map, no two of its tags may be the same once they are
//! normalized.

use vstd::prelude::*;
use vstd::string::*;

verus! {

/// `String::push`: appends one character to the end of the string.
#[verifier::external_body]
fn push_char(text: &mut String, c: char)
    ensures
        final(text)@ == old(text)@.push(c),
{
    text.push(c)
}

/// The character as it is sent: an underscore becomes a hyphen.
pub open spec fn hyphenated(c: char) -> char {
    if c == '_' {
        '-'
    } else {
        c
    }
}

/// The tag as it is sent: every underscore replaced with a hyphen.
pub open spec fn normalized(tag: Seq<char>) -> Seq<char> {
    Seq::new(tag.len(), |i: int| hyphenated(tag[i]))
}

/// A list of localized texts as it is sent: the tags normalized, the texts
/// and the order kept.
pub open spec fn localized(entries: Seq<(String, String)>) -> Seq<(Seq<char>, Seq<char>)> {
    Seq::new(entries.len(), |i: int| (normalized(entries[i].0@), entries[i].1@))
}

/// The entries of a list of localized texts, as they stand.
pub open spec fn entries_view(entries: Seq<(String, String)>) -> Seq<(Seq<char>, Seq<char>)> {
    Seq::new(entries.len(), |i: int| (entries[i].0@, entries[i].1@))
}

/// No tag of the list holds an underscore.
pub open spec fn hyphen_only(entries: Seq<(Seq<char>, Seq<char>)>) -> bool {
    forall|i: int, j: int|
        0 <= i < entries.len() && 0 <= j < entries[i].0.len() ==> (#[trigger] entries[i].0[j])
            != '_'
}

/// An ASCII letter or digit.
pub open spec fn is_alphanumeric(c: char) -> bool {
    ('a' <= c <= 'z') || ('A' <= c <= 'Z') || ('0' <= c <= '9')
}

/// A hyphen or an underscore.
pub open spec fn is_separator(c: char) -> bool {
    c == '-' || c == '_'
}

/// Position `i` of the tag holds a letter or digit, or a separator that
/// stands between two letters or digits.
pub open spec fn well_placed(tag: Seq<char>, i: int) -> bool {
    is_alphanumeric(tag[i]) || (is_separator(tag[i]) && 0 < i < tag.len() - 1 && is_alphanumeric(
        tag[i - 1],
    ) && is_alphanumeric(tag[i + 1]))
}

/// A well-formed locale tag: one or more runs of ASCII letters and digits,
/// joined by single hyphens or underscores (`en`, `pl_PL`, `es-419`).
pub open spec fn well_formed(tag: Seq<char>) -> bool {
    tag.len() > 0 && forall|i: int| 0 <= i < tag.len() ==> #[trigger] well_placed(tag, i)
}

/// Every tag of the list is well-formed.
pub open spec fn all_well_formed(entries: Seq<(String, String)>) -> bool {
    forall|i: int| 0 <= i < entries.len() ==> well_formed(#[trigger] entries[i].0@)
}

fn alphanumeric(c: char) -> (r: bool)
    ensures
        r == is_alphanumeric(c),
{
    ('a' <= c && c <= 'z') || ('A' <= c && c <= 'Z') || ('0' <= c && c <= '9')
}

/// Whether `tag` is a well-formed locale tag.
pub fn is_well_formed(tag: &String) -> (r: bool)
    ensures
        r == well_formed(tag@),
{
    let text = tag.as_str();
    if text.is_empty() {
        return false;
    }
    // whether the character before the current one is a letter or digit
    let mut after_alphanumeric = false;
    for c in it: text.chars()
        invariant
            it.seq() == tag@,
            it.index() > 0 ==> after_alphanumeric == is_alphanumeric(tag@[it.index() - 1]),
            it.index() == 0 ==> !after_alphanumeric,
            forall|j: int| 0 <= j < it.index() - 1 ==> #[trigger] well_placed(tag@, j),
            it.index() > 0 && !after_alphanumeric ==> is_separator(tag@[it.index() - 1])
                && it.index() - 1 > 0 && is_alphanumeric(tag@[it.index() - 2]),
    {
        let here = alphanumeric(c);
        if !here && (!(c == '-' || c == '_') || !after_alphanumeric) {
            // neither a letter or digit, nor a separator that follows one
            assert(!well_placed(tag@, it.index() as int));
            return false;
        }
        after_alphanumeric = here;
    }
    if !after_alphanumeric {
        // the tag ends with a separator
        assert(!well_placed(tag@, tag@.len() - 1));
        return false;
    }
    true
}

/// Whether every tag of the list is well-formed.
pub fn are_well_formed(entries: &Vec<(String, String)>) -> (r: bool)
    ensures
        r == all_well_formed(entries@),
{
    let mut i: usize = 0;
    while i < entries.len()
        invariant
            i <= entries.len(),
            forall|j: int| 0 <= j < i ==> well_formed(#[trigger] entries@[j].0@),
        decreases entries.len() - i,
    {
        if !is_well_formed(&entries[i].0) {
            return false;
        }
        i += 1;
    }
    true
}

/// No two tags of the list are the same once they are normalized: the list
/// is a map from locale to text.
pub open spec fn distinct_tags(entries: Seq<(String, String)>) -> bool {
    forall|i: int, j: int|
        0 <= i < j < entries.len() ==> normalized((#[trigger] entries[i]).0@) != normalized(
            (#[trigger] entries[j]).0@,
        )
}

/// No two entries of the list stand under the same tag.
pub open spec fn distinct_sent(entries: Seq<(Seq<char>, Seq<char>)>) -> bool {
    forall|i: int, j: int|
        0 <= i < j < entries.len() ==> (#[trigger] entries[i]).0 != (#[trigger] entries[j]).0
}

/// The tag with every underscore replaced with a hyphen.
pub fn normalize(tag: &String) -> (r: String)
    ensures
        r@ == normalized(tag@),
{
    let mut out = String::new();
    for c in it: tag.as_str().chars()
        invariant
            it.seq() == tag@,
            out@ == normalized(tag@).subrange(0, it.index() as int),
    {
        let sent = if c == '_' {
            '-'
        } else {
            c
        };
        push_char(&mut out, sent);
    }
    out
}

/// The list with every tag normalized, the texts and the order kept.
pub fn normalize_all(entries: &Vec<(String, String)>) -> (r: Vec<(String, String)>)
    ensures
        entries_view(r@) == localized(entries@),
        hyphen_only(entries_view(r@)),
{
    let mut out: Vec<(String, String)> = Vec::new();
    let mut i: usize = 0;
    while i < entries.len()
        invariant
            i <= entries.len(),
            out@.len() == i,
            forall|j: int|
                0 <= j < i ==> (#[trigger] out@[j]).0@ == normalized(entries@[j].0@) && out@[j].1@
                    == entries@[j].1@,
        decreases entries.len() - i,
    {
        let tag = normalize(&entries[i].0);
        let text = entries[i].1.clone();
        out.push((tag, text));
        i += 1;
    }
    out
}

/// Whether no two tags of the list are the same once they are normalized.
pub fn tags_distinct(entries: &Vec<(String, String)>) -> (r: bool)
    ensures
        r == distinct_tags(entries@),
{
    let sent = normalize_all(entries);
    assert(sent@.len() == entries@.len()) by {
        assert(entries_view(sent@).len() == localized(entries@).len());
    }
    assert forall|k: int| 0 <= k < sent@.len() implies (#[trigger] sent@[k]).0@ == normalized(
        entries@[k].0@,
    ) by {
        assert(entries_view(sent@)[k] == localized(entries@)[k]);
    }
    let mut j: usize = 0;
    while j < sent.len()
        invariant
            j <= sent.len(),
            sent@.len() == entries@.len(),
            forall|k: int|
                0 <= k < sent@.len() ==> (#[trigger] sent@[k]).0@ == normalized(entries@[k].0@),
            forall|a: int, b: int|
                0 <= a < b < j ==> normalized((#[trigger] entries@[a]).0@) != normalized(
                    (#[trigger] entries@[b]).0@,
                ),
        decreases sent.len() - j,
    {
        let mut i: usize = 0;
        while i < j
            invariant
                i <= j < sent.len(),
                sent@.len() == entries@.len(),
                forall|k: int|
                    0 <= k < sent@.len() ==> (#[trigger] sent@[k]).0@ == normalized(
                        entries@[k].0@,
                    ),
                forall|a: int|
                    0 <= a < i ==> normalized((#[trigger] entries@[a]).0@) != normalized(
                        entries@[j as int].0@,
                    ),
            decreases j - i,
        {
            if sent[i].0 == sent[j].0 {
                assert(normalized(entries@[i as int].0@) == normalized(entries@[j as int].0@));
                return false;
            }
            i += 1;
        }
        j += 1;
    }
    true
}

/// A list whose tags differ once normalized is sent with one entry for each
/// locale.
pub proof fn lemma_localized_distinct(entries: Seq<(String, String)>)
    requires
        distinct_tags(entries),
    ensures
        distinct_sent(localized(entries)),
{
    assert forall|i: int, j: int| 0 <= i < j < localized(entries).len() implies (
    #[trigger] localized(entries)[i]).0 != (#[trigger] localized(entries)[j]).0 by {
        assert(normalized(entries[i].0@) != normalized(entries[j].0@));
    }
}

/// A normalized tag holds no underscore.
pub proof fn lemma_normalized_has_no_underscore(tag: Seq<char>)
    ensures
        normalized(tag).len() == tag.len(),
        forall|i: int| 0 <= i < tag.len() ==> normalized(tag)[i] != '_',
        forall|i: int| 0 <= i < tag.len() && tag[i] != '_' ==> normalized(tag)[i] == tag[i],
        forall|i: int| 0 <= i < tag.len() && tag[i] == '_' ==> normalized(tag)[i] == '-',
{
}

/// Normalizing a tag a second time changes nothing.
pub proof fn lemma_normalized_idempotent(tag: Seq<char>)
    ensures
        normalized(normalized(tag)) == normalized(tag),
{
}

/// No tag of a list that was normalized holds an underscore.
pub proof fn lemma_localized_hyphen_only(entries: Seq<(String, String)>)
    ensures
        hyphen_only(localized(entries)),
{
    assert forall|i: int, j: int|
        0 <= i < localized(entries).len() && 0 <= j < localized(entries)[i].0.len() implies (
    #[trigger] localized(entries)[i].0[j]) != '_' by {}
}

} // verus!
