use crate::error::ApiError;
use vstd::prelude::*;

verus! {

/// The value stored under the first occurrence of `key` in an association
/// list, if any.
pub open spec fn spec_lookup<T>(entries: Seq<(String, T)>, key: Seq<char>) -> Option<T>
    decreases entries.len(),
{
    if entries.len() == 0 {
        None
    } else if entries[0].0@ == key {
        Some(entries[0].1)
    } else {
        spec_lookup(entries.drop_first(), key)
    }
}

/// The position of the first entry carrying `key`.
pub open spec fn spec_key_index<T>(entries: Seq<(String, T)>, key: Seq<char>) -> int
    decreases entries.len(),
{
    if entries.len() == 0 {
        0
    } else if entries[0].0@ == key {
        0
    } else {
        1 + spec_key_index(entries.drop_first(), key)
    }
}

/// When the entries before position `i` all miss `key` and the entry at `i`
/// carries it, the lookup returns that entry's value and `i` is its position.
proof fn lemma_lookup_first_match<T>(entries: Seq<(String, T)>, key: Seq<char>, i: int)
    requires
        0 <= i < entries.len(),
        entries[i].0@ == key,
        forall|j: int| 0 <= j < i ==> entries[j].0@ != key,
    ensures
        spec_lookup(entries, key) == Some(entries[i].1),
        spec_key_index(entries, key) == i,
    decreases i,
{
    if i > 0 {
        lemma_lookup_first_match(entries.drop_first(), key, i - 1);
    }
}

/// When no entry carries `key`, the lookup returns nothing.
proof fn lemma_lookup_no_match<T>(entries: Seq<(String, T)>, key: Seq<char>)
    requires
        forall|j: int| 0 <= j < entries.len() ==> entries[j].0@ != key,
    ensures
        spec_lookup(entries, key) is None,
    decreases entries.len(),
{
    if entries.len() > 0 {
        lemma_lookup_no_match(entries.drop_first(), key);
    }
}

/// Unwraps the single-key envelope the API wraps every response in.
///
/// The caller hands over the response object as an association list and names
/// the resource-type key the envelope is expected to carry. The value under
/// the first occurrence of that key is taken out of the list and returned; an
/// envelope without the key is reported as a shape mismatch rather than a
/// crash, and the list is left as it was.
pub fn unwrap_envelope<T>(entries: &mut Vec<(String, T)>, key: &str) -> (r: Result<T, ApiError>)
    ensures
        match r {
            Ok(value) => {
                &&& spec_lookup(old(entries)@, key@) == Some(value)
                &&& final(entries)@ == old(entries)@.remove(
                    spec_key_index(old(entries)@, key@),
                )
            },
            Err(e) => {
                &&& spec_lookup(old(entries)@, key@) is None
                &&& final(entries)@ == old(entries)@
                &&& e matches ApiError::MissingEnvelopeKey(k) && k@ == key@
            },
        },
{
    let ghost all = entries@;
    let key_owned: String = key.to_owned();
    let mut i: usize = 0;
    while i < entries.len()
        invariant
            i <= entries.len(),
            entries@ == all,
            old(entries)@ == all,
            key_owned@ == key@,
            forall|j: int| 0 <= j < i ==> all[j].0@ != key@,
        decreases entries.len() - i,
    {
        if entries[i].0 == key_owned {
            proof {
                lemma_lookup_first_match(all, key@, i as int);
            }
            let entry = entries.remove(i);
            return Ok(entry.1);
        }
        i = i + 1;
    }
    proof {
        lemma_lookup_no_match(all, key@);
    }
    Err(ApiError::MissingEnvelopeKey(key_owned))
}

} // verus!
