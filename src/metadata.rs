use vstd::prelude::*;

verus! {

/// Key-value metadata attached to a provider object, each key at most once.
pub type Metadata = Vec<(String, String)>;

pub open spec fn user_id_key() -> Seq<char> {
    "user_id"@
}

pub open spec fn offer_id_key() -> Seq<char> {
    "offer_id"@
}

pub open spec fn shop_id_key() -> Seq<char> {
    "shop_id"@
}

/// The value of the first entry whose key is `key`.
pub open spec fn metadata_value(entries: Seq<(String, String)>, key: Seq<char>) -> Option<String>
    decreases entries.len(),
{
    if entries.len() == 0 {
        None
    } else if entries[0].0@ == key {
        Some(entries[0].1)
    } else {
        metadata_value(entries.drop_first(), key)
    }
}

/// Looks up `key` in `metadata`.
pub fn metadata_get(metadata: &Metadata, key: &str) -> (r: Option<String>)
    ensures
        r == metadata_value(metadata@, key@),
{
    let wanted = key.to_owned();
    let mut i: usize = 0;
    assert(metadata@.subrange(0, metadata@.len() as int) =~= metadata@);
    while i < metadata.len()
        invariant
            i <= metadata@.len(),
            wanted@ == key@,
            metadata_value(metadata@, key@) == metadata_value(metadata@.subrange(i as int, metadata@.len() as int), key@),
        decreases metadata@.len() - i,
    {
        let ghost rest = metadata@.subrange(i as int, metadata@.len() as int);
        if metadata[i].0.eq(&wanted) {
            assert(rest[0] == metadata@[i as int]);
            return Some(metadata[i].1.clone());
        }
        assert(rest.drop_first() =~= metadata@.subrange(i + 1, metadata@.len() as int));
        i = i + 1;
    }
    None
}

} // verus!
