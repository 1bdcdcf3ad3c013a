//! The additional-metadata field store: an ordered list of key-value string
//! pairs where one update sets the value of the first pair with the given key,
//! or appends the pair when the key is absent. This is the client-side picture
//! of how the on-chain program applies one `UpdateField` instruction.
use vstd::prelude::*;

use crate::ix::pairs_view;

verus! {

/// What one field update leaves behind: the first pair with this key gets the
/// new value; a missing key is appended at the end.
pub open spec fn set_field(
    fields: Seq<(Seq<char>, Seq<char>)>,
    key: Seq<char>,
    value: Seq<char>,
) -> Seq<(Seq<char>, Seq<char>)>
    decreases fields.len(),
{
    if fields.len() == 0 {
        seq![(key, value)]
    } else if fields[0].0 == key {
        seq![(key, value)] + fields.skip(1)
    } else {
        seq![fields[0]] + set_field(fields.skip(1), key, value)
    }
}

/// The value stored under a key: that of the first pair with the key.
pub open spec fn field_value(
    fields: Seq<(Seq<char>, Seq<char>)>,
    key: Seq<char>,
) -> Option<Seq<char>>
    decreases fields.len(),
{
    if fields.len() == 0 {
        None
    } else if fields[0].0 == key {
        Some(fields[0].1)
    } else {
        field_value(fields.skip(1), key)
    }
}

/// How many pairs carry the given key.
pub open spec fn key_count(fields: Seq<(Seq<char>, Seq<char>)>, key: Seq<char>) -> nat
    decreases fields.len(),
{
    if fields.len() == 0 {
        0
    } else {
        (if fields[0].0 == key {
            1nat
        } else {
            0nat
        }) + key_count(fields.skip(1), key)
    }
}

/// Applying the same update twice leaves the store exactly as one application
/// does: per key, field updates are idempotent.
pub proof fn lemma_set_field_idempotent(
    fields: Seq<(Seq<char>, Seq<char>)>,
    key: Seq<char>,
    value: Seq<char>,
)
    ensures
        set_field(set_field(fields, key, value), key, value) == set_field(fields, key, value),
    decreases fields.len(),
{
    let once = set_field(fields, key, value);
    if fields.len() == 0 {
        assert(once[0].0 == key);
        assert(set_field(once, key, value) =~= once);
    } else if fields[0].0 == key {
        assert(once[0].0 == key);
        assert(once.skip(1) =~= fields.skip(1));
        assert(set_field(once, key, value) =~= once);
    } else {
        lemma_set_field_idempotent(fields.skip(1), key, value);
        assert(once[0] == fields[0]);
        assert(once.skip(1) =~= set_field(fields.skip(1), key, value));
        assert(set_field(once, key, value) =~= seq![once[0]] + set_field(
            once.skip(1),
            key,
            value,
        ));
        assert(set_field(once, key, value) =~= once);
    }
}

/// An update stores exactly the written value under its key.
pub proof fn lemma_set_field_value(
    fields: Seq<(Seq<char>, Seq<char>)>,
    key: Seq<char>,
    value: Seq<char>,
)
    ensures
        field_value(set_field(fields, key, value), key) == Some(value),
    decreases fields.len(),
{
    let once = set_field(fields, key, value);
    if fields.len() == 0 {
    } else if fields[0].0 == key {
    } else {
        lemma_set_field_value(fields.skip(1), key, value);
        assert(once[0] == fields[0]);
        assert(once.skip(1) =~= set_field(fields.skip(1), key, value));
    }
}

/// An update never duplicates a key: a key absent before occurs once
/// afterwards, a key present keeps its number of pairs, and every other key's
/// count is untouched.
pub proof fn lemma_set_field_key_count(
    fields: Seq<(Seq<char>, Seq<char>)>,
    key: Seq<char>,
    value: Seq<char>,
)
    ensures
        key_count(set_field(fields, key, value), key) == if key_count(fields, key) == 0 {
            1nat
        } else {
            key_count(fields, key)
        },
        forall|other: Seq<char>|
            other != key ==> key_count(set_field(fields, key, value), other) == key_count(
                fields,
                other,
            ),
    decreases fields.len(),
{
    let once = set_field(fields, key, value);
    if fields.len() == 0 {
        assert(once =~= seq![(key, value)]);
        assert(once[0].0 == key);
        assert(once.skip(1) =~= Seq::<(Seq<char>, Seq<char>)>::empty());
        assert(key_count(once.skip(1), key) == 0);
        assert(key_count(once, key) == 1);
        assert forall|other: Seq<char>| other != key implies key_count(once, other) == key_count(
            fields,
            other,
        ) by {
            assert(key_count(once.skip(1), other) == 0);
            assert(key_count(once, other) == 0);
            assert(key_count(fields, other) == 0);
        }
    } else if fields[0].0 == key {
        assert(once.skip(1) =~= fields.skip(1));
        assert(key_count(once, key) == 1 + key_count(fields.skip(1), key));
        assert(key_count(fields, key) == 1 + key_count(fields.skip(1), key));
        assert forall|other: Seq<char>| other != key implies key_count(once, other) == key_count(
            fields,
            other,
        ) by {
            assert(key_count(once, other) == key_count(fields.skip(1), other));
            assert(key_count(fields, other) == key_count(fields.skip(1), other));
        }
    } else {
        lemma_set_field_key_count(fields.skip(1), key, value);
        assert(once[0] == fields[0]);
        assert(once.skip(1) =~= set_field(fields.skip(1), key, value));
        assert(key_count(once, key) == key_count(set_field(fields.skip(1), key, value), key));
        assert(key_count(fields, key) == key_count(fields.skip(1), key));
        assert forall|other: Seq<char>| other != key implies key_count(once, other) == key_count(
            fields,
            other,
        ) by {
            if fields[0].0 == other {
                assert(key_count(once, other) == 1 + key_count(once.skip(1), other));
                assert(key_count(fields, other) == 1 + key_count(fields.skip(1), other));
            } else {
                assert(key_count(once, other) == key_count(once.skip(1), other));
                assert(key_count(fields, other) == key_count(fields.skip(1), other));
            }
        }
    }
}

/// Where the key first occurs at position `i`, the update rewrites exactly
/// that pair.
pub proof fn lemma_set_field_at_match(
    fields: Seq<(Seq<char>, Seq<char>)>,
    key: Seq<char>,
    value: Seq<char>,
    i: int,
)
    requires
        0 <= i < fields.len(),
        fields[i].0 == key,
        forall|j: int| 0 <= j < i ==> fields[j].0 != key,
    ensures
        set_field(fields, key, value) == fields.update(i, (key, value)),
    decreases i,
{
    if i == 0 {
        assert(set_field(fields, key, value) =~= fields.update(0, (key, value)));
    } else {
        assert(fields.skip(1)[i - 1].0 == key);
        assert(forall|j: int| 0 <= j < i - 1 ==> fields.skip(1)[j].0 != key);
        lemma_set_field_at_match(fields.skip(1), key, value, i - 1);
        assert(set_field(fields, key, value) =~= fields.update(i, (key, value)));
    }
}

/// Where the key is absent, the update appends the pair at the end.
pub proof fn lemma_set_field_no_match(
    fields: Seq<(Seq<char>, Seq<char>)>,
    key: Seq<char>,
    value: Seq<char>,
)
    requires
        forall|j: int| 0 <= j < fields.len() ==> fields[j].0 != key,
    ensures
        set_field(fields, key, value) == fields.push((key, value)),
    decreases fields.len(),
{
    if fields.len() == 0 {
        assert(set_field(fields, key, value) =~= fields.push((key, value)));
    } else {
        assert(forall|j: int| 0 <= j < fields.skip(1).len() ==> fields.skip(1)[j].0 != key);
        lemma_set_field_no_match(fields.skip(1), key, value);
        assert(set_field(fields, key, value) =~= fields.push((key, value)));
    }
}

/// The position of the first pair carrying the key, if any.
fn find_key(fields: &Vec<(String, String)>, key: &String) -> (r: Option<usize>)
    ensures
        match r {
            Some(i) => i < fields@.len() && fields@[i as int].0@ == key@ && forall|j: int|
                0 <= j < i ==> fields@[j].0@ != key@,
            None => forall|j: int| 0 <= j < fields@.len() ==> fields@[j].0@ != key@,
        },
{
    let n = fields.len();
    let mut i: usize = 0;
    while i < n
        invariant
            i <= n,
            n == fields@.len(),
            forall|j: int| 0 <= j < i ==> fields@[j].0@ != key@,
        decreases n - i,
    {
        if fields[i].0 == *key {
            return Some(i);
        }
        i = i + 1;
    }
    None
}

/// One field update, applied as the on-chain program does: the first pair with
/// this key gets the new value, a missing key is appended.
pub fn apply_field_update(fields: &Vec<(String, String)>, key: &String, value: &String) -> (r: Vec<
    (String, String),
>)
    ensures
        pairs_view(r@) == set_field(pairs_view(fields@), key@, value@),
{
    let n = fields.len();
    let mut out: Vec<(String, String)> = Vec::new();
    let found = find_key(fields, key);
    let mut j: usize = 0;
    while j < n
        invariant
            j <= n,
            n == fields@.len(),
            out@.len() == j,
            match found {
                Some(i) => i < n && fields@[i as int].0@ == key@ && (forall|t: int|
                    0 <= t < i ==> fields@[t].0@ != key@),
                None => forall|t: int| 0 <= t < n ==> fields@[t].0@ != key@,
            },
            forall|t: int|
                0 <= t < j ==> (#[trigger] out@[t]).0@ == (if found == Some(t as usize) {
                    key@
                } else {
                    fields@[t].0@
                }) && out@[t].1@ == (if found == Some(t as usize) {
                    value@
                } else {
                    fields@[t].1@
                }),
        decreases n - j,
    {
        let replace = match found {
            Some(i) => i == j,
            None => false,
        };
        if replace {
            out.push((key.clone(), value.clone()));
        } else {
            out.push((fields[j].0.clone(), fields[j].1.clone()));
        }
        j = j + 1;
    }
    match found {
        Some(i) => {
            proof {
                let fv = pairs_view(fields@);
                lemma_set_field_at_match(fv, key@, value@, i as int);
                assert(pairs_view(out@) =~= fv.update(i as int, (key@, value@)));
            }
            out
        },
        None => {
            out.push((key.clone(), value.clone()));
            proof {
                let fv = pairs_view(fields@);
                lemma_set_field_no_match(fv, key@, value@);
                assert(pairs_view(out@) =~= fv.push((key@, value@)));
            }
            out
        },
    }
}

} // verus!
