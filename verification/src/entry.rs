//! The model of one operation-log record: an ordered key/value mapping
//! with unique keys, whose sequence field `ts` carries the position of the
//! record in the log, and the bookmark type derived from that field.

use vstd::prelude::*;

verus! {

/// One value of a log record: an integer, a string, or a nested record.
pub enum Value {
    Int(i64),
    Str(String),
    Doc(Entry),
}

/// One key/value pair of a log record.
pub struct Field {
    pub key: String,
    pub value: Value,
}

/// One decoded log record: key/value pairs in insertion order.
pub struct Entry {
    pub fields: Vec<Field>,
}

/// The first value bound to key `k`, if any. With unique keys this is the
/// value of `k` in the mapping.
pub open spec fn lookup(fields: Seq<Field>, k: Seq<char>) -> Option<Value>
    decreases fields.len(),
{
    if fields.len() == 0 {
        None::<Value>
    } else if fields[0].key@ == k {
        Some(fields[0].value)
    } else {
        lookup(fields.skip(1), k)
    }
}

/// The value bound to key `k` in entry `e`, if any.
pub open spec fn entry_lookup(e: Entry, k: Seq<char>) -> Option<Value> {
    lookup(e.fields@, k)
}

/// Character-for-character string equality.
pub fn str_eq(a: &str, b: &str) -> (r: bool)
    ensures
        r == (a@ == b@),
{
    let alen = a.unicode_len();
    let blen = b.unicode_len();
    if alen != blen {
        proof {
            assert(a@ != b@) by {
                if a@ == b@ {
                    assert(a@.len() == b@.len());
                }
            }
        }
        return false;
    }
    let mut i: usize = 0;
    while i < alen
        invariant
            alen == a@.len(),
            blen == b@.len(),
            alen == blen,
            i <= alen,
            forall|j: int| 0 <= j < i ==> a@[j] == b@[j],
        decreases alen - i,
    {
        if a.get_char(i) != b.get_char(i) {
            return false;
        }
        i += 1;
    }
    proof {
        assert(a@ =~= b@);
    }
    true
}

impl Entry {
    /// A reference to the value of key `k`, or `None` when `k` is absent.
    pub fn get(&self, k: &str) -> (r: Option<&Value>)
        ensures
            match r {
                Some(v) => entry_lookup(*self, k@) == Some(*v),
                None => entry_lookup(*self, k@) is None,
            },
    {
        let n = self.fields.len();
        proof {
            assert(self.fields@.skip(0) =~= self.fields@);
        }
        let mut i: usize = 0;
        while i < n
            invariant
                n == self.fields@.len(),
                i <= n,
                lookup(self.fields@, k@) == lookup(self.fields@.skip(i as int), k@),
            decreases n - i,
        {
            proof {
                assert(self.fields@.skip(i as int)[0] == self.fields@[i as int]);
                assert(self.fields@.skip(i as int).skip(1) =~= self.fields@.skip(i + 1));
            }
            if str_eq(self.fields[i].key.as_str(), k) {
                return Some(&self.fields[i].value);
            }
            i += 1;
        }
        None
    }
}

/// The position in the log below which records have already been observed.
/// `Bookmark(i64::MIN)` stands before every possible record.
pub struct Bookmark(pub i64);

/// What the bookmark of a freshly queried "latest record" is: the record's
/// `ts` value, or the minimum bookmark when the log is empty or the record
/// carries no integer sequence field.
pub open spec fn spec_resolve(latest: Option<Entry>) -> i64 {
    match latest {
        None => i64::MIN,
        Some(e) => match entry_lookup(e, "ts"@) {
            Some(Value::Int(i)) => i,
            _ => i64::MIN,
        },
    }
}

/// Turns the result of the one startup query — the record with the maximum
/// sequence value, if the log has any — into the bookmark to tail from.
pub fn resolve_bookmark(latest: &Option<Entry>) -> (b: Bookmark)
    ensures
        b.0 == spec_resolve(*latest),
{
    match latest {
        None => Bookmark(i64::MIN),
        Some(e) => match e.get("ts") {
            Some(Value::Int(i)) => Bookmark(*i),
            _ => Bookmark(i64::MIN),
        },
    }
}

/// The integer sequence value of record `e`, if its `ts` field holds one.
pub open spec fn entry_seq_val(e: Entry) -> Option<i64> {
    match entry_lookup(e, "ts"@) {
        Some(Value::Int(i)) => Some(i),
        _ => None::<i64>,
    }
}

/// What the cursor filter `ts > b` means of one record: it is delivered
/// iff its sequence value is strictly greater than the bookmark.
pub open spec fn spec_passes(e: Entry, b: i64) -> bool {
    match entry_seq_val(e) {
        Some(t) => t > b,
        None => false,
    }
}

/// Whether record `e` would pass the tailing filter opened at bookmark `b`.
pub fn entry_passes(e: &Entry, b: &Bookmark) -> (r: bool)
    ensures
        r == spec_passes(*e, b.0),
{
    match e.get("ts") {
        Some(v) => match v {
            Value::Int(t) => *t > b.0,
            _ => false,
        },
        None => false,
    }
}

/// For a log whose records stand at strictly increasing sequence values,
/// the bookmark resolved from the latest record is the greatest sequence
/// value present; the filter opened at that bookmark delivers none of the
/// records already in the log, and delivers every record written after it
/// (that is, with a greater sequence value).
pub proof fn lemma_bookmark_from_latest(log: Seq<Entry>)
    requires
        log.len() > 0,
        forall|i: int| 0 <= i < log.len() ==> entry_seq_val(#[trigger] log[i]) is Some,
        forall|i: int, j: int|
            0 <= i < j < log.len() ==> entry_seq_val(#[trigger] log[i]).unwrap() < entry_seq_val(
                #[trigger] log[j],
            ).unwrap(),
    ensures
        spec_resolve(Some(log.last())) == entry_seq_val(log.last()).unwrap(),
        forall|i: int|
            0 <= i < log.len() ==> !spec_passes(#[trigger] log[i], spec_resolve(Some(log.last()))),
        forall|e: Entry|
            entry_seq_val(e) is Some && entry_seq_val(e).unwrap() > entry_seq_val(
                log.last(),
            ).unwrap() ==> spec_passes(e, spec_resolve(Some(log.last()))),
{
    let b = spec_resolve(Some(log.last()));
    assert(entry_seq_val(log.last()) is Some);
    assert(b == entry_seq_val(log.last()).unwrap());
    assert forall|i: int| 0 <= i < log.len() implies !spec_passes(
        #[trigger] log[i],
        b,
    ) by {
        if i < log.len() - 1 {
            assert(entry_seq_val(log[i]).unwrap() < entry_seq_val(log[log.len() - 1]).unwrap());
        } else {
            assert(log[i] == log.last());
        }
    }
}

/// For an empty log the resolver returns the minimum bookmark, and the
/// filter opened at it delivers every record with a sequence value above
/// the minimum — that is, every record the store can subsequently write,
/// save one sitting exactly at the minimum representable value.
pub proof fn lemma_empty_log_tails_everything()
    ensures
        spec_resolve(None::<Entry>) == i64::MIN,
        forall|e: Entry|
            entry_seq_val(e) is Some && entry_seq_val(e).unwrap() > i64::MIN ==> spec_passes(
                e,
                spec_resolve(None::<Entry>),
            ),
{
}

} // verus!
