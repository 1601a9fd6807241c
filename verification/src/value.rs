//! Abstract wire values: the closed tagged union of encodable values and the
//! field table, an ordered-by-key mapping from short strings to values.

use vstd::prelude::*;
use vstd::utf8::encode_utf8;

use crate::types::{AMQPType, DecimalValue};

verus! {

/// Strict lexicographic order on byte sequences: the order in which a field
/// table's entries appear on the wire.
pub open spec fn bytes_lt(a: Seq<u8>, b: Seq<u8>) -> bool
    decreases a.len(),
{
    if b.len() == 0 {
        false
    } else if a.len() == 0 {
        true
    } else if a[0] < b[0] {
        true
    } else if a[0] > b[0] {
        false
    } else {
        bytes_lt(a.drop_first(), b.drop_first())
    }
}

/// `bytes_lt` is transitive.
pub proof fn lemma_bytes_lt_trans(a: Seq<u8>, b: Seq<u8>, c: Seq<u8>)
    requires
        bytes_lt(a, b),
        bytes_lt(b, c),
    ensures
        bytes_lt(a, c),
    decreases a.len(),
{
    if a.len() > 0 && b.len() > 0 && c.len() > 0 && a[0] == b[0] && b[0] == c[0] {
        lemma_bytes_lt_trans(a.drop_first(), b.drop_first(), c.drop_first());
    }
}

/// `bytes_lt` is a strict total order: two sequences are either equal or
/// ordered one way, and never both.
pub proof fn lemma_bytes_lt_connex(a: Seq<u8>, b: Seq<u8>)
    ensures
        bytes_lt(a, b) || bytes_lt(b, a) || a == b,
        bytes_lt(a, b) ==> !bytes_lt(b, a) && a != b,
    decreases a.len(),
{
    if a.len() == 0 && b.len() == 0 {
        assert(a =~= b);
    } else if a.len() > 0 && b.len() > 0 && a[0] == b[0] {
        lemma_bytes_lt_connex(a.drop_first(), b.drop_first());
        if a.drop_first() == b.drop_first() {
            assert forall|i: int| 0 <= i < a.len() implies a[i] == b[i] by {
                if i > 0 {
                    assert(a[i] == a.drop_first()[i - 1]);
                    assert(b[i] == b.drop_first()[i - 1]);
                }
            }
            assert(a =~= b);
        }
    }
}

/// Byte-wise comparison of two slices under the lexicographic order.
pub fn bytes_less(a: &[u8], b: &[u8]) -> (r: bool)
    ensures
        r == bytes_lt(a@, b@),
{
    let mut i: usize = 0;
    proof {
        assert(a@.skip(0) =~= a@);
        assert(b@.skip(0) =~= b@);
    }
    while i < a.len() && i < b.len()
        invariant
            i <= a@.len(),
            i <= b@.len(),
            bytes_lt(a@, b@) == bytes_lt(a@.skip(i as int), b@.skip(i as int)),
            bytes_lt(b@, a@) == bytes_lt(b@.skip(i as int), a@.skip(i as int)),
        decreases a@.len() - i,
    {
        if a[i] < b[i] {
            return true;
        }
        if a[i] > b[i] {
            return false;
        }
        proof {
            assert(a@.skip(i as int).drop_first() =~= a@.skip(i + 1));
            assert(b@.skip(i as int).drop_first() =~= b@.skip(i + 1));
        }
        i = i + 1;
    }
    a.len() < b.len()
}

/// Byte-wise equality of two slices.
pub fn bytes_eq(a: &[u8], b: &[u8]) -> (r: bool)
    ensures
        r == (a@ == b@),
{
    if a.len() != b.len() {
        proof {
            assert(a@ != b@);
        }
        return false;
    }
    let mut i: usize = 0;
    while i < a.len()
        invariant
            i <= a@.len(),
            a@.len() == b@.len(),
            forall|j: int| 0 <= j < i ==> a@[j] == b@[j],
        decreases a@.len() - i,
    {
        if a[i] != b[i] {
            return false;
        }
        i = i + 1;
    }
    proof {
        assert(a@ =~= b@);
    }
    true
}

/// An encodable wire value: one case per tag except the internal-only
/// `ShortString`. `Float` and `Double` carry IEEE-754 bit patterns, so the
/// codec stays bit-exact without floating-point arithmetic; the conversion
/// from a float lives outside the library.
#[derive(Debug, PartialEq)]
pub enum AMQPValue {
    Boolean(bool),
    ShortShortInt(i8),
    ShortShortUInt(u8),
    ShortInt(i16),
    ShortUInt(u16),
    LongInt(i32),
    LongUInt(u32),
    LongLongInt(i64),
    LongLongUInt(u64),
    Float(u32),
    Double(u64),
    DecimalValue(DecimalValue),
    LongString(String),
    FieldArray(Vec<AMQPValue>),
    Timestamp(u64),
    FieldTable(FieldTable),
    ByteArray(Vec<u8>),
    Void,
}

impl AMQPValue {
    /// The tag of this value.
    pub open spec fn spec_get_type(self) -> AMQPType {
        match self {
            AMQPValue::Boolean(_) => AMQPType::Boolean,
            AMQPValue::ShortShortInt(_) => AMQPType::ShortShortInt,
            AMQPValue::ShortShortUInt(_) => AMQPType::ShortShortUInt,
            AMQPValue::ShortInt(_) => AMQPType::ShortInt,
            AMQPValue::ShortUInt(_) => AMQPType::ShortUInt,
            AMQPValue::LongInt(_) => AMQPType::LongInt,
            AMQPValue::LongUInt(_) => AMQPType::LongUInt,
            AMQPValue::LongLongInt(_) => AMQPType::LongLongInt,
            AMQPValue::LongLongUInt(_) => AMQPType::LongLongUInt,
            AMQPValue::Float(_) => AMQPType::Float,
            AMQPValue::Double(_) => AMQPType::Double,
            AMQPValue::DecimalValue(_) => AMQPType::DecimalValue,
            AMQPValue::LongString(_) => AMQPType::LongString,
            AMQPValue::FieldArray(_) => AMQPType::FieldArray,
            AMQPValue::Timestamp(_) => AMQPType::Timestamp,
            AMQPValue::FieldTable(_) => AMQPType::FieldTable,
            AMQPValue::ByteArray(_) => AMQPType::ByteArray,
            AMQPValue::Void => AMQPType::Void,
        }
    }

    /// The tag of this value.
    pub fn get_type(&self) -> (t: AMQPType)
        ensures
            t == self.spec_get_type(),
    {
        match self {
            AMQPValue::Boolean(_) => AMQPType::Boolean,
            AMQPValue::ShortShortInt(_) => AMQPType::ShortShortInt,
            AMQPValue::ShortShortUInt(_) => AMQPType::ShortShortUInt,
            AMQPValue::ShortInt(_) => AMQPType::ShortInt,
            AMQPValue::ShortUInt(_) => AMQPType::ShortUInt,
            AMQPValue::LongInt(_) => AMQPType::LongInt,
            AMQPValue::LongUInt(_) => AMQPType::LongUInt,
            AMQPValue::LongLongInt(_) => AMQPType::LongLongInt,
            AMQPValue::LongLongUInt(_) => AMQPType::LongLongUInt,
            AMQPValue::Float(_) => AMQPType::Float,
            AMQPValue::Double(_) => AMQPType::Double,
            AMQPValue::DecimalValue(_) => AMQPType::DecimalValue,
            AMQPValue::LongString(_) => AMQPType::LongString,
            AMQPValue::FieldArray(_) => AMQPType::FieldArray,
            AMQPValue::Timestamp(_) => AMQPType::Timestamp,
            AMQPValue::FieldTable(_) => AMQPType::FieldTable,
            AMQPValue::ByteArray(_) => AMQPType::ByteArray,
            AMQPValue::Void => AMQPType::Void,
        }
    }
}

/// The UTF-8 bytes of an entry's key.
pub open spec fn entry_key_bytes(e: (String, AMQPValue)) -> Seq<u8> {
    encode_utf8(e.0@)
}

/// Keys strictly ascending in byte order, each at most 255 bytes long: the
/// shape `insert` maintains.
pub open spec fn sorted_keys(s: Seq<(String, AMQPValue)>) -> bool {
    &&& forall|i: int, j: int|
        0 <= i < j < s.len() ==> bytes_lt(entry_key_bytes(s[i]), entry_key_bytes(s[j]))
    &&& forall|i: int| 0 <= i < s.len() ==> (#[trigger] entry_key_bytes(s[i])).len() <= 255
}

/// The mapping from key bytes to values that a sequence of entries holds;
/// later entries win, though under `sorted_keys` keys never repeat.
pub open spec fn table_map(s: Seq<(String, AMQPValue)>) -> Map<Seq<u8>, AMQPValue>
    decreases s.len(),
{
    if s.len() == 0 {
        Map::empty()
    } else {
        table_map(s.drop_last()).insert(entry_key_bytes(s.last()), s.last().1)
    }
}

/// A key is in the map exactly when some entry carries it.
pub proof fn lemma_table_map_contains(s: Seq<(String, AMQPValue)>, k: Seq<u8>)
    ensures
        table_map(s).dom().contains(k) <==> exists|i: int|
            0 <= i < s.len() && entry_key_bytes(s[i]) == k,
    decreases s.len(),
{
    if s.len() > 0 {
        lemma_table_map_contains(s.drop_last(), k);
        if table_map(s).dom().contains(k) {
            if entry_key_bytes(s.last()) == k {
                assert(entry_key_bytes(s[s.len() - 1]) == k);
            } else {
                let i = choose|i: int|
                    0 <= i < s.drop_last().len() && entry_key_bytes(s.drop_last()[i]) == k;
                assert(entry_key_bytes(s[i]) == k);
            }
        }
        if exists|i: int| 0 <= i < s.len() && entry_key_bytes(s[i]) == k {
            let i = choose|i: int| 0 <= i < s.len() && entry_key_bytes(s[i]) == k;
            if i < s.len() - 1 {
                assert(entry_key_bytes(s.drop_last()[i]) == k);
            }
        }
    }
}

/// Under `sorted_keys`, looking an entry's key up in the map yields that
/// entry's value.
pub proof fn lemma_table_map_lookup(s: Seq<(String, AMQPValue)>, i: int)
    requires
        sorted_keys(s),
        0 <= i < s.len(),
    ensures
        table_map(s).dom().contains(entry_key_bytes(s[i])),
        table_map(s)[entry_key_bytes(s[i])] == s[i].1,
    decreases s.len(),
{
    lemma_table_map_contains(s, entry_key_bytes(s[i]));
    if i < s.len() - 1 {
        lemma_bytes_lt_connex(entry_key_bytes(s[i]), entry_key_bytes(s.last()));
        assert(sorted_keys(s.drop_last())) by {
            assert(forall|x: int, y: int|
                0 <= x < y < s.drop_last().len() ==> bytes_lt(
                    entry_key_bytes(#[trigger] s.drop_last()[x]),
                    entry_key_bytes(#[trigger] s.drop_last()[y]),
                ));
            assert(forall|x: int|
                0 <= x < s.drop_last().len() ==> (#[trigger] entry_key_bytes(
                    s.drop_last()[x],
                )).len() <= 255);
        }
        assert(s.drop_last()[i] == s[i]);
        lemma_table_map_lookup(s.drop_last(), i);
    }
}

/// An ordered-by-key mapping from short strings (at most 255 bytes) to
/// values. Entries stay in strictly ascending key-byte order by
/// construction: build a table with [`FieldTable::new`] and
/// [`FieldTable::insert`].
#[derive(Debug, PartialEq)]
pub struct FieldTable {
    /// The entries, in ascending key-byte order when the table is
    /// well-formed.
    pub entries: Vec<(String, AMQPValue)>,
}

impl FieldTable {
    /// Entries in ascending key-byte order with keys of at most 255 bytes.
    pub open spec fn wf_keys(self) -> bool {
        sorted_keys(self.entries@)
    }

    /// The mapping this table holds, from key bytes to values.
    pub open spec fn spec_map(self) -> Map<Seq<u8>, AMQPValue> {
        table_map(self.entries@)
    }

    /// An empty table.
    pub fn new() -> (t: FieldTable)
        ensures
            t.wf_keys(),
            t.spec_map() == Map::<Seq<u8>, AMQPValue>::empty(),
            t.entries@.len() == 0,
    {
        FieldTable { entries: Vec::new() }
    }

    /// Inserts an entry, replacing any entry with the same key bytes, and
    /// keeps the entries in ascending key-byte order whatever the insertion
    /// order was.
    pub fn insert(&mut self, key: String, value: AMQPValue)
        requires
            old(self).wf_keys(),
            encode_utf8(key@).len() <= 255,
        ensures
            final(self).wf_keys(),
            final(self).spec_map() == old(self).spec_map().insert(encode_utf8(key@), value),
            final(self).entries@.len() <= old(self).entries@.len() + 1,
            forall|i: int|
                0 <= i < final(self).entries@.len() ==> (#[trigger] final(self).entries@[i]).1
                    == value || old(self).entries@.contains(final(self).entries@[i]),
    {
        let ghost old_entries = self.entries@;
        let ghost kb = encode_utf8(key@);
        let mut i: usize = 0;
        loop
            invariant
                self.entries@ == old_entries,
                sorted_keys(old_entries),
                kb == encode_utf8(key@),
                kb.len() <= 255,
                i <= old_entries.len(),
                forall|j: int| 0 <= j < i ==> bytes_lt(entry_key_bytes(#[trigger] old_entries[j]), kb),
            ensures
                self.entries@ == old_entries,
                i <= old_entries.len(),
                forall|j: int| 0 <= j < i ==> bytes_lt(entry_key_bytes(#[trigger] old_entries[j]), kb),
                i < old_entries.len() ==> !bytes_lt(entry_key_bytes(old_entries[i as int]), kb),
            decreases old_entries.len() - i,
        {
            if i >= self.entries.len() {
                break ;
            }
            if !bytes_less(self.entries[i].0.as_str().as_bytes(), key.as_str().as_bytes()) {
                break ;
            }
            i = i + 1;
        }
        if i < self.entries.len() && bytes_eq(
            self.entries[i].0.as_str().as_bytes(),
            key.as_str().as_bytes(),
        ) {
            let ghost ii = i as int;
            self.entries[i] = (key, value);
            proof {
                assert(self.entries@ == old_entries.update(ii, (key, value)));
                assert forall|j: int| 0 <= j < old_entries.len() && j != ii implies entry_key_bytes(
                    #[trigger] old_entries[j],
                ) != kb by {
                    if j < ii {
                        lemma_bytes_lt_connex(entry_key_bytes(old_entries[j]), kb);
                    } else {
                        lemma_bytes_lt_connex(kb, entry_key_bytes(old_entries[j]));
                    }
                }
                lemma_sorted_update(old_entries, ii, (key, value));
                lemma_table_map_update(old_entries, ii, (key, value));
                assert forall|x: int| 0 <= x < self.entries@.len() implies (
                #[trigger] self.entries@[x]).1 == value || old_entries.contains(
                    self.entries@[x],
                ) by {
                    if x != ii {
                        assert(self.entries@[x] == old_entries[x]);
                    }
                }
            }
        } else {
            let ghost ii = i as int;
            proof {
                if ii < old_entries.len() {
                    lemma_bytes_lt_connex(entry_key_bytes(old_entries[ii]), kb);
                }
                assert forall|j: int| ii <= j < old_entries.len() implies bytes_lt(
                    kb,
                    entry_key_bytes(#[trigger] old_entries[j]),
                ) by {
                    if j > ii {
                        lemma_bytes_lt_trans(
                            kb,
                            entry_key_bytes(old_entries[ii]),
                            entry_key_bytes(old_entries[j]),
                        );
                    }
                }
                assert forall|j: int| 0 <= j < old_entries.len() implies entry_key_bytes(
                    #[trigger] old_entries[j],
                ) != kb by {
                    if j < ii {
                        lemma_bytes_lt_connex(entry_key_bytes(old_entries[j]), kb);
                    } else {
                        lemma_bytes_lt_connex(kb, entry_key_bytes(old_entries[j]));
                    }
                }
            }
            self.entries.insert(i, (key, value));
            proof {
                assert(self.entries@ == old_entries.insert(ii, (key, value)));
                lemma_sorted_insert(old_entries, ii, (key, value));
                lemma_table_map_insert(old_entries, ii, (key, value));
                assert forall|x: int| 0 <= x < self.entries@.len() implies (
                #[trigger] self.entries@[x]).1 == value || old_entries.contains(
                    self.entries@[x],
                ) by {
                    if x < i {
                        assert(self.entries@[x] == old_entries[x]);
                    } else if x > i {
                        assert(self.entries@[x] == old_entries[x - 1]);
                    }
                }
            }
        }
    }
}

/// Updating the entry at a position whose key bytes match the new entry's
/// keeps the entries sorted.
proof fn lemma_sorted_update(s: Seq<(String, AMQPValue)>, i: int, e: (String, AMQPValue))
    requires
        sorted_keys(s),
        0 <= i < s.len(),
        entry_key_bytes(s[i]) == entry_key_bytes(e),
    ensures
        sorted_keys(s.update(i, e)),
{
    let t = s.update(i, e);
    assert forall|x: int, y: int| 0 <= x < y < t.len() implies bytes_lt(
        entry_key_bytes(t[x]),
        entry_key_bytes(t[y]),
    ) by {
        assert(bytes_lt(entry_key_bytes(s[x]), entry_key_bytes(s[y])));
    }
    assert forall|x: int| 0 <= x < t.len() implies (#[trigger] entry_key_bytes(t[x])).len()
        <= 255 by {
        assert(entry_key_bytes(s[x]).len() <= 255);
    }
}

/// Inserting an entry between the keys below it and the keys at or above it
/// keeps the entries sorted.
proof fn lemma_sorted_insert(s: Seq<(String, AMQPValue)>, i: int, e: (String, AMQPValue))
    requires
        sorted_keys(s),
        0 <= i <= s.len(),
        entry_key_bytes(e).len() <= 255,
        forall|j: int| 0 <= j < i ==> bytes_lt(entry_key_bytes(#[trigger] s[j]), entry_key_bytes(e)),
        forall|j: int|
            i <= j < s.len() ==> bytes_lt(entry_key_bytes(e), entry_key_bytes(#[trigger] s[j])),
    ensures
        sorted_keys(s.insert(i, e)),
{
    let t = s.insert(i, e);
    assert forall|x: int, y: int| 0 <= x < y < t.len() implies bytes_lt(
        entry_key_bytes(t[x]),
        entry_key_bytes(t[y]),
    ) by {
        if x < i && y < i {
            assert(t[x] == s[x] && t[y] == s[y]);
        } else if x < i && y == i {
            assert(t[x] == s[x]);
        } else if x < i && y > i {
            assert(t[x] == s[x] && t[y] == s[y - 1]);
        } else if x == i {
            assert(t[y] == s[y - 1]);
        } else {
            assert(t[x] == s[x - 1] && t[y] == s[y - 1]);
        }
    }
    assert forall|x: int| 0 <= x < t.len() implies (#[trigger] entry_key_bytes(t[x])).len()
        <= 255 by {
        if x < i {
            assert(t[x] == s[x]);
        } else if x > i {
            assert(t[x] == s[x - 1]);
        }
    }
}

/// Replacing the entry whose key bytes equal the new entry's changes the
/// table's map exactly as a map insert does.
proof fn lemma_table_map_update(s: Seq<(String, AMQPValue)>, i: int, e: (String, AMQPValue))
    requires
        0 <= i < s.len(),
        entry_key_bytes(s[i]) == entry_key_bytes(e),
        forall|j: int|
            0 <= j < s.len() && j != i ==> entry_key_bytes(#[trigger] s[j]) != entry_key_bytes(e),
    ensures
        table_map(s.update(i, e)) == table_map(s).insert(entry_key_bytes(e), e.1),
    decreases s.len(),
{
    let t = s.update(i, e);
    if i == s.len() - 1 {
        assert(t.drop_last() =~= s.drop_last());
        assert(table_map(t) == table_map(s.drop_last()).insert(entry_key_bytes(e), e.1));
        assert(table_map(s).insert(entry_key_bytes(e), e.1) =~= table_map(s.drop_last()).insert(
            entry_key_bytes(e),
            e.1,
        ));
    } else {
        assert(t.drop_last() =~= s.drop_last().update(i, e));
        assert(t.last() == s.last());
        assert(forall|j: int|
            0 <= j < s.drop_last().len() && j != i ==> entry_key_bytes(#[trigger] s.drop_last()[j])
                != entry_key_bytes(e));
        assert(s.drop_last()[i] == s[i]);
        lemma_table_map_update(s.drop_last(), i, e);
        assert(entry_key_bytes(s.last()) != entry_key_bytes(e));
        assert(table_map(s.drop_last()).insert(entry_key_bytes(e), e.1).insert(
            entry_key_bytes(s.last()),
            s.last().1,
        ) =~= table_map(s.drop_last()).insert(entry_key_bytes(s.last()), s.last().1).insert(
            entry_key_bytes(e),
            e.1,
        ));
    }
}

/// Inserting an entry whose key bytes match no existing entry changes the
/// table's map exactly as a map insert does.
proof fn lemma_table_map_insert(s: Seq<(String, AMQPValue)>, i: int, e: (String, AMQPValue))
    requires
        0 <= i <= s.len(),
        forall|j: int| 0 <= j < s.len() ==> entry_key_bytes(#[trigger] s[j]) != entry_key_bytes(e),
    ensures
        table_map(s.insert(i, e)) == table_map(s).insert(entry_key_bytes(e), e.1),
    decreases s.len(),
{
    let t = s.insert(i, e);
    if i == s.len() {
        assert(t.drop_last() =~= s);
        assert(t.last() == e);
    } else {
        assert(t.drop_last() =~= s.drop_last().insert(i, e));
        assert(t.last() == s.last());
        assert(forall|j: int|
            0 <= j < s.drop_last().len() ==> entry_key_bytes(#[trigger] s.drop_last()[j])
                != entry_key_bytes(e));
        lemma_table_map_insert(s.drop_last(), i, e);
        assert(entry_key_bytes(s.last()) != entry_key_bytes(e));
        assert(table_map(s.drop_last()).insert(entry_key_bytes(e), e.1).insert(
            entry_key_bytes(s.last()),
            s.last().1,
        ) =~= table_map(s.drop_last()).insert(entry_key_bytes(s.last()), s.last().1).insert(
            entry_key_bytes(e),
            e.1,
        ));
    }
}

} // verus!

verus! {

/// Dropping the last entry keeps the keys sorted.
proof fn lemma_sorted_drop_last(s: Seq<(String, AMQPValue)>)
    requires
        sorted_keys(s),
        s.len() > 0,
    ensures
        sorted_keys(s.drop_last()),
{
    assert forall|x: int, y: int| 0 <= x < y < s.drop_last().len() implies bytes_lt(
        entry_key_bytes(#[trigger] s.drop_last()[x]),
        entry_key_bytes(#[trigger] s.drop_last()[y]),
    ) by {
        assert(s.drop_last()[x] == s[x] && s.drop_last()[y] == s[y]);
    }
    assert forall|x: int| 0 <= x < s.drop_last().len() implies (#[trigger] entry_key_bytes(
        s.drop_last()[x],
    )).len() <= 255 by {
        assert(s.drop_last()[x] == s[x]);
        assert(entry_key_bytes(s[x]).len() <= 255);
    }
}

/// Sorted entries are determined by the mapping they hold: two sorted entry
/// sequences holding the same mapping agree position by position on key bytes
/// and values.
pub proof fn lemma_table_map_determines_entries(
    s1: Seq<(String, AMQPValue)>,
    s2: Seq<(String, AMQPValue)>,
)
    requires
        sorted_keys(s1),
        sorted_keys(s2),
        table_map(s1) == table_map(s2),
    ensures
        s1.len() == s2.len(),
        forall|i: int|
            0 <= i < s1.len() ==> entry_key_bytes(#[trigger] s1[i]) == entry_key_bytes(s2[i])
                && s1[i].1 == s2[i].1,
    decreases s1.len(),
{
    if s1.len() == 0 {
        if s2.len() > 0 {
            lemma_table_map_contains(s2, entry_key_bytes(s2[0]));
            lemma_table_map_contains(s1, entry_key_bytes(s2[0]));
            assert(false);
        }
    } else if s2.len() == 0 {
        lemma_table_map_contains(s1, entry_key_bytes(s1[0]));
        lemma_table_map_contains(s2, entry_key_bytes(s1[0]));
        assert(false);
    } else {
        let k1 = entry_key_bytes(s1.last());
        let k2 = entry_key_bytes(s2.last());
        lemma_table_map_contains(s1, k1);
        lemma_table_map_contains(s2, k1);
        lemma_table_map_contains(s1, k2);
        lemma_table_map_contains(s2, k2);
        assert(s1[s1.len() - 1] == s1.last());
        assert(s2[s2.len() - 1] == s2.last());
        // the last key of each sequence is the largest key of the shared map,
        // so the two last keys are equal
        assert(k1 == k2) by {
            if k1 != k2 {
                let j2 = choose|j: int| 0 <= j < s2.len() && entry_key_bytes(s2[j]) == k1;
                assert(j2 < s2.len() - 1);
                assert(bytes_lt(k1, k2));
                let j1 = choose|j: int| 0 <= j < s1.len() && entry_key_bytes(s1[j]) == k2;
                assert(j1 < s1.len() - 1);
                assert(bytes_lt(k2, k1));
                lemma_bytes_lt_connex(k1, k2);
                assert(false);
            }
        }
        lemma_table_map_lookup(s1, s1.len() - 1);
        lemma_table_map_lookup(s2, s2.len() - 1);
        assert(s1.last().1 == s2.last().1);
        // the maps without the shared last key are the maps of the shorter
        // sequences
        lemma_table_map_contains(s1.drop_last(), k1);
        lemma_table_map_contains(s2.drop_last(), k2);
        assert(!table_map(s1.drop_last()).dom().contains(k1)) by {
            if table_map(s1.drop_last()).dom().contains(k1) {
                let j = choose|j: int|
                    0 <= j < s1.drop_last().len() && entry_key_bytes(s1.drop_last()[j]) == k1;
                assert(s1.drop_last()[j] == s1[j]);
                assert(bytes_lt(entry_key_bytes(s1[j]), k1));
                lemma_bytes_lt_connex(entry_key_bytes(s1[j]), k1);
                assert(false);
            }
        }
        assert(!table_map(s2.drop_last()).dom().contains(k2)) by {
            if table_map(s2.drop_last()).dom().contains(k2) {
                let j = choose|j: int|
                    0 <= j < s2.drop_last().len() && entry_key_bytes(s2.drop_last()[j]) == k2;
                assert(s2.drop_last()[j] == s2[j]);
                assert(bytes_lt(entry_key_bytes(s2[j]), k2));
                lemma_bytes_lt_connex(entry_key_bytes(s2[j]), k2);
                assert(false);
            }
        }
        assert(table_map(s1.drop_last()) =~= table_map(s1).remove(k1));
        assert(table_map(s2.drop_last()) =~= table_map(s2).remove(k2));
        lemma_sorted_drop_last(s1);
        lemma_sorted_drop_last(s2);
        lemma_table_map_determines_entries(s1.drop_last(), s2.drop_last());
        assert forall|i: int| 0 <= i < s1.len() implies entry_key_bytes(#[trigger] s1[i])
            == entry_key_bytes(s2[i]) && s1[i].1 == s2[i].1 by {
            if i < s1.len() - 1 {
                assert(s1.drop_last()[i] == s1[i]);
                assert(s2.drop_last()[i] == s2[i]);
                assert(entry_key_bytes(s1.drop_last()[i]) == entry_key_bytes(s2.drop_last()[i]));
            }
        }
    }
}

} // verus!
