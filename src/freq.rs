//! Frequency tables: how often each distinct value occurs, most frequent
//! first.

use vstd::prelude::*;
use vstd::string::*;
use crate::catalog::{CodeError, Coded};
use crate::seqs::lemma_filter_push;

verus! {

broadcast use vstd::seq_lib::group_seq_properties;

/// The most groups one frequency table holds.
pub const TABLE_SIZE: usize = 100;

/// One row of a frequency table.
pub struct FormattedFreqItem {
    pub frequency: usize,
    pub value: String,
}

/// The texts that strings read.
pub open spec fn texts(values: Seq<String>) -> Seq<Seq<char>> {
    values.map_values(|s: String| s@)
}

/// The predicate "the text is `v`".
pub open spec fn reads(v: Seq<char>) -> spec_fn(Seq<char>) -> bool {
    |t: Seq<char>| t == v
}

/// How many of `values` are `v`.
pub open spec fn occurrences(values: Seq<Seq<char>>, v: Seq<char>) -> nat {
    values.filter(reads(v)).len()
}

/// Some text of `keys` reads `v`.
pub open spec fn has_key(keys: Seq<String>, v: Seq<char>) -> bool {
    exists|k: int| 0 <= k < keys.len() && #[trigger] keys[k]@ == v
}

/// Some row of `items` has the value `v`.
pub open spec fn has_value(items: Seq<FormattedFreqItem>, v: Seq<char>) -> bool {
    exists|j: int| 0 <= j < items.len() && #[trigger] items[j].value@ == v
}

/// `r` is the frequency table of `values`: each row holds a distinct value
/// of `values` and how often it occurs, the rows run from the most frequent
/// down, there are at most `TABLE_SIZE` of them, and a value without a row
/// occurs no more often than the last row.
pub open spec fn is_frequency_table(r: Seq<FormattedFreqItem>, values: Seq<Seq<char>>) -> bool {
    &&& r.len() <= TABLE_SIZE
    &&& forall|i: int|
        0 <= i < r.len() ==> (#[trigger] r[i]).frequency == occurrences(values, r[i].value@)
            && r[i].frequency >= 1
    &&& forall|i: int, j: int| 0 <= i < j < r.len() ==> (#[trigger] r[i]).value@ != (#[trigger] r[j]).value@
    &&& forall|i: int, j: int|
        0 <= i < j < r.len() ==> (#[trigger] r[i]).frequency >= (#[trigger] r[j]).frequency
    &&& forall|m: int|
        0 <= m < values.len() ==> has_value(r, #[trigger] values[m]) || (r.len() == TABLE_SIZE
            && occurrences(values, values[m]) <= r[TABLE_SIZE - 1].frequency)
}

proof fn lemma_occurrences_push(values: Seq<Seq<char>>, x: Seq<char>, v: Seq<char>)
    ensures
        occurrences(values.push(x), v) == occurrences(values, v) + if x == v { 1nat } else { 0nat },
        occurrences(values, v) <= values.len(),
{
    lemma_filter_push(values, x, reads(v));
    values.lemma_filter_len(reads(v));
}

/// The distinct values of `values` in order of first occurrence, each with
/// how often it occurs.
fn group_counts(values: &Vec<String>) -> (r: (Vec<String>, Vec<usize>))
    ensures
        r.0@.len() == r.1@.len(),
        forall|k: int|
            0 <= k < r.0@.len() ==> #[trigger] r.1@[k] == occurrences(texts(values@), r.0@[k]@) && r.1@[k] >= 1,
        forall|a: int, b: int| 0 <= a < b < r.0@.len() ==> (#[trigger] r.0@[a])@ != (#[trigger] r.0@[b])@,
        forall|m: int|
            0 <= m < values@.len() ==> has_key(r.0@, (#[trigger] values@[m])@),
{
    let mut keys: Vec<String> = Vec::new();
    let mut counts: Vec<usize> = Vec::new();
    let mut i: usize = 0;
    while i < values.len()
        invariant
            i <= values@.len(),
            keys@.len() == counts@.len(),
            forall|k: int|
                0 <= k < keys@.len() ==> #[trigger] counts@[k] == occurrences(texts(values@).take(i as int), keys@[k]@)
                    && counts@[k] >= 1,
            forall|a: int, b: int| 0 <= a < b < keys@.len() ==> (#[trigger] keys@[a])@ != (#[trigger] keys@[b])@,
            forall|m: int| 0 <= m < i ==> has_key(keys@, (#[trigger] values@[m])@),
        decreases values@.len() - i,
    {
        let v = &values[i];
        let ghost prefix = texts(values@).take(i as int);
        let ghost old_keys = keys@;
        let ghost old_counts = counts@;
        proof {
            assert(texts(values@).take(i + 1) =~= prefix.push(v@));
            assert forall|w: Seq<char>|
                #[trigger] occurrences(texts(values@).take(i + 1), w) == occurrences(prefix, w) + (if v@ == w {
                    1nat
                } else {
                    0nat
                }) && occurrences(prefix, w) <= i by {
                lemma_occurrences_push(prefix, v@, w);
            }
        }
        let mut k: usize = 0;
        while k < keys.len() && !(keys[k] == *v)
            invariant
                k <= keys@.len(),
                forall|a: int| 0 <= a < k ==> (#[trigger] keys@[a])@ != v@,
            decreases keys@.len() - k,
        {
            k = k + 1;
        }
        if k < keys.len() {
            counts[k] = counts[k] + 1;
        } else {
            keys.push(v.clone());
            counts.push(1);
        }
        proof {
            assert(keys@[k as int]@ == v@);
            assert forall|a: int| 0 <= a < keys@.len() implies #[trigger] counts@[a] == occurrences(
                texts(values@).take(i + 1),
                keys@[a]@,
            ) && counts@[a] >= 1 by {
                if a < old_keys.len() {
                    assert(keys@[a] == old_keys[a]);
                    assert(occurrences(texts(values@).take(i + 1), keys@[a]@) == occurrences(prefix, keys@[a]@) + (if v@ == keys@[a]@ { 1nat } else { 0nat }));
                } else {
                    assert(occurrences(texts(values@).take(i + 1), keys@[a]@) == occurrences(prefix, keys@[a]@) + 1);
                    assert(occurrences(prefix, v@) == 0) by {
                        assert forall|m: int| 0 <= m < prefix.len() implies !#[trigger] reads(v@)(prefix[m]) by {
                            assert(prefix[m] == values@[m]@);
                            let b = choose|b: int| 0 <= b < old_keys.len() && #[trigger] old_keys[b]@ == values@[m]@;
                        }
                        prefix.lemma_all_neg_filter_empty(reads(v@));
                    }
                }
            }
            assert forall|m: int| 0 <= m < i + 1 implies has_key(keys@, (#[trigger] values@[m])@) by {
                if m == i {
                    assert(keys@[k as int]@ == values@[m]@);
                } else {
                    let a = choose|a: int| 0 <= a < old_keys.len() && #[trigger] old_keys[a]@ == values@[m]@;
                    assert(keys@[a] == old_keys[a]);
                }
            }
        }
        i = i + 1;
    }
    proof {
        assert(texts(values@).take(values@.len() as int) =~= texts(values@));
    }
    (keys, counts)
}

/// The distinct values of `values`, each with the number of times it occurs,
/// most frequent first, cut to the first `TABLE_SIZE` rows. A value that is
/// left out occurs no more often than the last row kept.
pub fn frequencies(values: &Vec<String>) -> (r: Vec<FormattedFreqItem>)
    ensures
        is_frequency_table(r@, texts(values@)),
{
    let (mut keys, mut counts) = group_counts(values);
    let ghost keys0 = keys@;
    let ghost counts0 = counts@;
    let ghost g = keys@.len();
    let mut out: Vec<FormattedFreqItem> = Vec::new();
    while keys.len() > 0
        invariant
            keys@.len() == counts@.len(),
            keys@.len() <= g,
            g == keys0.len(),
            g == counts0.len(),
            keys@ == keys0.take(keys@.len() as int),
            counts@ == counts0.take(keys@.len() as int),
            forall|k: int| 0 <= k < g ==> #[trigger] counts0[k] == occurrences(texts(values@), keys0[k]@) && counts0[k] >= 1,
            forall|a: int, b: int| 0 <= a < b < g ==> (#[trigger] keys0[a])@ != (#[trigger] keys0[b])@,
            forall|j: int|
                0 <= j < out@.len() ==> (#[trigger] out@[j]).frequency == occurrences(texts(values@), out@[j].value@)
                    && out@[j].frequency >= 1,
            forall|j: int, k: int| 0 <= j < out@.len() && 0 <= k < keys@.len() ==> (#[trigger] out@[j]).value@ != (#[trigger] keys0[k])@,
            forall|i: int, j: int| 0 <= i < j < out@.len() ==> (#[trigger] out@[i]).value@ != (#[trigger] out@[j]).value@,
            forall|i: int, j: int|
                0 <= i < j < out@.len() ==> (#[trigger] out@[i]).frequency >= (#[trigger] out@[j]).frequency,
            forall|k: int| keys@.len() <= k < g ==> has_value(out@, (#[trigger] keys0[k])@),
        decreases keys@.len(),
    {
        let ghost rem = keys@.len() as int;
        let key = keys.pop().unwrap();
        let count = counts.pop().unwrap();
        let mut p: usize = 0;
        while p < out.len() && out[p].frequency > count
            invariant
                p <= out@.len(),
                forall|a: int| 0 <= a < p ==> (#[trigger] out@[a]).frequency > count,
            decreases out@.len() - p,
        {
            p = p + 1;
        }
        let ghost before = out@;
        out.insert(p, FormattedFreqItem { frequency: count, value: key });
        proof {
            assert(keys@ =~= keys0.take(rem - 1));
            assert(counts@ =~= counts0.take(rem - 1));
            assert(out@[p as int].value@ == keys0[rem - 1]@);
            assert forall|j: int| 0 <= j < out@.len() implies (#[trigger] out@[j]).frequency == occurrences(texts(values@), out@[j].value@)
                && out@[j].frequency >= 1 by {
                if j < p {
                    assert(out@[j] == before[j]);
                } else if j > p {
                    assert(out@[j] == before[j - 1]);
                }
            }
            assert forall|j: int, k: int| 0 <= j < out@.len() && 0 <= k < keys@.len() implies (#[trigger] out@[j]).value@ != (#[trigger] keys0[k])@ by {
                if j < p {
                    assert(out@[j] == before[j]);
                } else if j > p {
                    assert(out@[j] == before[j - 1]);
                } else {
                    assert(keys0[k]@ != keys0[rem - 1]@);
                }
            }
            assert forall|i: int, j: int| 0 <= i < j < out@.len() implies (#[trigger] out@[i]).value@ != (#[trigger] out@[j]).value@ by {
                if j < p {
                    assert(out@[i] == before[i] && out@[j] == before[j]);
                } else if j == p {
                    assert(out@[i] == before[i]);
                } else if i > p {
                    assert(out@[i] == before[i - 1] && out@[j] == before[j - 1]);
                } else if i == p {
                    assert(out@[j] == before[j - 1]);
                } else {
                    assert(out@[i] == before[i] && out@[j] == before[j - 1]);
                }
            }
            assert forall|i: int, j: int| 0 <= i < j < out@.len() implies (#[trigger] out@[i]).frequency >= (#[trigger] out@[j]).frequency by {
                if j < p {
                    assert(out@[i] == before[i] && out@[j] == before[j]);
                } else if j == p {
                    assert(out@[i] == before[i]);
                } else if i > p {
                    assert(out@[i] == before[i - 1] && out@[j] == before[j - 1]);
                } else if i == p {
                    assert(out@[j] == before[j - 1]);
                    assert(before[p as int].frequency <= count);
                    assert(before[p as int].frequency >= before[j - 1].frequency || j - 1 == p);
                } else {
                    assert(out@[i] == before[i] && out@[j] == before[j - 1]);
                }
            }
            assert forall|k: int| keys@.len() <= k < g implies has_value(out@, (#[trigger] keys0[k])@) by {
                if k == rem - 1 {
                    assert(out@[p as int].value@ == keys0[k]@);
                } else {
                    let j = choose|j: int| 0 <= j < before.len() && #[trigger] before[j].value@ == keys0[k]@;
                    if j < p {
                        assert(out@[j] == before[j]);
                    } else {
                        assert(out@[j + 1] == before[j]);
                    }
                }
            }
        }
    }
    let ghost full = out@;
    out.truncate(TABLE_SIZE);
    proof {
        let ghost tv = texts(values@);
        assert forall|m: int| 0 <= m < tv.len() implies has_value(out@, #[trigger] tv[m]) || (out@.len()
                == TABLE_SIZE && occurrences(tv, tv[m]) <= out@[TABLE_SIZE - 1].frequency) by {
            assert(tv[m] == values@[m]@);
            let k = choose|k: int| 0 <= k < g && #[trigger] keys0[k]@ == values@[m]@;
            assert(has_value(full, keys0[k]@));
            let j = choose|j: int| 0 <= j < full.len() && #[trigger] full[j].value@ == keys0[k]@;
            if j < out@.len() {
                assert(out@[j] == full[j]);
            } else {
                assert(out@[TABLE_SIZE - 1] == full[TABLE_SIZE - 1]);
                assert(full[TABLE_SIZE - 1].frequency >= full[j].frequency);
            }
        }
    }
    out
}

/// `r` is a most frequent value of `values`, or "N/A" when there are none.
pub open spec fn is_favourite(r: Seq<char>, values: Seq<Seq<char>>) -> bool {
    if values.len() == 0 {
        r == "N/A"@
    } else {
        &&& occurrences(values, r) >= 1
        &&& forall|m: int| 0 <= m < values.len() ==> occurrences(values, #[trigger] values[m]) <= occurrences(values, r)
    }
}

/// The first row of a frequency table holds a most frequent value, and the
/// table is empty only when there are no values.
pub proof fn lemma_table_head(r: Seq<FormattedFreqItem>, values: Seq<Seq<char>>)
    requires
        is_frequency_table(r, values),
    ensures
        r.len() == 0 <==> values.len() == 0,
        r.len() > 0 ==> is_favourite(r[0].value@, values),
{
    if r.len() > 0 {
        values.lemma_filter_len(reads(r[0].value@));
        assert forall|m: int| 0 <= m < values.len() implies occurrences(values, #[trigger] values[m]) <= occurrences(values, r[0].value@) by {
            if has_value(r, values[m]) {
                let j = choose|j: int| 0 <= j < r.len() && #[trigger] r[j].value@ == values[m];
                if j > 0 {
                    assert(r[0].frequency >= r[j].frequency);
                }
            } else {
                assert(r[0].frequency >= r[TABLE_SIZE - 1].frequency);
            }
        }
    }
    if values.len() > 0 {
        assert(has_value(r, values[0]) || r.len() == TABLE_SIZE);
    }
}

/// A most frequent text of `values`, or "N/A" when there is none.
pub fn favourite(values: &Vec<String>) -> (r: String)
    ensures
        is_favourite(r@, texts(values@)),
{
    let table = frequencies(values);
    proof {
        lemma_table_head(table@, texts(values@));
    }
    if table.len() == 0 {
        String::from_str("N/A")
    } else {
        table[0].value.clone()
    }
}

/// The labels under which `codes` are shown, when each is known to `T`.
pub open spec fn code_texts<T: Coded>(codes: Seq<i64>) -> Seq<Seq<char>> {
    codes.map_values(|c: i64| (T::spec_decode(c as int)->Some_0).spec_text())
}

/// Every code names a value of `T`.
pub open spec fn all_known<T: Coded>(codes: Seq<i64>) -> bool {
    forall|i: int| 0 <= i < codes.len() ==> (T::spec_decode(#[trigger] codes[i] as int) is Some)
}

/// `i` is the position of the first code that names no value of `T`.
pub open spec fn first_unknown<T: Coded>(codes: Seq<i64>, i: int) -> bool {
    &&& 0 <= i < codes.len()
    &&& T::spec_decode(codes[i] as int) is None
    &&& forall|j: int| 0 <= j < i ==> (T::spec_decode(#[trigger] codes[j] as int) is Some)
}

/// The labels of `codes`, or the error for the first unknown one.
pub fn decode_all<T: Coded>(codes: &Vec<i64>) -> (r: Result<Vec<String>, CodeError>)
    ensures
        all_known::<T>(codes@) ==> (r matches Ok(v) && texts(v@) == code_texts::<T>(codes@)),
        !all_known::<T>(codes@) ==> exists|i: int|
            first_unknown::<T>(codes@, i) && r == Err::<Vec<String>, CodeError>(T::spec_unknown(#[trigger] codes@[i])),
{
    let mut out: Vec<String> = Vec::new();
    let mut i: usize = 0;
    while i < codes.len()
        invariant
            i <= codes@.len(),
            out@.len() == i,
            forall|j: int| 0 <= j < i ==> (T::spec_decode(#[trigger] codes@[j] as int) is Some),
            forall|j: int| 0 <= j < i ==> (#[trigger] out@[j])@ == (T::spec_decode(codes@[j] as int)->Some_0).spec_text(),
        decreases codes@.len() - i,
    {
        match T::decode(codes[i]) {
            Some(v) => {
                out.push(v.text());
            },
            None => {
                assert(first_unknown::<T>(codes@, i as int));
                return Err(T::unknown(codes[i]));
            },
        }
        i = i + 1;
    }
    assert(texts(out@) =~= code_texts::<T>(codes@));
    Ok(out)
}

/// The frequency table of the labels of `codes`, or the error for the first
/// code that names no value of `T`.
pub fn coded_frequencies<T: Coded>(codes: &Vec<i64>) -> (r: Result<Vec<FormattedFreqItem>, CodeError>)
    ensures
        all_known::<T>(codes@) ==> (r matches Ok(t) && is_frequency_table(t@, code_texts::<T>(codes@))),
        !all_known::<T>(codes@) ==> exists|i: int|
            first_unknown::<T>(codes@, i) && r == Err::<Vec<FormattedFreqItem>, CodeError>(T::spec_unknown(#[trigger] codes@[i])),
{
    match decode_all::<T>(codes) {
        Ok(labels) => Ok(frequencies(&labels)),
        Err(e) => Err(e),
    }
}

/// The label of a most frequent code ("N/A" when there are none), or the
/// error for the first code that names no value of `T`.
pub fn coded_favourite<T: Coded>(codes: &Vec<i64>) -> (r: Result<String, CodeError>)
    ensures
        all_known::<T>(codes@) ==> (r matches Ok(f) && is_favourite(f@, code_texts::<T>(codes@))),
        !all_known::<T>(codes@) ==> exists|i: int|
            first_unknown::<T>(codes@, i) && r == Err::<String, CodeError>(T::spec_unknown(#[trigger] codes@[i])),
{
    match decode_all::<T>(codes) {
        Ok(labels) => Ok(favourite(&labels)),
        Err(e) => Err(e),
    }
}

} // verus!
