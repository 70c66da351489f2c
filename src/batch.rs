//! Batches: each input normalized, the first of each canonical form kept.
use vstd::prelude::*;
use crate::normalizer::{normalized, UrlNormalizer};

verus! {

/// The canonical forms of the string entries, in input order; other entries
/// give none.
pub open spec fn normalized_texts(inputs: Seq<Option<String>>) -> Seq<Seq<char>>
    decreases inputs.len(),
{
    if inputs.len() == 0 {
        seq![]
    } else {
        let rest = normalized_texts(inputs.drop_last());
        match inputs.last() {
            Some(s) => rest.push(normalized(s@)),
            None => rest,
        }
    }
}

/// The first occurrence of each value, in order.
pub open spec fn first_occurrences(values: Seq<Seq<char>>) -> Seq<Seq<char>>
    decreases values.len(),
{
    if values.len() == 0 {
        seq![]
    } else {
        let prev = first_occurrences(values.drop_last());
        if prev.contains(values.last()) {
            prev
        } else {
            prev.push(values.last())
        }
    }
}

/// What a batch yields: the distinct canonical forms, first seen first.
pub open spec fn deduplicated(inputs: Seq<Option<String>>) -> Seq<Seq<char>> {
    first_occurrences(normalized_texts(inputs))
}

/// The characters of each string.
pub open spec fn texts(v: Seq<String>) -> Seq<Seq<char>> {
    v.map_values(|s: String| s@)
}

/// A deduplicated batch, with its counts.
pub struct BatchStats {
    /// The distinct canonical forms, first seen first.
    pub urls: Vec<String>,
    /// The number of entries handed in, strings or not.
    pub original: usize,
    /// The number of distinct canonical forms.
    pub unique: usize,
    /// `original - unique`.
    pub duplicates: usize,
}

/// Whether `v` holds a string with the characters of `t`.
fn holds_text(v: &Vec<String>, t: &String) -> (r: bool)
    ensures
        r == texts(v@).contains(t@),
{
    let n = v.len();
    let mut i: usize = 0;
    while i < n
        invariant
            n == v@.len(),
            i <= n,
            forall|j: int| 0 <= j < i ==> texts(v@)[j] != t@,
        decreases n - i,
    {
        if v[i] == *t {
            assert(texts(v@)[i as int] == t@);
            return true;
        }
        i = i + 1;
    }
    false
}

/// No more canonical forms than string entries.
pub proof fn lemma_normalized_texts_len(inputs: Seq<Option<String>>)
    ensures
        normalized_texts(inputs).len() <= inputs.len(),
    decreases inputs.len(),
{
    if inputs.len() > 0 {
        lemma_normalized_texts_len(inputs.drop_last());
    }
}

/// No more first occurrences than values.
pub proof fn lemma_first_occurrences_len(values: Seq<Seq<char>>)
    ensures
        first_occurrences(values).len() <= values.len(),
    decreases values.len(),
{
    if values.len() > 0 {
        lemma_first_occurrences_len(values.drop_last());
    }
}

/// A batch never yields more URLs than it was handed.
pub proof fn lemma_deduplicated_len(inputs: Seq<Option<String>>)
    ensures
        deduplicated(inputs).len() <= inputs.len(),
{
    lemma_normalized_texts_len(inputs);
    lemma_first_occurrences_len(normalized_texts(inputs));
}

/// The first occurrences hold no value twice, and hold exactly the values
/// that occur.
pub proof fn lemma_first_occurrences_distinct(values: Seq<Seq<char>>)
    ensures
        forall|i: int, j: int|
            0 <= i < j < first_occurrences(values).len() ==> first_occurrences(values)[i]
                != first_occurrences(values)[j],
        forall|x: Seq<char>| first_occurrences(values).contains(x) <==> values.contains(x),
    decreases values.len(),
{
    if values.len() > 0 {
        let init = values.drop_last();
        lemma_first_occurrences_distinct(init);
        assert forall|x: Seq<char>| values.contains(x) <==> (init.contains(x) || x
            == values.last()) by {
            if values.contains(x) {
                let k = choose|k: int| 0 <= k < values.len() && values[k] == x;
                if k < values.len() - 1 {
                    assert(init[k] == x);
                }
            }
            if init.contains(x) {
                let k = choose|k: int| 0 <= k < init.len() && init[k] == x;
                assert(values[k] == x);
            }
            if x == values.last() {
                assert(values[values.len() - 1] == x);
            }
        }
        let prev = first_occurrences(init);
        if !prev.contains(values.last()) {
            let next = prev.push(values.last());
            assert forall|x: Seq<char>| next.contains(x) <==> (prev.contains(x) || x
                == values.last()) by {
                if next.contains(x) {
                    let k = choose|k: int| 0 <= k < next.len() && next[k] == x;
                    if k < prev.len() {
                        assert(prev[k] == x);
                    }
                }
                if prev.contains(x) {
                    let k = choose|k: int| 0 <= k < prev.len() && prev[k] == x;
                    assert(next[k] == x);
                }
                if x == values.last() {
                    assert(next[next.len() - 1] == x);
                }
            }
            assert forall|i: int, j: int| 0 <= i < j < next.len() implies next[i] != next[j] by {
                if j == next.len() - 1 {
                    assert(prev[i] == next[i]);
                }
            }
        }
    }
}

/// A batch yields each canonical form of its string entries once, and no
/// other string.
pub proof fn lemma_deduplicated_distinct(inputs: Seq<Option<String>>)
    ensures
        forall|i: int, j: int|
            0 <= i < j < deduplicated(inputs).len() ==> deduplicated(inputs)[i] != deduplicated(
                inputs,
            )[j],
        forall|x: Seq<char>|
            deduplicated(inputs).contains(x) <==> normalized_texts(inputs).contains(x),
{
    lemma_first_occurrences_distinct(normalized_texts(inputs));
}

impl UrlNormalizer {
    /// Normalizes the string entries and keeps the first of each canonical
    /// form, in input order; entries that are no string are skipped.
    pub fn normalize_batch(&self, urls: Vec<Option<String>>) -> (r: Vec<String>)
        requires
            self.wf(),
        ensures
            texts(r@) == deduplicated(urls@),
    {
        let n = urls.len();
        let mut result: Vec<String> = Vec::new();
        let mut i: usize = 0;
        while i < n
            invariant
                self.wf(),
                n == urls@.len(),
                i <= n,
                texts(result@) == deduplicated(urls@.subrange(0, i as int)),
            decreases n - i,
        {
            let ghost before = urls@.subrange(0, i as int);
            assert(urls@.subrange(0, i + 1).drop_last() =~= before);
            assert(urls@.subrange(0, i + 1).last() == urls@[i as int]);
            match &urls[i] {
                Some(url_str) => {
                    let normalized = self.normalize(url_str.as_str());
                    proof {
                        let prior = normalized_texts(before);
                        assert(normalized_texts(urls@.subrange(0, i + 1)) == prior.push(
                            normalized@,
                        ));
                        assert(prior.push(normalized@).drop_last() =~= prior);
                    }
                    if !holds_text(&result, &normalized) {
                        result.push(normalized);
                        assert(texts(result@) =~= texts(result@).drop_last().push(
                            normalized@,
                        ));
                        assert(texts(result@).drop_last() =~= deduplicated(before));
                    }
                },
                None => {
                    assert(normalized_texts(urls@.subrange(0, i + 1)) == normalized_texts(
                        before,
                    ));
                },
            }
            i = i + 1;
        }
        assert(urls@.subrange(0, n as int) =~= urls@);
        result
    }

    /// `normalize_batch` with the number of entries handed in, of distinct
    /// canonical forms, and the difference of the two.
    pub fn normalize_batch_with_stats(&self, urls: Vec<Option<String>>) -> (r: BatchStats)
        requires
            self.wf(),
        ensures
            texts(r.urls@) == deduplicated(urls@),
            r.original == urls@.len(),
            r.unique == r.urls@.len(),
            r.duplicates == r.original - r.unique,
            r.original == r.unique + r.duplicates,
    {
        let original_count = urls.len();
        let ghost inputs = urls@;
        let result = self.normalize_batch(urls);
        let unique_count = result.len();
        proof {
            lemma_deduplicated_len(inputs);
        }
        let duplicate_count = original_count - unique_count;
        BatchStats {
            urls: result,
            original: original_count,
            unique: unique_count,
            duplicates: duplicate_count,
        }
    }
}

} // verus!
