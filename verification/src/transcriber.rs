use vstd::prelude::*;

verus! {

/// Beam width of the beam-search decoder.
pub const BEAM_SIZE: i32 = 5;

/// Unicode `White_Space`: the characters that trimming removes.
pub open spec fn is_whitespace(c: char) -> bool {
    let u = c as u32;
    ||| 0x09 <= u <= 0x0D
    ||| u == 0x20
    ||| u == 0x85
    ||| u == 0xA0
    ||| u == 0x1680
    ||| 0x2000 <= u <= 0x200A
    ||| u == 0x2028
    ||| u == 0x2029
    ||| u == 0x202F
    ||| u == 0x205F
    ||| u == 0x3000
}

/// `s` without its leading whitespace.
pub open spec fn trim_start(s: Seq<char>) -> Seq<char>
    decreases s.len(),
{
    if s.len() > 0 && is_whitespace(s[0]) {
        trim_start(s.drop_first())
    } else {
        s
    }
}

/// `s` without its trailing whitespace.
pub open spec fn trim_end(s: Seq<char>) -> Seq<char>
    decreases s.len(),
{
    if s.len() > 0 && is_whitespace(s.last()) {
        trim_end(s.drop_last())
    } else {
        s
    }
}

/// `s` without leading and trailing whitespace.
pub open spec fn trimmed(s: Seq<char>) -> Seq<char> {
    trim_end(trim_start(s))
}

/// The texts of `segments`, one after the other.
pub open spec fn concat_all(segments: Seq<String>) -> Seq<char>
    decreases segments.len(),
{
    if segments.len() == 0 {
        Seq::empty()
    } else {
        concat_all(segments.drop_last()) + segments.last()@
    }
}

/// Whether `c` is Unicode whitespace.
pub fn is_whitespace_char(c: char) -> (res: bool)
    ensures
        res == is_whitespace(c),
{
    let u: u32 = c as u32;
    (0x09 <= u && u <= 0x0D) || u == 0x20 || u == 0x85 || u == 0xA0 || u == 0x1680 || (0x2000
        <= u && u <= 0x200A) || u == 0x2028 || u == 0x2029 || u == 0x202F || u == 0x205F || u
        == 0x3000
}

/// Returns `s` with leading and trailing whitespace removed.
pub fn trim(s: &str) -> (res: String)
    ensures
        res@ == trimmed(s@),
{
    let n = s.unicode_len();
    let mut i: usize = 0;
    assert(s@.subrange(0, n as int) =~= s@);
    while i < n && is_whitespace_char(s.get_char(i))
        invariant
            n == s@.len(),
            i <= n,
            trim_start(s@) == trim_start(s@.subrange(i as int, n as int)),
        decreases n - i,
    {
        let ghost rest = s@.subrange(i as int, n as int);
        assert(rest.drop_first() =~= s@.subrange(i + 1, n as int));
        i = i + 1;
    }
    proof {
        let rest = s@.subrange(i as int, n as int);
        if i == n {
            assert(rest =~= Seq::<char>::empty());
        } else {
            assert(rest[0] == s@[i as int]);
        }
        assert(trim_start(s@) == rest);
    }
    let mut j: usize = n;
    while j > i && is_whitespace_char(s.get_char(j - 1))
        invariant
            n == s@.len(),
            i <= j <= n,
            trim_start(s@) == s@.subrange(i as int, n as int),
            trim_end(s@.subrange(i as int, n as int)) == trim_end(s@.subrange(i as int, j as int)),
        decreases j - i,
    {
        let ghost part = s@.subrange(i as int, j as int);
        assert(part.drop_last() =~= s@.subrange(i as int, j - 1));
        assert(part.last() == s@[j - 1]);
        j = j - 1;
    }
    proof {
        let part = s@.subrange(i as int, j as int);
        if j == i {
            assert(part =~= Seq::<char>::empty());
        } else {
            assert(part.last() == s@[j - 1]);
        }
    }
    s.substring_char(i, j).to_owned()
}

/// The transcript of a recording: the texts of whisper's segments joined
/// together, with leading and trailing whitespace removed.
pub fn finish_transcript(segments: &Vec<String>) -> (res: String)
    ensures
        res@ == trimmed(concat_all(segments@)),
        res@ == trimmed(segments@.map_values(|seg: String| seg@).flatten()),
        segments@.len() == 0 ==> res@ == Seq::<char>::empty(),
        segments@.len() == 1 ==> res@ == trimmed(segments@[0]@),
        segments@.len() == 2 ==> res@ == trimmed(segments@[0]@ + segments@[1]@),
{
    proof {
        lemma_concat_all_is_flatten(segments@);
        lemma_concat_all_laws(segments@);
        if segments@.len() == 0 {
            assert(trimmed(Seq::<char>::empty()) == Seq::<char>::empty());
        }
        if segments@.len() == 1 {
            assert(segments@ =~= Seq::<String>::empty().push(segments@[0]));
            lemma_concat_all_laws(Seq::<String>::empty().push(segments@[0]));
        }
        if segments@.len() == 2 {
            let a = Seq::<String>::empty().push(segments@[0]);
            assert(segments@ =~= a + seq![segments@[1]]);
            lemma_concat_all_laws(a);
            lemma_concat_all_laws(seq![segments@[1]]);
            lemma_concat_all_append(a, seq![segments@[1]]);
        }
    }

    let mut joined = String::new();
    let mut k: usize = 0;
    while k < segments.len()
        invariant
            k <= segments@.len(),
            joined@ == concat_all(segments@.take(k as int)),
        decreases segments@.len() - k,
    {
        assert(segments@.take(k + 1).drop_last() =~= segments@.take(k as int));
        joined.append(segments[k].as_str());
        k = k + 1;
    }
    assert(segments@.take(segments@.len() as int) =~= segments@);
    trim(joined.as_str())
}

/// Trimming leaves a contiguous piece of the text: everything before it and
/// after it is whitespace, and it neither starts nor ends with whitespace.
pub proof fn lemma_trimmed_shape(s: Seq<char>)
    ensures
        exists|a: int, b: int|
            0 <= a <= b <= s.len() && trimmed(s) == s.subrange(a, b) && (forall|k: int|
                0 <= k < a ==> is_whitespace(#[trigger] s[k])) && (forall|k: int|
                b <= k < s.len() ==> is_whitespace(#[trigger] s[k])) && (a < b ==> !is_whitespace(
                s[a]) && !is_whitespace(s[b - 1])),
{
    let a = lemma_trim_start_shape(s);
    let t = s.subrange(a, s.len() as int);
    let b = lemma_trim_end_shape(t);
    assert(t.subrange(0, b) =~= s.subrange(a, a + b));
    assert forall|k: int| a + b <= k < s.len() implies is_whitespace(#[trigger] s[k]) by {
        assert(s[k] == t[k - a]);
    }
    if 0 < b {
        assert(s[a] == t[0]);
        assert(s[a + b - 1] == t[b - 1]);
    }
    assert(0 <= a <= a + b <= s.len() && trimmed(s) == s.subrange(a, a + b));
}

/// `trim_start(s)` drops a prefix of whitespace of length `a`, and what is
/// left does not start with whitespace.
pub proof fn lemma_trim_start_shape(s: Seq<char>) -> (a: int)
    ensures
        0 <= a <= s.len(),
        trim_start(s) == s.subrange(a, s.len() as int),
        forall|k: int| 0 <= k < a ==> is_whitespace(#[trigger] s[k]),
        a < s.len() ==> !is_whitespace(s[a]),
    decreases s.len(),
{
    if s.len() > 0 && is_whitespace(s[0]) {
        let a1 = lemma_trim_start_shape(s.drop_first());
        assert(s.drop_first().subrange(a1, s.len() - 1) =~= s.subrange(a1 + 1, s.len() as int));
        assert forall|k: int| 0 <= k < a1 + 1 implies is_whitespace(#[trigger] s[k]) by {
            if k > 0 {
                assert(s[k] == s.drop_first()[k - 1]);
            }
        }
        if a1 + 1 < s.len() {
            assert(s[a1 + 1] == s.drop_first()[a1]);
        }
        a1 + 1
    } else {
        assert(s.subrange(0, s.len() as int) =~= s);
        0
    }
}

/// `trim_end(s)` keeps a prefix of length `b` that does not end with
/// whitespace, and drops only whitespace after it.
pub proof fn lemma_trim_end_shape(s: Seq<char>) -> (b: int)
    ensures
        0 <= b <= s.len(),
        trim_end(s) == s.subrange(0, b),
        forall|k: int| b <= k < s.len() ==> is_whitespace(#[trigger] s[k]),
        0 < b ==> !is_whitespace(s[b - 1]),
    decreases s.len(),
{
    if s.len() > 0 && is_whitespace(s.last()) {
        let b1 = lemma_trim_end_shape(s.drop_last());
        assert(s.drop_last().subrange(0, b1) =~= s.subrange(0, b1));
        assert forall|k: int| b1 <= k < s.len() implies is_whitespace(#[trigger] s[k]) by {
            if k < s.len() - 1 {
                assert(s[k] == s.drop_last()[k]);
            }
        }
        if 0 < b1 {
            assert(s[b1 - 1] == s.drop_last()[b1 - 1]);
        }
        b1
    } else {
        assert(s.subrange(0, s.len() as int) =~= s);
        s.len() as int
    }
}

/// Joining whisper's segments is plain concatenation: nothing gives the
/// empty text, a single segment gives its own text, and appending a segment
/// appends its text.
pub proof fn lemma_concat_all_laws(segments: Seq<String>)
    ensures
        concat_all(Seq::<String>::empty()) == Seq::<char>::empty(),
        segments.len() == 1 ==> concat_all(segments) == segments[0]@,
        forall|seg: String| #[trigger] concat_all(segments.push(seg)) == concat_all(segments) + seg@,
{
    if segments.len() == 1 {
        assert(segments.drop_last() =~= Seq::<String>::empty());
        assert(Seq::<char>::empty() + segments[0]@ =~= segments[0]@);
    }
    assert forall|seg: String| #[trigger] concat_all(segments.push(seg)) == concat_all(segments)
        + seg@ by {
        assert(segments.push(seg).drop_last() =~= segments);
    }
}

/// Joining the segments of two runs one after the other gives the first
/// run's text followed by the second's.
pub proof fn lemma_concat_all_append(a: Seq<String>, b: Seq<String>)
    ensures
        concat_all(a + b) == concat_all(a) + concat_all(b),
    decreases b.len(),
{
    if b.len() == 0 {
        assert(a + b =~= a);
        assert(concat_all(a) + Seq::<char>::empty() =~= concat_all(a));
    } else {
        lemma_concat_all_append(a, b.drop_last());
        assert((a + b).drop_last() =~= a + b.drop_last());
        assert((a + b).last() == b.last());
        assert(concat_all(a) + concat_all(b.drop_last()) + b.last()@ =~= concat_all(a) + (
        concat_all(b.drop_last()) + b.last()@));
    }
}

/// The joined text is the flattening of the segments' texts, in order.
pub proof fn lemma_concat_all_is_flatten(segments: Seq<String>)
    ensures
        concat_all(segments) == segments.map_values(|seg: String| seg@).flatten(),
    decreases segments.len(),
{
    let texts = segments.map_values(|seg: String| seg@);
    texts.lemma_flatten_and_flatten_alt_are_equivalent();
    if segments.len() > 0 {
        lemma_concat_all_is_flatten(segments.drop_last());
        assert(texts.drop_last() =~= segments.drop_last().map_values(|seg: String| seg@));
        assert(texts.last() == segments.last()@);
        segments.drop_last().map_values(|seg: String| seg@).lemma_flatten_and_flatten_alt_are_equivalent();
    } else {
        assert(texts =~= Seq::<Seq<char>>::empty());
    }
}

} // verus!
