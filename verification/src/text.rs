//! Small helpers over strings: comparison, copies, and the conversion that the
//! builder methods accept for string-valued fields.

use vstd::prelude::*;
use vstd::string::StrSliceExecFns;

verus! {

/// A value that can be turned into an owned string: a string slice or a
/// `String`. Builder methods take it wherever a field holds text, so that both
/// `"literal"` and an owned `String` are accepted.
pub trait IntoText: Sized {
    /// The characters the value stands for.
    spec fn text(&self) -> Seq<char>;

    /// Converts the value into an owned string with the same characters.
    fn into_text(self) -> (s: String)
        ensures
            s@ == self.text(),
    ;
}

impl IntoText for String {
    open spec fn text(&self) -> Seq<char> {
        self@
    }

    fn into_text(self) -> (s: String) {
        self
    }
}

impl<'a> IntoText for &'a str {
    open spec fn text(&self) -> Seq<char> {
        self@
    }

    fn into_text(self) -> (s: String) {
        self.to_owned()
    }
}

impl<'a> IntoText for &'a String {
    open spec fn text(&self) -> Seq<char> {
        self@
    }

    fn into_text(self) -> (s: String) {
        self.clone()
    }
}

/// The characters of each string of a list, in order.
pub open spec fn texts_view(v: Seq<String>) -> Seq<Seq<char>> {
    v.map_values(|s: String| s@)
}

/// The characters of an optional string.
pub open spec fn opt_text_view(o: Option<String>) -> Option<Seq<char>> {
    match o {
        Some(s) => Some(s@),
        None => None,
    }
}

/// Whether two string slices hold the same characters.
pub fn same_text(a: &str, b: &str) -> (r: bool)
    ensures
        r == (a@ == b@),
{
    a.to_owned() == b.to_owned()
}

/// How often a character occurs in a text.
pub open spec fn count_char(s: Seq<char>, c: char) -> nat
    decreases s.len(),
{
    if s.len() == 0 {
        0
    } else {
        count_char(s.drop_last(), c) + if s.last() == c {
            1nat
        } else {
            0nat
        }
    }
}

/// A character that a text does not hold occurs in it no times.
pub proof fn lemma_count_absent(s: Seq<char>, c: char)
    requires
        forall|i: int| 0 <= i < s.len() ==> s[i] != c,
    ensures
        count_char(s, c) == 0,
    decreases s.len(),
{
    if s.len() > 0 {
        lemma_count_absent(s.drop_last(), c);
    }
}

/// A character occurs in two texts joined as often as in the one and in the
/// other together.
pub proof fn lemma_count_joined(a: Seq<char>, b: Seq<char>, c: char)
    ensures
        count_char(a + b, c) == count_char(a, c) + count_char(b, c),
    decreases b.len(),
{
    if b.len() == 0 {
        assert(a + b =~= a);
    } else {
        lemma_count_joined(a, b.drop_last(), c);
        assert((a + b).drop_last() =~= a + b.drop_last());
        assert((a + b).last() == b.last());
    }
}

/// Two texts that do not hold the separator, joined by it, hold it exactly
/// once: behind the first text and before the second.
pub proof fn lemma_joined_by_separator(a: Seq<char>, b: Seq<char>, c: char)
    requires
        forall|i: int| 0 <= i < a.len() ==> a[i] != c,
        forall|i: int| 0 <= i < b.len() ==> b[i] != c,
    ensures
        count_char(a + seq![c] + b, c) == 1,
        (a + seq![c] + b).index_of(c) == a.len(),
        (a + seq![c] + b).take(a.len() as int) == a,
        (a + seq![c] + b).skip((a.len() + 1) as int) == b,
{
    let s = a + seq![c] + b;
    lemma_count_absent(a, c);
    lemma_count_absent(b, c);
    lemma_count_joined(a, seq![c], c);
    lemma_count_joined(a + seq![c], b, c);
    assert(seq![c].drop_last() =~= Seq::<char>::empty());
    assert(count_char(Seq::<char>::empty(), c) == 0);
    assert(seq![c].last() == c);
    assert(count_char(seq![c], c) == 1);
    assert(s[a.len() as int] == c);
    let k = s.index_of(c);
    assert(0 <= k < s.len() && s[k] == c);
    assert(k == a.len()) by {
        if k < a.len() {
            assert(s[k] == a[k]);
        } else if k > a.len() {
            assert(s[k] == b[k - a.len() - 1]);
        }
    }
    assert(s.take(a.len() as int) =~= a);
    assert(s.skip((a.len() + 1) as int) =~= b);
}

/// Splits a text at its separator, if the separator occurs exactly once:
/// what stands before the separator and what stands behind it.
pub fn split_single<'a>(s: &'a str, sep: char) -> (r: Option<(&'a str, &'a str)>)
    ensures
        match r {
            Some((before, behind)) => {
                &&& count_char(s@, sep) == 1
                &&& before@ == s@.take(s@.index_of(sep))
                &&& behind@ == s@.skip(s@.index_of(sep) + 1)
            },
            None => count_char(s@, sep) != 1,
        },
{
    let n = s.unicode_len();
    let mut count: usize = 0;
    let mut first: usize = 0;
    let mut i: usize = 0;
    while i < n
        invariant
            n == s@.len(),
            i <= n,
            count <= i,
            count == count_char(s@.take(i as int), sep),
            count >= 1 ==> first < i && s@[first as int] == sep,
            count == 0 ==> forall|j: int| 0 <= j < i ==> s@[j] != sep,
            count == 1 ==> forall|j: int| 0 <= j < i && j != first ==> s@[j] != sep,
        decreases n - i,
    {
        proof {
            assert(s@.take(i + 1).drop_last() =~= s@.take(i as int));
        }
        if s.get_char(i) == sep {
            if count == 0 {
                first = i;
            }
            count += 1;
        }
        i += 1;
    }
    proof {
        assert(s@.take(n as int) =~= s@);
    }
    if count == 1 {
        let before = s.substring_char(0, first);
        let behind = s.substring_char(first + 1, n);
        proof {
            let k = s@.index_of(sep);
            assert(0 <= k < s@.len() && s@[k] == sep);
            assert(k == first);
            assert(s@.subrange(0, first as int) =~= s@.take(k));
            assert(s@.subrange(first + 1, n as int) =~= s@.skip(k + 1));
        }
        Some((before, behind))
    } else {
        None
    }
}

/// Appends a copy of `s` to a list of strings.
pub fn push_text(v: &mut Vec<String>, s: &str)
    ensures
        texts_view(final(v)@) == texts_view(old(v)@).push(s@),
{
    v.push(s.to_owned());
    assert(texts_view(v@) =~= texts_view(old(v)@).push(s@));
}

/// A copy of a list of strings.
pub fn clone_texts(v: &Vec<String>) -> (out: Vec<String>)
    ensures
        texts_view(out@) == texts_view(v@),
{
    let mut out: Vec<String> = Vec::new();
    let mut i: usize = 0;
    while i < v.len()
        invariant
            i <= v.len(),
            out.len() == i,
            forall|j: int| 0 <= j < i ==> out[j]@ == v[j]@,
        decreases v.len() - i,
    {
        out.push(v[i].clone());
        i += 1;
    }
    assert(texts_view(out@) =~= texts_view(v@));
    out
}

/// A copy of an optional string.
pub fn clone_opt_text(o: &Option<String>) -> (out: Option<String>)
    ensures
        opt_text_view(out) == opt_text_view(*o),
{
    match o {
        Some(s) => Some(s.clone()),
        None => None,
    }
}

} // verus!
