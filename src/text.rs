use vstd::prelude::*;

verus! {

/// The texts of a sequence of strings.
pub open spec fn texts(v: Seq<String>) -> Seq<Seq<char>> {
    v.map_values(|a: String| a@)
}

/// The characters with the Unicode `White_Space` property.
pub open spec fn is_white_space(c: char) -> bool {
    let u = c as u32;
    (0x9 <= u && u <= 0xd) || u == 0x20 || u == 0x85 || u == 0xa0 || u == 0x1680 || (0x2000 <= u
        && u <= 0x200a) || u == 0x2028 || u == 0x2029 || u == 0x202f || u == 0x205f || u == 0x3000
}

/// The pieces of `s` between newline characters, in order. There is always at
/// least one piece; a carriage return before a newline stays in its piece.
pub open spec fn lines_of(s: Seq<char>) -> Seq<Seq<char>>
    decreases s.len(),
{
    if s.len() == 0 {
        seq![Seq::empty()]
    } else {
        let prev = lines_of(s.drop_last());
        if s.last() == '\n' {
            prev.push(Seq::empty())
        } else {
            prev.update(prev.len() - 1, prev.last().push(s.last()))
        }
    }
}

/// The maximal runs of non-white-space characters of `s`, in order.
pub open spec fn words_of(s: Seq<char>) -> Seq<Seq<char>>
    decreases s.len(),
{
    if s.len() == 0 {
        Seq::empty()
    } else {
        let prev = words_of(s.drop_last());
        let c = s.last();
        if is_white_space(c) {
            prev
        } else if s.len() >= 2 && !is_white_space(s[s.len() - 2]) {
            prev.update(prev.len() - 1, prev.last().push(c))
        } else {
            prev.push(seq![c])
        }
    }
}

/// `key` occurs in `s` as a contiguous piece.
pub open spec fn occurs_in(key: Seq<char>, s: Seq<char>) -> bool {
    exists|i: int| 0 <= i && i + key.len() <= s.len() && #[trigger] s.subrange(i, i + key.len()) == key
}

/// A line that names `key` and holds at least three words.
pub open spec fn names_key(line: Seq<char>, key: Seq<char>) -> bool {
    occurs_in(key, line) && words_of(line).len() >= 3
}

/// The last word of the first line of `ls` that names `key`.
pub open spec fn first_value(ls: Seq<Seq<char>>, key: Seq<char>) -> Option<Seq<char>>
    decreases ls.len(),
{
    if ls.len() == 0 {
        None
    } else if names_key(ls[0], key) {
        Some(words_of(ls[0]).last())
    } else {
        first_value(ls.drop_first(), key)
    }
}

/// The value that the line-oriented listing `text` gives for `key`.
pub open spec fn key_value(text: Seq<char>, key: Seq<char>) -> Option<Seq<char>> {
    first_value(lines_of(text), key)
}

proof fn lemma_lines_nonempty(s: Seq<char>)
    ensures
        lines_of(s).len() >= 1,
    decreases s.len(),
{
    if s.len() > 0 {
        lemma_lines_nonempty(s.drop_last());
    }
}

proof fn lemma_words_after_letter(s: Seq<char>)
    requires
        s.len() > 0,
        !is_white_space(s.last()),
    ensures
        words_of(s).len() > 0,
    decreases s.len(),
{
    if s.len() >= 2 && !is_white_space(s[s.len() - 2]) {
        let p = s.drop_last();
        assert(p.last() == s[s.len() - 2]);
        lemma_words_after_letter(p);
    }
}

proof fn lemma_words_nonempty(s: Seq<char>)
    ensures
        forall|k: int| 0 <= k < words_of(s).len() ==> #[trigger] words_of(s)[k].len() > 0,
    decreases s.len(),
{
    if s.len() > 0 {
        let p = s.drop_last();
        lemma_words_nonempty(p);
        if !is_white_space(s.last()) && s.len() >= 2 && !is_white_space(s[s.len() - 2]) {
            assert(p.last() == s[s.len() - 2]);
            lemma_words_after_letter(p);
        }
    }
}

pub proof fn lemma_first_value_at(ls: Seq<Seq<char>>, key: Seq<char>, k: int)
    requires
        0 <= k < ls.len(),
        names_key(ls[k], key),
        forall|j: int| 0 <= j < k ==> !names_key(#[trigger] ls[j], key),
    ensures
        first_value(ls, key) == Some(words_of(ls[k]).last()),
    decreases k,
{
    if k > 0 {
        assert(!names_key(ls[0], key));
        let rest = ls.drop_first();
        assert forall|j: int| 0 <= j < k - 1 implies !names_key(#[trigger] rest[j], key) by {
            assert(rest[j] == ls[j + 1]);
        }
        lemma_first_value_at(rest, key, k - 1);
    }
}

pub proof fn lemma_first_value_none(ls: Seq<Seq<char>>, key: Seq<char>)
    requires
        forall|j: int| 0 <= j < ls.len() ==> !names_key(#[trigger] ls[j], key),
    ensures
        first_value(ls, key) is None,
    decreases ls.len(),
{
    if ls.len() > 0 {
        assert(!names_key(ls[0], key));
        let rest = ls.drop_first();
        assert forall|j: int| 0 <= j < rest.len() implies !names_key(#[trigger] rest[j], key) by {
            assert(rest[j] == ls[j + 1]);
        }
        lemma_first_value_none(rest, key);
    }
}

/// Every value that a listing gives for a key is a non-empty word.
pub proof fn lemma_key_value_nonempty(text: Seq<char>, key: Seq<char>)
    ensures
        key_value(text, key) matches Some(v) ==> v.len() > 0,
{
    lemma_first_value_nonempty(lines_of(text), key);
}

pub proof fn lemma_first_value_nonempty(ls: Seq<Seq<char>>, key: Seq<char>)
    ensures
        first_value(ls, key) matches Some(v) ==> v.len() > 0,
    decreases ls.len(),
{
    if ls.len() > 0 {
        if names_key(ls[0], key) {
            lemma_words_nonempty(ls[0]);
            assert(words_of(ls[0])[words_of(ls[0]).len() - 1].len() > 0);
        } else {
            lemma_first_value_nonempty(ls.drop_first(), key);
        }
    }
}

/// The middle part of a concatenation occurs in it.
pub proof fn lemma_occurs_in_middle(a: Seq<char>, b: Seq<char>, c: Seq<char>)
    ensures
        occurs_in(b, a + b + c),
{
    let s = a + b + c;
    assert(s.subrange(a.len() as int, (a.len() + b.len()) as int) =~= b);
}

/// What `String::from_utf8_lossy` makes of a byte sequence.
pub uninterp spec fn utf8_lossy(b: Seq<u8>) -> Seq<char>;

/// What `{:?}` writes for a string: the text quoted, with escapes.
pub uninterp spec fn debug_quoted(s: Seq<char>) -> Seq<char>;

/// Relies on `String::from_utf8_lossy`, which decodes the bytes as UTF-8 and
/// puts U+FFFD in place of each invalid sequence.
#[verifier::external_body]
pub(crate) fn decode_lossy(b: &Vec<u8>) -> (r: String)
    ensures
        r@ == utf8_lossy(b@),
{
    String::from_utf8_lossy(b).into_owned()
}

/// Relies on the `Debug` impl of `str`, which quotes and escapes the text.
#[verifier::external_body]
pub(crate) fn quote_debug(s: &str) -> (r: String)
    ensures
        r@ == debug_quoted(s@),
{
    format!("{:?}", s)
}

fn white_space(c: char) -> (r: bool)
    ensures
        r == is_white_space(c),
{
    let u = c as u32;
    (0x9 <= u && u <= 0xd) || u == 0x20 || u == 0x85 || u == 0xa0 || u == 0x1680 || (0x2000 <= u
        && u <= 0x200a) || u == 0x2028 || u == 0x2029 || u == 0x202f || u == 0x205f || u == 0x3000
}

fn chars_of(s: &str) -> (r: Vec<char>)
    ensures
        r@ == s@,
{
    let n = s.unicode_len();
    let mut r: Vec<char> = Vec::new();
    let mut i: usize = 0;
    while i < n
        invariant
            n == s@.len(),
            i <= n,
            r@ == s@.subrange(0, i as int),
        decreases n - i,
    {
        r.push(s.get_char(i));
        i = i + 1;
    }
    r
}

/// Counts the words of `cs[start..end]` and locates the last one.
fn scan_words(cs: &Vec<char>, start: usize, end: usize) -> (r: (usize, usize, usize))
    requires
        start <= end <= cs@.len(),
    ensures
        r.0 == words_of(cs@.subrange(start as int, end as int)).len(),
        r.0 > 0 ==> start <= r.1 <= r.2 <= end && words_of(
            cs@.subrange(start as int, end as int),
        ).last() == cs@.subrange(r.1 as int, r.2 as int),
{
    let mut count: usize = 0;
    let mut ws: usize = start;
    let mut we: usize = start;
    let mut i: usize = start;
    while i < end
        invariant
            start <= i <= end <= cs@.len(),
            start <= ws <= we <= i,
            count <= i - start,
            count == words_of(cs@.subrange(start as int, i as int)).len(),
            count > 0 ==> words_of(cs@.subrange(start as int, i as int)).last() == cs@.subrange(
                ws as int,
                we as int,
            ),
            i > start && !is_white_space(cs@[i - 1]) ==> count > 0 && we == i,
        decreases end - i,
    {
        let ghost p = cs@.subrange(start as int, i as int);
        let ghost q = cs@.subrange(start as int, i + 1);
        assert(q.drop_last() =~= p);
        assert(q.last() == cs@[i as int]);
        let c = cs[i];
        if white_space(c) {
        } else if i > start && !white_space(cs[i - 1]) {
            assert(q[q.len() - 2] == cs@[i - 1]);
            assert(cs@.subrange(ws as int, i as int).push(c) =~= cs@.subrange(ws as int, i + 1));
            we = i + 1;
        } else {
            assert(seq![c] =~= cs@.subrange(i as int, i + 1));
            ws = i;
            we = i + 1;
            count = count + 1;
        }
        i = i + 1;
    }
    (count, ws, we)
}

/// Whether `key` occurs in `cs[start..end]`.
fn occurs_within(key: &Vec<char>, cs: &Vec<char>, start: usize, end: usize) -> (r: bool)
    requires
        start <= end <= cs@.len(),
    ensures
        r == occurs_in(key@, cs@.subrange(start as int, end as int)),
{
    let ghost s = cs@.subrange(start as int, end as int);
    let k = key.len();
    if k > end - start {
        return false;
    }
    let mut i: usize = start;
    while i <= end - k
        invariant
            start <= i <= end <= cs@.len(),
            k == key@.len(),
            k <= end - start,
            s == cs@.subrange(start as int, end as int),
            forall|p: int| 0 <= p < i - start ==> #[trigger] s.subrange(p, p + k) != key@,
        decreases end - i,
    {
        let mut j: usize = 0;
        let mut same = true;
        while j < k
            invariant
                i + k <= end <= cs@.len(),
                k == key@.len(),
                j <= k,
                same <==> forall|t: int| 0 <= t < j ==> cs@[i + t] == key@[t],
            decreases k - j,
        {
            same = same && cs[i + j] == key[j];
            j = j + 1;
        }
        assert(s.subrange(i - start, i - start + k) =~= cs@.subrange(i as int, i + k));
        if same {
            assert(cs@.subrange(i as int, i + k) =~= key@);
            return true;
        }
        assert(cs@.subrange(i as int, i + k) != key@) by {
            let t = choose|t: int| 0 <= t < k && cs@[i + t] != key@[t];
            assert(cs@.subrange(i as int, i + k)[t] == cs@[i + t]);
        }
        i = i + 1;
    }
    assert forall|p: int| 0 <= p && p + k <= s.len() implies #[trigger] s.subrange(p, p + k) != key@ by {
        assert(p < i - start);
    }
    false
}

/// The last word of the first line of `text` that contains `key` and holds at
/// least three words, or `None` where no line does.
pub fn find_key_value(text: &str, key: &str) -> (r: Option<String>)
    ensures
        match r {
            Some(v) => key_value(text@, key@) == Some(v@),
            None => key_value(text@, key@) is None,
        },
{
    let cs = chars_of(text);
    let ks = chars_of(key);
    let n = cs.len();
    let mut found: Option<(usize, usize)> = None;
    let ghost mut at: int = 0;
    let mut line_start: usize = 0;
    let mut i: usize = 0;
    proof {
        assert(cs@.subrange(0, 0) =~= Seq::<char>::empty());
    }
    while i < n
        invariant
            n == cs@.len(),
            cs@ == text@,
            ks@ == key@,
            line_start <= i <= n,
            lines_of(cs@.subrange(0, i as int)).len() >= 1,
            lines_of(cs@.subrange(0, i as int)).last() == cs@.subrange(line_start as int, i as int),
            found is None ==> forall|j: int|
                0 <= j < lines_of(cs@.subrange(0, i as int)).len() - 1 ==> !names_key(
                    #[trigger] lines_of(cs@.subrange(0, i as int))[j],
                    key@,
                ),
            found matches Some(w) ==> {
                &&& 0 <= at < lines_of(cs@.subrange(0, i as int)).len() - 1
                &&& names_key(lines_of(cs@.subrange(0, i as int))[at], key@)
                &&& forall|j: int|
                    0 <= j < at ==> !names_key(#[trigger] lines_of(cs@.subrange(0, i as int))[j], key@)
                &&& w.0 <= w.1 <= n
                &&& words_of(lines_of(cs@.subrange(0, i as int))[at]).last() == cs@.subrange(
                    w.0 as int,
                    w.1 as int,
                )
            },
        decreases n - i,
    {
        let ghost old_lines = lines_of(cs@.subrange(0, i as int));
        let ghost q = cs@.subrange(0, i + 1);
        assert(q.drop_last() =~= cs@.subrange(0, i as int));
        if cs[i] == '\n' {
            if found.is_none() {
                let (count, ws, we) = scan_words(&cs, line_start, i);
                if count >= 3 && occurs_within(&ks, &cs, line_start, i) {
                    found = Some((ws, we));
                    proof {
                        at = old_lines.len() - 1;
                    }
                }
            }
            line_start = i + 1;
            proof {
                assert(lines_of(q) == old_lines.push(Seq::empty()));
                assert(cs@.subrange(line_start as int, i + 1) =~= Seq::<char>::empty());
            }
        } else {
            proof {
                assert(lines_of(q) == old_lines.update(
                    old_lines.len() - 1,
                    old_lines.last().push(cs@[i as int]),
                ));
                assert(cs@.subrange(line_start as int, i + 1) =~= cs@.subrange(
                    line_start as int,
                    i as int,
                ).push(cs@[i as int]));
            }
        }
        i = i + 1;
    }
    let ghost all = lines_of(cs@.subrange(0, n as int));
    assert(cs@.subrange(0, n as int) =~= cs@);
    if found.is_none() {
        let (count, ws, we) = scan_words(&cs, line_start, n);
        if count >= 3 && occurs_within(&ks, &cs, line_start, n) {
            found = Some((ws, we));
            proof {
                at = all.len() - 1;
            }
        }
    }
    match found {
        Some((ws, we)) => {
            proof {
                lemma_first_value_at(all, key@, at);
            }
            let v = String::from_str(text.substring_char(ws, we));
            Some(v)
        },
        None => {
            proof {
                lemma_first_value_none(all, key@);
            }
            None
        },
    }
}

} // verus!
