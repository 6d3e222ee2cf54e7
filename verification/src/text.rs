use vstd::prelude::*;

verus! {

broadcast use vstd::string::axiom_spec_iter;

/// The characters of `s`, in order.
pub fn chars_of(s: &str) -> (out: Vec<char>)
    ensures
        out@ == s@,
{
    let mut out: Vec<char> = Vec::new();
    for c in it: s.chars()
        invariant
            out@ == it.seq().take(it.index() as int),
    {
        out.push(c);
    }
    out
}

/// A line without the carriage return that ends it, if it ends with one.
pub open spec fn strip_cr(line: Seq<char>) -> Seq<char> {
    if line.len() > 0 && line.last() == '\r' {
        line.drop_last()
    } else {
        line
    }
}

/// The lines of a text: the pieces between line feeds, each without a
/// carriage return just before its line feed; a final line feed opens no
/// further line, and a carriage return at the very end of the text stays.
pub open spec fn lines(s: Seq<char>) -> Seq<Seq<char>>
    decreases s.len(),
{
    if s.len() == 0 {
        seq![]
    } else {
        proof {
            s.index_of_first_ensures('\n');
        }
        match s.index_of_first('\n') {
            Some(i) => seq![strip_cr(s.take(i))] + lines(s.skip(i + 1)),
            None => seq![s],
        }
    }
}

pub open spec fn views_of(v: Seq<Vec<char>>) -> Seq<Seq<char>> {
    v.map_values(|l: Vec<char>| l@)
}

/// Where `cur` holds no line feed, the lines of `cur` followed by a line
/// feed and `rest` are `cur` (without a final carriage return) and then
/// the lines of `rest`.
proof fn lemma_lines_at_newline(cur: Seq<char>, rest: Seq<char>)
    requires
        !cur.contains('\n'),
    ensures
        lines(cur.push('\n') + rest) == seq![strip_cr(cur)] + lines(rest),
{
    let s = cur.push('\n') + rest;
    s.index_of_first_ensures('\n');
    assert(s[cur.len() as int] == '\n');
    let i = s.index_of_first('\n').unwrap();
    if i < cur.len() {
        assert(cur[i] == s[i]);
    }
    assert(i == cur.len());
    assert(s.take(i) =~= cur);
    assert(s.skip(i + 1) =~= rest);
}

/// The lines of a text with no line feed.
proof fn lemma_lines_no_newline(s: Seq<char>)
    requires
        !s.contains('\n'),
    ensures
        lines(s) == (if s.len() == 0 { seq![] } else { seq![s] }),
{
    s.index_of_first_ensures('\n');
}

/// Splits a text into its lines.
pub fn split_lines(text: &Vec<char>) -> (out: Vec<Vec<char>>)
    ensures
        views_of(out@) == lines(text@),
{
    let mut out: Vec<Vec<char>> = Vec::new();
    let mut cur: Vec<char> = Vec::new();
    let mut i: usize = 0;
    assert(cur@ + text@.skip(0) =~= text@);
    assert(views_of(out@) =~= Seq::<Seq<char>>::empty());
    while i < text.len()
        invariant
            i <= text.len(),
            !cur@.contains('\n'),
            views_of(out@) + lines(cur@ + text@.skip(i as int)) == lines(text@),
        decreases text.len() - i,
    {
        let c = text[i];
        if c == '\n' {
            proof {
                assert(cur@ + text@.skip(i as int) =~= cur@.push('\n') + text@.skip(i + 1));
                lemma_lines_at_newline(cur@, text@.skip(i + 1));
            }
            let ghost full = cur@;
            let n = cur.len();
            if n > 0 && cur[n - 1] == '\r' {
                cur.pop();
            }
            assert(cur@ == strip_cr(full));
            let ghost before = out@;
            let ghost line = cur@;
            out.push(cur);
            proof {
                assert(views_of(out@) =~= views_of(before) + seq![line]);
            }
            cur = Vec::new();
            proof {
                assert(cur@ + text@.skip(i + 1) =~= text@.skip(i + 1));
            }
        } else {
            let ghost old_cur = cur@;
            cur.push(c);
            proof {
                assert(cur@ + text@.skip(i + 1) =~= old_cur + text@.skip(i as int));
                assert forall|k: int| 0 <= k < cur@.len() implies cur@[k] != '\n' by {
                    if k < old_cur.len() {
                        assert(cur@[k] == old_cur[k]);
                    }
                }
            }
        }
        i = i + 1;
    }
    proof {
        assert(cur@ + text@.skip(i as int) =~= cur@);
        lemma_lines_no_newline(cur@);
    }
    if cur.len() > 0 {
        let ghost before = out@;
        out.push(cur);
        proof {
            assert(views_of(out@) =~= views_of(before) + seq![cur@]);
        }
    } else {
        proof {
            assert(views_of(out@) + seq![] =~= views_of(out@));
        }
    }
    out
}

/// Unicode's White_Space property, as `char::is_whitespace` tests it.
pub open spec fn is_white_space(c: char) -> bool {
    let u = c as u32;
    ||| 0x09 <= u <= 0x0d
    ||| u == 0x20
    ||| u == 0x85
    ||| u == 0xa0
    ||| u == 0x1680
    ||| 0x2000 <= u <= 0x200a
    ||| u == 0x2028
    ||| u == 0x2029
    ||| u == 0x202f
    ||| u == 0x205f
    ||| u == 0x3000
}

/// Whether `c` is white space in Unicode's sense.
pub fn white_space(c: char) -> (b: bool)
    ensures
        b == is_white_space(c),
{
    let u = c as u32;
    (0x09 <= u && u <= 0x0d) || u == 0x20 || u == 0x85 || u == 0xa0 || u == 0x1680 || (0x2000
        <= u && u <= 0x200a) || u == 0x2028 || u == 0x2029 || u == 0x202f || u == 0x205f || u
        == 0x3000
}

/// The length of the run of non-white-space characters that starts `s`.
pub open spec fn word_len(s: Seq<char>) -> nat
    decreases s.len(),
{
    if s.len() == 0 || is_white_space(s[0]) {
        0
    } else {
        1 + word_len(s.drop_first())
    }
}

pub proof fn lemma_word_len_bound(s: Seq<char>)
    ensures
        word_len(s) <= s.len(),
        s.len() > 0 && !is_white_space(s[0]) ==> word_len(s) >= 1,
    decreases s.len(),
{
    if s.len() > 0 && !is_white_space(s[0]) {
        lemma_word_len_bound(s.drop_first());
    }
}

/// The words of a text: its maximal runs of characters that are not white
/// space, in order.
pub open spec fn words(s: Seq<char>) -> Seq<Seq<char>>
    decreases s.len(),
{
    if s.len() == 0 {
        seq![]
    } else if is_white_space(s[0]) {
        words(s.drop_first())
    } else {
        proof {
            lemma_word_len_bound(s);
        }
        seq![s.take(word_len(s) as int)] + words(s.skip(word_len(s) as int))
    }
}

pub open spec fn no_white_space(s: Seq<char>) -> bool {
    forall|k: int| 0 <= k < s.len() ==> !is_white_space(#[trigger] s[k])
}

proof fn lemma_word_len_of_run(cur: Seq<char>, rest: Seq<char>)
    requires
        no_white_space(cur),
        rest.len() == 0 || is_white_space(rest[0]),
    ensures
        word_len(cur + rest) == cur.len(),
    decreases cur.len(),
{
    let s = cur + rest;
    if cur.len() > 0 {
        assert(s[0] == cur[0]);
        assert(s.drop_first() =~= cur.drop_first() + rest);
        assert(no_white_space(cur.drop_first())) by {
            assert forall|k: int| 0 <= k < cur.drop_first().len() implies !is_white_space(
                #[trigger] cur.drop_first()[k],
            ) by {
                assert(cur.drop_first()[k] == cur[k + 1]);
            }
        }
        lemma_word_len_of_run(cur.drop_first(), rest);
    } else {
        assert(s =~= rest);
    }
}

proof fn lemma_words_after_run(cur: Seq<char>, c: char, rest: Seq<char>)
    requires
        no_white_space(cur),
        cur.len() > 0,
        is_white_space(c),
    ensures
        words(cur.push(c) + rest) == seq![cur] + words(rest),
{
    let s = cur.push(c) + rest;
    let tail = seq![c] + rest;
    assert(s =~= cur + tail);
    lemma_word_len_of_run(cur, tail);
    assert(s[0] == cur[0]);
    assert(!is_white_space(cur[0]));
    assert(s.take(cur.len() as int) =~= cur);
    assert(tail[0] == c);
    assert(s.skip(cur.len() as int) =~= tail);
    assert(tail.drop_first() =~= rest);
    assert(words(tail) == words(rest));
    assert(word_len(s) == cur.len());
    assert(words(s.skip(word_len(s) as int)) == words(rest));
}

proof fn lemma_words_of_run(cur: Seq<char>)
    requires
        no_white_space(cur),
    ensures
        words(cur) == (if cur.len() == 0 { seq![] } else { seq![cur] }),
{
    if cur.len() > 0 {
        lemma_word_len_of_run(cur, seq![]);
        assert(cur + seq![] =~= cur);
        assert(!is_white_space(cur[0]));
        assert(cur.take(cur.len() as int) =~= cur);
        assert(cur.skip(cur.len() as int) =~= Seq::<char>::empty());
        assert(words(Seq::<char>::empty()) =~= Seq::<Seq<char>>::empty());
        assert(seq![cur] + Seq::<Seq<char>>::empty() =~= seq![cur]);
    }
}

/// Splits a text into its words.
pub fn split_words(text: &Vec<char>) -> (out: Vec<Vec<char>>)
    ensures
        views_of(out@) == words(text@),
{
    let mut out: Vec<Vec<char>> = Vec::new();
    let mut cur: Vec<char> = Vec::new();
    let mut i: usize = 0;
    assert(cur@ + text@.skip(0) =~= text@);
    assert(views_of(out@) =~= Seq::<Seq<char>>::empty());
    while i < text.len()
        invariant
            i <= text.len(),
            no_white_space(cur@),
            views_of(out@) + words(cur@ + text@.skip(i as int)) == words(text@),
        decreases text.len() - i,
    {
        let c = text[i];
        if white_space(c) {
            if cur.len() > 0 {
                proof {
                    assert(cur@ + text@.skip(i as int) =~= cur@.push(c) + text@.skip(i + 1));
                    lemma_words_after_run(cur@, c, text@.skip(i + 1));
                }
                let ghost before = out@;
                let ghost word = cur@;
                out.push(cur);
                proof {
                    assert(views_of(out@) =~= views_of(before) + seq![word]);
                }
                cur = Vec::new();
            } else {
                proof {
                    let r = cur@ + text@.skip(i as int);
                    assert(r =~= text@.skip(i as int));
                    assert(r[0] == c);
                    assert(r.drop_first() =~= text@.skip(i + 1));
                }
            }
            proof {
                assert(cur@ + text@.skip(i + 1) =~= text@.skip(i + 1));
            }
        } else {
            let ghost old_cur = cur@;
            cur.push(c);
            proof {
                assert(cur@ + text@.skip(i + 1) =~= old_cur + text@.skip(i as int));
                assert forall|k: int| 0 <= k < cur@.len() implies !is_white_space(
                    #[trigger] cur@[k],
                ) by {
                    if k < old_cur.len() {
                        assert(cur@[k] == old_cur[k]);
                    }
                }
            }
        }
        i = i + 1;
    }
    proof {
        assert(cur@ + text@.skip(i as int) =~= cur@);
        lemma_words_of_run(cur@);
    }
    if cur.len() > 0 {
        let ghost before = out@;
        let ghost word = cur@;
        out.push(cur);
        proof {
            assert(views_of(out@) =~= views_of(before) + seq![word]);
        }
    } else {
        proof {
            assert(views_of(out@) + seq![] =~= views_of(out@));
        }
    }
    out
}

/// Whether `pat` occurs in `s` as a contiguous piece.
pub open spec fn occurs_in(pat: Seq<char>, s: Seq<char>) -> bool {
    exists|i: int| 0 <= i <= s.len() - pat.len() && #[trigger] s.subrange(i, i + pat.len()) == pat
}

/// Whether `pat` occurs in `s` starting at position `at`.
fn occurs_at(s: &Vec<char>, pat: &Vec<char>, at: usize) -> (b: bool)
    requires
        at + pat.len() <= s.len(),
    ensures
        b == (s@.subrange(at as int, at + pat.len()) == pat@),
{
    let mut k: usize = 0;
    while k < pat.len()
        invariant
            at + pat.len() <= s.len(),
            k <= pat.len(),
            forall|j: int| 0 <= j < k ==> s@[at + j] == pat@[j],
        decreases pat.len() - k,
    {
        if s[at + k] != pat[k] {
            proof {
                let piece = s@.subrange(at as int, at + pat.len());
                assert(piece[k as int] != pat@[k as int]);
            }
            return false;
        }
        k = k + 1;
    }
    assert(s@.subrange(at as int, at + pat.len()) =~= pat@);
    true
}

/// Whether `pat` occurs anywhere in `s`, as `str::contains` answers for a
/// string pattern.
pub fn contains_text(s: &Vec<char>, pat: &Vec<char>) -> (b: bool)
    ensures
        b == occurs_in(pat@, s@),
{
    if pat.len() > s.len() {
        return false;
    }
    if pat.len() == 0 {
        assert(s@.subrange(0, 0 + pat.len()) =~= pat@);
        return true;
    }
    let last = s.len() - pat.len();
    let mut i: usize = 0;
    while i <= last
        invariant
            last == s.len() - pat.len(),
            pat.len() > 0,
            i <= last + 1,
            forall|j: int| 0 <= j < i ==> #[trigger] s@.subrange(j, j + pat.len()) != pat@,
        decreases last + 1 - i,
    {
        if occurs_at(s, pat, i) {
            return true;
        }
        i = i + 1;
    }
    false
}

/// A `String` holding exactly `chars`.
///
/// Trusted: calls std's `String::from_iter` over `&char` items, which by its
/// documentation collects the characters in order.
#[verifier::external_body]
pub fn string_from_chars(chars: &[char]) -> (s: String)
    ensures
        s@ == chars@,
{
    String::from_iter(chars)
}

/// What `String::from_utf8_lossy` makes of a byte sequence.
pub uninterp spec fn utf8_lossy(bytes: Seq<u8>) -> Seq<char>;

/// Decodes bytes as UTF-8, putting U+FFFD in place of each invalid sequence.
///
/// Trusted: calls std's `String::from_utf8_lossy`. Its result is named by
/// `utf8_lossy`; its documentation also shows that valid UTF-8 comes back
/// decoded unchanged, and that bytes that are not empty give text that is not
/// empty, since each byte is either decoded or replaced by U+FFFD. Which
/// replacement characters invalid input gets is not stated.
#[verifier::external_body]
pub fn decode_lossy(bytes: &[u8]) -> (s: String)
    ensures
        s@ == utf8_lossy(bytes@),
        vstd::utf8::valid_utf8(bytes@) ==> s@ == vstd::utf8::decode_utf8(bytes@),
        bytes@.len() > 0 ==> s@.len() > 0,
{
    String::from_utf8_lossy(bytes).into_owned()
}

/// No line holds a line feed.
pub proof fn law_lines_have_no_line_feed(s: Seq<char>)
    ensures
        forall|i: int| 0 <= i < lines(s).len() ==> !(#[trigger] lines(s)[i]).contains('\n'),
    decreases s.len(),
{
    if s.len() > 0 {
        s.index_of_first_ensures('\n');
        match s.index_of_first('\n') {
            Some(n) => {
                law_lines_have_no_line_feed(s.skip(n + 1));
                let first = strip_cr(s.take(n));
                assert(!first.contains('\n')) by {
                    if first.contains('\n') {
                        let j = choose|j: int| 0 <= j < first.len() && first[j] == '\n';
                        assert(s.take(n)[j] == s[j]);
                    }
                }
                let ls = lines(s);
                assert(ls == seq![first] + lines(s.skip(n + 1)));
                assert forall|i: int| 0 <= i < ls.len() implies !(#[trigger] ls[i]).contains('\n') by {
                    if i > 0 {
                        assert(ls[i] == lines(s.skip(n + 1))[i - 1]);
                    }
                }
            },
            None => {},
        }
    }
}

proof fn lemma_word_run(s: Seq<char>)
    ensures
        forall|k: int| 0 <= k < word_len(s) ==> !is_white_space(#[trigger] s[k]),
    decreases s.len(),
{
    if s.len() > 0 && !is_white_space(s[0]) {
        let t = s.drop_first();
        lemma_word_run(t);
        lemma_word_len_bound(s);
        assert forall|k: int| 0 <= k < word_len(s) implies !is_white_space(#[trigger] s[k]) by {
            if k > 0 {
                assert(s[k] == t[k - 1]);
            }
        }
    }
}

/// Every word is non-empty and holds no white space.
pub proof fn law_words_are_runs(s: Seq<char>)
    ensures
        forall|i: int| 0 <= i < words(s).len() ==> (#[trigger] words(s)[i]).len() > 0
            && no_white_space(words(s)[i]),
    decreases s.len(),
{
    if s.len() > 0 {
        if is_white_space(s[0]) {
            law_words_are_runs(s.drop_first());
            assert(words(s) == words(s.drop_first()));
        } else {
            lemma_word_len_bound(s);
            lemma_word_run(s);
            let n = word_len(s) as int;
            law_words_are_runs(s.skip(n));
            let w = s.take(n);
            assert(no_white_space(w)) by {
                assert forall|k: int| 0 <= k < w.len() implies !is_white_space(#[trigger] w[k]) by {
                    assert(w[k] == s[k]);
                }
            }
            let ws = words(s);
            assert(ws == seq![w] + words(s.skip(n)));
            assert(ws[0] == w);
            assert forall|i: int| 0 <= i < ws.len() implies (#[trigger] ws[i]).len() > 0
                && no_white_space(ws[i]) by {
                if i > 0 {
                    assert(ws[i] == words(s.skip(n))[i - 1]);
                }
            }
        }
    }
}

} // verus!
