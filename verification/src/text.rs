//! Text primitives over `Seq<char>`: white space, trimming, splitting, joining, decimal numbers.

use vstd::prelude::*;
use vstd::string::*;

verus! {

/// Appends one character to the end of a string (`String::push`).
pub assume_specification[ String::push ](s: &mut String, c: char)
    ensures
        final(s)@ == old(s)@.push(c),
;

/// The characters with the Unicode property White_Space.
pub open spec fn white_space(c: char) -> bool {
    let n = c as u32;
    ||| 0x9 <= n <= 0xd
    ||| n == 0x20
    ||| n == 0x85
    ||| n == 0xa0
    ||| n == 0x1680
    ||| 0x2000 <= n <= 0x200a
    ||| n == 0x2028
    ||| n == 0x2029
    ||| n == 0x202f
    ||| n == 0x205f
    ||| n == 0x3000
}

/// Tells whether `c` is white space.
pub fn is_white_space(c: char) -> (r: bool)
    ensures
        r == white_space(c),
{
    let n: u32 = c as u32;
    (0x9 <= n && n <= 0xd) || n == 0x20 || n == 0x85 || n == 0xa0 || n == 0x1680 || (0x2000 <= n
        && n <= 0x200a) || n == 0x2028 || n == 0x2029 || n == 0x202f || n == 0x205f || n == 0x3000
}

/// `s` without its leading white space.
pub open spec fn trim_start(s: Seq<char>) -> Seq<char>
    decreases s.len(),
{
    if s.len() > 0 && white_space(s[0]) {
        trim_start(s.drop_first())
    } else {
        s
    }
}

/// `s` without its trailing white space.
pub open spec fn trim_end(s: Seq<char>) -> Seq<char>
    decreases s.len(),
{
    if s.len() > 0 && white_space(s.last()) {
        trim_end(s.drop_last())
    } else {
        s
    }
}

/// `s` without white space at either end.
pub open spec fn trimmed(s: Seq<char>) -> Seq<char> {
    trim_end(trim_start(s))
}

/// Nothing but white space.
pub open spec fn blank(s: Seq<char>) -> bool {
    trimmed(s).len() == 0
}

/// The characters of a string, in order.
pub fn chars_of(s: &str) -> (v: Vec<char>)
    ensures
        v@ == s@,
{
    let mut v: Vec<char> = Vec::new();
    for c in it: s.chars()
        invariant
            v@ == it.seq().take(it.index() as int),
            it.seq() == s@,
    {
        v.push(c);
        assert(it.seq().take(it.index() + 1) =~= it.seq().take(it.index() as int).push(c));
    }
    v
}

/// `s` without white space at either end.
pub fn trim<'a>(s: &'a str) -> (r: &'a str)
    ensures
        r@ == trimmed(s@),
{
    let v: Vec<char> = chars_of(s);
    let n: usize = v.len();
    let mut a: usize = 0;
    assert(s@.skip(0) =~= s@);
    while a < n && is_white_space(v[a])
        invariant
            a <= n,
            n == v@.len(),
            v@ == s@,
            trim_start(s@) == trim_start(s@.skip(a as int)),
        decreases n - a,
    {
        assert(s@.skip(a as int).drop_first() =~= s@.skip(a + 1));
        a = a + 1;
    }
    let ghost head = s@.skip(a as int);
    assert(trim_start(head) == head);
    assert(head =~= s@.subrange(a as int, n as int));
    let mut b: usize = n;
    while a < b && is_white_space(v[b - 1])
        invariant
            a <= b <= n,
            n == v@.len(),
            v@ == s@,
            trim_end(head) == trim_end(s@.subrange(a as int, b as int)),
        decreases b - a,
    {
        assert(s@.subrange(a as int, b as int).drop_last() =~= s@.subrange(a as int, b - 1));
        b = b - 1;
    }
    s.substring_char(a, b)
}

/// `s` without white space at either end, as a string of its own.
pub fn trim_owned(s: &str) -> (r: String)
    ensures
        r@ == trimmed(s@),
{
    trim(s).to_owned()
}

/// Tells whether `s` holds nothing but white space.
pub fn is_blank(s: &str) -> (r: bool)
    ensures
        r == blank(s@),
{
    trim(s).is_empty()
}

/// The texts that a sequence of strings holds.
pub open spec fn texts(v: Seq<String>) -> Seq<Seq<char>> {
    Seq::new(v.len(), |i: int| v[i]@)
}

/// One more text adds its view.
pub broadcast proof fn lemma_texts_push(v: Seq<String>, x: String)
    ensures
        #[trigger] texts(v.push(x)) == texts(v).push(x@),
{
    assert(texts(v.push(x)) =~= texts(v).push(x@));
}

/// The text that an optional string holds.
pub open spec fn opt_text(o: Option<String>) -> Option<Seq<char>> {
    match o {
        Some(s) => Some(s@),
        None => None,
    }
}

/// Tells whether two strings hold the same characters.
pub fn text_eq(a: &str, b: &str) -> (r: bool)
    ensures
        r == (a@ == b@),
{
    let x: String = a.to_owned();
    let y: String = b.to_owned();
    x == y
}

/// A copy of a list of strings.
pub fn clone_texts(v: &Vec<String>) -> (r: Vec<String>)
    ensures
        r@ == v@,
{
    let mut r: Vec<String> = Vec::new();
    for i in 0..v.len()
        invariant
            r@ == v@.take(i as int),
    {
        r.push(v[i].clone());
        assert(v@.take(i + 1) =~= v@.take(i as int).push(v@[i as int]));
    }
    assert(v@.take(v.len() as int) =~= v@);
    r
}

/// `a` followed by `b`.
pub fn cat2(a: &str, b: &str) -> (r: String)
    ensures
        r@ == a@ + b@,
{
    let mut r: String = a.to_owned();
    r.append(b);
    r
}

/// Three pieces in a row.
pub fn cat3(a: &str, b: &str, c: &str) -> (r: String)
    ensures
        r@ == a@ + b@ + c@,
{
    let mut r: String = cat2(a, b);
    r.append(c);
    r
}

/// Four pieces in a row.
pub fn cat4(a: &str, b: &str, c: &str, d: &str) -> (r: String)
    ensures
        r@ == a@ + b@ + c@ + d@,
{
    let mut r: String = cat3(a, b, c);
    r.append(d);
    r
}

/// Five pieces in a row.
pub fn cat5(a: &str, b: &str, c: &str, d: &str, e: &str) -> (r: String)
    ensures
        r@ == a@ + b@ + c@ + d@ + e@,
{
    let mut r: String = cat4(a, b, c, d);
    r.append(e);
    r
}

/// Seven pieces in a row.
pub fn cat7(a: &str, b: &str, c: &str, d: &str, e: &str, f: &str, g: &str) -> (r: String)
    ensures
        r@ == a@ + b@ + c@ + d@ + e@ + f@ + g@,
{
    let mut r: String = cat5(a, b, c, d, e);
    r.append(f);
    r.append(g);
    r
}

/// Nine pieces in a row.
pub fn cat9(
    a: &str,
    b: &str,
    c: &str,
    d: &str,
    e: &str,
    f: &str,
    g: &str,
    h: &str,
    i: &str,
) -> (r: String)
    ensures
        r@ == a@ + b@ + c@ + d@ + e@ + f@ + g@ + h@ + i@,
{
    let mut r: String = cat7(a, b, c, d, e, f, g);
    r.append(h);
    r.append(i);
    r
}

/// The lower-case form of an ASCII capital letter; any other character as it is.
pub open spec fn lower_char(c: char) -> char {
    if 'A' <= c <= 'Z' {
        ((c as u32) + 32) as char
    } else {
        c
    }
}

/// `s` with its ASCII capital letters in lower case.
pub open spec fn lowered(s: Seq<char>) -> Seq<char> {
    Seq::new(s.len(), |i: int| lower_char(s[i]))
}

fn to_lower_char(c: char) -> (r: char)
    ensures
        r == lower_char(c),
{
    if 'A' <= c && c <= 'Z' {
        let n: u8 = c as u8;
        (n + 32) as char
    } else {
        c
    }
}

/// `s` with its ASCII capital letters in lower case.
pub fn to_lower(s: &str) -> (r: String)
    ensures
        r@ == lowered(s@),
{
    let v: Vec<char> = chars_of(s);
    let mut r: String = String::new();
    for i in 0..v.len()
        invariant
            v@ == s@,
            r@ == lowered(s@.take(i as int)),
    {
        r.push(to_lower_char(v[i]));
        assert(lowered(s@.take(i + 1)) =~= lowered(s@.take(i as int)).push(lower_char(s@[i as int])));
    }
    assert(s@.take(v.len() as int) =~= s@);
    r
}

/// Tells whether two strings differ at most in the case of ASCII letters.
pub fn eq_ignore_case(a: &str, b: &str) -> (r: bool)
    ensures
        r == (lowered(a@) == lowered(b@)),
{
    to_lower(a) == to_lower(b)
}

/// The decimal digit `d`.
pub open spec fn digit(d: nat) -> char {
    (48 + d) as char
}

/// A natural number in decimal.
pub open spec fn dec_nat(n: nat) -> Seq<char>
    decreases n,
{
    if n < 10 {
        seq![digit(n)]
    } else {
        dec_nat(n / 10).push(digit(n % 10))
    }
}

/// An integer in decimal, with a minus sign where it is negative.
pub open spec fn dec_int(n: int) -> Seq<char> {
    if n < 0 {
        seq!['-'] + dec_nat((-n) as nat)
    } else {
        dec_nat(n as nat)
    }
}

fn push_dec(out: &mut String, n: u64)
    ensures
        final(out)@ == old(out)@ + dec_nat(n as nat),
    decreases n,
{
    if n >= 10 {
        push_dec(out, n / 10);
    }
    let d: u8 = (n % 10) as u8;
    out.push((48 + d) as char);
    assert(old(out)@ + dec_nat(n as nat) =~= out@);
}

/// A natural number in decimal.
pub fn u64_text(n: u64) -> (r: String)
    ensures
        r@ == dec_nat(n as nat),
{
    let mut r: String = String::new();
    push_dec(&mut r, n);
    assert(Seq::<char>::empty() + dec_nat(n as nat) =~= dec_nat(n as nat));
    r
}

/// A natural number in decimal.
pub fn u32_text(n: u32) -> (r: String)
    ensures
        r@ == dec_nat(n as nat),
{
    u64_text(n as u64)
}

/// A natural number in decimal.
pub fn usize_text(n: usize) -> (r: String)
    ensures
        r@ == dec_nat(n as nat),
{
    u64_text(n as u64)
}

/// An integer in decimal.
pub fn i64_text(n: i64) -> (r: String)
    ensures
        r@ == dec_int(n as int),
{
    if n < 0 {
        let m: i128 = -(n as i128);
        let mut r: String = String::new();
        r.push('-');
        push_dec(&mut r, m as u64);
        assert(r@ =~= seq!['-'] + dec_nat((-n) as nat));
        r
    } else {
        u64_text(n as u64)
    }
}

/// An integer in decimal.
pub fn i32_text(n: i32) -> (r: String)
    ensures
        r@ == dec_int(n as int),
{
    i64_text(n as i64)
}

/// `true` or `false`, spelled out.
pub open spec fn bool_spelled(b: bool) -> Seq<char> {
    if b {
        "true"@
    } else {
        "false"@
    }
}

/// `true` or `false`, spelled out.
pub fn bool_text(b: bool) -> (r: &'static str)
    ensures
        r@ == bool_spelled(b),
{
    if b {
        "true"
    } else {
        "false"
    }
}

/// The items in order, with `sep` between neighbours.
pub open spec fn joined(items: Seq<Seq<char>>, sep: Seq<char>) -> Seq<char>
    decreases items.len(),
{
    if items.len() == 0 {
        Seq::empty()
    } else if items.len() == 1 {
        items[0]
    } else {
        joined(items.drop_last(), sep) + sep + items.last()
    }
}

/// The items in order, with `sep` between neighbours.
pub fn join(items: &Vec<String>, sep: &str) -> (r: String)
    ensures
        r@ == joined(texts(items@), sep@),
{
    let mut r: String = String::new();
    for i in 0..items.len()
        invariant
            r@ == joined(texts(items@.take(i as int)), sep@),
    {
        let ghost done = texts(items@.take(i as int));
        let ghost more = texts(items@.take(i + 1));
        assert(more.drop_last() =~= done);
        assert(more.last() == items@[i as int]@);
        if i > 0 {
            r.append(sep);
        }
        r.append(items[i].as_str());
        assert(r@ =~= joined(more, sep@));
    }
    assert(items@.take(items.len() as int) =~= items@);
    r
}

/// The pieces of `s` between the separators `sep`; one more piece than there are separators.
pub open spec fn split_char(s: Seq<char>, sep: char) -> Seq<Seq<char>>
    decreases s.len(),
{
    if s.len() == 0 {
        seq![Seq::empty()]
    } else {
        let before = split_char(s.drop_last(), sep);
        if s.last() == sep {
            before.push(Seq::empty())
        } else {
            before.drop_last().push(before.last().push(s.last()))
        }
    }
}

/// Whatever is split, there is a piece.
pub proof fn lemma_split_char_nonempty(s: Seq<char>, sep: char)
    ensures
        split_char(s, sep).len() > 0,
    decreases s.len(),
{
    if s.len() > 0 {
        lemma_split_char_nonempty(s.drop_last(), sep);
    }
}

/// The pieces of `s` between the separators `sep`.
pub fn split(s: &str, sep: char) -> (r: Vec<String>)
    ensures
        texts(r@) == split_char(s@, sep),
{
    broadcast use lemma_texts_push;

    let v: Vec<char> = chars_of(s);
    let mut r: Vec<String> = Vec::new();
    let mut cur: String = String::new();
    assert(texts(r@).push(cur@) =~= split_char(s@.take(0), sep));
    for i in 0..v.len()
        invariant
            v@ == s@,
            texts(r@).push(cur@) == split_char(s@.take(i as int), sep),
    {
        let ghost pre = s@.take(i as int);
        let ghost post = s@.take(i + 1);
        assert(post.drop_last() =~= pre);
        let ghost so_far = texts(r@);
        assert(so_far.push(cur@).drop_last() =~= so_far);
        let c: char = v[i];
        if c == sep {
            r.push(cur);
            cur = String::new();
            assert(texts(r@).push(cur@) =~= split_char(post, sep));
        } else {
            cur.push(c);
            assert(texts(r@).push(cur@) =~= split_char(post, sep));
        }
    }
    assert(s@.take(v.len() as int) =~= s@);
    r.push(cur);
    r
}

/// White space, or a comma where commas count.
pub open spec fn list_separator(c: char, commas: bool) -> bool {
    (commas && c == ',') || white_space(c)
}

/// The pieces of `s` between list separators; one more piece than there are separators.
pub open spec fn split_list(s: Seq<char>, commas: bool) -> Seq<Seq<char>>
    decreases s.len(),
{
    if s.len() == 0 {
        seq![Seq::empty()]
    } else {
        let before = split_list(s.drop_last(), commas);
        if list_separator(s.last(), commas) {
            before.push(Seq::empty())
        } else {
            before.drop_last().push(before.last().push(s.last()))
        }
    }
}

/// The pieces that are not empty, in order.
pub open spec fn nonempty(pieces: Seq<Seq<char>>) -> Seq<Seq<char>>
    decreases pieces.len(),
{
    if pieces.len() == 0 {
        Seq::empty()
    } else {
        let before = nonempty(pieces.drop_last());
        if pieces.last().len() > 0 {
            before.push(pieces.last())
        } else {
            before
        }
    }
}

/// The tokens of a list whose items stand between commas or white space.
pub open spec fn list_tokens(s: Seq<char>) -> Seq<Seq<char>> {
    nonempty(split_list(s, true))
}

/// The words of a text: what stands between white space.
pub open spec fn words(s: Seq<char>) -> Seq<Seq<char>> {
    nonempty(split_list(s, false))
}

fn pieces_of(raw: &str, commas: bool) -> (r: Vec<String>)
    ensures
        texts(r@) == nonempty(split_list(raw@, commas)),
{
    broadcast use lemma_texts_push;

    let v: Vec<char> = chars_of(raw);
    let mut r: Vec<String> = Vec::new();
    let mut cur: String = String::new();
    let ghost mut pieces: Seq<Seq<char>> = seq![];
    assert(pieces.push(cur@) =~= split_list(raw@.take(0), commas));
    assert(texts(r@) =~= nonempty(pieces));
    for i in 0..v.len()
        invariant
            v@ == raw@,
            pieces.push(cur@) == split_list(raw@.take(i as int), commas),
            texts(r@) == nonempty(pieces),
    {
        let ghost post = raw@.take(i + 1);
        assert(post.drop_last() =~= raw@.take(i as int));
        assert(pieces.push(cur@).drop_last() =~= pieces);
        let c: char = v[i];
        if (commas && c == ',') || is_white_space(c) {
            let ghost closed = pieces.push(cur@);
            if !cur.as_str().is_empty() {
                r.push(cur);
            }
            proof {
                pieces = closed;
            }
            cur = String::new();
            assert(pieces.push(cur@) =~= split_list(post, commas));
        } else {
            cur.push(c);
            assert(pieces.push(cur@) =~= split_list(post, commas));
        }
    }
    assert(raw@.take(v.len() as int) =~= raw@);
    assert(pieces.push(cur@).drop_last() =~= pieces);
    if !cur.as_str().is_empty() {
        r.push(cur);
    }
    r
}

/// The tokens of a list whose items stand between commas or white space.
pub fn parse_list_tokens(raw: &str) -> (r: Vec<String>)
    ensures
        texts(r@) == list_tokens(raw@),
{
    pieces_of(raw, true)
}

/// The words of a text: what stands between white space.
pub fn parse_words(raw: &str) -> (r: Vec<String>)
    ensures
        texts(r@) == words(raw@),
{
    pieces_of(raw, false)
}

proof fn lemma_split_list_pieces(s: Seq<char>, commas: bool)
    ensures
        split_list(s, commas).len() > 0,
        forall|i: int, j: int|
            #![trigger split_list(s, commas)[i][j]]
            0 <= i < split_list(s, commas).len() && 0 <= j < split_list(s, commas)[i].len() ==> !list_separator(
                split_list(s, commas)[i][j],
                commas,
            ),
    decreases s.len(),
{
    if s.len() > 0 {
        lemma_split_list_pieces(s.drop_last(), commas);
        let before = split_list(s.drop_last(), commas);
        if !list_separator(s.last(), commas) {
            let all = split_list(s, commas);
            assert forall|i: int, j: int|
                #![trigger all[i][j]]
                0 <= i < all.len() && 0 <= j < all[i].len() implies !list_separator(all[i][j], commas) by {
                if i < before.len() - 1 {
                    assert(all[i] == before[i]);
                    assert(!list_separator(before[i][j], commas));
                } else if j < before.last().len() {
                    assert(!list_separator(before[before.len() - 1][j], commas));
                }
            }
        } else {
            let all = split_list(s, commas);
            assert forall|i: int, j: int|
                #![trigger all[i][j]]
                0 <= i < all.len() && 0 <= j < all[i].len() implies !list_separator(all[i][j], commas) by {
                if i < before.len() {
                    assert(all[i] == before[i]);
                    assert(!list_separator(before[i][j], commas));
                }
            }
        }
    }
}

proof fn lemma_nonempty_from(pieces: Seq<Seq<char>>)
    ensures
        forall|i: int|
            #![trigger nonempty(pieces)[i]]
            0 <= i < nonempty(pieces).len() ==> nonempty(pieces)[i].len() > 0 && pieces.contains(
                nonempty(pieces)[i],
            ),
    decreases pieces.len(),
{
    if pieces.len() > 0 {
        let rest = pieces.drop_last();
        lemma_nonempty_from(rest);
        assert forall|i: int|
            #![trigger nonempty(pieces)[i]]
            0 <= i < nonempty(pieces).len() implies nonempty(pieces)[i].len() > 0
            && pieces.contains(nonempty(pieces)[i]) by {
            let t = nonempty(pieces)[i];
            if i < nonempty(rest).len() {
                assert(t == nonempty(rest)[i]);
                let k = choose|k: int| 0 <= k < rest.len() && rest[k] == t;
                assert(pieces[k] == t);
            } else {
                assert(pieces[pieces.len() - 1] == t);
            }
        }
    }
}

/// Every token of a list has at least one character and holds neither a comma nor white space.
pub proof fn law_list_tokens(s: Seq<char>, i: int)
    requires
        0 <= i < list_tokens(s).len(),
    ensures
        list_tokens(s)[i].len() > 0,
        forall|j: int|
            0 <= j < list_tokens(s)[i].len() ==> #[trigger] list_tokens(s)[i][j] != ','
                && !white_space(list_tokens(s)[i][j]),
{
    lemma_split_list_pieces(s, true);
    lemma_nonempty_from(split_list(s, true));
    let t = list_tokens(s)[i];
    let k = choose|k: int| 0 <= k < split_list(s, true).len() && split_list(s, true)[k] == t;
    assert forall|j: int| 0 <= j < t.len() implies #[trigger] t[j] != ',' && !white_space(t[j]) by {
        assert(!list_separator(split_list(s, true)[k][j], true));
    }
}

/// Every word has at least one character and holds no white space.
pub proof fn law_words(s: Seq<char>, i: int)
    requires
        0 <= i < words(s).len(),
    ensures
        words(s)[i].len() > 0,
        forall|j: int|
            0 <= j < words(s)[i].len() ==> !white_space(#[trigger] words(s)[i][j]),
{
    lemma_split_list_pieces(s, false);
    lemma_nonempty_from(split_list(s, false));
    let t = words(s)[i];
    let k = choose|k: int| 0 <= k < split_list(s, false).len() && split_list(s, false)[k] == t;
    assert forall|j: int| 0 <= j < t.len() implies !white_space(#[trigger] t[j]) by {
        assert(!list_separator(split_list(s, false)[k][j], false));
    }
}

proof fn lemma_trim_start_shape(s: Seq<char>)
    ensures
        trim_start(s).len() <= s.len(),
        trim_start(s) == s.skip(s.len() - trim_start(s).len()),
        trim_start(s).len() > 0 ==> !white_space(trim_start(s)[0]),
    decreases s.len(),
{
    if s.len() > 0 && white_space(s[0]) {
        lemma_trim_start_shape(s.drop_first());
        assert(s.drop_first().skip(s.len() - 1 - trim_start(s).len()) =~= s.skip(
            s.len() - trim_start(s).len(),
        ));
    } else {
        assert(s.skip(0) =~= s);
    }
}

proof fn lemma_trim_end_shape(s: Seq<char>)
    ensures
        trim_end(s).len() <= s.len(),
        trim_end(s) == s.take(trim_end(s).len() as int),
        trim_end(s).len() > 0 ==> !white_space(trim_end(s).last()),
    decreases s.len(),
{
    if s.len() > 0 && white_space(s.last()) {
        lemma_trim_end_shape(s.drop_last());
        assert(s.drop_last().take(trim_end(s).len() as int) =~= s.take(trim_end(s).len() as int));
    } else {
        assert(s.take(s.len() as int) =~= s);
    }
}

/// A trimmed text neither starts nor ends with white space.
pub proof fn law_trimmed_ends(s: Seq<char>)
    requires
        trimmed(s).len() > 0,
    ensures
        !white_space(trimmed(s)[0]),
        !white_space(trimmed(s).last()),
{
    lemma_trim_start_shape(s);
    lemma_trim_end_shape(trim_start(s));
}

/// Trimming a text a second time changes nothing.
pub proof fn law_trimmed_twice(s: Seq<char>)
    ensures
        trimmed(trimmed(s)) == trimmed(s),
{
    lemma_trim_start_shape(s);
    lemma_trim_end_shape(trim_start(s));
    if trimmed(s).len() > 0 {
        law_trimmed_ends(s);
    }
}

/// All characters are decimal digits, and there is at least one.
pub open spec fn digits_only(s: Seq<char>) -> bool {
    s.len() > 0 && forall|i: int| 0 <= i < s.len() ==> '0' <= #[trigger] s[i] <= '9'
}

/// The number that a row of decimal digits stands for.
pub open spec fn digits_value(s: Seq<char>) -> nat
    decreases s.len(),
{
    if s.len() == 0 {
        0
    } else {
        (10 * digits_value(s.drop_last()) + (s.last() as int - 48)) as nat
    }
}

/// The integer that `s` spells: digits, after a plus sign or (where `signed`) a minus sign.
pub open spec fn spelled_int(s: Seq<char>, signed: bool) -> Option<int> {
    if s.len() > 0 && signed && s[0] == '-' && digits_only(s.drop_first()) {
        Some(-(digits_value(s.drop_first()) as int))
    } else if s.len() > 0 && s[0] == '+' && digits_only(s.drop_first()) {
        Some(digits_value(s.drop_first()) as int)
    } else if digits_only(s) {
        Some(digits_value(s) as int)
    } else {
        None
    }
}

proof fn lemma_digits_value_grows(s: Seq<char>, n: int)
    requires
        forall|i: int| 0 <= i < s.len() ==> '0' <= #[trigger] s[i] <= '9',
        0 <= n <= s.len(),
    ensures
        digits_value(s.take(n)) <= digits_value(s),
    decreases s.len() - n,
{
    if n < s.len() {
        lemma_digits_value_grows(s, n + 1);
        assert(s.take(n + 1).drop_last() =~= s.take(n));
        assert('0' <= s[n] <= '9');
    } else {
        assert(s.take(n) =~= s);
    }
}

/// The value of the digits from `from` on, where there are only digits and it is at most `limit`.
fn parse_digits(v: &Vec<char>, from: usize, limit: u64) -> (r: Option<u64>)
    requires
        from <= v@.len(),
        limit <= 0x8000_0000_0000_0000,
    ensures
        match r {
            Some(n) => digits_only(v@.skip(from as int)) && n == digits_value(v@.skip(from as int))
                && n <= limit,
            None => digits_only(v@.skip(from as int)) ==> digits_value(v@.skip(from as int))
                > limit,
        },
{
    let ghost d = v@.skip(from as int);
    let n: usize = v.len();
    if from == n {
        return None;
    }
    let mut acc: u64 = 0;
    let mut i: usize = from;
    while i < n
        invariant
            from <= i <= n,
            n == v@.len(),
            d == v@.skip(from as int),
            limit <= 0x8000_0000_0000_0000,
            acc <= limit,
            acc == digits_value(d.take(i - from)),
            forall|k: int| 0 <= k < i - from ==> '0' <= #[trigger] d[k] <= '9',
        decreases n - i,
    {
        let c: char = v[i];
        assert(c == d[i - from]);
        if !('0' <= c && c <= '9') {
            return None;
        }
        let wide: u128 = 10 * (acc as u128) + (c as u32 - 48) as u128;
        assert(d.take(i + 1 - from).drop_last() =~= d.take(i - from));
        assert(wide == digits_value(d.take(i + 1 - from)));
        if wide > limit as u128 {
            proof {
                if digits_only(d) {
                    lemma_digits_value_grows(d, i + 1 - from);
                }
            }
            return None;
        }
        acc = wide as u64;
        i = i + 1;
    }
    assert(d.take(n - from) =~= d);
    Some(acc)
}

/// The 64-bit integer that `s` spells in decimal, with an optional sign.
pub open spec fn i64_spelled(s: Seq<char>) -> Option<i64> {
    match spelled_int(s, true) {
        Some(n) => if i64::MIN <= n <= i64::MAX {
            Some(n as i64)
        } else {
            None
        },
        None => None,
    }
}

/// The 64-bit integer that `s` spells in decimal, with an optional sign.
pub fn parse_i64(s: &str) -> (r: Option<i64>)
    ensures
        r == i64_spelled(s@),
{
    let v: Vec<char> = chars_of(s);
    assert(v@.skip(0) =~= v@);
    if v.len() > 0 {
        assert(v@.skip(1) =~= v@.drop_first());
        if v[0] == '-' {
            assert(!digits_only(v@));
            return match parse_digits(&v, 1, 0x8000_0000_0000_0000) {
                Some(n) => {
                    let m: i128 = -(n as i128);
                    Some(m as i64)
                },
                None => None,
            };
        }
        if v[0] == '+' {
            assert(!digits_only(v@));
            return match parse_digits(&v, 1, 0x7fff_ffff_ffff_ffff) {
                Some(n) => Some(n as i64),
                None => None,
            };
        }
    }
    match parse_digits(&v, 0, 0x7fff_ffff_ffff_ffff) {
        Some(n) => Some(n as i64),
        None => None,
    }
}

/// The 32-bit natural number that `s` spells in decimal, with an optional plus sign.
pub open spec fn u32_spelled(s: Seq<char>) -> Option<u32> {
    match spelled_int(s, false) {
        Some(n) => if 0 <= n <= u32::MAX {
            Some(n as u32)
        } else {
            None
        },
        None => None,
    }
}

/// The 32-bit natural number that `s` spells in decimal, with an optional plus sign.
pub fn parse_u32(s: &str) -> (r: Option<u32>)
    ensures
        r == u32_spelled(s@),
{
    let v: Vec<char> = chars_of(s);
    assert(v@.skip(0) =~= v@);
    if v.len() > 0 {
        assert(v@.skip(1) =~= v@.drop_first());
        if v[0] == '+' {
            assert(!digits_only(v@));
            return match parse_digits(&v, 1, 0xffff_ffff) {
                Some(n) => Some(n as u32),
                None => None,
            };
        }
    }
    match parse_digits(&v, 0, 0xffff_ffff) {
        Some(n) => Some(n as u32),
        None => None,
    }
}

proof fn lemma_dec_nat_digits(n: nat)
    ensures
        digits_only(dec_nat(n)),
        digits_value(dec_nat(n)) == n,
    decreases n,
{
    if n >= 10 {
        lemma_dec_nat_digits(n / 10);
        assert(dec_nat(n).drop_last() =~= dec_nat(n / 10));
    } else {
        assert(dec_nat(n).drop_last() =~= Seq::empty());
        assert(digits_value(Seq::<char>::empty()) == 0);
    }
}

/// Reading back a number that was written in decimal gives the number.
pub proof fn law_decimal_round_trip(n: i64)
    ensures
        i64_spelled(dec_int(n as int)) == Some(n),
{
    if n < 0 {
        lemma_dec_nat_digits((-n) as nat);
        assert(dec_int(n as int).drop_first() =~= dec_nat((-n) as nat));
    } else {
        lemma_dec_nat_digits(n as nat);
        assert('0' <= dec_nat(n as nat)[0] <= '9');
    }
}

/// `s` starts with `prefix`.
pub open spec fn has_prefix(s: Seq<char>, prefix: Seq<char>) -> bool {
    prefix.len() <= s.len() && s.take(prefix.len() as int) == prefix
}

/// What follows `prefix` in `s`, where `s` starts with it.
pub fn strip_prefix<'a>(s: &'a str, prefix: &str) -> (r: Option<&'a str>)
    ensures
        match r {
            Some(rest) => has_prefix(s@, prefix@) && rest@ == s@.skip(prefix@.len() as int),
            None => !has_prefix(s@, prefix@),
        },
{
    let v: Vec<char> = chars_of(s);
    let p: Vec<char> = chars_of(prefix);
    if p.len() > v.len() {
        return None;
    }
    for i in 0..p.len()
        invariant
            v@ == s@,
            p@ == prefix@,
            p@.len() <= v@.len(),
            forall|k: int| 0 <= k < i ==> v@[k] == p@[k],
    {
        if v[i] != p[i] {
            assert(s@.take(p@.len() as int)[i as int] != prefix@[i as int]);
            return None;
        }
    }
    assert(s@.take(p@.len() as int) =~= prefix@);
    let rest: &'a str = s.substring_char(p.len(), v.len());
    assert(rest@ =~= s@.skip(p@.len() as int));
    Some(rest)
}

/// `s` ends with `suffix`.
pub open spec fn has_suffix(s: Seq<char>, suffix: Seq<char>) -> bool {
    suffix.len() <= s.len() && s.skip(s.len() - suffix.len()) == suffix
}

/// Tells whether `s` ends with `suffix`.
pub fn ends_with(s: &str, suffix: &str) -> (r: bool)
    ensures
        r == has_suffix(s@, suffix@),
{
    let n: usize = s.unicode_len();
    let k: usize = suffix.unicode_len();
    if k > n {
        return false;
    }
    let tail: &str = s.substring_char(n - k, n);
    assert(tail@ =~= s@.skip(n - k));
    text_eq(tail, suffix)
}

/// `s`, with a line feed behind it unless it ends with one.
pub open spec fn newline_ended(s: Seq<char>) -> Seq<char> {
    if s.len() > 0 && s.last() == '\n' {
        s
    } else {
        s.push('\n')
    }
}

/// `s`, with a line feed behind it unless it ends with one.
pub fn end_with_newline(s: String) -> (r: String)
    ensures
        r@ == newline_ended(s@),
{
    let mut r: String = s;
    let n: usize = r.as_str().unicode_len();
    if n == 0 || r.as_str().get_char(n - 1) != '\n' {
        r.push('\n');
    }
    r
}

/// The place of the first `c` in `s`.
pub open spec fn first_place(s: Seq<char>, c: char) -> Option<int>
    decreases s.len(),
{
    if s.len() == 0 {
        None
    } else if s[0] == c {
        Some(0)
    } else {
        match first_place(s.drop_first(), c) {
            Some(i) => Some(i + 1),
            None => None,
        }
    }
}

/// The first place of a character holds it, and no place before does; without one, none holds it.
pub proof fn lemma_first_place(s: Seq<char>, c: char)
    ensures
        match first_place(s, c) {
            Some(i) => 0 <= i < s.len() && s[i] == c && forall|j: int|
                0 <= j < i ==> #[trigger] s[j] != c,
            None => forall|j: int| 0 <= j < s.len() ==> #[trigger] s[j] != c,
        },
    decreases s.len(),
{
    if s.len() > 0 && s[0] != c {
        lemma_first_place(s.drop_first(), c);
        let rest = s.drop_first();
        match first_place(rest, c) {
            Some(i) => {
                assert forall|j: int| 0 <= j < i + 1 implies #[trigger] s[j] != c by {
                    if j > 0 {
                        assert(rest[j - 1] == s[j]);
                    }
                }
            },
            None => {
                assert forall|j: int| 0 <= j < s.len() implies #[trigger] s[j] != c by {
                    if j > 0 {
                        assert(rest[j - 1] == s[j]);
                    }
                }
            },
        }
    }
}

/// The place of the first `c` in `s`.
pub fn find_char(s: &str, c: char) -> (r: Option<usize>)
    ensures
        match r {
            Some(i) => first_place(s@, c) == Some(i as int) && i < s@.len(),
            None => first_place(s@, c) is None,
        },
{
    let v: Vec<char> = chars_of(s);
    proof {
        lemma_first_place(s@, c);
    }
    for i in 0..v.len()
        invariant
            v@ == s@,
            forall|j: int| 0 <= j < i ==> #[trigger] s@[j] != c,
    {
        if v[i] == c {
            proof {
                lemma_first_place(s@, c);
            }
            return Some(i);
        }
    }
    None
}

/// `a` stands before `b` in the order of their characters' code points.
pub open spec fn text_before(a: Seq<char>, b: Seq<char>) -> bool
    decreases b.len(),
{
    if b.len() == 0 {
        false
    } else if a.len() == 0 {
        true
    } else if a[0] != b[0] {
        a[0] < b[0]
    } else {
        text_before(a.drop_first(), b.drop_first())
    }
}

/// Of two different texts one stands before the other, and not both.
pub proof fn law_text_before_total(a: Seq<char>, b: Seq<char>)
    ensures
        a != b ==> (text_before(a, b) != text_before(b, a)),
        a == b ==> !text_before(a, b),
    decreases a.len() + b.len(),
{
    if a.len() > 0 && b.len() > 0 && a[0] == b[0] {
        law_text_before_total(a.drop_first(), b.drop_first());
        if a.drop_first() == b.drop_first() {
            assert(a =~= seq![a[0]] + a.drop_first());
            assert(b =~= seq![b[0]] + b.drop_first());
        }
    } else if a.len() == 0 && b.len() == 0 {
        assert(a =~= b);
    }
}

/// The order of texts is transitive.
pub proof fn law_text_before_transitive(a: Seq<char>, b: Seq<char>, c: Seq<char>)
    requires
        text_before(a, b),
        text_before(b, c),
    ensures
        text_before(a, c),
    decreases c.len(),
{
    if a.len() > 0 && b.len() > 0 && c.len() > 0 && a[0] == b[0] && b[0] == c[0] {
        law_text_before_transitive(a.drop_first(), b.drop_first(), c.drop_first());
    }
}

/// Tells whether `a` stands before `b` in the order of their characters' code points.
pub fn is_text_before(a: &str, b: &str) -> (r: bool)
    ensures
        r == text_before(a@, b@),
{
    let x: Vec<char> = chars_of(a);
    let y: Vec<char> = chars_of(b);
    let mut i: usize = 0;
    assert(a@.skip(0) =~= a@);
    assert(b@.skip(0) =~= b@);
    while i < x.len() && i < y.len() && x[i] == y[i]
        invariant
            x@ == a@,
            y@ == b@,
            i <= x@.len(),
            i <= y@.len(),
            text_before(a@, b@) == text_before(a@.skip(i as int), b@.skip(i as int)),
        decreases x@.len() - i,
    {
        assert(a@.skip(i as int).drop_first() =~= a@.skip(i + 1));
        assert(b@.skip(i as int).drop_first() =~= b@.skip(i + 1));
        i = i + 1;
    }
    if i >= y.len() {
        false
    } else if i >= x.len() {
        true
    } else {
        x[i] < y[i]
    }
}

/// The part stands somewhere in the text.
pub open spec fn mentions(text: Seq<char>, part: Seq<char>) -> bool {
    exists|i: int|
        0 <= i && i + part.len() <= text.len() && #[trigger] text.subrange(
            i,
            i + part.len(),
        ) == part
}

/// A text mentions itself.
pub broadcast proof fn lemma_mentions_itself(text: Seq<char>)
    ensures
        #[trigger] mentions(text, text),
{
    let i: int = 0;
    assert(text.subrange(i, i + text.len()) =~= text);
}

/// What one of two texts mentions, both together mention.
pub broadcast proof fn lemma_mentions_in_sum(a: Seq<char>, b: Seq<char>, part: Seq<char>)
    requires
        mentions(a, part) || mentions(b, part),
    ensures
        #[trigger] mentions(a + b, part),
{
    let all = a + b;
    if mentions(a, part) {
        let i = choose|i: int|
            0 <= i && i + part.len() <= a.len() && #[trigger] a.subrange(
                i,
                i + part.len(),
            ) == part;
        assert(all.subrange(i, i + part.len()) =~= a.subrange(i, i + part.len()));
    } else {
        let i = choose|i: int|
            0 <= i && i + part.len() <= b.len() && #[trigger] b.subrange(
                i,
                i + part.len(),
            ) == part;
        let k = a.len() + i;
        assert(all.subrange(k, k + part.len()) =~= b.subrange(i, i + part.len()));
    }
}

proof fn lemma_trim_start_cuts_white(s: Seq<char>, i: int)
    requires
        0 <= i < s.len() - trim_start(s).len(),
    ensures
        white_space(s[i]),
    decreases s.len(),
{
    if s.len() > 0 && white_space(s[0]) && i > 0 {
        lemma_trim_start_cuts_white(s.drop_first(), i - 1);
    }
}

proof fn lemma_trim_end_cuts_white(s: Seq<char>, i: int)
    requires
        trim_end(s).len() <= i < s.len(),
    ensures
        white_space(s[i]),
    decreases s.len(),
{
    if s.len() > 0 && white_space(s.last()) && i < s.len() - 1 {
        lemma_trim_end_cuts_white(s.drop_last(), i);
    }
}

/// A trimmed text is a piece of the text, and all that was cut off is white space.
pub proof fn law_trimmed_cuts_only_white_space(s: Seq<char>)
    ensures
        exists|k: int|
            #![trigger s.skip(k)]
            {
                &&& 0 <= k
                &&& k + trimmed(s).len() <= s.len()
                &&& s.skip(k).take(trimmed(s).len() as int) == trimmed(s)
                &&& forall|i: int|
                    0 <= i < k || k + trimmed(s).len() <= i < s.len() ==> white_space(
                        #[trigger] s[i],
                    )
            },
{
    let a = trim_start(s);
    let t = trimmed(s);
    lemma_trim_start_shape(s);
    lemma_trim_end_shape(a);
    let k = s.len() - a.len();
    assert(s.skip(k).take(t.len() as int) =~= t);
    assert forall|i: int| 0 <= i < k || k + t.len() <= i < s.len() implies white_space(
        #[trigger] s[i],
    ) by {
        if i < k {
            lemma_trim_start_cuts_white(s, i);
        } else {
            assert(a[i - k] == s[i]);
            lemma_trim_end_cuts_white(a, i - k);
        }
    }
}

/// A text is blank exactly where it holds nothing but white space.
pub proof fn law_blank(s: Seq<char>)
    ensures
        blank(s) <==> forall|i: int| 0 <= i < s.len() ==> white_space(#[trigger] s[i]),
{
    law_trimmed_cuts_only_white_space(s);
    let k = choose|k: int|
        #![trigger s.skip(k)]
        {
            &&& 0 <= k
            &&& k + trimmed(s).len() <= s.len()
            &&& s.skip(k).take(trimmed(s).len() as int) == trimmed(s)
            &&& forall|i: int|
                0 <= i < k || k + trimmed(s).len() <= i < s.len() ==> white_space(#[trigger] s[i])
        };
    if !blank(s) {
        law_trimmed_ends(s);
        assert(s.skip(k).take(trimmed(s).len() as int)[0] == s[k]);
        assert(!white_space(s[k]));
    }
}

/// Lower case changes the letters from A to Z, each to its small one, and nothing else.
pub proof fn law_lowered(s: Seq<char>, i: int)
    requires
        0 <= i < s.len(),
    ensures
        lowered(s).len() == s.len(),
        'A' <= s[i] <= 'Z' ==> lowered(s)[i] as u32 - 'a' as u32 == s[i] as u32 - 'A' as u32,
        !('A' <= s[i] <= 'Z') ==> lowered(s)[i] == s[i],
{
}

/// A text that holds no separator stays in one piece.
proof fn lemma_split_whole(s: Seq<char>, sep: char)
    requires
        !s.contains(sep),
    ensures
        split_char(s, sep) == seq![s],
    decreases s.len(),
{
    if s.len() > 0 {
        let rest = s.drop_last();
        assert forall|i: int| 0 <= i < rest.len() implies rest[i] != sep by {
            assert(s[i] == rest[i]);
            assert(s.contains(s[i]));
        }
        lemma_split_whole(rest, sep);
        assert(s.contains(s[s.len() - 1]));
        assert(split_char(s, sep) =~= seq![s]) by {
            assert(rest.push(s.last()) =~= s);
        }
    } else {
        assert(s =~= Seq::empty());
        assert(split_char(s, sep) =~= seq![s]);
    }
}

/// Text splits at a separator: what stands before it and what stands behind it split on their own.
pub proof fn law_split_at_separator(a: Seq<char>, b: Seq<char>, sep: char)
    ensures
        split_char(a + seq![sep] + b, sep) == split_char(a, sep) + split_char(b, sep),
    decreases b.len(),
{
    let all = a + seq![sep] + b;
    if b.len() == 0 {
        assert(all.drop_last() =~= a);
        assert(all.last() == sep);
        assert(split_char(all, sep) =~= split_char(a, sep) + split_char(b, sep));
    } else {
        let rest = b.drop_last();
        law_split_at_separator(a, rest, sep);
        assert(all.drop_last() =~= a + seq![sep] + rest);
        lemma_split_char_nonempty(rest, sep);
        let x = split_char(a, sep);
        let y = split_char(rest, sep);
        assert((x + y).last() == y.last());
        assert((x + y).drop_last() =~= x + y.drop_last());
        assert(split_char(all, sep) =~= x + split_char(b, sep));
    }
}

/// A text without the separator is its own only piece.
pub proof fn law_split_without_separator(s: Seq<char>, sep: char)
    requires
        !s.contains(sep),
    ensures
        split_char(s, sep) == seq![s],
{
    lemma_split_whole(s, sep);
}

/// Joining what a text was split into gives the text back.
pub proof fn law_join_undoes_split(s: Seq<char>, sep: char)
    ensures
        joined(split_char(s, sep), seq![sep]) == s,
    decreases s.len(),
{
    if s.len() == 0 {
        assert(split_char(s, sep)[0] =~= s);
    } else {
        let rest = s.drop_last();
        law_join_undoes_split(rest, sep);
        lemma_split_char_nonempty(rest, sep);
        let before = split_char(rest, sep);
        let all = split_char(s, sep);
        let j = seq![sep];
        if s.last() == sep {
            assert(all.drop_last() =~= before);
            assert(joined(all, j) =~= s);
        } else {
            if before.len() == 1 {
                assert(all.len() == 1);
                assert(joined(all, j) =~= s);
            } else {
                assert(all.drop_last() =~= before.drop_last());
                assert(all.last() == before.last().push(s.last()));
                assert(rest == joined(before.drop_last(), j) + j + before.last());
                assert(joined(all, j) == joined(before.drop_last(), j) + j + all.last());
                assert(joined(all, j) =~= rest.push(s.last()));
                assert(rest.push(s.last()) =~= s);
            }
        }
    }
}

proof fn lemma_nonempty_sum(a: Seq<Seq<char>>, b: Seq<Seq<char>>)
    ensures
        nonempty(a + b) == nonempty(a) + nonempty(b),
    decreases b.len(),
{
    if b.len() == 0 {
        assert(a + b =~= a);
        assert(nonempty(a) + nonempty(b) =~= nonempty(a));
    } else {
        lemma_nonempty_sum(a, b.drop_last());
        assert((a + b).drop_last() =~= a + b.drop_last());
        assert((a + b).last() == b.last());
        assert(nonempty(a + b) =~= nonempty(a) + nonempty(b));
    }
}

proof fn lemma_split_list_sum(a: Seq<char>, c: char, b: Seq<char>, commas: bool)
    requires
        list_separator(c, commas),
    ensures
        split_list(a + seq![c] + b, commas) == split_list(a, commas) + split_list(b, commas),
    decreases b.len(),
{
    let all = a + seq![c] + b;
    if b.len() == 0 {
        assert(all.drop_last() =~= a);
        assert(all.last() == c);
        assert(split_list(all, commas) =~= split_list(a, commas) + split_list(b, commas));
    } else {
        let rest = b.drop_last();
        lemma_split_list_sum(a, c, rest, commas);
        assert(all.drop_last() =~= a + seq![c] + rest);
        lemma_split_list_pieces(rest, commas);
        let x = split_list(a, commas);
        let y = split_list(rest, commas);
        assert((x + y).last() == y.last());
        assert((x + y).drop_last() =~= x + y.drop_last());
        assert(split_list(all, commas) =~= x + split_list(b, commas));
    }
}

proof fn lemma_split_list_whole(s: Seq<char>, commas: bool)
    requires
        forall|i: int| 0 <= i < s.len() ==> !list_separator(#[trigger] s[i], commas),
    ensures
        split_list(s, commas) == seq![s],
    decreases s.len(),
{
    if s.len() > 0 {
        let rest = s.drop_last();
        assert forall|i: int| 0 <= i < rest.len() implies !list_separator(
            #[trigger] rest[i],
            commas,
        ) by {
            assert(s[i] == rest[i]);
        }
        lemma_split_list_whole(rest, commas);
        assert(!list_separator(s[s.len() - 1], commas));
        assert(rest.push(s.last()) =~= s);
        assert(split_list(s, commas) =~= seq![s]);
    } else {
        assert(s =~= Seq::empty());
        assert(split_list(s, commas) =~= seq![s]);
    }
}

/// A comma or white space ends a token: what stands before it and what stands behind it have their
/// tokens on their own. What holds neither is one token, and nothing has none.
pub proof fn law_tokens_end_at_separators(a: Seq<char>, c: char, b: Seq<char>)
    ensures
        c == ',' || white_space(c) ==> list_tokens(a + seq![c] + b) == list_tokens(a) + list_tokens(
            b,
        ),
        a.len() > 0 && (forall|i: int|
            0 <= i < a.len() ==> #[trigger] a[i] != ',' && !white_space(a[i])) ==> list_tokens(a)
            == seq![a],
        list_tokens(Seq::empty()).len() == 0,
{
    if c == ',' || white_space(c) {
        lemma_split_list_sum(a, c, b, true);
        lemma_nonempty_sum(split_list(a, true), split_list(b, true));
    }
    if a.len() > 0 && forall|i: int|
        0 <= i < a.len() ==> #[trigger] a[i] != ',' && !white_space(a[i]) {
        lemma_split_list_whole(a, true);
        reveal_with_fuel(nonempty, 2);
        assert(nonempty(seq![a]) =~= seq![a]) by {
            assert(seq![a].drop_last() =~= Seq::empty());
        }
    }
    lemma_split_list_whole(Seq::empty(), true);
    reveal_with_fuel(nonempty, 2);
    let none = seq![Seq::<char>::empty()];
    assert(none.drop_last() =~= Seq::empty());
    assert(nonempty(none) =~= Seq::empty());
}

/// White space ends a word: what stands before it and what stands behind it have their words on their
/// own. What holds none is one word.
pub proof fn law_words_end_at_white_space(a: Seq<char>, c: char, b: Seq<char>)
    ensures
        white_space(c) ==> words(a + seq![c] + b) == words(a) + words(b),
        a.len() > 0 && (forall|i: int| 0 <= i < a.len() ==> !white_space(#[trigger] a[i]))
            ==> words(a) == seq![a],
{
    if white_space(c) {
        lemma_split_list_sum(a, c, b, false);
        lemma_nonempty_sum(split_list(a, false), split_list(b, false));
    }
    if a.len() > 0 && forall|i: int| 0 <= i < a.len() ==> !white_space(#[trigger] a[i]) {
        lemma_split_list_whole(a, false);
        reveal_with_fuel(nonempty, 2);
        assert(nonempty(seq![a]) =~= seq![a]) by {
            assert(seq![a].drop_last() =~= Seq::empty());
        }
    }
}

/// A text has a prefix exactly where it is the prefix and something behind it, and a suffix exactly
/// where it is something and the suffix behind it.
pub proof fn law_prefix_and_suffix(s: Seq<char>, part: Seq<char>)
    ensures
        has_prefix(s, part) <==> s == part + s.skip(part.len() as int) && part.len() <= s.len(),
        has_suffix(s, part) <==> s == s.take(s.len() - part.len()) + part && part.len() <= s.len(),
{
    if part.len() <= s.len() {
        let n = part.len() as int;
        assert(s =~= s.take(n) + s.skip(n));
        let m = s.len() - part.len();
        assert(s =~= s.take(m) + s.skip(m));
        if s == part + s.skip(n) {
            assert(s.take(n) =~= part);
        }
        if s == s.take(m) + part {
            assert(s.skip(m) =~= part);
        }
    }
}

/// What ends a line ends in a line break, and only where none was there one is added.
pub proof fn law_newline_ended(s: Seq<char>)
    ensures
        newline_ended(s).len() > 0,
        newline_ended(s).last() == '\n',
        newline_ended(s) == s || (newline_ended(s) == s.push('\n') && (s.len() == 0 || s.last()
            != '\n')),
{
}

/// The order of texts is that of a dictionary: a text stands before its continuations, and of two
/// texts that part at a place the one with the smaller character there stands first.
pub proof fn law_dictionary_order(head: Seq<char>, a: Seq<char>, b: Seq<char>)
    requires
        b.len() > 0,
        a.len() == 0 || a[0] != b[0],
    ensures
        text_before(head + a, head + b) <==> a.len() == 0 || a[0] < b[0],
    decreases head.len(),
{
    if head.len() == 0 {
        assert(head + a =~= a);
        assert(head + b =~= b);
    } else {
        law_dictionary_order(head.drop_first(), a, b);
        assert((head + a).drop_first() =~= head.drop_first() + a);
        assert((head + b).drop_first() =~= head.drop_first() + b);
    }
}

/// A number is read only from decimal digits with at most a sign before them, and a further digit
/// counts for ten times the digits before it and itself.
pub proof fn law_numbers_are_decimal(s: Seq<char>, c: char)
    ensures
        i64_spelled(s) is Some ==> s.len() > 0 && forall|i: int|
            0 <= i < s.len() ==> '0' <= #[trigger] s[i] <= '9' || (i == 0 && (s[i] == '-' || s[i]
                == '+')),
        u32_spelled(s) is Some ==> s.len() > 0 && forall|i: int|
            0 <= i < s.len() ==> '0' <= #[trigger] s[i] <= '9' || (i == 0 && s[i] == '+'),
        '0' <= c <= '9' && digits_only(s) ==> digits_only(s.push(c)) && digits_value(s.push(c))
            == 10 * digits_value(s) + (c as int - '0' as int),
{
    let tail = s.drop_first();
    assert forall|i: int| 0 < i < s.len() && digits_only(tail) implies '0' <= #[trigger] s[i]
        <= '9' by {
        assert(tail[i - 1] == s[i]);
    }
    assert(s.push(c).drop_last() =~= s);
    assert('0' as int == 48);
}

/// What is seen of texts is each text, in order; and of a text that may be missing, the text where it
/// is there.
pub proof fn law_texts_are_seen_whole(v: Seq<String>, i: int, o: Option<String>)
    requires
        0 <= i < v.len(),
    ensures
        texts(v).len() == v.len(),
        texts(v)[i] == v[i]@,
        o matches Some(t) ==> opt_text(o) == Some(t@),
        o is None ==> opt_text(o) is None,
{
}

} // verus!
