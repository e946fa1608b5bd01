//! Text rules shared by every endpoint: blank checks, trimming, tag
//! normalisation and the building of messages.

use vstd::prelude::*;

verus! {

/// The characters with the Unicode `White_Space` property.
pub open spec fn is_white_space(c: char) -> bool {
    let n = c as u32;
    ||| 0x09 <= n <= 0x0d
    ||| n == 0x20
    ||| n == 0x85
    ||| n == 0xa0
    ||| n == 0x1680
    ||| 0x2000 <= n <= 0x200a
    ||| n == 0x2028
    ||| n == 0x2029
    ||| n == 0x202f
    ||| n == 0x205f
    ||| n == 0x3000
}

/// Whether `c` is white space.
pub fn white_space(c: char) -> (r: bool)
    ensures
        r == is_white_space(c),
{
    let n: u32 = c as u32;
    (0x09 <= n && n <= 0x0d) || n == 0x20 || n == 0x85 || n == 0xa0 || n == 0x1680 || (0x2000 <= n
        && n <= 0x200a) || n == 0x2028 || n == 0x2029 || n == 0x202f || n == 0x205f || n == 0x3000
}

/// `s` without the white space at its two ends.
pub open spec fn trimmed(s: Seq<char>) -> Seq<char>
    decreases s.len(),
{
    if s.len() == 0 {
        s
    } else if is_white_space(s.first()) {
        trimmed(s.drop_first())
    } else if is_white_space(s.last()) {
        trimmed(s.drop_last())
    } else {
        s
    }
}

/// `s` holds nothing but white space.
pub open spec fn blank(s: Seq<char>) -> bool {
    forall|i: int| 0 <= i < s.len() ==> is_white_space(#[trigger] s[i])
}

/// A text is blank exactly when trimming leaves nothing of it.
pub proof fn blank_is_empty_after_trimming(s: Seq<char>)
    ensures
        blank(s) <==> trimmed(s).len() == 0,
    decreases s.len(),
{
    if s.len() > 0 {
        if is_white_space(s.first()) {
            let t = s.drop_first();
            blank_is_empty_after_trimming(t);
            if blank(t) {
                assert forall|i: int| 0 <= i < s.len() implies is_white_space(#[trigger] s[i]) by {
                    if i > 0 {
                        assert(t[i - 1] == s[i]);
                    }
                }
            }
            if blank(s) {
                assert forall|i: int| 0 <= i < t.len() implies is_white_space(#[trigger] t[i]) by {
                    assert(t[i] == s[i + 1]);
                }
            }
        } else {
            assert(!is_white_space(s[0]));
            if is_white_space(s.last()) {
                let t = s.drop_last();
                blank_is_empty_after_trimming(t);
                assert(t[0] == s[0]);
            }
        }
    }
}

/// What trimming leaves neither starts nor ends with white space.
pub proof fn trimmed_ends_are_not_white_space(s: Seq<char>)
    ensures
        trimmed(s).len() > 0 ==> !is_white_space(trimmed(s).first()) && !is_white_space(
            trimmed(s).last(),
        ),
    decreases s.len(),
{
    if s.len() > 0 {
        if is_white_space(s.first()) {
            trimmed_ends_are_not_white_space(s.drop_first());
        } else if is_white_space(s.last()) {
            trimmed_ends_are_not_white_space(s.drop_last());
        }
    }
}

/// Trimming twice is trimming once.
pub proof fn trimming_is_idempotent(s: Seq<char>)
    ensures
        trimmed(trimmed(s)) == trimmed(s),
{
    trimmed_ends_are_not_white_space(s);
}

fn chars_of(s: &str) -> (r: Vec<char>)
    ensures
        r@ == s@,
{
    let mut out: Vec<char> = Vec::new();
    for c in it: s.chars()
        invariant
            out@ == it.seq().take(it.index()),
    {
        out.push(c);
    }
    out
}

/// Whether `s` holds nothing but white space.
pub fn is_blank(s: &str) -> (r: bool)
    ensures
        r == blank(s@),
{
    let cs = chars_of(s);
    for i in 0..cs.len()
        invariant
            cs@ == s@,
            forall|j: int| 0 <= j < i ==> is_white_space(#[trigger] s@[j]),
    {
        if !white_space(cs[i]) {
            return false;
        }
    }
    true
}

/// `s` without the white space at its two ends.
pub fn trim(s: &str) -> (r: &str)
    ensures
        r@ == trimmed(s@),
{
    let cs = chars_of(s);
    let mut from: usize = 0;
    proof {
        assert(s@.skip(0) =~= s@);
    }
    while from < cs.len() && white_space(cs[from])
        invariant
            from <= cs.len(),
            cs@ == s@,
            trimmed(s@) == trimmed(s@.skip(from as int)),
        decreases cs.len() - from,
    {
        proof {
            assert(s@.skip(from as int).drop_first() =~= s@.skip(from + 1));
        }
        from = from + 1;
    }
    let mut to: usize = cs.len();
    while to > from && white_space(cs[to - 1])
        invariant
            from <= to <= cs.len(),
            cs@ == s@,
            from < cs.len() ==> !is_white_space(s@[from as int]),
            trimmed(s@) == trimmed(s@.subrange(from as int, to as int)),
        decreases to,
    {
        proof {
            let t = s@.subrange(from as int, to as int);
            assert(t.first() == s@[from as int]);
            assert(t.last() == s@[to - 1]);
            assert(t.drop_last() =~= s@.subrange(from as int, to - 1));
        }
        to = to - 1;
    }
    proof {
        let t = s@.subrange(from as int, to as int);
        if t.len() > 0 {
            assert(t.first() == s@[from as int]);
            assert(t.last() == s@[to - 1]);
        }
        assert(trimmed(t) == t);
    }
    s.substring_char(from, to)
}

/// What `str::to_lowercase` makes of a text.
pub uninterp spec fn lowercase(s: Seq<char>) -> Seq<char>;

/// `s` with the letters `A` to `Z` replaced by `a` to `z`.
pub open spec fn ascii_lowercase(s: Seq<char>) -> Seq<char> {
    s.map_values(
        |c: char|
            if 'A' <= c <= 'Z' {
                ((c as u32) + 32) as char
            } else {
                c
            },
    )
}

/// Calls `str::to_lowercase`: the Unicode lower-case form of `s`, which is a
/// function of `s` alone and which on an ASCII text maps `A` to `Z` onto `a`
/// to `z` and keeps every other character.
#[verifier::external_body]
fn to_lowercase(s: &str) -> (r: String)
    ensures
        r@ == lowercase(s@),
        is_ascii_text(s@) ==> r@ == ascii_lowercase(s@),
{
    s.to_lowercase()
}

/// Whether a text is made of ASCII characters alone.
pub open spec fn is_ascii_text(s: Seq<char>) -> bool {
    forall|i: int| 0 <= i < s.len() ==> (#[trigger] s[i] as u32) < 128
}

proof fn trimming_keeps_ascii(s: Seq<char>)
    requires
        is_ascii_text(s),
    ensures
        is_ascii_text(trimmed(s)),
    decreases s.len(),
{
    if s.len() > 0 {
        if is_white_space(s.first()) {
            let t = s.drop_first();
            assert forall|i: int| 0 <= i < t.len() implies (#[trigger] t[i] as u32) < 128 by {
                assert(t[i] == s[i + 1]);
            }
            trimming_keeps_ascii(t);
        } else if is_white_space(s.last()) {
            let t = s.drop_last();
            assert forall|i: int| 0 <= i < t.len() implies (#[trigger] t[i] as u32) < 128 by {
                assert(t[i] == s[i]);
            }
            trimming_keeps_ascii(t);
        }
    }
}

/// A tag as it is stored: trimmed and in lower case.
pub open spec fn normalised_tag(tag: Seq<char>) -> Seq<char> {
    lowercase(trimmed(tag))
}

/// The tags as they are stored: each normalised, those that come out empty
/// left out, the order kept.
pub open spec fn normalised_tags(tags: Seq<Seq<char>>) -> Seq<Seq<char>>
    decreases tags.len(),
{
    if tags.len() == 0 {
        Seq::empty()
    } else {
        let rest = normalised_tags(tags.drop_last());
        let tag = normalised_tag(tags.last());
        if tag.len() == 0 {
            rest
        } else {
            rest.push(tag)
        }
    }
}

/// The views of a list of texts.
pub open spec fn texts(v: Seq<String>) -> Seq<Seq<char>> {
    v.map_values(|s: String| s@)
}

/// The view of a text that may be absent.
pub open spec fn text_of(o: Option<String>) -> Option<Seq<char>> {
    match o {
        Some(s) => Some(s@),
        None => None,
    }
}

/// A tag as it is stored.
pub fn normalise_tag(tag: &str) -> (r: String)
    ensures
        r@ == normalised_tag(tag@),
        is_ascii_text(tag@) ==> r@ == ascii_lowercase(trimmed(tag@)),
{
    proof {
        if is_ascii_text(tag@) {
            trimming_keeps_ascii(tag@);
        }
    }
    to_lowercase(trim(tag))
}

/// What is known of the stored form of tags that are ASCII: it is their trimmed
/// text with `A` to `Z` replaced by `a` to `z`.
pub open spec fn ascii_tags_are_lower_cased(tags: Seq<Seq<char>>) -> bool {
    forall|i: int|
        0 <= i < tags.len() && is_ascii_text(#[trigger] tags[i]) ==> normalised_tag(tags[i])
            == ascii_lowercase(trimmed(tags[i]))
}

/// Every tag of `tags` normalised, one for one.
pub fn normalise_each(tags: &Vec<String>) -> (r: Vec<String>)
    ensures
        texts(r@) == texts(tags@).map_values(|tag: Seq<char>| normalised_tag(tag)),
        ascii_tags_are_lower_cased(texts(tags@)),
{
    let mut out: Vec<String> = Vec::new();
    for i in 0..tags.len()
        invariant
            out@.len() == i,
            forall|k: int| 0 <= k < i ==> (#[trigger] out@[k])@ == normalised_tag(tags@[k]@),
            ascii_tags_are_lower_cased(texts(tags@).take(i as int)),
    {
        let tag = normalise_tag(tags[i].as_str());
        proof {
            let before = texts(tags@).take(i as int);
            let now = texts(tags@).take(i + 1);
            assert forall|k: int|
                0 <= k < now.len() && is_ascii_text(#[trigger] now[k]) implies normalised_tag(
                now[k],
            ) == ascii_lowercase(trimmed(now[k])) by {
                if k < i {
                    assert(before[k] == now[k]);
                } else {
                    assert(now[k] == tags@[i as int]@);
                }
            }
        }
        out.push(tag);
    }
    proof {
        assert(texts(tags@).take(tags@.len() as int) =~= texts(tags@));
        assert(texts(out@) =~= texts(tags@).map_values(|tag: Seq<char>| normalised_tag(tag)));
    }
    out
}

/// Normalises every tag of `tags` and leaves out those that come out empty.
pub fn normalise_tags(tags: &Vec<String>) -> (r: Vec<String>)
    ensures
        texts(r@) == normalised_tags(texts(tags@)),
        ascii_tags_are_lower_cased(texts(tags@)),
{
    let each = normalise_each(tags);
    let mut out: Vec<String> = Vec::new();
    proof {
        assert(texts(tags@).take(0) =~= Seq::<Seq<char>>::empty());
        assert(texts(out@) =~= Seq::<Seq<char>>::empty());
    }
    for i in 0..each.len()
        invariant
            texts(each@) == texts(tags@).map_values(|tag: Seq<char>| normalised_tag(tag)),
            texts(out@) == normalised_tags(texts(tags@).take(i as int)),
    {
        proof {
            let before = texts(tags@).take(i as int);
            let now = texts(tags@).take(i + 1);
            assert(texts(each@)[i as int] == each@[i as int]@);
            assert(texts(each@).len() == texts(tags@).len());
            assert(now.drop_last() =~= before);
            assert(each@[i as int]@ == normalised_tag(now.last()));
            assert(texts(out@.push(each@[i as int])) =~= texts(out@).push(each@[i as int]@));
        }
        if !each[i].as_str().is_empty() {
            let tag = each[i].clone();
            out.push(tag);
        }
    }
    proof {
        assert(texts(each@).len() == texts(tags@).len());
        assert(texts(tags@).take(tags@.len() as int) =~= texts(tags@));
    }
    out
}

/// Whether two texts are the same.
pub fn same_text(a: &str, b: &str) -> (r: bool)
    ensures
        r == (a@ == b@),
{
    a.to_owned() == b.to_owned()
}

/// `a` followed by `b`.
pub fn join(a: &str, b: &str) -> (r: String)
    ensures
        r@ == a@ + b@,
{
    a.to_owned().concat(b)
}

/// `a` followed by `b` and `c`.
pub fn join3(a: &str, b: &str, c: &str) -> (r: String)
    ensures
        r@ == a@ + b@ + c@,
{
    a.to_owned().concat(b).concat(c)
}

/// A copy of a text that may be absent.
pub fn copy_text(o: &Option<String>) -> (r: Option<String>)
    ensures
        r == *o,
{
    match o {
        Some(s) => Some(s.clone()),
        None => None,
    }
}

/// A copy of a list of texts.
pub fn copy_texts(v: &Vec<String>) -> (r: Vec<String>)
    ensures
        r@ == v@,
{
    let mut out: Vec<String> = Vec::new();
    for i in 0..v.len()
        invariant
            out@ == v@.take(i as int),
    {
        out.push(v[i].clone());
    }
    out
}

/// The decimal digit `d`.
pub open spec fn digit(d: int) -> char {
    (48 + d) as char
}

/// `n` in decimal, without leading zeros.
pub open spec fn decimal(n: nat) -> Seq<char>
    decreases n,
{
    if n < 10 {
        seq![digit(n as int)]
    } else {
        decimal(n / 10).push(digit((n % 10) as int))
    }
}

/// The last `width` decimal digits of `n`, with leading zeros.
pub open spec fn digits(n: nat, width: nat) -> Seq<char>
    decreases width,
{
    if width == 0 {
        Seq::empty()
    } else {
        digits(n / 10, (width - 1) as nat).push(digit((n % 10) as int))
    }
}

/// Whether a text is made of decimal digits alone.
pub open spec fn all_digits(s: Seq<char>) -> bool {
    forall|i: int| 0 <= i < s.len() ==> '0' <= #[trigger] s[i] <= '9'
}

/// The number that a text of decimal digits writes out.
pub open spec fn number(s: Seq<char>) -> int
    decreases s.len(),
{
    if s.len() == 0 {
        0
    } else {
        number(s.drop_last()) * 10 + (s.last() as int - 48)
    }
}

/// How many numbers have at most `width` decimal digits.
pub open spec fn numbers_within(width: nat) -> int
    decreases width,
{
    if width == 0 {
        1
    } else {
        10 * numbers_within((width - 1) as nat)
    }
}

/// A number that is written with enough digits reads back.
pub proof fn digits_read_back(n: nat, width: nat)
    requires
        n < numbers_within(width),
    ensures
        digits(n, width).len() == width,
        all_digits(digits(n, width)),
        number(digits(n, width)) == n,
    decreases width,
{
    if width > 0 {
        digits_read_back(n / 10, (width - 1) as nat);
        let rest = digits(n / 10, (width - 1) as nat);
        assert(digits(n, width).drop_last() =~= rest);
    }
}

/// A text of digits is the one that its number is written with.
pub proof fn number_is_written_back(s: Seq<char>)
    requires
        all_digits(s),
    ensures
        number(s) >= 0,
        digits(number(s) as nat, s.len()) == s,
    decreases s.len(),
{
    if s.len() > 0 {
        let rest = s.drop_last();
        assert forall|i: int| 0 <= i < rest.len() implies '0' <= #[trigger] rest[i] <= '9' by {
            assert(rest[i] == s[i]);
        }
        number_is_written_back(rest);
        assert('0' <= s[s.len() - 1] <= '9');
        assert(number(s) / 10 == number(rest));
        assert(digits(number(s) as nat, s.len()) =~= rest.push(s.last()));
        assert(s =~= rest.push(s.last()));
    } else {
        assert(digits(0, 0) =~= s);
    }
}

fn digit_text(d: u32) -> (r: &'static str)
    requires
        d < 10,
    ensures
        r@ == seq![digit(d as int)],
{
    proof {
        reveal_strlit("0");
        reveal_strlit("1");
        reveal_strlit("2");
        reveal_strlit("3");
        reveal_strlit("4");
        reveal_strlit("5");
        reveal_strlit("6");
        reveal_strlit("7");
        reveal_strlit("8");
        reveal_strlit("9");
    }
    match d {
        0 => "0",
        1 => "1",
        2 => "2",
        3 => "3",
        4 => "4",
        5 => "5",
        6 => "6",
        7 => "7",
        8 => "8",
        _ => "9",
    }
}

/// `n` in decimal.
pub fn decimal_text(n: u32) -> (r: String)
    ensures
        r@ == decimal(n as nat),
    decreases n,
{
    if n < 10 {
        digit_text(n).to_owned()
    } else {
        decimal_text(n / 10).concat(digit_text(n % 10))
    }
}

/// The last `width` decimal digits of `n`, with leading zeros.
pub fn digits_text(n: u32, width: u32) -> (r: String)
    ensures
        r@ == digits(n as nat, width as nat),
    decreases width,
{
    if width == 0 {
        String::new()
    } else {
        digits_text(n / 10, width - 1).concat(digit_text(n % 10))
    }
}

} // verus!
