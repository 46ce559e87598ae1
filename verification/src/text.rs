//! Small text helpers shared by the workspace modules.

use vstd::prelude::*;
use vstd::string::StringSliceAdditionalSpecFns;
use vstd::utf8::encode_utf8;

verus! {

/// `str` equality: two slices are equal exactly when they hold the same characters.
pub assume_specification[ <str as PartialEq<str>>::eq ](left: &str, right: &str) -> (res: bool)
    ensures
        res == (left@ == right@),
;

/// Whether two texts hold the same characters.
pub fn same(a: &str, b: &str) -> (res: bool)
    ensures
        res == (a@ == b@),
{
    *a == *b
}

/// The text followed by another one.
pub fn joined(a: &str, b: &str) -> (res: String)
    ensures
        res@ == a@ + b@,
{
    let mut out = a.to_owned();
    out.append(b);
    out
}

/// Texts one after the other, with another one between them.
pub open spec fn chained(texts: Seq<Seq<char>>, between: Seq<char>) -> Seq<char>
    decreases texts.len(),
{
    if texts.len() == 0 {
        Seq::empty()
    } else if texts.len() == 1 {
        texts[0]
    } else {
        chained(texts.drop_last(), between) + between + texts.last()
    }
}

pub fn chain(texts: &Vec<String>, between: &str) -> (res: String)
    ensures
        res@ == chained(seq_view(texts@), between@),
{
    let mut out = String::new();
    let mut i: usize = 0;
    let ghost all = seq_view(texts@);
    assert(all.take(0) =~= Seq::<Seq<char>>::empty());
    while i < texts.len()
        invariant
            i <= texts.len(),
            all == seq_view(texts@),
            out@ == chained(all.take(i as int), between@),
        decreases texts.len() - i,
    {
        assert(all.take(i + 1).drop_last() =~= all.take(i as int));
        assert(all.take(i + 1).last() == texts@[i as int]@);
        if i > 0 {
            out.append(between);
        }
        out.append(texts[i].as_str());
        assert(out@ =~= chained(all.take(i + 1), between@));
        i += 1;
    }
    assert(all.take(i as int) =~= all);
    out
}

/// The size of a text in bytes.
pub open spec fn bytes_in(text: Seq<char>) -> nat {
    encode_utf8(text).len()
}

pub fn byte_len(text: &str) -> (res: usize)
    ensures
        res == bytes_in(text@),
{
    text.as_bytes().len()
}

/// The characters of a text held in an option.
pub open spec fn opt_view(text: Option<String>) -> Option<Seq<char>> {
    match text {
        Some(text) => Some(text@),
        None => None,
    }
}

/// The characters of every text in a list.
pub open spec fn seq_view(texts: Seq<String>) -> Seq<Seq<char>> {
    texts.map_values(|text: String| text@)
}

/// Whether a list of texts holds `text`.
pub fn list_contains(list: &Vec<String>, text: &str) -> (res: bool)
    ensures
        res == seq_view(list@).contains(text@),
{
    let mut i: usize = 0;
    while i < list.len()
        invariant
            i <= list.len(),
            forall|j: int| 0 <= j < i ==> list@[j]@ != text@,
        decreases list.len() - i,
    {
        if same(list[i].as_str(), text) {
            assert(seq_view(list@)[i as int] == text@);
            return true;
        }
        i += 1;
    }
    assert forall|j: int| 0 <= j < list@.len() implies seq_view(list@)[j] != text@ by {
        assert(seq_view(list@)[j] == list@[j]@);
    }
    false
}

/// A copy of a list of texts.
pub fn duplicate_list(list: &Vec<String>) -> (res: Vec<String>)
    ensures
        res@ == list@,
{
    let mut out: Vec<String> = Vec::new();
    let mut i: usize = 0;
    while i < list.len()
        invariant
            i <= list.len(),
            out@ == list@.take(i as int),
        decreases list.len() - i,
    {
        out.push(list[i].clone());
        i += 1;
        assert(out@ =~= list@.take(i as int));
    }
    assert(list@.take(i as int) =~= list@);
    out
}

/// A copy of an optional text.
pub fn duplicate_option(value: &Option<String>) -> (res: Option<String>)
    ensures
        res == *value,
{
    match value {
        Some(value) => Some(value.clone()),
        None => None,
    }
}

/// The decimal digit of a number below ten.
pub open spec fn digit(n: nat) -> char {
    if n == 0 {
        '0'
    } else if n == 1 {
        '1'
    } else if n == 2 {
        '2'
    } else if n == 3 {
        '3'
    } else if n == 4 {
        '4'
    } else if n == 5 {
        '5'
    } else if n == 6 {
        '6'
    } else if n == 7 {
        '7'
    } else if n == 8 {
        '8'
    } else {
        '9'
    }
}

/// The decimal notation of a number, without leading zeros.
pub open spec fn decimal(n: nat) -> Seq<char>
    decreases n,
{
    if n < 10 {
        seq![digit(n)]
    } else {
        decimal(n / 10).push(digit(n % 10))
    }
}

fn digit_text(n: u64) -> (res: &'static str)
    requires
        n < 10,
    ensures
        res@ == seq![digit(n as nat)],
{
    proof {
        reveal_strlit("0");
        reveal_strlit("1");
        reveal_strlit("2");
        reveal_strlit("3");
        reveal_strlit("4");
        reveal_strlit("5");
        reveal_strlit("6");
        reveal_strlit("7");
        reveal_strlit("8");
        reveal_strlit("9");
    }
    if n == 0 {
        "0"
    } else if n == 1 {
        "1"
    } else if n == 2 {
        "2"
    } else if n == 3 {
        "3"
    } else if n == 4 {
        "4"
    } else if n == 5 {
        "5"
    } else if n == 6 {
        "6"
    } else if n == 7 {
        "7"
    } else if n == 8 {
        "8"
    } else {
        "9"
    }
}

/// Writes a number in decimal.
pub fn number(n: u64) -> (res: String)
    ensures
        res@ == decimal(n as nat),
    decreases n,
{
    if n < 10 {
        digit_text(n).to_owned()
    } else {
        let mut out = number(n / 10);
        out.append(digit_text(n % 10));
        assert(out@ =~= decimal(n as nat));
        out
    }
}

/// Decimal notation tells numbers apart.
pub proof fn lemma_decimal_injective(a: nat, b: nat)
    requires
        decimal(a) == decimal(b),
    ensures
        a == b,
    decreases a,
{
    if a < 10 {
        if b >= 10 {
            lemma_decimal_len(b / 10);
            assert(decimal(b).len() == decimal(b / 10).len() + 1);
            assert(decimal(a).len() == 1);
        } else {
            assert(decimal(a)[0] == digit(a));
            assert(decimal(b)[0] == digit(b));
        }
    } else {
        if b < 10 {
            lemma_decimal_len(a / 10);
            assert(decimal(a).len() == decimal(a / 10).len() + 1);
            assert(decimal(b).len() == 1);
        } else {
            let x = decimal(a / 10);
            let y = decimal(b / 10);
            assert(x.push(digit(a % 10)).drop_last() =~= x);
            assert(y.push(digit(b % 10)).drop_last() =~= y);
            assert(x.push(digit(a % 10)).last() == y.push(digit(b % 10)).last());
            lemma_decimal_injective(a / 10, b / 10);
        }
    }
}

proof fn lemma_decimal_len(n: nat)
    ensures
        decimal(n).len() >= 1,
    decreases n,
{
    if n >= 10 {
        lemma_decimal_len(n / 10);
    }
}

/// Unicode's White_Space property.
pub open spec fn white_space(c: char) -> bool {
    let n = c as int;
    ||| 0x9 <= n <= 0xd
    ||| n == 0x20
    ||| n == 0x85
    ||| n == 0xa0
    ||| n == 0x1680
    ||| 0x2000 <= n <= 0x200a
    ||| n == 0x2028
    ||| n == 0x2029
    ||| n == 0x202f
    ||| n == 0x205f
    ||| n == 0x3000
}

pub fn is_white_space(c: char) -> (res: bool)
    ensures
        res == white_space(c),
{
    let n: u32 = c as u32;
    (0x9 <= n && n <= 0xd) || n == 0x20 || n == 0x85 || n == 0xa0 || n == 0x1680 || (0x2000 <= n
        && n <= 0x200a) || n == 0x2028 || n == 0x2029 || n == 0x202f || n == 0x205f || n == 0x3000
}

/// A text without anything to read.
pub open spec fn blank(text: Seq<char>) -> bool {
    forall|i: int| 0 <= i < text.len() ==> white_space(#[trigger] text[i])
}

/// A text without the white space in front of it.
pub open spec fn trim_start(text: Seq<char>) -> Seq<char>
    decreases text.len(),
{
    if text.len() > 0 && white_space(text[0]) {
        trim_start(text.drop_first())
    } else {
        text
    }
}

/// A text without the white space behind it.
pub open spec fn trim_end(text: Seq<char>) -> Seq<char>
    decreases text.len(),
{
    if text.len() > 0 && white_space(text.last()) {
        trim_end(text.drop_last())
    } else {
        text
    }
}

/// A text without the white space around it.
pub open spec fn trim(text: Seq<char>) -> Seq<char> {
    trim_end(trim_start(text))
}

/// The characters of a text.
pub fn chars_of(text: &str) -> (res: Vec<char>)
    ensures
        res@ == text@,
{
    let mut out: Vec<char> = Vec::new();
    for c in it: text.chars()
        invariant
            out@ == it.seq().take(it.index() as int),
            it.seq() == text@,
    {
        out.push(c);
        assert(out@ =~= it.seq().take(it.index() + 1));
    }
    assert(out@ =~= text@);
    out
}

/// Whether a text has nothing to read.
pub fn is_blank(text: &str) -> (res: bool)
    ensures
        res == blank(text@),
{
    let chars = chars_of(text);
    let mut i: usize = 0;
    while i < chars.len()
        invariant
            i <= chars.len(),
            chars@ == text@,
            forall|j: int| 0 <= j < i ==> white_space(#[trigger] text@[j]),
        decreases chars.len() - i,
    {
        if !is_white_space(chars[i]) {
            assert(!white_space(text@[i as int]));
            return false;
        }
        i += 1;
    }
    true
}

/// A text without the white space around it.
pub fn trimmed(text: &str) -> (res: String)
    ensures
        res@ == trim(text@),
{
    let chars = chars_of(text);
    let mut start: usize = 0;
    assert(text@.skip(0) =~= text@);
    while start < chars.len() && is_white_space(chars[start])
        invariant
            start <= chars.len(),
            chars@ == text@,
            trim_start(text@) == trim_start(text@.skip(start as int)),
        decreases chars.len() - start,
    {
        assert(text@.skip(start as int)[0] == text@[start as int]);
        assert(text@.skip(start as int).drop_first() =~= text@.skip(start + 1));
        start += 1;
    }
    let ghost rest = text@.skip(start as int);
    assert(trim_start(text@) == rest) by {
        if rest.len() > 0 {
            assert(rest[0] == text@[start as int]);
        }
    }
    let mut end: usize = chars.len();
    assert(rest =~= text@.subrange(start as int, end as int));
    while end > start && is_white_space(chars[end - 1])
        invariant
            start <= end <= chars.len(),
            chars@ == text@,
            rest == text@.skip(start as int),
            trim_end(rest) == trim_end(text@.subrange(start as int, end as int)),
        decreases end,
    {
        let ghost now = text@.subrange(start as int, end as int);
        assert(now.last() == text@[end - 1]);
        assert(now.drop_last() =~= text@.subrange(start as int, end - 1));
        end -= 1;
    }
    assert(trim_end(rest) == text@.subrange(start as int, end as int)) by {
        let now = text@.subrange(start as int, end as int);
        if now.len() > 0 {
            assert(now.last() == text@[end - 1]);
        }
    }
    text.substring_char(start, end).to_owned()
}

/// The order of byte sequences: at the first difference the smaller byte comes first, and a
/// sequence comes before its own continuations.
pub open spec fn bytes_before(a: Seq<u8>, b: Seq<u8>) -> bool
    decreases a.len(),
{
    if b.len() == 0 {
        false
    } else if a.len() == 0 {
        true
    } else if a[0] != b[0] {
        a[0] < b[0]
    } else {
        bytes_before(a.drop_first(), b.drop_first())
    }
}

/// The order of texts, byte by byte.
pub open spec fn text_before(a: Seq<char>, b: Seq<char>) -> bool {
    bytes_before(encode_utf8(a), encode_utf8(b))
}

/// Whether `a` comes before `b`.
pub fn before(a: &str, b: &str) -> (res: bool)
    ensures
        res == text_before(a@, b@),
{
    let x = a.as_bytes();
    let y = b.as_bytes();
    let mut i: usize = 0;
    assert(x@.skip(0) =~= x@);
    assert(y@.skip(0) =~= y@);
    while i < x.len() && i < y.len()
        invariant
            i <= x.len(),
            i <= y.len(),
            x@ == a.spec_bytes(),
            y@ == b.spec_bytes(),
            text_before(a@, b@) == bytes_before(x@.skip(i as int), y@.skip(i as int)),
        decreases x.len() - i,
    {
        if x[i] != y[i] {
            return x[i] < y[i];
        }
        assert(x@.skip(i as int).drop_first() =~= x@.skip(i + 1));
        assert(y@.skip(i as int).drop_first() =~= y@.skip(i + 1));
        i += 1;
    }
    i < y.len()
}

pub proof fn lemma_bytes_before_irreflexive(a: Seq<u8>)
    ensures
        !bytes_before(a, a),
    decreases a.len(),
{
    if a.len() > 0 {
        lemma_bytes_before_irreflexive(a.drop_first());
    }
}

pub proof fn lemma_bytes_before_transitive(a: Seq<u8>, b: Seq<u8>, c: Seq<u8>)
    requires
        bytes_before(a, b),
        bytes_before(b, c),
    ensures
        bytes_before(a, c),
    decreases a.len(),
{
    if a.len() > 0 && b.len() > 0 && c.len() > 0 && a[0] == b[0] && b[0] == c[0] {
        lemma_bytes_before_transitive(a.drop_first(), b.drop_first(), c.drop_first());
    }
}

pub proof fn lemma_bytes_before_total(a: Seq<u8>, b: Seq<u8>)
    ensures
        bytes_before(a, b) || bytes_before(b, a) || a == b,
    decreases a.len(),
{
    if a.len() > 0 && b.len() > 0 && a[0] == b[0] {
        lemma_bytes_before_total(a.drop_first(), b.drop_first());
        if a.drop_first() == b.drop_first() {
            assert(a =~= seq![a[0]] + a.drop_first());
            assert(b =~= seq![b[0]] + b.drop_first());
        }
    } else if a.len() == 0 && b.len() == 0 {
        assert(a =~= b);
    }
}

/// Texts are told apart by their order.
pub proof fn lemma_text_before_total(a: Seq<char>, b: Seq<char>)
    ensures
        text_before(a, b) || text_before(b, a) || a == b,
        !(text_before(a, b) && text_before(b, a)),
        !text_before(a, a),
{
    lemma_bytes_before_total(encode_utf8(a), encode_utf8(b));
    lemma_bytes_before_irreflexive(encode_utf8(a));
    if bytes_before(encode_utf8(a), encode_utf8(b)) && bytes_before(encode_utf8(b), encode_utf8(a)) {
        lemma_bytes_before_transitive(encode_utf8(a), encode_utf8(b), encode_utf8(a));
    }
    if encode_utf8(a) == encode_utf8(b) {
        vstd::utf8::encode_utf8_decode_utf8(a);
        vstd::utf8::encode_utf8_decode_utf8(b);
    }
}

pub proof fn lemma_text_before_transitive(a: Seq<char>, b: Seq<char>, c: Seq<char>)
    requires
        text_before(a, b),
        text_before(b, c),
    ensures
        text_before(a, c),
{
    lemma_bytes_before_transitive(encode_utf8(a), encode_utf8(b), encode_utf8(c));
}

/// A list in strict order: sorted, and nothing occurs twice.
pub open spec fn strictly_sorted(list: Seq<Seq<char>>) -> bool {
    forall|i: int, j: int| 0 <= i < j < list.len() ==> text_before(#[trigger] list[i], #[trigger] list[j])
}

/// Puts a text into its place in a strictly sorted list; one that is there already stays single.
pub fn insert_sorted(list: &mut Vec<String>, text: String)
    requires
        strictly_sorted(seq_view(old(list)@)),
    ensures
        strictly_sorted(seq_view(final(list)@)),
        forall|t: Seq<char>| #[trigger]
            seq_view(final(list)@).contains(t) == (seq_view(old(list)@).contains(t) || t == text@),
{
    let ghost start = seq_view(list@);
    let mut i: usize = 0;
    while i < list.len() && before(list[i].as_str(), text.as_str())
        invariant
            i <= list.len(),
            list@ == old(list)@,
            start == seq_view(list@),
            forall|j: int| 0 <= j < i ==> text_before(#[trigger] start[j], text@),
        decreases list.len() - i,
    {
        assert(start[i as int] == list@[i as int]@);
        i += 1;
    }
    if i < list.len() && same(list[i].as_str(), text.as_str()) {
        assert(start[i as int] == text@);
        assert(start.contains(text@));
        return;
    }
    let ghost old_list = list@;
    proof {
        if i < list@.len() {
            assert(start[i as int] == list@[i as int]@);
            lemma_text_before_total(start[i as int], text@);
        }
    }
    list.insert(i, text);
    let ghost now = seq_view(list@);
    assert(now =~= start.insert(i as int, text@));
    assert forall|a: int, b: int| 0 <= a < b < now.len() implies text_before(#[trigger] now[a], #[trigger] now[b]) by {
        let x = if a < i {
            a
        } else {
            a - 1
        };
        let y = if b < i {
            b
        } else {
            b - 1
        };
        if a == i {
            assert(now[b] == start[y]);
            if y > i {
                assert(text_before(start[i as int], start[y]));
                lemma_text_before_transitive(text@, start[i as int], start[y]);
            }
        } else if b == i {
            assert(now[a] == start[a]);
        } else {
            assert(now[a] == start[x]);
            assert(now[b] == start[y]);
        }
    }
    assert forall|t: Seq<char>| #[trigger] now.contains(t) == (start.contains(t) || t == text@) by {
        if now.contains(t) {
            let k = choose|k: int| 0 <= k < now.len() && now[k] == t;
            if k != i {
                assert(start[if k < i { k } else { k - 1 }] == t);
            }
        }
        if start.contains(t) {
            let k = choose|k: int| 0 <= k < start.len() && start[k] == t;
            assert(now[if k < i { k } else { k + 1 }] == t);
        }
        if t == text@ {
            assert(now[i as int] == t);
        }
    }
}

/// Whether a text ends with another one.
pub open spec fn ends_with(text: Seq<char>, end: Seq<char>) -> bool {
    end.len() <= text.len() && text.skip(text.len() - end.len()) == end
}

pub fn has_suffix(text: &str, end: &str) -> (res: bool)
    ensures
        res == ends_with(text@, end@),
{
    let a = chars_of(text);
    let b = chars_of(end);
    if b.len() > a.len() {
        return false;
    }
    let shift: usize = a.len() - b.len();
    let mut i: usize = 0;
    while i < b.len()
        invariant
            i <= b.len(),
            shift + b.len() == a.len(),
            a@ == text@,
            b@ == end@,
            forall|j: int| 0 <= j < i ==> text@[shift + j] == #[trigger] end@[j],
        decreases b.len() - i,
    {
        if a[shift + i] != b[i] {
            assert(text@.skip(shift as int)[i as int] != end@[i as int]);
            return false;
        }
        i += 1;
    }
    assert(text@.skip(shift as int) =~= end@);
    true
}

} // verus!
