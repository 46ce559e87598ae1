//! Texts, numbers, documents and tables.

use vstd::prelude::*;

use crate::json::{object, Json, JsonTree};
use crate::numerals::{digits_value, is_digit, parse_number, permissions};
use crate::table::{Key, Table};
use crate::text::{
    before, chain, decimal, digit, has_suffix, is_blank, is_white_space, list_contains, number,
    seq_view, trim, trim_end, trim_start, trimmed, white_space,
};
use crate::workspace::saved_connections::{parse_port, parse_seconds};

verus! {

/// Of the plain characters the space, the tab and the line breaks are white.
pub proof fn law_plain_white_space(c: char, res: bool)
    requires
        call_ensures(is_white_space, (c,), res),
        (c as int) < 128,
    ensures
        res <==> c == ' ' || (9 <= c as int <= 13),
{
}

/// What is left of a text is a part of it, between white space that is left out, and begins and ends
/// with something else.
pub proof fn law_trimmed_texts_are_parts(source: &str, res: String, empty: bool)
    requires
        call_ensures(trimmed, (source,), res),
        call_ensures(is_blank, (source,), empty),
    ensures
        exists|start: int, end: int|
            {
                &&& 0 <= start <= end <= source@.len()
                &&& res@ == #[trigger] source@.subrange(start, end)
                &&& forall|i: int| 0 <= i < start ==> white_space(#[trigger] source@[i])
                &&& forall|i: int| end <= i < source@.len() ==> white_space(#[trigger] source@[i])
            },
        res@.len() > 0 ==> !white_space(res@[0]) && !white_space(res@.last()),
        empty <==> res@.len() == 0,
{
    let text = source@;
    let (start, front) = lemma_trim_start(text);
    let end = lemma_trim_end(front);
    assert(res@ == front.take(end));
    assert(text.subrange(start, start + end) =~= front.take(end));
    assert forall|i: int| start + end <= i < text.len() implies white_space(#[trigger] text[i]) by {
        assert(front[i - start] == text[i]);
    }
    assert(res@ == text.subrange(start, start + end));
    if res@.len() > 0 {
        assert(res@[0] == front[0]);
        assert(res@.last() == front[end - 1]);
        assert(text[start] == front[0]);
    }
}

proof fn lemma_trim_start(text: Seq<char>) -> (res: (int, Seq<char>))
    ensures
        0 <= res.0 <= text.len(),
        res.1 == trim_start(text),
        res.1 == text.skip(res.0),
        forall|i: int| 0 <= i < res.0 ==> white_space(#[trigger] text[i]),
        res.1.len() > 0 ==> !white_space(res.1[0]),
    decreases text.len(),
{
    if text.len() > 0 && white_space(text[0]) {
        let rest = text.drop_first();
        let (start, front) = lemma_trim_start(rest);
        assert(rest.skip(start) =~= text.skip(start + 1));
        assert forall|i: int| 0 <= i < start + 1 implies white_space(#[trigger] text[i]) by {
            if i > 0 {
                assert(rest[i - 1] == text[i]);
            }
        }
        (start + 1, front)
    } else {
        assert(text.skip(0) =~= text);
        (0, text)
    }
}

proof fn lemma_trim_end(text: Seq<char>) -> (end: int)
    ensures
        0 <= end <= text.len(),
        trim_end(text) == text.take(end),
        forall|i: int| end <= i < text.len() ==> white_space(#[trigger] text[i]),
        end > 0 ==> !white_space(text[end - 1]),
    decreases text.len(),
{
    if text.len() > 0 && white_space(text.last()) {
        let rest = text.drop_last();
        let end = lemma_trim_end(rest);
        assert(rest.take(end) =~= text.take(end));
        assert forall|i: int| end <= i < text.len() implies white_space(#[trigger] text[i]) by {
            if i < rest.len() {
                assert(rest[i] == text[i]);
            }
        }
        if end > 0 {
            assert(rest[end - 1] == text[end - 1]);
        }
        end
    } else {
        assert(text.take(text.len() as int) =~= text);
        text.len() as int
    }
}

proof fn lemma_decimal(n: nat)
    ensures
        decimal(n).len() > 0,
        forall|i: int| 0 <= i < decimal(n).len() ==> is_digit(#[trigger] decimal(n)[i]),
        digits_value(decimal(n)) == n,
    decreases n,
{
    reveal_with_fuel(digits_value, 2);
    let written = decimal(n);
    if n < 10 {
        assert(written.drop_last() =~= Seq::<char>::empty());
        assert(written.last() == digit(n));
    } else {
        lemma_decimal(n / 10);
        assert(written.drop_last() =~= decimal(n / 10));
        assert(written.last() == digit(n % 10));
        assert forall|i: int| 0 <= i < written.len() implies is_digit(#[trigger] written[i]) by {
            if i < written.len() - 1 {
                assert(decimal(n / 10)[i] == written[i]);
            }
        }
    }
}

proof fn lemma_digits_are_not_trimmed(written: Seq<char>)
    requires
        forall|i: int| 0 <= i < written.len() ==> is_digit(#[trigger] written[i]),
    ensures
        trim(written) == written,
{
    if written.len() > 0 {
        assert(is_digit(written[0]));
        assert(is_digit(written[written.len() - 1]));
    }
}

/// A number that is written is read back, wherever it fits.
pub proof fn law_written_numbers_are_read_back(
    n: u64,
    written: String,
    source: &str,
    max: u64,
    res: Option<u64>,
    port: Option<u16>,
    seconds: Option<u64>,
)
    requires
        call_ensures(number, (n,), written),
        source@ == written@,
        call_ensures(parse_number, (source, max), res),
        call_ensures(parse_port, (source,), port),
        call_ensures(parse_seconds, (source,), seconds),
    ensures
        n <= max ==> res == Some(n),
        n > max ==> res is None,
        n <= 65535 ==> port is Some && port->0 == n,
        n > 65535 ==> port is None,
        seconds == Some(n),
{
    lemma_decimal(n as nat);
    lemma_digits_are_not_trimmed(written@);
    assert(is_digit(written@[0]));
}

/// A port is a number without a sign but a plus, in digits alone; white space round it does not count.
pub proof fn law_ports_are_written_in_digits(source: &str, port: Option<u16>, at: int)
    requires
        call_ensures(parse_port, (source,), port),
        0 <= at < source@.len(),
        !is_digit(source@[at]),
        source@[at] != '+',
        !white_space(source@[at]),
    ensures
        port is None,
{
    let text = source@;
    let (start, front) = lemma_trim_start(text);
    let end = lemma_trim_end(front);
    let bare = trim(text);
    assert(bare == front.take(end));
    assert(start <= at < start + end) by {
        if at >= start + end {
            assert(front[at - start] == text[at]);
        }
    }
    assert(bare[at - start] == text[at]);
    let digits = crate::numerals::digits_of(bare);
    if bare[0] == '+' {
        if at - start == 0 {
            assert(bare[0] == text[at]);
        }
        assert(digits[at - start - 1] == text[at]);
    } else {
        assert(digits[at - start] == text[at]);
    }
}

/// A text ends with what was put behind it, and not with something longer than itself.
pub proof fn law_texts_end_with_their_end(source: &str, end: &str, res: bool, front: Seq<char>)
    requires
        call_ensures(has_suffix, (source, end), res),
    ensures
        source@ == front + end@ ==> res,
        end@.len() > source@.len() ==> !res,
        res && end@.len() > 0 ==> source@.last() == end@.last(),
        res ==> exists|kept: Seq<char>| source@ == #[trigger] (kept + end@),
{
    if source@ == front + end@ {
        assert(source@.skip(source@.len() - end@.len()) =~= end@);
    }
    if res {
        let kept = source@.take(source@.len() - end@.len());
        assert(source@ =~= kept + end@);
        if end@.len() > 0 {
            assert((kept + end@).last() == end@.last());
        }
    }
}

/// Texts are chained with the other text between them, and only between them.
pub proof fn law_texts_are_chained(texts: &Vec<String>, between: &str, res: String)
    requires
        call_ensures(chain, (texts, between), res),
    ensures
        texts@.len() == 0 ==> res@.len() == 0,
        texts@.len() == 1 ==> res@ == texts@[0]@,
        texts@.len() == 2 ==> res@ == texts@[0]@ + between@ + texts@[1]@,
        texts@.len() == 3 ==> res@ == texts@[0]@ + between@ + texts@[1]@ + between@ + texts@[2]@,
{
    let all = seq_view(texts@);
    reveal_with_fuel(crate::text::chained, 4);
    if texts@.len() == 2 {
        assert(all.drop_last() =~= seq![all[0]]);
    }
    if texts@.len() == 3 {
        assert(all.drop_last() =~= seq![all[0], all[1]]);
        assert(all.drop_last().drop_last() =~= seq![all[0]]);
    }
}

/// A text is in a list where one of its entries is that text.
pub proof fn law_lists_hold_their_entries(list: &Vec<String>, text: &str, res: bool, at: int)
    requires
        call_ensures(list_contains, (list, text), res),
    ensures
        0 <= at < list@.len() && list@[at]@ == text@ ==> res,
        res ==> exists|i: int| 0 <= i < list@.len() && (#[trigger] list@[i])@ == text@,
{
    let all = seq_view(list@);
    if 0 <= at < list@.len() {
        assert(all[at] == list@[at]@);
    }
    if res {
        let i = choose|i: int| 0 <= i < all.len() && all[i] == text@;
        assert(list@[i]@ == text@);
    }
}

/// Of two different texts one stands before the other, and none stands before itself.
pub proof fn law_texts_are_in_order(a: &str, b: &str, first: bool, second: bool, itself: bool)
    requires
        call_ensures(before, (a, b), first),
        call_ensures(before, (b, a), second),
        call_ensures(before, (a, a), itself),
        a@ != b@,
    ensures
        first <==> !second,
        !itself,
{
    crate::text::lemma_text_before_total(a@, b@);
    crate::text::lemma_bytes_before_irreflexive(vstd::utf8::encode_utf8(a@));
    if first && second {
        crate::text::lemma_text_before_transitive(a@, b@, a@);
    }
}

/// A member of a document is found under its key, the first of that key.
pub proof fn law_members_are_found_by_key(
    members: Vec<(String, JsonTree)>,
    tree: JsonTree,
    key: &str,
    at: int,
    found: Option<&JsonTree>,
)
    requires
        call_ensures(object, (members,), tree),
        call_ensures(JsonTree::member, (&tree, key), found),
        0 <= at < members@.len(),
        members@[at].0@ == key@,
        forall|j: int| 0 <= j < at ==> (#[trigger] members@[j]).0@ != key@,
    ensures
        found is Some,
        found->0@ == members@[at].1@,
{
    let all = crate::json::members_view(members@);
    assert(all[at] == (members@[at].0@, members@[at].1@));
    assert forall|j: int| 0 <= j < at implies (#[trigger] all[j]).0 != key@ by {
        assert(all[j] == (members@[j].0@, members@[j].1@));
    }
    lemma_member(all, key@, at);
}

proof fn lemma_member(members: Seq<(Seq<char>, Json)>, key: Seq<char>, at: int)
    requires
        0 <= at < members.len(),
        members[at].0 == key,
        forall|j: int| 0 <= j < at ==> (#[trigger] members[j]).0 != key,
    ensures
        crate::json::member_of(members, key) == Some(members[at].1),
    decreases at,
{
    if at > 0 {
        let rest = members.drop_first();
        assert(members[0].0 != key);
        assert forall|j: int| 0 <= j < at - 1 implies (#[trigger] rest[j]).0 != key by {
            assert(rest[j] == members[j + 1]);
        }
        lemma_member(rest, key, at - 1);
        assert(rest[at - 1] == members[at]);
    }
}

/// A text of a document is read as a text, a truth as a truth, and nothing else as either.
pub proof fn law_documents_are_read_as_they_are(tree: &JsonTree, text: Option<&str>, truth: Option<bool>)
    requires
        call_ensures(JsonTree::text, (tree,), text),
        call_ensures(JsonTree::boolean, (tree,), truth),
    ensures
        text is Some <==> tree is Text,
        tree is Text ==> text->0@ == tree->Text_0@,
        truth is Some <==> tree is Bool,
        tree is Bool ==> truth->0 == tree->Bool_0,
{
}

/// What is put into a table is found in it under its key, and nothing else is touched.
pub proof fn law_tables_keep_what_is_put_in<K: Key, V>(
    table: &mut Table<K, V>,
    key: K,
    value: V,
    previous: Option<V>,
    other: &K,
    found: Option<&V>,
)
    requires
        table.wf(),
        call_ensures(Table::<K, V>::insert, (table, key, value), previous),
        call_ensures(Table::<K, V>::get, (&*final(table), other), found),
    ensures
        other.id() == key.id() ==> found is Some && *found->0 == value,
        other.id() != key.id() ==> (found is Some <==> old(table)@.dom().contains(other.id())),
        other.id() != key.id() && found is Some ==> *found->0 == old(table)@[other.id()],
        previous is Some <==> old(table)@.dom().contains(key.id()),
{
}

/// What is taken out of a table is no longer in it.
pub proof fn law_tables_lose_what_is_taken_out<K: Key, V>(
    table: &mut Table<K, V>,
    key: &K,
    previous: Option<V>,
    other: &K,
    there: bool,
)
    requires
        table.wf(),
        call_ensures(Table::<K, V>::remove, (table, key), previous),
        call_ensures(Table::<K, V>::contains, (&*final(table), other), there),
    ensures
        other.id() == key.id() ==> !there,
        other.id() != key.id() ==> (there <==> old(table)@.dom().contains(other.id())),
        previous is Some <==> old(table)@.dom().contains(key.id()),
        previous is Some ==> previous->0 == old(table)@[key.id()],
{
}

/// The number that octal digits stand for.
pub open spec fn octal_value(digits: Seq<char>) -> nat
    decreases digits.len(),
{
    if digits.len() == 0 {
        0
    } else {
        octal_value(digits.drop_last()) * 8 + (digits.last() as nat - '0' as nat) as nat
    }
}

/// Permissions are written in octal, with four digits at least.
pub proof fn law_permissions_are_octal(mode: u32, res: String)
    requires
        call_ensures(permissions, (mode,), res),
    ensures
        res@.len() >= 4,
        forall|i: int| 0 <= i < res@.len() ==> '0' <= #[trigger] res@[i] <= '7',
        octal_value(res@) == mode,
{
    lemma_octal(mode as nat);
    lemma_padded(crate::numerals::octal(mode as nat), 4);
}

proof fn lemma_octal(n: nat)
    ensures
        forall|i: int|
            0 <= i < crate::numerals::octal(n).len() ==> '0' <= #[trigger] crate::numerals::octal(n)[i]
                <= '7',
        octal_value(crate::numerals::octal(n)) == n,
    decreases n,
{
    reveal_with_fuel(octal_value, 2);
    let written = crate::numerals::octal(n);
    if n < 8 {
        assert(written =~= seq![digit(n)]);
        assert(written.drop_last() =~= Seq::<char>::empty());
    } else {
        lemma_octal(n / 8);
        let front = crate::numerals::octal(n / 8);
        assert(decimal(n % 8) =~= seq![digit(n % 8)]);
        assert(written =~= front.push(digit(n % 8)));
        assert(written.drop_last() =~= front);
        assert forall|i: int| 0 <= i < written.len() implies '0' <= #[trigger] written[i] <= '7' by {
            if i < front.len() {
                assert(front[i] == written[i]);
            }
        }
    }
}

proof fn lemma_padded(written: Seq<char>, width: nat)
    requires
        forall|i: int| 0 <= i < written.len() ==> '0' <= #[trigger] written[i] <= '7',
    ensures
        ({
            let padded = crate::numerals::zero_padded(written, width);
            &&& padded.len() >= width
            &&& forall|i: int| 0 <= i < padded.len() ==> '0' <= #[trigger] padded[i] <= '7'
            &&& octal_value(padded) == octal_value(written)
        }),
    decreases width - written.len(),
{
    if written.len() < width {
        let longer = seq!['0'] + written;
        lemma_leading_zero(written);
        assert forall|i: int| 0 <= i < longer.len() implies '0' <= #[trigger] longer[i] <= '7' by {
            if i > 0 {
                assert(written[i - 1] == longer[i]);
            }
        }
        lemma_padded(longer, width);
    }
}

proof fn lemma_leading_zero(written: Seq<char>)
    ensures
        octal_value(seq!['0'] + written) == octal_value(written),
    decreases written.len(),
{
    reveal_with_fuel(octal_value, 2);
    let longer = seq!['0'] + written;
    if written.len() == 0 {
        assert(longer.drop_last() =~= Seq::<char>::empty());
        assert(longer.last() == '0');
    } else {
        lemma_leading_zero(written.drop_last());
        assert(longer.drop_last() =~= seq!['0'] + written.drop_last());
        assert(longer.last() == written.last());
    }
}

} // verus!
