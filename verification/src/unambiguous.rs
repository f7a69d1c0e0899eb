//! JSON texts that cannot be mistaken for one another.

use vstd::prelude::*;

use crate::json::{
    array_text, escaped, escaped_text, hex_digit, joined, member_text, object_text, quoted,
};
use crate::messages::{swap_text, transfer_text};
use crate::text::{decimal, is_digit, lemma_decimal_digits};

verus! {

/// The text goes on with what may stand behind a JSON value inside another one.
pub open spec fn goes_on(text: Seq<char>) -> bool {
    text.len() > 0 && (text[0] == ',' || text[0] == '}' || text[0] == ']')
}

/// Two texts that are told apart wherever they stand: where each goes on and the whole is the
/// same, the two are the same and go on in the same way.
pub open spec fn told_apart(a: Seq<char>, b: Seq<char>) -> bool {
    forall|x: Seq<char>, y: Seq<char>|
        goes_on(x) && goes_on(y) && #[trigger] (a + x) == #[trigger] (b + y) ==> a == b && x == y
}

/// What stands behind a common start is the same.
proof fn lemma_same_start(start: Seq<char>, x: Seq<char>, y: Seq<char>)
    requires
        start + x == start + y,
    ensures
        x == y,
{
    assert(x =~= (start + x).skip(start.len() as int));
    assert(y =~= (start + y).skip(start.len() as int));
}

/// Escaping goes from the front as it goes from the back.
proof fn lemma_escaped_front(text: Seq<char>)
    requires
        text.len() > 0,
    ensures
        escaped_text(text) == escaped(text[0]) + escaped_text(text.skip(1)),
    decreases text.len(),
{
    if text.len() == 1 {
        assert(text.drop_last() =~= seq![]);
        assert(text.skip(1) =~= seq![]);
        assert(escaped_text(text.drop_last()) =~= seq![]);
        assert(escaped_text(text) =~= escaped(text[0]));
        assert(escaped(text[0]) + escaped_text(text.skip(1)) =~= escaped(text[0]));
    } else {
        let front = text.drop_last();
        lemma_escaped_front(front);
        assert(text.skip(1).drop_last() =~= front.skip(1));
        assert(text.skip(1).last() == text.last());
        assert(escaped_text(text) =~= escaped(text[0]) + (escaped_text(front.skip(1)) + escaped(
            text.last(),
        )));
    }
}

/// No escape is the start of another one.
proof fn lemma_escape_is_told_apart(a: char, b: char, text: Seq<char>)
    requires
        escaped(a).len() <= text.len(),
        escaped(b).len() <= text.len(),
        forall|i: int| 0 <= i < escaped(a).len() ==> text[i] == #[trigger] escaped(a)[i],
        forall|i: int| 0 <= i < escaped(b).len() ==> text[i] == #[trigger] escaped(b)[i],
    ensures
        a == b,
{
    assert(text[0] == escaped(a)[0]);
    assert(text[0] == escaped(b)[0]);
    if text[0] == '\\' {
        assert(text[1] == escaped(a)[1]);
        assert(text[1] == escaped(b)[1]);
        if text[1] == 'u' {
            assert(text[4] == escaped(a)[4]);
            assert(text[4] == escaped(b)[4]);
            assert(text[5] == escaped(a)[5]);
            assert(text[5] == escaped(b)[5]);
            assert(text[4] == hex_digit(a as int / 16) && text[5] == hex_digit(a as int % 16));
            assert(text[4] == hex_digit(b as int / 16) && text[5] == hex_digit(b as int % 16));
        }
    }
}

/// The closing quotation mark of a JSON string is found without doubt.
proof fn lemma_escaped_is_told_apart(a: Seq<char>, b: Seq<char>, x: Seq<char>, y: Seq<char>)
    requires
        escaped_text(a) + (seq!['"'] + x) == escaped_text(b) + (seq!['"'] + y),
    ensures
        a == b,
        x == y,
    decreases a.len(),
{
    let text = escaped_text(a) + (seq!['"'] + x);
    if a.len() > 0 {
        lemma_escaped_front(a);
    }
    if b.len() > 0 {
        lemma_escaped_front(b);
    }
    if a.len() == 0 && b.len() == 0 {
        assert(escaped_text(a) + (seq!['"'] + x) =~= seq!['"'] + x);
        assert(escaped_text(b) + (seq!['"'] + y) =~= seq!['"'] + y);
        lemma_same_start(seq!['"'], x, y);
        assert(a =~= b);
    } else if a.len() == 0 {
        assert(text[0] == '"');
        assert(text[0] == escaped(b[0])[0]);
    } else if b.len() == 0 {
        assert((escaped_text(b) + (seq!['"'] + y))[0] == '"');
        assert(text[0] == escaped(a[0])[0]);
    } else {
        let other = escaped_text(b) + (seq!['"'] + y);
        assert forall|i: int| 0 <= i < escaped(a[0]).len() implies text[i] == #[trigger] escaped(
            a[0],
        )[i] by {
            assert(escaped_text(a)[i] == escaped(a[0])[i]);
        }
        assert forall|i: int| 0 <= i < escaped(b[0]).len() implies text[i] == #[trigger] escaped(
            b[0],
        )[i] by {
            assert(other[i] == escaped_text(b)[i]);
            assert(escaped_text(b)[i] == escaped(b[0])[i]);
        }
        lemma_escape_is_told_apart(a[0], b[0], text);
        let start = escaped(a[0]);
        assert(text =~= start + (escaped_text(a.skip(1)) + (seq!['"'] + x)));
        assert(other =~= start + (escaped_text(b.skip(1)) + (seq!['"'] + y)));
        lemma_same_start(
            start,
            escaped_text(a.skip(1)) + (seq!['"'] + x),
            escaped_text(b.skip(1)) + (seq!['"'] + y),
        );
        lemma_escaped_is_told_apart(a.skip(1), b.skip(1), x, y);
        assert(a =~= seq![a[0]] + a.skip(1));
        assert(b =~= seq![b[0]] + b.skip(1));
    }
}

/// JSON strings are told apart wherever they stand, and two texts never give the same one.
pub proof fn law_quoted_is_unambiguous(a: Seq<char>, b: Seq<char>)
    ensures
        told_apart(quoted(a), quoted(b)),
        quoted(a) == quoted(b) ==> a == b,
{
    assert forall|x: Seq<char>, y: Seq<char>|
        goes_on(x) && goes_on(y) && #[trigger] (quoted(a) + x) == #[trigger] (quoted(b)
            + y) implies quoted(a) == quoted(b) && x == y by {
        lemma_quoted_followed(a, b, x, y);
    }
    if quoted(a) == quoted(b) {
        lemma_quoted_followed(a, b, seq![], seq![]);
    }
}

/// A JSON string is told apart from another whatever follows.
proof fn lemma_quoted_followed(a: Seq<char>, b: Seq<char>, x: Seq<char>, y: Seq<char>)
    requires
        quoted(a) + x == quoted(b) + y,
    ensures
        a == b,
        x == y,
{
    assert(quoted(a) + x =~= seq!['"'] + (escaped_text(a) + (seq!['"'] + x)));
    assert(quoted(b) + y =~= seq!['"'] + (escaped_text(b) + (seq!['"'] + y)));
    lemma_same_start(
        seq!['"'],
        escaped_text(a) + (seq!['"'] + x),
        escaped_text(b) + (seq!['"'] + y),
    );
    lemma_escaped_is_told_apart(a, b, x, y);
}

/// Numbers are told apart wherever they stand, and two numbers never give the same text.
pub proof fn law_decimal_is_unambiguous(m: nat, n: nat)
    ensures
        told_apart(decimal(m), decimal(n)),
        decimal(m) == decimal(n) ==> m == n,
{
    lemma_decimal_digits(m);
    lemma_decimal_digits(n);
    let a = decimal(m);
    let b = decimal(n);
    assert forall|x: Seq<char>, y: Seq<char>|
        goes_on(x) && goes_on(y) && #[trigger] (a + x) == #[trigger] (b + y) implies a == b && x
        == y by {
        if a.len() < b.len() {
            assert((a + x)[a.len() as int] == x[0]);
            assert((b + y)[a.len() as int] == b[a.len() as int]);
            assert(is_digit(b[a.len() as int]));
        } else if b.len() < a.len() {
            assert((b + y)[b.len() as int] == y[0]);
            assert((a + x)[b.len() as int] == a[b.len() as int]);
            assert(is_digit(a[b.len() as int]));
        }
        assert(a =~= (a + x).take(a.len() as int));
        assert(b =~= (b + y).take(b.len() as int));
        lemma_same_start(a, x, y);
    }
}

/// Members with the same key are told apart where their values are.
proof fn lemma_member_is_told_apart(key: Seq<char>, a: Seq<char>, b: Seq<char>)
    requires
        told_apart(a, b),
    ensures
        told_apart(member_text((key, a)), member_text((key, b))),
{
    let start = quoted(key) + seq![':'];
    assert forall|x: Seq<char>, y: Seq<char>|
        goes_on(x) && goes_on(y) && #[trigger] (member_text((key, a)) + x) == #[trigger] (
        member_text((key, b)) + y) implies member_text((key, a)) == member_text((key, b)) && x
        == y by {
        assert(member_text((key, a)) + x =~= start + (a + x));
        assert(member_text((key, b)) + y =~= start + (b + y));
        lemma_same_start(start, a + x, b + y);
    }
}

/// Joining goes from the front as it goes from the back.
proof fn lemma_joined_front(parts: Seq<Seq<char>>, separator: Seq<char>)
    requires
        parts.len() > 1,
    ensures
        joined(parts, separator) == parts[0] + (separator + joined(parts.skip(1), separator)),
    decreases parts.len(),
{
    let rest = parts.skip(1);
    if parts.len() == 2 {
        assert(parts.drop_last() =~= seq![parts[0]]);
        assert(rest =~= seq![parts[1]]);
        assert(joined(parts.drop_last(), separator) == parts[0]);
        assert(joined(parts, separator) =~= parts[0] + (separator + parts[1]));
    } else {
        lemma_joined_front(parts.drop_last(), separator);
        assert(parts.drop_last().skip(1) =~= rest.drop_last());
        assert(rest.last() == parts.last());
        assert(joined(parts, separator) =~= parts[0] + (separator + (joined(
            rest.drop_last(),
            separator,
        ) + separator + parts.last())));
    }
}

/// Lists of parts that are told apart one by one, with commas between them, are told apart.
proof fn lemma_joined_is_told_apart(
    a: Seq<Seq<char>>,
    b: Seq<Seq<char>>,
    x: Seq<char>,
    y: Seq<char>,
)
    requires
        a.len() == b.len() > 0,
        forall|i: int| 0 <= i < a.len() ==> told_apart(#[trigger] a[i], b[i]),
        goes_on(x),
        goes_on(y),
        joined(a, seq![',']) + x == joined(b, seq![',']) + y,
    ensures
        a == b,
        x == y,
    decreases a.len(),
{
    let comma = seq![','];
    assert(told_apart(a[0], b[0]));
    if a.len() == 1 {
        assert(a[0] + x == b[0] + y);
        assert(a =~= b);
    } else {
        lemma_joined_front(a, comma);
        lemma_joined_front(b, comma);
        let after_a = comma + (joined(a.skip(1), comma) + x);
        let after_b = comma + (joined(b.skip(1), comma) + y);
        assert(joined(a, comma) + x =~= a[0] + after_a);
        assert(joined(b, comma) + y =~= b[0] + after_b);
        assert(goes_on(after_a) && goes_on(after_b));
        assert(a[0] + after_a == b[0] + after_b);
        lemma_same_start(comma, joined(a.skip(1), comma) + x, joined(b.skip(1), comma) + y);
        assert forall|i: int| 0 <= i < a.skip(1).len() implies told_apart(
            #[trigger] a.skip(1)[i],
            b.skip(1)[i],
        ) by {
            assert(told_apart(a[i + 1], b[i + 1]));
        }
        lemma_joined_is_told_apart(a.skip(1), b.skip(1), x, y);
        assert(a =~= seq![a[0]] + a.skip(1));
        assert(b =~= seq![b[0]] + b.skip(1));
    }
}

/// Arrays of one length, whose items are told apart one by one, are told apart, and the same
/// text means the same items.
pub proof fn law_array_is_unambiguous(a: Seq<Seq<char>>, b: Seq<Seq<char>>)
    requires
        a.len() == b.len() > 0,
        forall|i: int| 0 <= i < a.len() ==> told_apart(#[trigger] a[i], b[i]),
    ensures
        told_apart(array_text(a), array_text(b)),
        array_text(a) == array_text(b) ==> a == b,
{
    assert forall|x: Seq<char>, y: Seq<char>|
        goes_on(x) && goes_on(y) && #[trigger] (array_text(a) + x) == #[trigger] (array_text(b)
            + y) implies array_text(a) == array_text(b) && x == y by {
        lemma_enclosed(a, b, '[', ']', x, y);
    }
    if array_text(a) == array_text(b) {
        lemma_enclosed(a, b, '[', ']', seq![], seq![]);
    }
}

/// Joined parts between brackets are told apart whatever follows.
proof fn lemma_enclosed(
    a: Seq<Seq<char>>,
    b: Seq<Seq<char>>,
    open: char,
    close: char,
    x: Seq<char>,
    y: Seq<char>,
)
    requires
        a.len() == b.len() > 0,
        forall|i: int| 0 <= i < a.len() ==> told_apart(#[trigger] a[i], b[i]),
        close == ']' || close == '}',
        seq![open] + joined(a, seq![',']) + seq![close] + x == seq![open] + joined(b, seq![','])
            + seq![close] + y,
    ensures
        a == b,
        x == y,
{
    let inner_a = joined(a, seq![',']) + (seq![close] + x);
    let inner_b = joined(b, seq![',']) + (seq![close] + y);
    assert(seq![open] + joined(a, seq![',']) + seq![close] + x =~= seq![open] + inner_a);
    assert(seq![open] + joined(b, seq![',']) + seq![close] + y =~= seq![open] + inner_b);
    lemma_same_start(seq![open], inner_a, inner_b);
    lemma_joined_is_told_apart(a, b, seq![close] + x, seq![close] + y);
    lemma_same_start(seq![close], x, y);
}

/// Objects with the same keys, whose values are told apart one by one, are told apart, and the
/// same text means the same values.
pub proof fn law_object_is_unambiguous(
    a: Seq<(Seq<char>, Seq<char>)>,
    b: Seq<(Seq<char>, Seq<char>)>,
)
    requires
        a.len() == b.len() > 0,
        forall|i: int|
            0 <= i < a.len() ==> (#[trigger] a[i]).0 == b[i].0 && told_apart(a[i].1, b[i].1),
    ensures
        told_apart(object_text(a), object_text(b)),
        object_text(a) == object_text(b) ==> a == b,
{
    let members_a = a.map_values(|member: (Seq<char>, Seq<char>)| member_text(member));
    let members_b = b.map_values(|member: (Seq<char>, Seq<char>)| member_text(member));
    assert forall|i: int| 0 <= i < members_a.len() implies told_apart(
        #[trigger] members_a[i],
        members_b[i],
    ) by {
        assert(a[i].0 == b[i].0 && told_apart(a[i].1, b[i].1));
        lemma_member_is_told_apart(a[i].0, a[i].1, b[i].1);
    }
    assert forall|x: Seq<char>, y: Seq<char>|
        goes_on(x) && goes_on(y) && #[trigger] (object_text(a) + x) == #[trigger] (object_text(b)
            + y) implies object_text(a) == object_text(b) && x == y by {
        lemma_enclosed(members_a, members_b, '{', '}', x, y);
    }
    if object_text(a) == object_text(b) {
        lemma_enclosed(members_a, members_b, '{', '}', seq![], seq![]);
        assert forall|i: int| 0 <= i < a.len() implies a[i] == b[i] by {
            assert(members_a[i] == members_b[i]);
            assert(a[i].0 == b[i].0);
            lemma_same_start(quoted(a[i].0) + seq![':'], a[i].1, b[i].1);
        }
        assert(a =~= b);
    }
}

/// A swap message stands for one swap: whatever texts a caller passes, the message of one swap
/// is never that of another.
pub proof fn law_swap_message_is_unambiguous(
    pool: u64,
    token_in: Seq<char>,
    token_out: Seq<char>,
    amount: u128,
    min_out: Seq<char>,
    pool_b: u64,
    token_in_b: Seq<char>,
    token_out_b: Seq<char>,
    amount_b: u128,
    min_out_b: Seq<char>,
)
    requires
        swap_text(pool, token_in, token_out, amount, min_out) == swap_text(
            pool_b,
            token_in_b,
            token_out_b,
            amount_b,
            min_out_b,
        ),
    ensures
        pool == pool_b,
        token_in == token_in_b,
        token_out == token_out_b,
        amount == amount_b,
        min_out == min_out_b,
{
    let a = seq![
        ("pool_id"@, decimal(pool as nat)),
        ("token_in"@, quoted(token_in)),
        ("token_out"@, quoted(token_out)),
        ("amount_in"@, quoted(decimal(amount as nat))),
        ("min_amount_out"@, quoted(min_out)),
    ];
    let b = seq![
        ("pool_id"@, decimal(pool_b as nat)),
        ("token_in"@, quoted(token_in_b)),
        ("token_out"@, quoted(token_out_b)),
        ("amount_in"@, quoted(decimal(amount_b as nat))),
        ("min_amount_out"@, quoted(min_out_b)),
    ];
    law_decimal_is_unambiguous(pool as nat, pool_b as nat);
    law_quoted_is_unambiguous(token_in, token_in_b);
    law_quoted_is_unambiguous(token_out, token_out_b);
    law_quoted_is_unambiguous(decimal(amount as nat), decimal(amount_b as nat));
    law_decimal_is_unambiguous(amount as nat, amount_b as nat);
    law_quoted_is_unambiguous(min_out, min_out_b);
    law_object_is_unambiguous(a, b);
    law_array_is_unambiguous(seq![object_text(a)], seq![object_text(b)]);
    law_decimal_is_unambiguous(0, 0);
    let outer_a = seq![("force"@, decimal(0)), ("actions"@, array_text(seq![object_text(a)]))];
    let outer_b = seq![("force"@, decimal(0)), ("actions"@, array_text(seq![object_text(b)]))];
    law_object_is_unambiguous(outer_a, outer_b);
    assert(outer_a[1] == outer_b[1]);
    assert(seq![object_text(a)][0] == seq![object_text(b)][0]);
    assert(a[0] == b[0] && a[1] == b[1] && a[2] == b[2] && a[3] == b[3] && a[4] == b[4]);
}

/// The arguments of a token transfer stand for one transfer.
pub proof fn law_transfer_message_is_unambiguous(
    receiver_id: Seq<char>,
    amount: Seq<char>,
    msg: Seq<char>,
    receiver_id_b: Seq<char>,
    amount_b: Seq<char>,
    msg_b: Seq<char>,
)
    requires
        transfer_text(receiver_id, amount, msg) == transfer_text(receiver_id_b, amount_b, msg_b),
    ensures
        receiver_id == receiver_id_b,
        amount == amount_b,
        msg == msg_b,
{
    let a = seq![
        ("receiver_id"@, quoted(receiver_id)),
        ("amount"@, quoted(amount)),
        ("msg"@, quoted(msg)),
    ];
    let b = seq![
        ("receiver_id"@, quoted(receiver_id_b)),
        ("amount"@, quoted(amount_b)),
        ("msg"@, quoted(msg_b)),
    ];
    law_quoted_is_unambiguous(receiver_id, receiver_id_b);
    law_quoted_is_unambiguous(amount, amount_b);
    law_quoted_is_unambiguous(msg, msg_b);
    law_object_is_unambiguous(a, b);
    assert(a[0] == b[0] && a[1] == b[1] && a[2] == b[2]);
}

} // verus!
