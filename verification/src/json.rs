//! Compact JSON text: string literals and objects.
use vstd::prelude::*;
use vstd::string::*;

verus! {

/// A lower-case hexadecimal digit.
pub open spec fn hex_digit(d: nat) -> char {
    if d < 10 {
        (48 + d) as char
    } else {
        (87 + d) as char
    }
}

/// How one character is written inside a JSON string literal: quotes, backslashes and control
/// characters are escaped, every other character stands for itself.
pub open spec fn escaped(c: char) -> Seq<char> {
    if c == '"' {
        seq!['\\', '"']
    } else if c == '\\' {
        seq!['\\', '\\']
    } else if c as nat == 8 {
        seq!['\\', 'b']
    } else if c as nat == 9 {
        seq!['\\', 't']
    } else if c as nat == 10 {
        seq!['\\', 'n']
    } else if c as nat == 12 {
        seq!['\\', 'f']
    } else if c as nat == 13 {
        seq!['\\', 'r']
    } else if (c as nat) < 32 {
        seq!['\\', 'u', '0', '0', hex_digit(c as nat / 16), hex_digit(c as nat % 16)]
    } else {
        seq![c]
    }
}

/// The characters of `text`, each escaped.
pub open spec fn escaped_text(text: Seq<char>) -> Seq<char>
    decreases text.len(),
{
    if text.len() == 0 {
        Seq::empty()
    } else {
        escaped(text.first()) + escaped_text(text.drop_first())
    }
}

/// `text` as a JSON string literal.
pub open spec fn quoted(text: Seq<char>) -> Seq<char> {
    seq!['"'] + escaped_text(text) + seq!['"']
}

/// Whether `text` needs no escape inside a JSON string literal.
pub open spec fn is_plain(text: Seq<char>) -> bool {
    forall|i: int|
        0 <= i < text.len() ==> text[i] != '"' && text[i] != '\\' && #[trigger] text[i] as nat >= 32
}

/// A text that needs no escape stands between the quotes as it is.
pub proof fn plain_text_is_quoted_verbatim(text: Seq<char>)
    requires
        is_plain(text),
    ensures
        escaped_text(text) == text,
        quoted(text) == seq!['"'] + text + seq!['"'],
    decreases text.len(),
{
    if text.len() > 0 {
        assert(is_plain(text.drop_first())) by {
            assert forall|i: int| 0 <= i < text.drop_first().len() implies text.drop_first()[i]
                != '"' && text.drop_first()[i] != '\\' && #[trigger] text.drop_first()[i] as nat
                >= 32 by {
                assert(text.drop_first()[i] == text[i + 1]);
            }
        }
        plain_text_is_quoted_verbatim(text.drop_first());
        assert(text[0] as nat >= 32);
        assert(seq![text.first()] + text.drop_first() =~= text);
    } else {
        assert(escaped_text(text) =~= text);
    }
}

/// No escape sequence is the beginning of another, so that what follows one starts where it ends.
proof fn lemma_escape_is_prefix_free(a: char, b: char, rest_a: Seq<char>, rest_b: Seq<char>)
    requires
        escaped(a) + rest_a == escaped(b) + rest_b,
    ensures
        a == b,
        rest_a == rest_b,
{
    let left = escaped(a) + rest_a;
    let right = escaped(b) + rest_b;
    assert(left[0] == escaped(a)[0]);
    assert(right[0] == escaped(b)[0]);
    if left[0] == '\\' {
        assert(left[1] == escaped(a)[1]);
        assert(right[1] == escaped(b)[1]);
        if left[1] == 'u' {
            assert(left[4] == escaped(a)[4]);
            assert(right[4] == escaped(b)[4]);
            assert(left[5] == escaped(a)[5]);
            assert(right[5] == escaped(b)[5]);
        }
    }
    assert(a == b);
    assert(rest_a =~= left.skip(escaped(a).len() as int));
    assert(rest_b =~= right.skip(escaped(b).len() as int));
}

proof fn lemma_escaped_text_is_injective(a: Seq<char>, b: Seq<char>)
    requires
        escaped_text(a) == escaped_text(b),
    ensures
        a == b,
    decreases a.len(),
{
    if a.len() == 0 {
        if b.len() > 0 {
            assert(escaped_text(b).len() >= escaped(b.first()).len());
        }
        assert(a =~= b);
    } else if b.len() == 0 {
        assert(escaped_text(a).len() >= escaped(a.first()).len());
    } else {
        lemma_escape_is_prefix_free(
            a.first(),
            b.first(),
            escaped_text(a.drop_first()),
            escaped_text(b.drop_first()),
        );
        lemma_escaped_text_is_injective(a.drop_first(), b.drop_first());
        assert(a =~= seq![a.first()] + a.drop_first());
        assert(b =~= seq![b.first()] + b.drop_first());
    }
}

/// Two different texts never share a JSON string literal.
pub proof fn quoted_is_injective(a: Seq<char>, b: Seq<char>)
    requires
        quoted(a) == quoted(b),
    ensures
        a == b,
{
    assert(quoted(a).len() == escaped_text(a).len() + 2);
    assert(escaped_text(a) =~= quoted(a).subrange(1, quoted(a).len() - 1));
    assert(escaped_text(b) =~= quoted(b).subrange(1, quoted(b).len() - 1));
    lemma_escaped_text_is_injective(a, b);
}

/// `serde_json::Value::from`, shown by `Value`'s `Display`: the compact JSON text of a string. It
/// is the string between quotes, with `"`, `\` and the characters below U+0020 escaped, in the
/// short form where JSON has one and as `\u00xx` in lower-case digits elsewhere.
#[verifier::external_body]
fn string_literal(text: &str) -> (r: String)
    ensures
        r@ == quoted(text@),
{
    serde_json::Value::from(text).to_string()
}

/// `"key":value`, where `value` is JSON text already.
pub open spec fn member(key: Seq<char>, value: Seq<char>) -> Seq<char> {
    quoted(key) + seq![':'] + value
}

/// Members in their order, separated by commas.
pub open spec fn members(list: Seq<(Seq<char>, Seq<char>)>) -> Seq<char>
    decreases list.len(),
{
    if list.len() == 0 {
        Seq::empty()
    } else if list.len() == 1 {
        member(list[0].0, list[0].1)
    } else {
        members(list.drop_last()) + seq![','] + member(list.last().0, list.last().1)
    }
}

/// The JSON object that holds the members of `list`, in their order.
pub open spec fn object(list: Seq<(Seq<char>, Seq<char>)>) -> Seq<char> {
    seq!['{'] + members(list) + seq!['}']
}

/// A member of an object: its key, and its value as JSON text.
pub struct Member {
    pub key: &'static str,
    pub value: String,
}

impl View for Member {
    type V = (Seq<char>, Seq<char>);

    open spec fn view(&self) -> (Seq<char>, Seq<char>) {
        (self.key@, self.value@)
    }
}

/// The keys and values of `list`.
pub open spec fn member_views(list: Seq<Member>) -> Seq<(Seq<char>, Seq<char>)> {
    list.map_values(|m: Member| m@)
}

/// `text` as a JSON string literal.
pub fn quote(text: &str) -> (r: String)
    ensures
        r@ == quoted(text@),
{
    string_literal(text)
}

/// The JSON text of an object with the members of `list`, in their order.
pub fn object_text(list: &Vec<Member>) -> (r: String)
    ensures
        r@ == object(member_views(list@)),
{
    proof {
        reveal_strlit("{");
        reveal_strlit("}");
        reveal_strlit(":");
        reveal_strlit(",");
        assert("{"@ =~= seq!['{']);
        assert("}"@ =~= seq!['}']);
        assert(":"@ =~= seq![':']);
        assert(","@ =~= seq![',']);
    }
    let ghost views = member_views(list@);
    let mut text = "{".to_owned();
    let mut i: usize = 0;
    assert(text@ =~= seq!['{'] + members(views.take(0)));
    while i < list.len()
        invariant
            i <= list.len(),
            views == member_views(list@),
            text@ == seq!['{'] + members(views.take(i as int)),
            ":"@ == seq![':'],
            ","@ == seq![','],
        decreases list.len() - i,
    {
        if i > 0 {
            text.append(",");
        }
        text.append(quote(list[i].key).as_str());
        text.append(":");
        text.append(list[i].value.as_str());
        proof {
            let taken = views.take(i + 1);
            assert(taken.last() == list@[i as int]@);
            assert(taken.drop_last() =~= views.take(i as int));
            assert(text@ =~= seq!['{'] + members(taken));
        }
        i = i + 1;
    }
    assert(views.take(i as int) =~= views);
    text.append("}");
    text
}

proof fn lemma_members_join(a: Seq<(Seq<char>, Seq<char>)>, b: Seq<(Seq<char>, Seq<char>)>)
    requires
        a.len() > 0,
        b.len() > 0,
    ensures
        members(a + b) == members(a) + seq![','] + members(b),
    decreases b.len(),
{
    let both = a + b;
    assert(both.last() == b.last());
    if b.len() == 1 {
        assert(both.drop_last() =~= a);
        assert(members(both) =~= members(a) + seq![','] + members(b));
    } else {
        assert(both.drop_last() =~= a + b.drop_last());
        lemma_members_join(a, b.drop_last());
        assert(members(both) =~= members(a) + seq![','] + members(b));
    }
}

/// An object without members is `{}`.
pub proof fn object_of_none()
    ensures
        object(Seq::empty()) == seq!['{', '}'],
{
    assert(object(Seq::empty()) =~= seq!['{', '}']);
}

/// An object with one member is `{"key":value}`, the key as a string literal.
pub proof fn object_of_one(key: Seq<char>, value: Seq<char>)
    ensures
        object(seq![(key, value)]) == seq!['{'] + quoted(key) + seq![':'] + value + seq!['}'],
{
    assert(object(seq![(key, value)]) =~= seq!['{'] + quoted(key) + seq![':'] + value + seq!['}']);
}

/// The object of two lists of members is that of the first, without its closing brace, a comma, and
/// that of the second, without its opening brace.
pub proof fn objects_join_with_a_comma(
    a: Seq<(Seq<char>, Seq<char>)>,
    b: Seq<(Seq<char>, Seq<char>)>,
)
    requires
        a.len() > 0,
        b.len() > 0,
    ensures
        object(a + b) == object(a).drop_last() + seq![','] + object(b).drop_first(),
{
    lemma_members_join(a, b);
    assert(object(a).drop_last() =~= seq!['{'] + members(a));
    assert(object(b).drop_first() =~= members(b) + seq!['}']);
    assert(object(a + b) =~= object(a).drop_last() + seq![','] + object(b).drop_first());
}

/// The members of a list are its keys and values, each at its place.
pub proof fn members_are_shown_as_they_are(list: Seq<Member>, i: int)
    requires
        0 <= i < list.len(),
    ensures
        member_views(list).len() == list.len(),
        member_views(list)[i] == (list[i].key@, list[i].value@),
{
}

} // verus!
