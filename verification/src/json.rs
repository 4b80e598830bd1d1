//! JSON values as trees, and their text.
//!
//! A document is read from such a tree and written as one. The members of an
//! object keep their order; where a key occurs twice, the later member counts.

use vstd::prelude::*;
use crate::backend::quote;
use crate::decimal::digit;

verus! {

/// A JSON value.
#[derive(Debug, PartialEq, Eq)]
pub enum Json {
    /// `null`.
    Null,
    /// `true` or `false`.
    Bool(bool),
    /// A number, as its literal.
    Number(String),
    /// A string, without its quotes and escapes.
    Text(String),
    /// An array.
    List(Vec<Json>),
    /// An object.
    Object(Vec<Member>),
}

/// One member of a JSON object.
#[derive(Debug, PartialEq, Eq)]
pub struct Member {
    /// The key, without its quotes and escapes.
    pub key: String,
    /// The value under that key.
    pub value: Json,
}

/// The mathematical model of a JSON value.
pub enum JsonView {
    Null,
    Bool(bool),
    Number(Seq<char>),
    Text(Seq<char>),
    List(Seq<JsonView>),
    Object(Seq<MemberView>),
}

/// The mathematical model of a member of a JSON object.
pub struct MemberView {
    pub key: Seq<char>,
    pub value: JsonView,
}

impl View for Json {
    type V = JsonView;

    open spec fn view(&self) -> JsonView
        decreases self,
    {
        match self {
            Json::Null => JsonView::Null,
            Json::Bool(b) => JsonView::Bool(*b),
            Json::Number(literal) => JsonView::Number(literal@),
            Json::Text(text) => JsonView::Text(text@),
            Json::List(items) => JsonView::List(
                Seq::new(
                    items.len() as nat,
                    |i: int|
                        if 0 <= i < items.len() {
                            items[i]@
                        } else {
                            JsonView::Null
                        },
                ),
            ),
            Json::Object(members) => JsonView::Object(
                Seq::new(
                    members.len() as nat,
                    |i: int|
                        if 0 <= i < members.len() {
                            MemberView { key: members[i].key@, value: members[i].value@ }
                        } else {
                            MemberView { key: Seq::empty(), value: JsonView::Null }
                        },
                ),
            ),
        }
    }
}

impl View for Member {
    type V = MemberView;

    open spec fn view(&self) -> MemberView {
        MemberView { key: self.key@, value: self.value@ }
    }
}

/// The models of the items of a list, in order.
pub open spec fn items_view(items: Seq<Json>) -> Seq<JsonView> {
    Seq::new(items.len(), |i: int| items[i]@)
}

/// The models of the members of an object, in order.
pub open spec fn members_view(members: Seq<Member>) -> Seq<MemberView> {
    Seq::new(members.len(), |i: int| members[i]@)
}

/// The model of a list is the list of the models of its items.
pub proof fn lemma_list_view(items: Vec<Json>)
    ensures
        Json::List(items)@ == JsonView::List(items_view(items@)),
{
    assert(Json::List(items)@->List_0 =~= items_view(items@));
}

/// The model of an object is the list of the models of its members.
pub proof fn lemma_object_view(members: Vec<Member>)
    ensures
        Json::Object(members)@ == JsonView::Object(members_view(members@)),
{
    assert(Json::Object(members)@->Object_0 =~= members_view(members@));
}

/// The value under `key` among `members`: that of the last member with that
/// key, if there is one.
pub open spec fn lookup_spec(members: Seq<MemberView>, key: Seq<char>) -> Option<JsonView>
    decreases members.len(),
{
    if members.len() == 0 {
        None
    } else if members.last().key == key {
        Some(members.last().value)
    } else {
        lookup_spec(members.drop_last(), key)
    }
}

/// Looking a key up in two lists of members, one after the other: the second
/// list counts where it holds the key, the first where it does not.
pub proof fn lemma_lookup_in_two(first: Seq<MemberView>, second: Seq<MemberView>, key: Seq<char>)
    ensures
        lookup_spec(first + second, key) == match lookup_spec(second, key) {
            Some(value) => Some(value),
            None => lookup_spec(first, key),
        },
    decreases second.len(),
{
    let both = first + second;
    if second.len() == 0 {
        assert(both =~= first);
    } else {
        assert(both.last() == second.last());
        assert(both.drop_last() =~= first + second.drop_last());
        lemma_lookup_in_two(first, second.drop_last(), key);
    }
}

/// A key that no member has is not found.
pub proof fn lemma_lookup_of_absent_key(members: Seq<MemberView>, key: Seq<char>)
    requires
        forall|i: int| 0 <= i < members.len() ==> (#[trigger] members[i]).key != key,
    ensures
        lookup_spec(members, key) is None,
    decreases members.len(),
{
    if members.len() > 0 {
        let shorter = members.drop_last();
        assert forall|i: int| 0 <= i < shorter.len() implies (#[trigger] shorter[i]).key
            != key by {
            assert(shorter[i] == members[i]);
        }
        lemma_lookup_of_absent_key(shorter, key);
    }
}

/// A member put in anywhere changes nothing for another key than its own.
pub proof fn lemma_lookup_past_other_key(
    members: Seq<MemberView>,
    at: int,
    member: MemberView,
    key: Seq<char>,
)
    requires
        0 <= at <= members.len(),
        member.key != key,
    ensures
        lookup_spec(members.insert(at, member), key) == lookup_spec(members, key),
{
    let before = members.take(at);
    let after = members.skip(at);
    let one = seq![member];
    assert(members =~= before + after);
    assert(members.insert(at, member) =~= (before + one) + after);
    lemma_lookup_in_two(before + one, after, key);
    lemma_lookup_in_two(before, one, key);
    lemma_lookup_in_two(before, after, key);
    assert(lookup_spec(one, key) is None) by {
        assert(one.last() == member);
        assert(lookup_spec(one.drop_last(), key) is None);
    }
}

/// The hexadecimal digit `d`, in lower case, for `0 <= d <= 15`.
pub open spec fn hex_digit(d: int) -> char {
    if d < 10 {
        digit(d)
    } else {
        ((d + 87) as u8) as char
    }
}

/// How one character of a string is written between the quotes.
///
/// The quote and the backslash get a backslash before them. The control
/// characters below the space are written as `\b`, `\t`, `\n`, `\f`, `\r`, or
/// else as `\u00` and two hexadecimal digits. Every other character stands
/// for itself.
pub open spec fn escaped(c: char) -> Seq<char> {
    if c == '"' {
        seq!['\\', '"']
    } else if c == '\\' {
        seq!['\\', '\\']
    } else if c == '\u{8}' {
        seq!['\\', 'b']
    } else if c == '\t' {
        seq!['\\', 't']
    } else if c == '\n' {
        seq!['\\', 'n']
    } else if c == '\u{c}' {
        seq!['\\', 'f']
    } else if c == '\r' {
        seq!['\\', 'r']
    } else if (c as int) < 32 {
        seq!['\\', 'u', '0', '0', hex_digit(c as int / 16), hex_digit(c as int % 16)]
    } else {
        seq![c]
    }
}

/// The characters of a string as they are written between the quotes.
pub open spec fn escaped_text(s: Seq<char>) -> Seq<char>
    decreases s.len(),
{
    if s.len() == 0 {
        Seq::empty()
    } else {
        escaped_text(s.drop_last()) + escaped(s.last())
    }
}

/// A string as JSON text: its escaped characters between two quotes.
pub open spec fn quoted(s: Seq<char>) -> Seq<char> {
    seq!['"'] + escaped_text(s) + seq!['"']
}

/// Whether a character stands for itself between the quotes of a string.
pub open spec fn is_plain_char(c: char) -> bool {
    c >= ' ' && c != '"' && c != '\\'
}

/// A text of plain characters is written between the quotes as it is.
pub proof fn lemma_plain_text_is_not_escaped(s: Seq<char>)
    requires
        forall|i: int| 0 <= i < s.len() ==> is_plain_char(#[trigger] s[i]),
    ensures
        escaped_text(s) == s,
        quoted(s) == seq!['"'] + s + seq!['"'],
    decreases s.len(),
{
    if s.len() > 0 {
        let shorter = s.drop_last();
        assert forall|i: int| 0 <= i < shorter.len() implies is_plain_char(
            #[trigger] shorter[i],
        ) by {
            assert(shorter[i] == s[i]);
        }
        lemma_plain_text_is_not_escaped(shorter);
        assert(is_plain_char(s.last()));
        assert(escaped_text(s) =~= s);
    } else {
        assert(escaped_text(s) =~= s);
    }
}

/// The text of a JSON value, with no space in it.
///
/// A number is written as its literal, a string between quotes, a list
/// between square brackets and an object between braces.
pub open spec fn render_spec(tree: JsonView) -> Seq<char>
    decreases tree,
{
    match tree {
        JsonView::Null => "null"@,
        JsonView::Bool(b) => if b {
            "true"@
        } else {
            "false"@
        },
        JsonView::Number(literal) => literal,
        JsonView::Text(text) => quoted(text),
        JsonView::List(items) => "["@ + render_items(items) + "]"@,
        JsonView::Object(members) => "{"@ + render_members(members) + "}"@,
    }
}

/// The texts of the items of a list, in order, with a comma between each two.
pub open spec fn render_items(items: Seq<JsonView>) -> Seq<char>
    decreases items,
{
    if items.len() == 0 {
        Seq::empty()
    } else if items.len() == 1 {
        render_spec(items.last())
    } else {
        render_items(items.drop_last()) + ","@ + render_spec(items.last())
    }
}

/// The text of one member of an object: its key between quotes, a colon, its value.
pub open spec fn render_member(member: MemberView) -> Seq<char>
    decreases member,
{
    quoted(member.key) + ":"@ + render_spec(member.value)
}

/// The texts of the members of an object, in order, with a comma between each two.
pub open spec fn render_members(members: Seq<MemberView>) -> Seq<char>
    decreases members,
{
    if members.len() == 0 {
        Seq::empty()
    } else if members.len() == 1 {
        render_member(members.last())
    } else {
        render_members(members.drop_last()) + ","@ + render_member(members.last())
    }
}

/// The text of a list with one item more: a comma goes before the item
/// unless it is the first.
pub proof fn lemma_render_one_more_item(items: Seq<JsonView>, item: JsonView)
    ensures
        render_items(items.push(item)) == if items.len() == 0 {
            render_spec(item)
        } else {
            render_items(items) + ","@ + render_spec(item)
        },
{
    assert(items.push(item).drop_last() =~= items);
}

/// The text of the members of an object with one member more: a comma goes
/// before the member unless it is the first.
pub proof fn lemma_render_one_more_member(members: Seq<MemberView>, member: MemberView)
    ensures
        render_members(members.push(member)) == if members.len() == 0 {
            render_member(member)
        } else {
            render_members(members) + ","@ + render_member(member)
        },
{
    assert(members.push(member).drop_last() =~= members);
}

/// Finds the value under `key` among the members of an object: that of the
/// last member with that key.
pub fn lookup<'a>(members: &'a Vec<Member>, key: &str) -> (found: Option<&'a Json>)
    ensures
        match found {
            Some(value) => lookup_spec(members_view(members@), key@) == Some(value@),
            None => lookup_spec(members_view(members@), key@) is None,
        },
{
    let wanted = key.to_owned();
    let ghost all = members_view(members@);
    let mut i: usize = members.len();
    assert(all.take(i as int) =~= all);
    while i > 0
        invariant
            i <= members.len(),
            all == members_view(members@),
            wanted@ == key@,
            lookup_spec(all, key@) == lookup_spec(all.take(i as int), key@),
        decreases i,
    {
        i -= 1;
        proof {
            let shorter = all.take(i + 1);
            assert(shorter.last() == members[i as int]@);
            assert(shorter.drop_last() =~= all.take(i as int));
        }
        if members[i].key == wanted {
            return Some(&members[i].value);
        }
    }
    None
}

/// Writes a JSON value as text, with no space in it.
pub fn render(tree: &Json) -> (text: String)
    ensures
        text@ == render_spec(tree@),
    decreases tree,
{
    match tree {
        Json::Null => "null".to_owned(),
        Json::Bool(b) => if *b {
            "true".to_owned()
        } else {
            "false".to_owned()
        },
        Json::Number(literal) => literal.clone(),
        Json::Text(text) => quote(text.as_str()),
        Json::List(items) => {
            let ghost all = items_view(items@);
            let mut text = "[".to_owned();
            let mut i: usize = 0;
            assert(all.take(0) =~= Seq::<JsonView>::empty());
            while i < items.len()
                invariant
                    i <= items.len(),
                    *tree == Json::List(*items),
                    all == items_view(items@),
                    text@ == "["@ + render_items(all.take(i as int)),
                decreases items.len() - i,
            {
                if i > 0 {
                    text.append(",");
                }
                proof {
                    assert(decreases_to!(tree => tree->List_0));
                    assert(decreases_to!(items => items[i as int]));
                }
                let item = render(&items[i]);
                text.append(item.as_str());
                proof {
                    let longer = all.take(i + 1);
                    assert(longer.last() == items[i as int]@);
                    assert(longer.drop_last() =~= all.take(i as int));
                    assert(text@ =~= "["@ + render_items(longer));
                }
                i += 1;
            }
            text.append("]");
            proof {
                assert(all.take(i as int) =~= all);
                lemma_list_view(*items);
            }
            text
        },
        Json::Object(members) => {
            let ghost all = members_view(members@);
            let mut text = "{".to_owned();
            let mut i: usize = 0;
            assert(all.take(0) =~= Seq::<MemberView>::empty());
            while i < members.len()
                invariant
                    i <= members.len(),
                    *tree == Json::Object(*members),
                    all == members_view(members@),
                    text@ == "{"@ + render_members(all.take(i as int)),
                decreases members.len() - i,
            {
                if i > 0 {
                    text.append(",");
                }
                let key = quote(members[i].key.as_str());
                text.append(key.as_str());
                text.append(":");
                proof {
                    assert(decreases_to!(tree => tree->Object_0));
                    assert(decreases_to!(members => members[i as int]));
                    assert(decreases_to!(members[i as int] => members[i as int].value));
                }
                let value = render(&members[i].value);
                text.append(value.as_str());
                proof {
                    let longer = all.take(i + 1);
                    assert(longer.last() == members[i as int]@);
                    assert(longer.drop_last() =~= all.take(i as int));
                    assert(render_member(longer.last()) == key@ + ":"@ + value@);
                    assert(text@ =~= "{"@ + render_members(longer));
                }
                i += 1;
            }
            text.append("}");
            proof {
                assert(all.take(i as int) =~= all);
                lemma_object_view(*members);
            }
            text
        },
    }
}

} // verus!
