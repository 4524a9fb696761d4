//! The JSON documents the relay reads and writes.

use vstd::prelude::*;

verus! {

/// A JSON value. A number that is no integer of 64 bits is carried as the
/// literal that stands for it.
#[derive(Debug)]
pub enum Json {
    Null,
    Bool(bool),
    Integer(i64),
    Decimal(String),
    Text(String),
    List(Vec<Json>),
    Object(Vec<Member>),
}

/// One member of a JSON object.
#[derive(Debug)]
pub struct Member {
    pub key: String,
    pub value: Json,
}

/// A JSON value as a mathematical value.
pub enum JsonView {
    Null,
    Bool(bool),
    Integer(int),
    Decimal(Seq<char>),
    Text(Seq<char>),
    List(Seq<JsonView>),
    Object(Seq<MemberView>),
}

/// One member of a JSON object as a mathematical value.
pub struct MemberView {
    pub key: Seq<char>,
    pub value: JsonView,
}

impl JsonView {
    /// The string that this value is, if it is one.
    pub open spec fn as_text(self) -> Option<Seq<char>> {
        match self {
            JsonView::Text(t) => Some(t),
            _ => None,
        }
    }

    /// The truth value that this value is, if it is one.
    pub open spec fn as_bool(self) -> Option<bool> {
        match self {
            JsonView::Bool(b) => Some(b),
            _ => None,
        }
    }

    /// The integer that this value is, if it is one of 64 bits.
    pub open spec fn as_integer(self) -> Option<int> {
        match self {
            JsonView::Integer(i) => Some(i),
            _ => None,
        }
    }

    /// The literal of the number that this value is, if it is a number.
    pub open spec fn as_decimal(self) -> Option<Seq<char>> {
        match self {
            JsonView::Integer(i) => Some(integer_text(i)),
            JsonView::Decimal(d) => Some(d),
            _ => None,
        }
    }

    /// The strings that this value lists, if it is a list of strings only.
    pub open spec fn as_text_list(self) -> Option<Seq<Seq<char>>> {
        match self {
            JsonView::List(items) => if forall|i: int|
                0 <= i < items.len() ==> (#[trigger] items[i]) is Text {
                Some(Seq::new(items.len(), |i: int| items[i]->Text_0))
            } else {
                None
            },
            _ => None,
        }
    }
}

impl View for Json {
    type V = JsonView;

    open spec fn view(&self) -> JsonView
        decreases self,
    {
        match self {
            Json::Null => JsonView::Null,
            Json::Bool(b) => JsonView::Bool(*b),
            Json::Integer(i) => JsonView::Integer(*i as int),
            Json::Decimal(d) => JsonView::Decimal(d@),
            Json::Text(t) => JsonView::Text(t@),
            Json::List(items) => JsonView::List(
                Seq::new(items@.len(), |i: int| if 0 <= i < items@.len() { items@[i]@ } else { JsonView::Null }),
            ),
            Json::Object(members) => JsonView::Object(
                Seq::new(
                    members@.len(),
                    |i: int| if 0 <= i < members@.len() {
                        MemberView { key: members@[i].key@, value: members@[i].value@ }
                    } else {
                        MemberView { key: Seq::empty(), value: JsonView::Null }
                    },
                ),
            ),
        }
    }
}

/// A parsed document as `serde_json` holds it.
#[verifier::external_type_specification]
#[verifier::external_body]
pub struct ExValue(serde_json::Value);

/// What `serde_json::from_str` makes of a text: the document, or nothing
/// where the text is no JSON document.
pub uninterp spec fn document_of(text: Seq<char>) -> Option<serde_json::Value>;

/// What a `serde_json` document holds, as a value of this module.
pub uninterp spec fn contents_of(value: serde_json::Value) -> JsonView;

/// Calls `serde_json::from_str` for a `serde_json::Value`. A text that is no
/// JSON document gives `None`; the parser's result is only named here.
#[verifier::external_body]
fn read_document(text: &str) -> (value: Option<serde_json::Value>)
    ensures
        value == document_of(text@),
{
    serde_json::from_str::<serde_json::Value>(text).ok()
}

/// Copies a `serde_json` document into a [`Json`], variant by variant. A
/// number that `as_i64` gives is an `Integer`; any other number is a
/// `Decimal` with the text that `serde_json` displays for it.
#[verifier::external_body]
fn copy_document(value: &serde_json::Value) -> (json: Json)
    ensures
        json@ == contents_of(*value),
{
    match value {
        serde_json::Value::Null => Json::Null,
        serde_json::Value::Bool(b) => Json::Bool(*b),
        serde_json::Value::Number(n) => n.as_i64().map_or_else(|| Json::Decimal(n.to_string()), Json::Integer),
        serde_json::Value::String(s) => Json::Text(s.clone()),
        serde_json::Value::Array(items) => Json::List(items.iter().map(copy_document).collect()),
        serde_json::Value::Object(map) => Json::Object(
            map.iter().map(|(key, value)| Member { key: key.clone(), value: copy_document(value) }).collect(),
        ),
    }
}

/// The document that a text stands for, if it is a JSON document.
pub open spec fn parsed(text: Seq<char>) -> Option<JsonView> {
    match document_of(text) {
        Some(value) => Some(contents_of(value)),
        None => None,
    }
}

/// The value of the first member of `members` under `key`.
pub open spec fn lookup(members: Seq<MemberView>, key: Seq<char>) -> Option<JsonView>
    decreases members.len(),
{
    if members.len() == 0 {
        None
    } else if members[0].key == key {
        Some(members[0].value)
    } else {
        lookup(members.drop_first(), key)
    }
}

/// The digit that stands for `d` in base sixteen, in lower case.
pub open spec fn hex_digit(d: int) -> char {
    if d < 10 {
        digit(d)
    } else if d == 10 {
        'a'
    } else if d == 11 {
        'b'
    } else if d == 12 {
        'c'
    } else if d == 13 {
        'd'
    } else if d == 14 {
        'e'
    } else {
        'f'
    }
}

/// A character as it stands inside a JSON string literal: the quotation
/// mark, the backslash and the control characters are escaped, every other
/// character stands for itself.
pub open spec fn escaped(c: char) -> Seq<char> {
    if c == '"' {
        seq!['\\', '"']
    } else if c == '\\' {
        seq!['\\', '\\']
    } else if c == '\u{8}' {
        seq!['\\', 'b']
    } else if c == '\t' {
        seq!['\\', 't']
    } else if c == '\n' {
        seq!['\\', 'n']
    } else if c == '\u{c}' {
        seq!['\\', 'f']
    } else if c == '\r' {
        seq!['\\', 'r']
    } else if (c as u32) < 32 {
        seq!['\\', 'u', '0', '0', hex_digit((c as u32) as int / 16), hex_digit((c as u32) as int % 16)]
    } else {
        seq![c]
    }
}

/// The characters of a text, each as it stands inside a JSON string literal.
pub open spec fn escaped_text(text: Seq<char>) -> Seq<char>
    decreases text.len(),
{
    if text.len() == 0 {
        Seq::empty()
    } else {
        escaped_text(text.drop_last()) + escaped(text.last())
    }
}

/// The text of a JSON string literal: the escaped text between quotation
/// marks.
pub open spec fn string_literal(text: Seq<char>) -> Seq<char> {
    seq!['"'] + escaped_text(text) + seq!['"']
}

/// Calls `serde_json::to_string` on a string slice, which writes the JSON
/// string literal for that text: between quotation marks, with the escapes
/// of `serde_json`'s table.
#[verifier::external_body]
fn quote(text: &str) -> (literal: String)
    ensures
        literal@ == string_literal(text@),
{
    serde_json::to_string(text).unwrap_or_default()
}

pub open spec fn digit(d: int) -> char {
    if d == 0 {
        '0'
    } else if d == 1 {
        '1'
    } else if d == 2 {
        '2'
    } else if d == 3 {
        '3'
    } else if d == 4 {
        '4'
    } else if d == 5 {
        '5'
    } else if d == 6 {
        '6'
    } else if d == 7 {
        '7'
    } else if d == 8 {
        '8'
    } else {
        '9'
    }
}

/// Decimal digits of a natural number, most significant first, no leading zero.
pub open spec fn natural_text(n: nat) -> Seq<char>
    decreases n,
{
    if n < 10 {
        seq![digit(n as int)]
    } else {
        natural_text(n / 10).push(digit((n % 10) as int))
    }
}

/// Decimal text of an integer: a minus sign for a negative one, then its digits.
pub open spec fn integer_text(i: int) -> Seq<char> {
    if i < 0 {
        seq!['-'] + natural_text((-i) as nat)
    } else {
        natural_text(i as nat)
    }
}

/// The compact text of a JSON value: no white space, members in their order.
pub open spec fn text_of(json: JsonView) -> Seq<char>
    decreases json,
{
    match json {
        JsonView::Null => "null"@,
        JsonView::Bool(b) => if b {
            "true"@
        } else {
            "false"@
        },
        JsonView::Integer(i) => integer_text(i),
        JsonView::Decimal(d) => d,
        JsonView::Text(t) => string_literal(t),
        JsonView::List(items) => seq!['['] + list_text(items) + seq![']'],
        JsonView::Object(members) => seq!['{'] + members_text(members) + seq!['}'],
    }
}

/// The texts of `items`, one after the other, with a comma between neighbours.
pub open spec fn list_text(items: Seq<JsonView>) -> Seq<char>
    decreases items,
{
    if items.len() == 0 {
        Seq::empty()
    } else if items.len() == 1 {
        text_of(items[0])
    } else {
        list_text(items.drop_last()) + seq![','] + text_of(items.last())
    }
}

/// The text of one member: its key as a string literal, a colon, its value.
pub open spec fn member_text(member: MemberView) -> Seq<char>
    decreases member,
{
    string_literal(member.key) + seq![':'] + text_of(member.value)
}

/// The texts of `members`, one after the other, with a comma between neighbours.
pub open spec fn members_text(members: Seq<MemberView>) -> Seq<char>
    decreases members,
{
    if members.len() == 0 {
        Seq::empty()
    } else if members.len() == 1 {
        member_text(members[0])
    } else {
        members_text(members.drop_last()) + seq![','] + member_text(members.last())
    }
}

fn digit_text(d: u64) -> (text: &'static str)
    requires
        d < 10,
    ensures
        text@ == seq![digit(d as int)],
{
    proof {
        reveal_strlit("0");
        reveal_strlit("1");
        reveal_strlit("2");
        reveal_strlit("3");
        reveal_strlit("4");
        reveal_strlit("5");
        reveal_strlit("6");
        reveal_strlit("7");
        reveal_strlit("8");
        reveal_strlit("9");
    }
    let text = if d == 0 {
        "0"
    } else if d == 1 {
        "1"
    } else if d == 2 {
        "2"
    } else if d == 3 {
        "3"
    } else if d == 4 {
        "4"
    } else if d == 5 {
        "5"
    } else if d == 6 {
        "6"
    } else if d == 7 {
        "7"
    } else if d == 8 {
        "8"
    } else {
        "9"
    };
    assert(text@ =~= seq![digit(d as int)]);
    text
}

/// Appends the decimal digits of `n` to `out`.
pub fn write_natural(n: u64, out: &mut String)
    ensures
        final(out)@ == old(out)@ + natural_text(n as nat),
    decreases n,
{
    if n >= 10 {
        write_natural(n / 10, out);
    }
    out.append(digit_text(n % 10));
    assert(out@ =~= old(out)@ + natural_text(n as nat));
}

/// Appends the decimal text of `i` to `out`.
pub fn write_integer(i: i64, out: &mut String)
    ensures
        final(out)@ == old(out)@ + integer_text(i as int),
{
    if i < 0 {
        proof {
            reveal_strlit("-");
        }
        out.append("-");
        let magnitude: u64 = ((-(i + 1)) as u64) + 1;
        write_natural(magnitude, out);
        assert(out@ =~= old(out)@ + integer_text(i as int));
    } else {
        write_natural(i as u64, out);
    }
}

impl Json {
    /// An object with the given members, in their order.
    pub fn object(members: Vec<Member>) -> (json: Json)
        ensures
            json@ matches JsonView::Object(views) && views.len() == members@.len() && forall|
                i: int,
            |
                0 <= i < members@.len() ==> views[i] == (MemberView {
                    key: members@[i].key@,
                    value: members@[i].value@,
                }),
    {
        Json::Object(members)
    }

    /// Reads a JSON document.
    pub fn parse(text: &str) -> (json: Option<Json>)
        ensures
            match json {
                Some(json) => parsed(text@) == Some(json@),
                None => parsed(text@) is None,
            },
    {
        match read_document(text) {
            Some(value) => Some(copy_document(&value)),
            None => None,
        }
    }

    /// The string that this value is, if it is one.
    pub fn as_text(&self) -> (text: Option<String>)
        ensures
            match text {
                Some(text) => self@.as_text() == Some(text@),
                None => self@.as_text() is None,
            },
    {
        match self {
            Json::Text(t) => Some(t.clone()),
            _ => None,
        }
    }

    /// The truth value that this value is, if it is one.
    pub fn as_bool(&self) -> (value: Option<bool>)
        ensures
            value == self@.as_bool(),
    {
        match self {
            Json::Bool(b) => Some(*b),
            _ => None,
        }
    }

    /// The integer that this value is, if it is one of 64 bits.
    pub fn as_integer(&self) -> (value: Option<i64>)
        ensures
            match value {
                Some(i) => self@.as_integer() == Some(i as int),
                None => self@.as_integer() is None,
            },
    {
        match self {
            Json::Integer(i) => Some(*i),
            _ => None,
        }
    }

    /// The literal of the number that this value is, if it is a number.
    pub fn as_decimal(&self) -> (literal: Option<String>)
        ensures
            match literal {
                Some(literal) => self@.as_decimal() == Some(literal@),
                None => self@.as_decimal() is None,
            },
    {
        match self {
            Json::Integer(i) => {
                let mut out = String::new();
                write_integer(*i, &mut out);
                assert(out@ =~= integer_text(*i as int));
                Some(out)
            },
            Json::Decimal(d) => Some(d.clone()),
            _ => None,
        }
    }

    /// The strings that this value lists, if it is a list of strings only.
    pub fn as_text_list(&self) -> (texts: Option<Vec<String>>)
        ensures
            match texts {
                Some(texts) => self@.as_text_list() == Some(texts@.map_values(|t: String| t@)),
                None => self@.as_text_list() is None,
            },
    {
        match self {
            Json::List(items) => {
                let ghost views = self@->List_0;
                let mut texts: Vec<String> = Vec::new();
                let mut index: usize = 0;
                while index < items.len()
                    invariant
                        0 <= index <= items.len(),
                        self@ == JsonView::List(views),
                        views.len() == items@.len(),
                        forall|i: int| 0 <= i < items@.len() ==> views[i] == items@[i]@,
                        texts@.len() == index,
                        forall|i: int| 0 <= i < index ==> (#[trigger] views[i]) is Text,
                        forall|i: int| 0 <= i < index ==> (#[trigger] texts@[i])@ == views[i]->Text_0,
                    decreases items.len() - index,
                {
                    match &items[index] {
                        Json::Text(t) => {
                            texts.push(t.clone());
                        },
                        _ => {
                            assert(!(views[index as int] is Text));
                            return None;
                        },
                    }
                    index = index + 1;
                }
                assert(texts@.map_values(|t: String| t@) =~= Seq::new(
                    views.len(),
                    |i: int| views[i]->Text_0,
                ));
                Some(texts)
            },
            _ => None,
        }
    }

    /// The value of the first member under `key`, where this is an object
    /// that has one.
    pub fn member<'a>(&'a self, key: &str) -> (found: Option<&'a Json>)
        ensures
            match found {
                Some(value) => self@ matches JsonView::Object(members) && lookup(members, key@)
                    == Some(value@),
                None => self@ matches JsonView::Object(members) ==> lookup(members, key@) is None,
            },
    {
        match self {
            Json::Object(members) => {
                let ghost views = self@->Object_0;
                let wanted = String::from_str(key);
                let mut index: usize = 0;
                assert(views.skip(0) =~= views);
                while index < members.len()
                    invariant
                        0 <= index <= members.len(),
                        wanted@ == key@,
                        self@ == JsonView::Object(views),
                        views.len() == members@.len(),
                        forall|i: int|
                            0 <= i < members@.len() ==> views[i] == (MemberView {
                                key: members@[i].key@,
                                value: members@[i].value@,
                            }),
                        lookup(views, key@) == lookup(views.skip(index as int), key@),
                    decreases members.len() - index,
                {
                    let ghost rest = views.skip(index as int);
                    assert(rest[0] == views[index as int]);
                    assert(rest.drop_first() =~= views.skip(index as int + 1));
                    if members[index].key == wanted {
                        return Some(&members[index].value);
                    }
                    index = index + 1;
                }
                assert(views.skip(index as int).len() == 0);
                None
            },
            _ => None,
        }
    }

    /// Appends the compact text of this value to `out`.
    pub fn write(&self, out: &mut String)
        ensures
            final(out)@ == old(out)@ + text_of(self@),
        decreases self,
    {
        match self {
            Json::Null => {
                out.append("null");
            },
            Json::Bool(b) => {
                if *b {
                    out.append("true");
                } else {
                    out.append("false");
                }
            },
            Json::Integer(i) => {
                write_integer(*i, out);
            },
            Json::Decimal(d) => {
                out.append(d.as_str());
            },
            Json::Text(t) => {
                let literal = quote(t.as_str());
                out.append(literal.as_str());
            },
            Json::List(items) => {
                proof {
                    reveal_strlit("[");
                }
                let ghost views = self@->List_0;
                out.append("[");
                let mut index: usize = 0;
                while index < items.len()
                    invariant
                        0 <= index <= items.len(),
                        views.len() == items@.len(),
                        forall|i: int| 0 <= i < items@.len() ==> views[i] == items@[i]@,
                        out@ == old(out)@ + seq!['['] + list_text(views.take(index as int)),
                        decreases_to!(self => items),
                    decreases items.len() - index,
                {
                    if index > 0 {
                        out.append(",");
                    }
                    items[index].write(out);
                    proof {
                        reveal_strlit(",");
                        let taken = views.take(index as int + 1);
                        assert(taken.drop_last() =~= views.take(index as int));
                        assert(taken.last() == views[index as int]);
                        assert(out@ =~= old(out)@ + seq!['['] + list_text(taken));
                    }
                    index = index + 1;
                }
                out.append("]");
                proof {
                    reveal_strlit("]");
                    assert(views.take(items@.len() as int) =~= views);
                    assert(out@ =~= old(out)@ + text_of(self@));
                }
            },
            Json::Object(members) => {
                proof {
                    reveal_strlit("{");
                }
                let ghost views = self@->Object_0;
                out.append("{");
                let mut index: usize = 0;
                while index < members.len()
                    invariant
                        0 <= index <= members.len(),
                        views.len() == members@.len(),
                        forall|i: int|
                            0 <= i < members@.len() ==> views[i] == (MemberView {
                                key: members@[i].key@,
                                value: members@[i].value@,
                            }),
                        out@ == old(out)@ + seq!['{'] + members_text(views.take(index as int)),
                        decreases_to!(self => members),
                    decreases members.len() - index,
                {
                    if index > 0 {
                        out.append(",");
                    }
                    let ghost before = out@;
                    let literal = quote(members[index].key.as_str());
                    out.append(literal.as_str());
                    out.append(":");
                    members[index].value.write(out);
                    proof {
                        reveal_strlit(",");
                        reveal_strlit(":");
                        let member = views[index as int];
                        assert(member_text(member) == string_literal(member.key) + seq![':']
                            + text_of(member.value));
                        assert(out@ =~= before + member_text(member));
                        let taken = views.take(index as int + 1);
                        assert(taken.drop_last() =~= views.take(index as int));
                        assert(taken.last() == views[index as int]);
                        assert(out@ =~= old(out)@ + seq!['{'] + members_text(taken));
                    }
                    index = index + 1;
                }
                out.append("}");
                proof {
                    reveal_strlit("}");
                    assert(views.take(members@.len() as int) =~= views);
                    assert(out@ =~= old(out)@ + text_of(self@));
                }
            },
        }
    }

    /// The compact text of this value.
    pub fn to_text(&self) -> (text: String)
        ensures
            text@ == text_of(self@),
    {
        let mut out = String::new();
        self.write(&mut out);
        assert(out@ =~= text_of(self@));
        out
    }
}

} // verus!
