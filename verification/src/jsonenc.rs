//! Verified JSON encoding for the wire format the service speaks.
//!
//! The service answers every successful request with a JSON body: a user
//! object, an array of user objects, a bare string, or an acknowledgment
//! object. The encoders here state the produced text exactly, character by
//! character, over the standard JSON string escapes: quote, backslash and
//! the short control escapes by name, every other control character as a
//! four-digit escape.

use vstd::prelude::*;

verus! {

/// The sixteen lowercase hexadecimal digit characters, by value.
pub open spec fn hex_digit(d: int) -> char {
    "0123456789abcdef"@[d]
}

/// The digit character for a value below sixteen.
pub fn hex_char(d: u8) -> (c: char)
    requires
        d < 16,
    ensures
        c == hex_digit(d as int),
{
    let digits = "0123456789abcdef";
    proof {
        reveal_strlit("0123456789abcdef");
    }
    digits.get_char(d as usize)
}

/// How one character appears inside a JSON string literal.
pub open spec fn esc_char(c: char) -> Seq<char> {
    if c == '"' {
        seq!['\\', '"']
    } else if c == '\\' {
        seq!['\\', '\\']
    } else if c == '\u{8}' {
        seq!['\\', 'b']
    } else if c == '\t' {
        seq!['\\', 't']
    } else if c == '\n' {
        seq!['\\', 'n']
    } else if c == '\u{c}' {
        seq!['\\', 'f']
    } else if c == '\r' {
        seq!['\\', 'r']
    } else if (c as u32) < 32 {
        seq!['\\', 'u', '0', '0', hex_digit((c as u32 / 16) as int), hex_digit(
            (c as u32 % 16) as int,
        )]
    } else {
        seq![c]
    }
}

/// How a whole string appears inside a JSON string literal.
pub open spec fn esc(s: Seq<char>) -> Seq<char>
    decreases s.len(),
{
    if s.len() == 0 {
        Seq::empty()
    } else {
        esc(s.drop_last()) + esc_char(s.last())
    }
}

/// Relies on std's `String::push`: appends the character to the string.
#[verifier::external_body]
pub(crate) fn push_char(s: &mut String, c: char)
    ensures
        final(s)@ == old(s)@.push(c),
{
    s.push(c);
}

/// Appends one character in its JSON-escaped form.
fn append_escaped_char(out: &mut String, c: char)
    ensures
        final(out)@ == old(out)@ + esc_char(c),
{
    let ghost base = out@;
    if c == '"' {
        push_char(out, '\\');
        push_char(out, '"');
        assert(out@ =~= base + esc_char(c));
    } else if c == '\\' {
        push_char(out, '\\');
        push_char(out, '\\');
        assert(out@ =~= base + esc_char(c));
    } else if c == '\u{8}' {
        push_char(out, '\\');
        push_char(out, 'b');
        assert(out@ =~= base + esc_char(c));
    } else if c == '\t' {
        push_char(out, '\\');
        push_char(out, 't');
        assert(out@ =~= base + esc_char(c));
    } else if c == '\n' {
        push_char(out, '\\');
        push_char(out, 'n');
        assert(out@ =~= base + esc_char(c));
    } else if c == '\u{c}' {
        push_char(out, '\\');
        push_char(out, 'f');
        assert(out@ =~= base + esc_char(c));
    } else if c == '\r' {
        push_char(out, '\\');
        push_char(out, 'r');
        assert(out@ =~= base + esc_char(c));
    } else if (c as u32) < 32 {
        let x: u32 = c as u32;
        push_char(out, '\\');
        push_char(out, 'u');
        push_char(out, '0');
        push_char(out, '0');
        push_char(out, hex_char((x / 16) as u8));
        push_char(out, hex_char((x % 16) as u8));
        assert(out@ =~= base + esc_char(c));
    } else {
        push_char(out, c);
        assert(out@ =~= base + esc_char(c));
    }
}

/// Appends the JSON-escaped form of the whole string.
pub fn append_escaped(out: &mut String, s: &str)
    ensures
        final(out)@ == old(out)@ + esc(s@),
{
    let ghost base = out@;
    let n = s.unicode_len();
    let mut i: usize = 0;
    while i < n
        invariant
            n == s@.len(),
            0 <= i <= n,
            out@ == base + esc(s@.subrange(0, i as int)),
        decreases n - i,
    {
        let c = s.get_char(i);
        append_escaped_char(out, c);
        proof {
            let pre = s@.subrange(0, i as int + 1);
            assert(pre.drop_last() =~= s@.subrange(0, i as int));
            assert(pre.last() == s@[i as int]);
            assert(out@ =~= base + esc(pre));
        }
        i += 1;
    }
    assert(s@.subrange(0, n as int) =~= s@);
}

/// The decimal numeral of a number, most significant digit first.
pub open spec fn dec_of(n: nat) -> Seq<char>
    decreases n,
{
    if n < 10 {
        seq![hex_digit(n as int)]
    } else {
        dec_of(n / 10) + seq![hex_digit((n % 10) as int)]
    }
}

/// The decimal numeral of `n`.
pub fn dec_string(n: u64) -> (r: String)
    ensures
        r@ == dec_of(n as nat),
    decreases n,
{
    if n < 10 {
        let mut s = String::new();
        push_char(&mut s, hex_char(n as u8));
        assert(s@ =~= dec_of(n as nat));
        s
    } else {
        let mut s = dec_string(n / 10);
        push_char(&mut s, hex_char((n % 10) as u8));
        assert(s@ =~= dec_of(n as nat));
        s
    }
}

/// A bare string as a JSON document: quoted and escaped.
pub open spec fn json_of_string(s: Seq<char>) -> Seq<char> {
    seq!['"'] + esc(s) + seq!['"']
}

/// Encodes a bare string as a JSON document.
pub fn string_json(s: &str) -> (r: String)
    ensures
        r@ == json_of_string(s@),
{
    let mut out = String::new();
    push_char(&mut out, '"');
    append_escaped(&mut out, s);
    push_char(&mut out, '"');
    assert(out@ =~= json_of_string(s@));
    out
}

/// A user document as a JSON object, fields in declaration order.
pub open spec fn json_of_user(u: crate::model::UserView) -> Seq<char> {
    "{\"id\":\""@ + esc(u.id) + "\",\"first_name\":\""@ + esc(u.first_name)
        + "\",\"last_name\":\""@ + esc(u.last_name) + "\",\"username\":\""@ + esc(u.username)
        + "\",\"email\":\""@ + esc(u.email) + "\"}"@
}

/// Encodes a user document as a JSON object.
pub fn user_json(u: &crate::model::User) -> (r: String)
    ensures
        r@ == json_of_user(u@),
{
    let mut out = String::new();
    out.append("{\"id\":\"");
    append_escaped(&mut out, u.id.as_str());
    out.append("\",\"first_name\":\"");
    append_escaped(&mut out, u.first_name.as_str());
    out.append("\",\"last_name\":\"");
    append_escaped(&mut out, u.last_name.as_str());
    out.append("\",\"username\":\"");
    append_escaped(&mut out, u.username.as_str());
    out.append("\",\"email\":\"");
    append_escaped(&mut out, u.email.as_str());
    out.append("\"}");
    assert(out@ =~= json_of_user(u@));
    out
}

/// The comma-separated items of a JSON array of user objects.
pub open spec fn json_items(s: Seq<crate::model::UserView>) -> Seq<char>
    decreases s.len(),
{
    if s.len() == 0 {
        Seq::empty()
    } else if s.len() == 1 {
        json_of_user(s[0])
    } else {
        json_items(s.drop_last()) + ","@ + json_of_user(s.last())
    }
}

/// A collection of user documents as a JSON array, in order.
pub open spec fn json_of_users(s: Seq<crate::model::UserView>) -> Seq<char> {
    "["@ + json_items(s) + "]"@
}

/// Encodes a collection of user documents as a JSON array.
pub fn users_json(users: &Vec<crate::model::User>) -> (r: String)
    ensures
        r@ == json_of_users(users@.map_values(|u: crate::model::User| u@)),
{
    let ghost view = users@.map_values(|u: crate::model::User| u@);
    let mut out = String::new();
    out.append("[");
    let n = users.len();
    let mut i: usize = 0;
    while i < n
        invariant
            n == users.len(),
            0 <= i <= n,
            view == users@.map_values(|u: crate::model::User| u@),
            n == view.len(),
            out@ == "["@ + json_items(view.subrange(0, i as int)),
        decreases n - i,
    {
        if i > 0 {
            out.append(",");
        }
        let item = user_json(&users[i]);
        out.append(item.as_str());
        proof {
            let pre = view.subrange(0, i as int + 1);
            assert(pre.drop_last() =~= view.subrange(0, i as int));
            assert(pre.last() == view[i as int]);
            if i == 0 {
                assert(pre.len() == 1);
                assert(pre[0] == view[0]);
                assert(json_items(pre) == json_of_user(view[0]));
            }
            assert(out@ =~= "["@ + json_items(pre));
        }
        i += 1;
    }
    out.append("]");
    assert(view.subrange(0, n as int) =~= view);
    assert(out@ =~= json_of_users(view));
    out
}

/// The acknowledgment of a create: an object carrying the assigned id.
pub open spec fn json_of_insert_ack(id: Seq<char>) -> Seq<char> {
    "{\"insertedId\":\""@ + esc(id) + "\"}"@
}

/// Encodes the acknowledgment of a create.
pub fn insert_ack_json(id: &str) -> (r: String)
    ensures
        r@ == json_of_insert_ack(id@),
{
    let mut out = String::new();
    out.append("{\"insertedId\":\"");
    append_escaped(&mut out, id);
    out.append("\"}");
    assert(out@ =~= json_of_insert_ack(id@));
    out
}

/// The acknowledgment of a delete: an object carrying the removal count.
pub open spec fn json_of_delete_ack(n: nat) -> Seq<char> {
    "{\"deletedCount\":"@ + dec_of(n) + "}"@
}

/// Encodes the acknowledgment of a delete.
pub fn delete_ack_json(n: u64) -> (r: String)
    ensures
        r@ == json_of_delete_ack(n as nat),
{
    let mut out = String::new();
    out.append("{\"deletedCount\":");
    let num = dec_string(n);
    out.append(num.as_str());
    out.append("}");
    assert(out@ =~= json_of_delete_ack(n as nat));
    out
}

} // verus!
