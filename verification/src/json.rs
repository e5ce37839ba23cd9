//! A verified JSON renderer for the records served by the API.
//!
//! Spec functions pin down, character by character, the JSON text of each
//! record and of an array of records; the exec functions produce exactly
//! that text. Nullable columns render as JSON `null` when absent.
use crate::model::{Project, Task, User};
use vstd::prelude::*;
use vstd::string::StrSliceExecFns;
use vstd::string::StringExecFns;

verus! {

/// Relies on std's `String::push`: appends the given char to the end of
/// the string.
pub assume_specification[ String::push ](s: &mut String, ch: char)
    ensures
        final(s)@ == old(s)@.push(ch),
;

/// The lower-case hex digit for a value below 16.
pub open spec fn hex_digit(d: nat) -> char {
    if d == 0 {
        '0'
    } else if d == 1 {
        '1'
    } else if d == 2 {
        '2'
    } else if d == 3 {
        '3'
    } else if d == 4 {
        '4'
    } else if d == 5 {
        '5'
    } else if d == 6 {
        '6'
    } else if d == 7 {
        '7'
    } else if d == 8 {
        '8'
    } else if d == 9 {
        '9'
    } else if d == 10 {
        'a'
    } else if d == 11 {
        'b'
    } else if d == 12 {
        'c'
    } else if d == 13 {
        'd'
    } else if d == 14 {
        'e'
    } else {
        'f'
    }
}

/// The decimal digit for a value below 10.
pub open spec fn digit_char(d: nat) -> char {
    if d == 0 {
        '0'
    } else if d == 1 {
        '1'
    } else if d == 2 {
        '2'
    } else if d == 3 {
        '3'
    } else if d == 4 {
        '4'
    } else if d == 5 {
        '5'
    } else if d == 6 {
        '6'
    } else if d == 7 {
        '7'
    } else if d == 8 {
        '8'
    } else {
        '9'
    }
}

/// The decimal digits of a natural number, most significant first.
pub open spec fn dec_str_nat(n: nat) -> Seq<char>
    decreases n,
{
    if n < 10 {
        seq![digit_char(n)]
    } else {
        dec_str_nat(n / 10).push(digit_char(n % 10))
    }
}

/// The decimal text of an integer: a minus sign before the digits of its
/// absolute value when negative.
pub open spec fn dec_str_int(n: int) -> Seq<char> {
    if n < 0 {
        "-"@ + dec_str_nat((-n) as nat)
    } else {
        dec_str_nat(n as nat)
    }
}

/// How one character appears inside a JSON string: quote, backslash and
/// control characters are escaped, every other character stands as itself.
pub open spec fn esc_char(c: char) -> Seq<char> {
    if c == '"' {
        "\\\""@
    } else if c == '\\' {
        "\\\\"@
    } else if c == '\n' {
        "\\n"@
    } else if c == '\r' {
        "\\r"@
    } else if c == '\t' {
        "\\t"@
    } else if (c as u32) < 0x20 {
        "\\u00"@ + seq![
            hex_digit(((c as u32) as nat) / 16),
            hex_digit(((c as u32) as nat) % 16),
        ]
    } else {
        seq![c]
    }
}

/// The escaped form of a whole character sequence.
pub open spec fn esc_seq(s: Seq<char>) -> Seq<char>
    decreases s.len(),
{
    if s.len() == 0 {
        Seq::<char>::empty()
    } else {
        esc_char(s[0]) + esc_seq(s.drop_first())
    }
}

/// A JSON string literal: the escaped characters between double quotes.
pub open spec fn json_str(s: Seq<char>) -> Seq<char> {
    "\""@ + esc_seq(s) + "\""@
}

/// A nullable text column: `null` when absent, a JSON string otherwise.
pub open spec fn opt_str_json(o: Option<String>) -> Seq<char> {
    match o {
        Option::None => "null"@,
        Option::Some(s) => json_str(s@),
    }
}

/// A nullable integer column: `null` when absent, decimal text otherwise.
pub open spec fn opt_int_json(o: Option<i32>) -> Seq<char> {
    match o {
        Option::None => "null"@,
        Option::Some(n) => dec_str_int(n as int),
    }
}

/// A value with a pinned-down JSON form.
pub trait JsonValue {
    /// The exact JSON text of this value.
    spec fn json(&self) -> Seq<char>;

    /// Append this value's JSON text to `out`.
    fn write_json(&self, out: &mut String)
        ensures
            final(out)@ == old(out)@ + self.json(),
    ;
}

/// The comma-separated items of a JSON array.
pub open spec fn items_json<T: JsonValue>(l: Seq<T>) -> Seq<char>
    decreases l.len(),
{
    if l.len() == 0 {
        Seq::<char>::empty()
    } else if l.len() == 1 {
        l[0].json()
    } else {
        l[0].json() + ","@ + items_json(l.drop_first())
    }
}

/// A JSON array of records: the items between square brackets.
pub open spec fn array_json<T: JsonValue>(l: Seq<T>) -> Seq<char> {
    "["@ + items_json(l) + "]"@
}

/// Appending one item extends an array's item text by a comma (when the
/// array was not empty) and the item's own text.
pub proof fn lemma_items_json_push<T: JsonValue>(l: Seq<T>, x: T)
    ensures
        l.len() == 0 ==> items_json(l.push(x)) == x.json(),
        l.len() > 0 ==> items_json(l.push(x)) == items_json(l) + ","@ + x.json(),
    decreases l.len(),
{
    if l.len() == 0 {
        assert(l.push(x)[0] == x);
    } else {
        lemma_items_json_push(l.drop_first(), x);
        assert(l.push(x).drop_first() =~= l.drop_first().push(x));
        assert(l.push(x)[0] == l[0]);
        assert(items_json(l.push(x)) =~= items_json(l) + ","@ + x.json());
    }
}

/// An empty array of records renders as the two-character text `[]`.
pub proof fn lemma_empty_array_json<T: JsonValue>()
    ensures
        array_json::<T>(Seq::<T>::empty()) == "[]"@,
{
    reveal_strlit("[");
    reveal_strlit("]");
    reveal_strlit("[]");
    assert(array_json::<T>(Seq::<T>::empty()) =~= "[]"@);
}

fn hex_digit_char(d: u8) -> (c: char)
    requires
        d < 16,
    ensures
        c == hex_digit(d as nat),
{
    if d == 0 {
        '0'
    } else if d == 1 {
        '1'
    } else if d == 2 {
        '2'
    } else if d == 3 {
        '3'
    } else if d == 4 {
        '4'
    } else if d == 5 {
        '5'
    } else if d == 6 {
        '6'
    } else if d == 7 {
        '7'
    } else if d == 8 {
        '8'
    } else if d == 9 {
        '9'
    } else if d == 10 {
        'a'
    } else if d == 11 {
        'b'
    } else if d == 12 {
        'c'
    } else if d == 13 {
        'd'
    } else if d == 14 {
        'e'
    } else {
        'f'
    }
}

fn digit_char_of(d: u8) -> (c: char)
    requires
        d < 10,
    ensures
        c == digit_char(d as nat),
{
    if d == 0 {
        '0'
    } else if d == 1 {
        '1'
    } else if d == 2 {
        '2'
    } else if d == 3 {
        '3'
    } else if d == 4 {
        '4'
    } else if d == 5 {
        '5'
    } else if d == 6 {
        '6'
    } else if d == 7 {
        '7'
    } else if d == 8 {
        '8'
    } else {
        '9'
    }
}

fn push_dec_u32(out: &mut String, n: u32)
    ensures
        final(out)@ == old(out)@ + dec_str_nat(n as nat),
    decreases n,
{
    if n < 10 {
        let c = digit_char_of(n as u8);
        out.push(c);
        assert(out@ =~= old(out)@ + dec_str_nat(n as nat));
    } else {
        push_dec_u32(out, n / 10);
        let c = digit_char_of((n % 10) as u8);
        out.push(c);
        assert(out@ =~= old(out)@ + dec_str_nat(n as nat));
    }
}

/// Append the decimal text of `n` to `out`.
pub fn write_i32(out: &mut String, n: i32)
    ensures
        final(out)@ == old(out)@ + dec_str_int(n as int),
{
    if n < 0 {
        out.append("-");
        let m: i64 = n as i64;
        let p: u32 = (-m) as u32;
        push_dec_u32(out, p);
        assert(out@ =~= old(out)@ + dec_str_int(n as int));
    } else {
        push_dec_u32(out, n as u32);
    }
}

fn write_escaped_char(out: &mut String, c: char)
    ensures
        final(out)@ == old(out)@ + esc_char(c),
{
    if c == '"' {
        out.append("\\\"");
    } else if c == '\\' {
        out.append("\\\\");
    } else if c == '\n' {
        out.append("\\n");
    } else if c == '\r' {
        out.append("\\r");
    } else if c == '\t' {
        out.append("\\t");
    } else {
        let x = c as u32;
        if x < 0x20 {
            out.append("\\u00");
            let hi = hex_digit_char((x / 16) as u8);
            let lo = hex_digit_char((x % 16) as u8);
            out.push(hi);
            out.push(lo);
            assert(out@ =~= old(out)@ + esc_char(c));
        } else {
            out.push(c);
            assert(out@ =~= old(out)@ + esc_char(c));
        }
    }
}

/// Extending a sequence by one character extends its escaped form by that
/// character's escape.
proof fn lemma_esc_seq_push(s: Seq<char>, c: char)
    ensures
        esc_seq(s.push(c)) == esc_seq(s) + esc_char(c),
    decreases s.len(),
{
    if s.len() == 0 {
        assert(esc_seq(s.push(c)) =~= esc_seq(s) + esc_char(c)) by {
            reveal_with_fuel(esc_seq, 2);
            assert(s.push(c)[0] == c);
            assert(s.push(c).drop_first() =~= Seq::<char>::empty());
        }
    } else {
        lemma_esc_seq_push(s.drop_first(), c);
        assert(s.push(c)[0] == s[0]);
        assert(s.push(c).drop_first() =~= s.drop_first().push(c));
        assert(esc_seq(s.push(c)) == esc_char(s[0]) + esc_seq(s.drop_first().push(c)));
        assert(esc_seq(s.push(c)) == esc_char(s[0]) + (esc_seq(s.drop_first()) + esc_char(c)));
        assert(esc_char(s[0]) + (esc_seq(s.drop_first()) + esc_char(c)) =~= (esc_char(s[0])
            + esc_seq(s.drop_first())) + esc_char(c));
        assert(esc_seq(s) == esc_char(s[0]) + esc_seq(s.drop_first()));
    }
}

/// Append the JSON string form of `s` (quoted, escaped) to `out`.
pub fn write_json_str(out: &mut String, s: &str)
    ensures
        final(out)@ == old(out)@ + json_str(s@),
{
    let ghost base: Seq<char> = out@;
    out.append("\"");
    let n = s.unicode_len();
    let mut i: usize = 0;
    while i < n
        invariant
            n == s@.len(),
            i <= n,
            out@ == base + "\""@ + esc_seq(s@.subrange(0, i as int)),
        decreases n - i,
    {
        let c = s.get_char(i);
        write_escaped_char(out, c);
        proof {
            lemma_esc_seq_push(s@.subrange(0, i as int), c);
            assert(s@.subrange(0, i as int + 1) =~= s@.subrange(0, i as int).push(c));
            assert(out@ =~= base + "\""@ + esc_seq(s@.subrange(0, i as int + 1)));
        }
        i = i + 1;
    }
    out.append("\"");
    proof {
        assert(s@.subrange(0, s@.len() as int) =~= s@);
        assert(out@ =~= base + json_str(s@));
    }
}

/// Append a nullable text column to `out`: `null` when absent.
pub fn write_opt_str(out: &mut String, o: &Option<String>)
    ensures
        final(out)@ == old(out)@ + opt_str_json(*o),
{
    match o {
        Option::None => {
            out.append("null");
        },
        Option::Some(s) => {
            write_json_str(out, s.as_str());
        },
    }
}

/// Append a nullable integer column to `out`: `null` when absent.
pub fn write_opt_i32(out: &mut String, o: &Option<i32>)
    ensures
        final(out)@ == old(out)@ + opt_int_json(*o),
{
    match o {
        Option::None => {
            out.append("null");
        },
        Option::Some(n) => {
            write_i32(out, *n);
        },
    }
}

impl JsonValue for User {
    open spec fn json(&self) -> Seq<char> {
        "{\"id\":"@ + dec_str_int(self.id as int) + ",\"name\":"@ + json_str(self.name@)
            + ",\"email\":"@ + json_str(self.email@) + ",\"created_at\":"@ + json_str(
            self.created_at@,
        ) + ",\"updated_at\":"@ + json_str(self.updated_at@) + "}"@
    }

    fn write_json(&self, out: &mut String) {
        out.append("{\"id\":");
        write_i32(out, self.id);
        out.append(",\"name\":");
        write_json_str(out, self.name.as_str());
        out.append(",\"email\":");
        write_json_str(out, self.email.as_str());
        out.append(",\"created_at\":");
        write_json_str(out, self.created_at.as_str());
        out.append(",\"updated_at\":");
        write_json_str(out, self.updated_at.as_str());
        out.append("}");
        assert(out@ =~= old(out)@ + self.json());
    }
}

impl JsonValue for Project {
    open spec fn json(&self) -> Seq<char> {
        "{\"id\":"@ + dec_str_int(self.id as int) + ",\"name\":"@ + json_str(self.name@)
            + ",\"description\":"@ + opt_str_json(self.description) + ",\"user_id\":"@
            + dec_str_int(self.user_id as int) + ",\"created_at\":"@ + json_str(self.created_at@)
            + ",\"updated_at\":"@ + json_str(self.updated_at@) + "}"@
    }

    fn write_json(&self, out: &mut String) {
        out.append("{\"id\":");
        write_i32(out, self.id);
        out.append(",\"name\":");
        write_json_str(out, self.name.as_str());
        out.append(",\"description\":");
        write_opt_str(out, &self.description);
        out.append(",\"user_id\":");
        write_i32(out, self.user_id);
        out.append(",\"created_at\":");
        write_json_str(out, self.created_at.as_str());
        out.append(",\"updated_at\":");
        write_json_str(out, self.updated_at.as_str());
        out.append("}");
        assert(out@ =~= old(out)@ + self.json());
    }
}

impl JsonValue for Task {
    open spec fn json(&self) -> Seq<char> {
        "{\"id\":"@ + dec_str_int(self.id as int) + ",\"title\":"@ + json_str(self.title@)
            + ",\"description\":"@ + opt_str_json(self.description) + ",\"status\":"@ + json_str(
            self.status@,
        ) + ",\"project_id\":"@ + dec_str_int(self.project_id as int) + ",\"assigned_user_id\":"@
            + opt_int_json(self.assigned_user_id) + ",\"created_at\":"@ + json_str(
            self.created_at@,
        ) + ",\"updated_at\":"@ + json_str(self.updated_at@) + "}"@
    }

    fn write_json(&self, out: &mut String) {
        out.append("{\"id\":");
        write_i32(out, self.id);
        out.append(",\"title\":");
        write_json_str(out, self.title.as_str());
        out.append(",\"description\":");
        write_opt_str(out, &self.description);
        out.append(",\"status\":");
        write_json_str(out, self.status.as_str());
        out.append(",\"project_id\":");
        write_i32(out, self.project_id);
        out.append(",\"assigned_user_id\":");
        write_opt_i32(out, &self.assigned_user_id);
        out.append(",\"created_at\":");
        write_json_str(out, self.created_at.as_str());
        out.append(",\"updated_at\":");
        write_json_str(out, self.updated_at.as_str());
        out.append("}");
        assert(out@ =~= old(out)@ + self.json());
    }
}

/// Render a list of records as one JSON array, exactly `array_json` of it.
pub fn array_json_body<T: JsonValue>(v: &Vec<T>) -> (r: String)
    ensures
        r@ == array_json(v@),
{
    let mut out = String::new();
    out.append("[");
    let mut i: usize = 0;
    while i < v.len()
        invariant
            i <= v@.len(),
            out@ == "["@ + items_json(v@.subrange(0, i as int)),
        decreases v@.len() - i,
    {
        if i > 0 {
            out.append(",");
        }
        v[i].write_json(&mut out);
        proof {
            lemma_items_json_push(v@.subrange(0, i as int), v@[i as int]);
            assert(v@.subrange(0, i as int + 1) =~= v@.subrange(0, i as int).push(v@[i as int]));
            assert(out@ =~= "["@ + items_json(v@.subrange(0, i as int + 1)));
        }
        i = i + 1;
    }
    out.append("]");
    proof {
        assert(v@.subrange(0, v@.len() as int) =~= v@);
        assert(out@ =~= array_json(v@));
    }
    out
}

/// A nullable column renders as the four-character text `null` exactly when
/// it is absent, and as its value's own JSON text otherwise.
pub proof fn lemma_nullable_null(s: Option<String>, n: Option<i32>)
    ensures
        s is None ==> opt_str_json(s) == "null"@,
        s is Some ==> opt_str_json(s) == json_str(s->0@),
        n is None ==> opt_int_json(n) == "null"@,
        n is Some ==> opt_int_json(n) == dec_str_int(n->0 as int),
{
}

} // verus!
