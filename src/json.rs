//! The JSON wire text: what each value becomes, and the writers that build it.
use vstd::prelude::*;

verus! {

/// One key of an object with its encoded value, or `None` when the field is unset.
pub type Entry = (Seq<char>, Option<Seq<char>>);

/// A key of an object with its encoded value.
pub type Member = (Seq<char>, Seq<char>);

/// Lower-case hexadecimal digits; the first ten are the decimal digits.
pub open spec fn digit_char(d: nat) -> char {
    "0123456789abcdef"@[d as int]
}

/// The JSON escape of one character: quote, backslash and the control characters
/// below U+0020 are escaped, every other character stands for itself.
pub open spec fn escape_char(c: char) -> Seq<char> {
    if c == '"' {
        seq!['\\', '"']
    } else if c == '\\' {
        seq!['\\', '\\']
    } else if c == '\u{8}' {
        seq!['\\', 'b']
    } else if c == '\t' {
        seq!['\\', 't']
    } else if c == '\n' {
        seq!['\\', 'n']
    } else if c == '\u{c}' {
        seq!['\\', 'f']
    } else if c == '\r' {
        seq!['\\', 'r']
    } else if (c as u32) < 0x20 {
        seq![
            '\\',
            'u',
            '0',
            '0',
            digit_char((c as u32 / 16) as nat),
            digit_char((c as u32 % 16) as nat),
        ]
    } else {
        seq![c]
    }
}

pub open spec fn escaped(s: Seq<char>) -> Seq<char>
    decreases s.len(),
{
    if s.len() == 0 {
        seq![]
    } else {
        escaped(s.drop_last()) + escape_char(s.last())
    }
}

/// A JSON string literal holding `s`.
pub open spec fn quoted(s: Seq<char>) -> Seq<char> {
    seq!['"'] + escaped(s) + seq!['"']
}

/// The items separated by commas.
pub open spec fn joined(items: Seq<Seq<char>>) -> Seq<char>
    decreases items.len(),
{
    if items.len() == 0 {
        seq![]
    } else if items.len() == 1 {
        items[0]
    } else {
        joined(items.drop_last()) + seq![','] + items.last()
    }
}

/// A JSON array of already encoded items.
pub open spec fn array(items: Seq<Seq<char>>) -> Seq<char> {
    seq!['['] + joined(items) + seq![']']
}

pub open spec fn member_text(m: Member) -> Seq<char> {
    quoted(m.0) + seq![':'] + m.1
}

/// The members whose value is set, in the order of the entries.
pub open spec fn present(entries: Seq<Entry>) -> Seq<Member>
    decreases entries.len(),
{
    if entries.len() == 0 {
        seq![]
    } else {
        let rest = present(entries.drop_last());
        match entries.last().1 {
            Some(v) => rest.push((entries.last().0, v)),
            None => rest,
        }
    }
}

pub open spec fn keys(members: Seq<Member>) -> Seq<Seq<char>> {
    members.map_values(|m: Member| m.0)
}

/// A field left unset leaves no member behind: where every entry with key `k` is
/// unset, `k` is not among the keys of the object's members.
pub proof fn lemma_unset_key_absent(entries: Seq<Entry>, k: Seq<char>)
    requires
        forall|i: int|
            0 <= i < entries.len() && #[trigger] entries[i].0 == k ==> entries[i].1 is None,
    ensures
        !keys(present(entries)).contains(k),
    decreases entries.len(),
{
    if entries.len() > 0 {
        let init = entries.drop_last();
        assert forall|i: int|
            0 <= i < init.len() && #[trigger] init[i].0 == k implies init[i].1 is None by {
            assert(init[i] == entries[i]);
        }
        lemma_unset_key_absent(init, k);
        let rest = present(init);
        let last = entries.last();
        assert(last == entries[entries.len() - 1]);
        if let Some(v) = last.1 {
            assert(keys(rest.push((last.0, v))) =~= keys(rest).push(last.0));
        }
    }
}

/// A field that is set yields a member with its key and value.
pub proof fn lemma_set_field_present(entries: Seq<Entry>, i: int, v: Seq<char>)
    requires
        0 <= i < entries.len(),
        entries[i].1 == Some(v),
    ensures
        present(entries).contains((entries[i].0, v)),
    decreases entries.len(),
{
    let init = entries.drop_last();
    if i < entries.len() - 1 {
        assert(init[i] == entries[i]);
        lemma_set_field_present(init, i, v);
        let rest = present(init);
        let w = choose|j: int| 0 <= j < rest.len() && rest[j] == (entries[i].0, v);
        match entries.last().1 {
            Some(x) => assert(rest.push((entries.last().0, x))[w] == rest[w]),
            None => {},
        }
    } else {
        let rest = present(init);
        assert(present(entries) == rest.push((entries[i].0, v)));
        assert(present(entries)[rest.len() as int] == (entries[i].0, v));
    }
}

/// A JSON object with one member per set entry; unset entries leave no trace.
pub open spec fn object(entries: Seq<Entry>) -> Seq<char> {
    seq!['{'] + joined(present(entries).map_values(|m: Member| member_text(m))) + seq!['}']
}

pub open spec fn bool_text(b: bool) -> Seq<char> {
    if b {
        seq!['t', 'r', 'u', 'e']
    } else {
        seq!['f', 'a', 'l', 's', 'e']
    }
}

/// The decimal digits of `n`, without leading zeros.
pub open spec fn decimal(n: nat) -> Seq<char>
    decreases n,
{
    if n < 10 {
        seq![digit_char(n)]
    } else {
        decimal(n / 10).push(digit_char(n % 10))
    }
}

/// A value with a JSON wire form.
pub trait ToJson {
    spec fn json(&self) -> Seq<char>;

    fn to_json(&self) -> (r: String)
        ensures
            r@ == self.json(),
    ;
}

/// Relies on `String::push`: appends the character to the end of the string.
#[verifier::external_body]
fn push_char(s: &mut String, c: char)
    ensures
        final(s)@ == old(s)@.push(c),
{
    s.push(c)
}

proof fn lemma_digits()
    ensures
        "0123456789abcdef"@.len() == 16,
{
    reveal_strlit("0123456789abcdef");
}

fn digit(d: u32) -> (c: char)
    requires
        d < 16,
    ensures
        c == digit_char(d as nat),
{
    let digits = "0123456789abcdef";
    proof {
        lemma_digits();
    }
    digits.get_char(d as usize)
}

fn push_escaped(out: &mut String, c: char)
    ensures
        final(out)@ == old(out)@ + escape_char(c),
{
    let ghost start = out@;
    if c == '"' {
        push_char(out, '\\');
        push_char(out, '"');
    } else if c == '\\' {
        push_char(out, '\\');
        push_char(out, '\\');
    } else if c == '\u{8}' {
        push_char(out, '\\');
        push_char(out, 'b');
    } else if c == '\t' {
        push_char(out, '\\');
        push_char(out, 't');
    } else if c == '\n' {
        push_char(out, '\\');
        push_char(out, 'n');
    } else if c == '\u{c}' {
        push_char(out, '\\');
        push_char(out, 'f');
    } else if c == '\r' {
        push_char(out, '\\');
        push_char(out, 'r');
    } else if (c as u32) < 0x20 {
        push_char(out, '\\');
        push_char(out, 'u');
        push_char(out, '0');
        push_char(out, '0');
        let hi = digit(c as u32 / 16);
        push_char(out, hi);
        let lo = digit(c as u32 % 16);
        push_char(out, lo);
    } else {
        push_char(out, c);
    }
    assert(out@ =~= start + escape_char(c));
}

/// Appends `s` as a JSON string literal.
pub fn push_quoted(out: &mut String, s: &str)
    ensures
        final(out)@ == old(out)@ + quoted(s@),
{
    let ghost start = out@;
    push_char(out, '"');
    for c in it: s.chars()
        invariant
            it.seq() == s@,
            out@ == start + seq!['"'] + escaped(s@.take(it.index())),
    {
        let ghost before = s@.take(it.index());
        push_escaped(out, c);
        assert(s@.take(it.index() + 1).drop_last() =~= before);
    }
    assert(s@.take(s@.len() as int) =~= s@);
    push_char(out, '"');
    assert(out@ =~= start + quoted(s@));
}

/// The JSON string literal holding `s`.
pub fn quote(s: &str) -> (r: String)
    ensures
        r@ == quoted(s@),
{
    let mut out = String::new();
    push_quoted(&mut out, s);
    assert(out@ =~= quoted(s@));
    out
}

fn push_decimal(out: &mut String, n: u32)
    ensures
        final(out)@ == old(out)@ + decimal(n as nat),
    decreases n,
{
    let ghost start = out@;
    if n >= 10 {
        push_decimal(out, n / 10);
    }
    let d = digit(n % 10);
    push_char(out, d);
    assert(out@ =~= start + decimal(n as nat));
}

proof fn lemma_joined_push(items: Seq<Seq<char>>, x: Seq<char>)
    ensures
        joined(items.push(x)) == if items.len() == 0 {
            x
        } else {
            joined(items) + seq![','] + x
        },
{
    assert(items.push(x).drop_last() =~= items);
}

impl ToJson for String {
    open spec fn json(&self) -> Seq<char> {
        quoted(self@)
    }

    fn to_json(&self) -> (r: String) {
        quote(self.as_str())
    }
}

impl ToJson for bool {
    open spec fn json(&self) -> Seq<char> {
        bool_text(*self)
    }

    fn to_json(&self) -> (r: String) {
        let mut out = String::new();
        if *self {
            push_char(&mut out, 't');
            push_char(&mut out, 'r');
            push_char(&mut out, 'u');
            push_char(&mut out, 'e');
        } else {
            push_char(&mut out, 'f');
            push_char(&mut out, 'a');
            push_char(&mut out, 'l');
            push_char(&mut out, 's');
            push_char(&mut out, 'e');
        }
        assert(out@ =~= bool_text(*self));
        out
    }
}

impl ToJson for u32 {
    open spec fn json(&self) -> Seq<char> {
        decimal(*self as nat)
    }

    fn to_json(&self) -> (r: String) {
        let mut out = String::new();
        push_decimal(&mut out, *self);
        assert(out@ =~= decimal(*self as nat));
        out
    }
}

pub open spec fn item_texts<T: ToJson>(items: Seq<T>) -> Seq<Seq<char>> {
    items.map_values(|x: T| x.json())
}

impl<T: ToJson> ToJson for Vec<T> {
    open spec fn json(&self) -> Seq<char> {
        array(item_texts(self@))
    }

    fn to_json(&self) -> (r: String) {
        let mut out = String::new();
        push_char(&mut out, '[');
        for i in 0..self.len()
            invariant
                out@ == seq!['['] + joined(item_texts(self@.take(i as int))),
        {
            let ghost before = item_texts(self@.take(i as int));
            let item = self[i].to_json();
            if i > 0 {
                push_char(&mut out, ',');
            }
            out.append(item.as_str());
            proof {
                lemma_joined_push(before, item@);
                assert(item_texts(self@.take(i + 1)) =~= before.push(item@));
            }
        }
        push_char(&mut out, ']');
        assert(self@.take(self.len() as int) =~= self@);
        assert(out@ =~= array(item_texts(self@)));
        out
    }
}

/// The encoded value of an optional field.
pub open spec fn opt_json<T: ToJson>(v: Option<T>) -> Option<Seq<char>> {
    match v {
        Some(x) => Some(x.json()),
        None => None,
    }
}

pub fn opt_to_json<T: ToJson>(v: &Option<T>) -> (r: Option<String>)
    ensures
        r.deep_view() == opt_json(*v),
{
    match v {
        Some(x) => Some(x.to_json()),
        None => None,
    }
}

/// Builds a JSON object one entry at a time.
pub struct ObjectWriter {
    buf: String,
    empty: bool,
    entries: Ghost<Seq<Entry>>,
}

impl ObjectWriter {
    pub closed spec fn entries(&self) -> Seq<Entry> {
        self.entries@
    }

    pub closed spec fn wf(&self) -> bool {
        &&& self.buf@ == seq!['{'] + joined(
            present(self.entries@).map_values(|m: Member| member_text(m)),
        )
        &&& self.empty == (present(self.entries@).len() == 0)
    }

    pub fn new() -> (w: ObjectWriter)
        ensures
            w.wf(),
            w.entries() == Seq::<Entry>::empty(),
    {
        let mut buf = String::new();
        push_char(&mut buf, '{');
        let w = ObjectWriter { buf, empty: true, entries: Ghost(Seq::empty()) };
        assert(w.buf@ =~= seq!['{']);
        w
    }

    fn push_member(&mut self, key: &str, value: &str)
        requires
            old(self).wf(),
        ensures
            final(self).wf(),
            final(self).entries() == old(self).entries().push((key@, Some(value@))),
    {
        let ghost before = present(self.entries@).map_values(|m: Member| member_text(m));
        if !self.empty {
            push_char(&mut self.buf, ',');
        }
        push_quoted(&mut self.buf, key);
        push_char(&mut self.buf, ':');
        self.buf.append(value);
        let ghost old_entries = self.entries@;
        self.entries = Ghost(self.entries@.push((key@, Some(value@))));
        self.empty = false;
        proof {
            let e = self.entries@;
            assert(e.drop_last() =~= old_entries);
            assert(present(e) == present(old_entries).push((key@, value@)));
            let m: Member = (key@, value@);
            assert(present(e).map_values(|m: Member| member_text(m)) =~= before.push(
                member_text(m),
            ));
            lemma_joined_push(before, member_text(m));
            assert(before.len() == present(old_entries).len());
            assert(self.buf@ =~= seq!['{'] + joined(before.push(member_text(m))));
        }
    }

    /// Adds a member that is always present.
    pub fn field(&mut self, key: &str, value: String)
        requires
            old(self).wf(),
        ensures
            final(self).wf(),
            final(self).entries() == old(self).entries().push((key@, Some(value@))),
    {
        self.push_member(key, value.as_str());
    }

    /// Adds a member when `value` is set, and nothing otherwise.
    pub fn optional(&mut self, key: &str, value: Option<String>)
        requires
            old(self).wf(),
        ensures
            final(self).wf(),
            final(self).entries() == old(self).entries().push((key@, value.deep_view())),
    {
        match value {
            Some(v) => self.push_member(key, v.as_str()),
            None => {
                let ghost old_entries = self.entries@;
                self.entries = Ghost(self.entries@.push((key@, None)));
                assert(self.entries@.drop_last() =~= old_entries);
            },
        }
    }

    pub fn finish(self) -> (r: String)
        requires
            self.wf(),
        ensures
            r@ == object(self.entries()),
    {
        let mut buf = self.buf;
        push_char(&mut buf, '}');
        buf
    }
}

} // verus!
