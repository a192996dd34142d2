//! An ordered list of HTTP header fields in which a name occurs at most once:
//! setting a name again replaces the earlier field ("last write wins") and
//! moves it to the end. Names are compared without regard to ASCII case, as
//! HTTP compares them; each field keeps its name as last written.
use vstd::prelude::*;

use crate::json::opt_text;

verus! {

pub open spec fn lower_char(c: char) -> char {
    if 'A' <= c && c <= 'Z' {
        seq![
            'a', 'b', 'c', 'd', 'e', 'f', 'g', 'h', 'i', 'j', 'k', 'l', 'm',
            'n', 'o', 'p', 'q', 'r', 's', 't', 'u', 'v', 'w', 'x', 'y', 'z',
        ][(c as u32 - 'A' as u32) as int]
    } else {
        c
    }
}

/// `s` with each ASCII upper-case letter replaced by its lower-case form.
pub open spec fn lower_ascii(s: Seq<char>) -> Seq<char> {
    s.map_values(|c: char| lower_char(c))
}

/// Two header names are the same name.
pub open spec fn same_name(a: Seq<char>, b: Seq<char>) -> bool {
    lower_ascii(a) == lower_ascii(b)
}

/// Relies on std's `str::to_ascii_lowercase`: ASCII letters 'A' to 'Z' become
/// 'a' to 'z'; every other character is kept.
#[verifier::external_body]
fn ascii_lowercase(s: &str) -> (r: String)
    ensures
        r@ == lower_ascii(s@),
{
    s.to_ascii_lowercase()
}

/// The view of one stored field: its name and its value.
pub open spec fn field_view(e: (String, String)) -> (Seq<char>, Seq<char>) {
    (e.0@, e.1@)
}

/// The fields of `hs` whose name is not the same name as `name`, in their order.
pub open spec fn without(hs: Seq<(Seq<char>, Seq<char>)>, name: Seq<char>) -> Seq<
    (Seq<char>, Seq<char>),
>
    decreases hs.len(),
{
    if hs.len() == 0 {
        hs
    } else {
        let rest = without(hs.drop_last(), name);
        if same_name(hs.last().0, name) {
            rest
        } else {
            rest.push(hs.last())
        }
    }
}

/// `hs` after the field `name: value` is set.
pub open spec fn with_header(
    hs: Seq<(Seq<char>, Seq<char>)>,
    name: Seq<char>,
    value: Seq<char>,
) -> Seq<(Seq<char>, Seq<char>)> {
    without(hs, name).push((name, value))
}

/// The value of the last field with the same name as `name`.
pub open spec fn header_value(hs: Seq<(Seq<char>, Seq<char>)>, name: Seq<char>) -> Option<
    Seq<char>,
>
    decreases hs.len(),
{
    if hs.len() == 0 {
        None
    } else if same_name(hs.last().0, name) {
        Some(hs.last().1)
    } else {
        header_value(hs.drop_last(), name)
    }
}

pub struct HeaderList {
    entries: Vec<(String, String)>,
}

impl View for HeaderList {
    type V = Seq<(Seq<char>, Seq<char>)>;

    closed spec fn view(&self) -> Seq<(Seq<char>, Seq<char>)> {
        self.entries@.map_values(|e: (String, String)| field_view(e))
    }
}

/// Removing the fields named `name` leaves every other name's value alone.
proof fn lemma_without_keeps_others(
    hs: Seq<(Seq<char>, Seq<char>)>,
    name: Seq<char>,
    other: Seq<char>,
)
    requires
        !same_name(other, name),
    ensures
        header_value(without(hs, name), other) == header_value(hs, other),
    decreases hs.len(),
{
    if hs.len() > 0 {
        lemma_without_keeps_others(hs.drop_last(), name, other);
        let rest = without(hs.drop_last(), name);
        if !same_name(hs.last().0, name) {
            assert(rest.push(hs.last()).drop_last() =~= rest);
        }
    }
}

/// Last write wins: after `name` is set to `value`, looking up `name`, in any
/// ASCII case, gives `value`, and every other name gives what it gave before.
pub proof fn lemma_set_then_get(
    hs: Seq<(Seq<char>, Seq<char>)>,
    name: Seq<char>,
    value: Seq<char>,
    other: Seq<char>,
)
    ensures
        same_name(other, name) ==> header_value(with_header(hs, name, value), other) == Some(
            value,
        ),
        !same_name(other, name) ==> header_value(with_header(hs, name, value), other) == header_value(
            hs,
            other,
        ),
{
    let w = without(hs, name);
    assert(w.push((name, value)).drop_last() =~= w);
    if !same_name(other, name) {
        lemma_without_keeps_others(hs, name, other);
    }
}

impl HeaderList {
    /// An empty list.
    pub fn new() -> (r: HeaderList)
        ensures
            r@ == Seq::<(Seq<char>, Seq<char>)>::empty(),
    {
        let r = HeaderList { entries: Vec::new() };
        assert(r@ =~= Seq::<(Seq<char>, Seq<char>)>::empty());
        r
    }

    /// Sets the field `name` to `value`, replacing an earlier field of the same
    /// name in any ASCII case.
    pub fn set(&mut self, name: &str, value: &str)
        ensures
            final(self)@ == with_header(old(self)@, name@, value@),
    {
        let ghost hs = self@;
        let wanted = ascii_lowercase(name);
        let mut out: Vec<(String, String)> = Vec::new();
        let n = self.entries.len();
        let mut i: usize = 0;
        assert(hs.subrange(0, 0) =~= Seq::<(Seq<char>, Seq<char>)>::empty());
        assert(out@.map_values(|e: (String, String)| field_view(e)) =~= Seq::<
            (Seq<char>, Seq<char>),
        >::empty());
        while i < n
            invariant
                n == self.entries@.len(),
                i <= n,
                hs == self@,
                wanted@ == lower_ascii(name@),
                out@.map_values(|e: (String, String)| field_view(e)) == without(
                    hs.subrange(0, i as int),
                    name@,
                ),
            decreases n - i,
        {
            assert(hs.subrange(0, i + 1).drop_last() =~= hs.subrange(0, i as int));
            assert(hs[i as int] == field_view(self.entries@[i as int]));
            if !(ascii_lowercase(self.entries[i].0.as_str()) == wanted) {
                let e = (self.entries[i].0.clone(), self.entries[i].1.clone());
                let ghost before = out@;
                out.push(e);
                assert(out@.map_values(|e: (String, String)| field_view(e)) =~= before.map_values(
                    |e: (String, String)| field_view(e),
                ).push(field_view(e)));
            }
            i = i + 1;
        }
        assert(hs.subrange(0, n as int) =~= hs);
        let ghost before = out@;
        let e = (name.to_owned(), value.to_owned());
        out.push(e);
        assert(out@.map_values(|e: (String, String)| field_view(e)) =~= before.map_values(
            |e: (String, String)| field_view(e),
        ).push(field_view(e)));
        self.entries = out;
    }

    /// The value of the field `name`, in any ASCII case, when there is one.
    pub fn get(&self, name: &str) -> (r: Option<String>)
        ensures
            opt_text(r) == header_value(self@, name@),
    {
        let ghost hs = self@;
        let wanted = ascii_lowercase(name);
        let mut i: usize = self.entries.len();
        assert(hs.subrange(0, i as int) =~= hs);
        while i > 0
            invariant
                i <= self.entries@.len(),
                hs == self@,
                wanted@ == lower_ascii(name@),
                header_value(hs, name@) == header_value(hs.subrange(0, i as int), name@),
            decreases i,
        {
            assert(hs.subrange(0, i as int).drop_last() =~= hs.subrange(0, i - 1));
            assert(hs[i - 1] == field_view(self.entries@[i - 1]));
            if ascii_lowercase(self.entries[i - 1].0.as_str()) == wanted {
                return Some(self.entries[i - 1].1.clone());
            }
            i = i - 1;
        }
        None
    }

    /// The number of fields.
    pub fn len(&self) -> (r: usize)
        ensures
            r == self@.len(),
    {
        self.entries.len()
    }

    /// The name and value of the field at position `i`.
    pub fn entry(&self, i: usize) -> (r: (&str, &str))
        requires
            i < self@.len(),
        ensures
            r.0@ == self@[i as int].0,
            r.1@ == self@[i as int].1,
    {
        let e = &self.entries[i];
        (e.0.as_str(), e.1.as_str())
    }
}

} // verus!
