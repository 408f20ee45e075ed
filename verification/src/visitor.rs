//! Folding a structured event's fields into one deterministic message.
//!
//! The surrounding event framework visits an event field by field. The field
//! named `message` becomes the primary message; every other field is kept in
//! order and rendered after it as a comma-separated `key=value` list wrapped
//! in braces. Formatting only ever happens after the level filter passed.
use vstd::prelude::*;
use vstd::string::StringExecFns;
use crate::fmt::{bool_text, bool_to_string, dec_digits, dec_int, i64_to_string, u64_to_string};

verus! {

/// The character sequences behind a recorded field list.
pub open spec fn field_views(fields: Seq<(String, String)>) -> Seq<(Seq<char>, Seq<char>)> {
    fields.map_values(|p: (String, String)| (p.0@, p.1@))
}

/// Fields rendered as `key=value`, comma-separated, in recording order.
pub open spec fn render_fields(fields: Seq<(Seq<char>, Seq<char>)>) -> Seq<char>
    decreases fields.len(),
{
    if fields.len() == 0 {
        Seq::empty()
    } else if fields.len() == 1 {
        fields[0].0 + "="@ + fields[0].1
    } else {
        render_fields(fields.drop_last()) + ", "@ + fields.last().0 + "="@ + fields.last().1
    }
}

/// The finished message: the primary message, then — when any other fields
/// exist — the rendered field list in braces, separated from a non-empty
/// message by one space.
pub open spec fn render_event(
    message: Option<Seq<char>>,
    fields: Seq<(Seq<char>, Seq<char>)>,
) -> Seq<char> {
    let base = match message {
        Some(m) => m,
        None => Seq::<char>::empty(),
    };
    if fields.len() == 0 {
        base
    } else if base.len() == 0 {
        "{"@ + render_fields(fields) + "}"@
    } else {
        base + " {"@ + render_fields(fields) + "}"@
    }
}

/// Whether two strings hold the same characters.
fn str_eq(a: &str, b: &str) -> (r: bool)
    ensures
        r == (a@ == b@),
{
    let owned_a = a.to_owned();
    let owned_b = b.to_owned();
    owned_a.eq(&owned_b)
}

/// Collects the fields of one structured event.
#[derive(Debug)]
pub struct EventVisitor {
    /// The event's primary message, once a field named `message` arrives.
    pub message: Option<String>,
    /// Every other field, in recording order.
    pub fields: Vec<(String, String)>,
}

impl EventVisitor {
    /// The primary message's characters, when one was recorded.
    pub open spec fn message_view(self) -> Option<Seq<char>> {
        match self.message {
            Some(m) => Some(m@),
            None => None,
        }
    }

    /// A visitor that has seen nothing yet.
    pub fn new() -> (r: EventVisitor)
        ensures
            r.message is None,
            r.fields@.len() == 0,
    {
        EventVisitor { message: None, fields: Vec::new() }
    }

    /// Record one field's rendered value. The field named `message` becomes
    /// the primary message; any other field is appended to the list.
    pub fn record_field(&mut self, name: &str, value: String)
        ensures
            name@ == "message"@ ==> final(self).message == Some(value) && final(self).fields
                == old(self).fields,
            name@ != "message"@ ==> final(self).message == old(self).message && field_views(
                final(self).fields@,
            ) == field_views(old(self).fields@).push((name@, value@)),
    {
        if str_eq(name, "message") {
            self.message = Some(value);
        } else {
            let ghost before = field_views(self.fields@);
            self.fields.push((name.to_owned(), value));
            proof {
                assert(field_views(self.fields@) =~= before.push((name@, value@)));
            }
        }
    }

    /// Record a boolean field.
    pub fn record_bool(&mut self, name: &str, value: bool)
        ensures
            name@ == "message"@ ==> (final(self).message matches Some(m) && m@ == bool_text(value)
                && final(self).fields == old(self).fields),
            name@ != "message"@ ==> final(self).message == old(self).message && field_views(
                final(self).fields@,
            ) == field_views(old(self).fields@).push((name@, bool_text(value))),
    {
        self.record_field(name, bool_to_string(value));
    }

    /// Record a signed integer field.
    pub fn record_i64(&mut self, name: &str, value: i64)
        ensures
            name@ == "message"@ ==> (final(self).message matches Some(m) && m@ == dec_int(
                value as int,
            ) && final(self).fields == old(self).fields),
            name@ != "message"@ ==> final(self).message == old(self).message && field_views(
                final(self).fields@,
            ) == field_views(old(self).fields@).push((name@, dec_int(value as int))),
    {
        self.record_field(name, i64_to_string(value));
    }

    /// Record an unsigned integer field.
    pub fn record_u64(&mut self, name: &str, value: u64)
        ensures
            name@ == "message"@ ==> (final(self).message matches Some(m) && m@ == dec_digits(
                value as nat,
            ) && final(self).fields == old(self).fields),
            name@ != "message"@ ==> final(self).message == old(self).message && field_views(
                final(self).fields@,
            ) == field_views(old(self).fields@).push((name@, dec_digits(value as nat))),
    {
        self.record_field(name, u64_to_string(value));
    }

    /// Record a string field.
    pub fn record_str(&mut self, name: &str, value: &str)
        ensures
            name@ == "message"@ ==> (final(self).message matches Some(m) && m@ == value@
                && final(self).fields == old(self).fields),
            name@ != "message"@ ==> final(self).message == old(self).message && field_views(
                final(self).fields@,
            ) == field_views(old(self).fields@).push((name@, value@)),
    {
        self.record_field(name, value.to_owned());
    }

    /// Render everything recorded into the one message handed to the write
    /// path.
    pub fn finish(self) -> (r: String)
        ensures
            r@ == render_event(self.message_view(), field_views(self.fields@)),
    {
        let ghost views = field_views(self.fields@);
        let mut output = String::new();
        match &self.message {
            Some(m) => output.append(m.as_str()),
            None => {},
        }
        if self.fields.len() == 0 {
            proof {
                assert(output@ =~= render_event(self.message_view(), views));
            }
            return output;
        }
        if output.as_str().is_empty() {
            output.append("{");
        } else {
            output.append(" {");
        }
        let ghost header = output@;
        let n = self.fields.len();
        let mut idx: usize = 0;
        while idx < n
            invariant
                idx <= n,
                n == self.fields@.len(),
                views == field_views(self.fields@),
                views.len() == n,
                output@ == header + render_fields(views.subrange(0, idx as int)),
            decreases n - idx,
        {
            let ghost pre0 = views.subrange(0, idx as int);
            let ghost pre1 = views.subrange(0, (idx + 1) as int);
            proof {
                assert(pre1.drop_last() =~= pre0);
                assert(pre1.last() == views[idx as int]);
                assert(views[idx as int] == (self.fields@[idx as int].0@,
                self.fields@[idx as int].1@));
            }
            if idx > 0 {
                output.append(", ");
            }
            output.append(self.fields[idx].0.as_str());
            output.append("=");
            output.append(self.fields[idx].1.as_str());
            proof {
                if idx == 0 {
                    assert(pre1.len() == 1);
                    assert(output@ =~= header + render_fields(pre1));
                } else {
                    assert(output@ =~= header + render_fields(pre1));
                }
            }
            idx = idx + 1;
        }
        output.append("}");
        proof {
            assert(views.subrange(0, n as int) =~= views);
            assert(output@ =~= render_event(self.message_view(), views));
        }
        output
    }
}

} // verus!
