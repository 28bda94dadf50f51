//! The audit log: who may read it, its loading state, and how its entries
//! are shown (pretty-printed content, readable timestamps).

use vstd::prelude::*;

use crate::listing::{first_where, lemma_first_where_prefix};
use crate::permissions::{has_audit_access, holds_named};
use crate::text::{to_string, trim, trim_str};
use crate::types::{AuditEvent, AuthSession};

verus! {

/// The pretty-printed form of JSON text (as `serde_json` prints a parsed
/// value), or `None` when the text is not JSON.
pub uninterp spec fn pretty_json(text: Seq<char>) -> Option<Seq<char>>;

/// Parses `text` as a `serde_json::Value` with `serde_json::from_str` and
/// prints it again with `serde_json::to_string_pretty`. Claimed: the
/// outcome depends on the text alone, and is `None` exactly when one of
/// the two calls fails.
#[verifier::external_body]
fn json_pretty(text: &str) -> (r: Option<String>)
    ensures
        match r {
            Some(s) => pretty_json(text@) == Some(s@),
            None => pretty_json(text@) is None,
        },
{
    match serde_json::from_str::<serde_json::Value>(text) {
        Ok(value) => serde_json::to_string_pretty(&value).ok(),
        Err(_) => None,
    }
}

/// The content shown for an audit entry: its pretty form when there is
/// one, else the content as it came.
pub open spec fn shown_content(content: Seq<char>, pretty: Option<Seq<char>>) -> Seq<char> {
    match pretty {
        Some(p) => p,
        None => content,
    }
}

/// Chooses the shown content once the pretty form is known.
pub fn audit_content_text(content: &str, pretty: Option<String>) -> (r: String)
    ensures
        r@ == shown_content(
            content@,
            match pretty {
                Some(p) => Some(p@),
                None => None,
            },
        ),
{
    match pretty {
        Some(p) => p,
        None => content.to_owned(),
    }
}

/// The content of an audit entry, pretty-printed when it is JSON.
pub fn format_audit_content(content: &str) -> (r: String)
    ensures
        r@ == shown_content(content@, pretty_json(content@)),
{
    let pretty = json_pretty(content);
    audit_content_text(content, pretty)
}

/// `s` without the copies of `c` it ends with.
pub open spec fn strip_trailing(s: Seq<char>, c: char) -> Seq<char>
    decreases s.len(),
{
    if s.len() > 0 && s.last() == c {
        strip_trailing(s.drop_last(), c)
    } else {
        s
    }
}

/// Holds of the character `c`.
pub open spec fn is_char(c: char) -> spec_fn(char) -> bool {
    |x: char| x == c
}

/// The part of `s` before its first `c`, or all of `s`.
pub open spec fn before_first(s: Seq<char>, c: char) -> Seq<char> {
    let k = first_where(s, is_char(c));
    if k >= 0 {
        s.take(k)
    } else {
        s
    }
}

/// `s` with every `a` replaced by `b`.
pub open spec fn replace_char(s: Seq<char>, a: char, b: char) -> Seq<char> {
    s.map_values(|x: char| if x == a { b } else { x })
}

/// A timestamp as shown: trimmed, without the trailing `Z` and the
/// fraction of a second, with a space between date and time.
pub open spec fn shown_timestamp(created_at: Seq<char>) -> Seq<char> {
    let t = trim(created_at);
    if t.len() == 0 {
        Seq::empty()
    } else {
        replace_char(before_first(strip_trailing(t, 'Z'), '.'), 'T', ' ')
    }
}

/// Formats the creation time of an audit entry, such as
/// `2024-05-01T10:20:30.123Z`, as `2024-05-01 10:20:30`.
pub fn format_audit_created_at(created_at: &str) -> (r: String)
    ensures
        r@ == shown_timestamp(created_at@),
{
    let t = trim_str(created_at);
    if t.len() == 0 {
        return String::new();
    }
    // Drop the trailing `Z`s.
    let mut end: usize = t.len();
    assert(t@.take(end as int) =~= t@);
    while end > 0 && t[end - 1] == 'Z'
        invariant
            end <= t@.len(),
            strip_trailing(t@.take(end as int), 'Z') == strip_trailing(t@, 'Z'),
        decreases end,
    {
        assert(t@.take(end as int).drop_last() =~= t@.take(end as int - 1));
        end = end - 1;
    }
    let ghost stripped = t@.take(end as int);
    assert(strip_trailing(stripped, 'Z') == stripped);
    // Keep what comes before the first `.`.
    let ghost p = is_char('.');
    let mut cut: usize = 0;
    while cut < end && t[cut] != '.'
        invariant
            cut <= end <= t@.len(),
            stripped == t@.take(end as int),
            p == is_char('.'),
            first_where(stripped.take(cut as int), p) == -1,
        decreases end - cut,
    {
        assert(stripped.take(cut as int + 1).drop_last() =~= stripped.take(cut as int));
        cut = cut + 1;
    }
    if cut < end {
        assert(stripped.take(cut as int + 1).drop_last() =~= stripped.take(cut as int));
        proof {
            lemma_first_where_prefix(stripped, p, cut as int, stripped.len() as int);
            assert(stripped.take(stripped.len() as int) =~= stripped);
        }
    } else {
        assert(stripped.take(cut as int) =~= stripped);
    }
    let ghost kept = before_first(stripped, '.');
    assert(kept =~= stripped.take(cut as int));
    // Replace `T` by a space.
    let mut out: Vec<char> = Vec::new();
    let mut i: usize = 0;
    while i < cut
        invariant
            cut <= t@.len(),
            i <= cut,
            kept == t@.take(cut as int),
            out@ == replace_char(kept.take(i as int), 'T', ' '),
        decreases cut - i,
    {
        let c = t[i];
        if c == 'T' {
            out.push(' ');
        } else {
            out.push(c);
        }
        assert(replace_char(kept.take(i as int + 1), 'T', ' ') =~= replace_char(
            kept.take(i as int),
            'T',
            ' ',
        ).push(if c == 'T' { ' ' } else { c }));
        i = i + 1;
    }
    assert(kept.take(i as int) =~= kept);
    to_string(&out)
}

/// What a row of the audit table shows.
#[derive(Clone, Debug)]
pub struct AuditRow {
    pub name: String,
    pub content: String,
    pub created_at: String,
}

/// The row of an audit entry.
pub fn audit_row(event: &AuditEvent) -> (r: AuditRow)
    ensures
        r.name@ == event.name@,
        r.content@ == shown_content(event.content@, pretty_json(event.content@)),
        r.created_at@ == shown_timestamp(event.created_at@),
{
    AuditRow {
        name: event.name.clone(),
        content: format_audit_content(event.content.as_str()),
        created_at: format_audit_created_at(event.created_at.as_str()),
    }
}

/// What the audit table's body shows.
#[derive(Clone, Copy, PartialEq, Eq, Structural, Debug)]
pub enum AuditBody {
    Loading,
    Empty,
    Rows,
}

/// The loading state of the audit log and the entry opened in detail.
#[derive(Clone, Debug)]
pub struct AuditState {
    pub is_authenticated: bool,
    pub is_authorized: bool,
    pub events: Vec<AuditEvent>,
    pub error: Option<String>,
    pub is_loading: bool,
    pub selected: Option<AuditEvent>,
}

/// Admins and auditors may read the log.
pub open spec fn may_read_audit(session: Option<AuthSession>) -> bool {
    session matches Some(s) && (holds_named(s, "Admin"@) || holds_named(s, "Audit"@))
}

impl AuditState {
    /// The audit page as it opens; an authorized user's entries are
    /// requested at once (the result says whether).
    pub fn new(session: Option<&AuthSession>) -> (r: (AuditState, bool))
        ensures
            r.0.is_authenticated == session is Some,
            r.0.is_authorized == may_read_audit(
                match session {
                    Some(s) => Some(*s),
                    None => None,
                },
            ),
            r.0.events@.len() == 0,
            r.0.error is None,
            r.0.selected is None,
            r.0.is_loading == r.0.is_authorized,
            r.1 == r.0.is_authorized,
    {
        let is_authorized = match session {
            Some(s) => has_audit_access(s),
            None => false,
        };
        let state = AuditState {
            is_authenticated: session.is_some(),
            is_authorized,
            events: Vec::new(),
            error: None,
            is_loading: is_authorized,
            selected: None,
        };
        (state, is_authorized)
    }

    /// The refresh button: entries are requested again (when authorized).
    pub fn on_refresh(&mut self) -> (request: bool)
        ensures
            request == old(self).is_authorized,
            request ==> *final(self) == (AuditState { is_loading: true, ..*old(self) }),
            !request ==> *final(self) == *old(self),
    {
        if self.is_authorized {
            self.is_loading = true;
            true
        } else {
            false
        }
    }

    /// The entries arrived, or the request failed with a message.
    pub fn on_loaded(&mut self, outcome: Result<Vec<AuditEvent>, String>)
        ensures
            outcome matches Ok(events) ==> *final(self) == (AuditState {
                events,
                error: None,
                is_loading: false,
                ..*old(self)
            }),
            outcome matches Err(m) ==> *final(self) == (AuditState {
                error: Some(m),
                is_loading: false,
                ..*old(self)
            }),
    {
        match outcome {
            Ok(events) => {
                self.events = events;
                self.error = None;
            },
            Err(m) => {
                self.error = Some(m);
            },
        }
        self.is_loading = false;
    }

    /// Opens an entry in the detail window.
    pub fn open_event(&mut self, event: AuditEvent)
        ensures
            *final(self) == (AuditState { selected: Some(event), ..*old(self) }),
    {
        self.selected = Some(event);
    }

    /// Closes the detail window.
    pub fn close_event(&mut self)
        ensures
            *final(self) == (AuditState { selected: None, ..*old(self) }),
    {
        self.selected = None;
    }

    /// What the table shows: a loading line, an empty notice, or the rows.
    pub fn body(&self) -> (r: AuditBody)
        ensures
            r == (if self.is_loading {
                AuditBody::Loading
            } else if self.events@.len() == 0 {
                AuditBody::Empty
            } else {
                AuditBody::Rows
            }),
    {
        if self.is_loading {
            AuditBody::Loading
        } else if self.events.len() == 0 {
            AuditBody::Empty
        } else {
            AuditBody::Rows
        }
    }
}

} // verus!
