//! Interface events of a heist session, read from component identifiers of
//! the form `crime:solo:{action}[:{payload}]`.

use vstd::prelude::*;
use crate::keys::{same_text, from_key_item, from_key_mode, from_key_risk, item_of_key, mode_of_key, risk_of_key};
use crate::types::{CrimeMode, ItemKey, Risk};

verus! {

/// What an interface event asks of a session.
#[derive(Debug, Clone, Copy, PartialEq, Eq, Structural)]
pub enum SessionEvent {
    Mode(CrimeMode),
    Risk(Risk),
    ShowSequence,
    SelectItems,
    RevealSequence,
    ToggleItem(ItemKey),
    Start,
    Key(char),
    Resolve,
    Reset,
    /// Nothing to change; show the session again.
    Refresh,
}

/// The characters of `s` before its first `:` (all of `s` when it has none).
pub open spec fn until_colon(s: Seq<char>) -> Seq<char>
    decreases s.len(),
{
    if s.len() == 0 || s[0] == ':' {
        Seq::empty()
    } else {
        seq![s[0]] + until_colon(s.drop_first())
    }
}

/// The characters of `s` after its first `:`, if it has one.
pub open spec fn after_colon(s: Seq<char>) -> Option<Seq<char>>
    decreases s.len(),
{
    if s.len() == 0 {
        None
    } else if s[0] == ':' {
        Some(s.drop_first())
    } else {
        after_colon(s.drop_first())
    }
}

/// Prefix of the identifiers a heist session answers to.
pub open spec fn event_prefix() -> Seq<char> {
    "crime:solo:"@
}

/// The event an action and its optional payload ask for. Mode and risk keys
/// read as `from_key_mode` / `from_key_risk` do; an unknown item key, a
/// missing payload where one is needed, or an unknown action only refresh.
/// A key press carries the payload's first character, or `?` when empty.
pub open spec fn event_of(action: Seq<char>, payload: Option<Seq<char>>) -> SessionEvent {
    if action == "mode"@ {
        match payload {
            Some(p) => SessionEvent::Mode(mode_of_key(p)),
            None => SessionEvent::Refresh,
        }
    } else if action == "risk"@ {
        match payload {
            Some(p) => SessionEvent::Risk(risk_of_key(p)),
            None => SessionEvent::Refresh,
        }
    } else if action == "simon_show"@ {
        SessionEvent::ShowSequence
    } else if action == "itemselect"@ {
        SessionEvent::SelectItems
    } else if action == "simon_reveal"@ {
        SessionEvent::RevealSequence
    } else if action == "item"@ {
        match payload {
            Some(p) => match item_of_key(p) {
                Some(k) => SessionEvent::ToggleItem(k),
                None => SessionEvent::Refresh,
            },
            None => SessionEvent::Refresh,
        }
    } else if action == "start"@ {
        SessionEvent::Start
    } else if action == "simon_key"@ {
        match payload {
            Some(p) => SessionEvent::Key(if p.len() > 0 { p[0] } else { '?' }),
            None => SessionEvent::Refresh,
        }
    } else if action == "resolve"@ {
        SessionEvent::Resolve
    } else if action == "reset"@ {
        SessionEvent::Reset
    } else {
        SessionEvent::Refresh
    }
}

/// The event of a component identifier: `None` unless it starts with
/// `crime:solo:`; otherwise the action is the text up to the next `:` and
/// the payload, if any, the text after it up to the following `:`.
pub open spec fn parse_event_of(id: Seq<char>) -> Option<SessionEvent> {
    if id.len() >= event_prefix().len() && id.take(event_prefix().len() as int) == event_prefix() {
        let rest = id.skip(event_prefix().len() as int);
        let payload = match after_colon(rest) {
            Some(p) => Some(until_colon(p)),
            None => None,
        };
        Some(event_of(until_colon(rest), payload))
    } else {
        None
    }
}

proof fn lemma_colon_split(s: Seq<char>, j: int)
    requires
        0 <= j <= s.len(),
        forall|i: int| 0 <= i < j ==> s[i] != ':',
        j < s.len() ==> s[j] == ':',
    ensures
        until_colon(s) == s.take(j),
        after_colon(s) == (if j < s.len() { Some(s.skip(j + 1)) } else { None::<Seq<char>> }),
    decreases j,
{
    if j == 0 {
        if s.len() > 0 {
            assert(s.drop_first() =~= s.skip(1));
        }
        assert(s.take(0) =~= Seq::<char>::empty());
    } else {
        let t = s.drop_first();
        assert forall|i: int| 0 <= i < j - 1 implies t[i] != ':' by {
            assert(t[i] == s[i + 1]);
        }
        lemma_colon_split(t, j - 1);
        assert(s.take(j) =~= seq![s[0]] + t.take(j - 1));
        if j < s.len() {
            assert(t.skip(j) =~= s.skip(j + 1));
        }
    }
}

/// Index of the first `:` of `s` at or after `from`, or the length of `s`.
fn find_colon(s: &str, from: usize) -> (j: usize)
    requires
        from <= s@.len(),
    ensures
        from <= j <= s@.len(),
        forall|i: int| from <= i < j ==> s@[i] != ':',
        j < s@.len() ==> s@[j as int] == ':',
{
    let n = s.unicode_len();
    let mut j = from;
    while j < n
        invariant
            n == s@.len(),
            from <= j <= n,
            forall|i: int| from <= i < j ==> s@[i] != ':',
        decreases n - j,
    {
        if s.get_char(j) == ':' {
            return j;
        }
        j += 1;
    }
    j
}

fn event_for(action: &str, payload: Option<&str>) -> (r: SessionEvent)
    ensures
        r == event_of(action@, match payload { Some(p) => Some(p@), None => None }),
{
    if same_text(action, "mode") {
        match payload {
            Some(p) => SessionEvent::Mode(from_key_mode(p)),
            None => SessionEvent::Refresh,
        }
    } else if same_text(action, "risk") {
        match payload {
            Some(p) => SessionEvent::Risk(from_key_risk(p)),
            None => SessionEvent::Refresh,
        }
    } else if same_text(action, "simon_show") {
        SessionEvent::ShowSequence
    } else if same_text(action, "itemselect") {
        SessionEvent::SelectItems
    } else if same_text(action, "simon_reveal") {
        SessionEvent::RevealSequence
    } else if same_text(action, "item") {
        match payload {
            Some(p) => match from_key_item(p) {
                Some(k) => SessionEvent::ToggleItem(k),
                None => SessionEvent::Refresh,
            },
            None => SessionEvent::Refresh,
        }
    } else if same_text(action, "start") {
        SessionEvent::Start
    } else if same_text(action, "simon_key") {
        match payload {
            Some(p) => SessionEvent::Key(if p.unicode_len() > 0 { p.get_char(0) } else { '?' }),
            None => SessionEvent::Refresh,
        }
    } else if same_text(action, "resolve") {
        SessionEvent::Resolve
    } else if same_text(action, "reset") {
        SessionEvent::Reset
    } else {
        SessionEvent::Refresh
    }
}

/// Reads the event of a component identifier; `None` when the identifier is
/// not a heist session's.
pub fn parse_event(id: &str) -> (r: Option<SessionEvent>)
    ensures
        r == parse_event_of(id@),
{
    let prefix = "crime:solo:";
    proof {
        reveal_strlit("crime:solo:");
    }
    let n = id.unicode_len();
    let k = prefix.unicode_len();
    if n < k || !same_text(id.substring_char(0, k), prefix) {
        return None;
    }
    let ghost rest = id@.skip(k as int);
    let a_end = find_colon(id, k);
    proof {
        assert forall|i: int| 0 <= i < a_end - k implies rest[i] != ':' by {
            assert(rest[i] == id@[i + k]);
        }
        if a_end < n {
            assert(rest[a_end - k] == id@[a_end as int]);
        }
        lemma_colon_split(rest, a_end - k);
        assert(rest.take(a_end - k) =~= id@.subrange(k as int, a_end as int));
    }
    let action = id.substring_char(k, a_end);
    let payload = if a_end < n {
        let p_end = find_colon(id, a_end + 1);
        proof {
            let p = rest.skip(a_end - k + 1);
            assert(p =~= id@.skip(a_end + 1));
            assert forall|i: int| 0 <= i < p_end - a_end - 1 implies p[i] != ':' by {
                assert(p[i] == id@[i + a_end + 1]);
            }
            if p_end < n {
                assert(p[p_end - a_end - 1] == id@[p_end as int]);
            }
            lemma_colon_split(p, p_end - a_end - 1);
            assert(p.take(p_end - a_end - 1) =~= id@.subrange(a_end + 1, p_end as int));
        }
        Some(id.substring_char(a_end + 1, p_end))
    } else {
        None
    };
    Some(event_for(action, payload))
}

} // verus!
