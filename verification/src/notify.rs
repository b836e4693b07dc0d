//! Notification backend selection and command construction: prefer the native
//! desktop notifier when present, fall back to a freedesktop-style notifier,
//! and degrade to a no-op diagnostic when neither is available. Text placed
//! into the native notifier's script must have its quotes escaped first.

use vstd::prelude::*;
use vstd::string::StrSliceExecFns;
use vstd::string::StringExecFns;

verus! {

/// Which notification mechanism a dispatch will use.
pub enum NotifyBackend {
    /// The native desktop scripting notifier.
    OsaScript,
    /// The freedesktop-style notifier.
    NotifySend,
    /// No mechanism is available; dispatch degrades to a diagnostic.
    Unavailable,
}

/// Picks the backend from the two availability probes, preferring the native
/// notifier.
pub fn choose_backend(has_osascript: bool, has_notify_send: bool) -> (r: NotifyBackend)
    ensures
        r is OsaScript <==> has_osascript,
        r is NotifySend <==> (!has_osascript && has_notify_send),
        r is Unavailable <==> (!has_osascript && !has_notify_send),
{
    if has_osascript {
        NotifyBackend::OsaScript
    } else if has_notify_send {
        NotifyBackend::NotifySend
    } else {
        NotifyBackend::Unavailable
    }
}

/// The text with every double quote preceded by a backslash.
pub open spec fn escape_quotes_seq(s: Seq<char>) -> Seq<char>
    decreases s.len(),
{
    if s.len() == 0 {
        Seq::empty()
    } else {
        (if s[0] == '"' {
            seq!['\\', '"']
        } else {
            seq![s[0]]
        }) + escape_quotes_seq(s.drop_first())
    }
}

proof fn lemma_escape_quotes_push(s: Seq<char>, c: char)
    ensures
        escape_quotes_seq(s.push(c)) == escape_quotes_seq(s) + (if c == '"' {
            seq!['\\', '"']
        } else {
            seq![c]
        }),
    decreases s.len(),
{
    let unit = if c == '"' {
        seq!['\\', '"']
    } else {
        seq![c]
    };
    if s.len() == 0 {
        assert(s.push(c)[0] == c);
        assert(s.push(c).drop_first() =~= Seq::<char>::empty());
        assert(escape_quotes_seq(s.push(c)) == unit + escape_quotes_seq(Seq::<char>::empty()));
        assert(escape_quotes_seq(Seq::<char>::empty()) == Seq::<char>::empty());
        assert(unit + Seq::<char>::empty() =~= unit);
        assert(escape_quotes_seq(s) + unit =~= unit);
    } else {
        assert(s.push(c).drop_first() =~= s.drop_first().push(c));
        assert(s.push(c)[0] == s[0]);
        let head = if s[0] == '"' {
            seq!['\\', '"']
        } else {
            seq![s[0]]
        };
        assert(escape_quotes_seq(s.push(c)) == head + escape_quotes_seq(s.drop_first().push(c)));
        lemma_escape_quotes_push(s.drop_first(), c);
        assert(escape_quotes_seq(s.push(c)) == head + (escape_quotes_seq(s.drop_first()) + unit));
        assert(escape_quotes_seq(s) == head + escape_quotes_seq(s.drop_first()));
        assert(head + (escape_quotes_seq(s.drop_first()) + unit) =~= (head + escape_quotes_seq(
            s.drop_first(),
        )) + unit);
    }
}

/// Escapes double quotes for interpolation into the notifier's script.
pub fn escape_quotes(s: &str) -> (r: String)
    ensures
        r@ == escape_quotes_seq(s@),
{
    let len = s.unicode_len();
    let mut out = String::new();
    let mut i: usize = 0;
    while i < len
        invariant
            len == s@.len(),
            i <= len,
            out@ == escape_quotes_seq(s@.take(i as int)),
        decreases len - i,
    {
        let c = s.get_char(i);
        if c == '"' {
            out.append("\\\"");
            proof {
                reveal_strlit("\\\"");
            }
        } else {
            let piece = s.substring_char(i, i + 1);
            out.append(piece);
        }
        proof {
            lemma_escape_quotes_push(s@.take(i as int), s@[i as int]);
            assert(s@.take(i + 1) =~= s@.take(i as int).push(s@[i as int]));
            if c == '"' {
                assert("\\\""@ =~= seq!['\\', '"']);
            } else {
                assert(s@.subrange(i as int, i + 1) =~= seq![s@[i as int]]);
            }
        }
        i = i + 1;
    }
    proof {
        assert(s@.take(len as int) =~= s@);
    }
    out
}

/// The native notifier's script: the escaped message and escaped title in a
/// fixed `display notification` command.
pub open spec fn osascript_script_text(title: Seq<char>, message: Seq<char>) -> Seq<char> {
    "display notification \""@ + escape_quotes_seq(message) + "\" with title \""@
        + escape_quotes_seq(title) + "\""@
}

/// Builds the native notifier's script for a title and message.
pub fn osascript_script(title: &str, message: &str) -> (r: String)
    ensures
        r@ == osascript_script_text(title@, message@),
{
    let mut out = "display notification \"".to_owned();
    let escaped_message = escape_quotes(message);
    out.append(escaped_message.as_str());
    out.append("\" with title \"");
    let escaped_title = escape_quotes(title);
    out.append(escaped_title.as_str());
    out.append("\"");
    out
}

/// The diagnostic written when no backend is available.
pub fn no_backend_diagnostic() -> (r: &'static str)
    ensures
        r@ == "[notify] No notification backend available"@,
{
    "[notify] No notification backend available"
}

} // verus!
