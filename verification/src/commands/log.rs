//! Errors of the window that are written to the log.

use crate::text::{control_char, is_control_char, same_text, to_chars};
use vstd::prelude::*;

verus! {

/// The number of characters that are logged of one field.
pub const MAX_FRONTEND_FIELD_LEN: usize = 4096;

/// What a character becomes in the log: a line end or a tab is written out, any
/// other control character is dropped.
pub open spec fn logged_char(c: char) -> Seq<char> {
    if c == '\n' {
        "\\n"@
    } else if c == '\r' {
        "\\r"@
    } else if c == '\t' {
        "\\t"@
    } else if is_control_char(c) {
        Seq::empty()
    } else {
        seq![c]
    }
}

/// What a text becomes in the log, character by character.
pub open spec fn logged(s: Seq<char>) -> Seq<char>
    decreases s.len(),
{
    if s.len() == 0 {
        Seq::empty()
    } else {
        logged(s.drop_last()) + logged_char(s.last())
    }
}

/// The part of a field that is logged.
pub open spec fn log_part(s: Seq<char>) -> Seq<char> {
    if s.len() > MAX_FRONTEND_FIELD_LEN {
        s.take(MAX_FRONTEND_FIELD_LEN as int)
    } else {
        s
    }
}

/// A field as it is logged: at most so many of its characters, and a mark where
/// there were more.
pub open spec fn sanitized(s: Seq<char>) -> Seq<char> {
    if s.len() > MAX_FRONTEND_FIELD_LEN {
        logged(log_part(s)) + "\u{2026}[truncated]"@
    } else {
        logged(s)
    }
}

/// A field as it is logged.
pub fn sanitize_log_field(value: &str) -> (r: String)
    ensures
        r@ == sanitized(value@),
{
    let chars = to_chars(value);
    let n: usize = if chars.len() > MAX_FRONTEND_FIELD_LEN {
        MAX_FRONTEND_FIELD_LEN
    } else {
        chars.len()
    };
    let mut out = String::new();
    let mut i: usize = 0;
    while i < n
        invariant
            i <= n <= chars.len(),
            out@ == logged(chars@.take(i as int)),
        decreases n - i,
    {
        let c = chars[i];
        proof {
            assert(chars@.take(i + 1).drop_last() =~= chars@.take(i as int));
            assert(chars@.take(i + 1).last() == c);
        }
        let ghost before = out@;
        if c == '\n' {
            out.append("\\n");
        } else if c == '\r' {
            out.append("\\r");
        } else if c == '\t' {
            out.append("\\t");
        } else if !control_char(c) {
            out.push(c);
            assert(out@ =~= before + seq![c]);
        } else {
            assert(out@ =~= before + Seq::<char>::empty());
        }
        i += 1;
    }
    assert(chars@.take(n as int) =~= log_part(value@));
    if chars.len() > MAX_FRONTEND_FIELD_LEN {
        out.append("\u{2026}[truncated]");
    }
    out
}

/// How grave a line of the log is.
#[derive(Debug, Clone, Copy, PartialEq, Eq, Structural)]
pub enum LogLevel {
    Warn,
    Error,
}

/// An optional field behind its label; nothing where it is missing.
pub open spec fn labelled(label: Seq<char>, field: Option<Seq<char>>) -> Seq<char> {
    match field {
        Some(text) => label + sanitized(text),
        None => Seq::empty(),
    }
}

/// The line that reports an error of the window.
pub open spec fn frontend_line(
    message: Seq<char>,
    source: Option<Seq<char>>,
    stack: Option<Seq<char>>,
    component_stack: Option<Seq<char>>,
) -> Seq<char> {
    let context = match source {
        Some(text) => text,
        None => "renderer"@,
    };
    "[frontend] ["@ + sanitized(context) + "] "@ + sanitized(message) + labelled(
        " | stack: "@,
        stack,
    ) + labelled(" | component stack: "@, component_stack)
}

/// The line that reports an error of the window, and how grave it is: an error,
/// unless the window calls it a warning.
pub fn log_frontend_error(
    level: Option<String>,
    message: String,
    source: Option<String>,
    stack: Option<String>,
    component_stack: Option<String>,
) -> (r: (LogLevel, String))
    ensures
        r.0 == (if level.deep_view() == Some("warn"@) {
            LogLevel::Warn
        } else {
            LogLevel::Error
        }),
        r.1@ == frontend_line(
            message@,
            source.deep_view(),
            stack.deep_view(),
            component_stack.deep_view(),
        ),
{
    let context = match source {
        Some(text) => sanitize_log_field(&text),
        None => sanitize_log_field("renderer"),
    };
    let mut line = "[frontend] [".to_string();
    line.append(&context);
    line.append("] ");
    line.append(&sanitize_log_field(&message));
    let ghost head = line@;
    if let Some(text) = &stack {
        line.append(" | stack: ");
        line.append(&sanitize_log_field(text));
    }
    assert(line@ =~= head + labelled(" | stack: "@, stack.deep_view()));
    let ghost middle = line@;
    if let Some(text) = &component_stack {
        line.append(" | component stack: ");
        line.append(&sanitize_log_field(text));
    }
    assert(line@ =~= middle + labelled(" | component stack: "@, component_stack.deep_view()));
    let level = match level {
        Some(level) => if same_text(&level, "warn") {
            LogLevel::Warn
        } else {
            LogLevel::Error
        },
        None => LogLevel::Error,
    };
    (level, line)
}

// ==================== Laws ====================

/// Whether no character of `s` is a control character.
pub open spec fn is_one_line(s: Seq<char>) -> bool {
    forall|i: int| 0 <= i < s.len() ==> !is_control_char(#[trigger] s[i])
}

/// Texts without control characters have none together.
proof fn lemma_one_line_concat(a: Seq<char>, b: Seq<char>)
    requires
        is_one_line(a),
        is_one_line(b),
    ensures
        is_one_line(a + b),
{
    assert forall|i: int| 0 <= i < (a + b).len() implies !is_control_char(#[trigger] (a + b)[i]) by {
        if i < a.len() {
            assert((a + b)[i] == a[i]);
        } else {
            assert((a + b)[i] == b[i - a.len()]);
        }
    }
}

/// What a text becomes character by character has no control characters and at
/// most two characters for each of its own.
proof fn lemma_logged(s: Seq<char>)
    ensures
        is_one_line(logged(s)),
        logged(s).len() <= 2 * s.len(),
    decreases s.len(),
{
    reveal_strlit("\\n");
    reveal_strlit("\\r");
    reveal_strlit("\\t");
    if s.len() > 0 {
        lemma_logged(s.drop_last());
        assert(is_one_line(logged_char(s.last())));
        lemma_one_line_concat(logged(s.drop_last()), logged_char(s.last()));
    }
}

/// Whatever the window sends, a field is logged without a line end or any other
/// control character, so that it can neither start a line of its own nor change
/// how others are shown.
pub proof fn law_field_stays_on_its_line(s: Seq<char>)
    ensures
        is_one_line(sanitized(s)),
{
    reveal_strlit("\u{2026}[truncated]");
    lemma_logged(log_part(s));
    if s.len() > MAX_FRONTEND_FIELD_LEN {
        assert(is_one_line("\u{2026}[truncated]"@));
        lemma_one_line_concat(logged(log_part(s)), "\u{2026}[truncated]"@);
    }
}

/// However long a field is, what is logged of it is bounded.
pub proof fn law_field_is_bounded(s: Seq<char>)
    ensures
        sanitized(s).len() <= 2 * MAX_FRONTEND_FIELD_LEN + 12,
{
    reveal_strlit("\u{2026}[truncated]");
    lemma_logged(log_part(s));
}

/// A field without control characters that is not too long is logged as it is.
pub proof fn law_plain_field_is_unchanged(s: Seq<char>)
    requires
        is_one_line(s),
        s.len() <= MAX_FRONTEND_FIELD_LEN,
    ensures
        sanitized(s) == s,
    decreases s.len(),
{
    if s.len() > 0 {
        let front = s.drop_last();
        assert forall|i: int| 0 <= i < front.len() implies !is_control_char(
            #[trigger] front[i],
        ) by {
            assert(front[i] == s[i]);
        }
        law_plain_field_is_unchanged(front);
        let last = s[s.len() - 1];
        assert(!is_control_char(last));
        assert(logged_char(last) == seq![last]);
        assert(front + seq![last] =~= s);
    } else {
        assert(s =~= Seq::empty());
    }
}

/// The report of an error is one line, whatever the window sends.
pub proof fn law_report_is_one_line(
    message: Seq<char>,
    source: Option<Seq<char>>,
    stack: Option<Seq<char>>,
    component_stack: Option<Seq<char>>,
)
    ensures
        is_one_line(frontend_line(message, source, stack, component_stack)),
{
    reveal_strlit("[frontend] [");
    reveal_strlit("] ");
    reveal_strlit(" | stack: ");
    reveal_strlit(" | component stack: ");
    let context = match source {
        Some(text) => text,
        None => "renderer"@,
    };
    law_field_stays_on_its_line(context);
    law_field_stays_on_its_line(message);
    assert(is_one_line("[frontend] ["@));
    assert(is_one_line("] "@));
    lemma_one_line_concat("[frontend] ["@, sanitized(context));
    lemma_one_line_concat("[frontend] ["@ + sanitized(context), "] "@);
    let head = "[frontend] ["@ + sanitized(context) + "] "@;
    lemma_one_line_concat(head, sanitized(message));
    assert(is_one_line(" | stack: "@));
    assert(is_one_line(" | component stack: "@));
    lemma_labelled(" | stack: "@, stack);
    lemma_labelled(" | component stack: "@, component_stack);
    lemma_one_line_concat(head + sanitized(message), labelled(" | stack: "@, stack));
    lemma_one_line_concat(
        head + sanitized(message) + labelled(" | stack: "@, stack),
        labelled(" | component stack: "@, component_stack),
    );
}

/// A labelled field has no control characters where its label has none.
proof fn lemma_labelled(label: Seq<char>, field: Option<Seq<char>>)
    requires
        is_one_line(label),
    ensures
        is_one_line(labelled(label, field)),
{
    if let Some(text) = field {
        law_field_stays_on_its_line(text);
        lemma_one_line_concat(label, sanitized(text));
    }
}

/// A text is logged character by character, in order: a line feed, a carriage
/// return and a tab are written out, any other control character is left out, and
/// every other character is logged as it is.
pub proof fn law_text_is_logged_by_its_characters(a: Seq<char>, b: Seq<char>, c: char)
    ensures
        logged(a + b) == logged(a) + logged(b),
        logged(seq!['\n']) == seq!['\\', 'n'],
        logged(seq!['\r']) == seq!['\\', 'r'],
        logged(seq!['\t']) == seq!['\\', 't'],
        c != '\n' && c != '\r' && c != '\t' && ((c as int) < 32 || 127 <= (c as int) < 160)
            ==> logged(seq![c]).len() == 0,
        32 <= (c as int) < 127 || 160 <= (c as int) ==> logged(seq![c]) == seq![c],
    decreases b.len(),
{
    reveal_strlit("\\n");
    reveal_strlit("\\r");
    reveal_strlit("\\t");
    lemma_one_character_is_logged('\n');
    lemma_one_character_is_logged('\r');
    lemma_one_character_is_logged('\t');
    lemma_one_character_is_logged(c);
    assert("\\n"@ =~= seq!['\\', 'n']);
    assert("\\r"@ =~= seq!['\\', 'r']);
    assert("\\t"@ =~= seq!['\\', 't']);
    if b.len() == 0 {
        assert(a + b =~= a);
        assert(logged(a) + logged(b) =~= logged(a));
    } else {
        law_text_is_logged_by_its_characters(a, b.drop_last(), c);
        assert((a + b).drop_last() =~= a + b.drop_last());
        assert(logged(a) + (logged(b.drop_last()) + logged_char(b.last())) =~= logged(a) + logged(
            b.drop_last(),
        ) + logged_char(b.last()));
    }
}

/// A text of one character is logged as that character.
proof fn lemma_one_character_is_logged(c: char)
    ensures
        logged(seq![c]) == logged_char(c),
{
    reveal_with_fuel(logged, 2);
    assert(seq![c].drop_last() =~= Seq::empty());
    assert(seq![c].last() == c);
    assert(Seq::<char>::empty() + logged_char(c) =~= logged_char(c));
}

/// Up to 4096 characters of a field are logged, all of them; of a longer one the
/// first 4096, and behind them a mark that there were more.
pub proof fn law_long_field_is_cut(s: Seq<char>)
    ensures
        s.len() <= 4096 ==> sanitized(s) == logged(s),
        s.len() > 4096 ==> sanitized(s) == logged(s.take(4096)) + "\u{2026}[truncated]"@,
{
}

/// The report has the source, or `renderer`, and the message, and behind them the
/// two stacks where they are known, each behind its label and each as it is
/// logged.
pub proof fn law_report_has_every_field(
    message: Seq<char>,
    source: Option<Seq<char>>,
    stack: Option<Seq<char>>,
    component_stack: Option<Seq<char>>,
)
    ensures
        ({
            let head = "[frontend] ["@ + sanitized(
                if source is Some {
                    source->0
                } else {
                    "renderer"@
                },
            ) + "] "@ + sanitized(message);
            let line = frontend_line(message, source, stack, component_stack);
            &&& stack is None && component_stack is None ==> line == head
            &&& stack is Some && component_stack is None ==> line == head + (" | stack: "@
                + sanitized(stack->0))
            &&& stack is None && component_stack is Some ==> line == head + (
            " | component stack: "@ + sanitized(component_stack->0))
            &&& stack is Some && component_stack is Some ==> line == head + (" | stack: "@
                + sanitized(stack->0)) + (" | component stack: "@ + sanitized(component_stack->0))
        }),
{
    let head = "[frontend] ["@ + sanitized(
        if source is Some {
            source->0
        } else {
            "renderer"@
        },
    ) + "] "@ + sanitized(message);
    let none = Seq::<char>::empty();
    assert(head + none =~= head);
    assert(head + none + none =~= head);
    if stack is Some {
        let more = head + (" | stack: "@ + sanitized(stack->0));
        assert(more + none =~= more);
    }
}

} // verus!
