//! The decisions behind the host's log output.
//!
//! The host binary owns the writers, the subscriber and the environment; this
//! module owns what those edges decide: whether ANSI color is enabled, how an
//! event's fields are gathered and joined into one line, and how the C log
//! entry point normalizes its message, source and level.

use vstd::prelude::*;

verus! {

/// Relies on `alloc::string::String::push_str`: appends the slice's
/// characters to the string.
#[verifier::external_body]
fn push_str(s: &mut String, piece: &str)
    ensures
        final(s)@ == old(s)@ + piece@,
{
    s.push_str(piece)
}

/// Whether two string slices hold the same characters.
fn str_eq(a: &str, b: &str) -> (r: bool)
    ensures
        r == (a@ == b@),
{
    a.to_owned() == b.to_owned()
}

/// The view of an optional string slice.
pub open spec fn opt_view(o: Option<&str>) -> Option<Seq<char>> {
    match o {
        Some(s) => Some(s@),
        None => None,
    }
}

/// The ANSI decision, from the environment snapshot the host takes at
/// startup: the host-specific override wins, then the common environment
/// variables, then whether stdout is a terminal.
pub open spec fn ansi_decision(
    lunaris_color: Option<Seq<char>>,
    no_color: bool,
    clicolor_force: Option<Seq<char>>,
    clicolor: Option<Seq<char>>,
    stdout_is_terminal: bool,
) -> bool {
    if lunaris_color == Some("always"@) {
        true
    } else if lunaris_color == Some("never"@) {
        false
    } else if no_color {
        false
    } else if clicolor_force == Some("1"@) {
        true
    } else if clicolor == Some("0"@) {
        false
    } else {
        stdout_is_terminal
    }
}

/// Decides whether ANSI color is enabled. The arguments are the host's
/// environment snapshot: the host-specific color override, whether a
/// no-color marker is set at all, the two common color variables, and
/// whether stdout is a terminal.
pub fn should_enable_ansi(
    lunaris_color: Option<&str>,
    no_color: bool,
    clicolor_force: Option<&str>,
    clicolor: Option<&str>,
    stdout_is_terminal: bool,
) -> (r: bool)
    ensures
        r == ansi_decision(
            opt_view(lunaris_color),
            no_color,
            opt_view(clicolor_force),
            opt_view(clicolor),
            stdout_is_terminal,
        ),
{
    match lunaris_color {
        Some(s) => {
            if str_eq(s, "always") {
                return true;
            }
            if str_eq(s, "never") {
                return false;
            }
        },
        None => (),
    }
    if no_color {
        return false;
    }
    match clicolor_force {
        Some(s) => {
            if str_eq(s, "1") {
                return true;
            }
        },
        None => (),
    }
    match clicolor {
        Some(s) => {
            if str_eq(s, "0") {
                return false;
            }
        },
        None => (),
    }
    stdout_is_terminal
}

/// Reads the decision the host stored at startup; absent a stored decision,
/// color is off.
pub fn ansi_enabled(stored: Option<bool>) -> (r: bool)
    ensures
        r == (stored == Some(true)),
{
    match stored {
        Some(b) => b,
        None => false,
    }
}

/// The key=value pieces joined with single spaces.
pub open spec fn joined(fields: Seq<Seq<char>>) -> Seq<char>
    decreases fields.len(),
{
    if fields.len() == 0 {
        Seq::empty()
    } else if fields.len() == 1 {
        fields[0]
    } else {
        joined(fields.drop_last()) + seq![' '] + fields.last()
    }
}

/// Gathers one event's fields: the `message` field apart, every other field
/// as one rendered `key=value` piece.
pub struct FieldVisitor {
    message: Option<String>,
    fields: Vec<String>,
}

impl FieldVisitor {
    /// The gathered message, if the event carried one.
    pub closed spec fn spec_message(self) -> Option<Seq<char>> {
        match self.message {
            Some(m) => Some(m@),
            None => None,
        }
    }

    /// The gathered key=value pieces, in arrival order.
    pub closed spec fn spec_fields(self) -> Seq<Seq<char>> {
        self.fields@.map_values(|f: String| f@)
    }

    pub fn new() -> (r: FieldVisitor)
        ensures
            r.spec_message() is None,
            r.spec_fields() == Seq::<Seq<char>>::empty(),
    {
        let r = FieldVisitor { message: None, fields: Vec::new() };
        proof {
            assert(r.spec_fields() =~= Seq::<Seq<char>>::empty());
        }
        r
    }

    /// Records a field whose value arrived as a plain string: the `message`
    /// field becomes the message, any other field becomes `key="value"`.
    pub fn record_str(&mut self, name: &str, value: &str)
        ensures
            name@ == "message"@ ==> {
                &&& final(self).spec_message() == Some(value@)
                &&& final(self).spec_fields() == old(self).spec_fields()
            },
            name@ != "message"@ ==> {
                &&& final(self).spec_message() == old(self).spec_message()
                &&& final(self).spec_fields() == old(self).spec_fields().push(
                    name@ + "=\""@ + value@ + "\""@,
                )
            },
    {
        if str_eq(name, "message") {
            self.message = Some(value.to_owned());
        } else {
            let mut piece = String::new();
            push_str(&mut piece, name);
            push_str(&mut piece, "=\"");
            push_str(&mut piece, value);
            push_str(&mut piece, "\"");
            let ghost fields_before = self.spec_fields();
            self.fields.push(piece);
            proof {
                assert(final(self).spec_fields() =~= fields_before.push(
                    name@ + "=\""@ + value@ + "\""@,
                ));
            }
        }
    }

    /// Records a field whose value the host already rendered through its
    /// debug formatter: the `message` field becomes the message, any other
    /// field becomes `key=rendered`.
    pub fn record_debug(&mut self, name: &str, rendered: &str)
        ensures
            name@ == "message"@ ==> {
                &&& final(self).spec_message() == Some(rendered@)
                &&& final(self).spec_fields() == old(self).spec_fields()
            },
            name@ != "message"@ ==> {
                &&& final(self).spec_message() == old(self).spec_message()
                &&& final(self).spec_fields() == old(self).spec_fields().push(
                    name@ + "="@ + rendered@,
                )
            },
    {
        if str_eq(name, "message") {
            self.message = Some(rendered.to_owned());
        } else {
            let mut piece = String::new();
            push_str(&mut piece, name);
            push_str(&mut piece, "=");
            push_str(&mut piece, rendered);
            let ghost fields_before = self.spec_fields();
            self.fields.push(piece);
            proof {
                assert(final(self).spec_fields() =~= fields_before.push(
                    name@ + "="@ + rendered@,
                ));
            }
        }
    }

    /// Hands the message out, leaving none behind.
    pub fn take_message(&mut self) -> (r: Option<String>)
        ensures
            match r {
                Some(m) => old(self).spec_message() == Some(m@),
                None => old(self).spec_message() is None,
            },
            final(self).spec_message() is None,
            final(self).spec_fields() == old(self).spec_fields(),
    {
        let mut taken: Option<String> = None;
        core::mem::swap(&mut self.message, &mut taken);
        taken
    }

    /// The key=value pieces joined with single spaces; empty when the event
    /// carried no fields beyond its message.
    pub fn format_kv(&self) -> (r: String)
        ensures
            r@ == joined(self.spec_fields()),
    {
        let mut out = String::new();
        let n = self.fields.len();
        let mut i: usize = 0;
        proof {
            assert(self.spec_fields().take(0) =~= Seq::<Seq<char>>::empty());
        }
        while i < n
            invariant
                i <= n,
                n == self.spec_fields().len(),
                out@ == joined(self.spec_fields().take(i as int)),
            decreases n - i,
        {
            let ghost prefix = self.spec_fields().take(i as int);
            if i > 0 {
                push_str(&mut out, " ");
            }
            push_str(&mut out, self.fields[i].as_str());
            proof {
                let longer = self.spec_fields().take(i as int + 1);
                assert(longer.drop_last() =~= prefix);
                assert(longer.last() == self.spec_fields()[i as int]);
                reveal_strlit(" ");
                assert(" "@ =~= seq![' ']);
                assert(out@ =~= joined(longer));
            }
            i = i + 1;
        }
        proof {
            assert(self.spec_fields().take(n as int) =~= self.spec_fields());
        }
        out
    }
}

/// A C-side text argument as the host's shim classified it: a null pointer,
/// a non-UTF-8 string, or the decoded text.
#[derive(Debug, Clone, Copy)]
pub enum CText<'a> {
    Null,
    Invalid,
    Text(&'a str),
}

/// One normalized entry for the host's logger, as the C log entry point
/// hands it over.
#[derive(Debug)]
pub struct LogEntry {
    pub message: String,
    pub source: String,
    pub level: u8,
    pub defaulted: bool,
}

/// The level an entry is logged at: the five named levels (1 error, 2 warn,
/// 3 info, 4 debug, 5 trace) pass through; anything else defaults to info.
pub open spec fn effective_level(level: u8) -> u8 {
    if 1 <= level <= 5 {
        level
    } else {
        3
    }
}

/// The C log entry point's logic: a null message becomes a placeholder, a
/// non-UTF-8 message another; a missing or undecodable source becomes
/// `UNKNOWN`; an illegal level defaults to info and is flagged so the host
/// also logs the correction. The returned status is always 0.
pub fn log_c(msg: CText, source: CText, level: u8) -> (r: (LogEntry, u32))
    ensures
        r.1 == 0,
        r.0.level == effective_level(level),
        r.0.defaulted == !(1 <= level <= 5),
        match msg {
            CText::Null => r.0.message@ == "<<null message>>"@,
            CText::Invalid => r.0.message@ == "<<non-UTF8 message>>"@,
            CText::Text(s) => r.0.message@ == s@,
        },
        match source {
            CText::Null => r.0.source@ == "UNKNOWN"@,
            CText::Invalid => r.0.source@ == "UNKNOWN"@,
            CText::Text(s) => r.0.source@ == s@,
        },
{
    let message = match msg {
        CText::Null => "<<null message>>".to_owned(),
        CText::Invalid => "<<non-UTF8 message>>".to_owned(),
        CText::Text(s) => s.to_owned(),
    };
    let source_text = match source {
        CText::Null => "UNKNOWN".to_owned(),
        CText::Invalid => "UNKNOWN".to_owned(),
        CText::Text(s) => s.to_owned(),
    };
    let legal = 1 <= level && level <= 5;
    let entry = LogEntry {
        message,
        source: source_text,
        level: if legal {
            level
        } else {
            3
        },
        defaulted: !legal,
    };
    (entry, 0)
}

} // verus!
