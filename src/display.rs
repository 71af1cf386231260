use colored::Colorize;
use vstd::prelude::*;

use crate::server_error::{ServerError, ServerErrorTag, ServerErrorTrait};
use crate::text::{debug_str, debug_str_of};

verus! {

/// The escape sequence with which a terminal style is reset.
pub open spec fn reset_sequence() -> Seq<char> {
    seq!['\u{1b}', '[', '0', 'm']
}

pub open spec fn no_escape(s: Seq<char>) -> bool {
    forall|i: int| 0 <= i < s.len() ==> s[i] != '\u{1b}'
}

/// The sequence that colored writes before bold text.
pub open spec fn bold_sequence() -> Seq<char> {
    seq!['\u{1b}', '[', '1', 'm']
}

/// The sequence that colored writes before bold red text.
pub open spec fn bold_red_sequence() -> Seq<char> {
    seq!['\u{1b}', '[', '1', ';', '3', '1', 'm']
}

/// `r` shows `s` with or without the terminal style `style`: when `s` holds
/// no escape character, `r` is `s` itself, or `s` between `style` and the
/// reset sequence.
pub open spec fn styled(r: Seq<char>, s: Seq<char>, style: Seq<char>) -> bool {
    no_escape(s) ==> (r == s || r == style + s + reset_sequence())
}

/// `sub` occurs in `s`.
pub open spec fn contains(s: Seq<char>, sub: Seq<char>) -> bool {
    exists|i: int| 0 <= i && i + sub.len() <= s.len() && #[trigger] s.subrange(i, i + sub.len()) == sub
}

/// Relies on colored's `Colorize::bold` for `&str` and the `Display` of
/// `ColoredString`: with colouring off the text comes back unchanged, else it
/// is written between `ESC[1m` and the reset sequence `ESC[0m` (unchanged
/// itself when it holds no reset sequence).
#[verifier::external_body]
fn bold(s: &str) -> (r: String)
    ensures
        styled(r@, s@, bold_sequence()),
{
    s.bold().to_string()
}

/// Relies on colored's `Colorize::bold` and `Colorize::red` and the `Display`
/// of `ColoredString`, as for `bold`, with `ESC[1;31m` before the text.
#[verifier::external_body]
fn bold_red(s: &str) -> (r: String)
    ensures
        styled(r@, s@, bold_red_sequence()),
{
    s.bold().red().to_string()
}

/// How the optional debug payload stands in the dump.
pub open spec fn debug_text(debug: Option<Seq<char>>) -> Seq<char> {
    match debug {
        Some(d) => "Some(\n        "@ + debug_str_of(d) + ",\n    )"@,
        None => "None"@,
    }
}

/// The structural dump of an error, in the pretty `Debug` form: the kind's
/// name, then each field with its value quoted and escaped.
pub open spec fn dump_text(
    name: Seq<char>,
    context: Seq<char>,
    message: Seq<char>,
    debug: Option<Seq<char>>,
) -> Seq<char> {
    name + " {\n    context: "@ + debug_str_of(context) + ",\n    message: "@ + debug_str_of(message)
        + ",\n    debug: "@ + debug_text(debug) + ",\n}"@
}

/// `r` is a rendering of `e` whose tag marker came back as `marker` and whose
/// message came back as `shown`.
pub open spec fn renders_as<E: ServerErrorTrait>(
    r: Seq<char>,
    e: E,
    marker: Seq<char>,
    shown: Seq<char>,
) -> bool {
    &&& r == marker + shown + seq!['\n'] + dump_text(
        e.name_spec(),
        e.context_spec(),
        e.message_spec(),
        e.debug_spec(),
    )
    &&& styled(shown, e.message_spec(), bold_sequence())
    &&& e.tag_spec() == ServerErrorTag::Normal ==> marker.len() == 0
    &&& e.tag_spec() == ServerErrorTag::Critical ==> styled(marker, "CRITICAL"@, bold_red_sequence())
}

/// Writes the structural dump of an error's fields.
pub fn dump<E: ServerErrorTrait>(e: &E) -> (r: String)
    ensures
        r@ == dump_text(e.name_spec(), e.context_spec(), e.message_spec(), e.debug_spec()),
{
    let mut r = e.name().clone();
    r.append(" {\n    context: ");
    r.append(debug_str(e.context().as_str()).as_str());
    r.append(",\n    message: ");
    r.append(debug_str(e.message().as_str()).as_str());
    r.append(",\n    debug: ");
    match e.debug() {
        Some(d) => {
            r.append("Some(\n        ");
            r.append(debug_str(d.as_str()).as_str());
            r.append(",\n    )");
        },
        None => {
            r.append("None");
        },
    }
    r.append(",\n}");
    assert(r@ =~= dump_text(e.name_spec(), e.context_spec(), e.message_spec(), e.debug_spec()));
    r
}

/// Renders an error: the critical marker for critical kinds, the message in
/// bold, then the structural dump on the following lines.
pub fn render<E: ServerErrorTrait>(e: &E) -> (r: String)
    ensures
        exists|marker: Seq<char>, shown: Seq<char>| renders_as(r@, *e, marker, shown),
{
    let mut r = match e.tag() {
        ServerErrorTag::Normal => String::new(),
        ServerErrorTag::Critical => bold_red("CRITICAL"),
    };
    let ghost marker = r@;
    let shown = bold(e.message().as_str());
    r.append(shown.as_str());
    r.append("\n");
    let d = dump(e);
    r.append(d.as_str());
    proof {
        reveal_strlit("\n");
        assert(r@ =~= marker + shown@ + seq!['\n'] + d@);
        assert(renders_as(r@, *e, marker, shown@));
    }
    r
}

impl ServerError {
    /// The rendering of this error, as `render` gives it.
    pub fn to_string(&self) -> (r: String)
        ensures
            exists|marker: Seq<char>, shown: Seq<char>| renders_as(r@, *self, marker, shown),
    {
        render(self)
    }
}

} // verus!
