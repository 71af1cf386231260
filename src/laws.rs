use vstd::prelude::*;

use crate::display::{
    bold_red_sequence, bold_sequence, contains, debug_text, dump_text, no_escape, renders_as,
    reset_sequence,
};
use crate::text::debug_str_of;
use crate::generic::{GenericErrorShape, GenericServerError, GenericServerErrorTrait};
use crate::kind::{context_text, location_text, message_of, CallSite, ServerErrorKind};
use crate::server_error::{ServerError, ServerErrorContext, ServerErrorTag, ServerErrorTrait};
use crate::template::FieldValue;

verus! {

proof fn lemma_contains_middle(a: Seq<char>, m: Seq<char>, b: Seq<char>)
    ensures
        contains(a + m + b, m),
{
    let s = a + m + b;
    assert(s.subrange(a.len() as int, (a.len() + m.len()) as int) =~= m);
}

/// Every error built from one kind has the kind's behaviour and tag, whatever
/// its call site and field values.
pub proof fn lemma_kind_fixes_behaviour_and_tag(
    kind: ServerErrorKind,
    e1: ServerError,
    site1: CallSite,
    args1: Seq<FieldValue>,
    e2: ServerError,
    site2: CallSite,
    args2: Seq<FieldValue>,
)
    requires
        kind.built(e1, site1, args1),
        kind.built(e2, site2, args2),
    ensures
        e1.behaviour_spec() == kind.behaviour_spec(),
        e1.tag_spec() == kind.tag_spec(),
        e1.behaviour_spec() == e2.behaviour_spec(),
        e1.tag_spec() == e2.tag_spec(),
{
}

/// The context of an error follows its kind's policy: the sentinel
/// `OMITTED` for `Omit`; a non-empty text that holds the call site for
/// `Location` (exactly the call site) and for `Backtrace` (the call site
/// first, the captured stack after it).
pub proof fn lemma_context_follows_policy(
    kind: ServerErrorKind,
    e: ServerError,
    site: CallSite,
    args: Seq<FieldValue>,
)
    requires
        kind.built(e, site, args),
    ensures
        kind.context_policy_spec() == ServerErrorContext::Omit ==> e.context_spec() == "OMITTED"@,
        kind.context_policy_spec() == ServerErrorContext::Location ==> e.context_spec()
            == location_text(site),
        kind.context_policy_spec() == ServerErrorContext::Backtrace ==> e.context_spec().take(
            location_text(site).len() as int,
        ) == location_text(site),
        kind.context_policy_spec() != ServerErrorContext::Omit ==> {
            &&& e.context_spec().len() > 0
            &&& contains(e.context_spec(), location_text(site))
        },
{
    let stack = choose|stack: Seq<char>|
        e.context_spec() == context_text(kind.context_policy_spec(), site, stack);
    let loc = location_text(site);
    assert(loc.len() > 0) by {
        assert(loc[site.file@.len() as int] == ':');
    }
    if kind.context_policy_spec() == ServerErrorContext::Location {
        lemma_contains_middle(Seq::empty(), loc, Seq::empty());
        assert(Seq::<char>::empty() + loc + Seq::<char>::empty() =~= loc);
    } else if kind.context_policy_spec() == ServerErrorContext::Backtrace {
        let rest = seq!['\n'] + stack;
        assert(e.context_spec() =~= Seq::<char>::empty() + loc + rest);
        lemma_contains_middle(Seq::empty(), loc, rest);
        assert(e.context_spec().take(loc.len() as int) =~= loc);
    }
}

/// The two constructors give the same message for the same field values: the
/// template with each field replaced by its value.
pub proof fn lemma_message_same_for_both_constructors(
    kind: ServerErrorKind,
    plain: ServerError,
    site1: CallSite,
    with_debug: ServerError,
    site2: CallSite,
    args: Seq<FieldValue>,
)
    requires
        kind.built(plain, site1, args),
        kind.built(with_debug, site2, args),
    ensures
        plain.message_spec() == with_debug.message_spec(),
        plain.message_spec() == message_of(kind.template_spec(), kind.fields_spec(), args),
{
}

/// A rendering holds the message (when it has no escape character, which
/// terminal styling would alter), and the dump holds the context, the message
/// and, when there is one, the debug payload in their quoted `Debug` form. A
/// critical error's rendering holds the marker `CRITICAL`, and a normal
/// error's rendering starts with its message, with no marker before it.
pub proof fn lemma_rendering_shows<E: ServerErrorTrait>(
    e: E,
    r: Seq<char>,
    marker: Seq<char>,
    shown: Seq<char>,
)
    requires
        renders_as(r, e, marker, shown),
    ensures
        no_escape(e.message_spec()) ==> contains(r, e.message_spec()),
        contains(r, debug_str_of(e.context_spec())),
        contains(r, debug_str_of(e.message_spec())),
        e.debug_spec() matches Some(d) ==> contains(r, debug_str_of(d)),
        e.tag_spec() == ServerErrorTag::Critical ==> contains(r, "CRITICAL"@),
        e.tag_spec() == ServerErrorTag::Normal ==> r == shown + seq!['\n'] + dump_text(
            e.name_spec(),
            e.context_spec(),
            e.message_spec(),
            e.debug_spec(),
        ),
        e.tag_spec() == ServerErrorTag::Normal && no_escape(e.message_spec()) ==> (
        r.take(e.message_spec().len() as int) == e.message_spec() || r.take(
            (bold_sequence().len() + e.message_spec().len()) as int,
        ) == bold_sequence() + e.message_spec()),
{
    let name = e.name_spec();
    let ctx = e.context_spec();
    let msg = e.message_spec();
    let dbg = e.debug_spec();
    let dump = dump_text(name, ctx, msg, dbg);
    let head = marker + shown + seq!['\n'];
    let l1 = " {\n    context: "@;
    let l2 = ",\n    message: "@;
    let l3 = ",\n    debug: "@;
    let l4 = ",\n}"@;
    let dctx = debug_str_of(ctx);
    let dmsg = debug_str_of(msg);
    assert(r =~= (head + name + l1) + dctx + (l2 + dmsg + l3 + debug_text(dbg) + l4));
    lemma_contains_middle(head + name + l1, dctx, l2 + dmsg + l3 + debug_text(dbg) + l4);
    assert(r =~= (head + name + l1 + dctx + l2) + dmsg + (l3 + debug_text(dbg) + l4));
    lemma_contains_middle(head + name + l1 + dctx + l2, dmsg, l3 + debug_text(dbg) + l4);
    if let Some(d) = dbg {
        let a = head + name + l1 + dctx + l2 + dmsg + l3 + "Some(\n        "@;
        let b = ",\n    )"@ + l4;
        assert(r =~= a + debug_str_of(d) + b);
        lemma_contains_middle(a, debug_str_of(d), b);
    }
    let rest = seq!['\n'] + dump;
    if no_escape(msg) {
        if shown == msg {
            assert(r =~= marker + msg + rest);
            lemma_contains_middle(marker, msg, rest);
        } else {
            assert(r =~= (marker + bold_sequence()) + msg + (reset_sequence() + rest));
            lemma_contains_middle(marker + bold_sequence(), msg, reset_sequence() + rest);
        }
    }
    if e.tag_spec() == ServerErrorTag::Critical {
        let c = "CRITICAL"@;
        reveal_strlit("CRITICAL");
        assert(no_escape(c));
        let after = shown + rest;
        if marker == c {
            assert(r =~= Seq::<char>::empty() + c + after);
            lemma_contains_middle(Seq::empty(), c, after);
        } else {
            assert(r =~= bold_red_sequence() + c + (reset_sequence() + after));
            lemma_contains_middle(bold_red_sequence(), c, reset_sequence() + after);
        }
    }
    if e.tag_spec() == ServerErrorTag::Normal {
        assert(r =~= shown + rest);
        if no_escape(msg) {
            if shown == msg {
                assert(r.take(msg.len() as int) =~= msg);
            } else {
                assert(r.take((bold_sequence().len() + msg.len()) as int) =~= bold_sequence() + msg);
            }
        }
    }
}

/// Rendering is a function of the error value and of the styling that the
/// terminal library applied: two renderings of one value end in the same
/// dump, and are equal where the styling came back the same.
pub proof fn lemma_rendering_determined<E: ServerErrorTrait>(
    e: E,
    r1: Seq<char>,
    marker1: Seq<char>,
    shown1: Seq<char>,
    r2: Seq<char>,
    marker2: Seq<char>,
    shown2: Seq<char>,
)
    requires
        renders_as(r1, e, marker1, shown1),
        renders_as(r2, e, marker2, shown2),
    ensures
        marker1 == marker2 && shown1 == shown2 ==> r1 == r2,
        ({
            let tail = seq!['\n'] + dump_text(e.name_spec(), e.context_spec(), e.message_spec(), e.debug_spec());
            &&& r1.subrange(r1.len() - tail.len(), r1.len() as int) == tail
            &&& r2.subrange(r2.len() - tail.len(), r2.len() as int) == tail
        }),
{
    let tail = seq!['\n'] + dump_text(e.name_spec(), e.context_spec(), e.message_spec(), e.debug_spec());
    assert(r1 =~= (marker1 + shown1) + tail);
    assert(r2 =~= (marker2 + shown2) + tail);
    assert(r1.subrange(r1.len() - tail.len(), r1.len() as int) =~= tail);
    assert(r2.subrange(r2.len() - tail.len(), r2.len() as int) =~= tail);
}

/// An error of the simple lineage may be shown to the client exactly when its
/// shape is one of the two user-visible shapes; this holds of every error a
/// kind builds, the empty one included, as the kind's shape is carried over.
pub proof fn lemma_shown_to_client_by_shape(e: GenericServerError)
    ensures
        e.shown_to_client_spec() <==> (e.shape_spec() == GenericErrorShape::UserVisible
            || e.shape_spec() == GenericErrorShape::UserVisibleWithInfo),
        e.shape_spec() == GenericErrorShape::Internal ==> !e.shown_to_client_spec(),
{
}

} // verus!
