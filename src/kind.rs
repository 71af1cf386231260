use vstd::prelude::*;

use crate::server_error::{
    ServerError, ServerErrorBehaviour, ServerErrorContext, ServerErrorTag, ServerErrorTrait,
    CLIENT_ERROR_MSG,
};
use crate::template::{
    field_text, field_texts, interpolate, interpolate_template,
    lemma_outcome_independent_of_values, FieldValue, TemplateError,
};
use crate::text::{decimal_of, push_char, push_decimal};

verus! {

/// The place in source code where an error value is built.
#[derive(Debug, Clone, PartialEq, Eq)]
pub struct CallSite {
    pub file: String,
    pub line: u32,
    pub column: u32,
}

impl CallSite {
    pub fn new(file: &str, line: u32, column: u32) -> (r: CallSite)
        ensures
            r.file@ == file@,
            r.line == line,
            r.column == column,
    {
        CallSite { file: file.to_owned(), line, column }
    }
}

/// `file:line:column` of a call site.
pub open spec fn location_text(site: CallSite) -> Seq<char> {
    site.file@ + seq![':'] + decimal_of(site.line as int) + seq![':'] + decimal_of(
        site.column as int,
    )
}

/// The context that a policy records at `site`, where `stack` is the text of
/// the call stack captured at that moment.
pub open spec fn context_text(
    policy: ServerErrorContext,
    site: CallSite,
    stack: Seq<char>,
) -> Seq<char> {
    match policy {
        ServerErrorContext::Omit => "OMITTED"@,
        ServerErrorContext::Location => location_text(site),
        ServerErrorContext::Backtrace => location_text(site) + seq!['\n'] + stack,
    }
}

/// Relies on std::backtrace::Backtrace::force_capture and its Display: the
/// text of the current call stack. What the text holds depends on the
/// platform and the build, so nothing is promised of it.
#[verifier::external_body]
fn capture_backtrace() -> (r: String) {
    std::backtrace::Backtrace::force_capture().to_string()
}

fn push_location(out: &mut String, site: &CallSite)
    ensures
        final(out)@ == old(out)@ + location_text(*site),
{
    out.append(site.file.as_str());
    push_char(out, ':');
    push_decimal(out, site.line as i64);
    push_char(out, ':');
    push_decimal(out, site.column as i64);
    assert(final(out)@ =~= old(out)@ + location_text(*site));
}

impl ServerErrorContext {
    /// Records the context this policy asks for, at `site`.
    pub fn capture(&self, site: &CallSite) -> (r: String)
        ensures
            exists|stack: Seq<char>| r@ == context_text(*self, *site, stack),
    {
        match self {
            ServerErrorContext::Omit => {
                let r = String::from_str("OMITTED");
                assert(r@ == context_text(*self, *site, Seq::empty()));
                r
            },
            ServerErrorContext::Location => {
                let mut r = String::new();
                push_location(&mut r, site);
                assert(r@ =~= context_text(*self, *site, Seq::empty()));
                r
            },
            ServerErrorContext::Backtrace => {
                let mut r = String::new();
                push_location(&mut r, site);
                push_char(&mut r, '\n');
                let stack = capture_backtrace();
                r.append(stack.as_str());
                assert(r@ =~= context_text(*self, *site, stack@));
                r
            },
        }
    }
}

/// A declared error kind: its name, its message template over named fields,
/// and the context policy, behaviour and tag that every error of the kind
/// carries. Only templates that interpolate are ever declared.
#[derive(Debug)]
pub struct ServerErrorKind {
    name: String,
    template: String,
    fields: Vec<String>,
    context_policy: ServerErrorContext,
    behaviour: ServerErrorBehaviour,
    tag: ServerErrorTag,
}

/// A template is accepted for a field list when it interpolates; by
/// `lemma_outcome_independent_of_values` the values do not matter.
pub open spec fn template_accepted(t: Seq<char>, ns: Seq<Seq<char>>) -> bool {
    interpolate(t, ns, ns) is Ok
}

/// The message of an error built with the field values `args`.
pub open spec fn message_of(t: Seq<char>, ns: Seq<Seq<char>>, args: Seq<FieldValue>) -> Seq<
    char,
> {
    interpolate(t, ns, args.map_values(|v: FieldValue| field_text(v))).unwrap()
}

/// `r` is the outcome of declaring a kind with these parts: the kind itself
/// when the template is accepted, else the reason it is refused.
pub open spec fn declared_as(
    r: Result<ServerErrorKind, TemplateError>,
    name: Seq<char>,
    template: Seq<char>,
    fields: Seq<Seq<char>>,
    context_policy: ServerErrorContext,
    behaviour: ServerErrorBehaviour,
    tag: ServerErrorTag,
) -> bool {
    match r {
        Ok(k) => {
            &&& template_accepted(template, fields)
            &&& k.name_spec() == name
            &&& k.template_spec() == template
            &&& k.fields_spec() == fields
            &&& k.context_policy_spec() == context_policy
            &&& k.behaviour_spec() == behaviour
            &&& k.tag_spec() == tag
        },
        Err(e) => interpolate(template, fields, fields) == Err::<Seq<char>, TemplateError>(e),
    }
}

impl ServerErrorKind {
    pub closed spec fn name_spec(&self) -> Seq<char> {
        self.name@
    }

    pub closed spec fn template_spec(&self) -> Seq<char> {
        self.template@
    }

    pub closed spec fn fields_spec(&self) -> Seq<Seq<char>> {
        self.fields.deep_view()
    }

    pub closed spec fn context_policy_spec(&self) -> ServerErrorContext {
        self.context_policy
    }

    pub closed spec fn behaviour_spec(&self) -> ServerErrorBehaviour {
        self.behaviour
    }

    pub closed spec fn tag_spec(&self) -> ServerErrorTag {
        self.tag
    }

    /// Only a kind whose template interpolates is ever built.
    #[verifier::type_invariant]
    closed spec fn inv(&self) -> bool {
        template_accepted(self.template@, self.fields.deep_view())
    }

    /// `e` is an error of this kind, built at `site` with `args`.
    pub open spec fn built(&self, e: ServerError, site: CallSite, args: Seq<FieldValue>) -> bool {
        &&& e.name_spec() == self.name_spec()
        &&& e.behaviour_spec() == self.behaviour_spec()
        &&& e.tag_spec() == self.tag_spec()
        &&& exists|stack: Seq<char>|
            e.context_spec() == context_text(self.context_policy_spec(), site, stack)
        &&& e.message_spec() == message_of(self.template_spec(), self.fields_spec(), args)
    }

    /// Declares an error kind. The template is refused, with the reason, when
    /// a placeholder is unclosed, names no field, or a `}` stands alone.
    pub fn declare(
        name: &str,
        template: &str,
        fields: Vec<String>,
        context_policy: ServerErrorContext,
        behaviour: ServerErrorBehaviour,
        tag: ServerErrorTag,
    ) -> (r: Result<ServerErrorKind, TemplateError>)
        ensures
            declared_as(r, name@, template@, fields.deep_view(), context_policy, behaviour, tag),
    {
        match interpolate_template(template, &fields, &fields) {
            Ok(_) => Ok(
                ServerErrorKind {
                    name: name.to_owned(),
                    template: template.to_owned(),
                    fields,
                    context_policy,
                    behaviour,
                    tag,
                },
            ),
            Err(e) => Err(e),
        }
    }

    /// An internal error: full context, answered with a generic server error.
    pub fn declare_internal(name: &str, template: &str, fields: Vec<String>) -> (r: Result<
        ServerErrorKind,
        TemplateError,
    >)
        ensures
            declared_as(
                r,
                name@,
                template@,
                fields.deep_view(),
                ServerErrorContext::Backtrace,
                ServerErrorBehaviour::ReturnInternalServerError,
                ServerErrorTag::Normal,
            ),
    {
        ServerErrorKind::declare(
            name,
            template,
            fields,
            ServerErrorContext::Backtrace,
            ServerErrorBehaviour::ReturnInternalServerError,
            ServerErrorTag::Normal,
        )
    }

    /// A critical error: full context, answered with a generic server error,
    /// and marked for operators.
    pub fn declare_critical(name: &str, template: &str, fields: Vec<String>) -> (r: Result<
        ServerErrorKind,
        TemplateError,
    >)
        ensures
            declared_as(
                r,
                name@,
                template@,
                fields.deep_view(),
                ServerErrorContext::Backtrace,
                ServerErrorBehaviour::ReturnInternalServerError,
                ServerErrorTag::Critical,
            ),
    {
        ServerErrorKind::declare(
            name,
            template,
            fields,
            ServerErrorContext::Backtrace,
            ServerErrorBehaviour::ReturnInternalServerError,
            ServerErrorTag::Critical,
        )
    }

    /// A client error: the call site only; the client gets a fixed reply.
    pub fn declare_client(name: &str, template: &str, fields: Vec<String>) -> (r: Result<
        ServerErrorKind,
        TemplateError,
    >)
        ensures
            declared_as(
                r,
                name@,
                template@,
                fields.deep_view(),
                ServerErrorContext::Location,
                ServerErrorBehaviour::LogErrorSendFixedMsgToClient(CLIENT_ERROR_MSG),
                ServerErrorTag::Normal,
            ),
    {
        ServerErrorKind::declare(
            name,
            template,
            fields,
            ServerErrorContext::Location,
            ServerErrorBehaviour::LogErrorSendFixedMsgToClient(CLIENT_ERROR_MSG),
            ServerErrorTag::Normal,
        )
    }

    /// A sensitive error: no context at all, answered as unauthorized.
    pub fn declare_sensitive(name: &str, template: &str, fields: Vec<String>) -> (r: Result<
        ServerErrorKind,
        TemplateError,
    >)
        ensures
            declared_as(
                r,
                name@,
                template@,
                fields.deep_view(),
                ServerErrorContext::Omit,
                ServerErrorBehaviour::ReturnUnauthorized,
                ServerErrorTag::Normal,
            ),
    {
        ServerErrorKind::declare(
            name,
            template,
            fields,
            ServerErrorContext::Omit,
            ServerErrorBehaviour::ReturnUnauthorized,
            ServerErrorTag::Normal,
        )
    }

    /// A user error: the call site only; the message goes to the client.
    pub fn declare_user(name: &str, template: &str, fields: Vec<String>) -> (r: Result<
        ServerErrorKind,
        TemplateError,
    >)
        ensures
            declared_as(
                r,
                name@,
                template@,
                fields.deep_view(),
                ServerErrorContext::Location,
                ServerErrorBehaviour::LogWarningForwardToClient,
                ServerErrorTag::Normal,
            ),
    {
        ServerErrorKind::declare(
            name,
            template,
            fields,
            ServerErrorContext::Location,
            ServerErrorBehaviour::LogWarningForwardToClient,
            ServerErrorTag::Normal,
        )
    }

    /// A temporary error: the call site only; the message goes to the client.
    pub fn declare_temporary(name: &str, template: &str, fields: Vec<String>) -> (r: Result<
        ServerErrorKind,
        TemplateError,
    >)
        ensures
            declared_as(
                r,
                name@,
                template@,
                fields.deep_view(),
                ServerErrorContext::Location,
                ServerErrorBehaviour::LogWarningForwardToClient,
                ServerErrorTag::Normal,
            ),
    {
        ServerErrorKind::declare(
            name,
            template,
            fields,
            ServerErrorContext::Location,
            ServerErrorBehaviour::LogWarningForwardToClient,
            ServerErrorTag::Normal,
        )
    }

    /// Builds an error of this kind at `site`, with no debug payload.
    pub fn new(&self, site: &CallSite, args: &Vec<FieldValue>) -> (r: ServerError)
        requires
            args@.len() == self.fields_spec().len(),
        ensures
            self.built(r, *site, args@),
            r.debug_spec() is None,
    {
        let context = self.context_policy.capture(site);
        let message = self.interpolate_message(args);
        ServerError::build(self.name.clone(), self.behaviour, self.tag, context, message, None)
    }

    /// Builds an error of this kind at `site`, carrying the rendered debug
    /// value `debug`.
    pub fn with_debug(&self, site: &CallSite, args: &Vec<FieldValue>, debug: String) -> (r:
        ServerError)
        requires
            args@.len() == self.fields_spec().len(),
        ensures
            self.built(r, *site, args@),
            r.debug_spec() == Some(debug@),
    {
        let context = self.context_policy.capture(site);
        let message = self.interpolate_message(args);
        ServerError::build(self.name.clone(), self.behaviour, self.tag, context, message, Some(debug))
    }

    fn interpolate_message(&self, args: &Vec<FieldValue>) -> (r: String)
        requires
            args@.len() == self.fields_spec().len(),
        ensures
            r@ == message_of(self.template_spec(), self.fields_spec(), args@),
    {
        proof {
            use_type_invariant(self);
        }
        let texts = field_texts(args);
        let ghost ns = self.fields.deep_view();
        let ghost vs = args@.map_values(|v: FieldValue| field_text(v));
        proof {
            assert(texts.deep_view() =~= vs);
            lemma_outcome_independent_of_values(self.template@, ns, ns, vs, 0);
        }
        match interpolate_template(self.template.as_str(), &self.fields, &texts) {
            Ok(m) => m,
            Err(_) => {
                proof {
                    assert(false);
                }
                String::new()
            },
        }
    }
    pub fn name(&self) -> (r: &String)
        ensures
            r@ == self.name_spec(),
    {
        &self.name
    }

    pub fn template(&self) -> (r: &String)
        ensures
            r@ == self.template_spec(),
    {
        &self.template
    }

    pub fn fields(&self) -> (r: &Vec<String>)
        ensures
            r.deep_view() == self.fields_spec(),
    {
        &self.fields
    }

    pub fn context_policy(&self) -> (r: ServerErrorContext)
        ensures
            r == self.context_policy_spec(),
    {
        self.context_policy
    }

    pub fn behaviour(&self) -> (r: ServerErrorBehaviour)
        ensures
            r == self.behaviour_spec(),
    {
        self.behaviour
    }

    pub fn tag(&self) -> (r: ServerErrorTag)
        ensures
            r == self.tag_spec(),
    {
        self.tag
    }
}

} // verus!
