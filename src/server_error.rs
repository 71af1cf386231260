use vstd::prelude::*;

verus! {

/// The fixed reply sent to a client in place of a client error's own message.
pub const CLIENT_ERROR_MSG: &'static str = "The request could not be processed.";

/// The fixed reply sent to a client in place of a sensitive error's own message.
pub const SENSITIVE_ERROR_MSG: &'static str = "The request is not authorized.";

/// How a server should expose an error of a given kind to its client.
#[derive(Debug, Clone, Copy, PartialEq)]
pub enum ServerErrorBehaviour {
    ForwardToClient,
    LogWarningForwardToClient,
    LogErrorForwardToClient,
    /// Log a warning; the client gets the fixed text, never the message.
    LogWarningSendFixedMsgToClient(&'static str),
    /// Log an error; the client gets the fixed text, never the message.
    LogErrorSendFixedMsgToClient(&'static str),
    ReturnInternalServerError,
    ReturnUnauthorized,
}

/// Severity marker of an error kind; it changes rendering only.
#[derive(Debug, Clone, Copy, PartialEq, Eq, Structural)]
pub enum ServerErrorTag {
    Normal,
    Critical,
}

/// What diagnostic context an error kind records when a value is built.
#[derive(Debug, Clone, Copy, PartialEq, Eq, Structural)]
pub enum ServerErrorContext {
    /// Record nothing but a fixed sentinel, so that no detail can leak.
    Omit,
    /// Record the file, line and column of the constructor's call site.
    Location,
    /// Record the call site and a snapshot of the whole call stack.
    Backtrace,
}

/// Read access to an error value: its handling policy, its context, its
/// message and its optional debug payload. Every read is pure.
pub trait ServerErrorTrait {
    spec fn name_spec(&self) -> Seq<char>;

    spec fn behaviour_spec(&self) -> ServerErrorBehaviour;

    spec fn tag_spec(&self) -> ServerErrorTag;

    spec fn context_spec(&self) -> Seq<char>;

    spec fn message_spec(&self) -> Seq<char>;

    spec fn debug_spec(&self) -> Option<Seq<char>>;

    /// The name of the error's kind.
    fn name(&self) -> (r: &String)
        ensures
            r@ == self.name_spec(),
    ;

    fn behaviour(&self) -> (r: ServerErrorBehaviour)
        ensures
            r == self.behaviour_spec(),
    ;

    fn tag(&self) -> (r: ServerErrorTag)
        ensures
            r == self.tag_spec(),
    ;

    fn context(&self) -> (r: &String)
        ensures
            r@ == self.context_spec(),
    ;

    fn message(&self) -> (r: &String)
        ensures
            r@ == self.message_spec(),
    ;

    fn debug(&self) -> (r: Option<&String>)
        ensures
            r matches Some(d) ==> self.debug_spec() == Some(d@),
            r is None ==> self.debug_spec() is None,
    ;
}

/// An error value of some declared kind. It is immutable once built: the
/// kind's behaviour and tag, the captured context, the interpolated message
/// and the optional debug payload.
#[derive(Debug, Clone)]
pub struct ServerError {
    name: String,
    behaviour: ServerErrorBehaviour,
    tag: ServerErrorTag,
    context: String,
    message: String,
    debug: Option<String>,
}

impl ServerError {
    pub(crate) fn build(
        name: String,
        behaviour: ServerErrorBehaviour,
        tag: ServerErrorTag,
        context: String,
        message: String,
        debug: Option<String>,
    ) -> (r: ServerError)
        ensures
            r.name_spec() == name@,
            r.behaviour_spec() == behaviour,
            r.tag_spec() == tag,
            r.context_spec() == context@,
            r.message_spec() == message@,
            r.debug_spec() == (match debug {
                Some(d) => Some(d@),
                None => None,
            }),
    {
        ServerError { name, behaviour, tag, context, message, debug }
    }
}

impl ServerErrorTrait for ServerError {
    closed spec fn name_spec(&self) -> Seq<char> {
        self.name@
    }

    closed spec fn behaviour_spec(&self) -> ServerErrorBehaviour {
        self.behaviour
    }

    closed spec fn tag_spec(&self) -> ServerErrorTag {
        self.tag
    }

    closed spec fn context_spec(&self) -> Seq<char> {
        self.context@
    }

    closed spec fn message_spec(&self) -> Seq<char> {
        self.message@
    }

    closed spec fn debug_spec(&self) -> Option<Seq<char>> {
        match self.debug {
            Some(d) => Some(d@),
            None => None,
        }
    }

    fn name(&self) -> (r: &String) {
        &self.name
    }

    fn behaviour(&self) -> (r: ServerErrorBehaviour) {
        self.behaviour
    }

    fn tag(&self) -> (r: ServerErrorTag) {
        self.tag
    }

    fn context(&self) -> (r: &String) {
        &self.context
    }

    fn message(&self) -> (r: &String) {
        &self.message
    }

    fn debug(&self) -> (r: Option<&String>) {
        self.debug.as_ref()
    }
}

} // verus!
