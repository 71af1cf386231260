//! Typed server errors: declared error kinds with fixed handling policy,
//! message templates checked at declaration, and one shared rendering routine.
mod display;
mod generic;
mod kind;
mod laws;
mod server_error;
mod template;
mod text;

pub use display::{dump, render};
pub use generic::{
    GenericErrorShape, GenericServerError, GenericServerErrorKind, GenericServerErrorTrait,
};
pub use kind::{CallSite, ServerErrorKind};
pub use laws::{
    lemma_context_follows_policy, lemma_kind_fixes_behaviour_and_tag,
    lemma_message_same_for_both_constructors, lemma_rendering_determined, lemma_rendering_shows,
    lemma_shown_to_client_by_shape,
};
pub use server_error::{
    ServerError, ServerErrorBehaviour, ServerErrorContext, ServerErrorTag, ServerErrorTrait,
    CLIENT_ERROR_MSG, SENSITIVE_ERROR_MSG,
};
pub use template::{lemma_outcome_independent_of_values, FieldValue, TemplateError};
