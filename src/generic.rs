use vstd::prelude::*;

use crate::text::{debug_str, debug_str_of};
use crate::template::{
    interpolate, interpolate_template, lemma_outcome_independent_of_values, TemplateError,
};

verus! {

/// The three shapes of the simple lineage of errors.
#[derive(Debug, Clone, Copy, PartialEq, Eq, Structural)]
pub enum GenericErrorShape {
    /// A fixed message that the client may see.
    UserVisible,
    /// A message that the client may see, with one caller-supplied piece of
    /// information put in place of `{user_visible_info}`.
    UserVisibleWithInfo,
    /// A fixed message for operators only; its rendering adds the dump of the
    /// error's fields.
    Internal,
}

/// An error that says whether it may be shown to the client.
pub trait GenericServerErrorTrait {
    spec fn shown_to_client_spec(&self) -> bool;

    fn should_be_shown_to_client(&self) -> (r: bool)
        ensures
            r == self.shown_to_client_spec(),
    ;
}

/// The fields that a template of the shape may name.
pub open spec fn shape_fields(shape: GenericErrorShape) -> Seq<Seq<char>> {
    match shape {
        GenericErrorShape::UserVisibleWithInfo => seq!["user_visible_info"@],
        _ => Seq::empty(),
    }
}

/// The values put in place of those fields.
pub open spec fn shape_values(shape: GenericErrorShape, info: Seq<char>) -> Seq<Seq<char>> {
    match shape {
        GenericErrorShape::UserVisibleWithInfo => seq![info],
        _ => Seq::empty(),
    }
}

/// The message that a client may read.
pub open spec fn public_text(template: Seq<char>, shape: GenericErrorShape, info: Seq<char>) -> Seq<
    char,
> {
    interpolate(template, shape_fields(shape), shape_values(shape, info)).unwrap()
}

/// The structural dump of a simple error, in the pretty `Debug` form: the
/// kind's name, then each field with its value quoted and escaped.
pub open spec fn generic_dump_text(
    name: Seq<char>,
    context: Seq<char>,
    debug: Seq<char>,
    info: Seq<char>,
) -> Seq<char> {
    name + " {\n    context: "@ + debug_str_of(context) + ",\n    debug: "@ + debug_str_of(debug)
        + ",\n    user_visible_info: "@ + debug_str_of(info) + ",\n}"@
}

/// A declared kind of the simple lineage: a name, a message template and a
/// shape. Only templates that interpolate are ever declared.
#[derive(Debug)]
pub struct GenericServerErrorKind {
    name: String,
    template: String,
    shape: GenericErrorShape,
}

/// An error of the simple lineage.
#[derive(Debug, Clone)]
pub struct GenericServerError {
    name: String,
    shape: GenericErrorShape,
    public_message: String,
    context: String,
    debug: String,
    user_visible_info: String,
}

fn shape_field_names(shape: GenericErrorShape) -> (r: Vec<String>)
    ensures
        r.deep_view() == shape_fields(shape),
{
    match shape {
        GenericErrorShape::UserVisibleWithInfo => {
            let r = vec![String::from_str("user_visible_info")];
            assert(r.deep_view() =~= shape_fields(shape));
            r
        },
        _ => {
            let r: Vec<String> = Vec::new();
            assert(r.deep_view() =~= shape_fields(shape));
            r
        },
    }
}

impl GenericServerErrorKind {
    pub closed spec fn name_spec(&self) -> Seq<char> {
        self.name@
    }

    pub closed spec fn template_spec(&self) -> Seq<char> {
        self.template@
    }

    pub closed spec fn shape_spec(&self) -> GenericErrorShape {
        self.shape
    }

    /// Only a kind whose template interpolates is ever built.
    #[verifier::type_invariant]
    closed spec fn inv(&self) -> bool {
        interpolate(self.template@, shape_fields(self.shape), shape_fields(self.shape)) is Ok
    }

    pub fn name(&self) -> (r: &String)
        ensures
            r@ == self.name_spec(),
    {
        &self.name
    }

    pub fn shape(&self) -> (r: GenericErrorShape)
        ensures
            r == self.shape_spec(),
    {
        self.shape
    }

    /// Declares a kind of the given shape; the template is refused, with the
    /// reason, as for the rich lineage.
    pub fn declare(name: &str, template: &str, shape: GenericErrorShape) -> (r: Result<
        GenericServerErrorKind,
        TemplateError,
    >)
        ensures
            match r {
                Ok(k) => {
                    &&& interpolate(template@, shape_fields(shape), shape_fields(shape)) is Ok
                    &&& k.name_spec() == name@
                    &&& k.template_spec() == template@
                    &&& k.shape_spec() == shape
                },
                Err(e) => interpolate(template@, shape_fields(shape), shape_fields(shape)) == Err::<
                    Seq<char>,
                    TemplateError,
                >(e),
            },
    {
        let names = shape_field_names(shape);
        match interpolate_template(template, &names, &names) {
            Ok(_) => Ok(
                GenericServerErrorKind { name: name.to_owned(), template: template.to_owned(), shape },
            ),
            Err(e) => Err(e),
        }
    }

    /// Builds an error of this kind from its context, its debug text and the
    /// information for the client.
    pub fn new(&self, context: &str, debug: &str, user_visible_info: &str) -> (r: GenericServerError)
        ensures
            r.name_spec() == self.name_spec(),
            r.shape_spec() == self.shape_spec(),
            r.public_message_spec() == public_text(
                self.template_spec(),
                self.shape_spec(),
                user_visible_info@,
            ),
            r.context_spec() == context@,
            r.debug_spec() == debug@,
            r.user_visible_info_spec() == user_visible_info@,
    {
        proof {
            use_type_invariant(self);
        }
        let names = shape_field_names(self.shape);
        let mut vals: Vec<String> = Vec::new();
        if self.shape == GenericErrorShape::UserVisibleWithInfo {
            vals.push(user_visible_info.to_owned());
        }
        proof {
            let ns = shape_fields(self.shape);
            assert(vals.deep_view() =~= shape_values(self.shape, user_visible_info@));
            lemma_outcome_independent_of_values(
                self.template@,
                ns,
                ns,
                shape_values(self.shape, user_visible_info@),
                0,
            );
        }
        let public_message = match interpolate_template(self.template.as_str(), &names, &vals) {
            Ok(m) => m,
            Err(_) => {
                proof {
                    assert(false);
                }
                String::new()
            },
        };
        GenericServerError {
            name: self.name.clone(),
            shape: self.shape,
            public_message,
            context: context.to_owned(),
            debug: debug.to_owned(),
            user_visible_info: user_visible_info.to_owned(),
        }
    }

    /// An error of this kind whose context, debug text and information are
    /// all empty.
    pub fn default(&self) -> (r: GenericServerError)
        ensures
            r.name_spec() == self.name_spec(),
            r.shape_spec() == self.shape_spec(),
            r.public_message_spec() == public_text(self.template_spec(), self.shape_spec(), Seq::empty()),
            r.context_spec() == Seq::<char>::empty(),
            r.debug_spec() == Seq::<char>::empty(),
            r.user_visible_info_spec() == Seq::<char>::empty(),
    {
        proof {
            reveal_strlit("");
            assert(""@ =~= Seq::<char>::empty());
        }
        self.new("", "", "")
    }
}

impl GenericServerError {
    pub closed spec fn name_spec(&self) -> Seq<char> {
        self.name@
    }

    pub closed spec fn shape_spec(&self) -> GenericErrorShape {
        self.shape
    }

    pub closed spec fn public_message_spec(&self) -> Seq<char> {
        self.public_message@
    }

    pub closed spec fn context_spec(&self) -> Seq<char> {
        self.context@
    }

    pub closed spec fn debug_spec(&self) -> Seq<char> {
        self.debug@
    }

    pub closed spec fn user_visible_info_spec(&self) -> Seq<char> {
        self.user_visible_info@
    }

    /// The rendering of this error: the public message, and for internal
    /// errors the dump of the fields after it.
    pub open spec fn rendering(&self) -> Seq<char> {
        match self.shape_spec() {
            GenericErrorShape::Internal => self.public_message_spec() + seq!['\n']
                + generic_dump_text(
                self.name_spec(),
                self.context_spec(),
                self.debug_spec(),
                self.user_visible_info_spec(),
            ),
            _ => self.public_message_spec(),
        }
    }

    pub fn name(&self) -> (r: &String)
        ensures
            r@ == self.name_spec(),
    {
        &self.name
    }

    pub fn shape(&self) -> (r: GenericErrorShape)
        ensures
            r == self.shape_spec(),
    {
        self.shape
    }

    pub fn context(&self) -> (r: &String)
        ensures
            r@ == self.context_spec(),
    {
        &self.context
    }

    pub fn debug(&self) -> (r: &String)
        ensures
            r@ == self.debug_spec(),
    {
        &self.debug
    }

    pub fn user_visible_info(&self) -> (r: &String)
        ensures
            r@ == self.user_visible_info_spec(),
    {
        &self.user_visible_info
    }

    /// The message that a client may read.
    pub fn public_message(&self) -> (r: &String)
        ensures
            r@ == self.public_message_spec(),
    {
        &self.public_message
    }

    /// Writes the rendering of this error.
    pub fn to_string(&self) -> (r: String)
        ensures
            r@ == self.rendering(),
    {
        let mut r = self.public_message.clone();
        if self.shape == GenericErrorShape::Internal {
            r.append("\n");
            r.append(self.name.as_str());
            r.append(" {\n    context: ");
            r.append(debug_str(self.context.as_str()).as_str());
            r.append(",\n    debug: ");
            r.append(debug_str(self.debug.as_str()).as_str());
            r.append(",\n    user_visible_info: ");
            r.append(debug_str(self.user_visible_info.as_str()).as_str());
            r.append(",\n}");
            proof {
                reveal_strlit("\n");
            }
            assert(r@ =~= self.rendering());
        }
        r
    }
}

impl GenericServerErrorTrait for GenericServerError {
    open spec fn shown_to_client_spec(&self) -> bool {
        self.shape_spec() != GenericErrorShape::Internal
    }

    fn should_be_shown_to_client(&self) -> (r: bool) {
        self.shape != GenericErrorShape::Internal
    }
}

} // verus!
