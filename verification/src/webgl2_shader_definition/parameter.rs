//! The text of function parameters.

use vstd::prelude::*;
use vstd::string::*;

use super::generator::{
    first_void, lemma_first_void_at, lemma_no_void, declarable_below, Declaration, GenerateError,
    GenerateErrorView,
};
use super::model::{view_each, FunctionParameter, FunctionParameterView, ParameterQualifier};
use super::text::{decimal_text, push_decimal};

verus! {

/// The keyword of a qualifier; nothing where there is none.
pub open spec fn qualifier_token(qualifier: Option<ParameterQualifier>) -> Seq<char> {
    match qualifier {
        Some(ParameterQualifier::In) => "in"@,
        Some(ParameterQualifier::Out) => "out"@,
        Some(ParameterQualifier::InOut) => "inout"@,
        None => Seq::empty(),
    }
}

/// The length of an array in brackets; nothing where the parameter is no
/// array.
pub open spec fn array_suffix(array_length: Option<nat>) -> Seq<char> {
    match array_length {
        Some(length) => "["@ + decimal_text(length) + "]"@,
        None => Seq::empty(),
    }
}

/// Qualifier, kind and name, a space between them, and the array length
/// directly behind the name.
pub open spec fn parameter_text(parameter: FunctionParameterView) -> Seq<char> {
    qualifier_token(parameter.qualifier) + " "@ + parameter.kind.token() + " "@ + parameter.name
        + array_suffix(parameter.array_length)
}

/// The text of a parameter, which must not be of kind `void`.
pub open spec fn parameter_result(parameter: FunctionParameterView) -> Result<
    Seq<char>,
    GenerateErrorView,
> {
    if parameter.kind.declares_variable() {
        Ok(parameter_text(parameter))
    } else {
        Err(GenerateErrorView::InvalidType { name: parameter.name })
    }
}

pub open spec fn parameter_declarations(parameters: Seq<FunctionParameterView>) -> Seq<
    Declaration,
> {
    parameters.map_values(
        |parameter: FunctionParameterView|
            Declaration { kind: parameter.kind, name: parameter.name },
    )
}

/// The texts of the parameters with ` , ` between each two of them.
pub open spec fn parameter_list_text(parameters: Seq<FunctionParameterView>) -> Seq<char>
    decreases parameters.len(),
{
    if parameters.len() == 0 {
        Seq::empty()
    } else if parameters.len() == 1 {
        parameter_text(parameters[0])
    } else {
        parameter_list_text(parameters.drop_last()) + " , "@ + parameter_text(parameters.last())
    }
}

/// The text of a parameter list, none of whose parameters may be of kind
/// `void`; the first that is, is reported.
pub open spec fn parameter_list_result(parameters: Seq<FunctionParameterView>) -> Result<
    Seq<char>,
    GenerateErrorView,
> {
    match first_void(parameter_declarations(parameters)) {
        Some(name) => Err(GenerateErrorView::InvalidType { name }),
        None => Ok(parameter_list_text(parameters)),
    }
}

impl FunctionParameter {
    /// The parameter as it stands in a function header.
    pub fn as_str(&self) -> (result: Result<String, GenerateError>)
        ensures
            super::generator::text_outcome(result) == parameter_result(self@),
    {
        if !self.kind.is_declarable() {
            return Err(GenerateError::InvalidType { name: self.name.clone() });
        }
        let mut text = String::new();
        match self.qualifier {
            Some(ParameterQualifier::In) => {
                text.append("in");
            },
            Some(ParameterQualifier::Out) => {
                text.append("out");
            },
            Some(ParameterQualifier::InOut) => {
                text.append("inout");
            },
            None => {},
        }
        assert(text@ =~= qualifier_token(self@.qualifier));
        text.append(" ");
        text.append(self.kind.as_str());
        text.append(" ");
        text.append(self.name.as_str());
        let ghost named = text@;
        match self.array_length {
            Some(length) => {
                text.append("[");
                push_decimal(&mut text, length);
                text.append("]");
                assert(text@ =~= named + array_suffix(self@.array_length));
            },
            None => {
                assert(text@ =~= named + array_suffix(self@.array_length));
            },
        }
        Ok(text)
    }
}

/// The parameters as they stand between the brackets of a function header.
pub fn create_fn_param_str(params: &Vec<FunctionParameter>) -> (result: Result<
    String,
    GenerateError,
>)
    ensures
        super::generator::text_outcome(result) == parameter_list_result(view_each(params@)),
{
    let ghost parameters = view_each(params@);
    let ghost declarations = parameter_declarations(parameters);
    let mut text = String::new();
    let mut i: usize = 0;
    assert(parameters.take(0) =~= Seq::<FunctionParameterView>::empty());
    while i < params.len()
        invariant
            0 <= i <= params@.len(),
            parameters == view_each(params@),
            declarations == parameter_declarations(parameters),
            text@ == parameter_list_text(parameters.take(i as int)),
            declarable_below(declarations, i as int),
        decreases params@.len() - i,
    {
        let parameter = &params[i];
        proof {
            assert(parameters.take(i + 1).drop_last() =~= parameters.take(i as int));
            assert(parameters.take(i + 1).last() == parameter@);
            assert(parameters.take(i + 1)[0] == parameters[0]);
            assert(declarations[i as int].kind == parameter@.kind);
        }
        match parameter.as_str() {
            Err(error) => {
                proof {
                    lemma_first_void_at(declarations, i as int);
                }
                return Err(error);
            },
            Ok(rendered) => {
                if i > 0 {
                    text.append(" , ");
                }
                text.append(rendered.as_str());
                proof {
                    if i == 0 {
                        assert(text@ =~= parameter_text(parameter@));
                    }
                }
            },
        }
        i += 1;
    }
    proof {
        lemma_no_void(declarations);
        assert(parameters.take(i as int) =~= parameters);
    }
    Ok(text)
}

} // verus!
