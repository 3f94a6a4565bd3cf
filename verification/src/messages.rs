//! The messages for what can go wrong with parameters.
//!
//! How a number with a fraction is written out is up to the caller, who hands the written numbers
//! in.
use vstd::prelude::*;
use vstd::string::*;

use crate::params::{ParamProblem, ParamReport, ParamsError};
use crate::text;

verus! {

/// The numbers that a message may mention, written out.
#[derive(Debug, Clone)]
pub struct NumberTexts {
    /// The value that was asked about.
    pub value: String,
    /// The parameter's minimum.
    pub minimum: String,
    /// The parameter's maximum.
    pub maximum: String,
    /// The parameter's default value.
    pub default_value: String,
    /// The range from the minimum to the maximum.
    pub range: String,
}

/// The message for a parameter that breaks a rule.
pub open spec fn problem_message(
    param: ParamReport<Seq<char>>,
    problem: ParamProblem,
    numbers: NumberTexts,
) -> Seq<char> {
    match problem {
        ParamProblem::LeadingSlash => {
            "The module name for parameter '"@
                + param.name
                + "' (stable ID "@
                + text::decimal(param.id as nat)
                + ") starts with a leading slash: '"@
                + param.module
                + "'"@
        },
        ParamProblem::TrailingSlash => {
            "The module name for parameter '"@
                + param.name
                + "' (stable ID "@
                + text::decimal(param.id as nat)
                + ") ends with a trailing slash: '"@
                + param.module
                + "'"@
        },
        ParamProblem::RepeatedSlash => {
            "The module name for parameter '"@
                + param.name
                + "' (stable ID "@
                + text::decimal(param.id as nat)
                + ") contains multiple subsequent slashes: '"@
                + param.module
                + "'"@
        },
        ParamProblem::MinimumAboveMaximum => {
            "Parameter '"@
                + param.name
                + "' (stable ID "@
                + text::decimal(param.id as nat)
                + ") has a minimum value ("@
                + numbers.minimum@
                + ") that's higher than it's maximum value ("@
                + numbers.maximum@
                + ")"@
        },
        ParamProblem::DefaultOutOfRange => {
            "Parameter '"@
                + param.name
                + "' (stable ID "@
                + text::decimal(param.id as nat)
                + ") has a default value ("@
                + numbers.default_value@
                + ") that falls outside of its value range ("@
                + numbers.range@
                + ")"@
        },
        ParamProblem::MinimumNotWhole => {
            "Parameter '"@
                + param.name
                + "' (stable ID "@
                + text::decimal(param.id as nat)
                + ") is a stepped parameter, but its minimum value ("@
                + numbers.minimum@
                + ") is not an integer"@
        },
        ParamProblem::MaximumNotWhole => {
            "Parameter '"@
                + param.name
                + "' (stable ID "@
                + text::decimal(param.id as nat)
                + ") is a stepped parameter, but its maximum value ("@
                + numbers.maximum@
                + ") is not an integer"@
        },
        ParamProblem::MultipleBypass { first } => {
            "The plugin has multiple bypass parameters (stable indices "@
                + text::decimal(first as nat)
                + " and "@
                + text::decimal(param.id as nat)
                + ")"@
        },
        ParamProblem::BypassNotStepped => {
            "Parameter '"@
                + param.name
                + "' (stable ID "@
                + text::decimal(param.id as nat)
                + ") is a bypass parameter, but it is not stepped"@
        },
        ParamProblem::NotAutomatable => {
            "Parameter '"@
                + param.name
                + "' (stable ID "@
                + text::decimal(param.id as nat)
                + ") is automatable per note ID, key, channel, or port, but does not have CLAP_PARAM_IS_AUTOMATABLE. This is likely a bug."@
        },
        ParamProblem::NotModulatable => {
            "Parameter '"@
                + param.name
                + "' (stable ID "@
                + text::decimal(param.id as nat)
                + ") is modulatable per note ID, key, channel, or port, but does not have CLAP_PARAM_IS_MODULATABLE. This is likely a bug."@
        },
        ParamProblem::DuplicateId => {
            "The plugin contains multiple parameters with stable ID "@
                + text::decimal(param.id as nat)
        },
    }
}

/// The message for what went wrong.
pub open spec fn error_message(error: ParamsError<Seq<char>>, numbers: NumberTexts) -> Seq<char> {
    match error {
        ParamsError::NoValue { param_id } => {
            "'clap_plugin_params::get_value()' returned false for parameter ID "@
                + text::decimal(param_id as nat)
        },
        ParamsError::NoText { param_id, value: _ } => {
            "'clap_plugin_params::value_to_text()' returned false for parameter ID "@
                + text::decimal(param_id as nat)
                + " and value "@
                + numbers.value@
        },
        ParamsError::UnreadableText { param_id, value: _, error: _ } => {
            "Could not convert the string representation of "@
                + numbers.value@
                + " for parameter "@
                + text::decimal(param_id as nat)
                + " to a UTF-8 string"@
        },
        ParamsError::NulInText { position } => {
            "nul byte found in provided data at position: "@
                + text::decimal(position as nat)
        },
        ParamsError::NoValueForText { param_id, text: given } => {
            "'clap_plugin_params::text_to_value()' returned false for parameter ID "@
                + text::decimal(param_id as nat)
                + " and string representation '"@
                + given
                + "'"@
        },
        ParamsError::NoInfo { index, num_params } => {
            "Plugin returned an error when querying parameter "@
                + text::decimal(index as nat)
                + " ("@
                + text::decimal(num_params as nat)
                + " total parameters)"@
        },
        ParamsError::UnreadableName { param_id, error: _ } => {
            "Could not read the name for parameter with stable ID "@
                + text::decimal(param_id as nat)
        },
        ParamsError::UnreadableModule { param_id, name, error: _ } => {
            "Could not read the module name for parameter '"@
                + name
                + "' (stable ID "@
                + text::decimal(param_id as nat)
                + ")"@
        },
        ParamsError::Inconsistent { param, problem } => problem_message(param, problem, numbers),
    }
}

/// Writes the message for a parameter that breaks a rule.
fn write_problem(param: &ParamReport<String>, problem: ParamProblem, numbers: &NumberTexts) -> (
    result: String)
    ensures
        result@ == problem_message(param@, problem, *numbers),
{
    match problem {
        ParamProblem::LeadingSlash => {
            let mut message = "The module name for parameter '".to_owned();
            message.append(param.name.as_str());
            message.append("' (stable ID ");
            message.append(text::decimal_text(param.id as u64).as_str());
            message.append(") starts with a leading slash: '");
            message.append(param.module.as_str());
            message.append("'");
            message
        },
        ParamProblem::TrailingSlash => {
            let mut message = "The module name for parameter '".to_owned();
            message.append(param.name.as_str());
            message.append("' (stable ID ");
            message.append(text::decimal_text(param.id as u64).as_str());
            message.append(") ends with a trailing slash: '");
            message.append(param.module.as_str());
            message.append("'");
            message
        },
        ParamProblem::RepeatedSlash => {
            let mut message = "The module name for parameter '".to_owned();
            message.append(param.name.as_str());
            message.append("' (stable ID ");
            message.append(text::decimal_text(param.id as u64).as_str());
            message.append(") contains multiple subsequent slashes: '");
            message.append(param.module.as_str());
            message.append("'");
            message
        },
        ParamProblem::MinimumAboveMaximum => {
            let mut message = "Parameter '".to_owned();
            message.append(param.name.as_str());
            message.append("' (stable ID ");
            message.append(text::decimal_text(param.id as u64).as_str());
            message.append(") has a minimum value (");
            message.append(numbers.minimum.as_str());
            message.append(") that's higher than it's maximum value (");
            message.append(numbers.maximum.as_str());
            message.append(")");
            message
        },
        ParamProblem::DefaultOutOfRange => {
            let mut message = "Parameter '".to_owned();
            message.append(param.name.as_str());
            message.append("' (stable ID ");
            message.append(text::decimal_text(param.id as u64).as_str());
            message.append(") has a default value (");
            message.append(numbers.default_value.as_str());
            message.append(") that falls outside of its value range (");
            message.append(numbers.range.as_str());
            message.append(")");
            message
        },
        ParamProblem::MinimumNotWhole => {
            let mut message = "Parameter '".to_owned();
            message.append(param.name.as_str());
            message.append("' (stable ID ");
            message.append(text::decimal_text(param.id as u64).as_str());
            message.append(") is a stepped parameter, but its minimum value (");
            message.append(numbers.minimum.as_str());
            message.append(") is not an integer");
            message
        },
        ParamProblem::MaximumNotWhole => {
            let mut message = "Parameter '".to_owned();
            message.append(param.name.as_str());
            message.append("' (stable ID ");
            message.append(text::decimal_text(param.id as u64).as_str());
            message.append(") is a stepped parameter, but its maximum value (");
            message.append(numbers.maximum.as_str());
            message.append(") is not an integer");
            message
        },
        ParamProblem::MultipleBypass { first } => {
            let mut message = "The plugin has multiple bypass parameters (stable indices ".to_owned();
            message.append(text::decimal_text(first as u64).as_str());
            message.append(" and ");
            message.append(text::decimal_text(param.id as u64).as_str());
            message.append(")");
            message
        },
        ParamProblem::BypassNotStepped => {
            let mut message = "Parameter '".to_owned();
            message.append(param.name.as_str());
            message.append("' (stable ID ");
            message.append(text::decimal_text(param.id as u64).as_str());
            message.append(") is a bypass parameter, but it is not stepped");
            message
        },
        ParamProblem::NotAutomatable => {
            let mut message = "Parameter '".to_owned();
            message.append(param.name.as_str());
            message.append("' (stable ID ");
            message.append(text::decimal_text(param.id as u64).as_str());
            message.append(") is automatable per note ID, key, channel, or port, but does not have CLAP_PARAM_IS_AUTOMATABLE. This is likely a bug.");
            message
        },
        ParamProblem::NotModulatable => {
            let mut message = "Parameter '".to_owned();
            message.append(param.name.as_str());
            message.append("' (stable ID ");
            message.append(text::decimal_text(param.id as u64).as_str());
            message.append(") is modulatable per note ID, key, channel, or port, but does not have CLAP_PARAM_IS_MODULATABLE. This is likely a bug.");
            message
        },
        ParamProblem::DuplicateId => {
            let mut message = "The plugin contains multiple parameters with stable ID ".to_owned();
            message.append(text::decimal_text(param.id as u64).as_str());
            message
        },
    }
}

impl ParamsError<String> {
    /// Writes the message for what went wrong.
    pub fn message(&self, numbers: &NumberTexts) -> (result: String)
        ensures
            result@ == error_message(self@, *numbers),
    {
        match self {
            ParamsError::NoValue { param_id } => {
                let mut message = "'clap_plugin_params::get_value()' returned false for parameter ID ".to_owned();
                message.append(text::decimal_text(*param_id as u64).as_str());
                message
            },
            ParamsError::NoText { param_id, value: _ } => {
                let mut message = "'clap_plugin_params::value_to_text()' returned false for parameter ID ".to_owned();
                message.append(text::decimal_text(*param_id as u64).as_str());
                message.append(" and value ");
                message.append(numbers.value.as_str());
                message
            },
            ParamsError::UnreadableText { param_id, value: _, error: _ } => {
                let mut message = "Could not convert the string representation of ".to_owned();
                message.append(numbers.value.as_str());
                message.append(" for parameter ");
                message.append(text::decimal_text(*param_id as u64).as_str());
                message.append(" to a UTF-8 string");
                message
            },
            ParamsError::NulInText { position } => {
                let mut message = "nul byte found in provided data at position: ".to_owned();
                message.append(text::decimal_text(*position as u64).as_str());
                message
            },
            ParamsError::NoValueForText { param_id, text: given } => {
                let mut message = "'clap_plugin_params::text_to_value()' returned false for parameter ID ".to_owned();
                message.append(text::decimal_text(*param_id as u64).as_str());
                message.append(" and string representation '");
                message.append(given.as_str());
                message.append("'");
                message
            },
            ParamsError::NoInfo { index, num_params } => {
                let mut message = "Plugin returned an error when querying parameter ".to_owned();
                message.append(text::decimal_text(*index as u64).as_str());
                message.append(" (");
                message.append(text::decimal_text(*num_params as u64).as_str());
                message.append(" total parameters)");
                message
            },
            ParamsError::UnreadableName { param_id, error: _ } => {
                let mut message = "Could not read the name for parameter with stable ID ".to_owned();
                message.append(text::decimal_text(*param_id as u64).as_str());
                message
            },
            ParamsError::UnreadableModule { param_id, name, error: _ } => {
                let mut message = "Could not read the module name for parameter '".to_owned();
                message.append(name.as_str());
                message.append("' (stable ID ");
                message.append(text::decimal_text(*param_id as u64).as_str());
                message.append(")");
                message
            },
            ParamsError::Inconsistent { param, problem } => write_problem(param, *problem, numbers),
        }
    }
}

/// The message for a parameter that breaks a rule names the parameter, in full and by its stable
/// ID, and quotes what breaks the rule.
pub proof fn law_problem_messages_name_the_parameter(
    param: ParamReport<Seq<char>>,
    problem: ParamProblem,
    numbers: NumberTexts,
)
    ensures
        ({
            let message = error_message(ParamsError::Inconsistent { param, problem }, numbers);
            let id = text::decimal(param.id as nat);
            let param_part = "Parameter '"@ + param.name + "' (stable ID "@ + id;
            let module_part = "The module name for parameter '"@ + param.name + "' (stable ID "@
                + id;
            match problem {
                ParamProblem::LeadingSlash => message == module_part
                    + ") starts with a leading slash: '"@ + param.module + "'"@,
                ParamProblem::TrailingSlash => message == module_part
                    + ") ends with a trailing slash: '"@ + param.module + "'"@,
                ParamProblem::RepeatedSlash => message == module_part
                    + ") contains multiple subsequent slashes: '"@ + param.module + "'"@,
                ParamProblem::MinimumAboveMaximum => message == param_part
                    + ") has a minimum value ("@ + numbers.minimum@
                    + ") that's higher than it's maximum value ("@ + numbers.maximum@ + ")"@,
                ParamProblem::DefaultOutOfRange => message == param_part
                    + ") has a default value ("@ + numbers.default_value@
                    + ") that falls outside of its value range ("@ + numbers.range@ + ")"@,
                ParamProblem::MinimumNotWhole => message == param_part
                    + ") is a stepped parameter, but its minimum value ("@ + numbers.minimum@
                    + ") is not an integer"@,
                ParamProblem::MaximumNotWhole => message == param_part
                    + ") is a stepped parameter, but its maximum value ("@ + numbers.maximum@
                    + ") is not an integer"@,
                ParamProblem::MultipleBypass { first } => message
                    == "The plugin has multiple bypass parameters (stable indices "@
                    + text::decimal(first as nat) + " and "@ + id + ")"@,
                ParamProblem::BypassNotStepped => message == param_part
                    + ") is a bypass parameter, but it is not stepped"@,
                ParamProblem::NotAutomatable => message == param_part
                    + ") is automatable per note ID, key, channel, or port, but does not have CLAP_PARAM_IS_AUTOMATABLE. This is likely a bug."@,
                ParamProblem::NotModulatable => message == param_part
                    + ") is modulatable per note ID, key, channel, or port, but does not have CLAP_PARAM_IS_MODULATABLE. This is likely a bug."@,
                ParamProblem::DuplicateId => message
                    == "The plugin contains multiple parameters with stable ID "@ + id,
            }
        }),
{
}

/// The message for a plugin that gave no answer, or one that cannot be read, names what was asked.
pub proof fn law_other_messages_name_the_question(
    param_id: u32,
    value: crate::double::Double,
    error: text::TextError,
    position: usize,
    given: Seq<char>,
    num_params: u32,
    numbers: NumberTexts,
)
    ensures
        ({
            let id = text::decimal(param_id as nat);
            &&& error_message(ParamsError::NoValue { param_id }, numbers)
                == "'clap_plugin_params::get_value()' returned false for parameter ID "@ + id
            &&& error_message(ParamsError::NoText { param_id, value }, numbers)
                == "'clap_plugin_params::value_to_text()' returned false for parameter ID "@ + id
                + " and value "@ + numbers.value@
            &&& error_message(ParamsError::UnreadableText { param_id, value, error }, numbers)
                == "Could not convert the string representation of "@ + numbers.value@
                + " for parameter "@ + id + " to a UTF-8 string"@
            &&& error_message(ParamsError::NulInText { position }, numbers)
                == "nul byte found in provided data at position: "@ + text::decimal(
                position as nat,
            )
            &&& error_message(ParamsError::NoValueForText { param_id, text: given }, numbers)
                == "'clap_plugin_params::text_to_value()' returned false for parameter ID "@ + id
                + " and string representation '"@ + given + "'"@
            &&& error_message(ParamsError::NoInfo { index: param_id, num_params }, numbers)
                == "Plugin returned an error when querying parameter "@ + id + " ("@
                + text::decimal(num_params as nat) + " total parameters)"@
            &&& error_message(ParamsError::UnreadableName { param_id, error }, numbers)
                == "Could not read the name for parameter with stable ID "@ + id
            &&& error_message(
                ParamsError::UnreadableModule { param_id, name: given, error },
                numbers,
            ) == "Could not read the module name for parameter '"@ + given + "' (stable ID "@ + id
                + ")"@
        }),
{
}

} // verus!
