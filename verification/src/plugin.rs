//! Questions to a plugin about its parameters.
//!
//! Each function is handed the plugin's own function for the question, and turns the plugin's
//! answer into a result. `None` stands for an answer that the plugin refused to give.
use std::collections::HashMap;

use vstd::prelude::*;

use crate::clap;
use crate::double::Double;
use crate::params::{ParamInfo, ParamScan, ParamsError, RawParamInfo};
use crate::text;

verus! {

/// The result of asking for a parameter's value.
pub open spec fn value_result(param_id: u32, reply: Option<Double>) -> Result<
    Double,
    ParamsError<Seq<char>>,
> {
    match reply {
        Some(value) => Ok(value),
        None => Err(ParamsError::NoValue { param_id }),
    }
}

/// The result of asking for a value as text, given the buffer that the plugin wrote to.
pub open spec fn text_result(param_id: u32, value: Double, reply: Option<Seq<u8>>) -> Result<
    Seq<char>,
    ParamsError<Seq<char>>,
> {
    match reply {
        Some(buffer) => match text::buffer_text(buffer) {
            Ok(written) => Ok(written),
            Err(error) => Err(ParamsError::UnreadableText { param_id, value, error }),
        },
        None => Err(ParamsError::NoText { param_id, value }),
    }
}

/// The result of asking for the value behind a text.
pub open spec fn parsed_result(param_id: u32, text: Seq<char>, reply: Option<Double>) -> Result<
    Double,
    ParamsError<Seq<char>>,
> {
    match reply {
        Some(value) => Ok(value),
        None => Err(ParamsError::NoValueForText { param_id, text }),
    }
}

/// A buffer that may be missing, as a sequence of bytes.
pub open spec fn buffer_view(reply: Option<Vec<u8>>) -> Option<Seq<u8>> {
    match reply {
        Some(buffer) => Some(buffer@),
        None => None,
    }
}

/// Whether some function gave these answers to the questions for the first parameters.
pub open spec fn answered<F: Fn(u32) -> Option<RawParamInfo>>(
    get_info: F,
    answers: Seq<Option<RawParamInfo>>,
) -> bool {
    forall|i: int|
        0 <= i < answers.len() ==> call_ensures(get_info, (i as u32,), #[trigger] answers[i])
}

/// Answers with their buffers as sequences of bytes.
pub open spec fn answer_views(answers: Seq<Option<RawParamInfo>>) -> Seq<
    Option<crate::params::RawParamView>,
> {
    answers.map_values(|answer: Option<RawParamInfo>| crate::params::answer_view(answer))
}

/// The parameters of a plugin, as its `params` extension has them.
pub struct Params;

impl Params {
    /// The identifier of the extension, without its final zero byte.
    pub fn extension_id() -> (id: Vec<u8>)
        ensures
            id@ == clap::ascii("clap.params"@),
    {
        clap::ext_params()
    }

    /// Turns the plugin's answer to the question for a value into a result.
    pub fn read_value(param_id: u32, reply: Option<Double>) -> (result: Result<
        Double,
        ParamsError<String>,
    >)
        ensures
            match result {
                Ok(value) => value_result(param_id, reply) == Ok::<Double, ParamsError<Seq<char>>>(
                    value,
                ),
                Err(error) => value_result(param_id, reply) == Err::<
                    Double,
                    ParamsError<Seq<char>>,
                >(error@),
            },
            reply matches Some(value) ==> result == Ok::<Double, ParamsError<String>>(value),
            reply is None ==> (result matches Err(ParamsError::NoValue { param_id: asked }) && asked
                == param_id),
    {
        match reply {
            Some(value) => Ok(value),
            None => Err(ParamsError::NoValue { param_id }),
        }
    }

    /// Asks for a parameter's value.
    pub fn get<F: Fn(u32) -> Option<Double>>(param_id: u32, get_value: F) -> (result: Result<
        Double,
        ParamsError<String>,
    >)
        requires
            call_requires(get_value, (param_id,)),
        ensures
            match result {
                Ok(value) => exists|reply: Option<Double>| #[trigger]
                    call_ensures(get_value, (param_id,), reply) && value_result(param_id, reply)
                        == Ok::<Double, ParamsError<Seq<char>>>(value),
                Err(error) => exists|reply: Option<Double>| #[trigger]
                    call_ensures(get_value, (param_id,), reply) && value_result(param_id, reply)
                        == Err::<Double, ParamsError<Seq<char>>>(error@),
            },
            exists|reply: Option<Double>| #[trigger]
                call_ensures(get_value, (param_id,), reply) && match reply {
                    Some(value) => result == Ok::<Double, ParamsError<String>>(value),
                    None => result matches Err(ParamsError::NoValue { param_id: asked }) && asked
                        == param_id,
                },
    {
        let reply = get_value(param_id);
        Self::read_value(param_id, reply)
    }

    /// Turns the buffer that the plugin wrote a value to into a result.
    pub fn read_text(param_id: u32, value: Double, reply: Option<Vec<u8>>) -> (result: Result<
        String,
        ParamsError<String>,
    >)
        ensures
            match result {
                Ok(written) => text_result(param_id, value, buffer_view(reply)) == Ok::<
                    Seq<char>,
                    ParamsError<Seq<char>>,
                >(written@),
                Err(error) => text_result(param_id, value, buffer_view(reply)) == Err::<
                    Seq<char>,
                    ParamsError<Seq<char>>,
                >(error@),
            },
            match reply {
                None => result matches Err(ParamsError::NoText { param_id: asked, value: given })
                    && asked == param_id && given == value,
                Some(buffer) => match result {
                    Ok(written) => exists|end: int|
                        0 <= end < buffer@.len() && #[trigger] buffer@[end] == 0 && (forall|i: int|
                            0 <= i < end ==> buffer@[i] != 0) && vstd::utf8::encode_utf8(written@)
                            == buffer@.take(end),
                    Err(error) => error matches ParamsError::UnreadableText {
                        param_id: asked,
                        value: given,
                        error: why,
                    } && asked == param_id && given == value && match why {
                        text::TextError::NotTerminated => forall|i: int|
                            0 <= i < buffer@.len() ==> buffer@[i] != 0,
                        text::TextError::NotUtf8 => exists|end: int|
                            0 <= end < buffer@.len() && #[trigger] buffer@[end] == 0 && (forall|
                                i: int,
                            |
                                0 <= i < end ==> buffer@[i] != 0) && !vstd::utf8::valid_utf8(
                                buffer@.take(end),
                            ),
                    },
                },
            },
    {
        match reply {
            Some(buffer) => match text::c_char_slice_to_string(buffer.as_slice()) {
                Ok(written) => Ok(written),
                Err(error) => Err(ParamsError::UnreadableText { param_id, value, error }),
            },
            None => Err(ParamsError::NoText { param_id, value }),
        }
    }

    /// Asks for a parameter's value as text. The plugin may not support this.
    pub fn value_to_text<F: Fn(u32, Double) -> Option<Vec<u8>>>(
        param_id: u32,
        value: Double,
        write_value: F,
    ) -> (result: Result<String, ParamsError<String>>)
        requires
            call_requires(write_value, (param_id, value)),
        ensures
            match result {
                Ok(written) => exists|reply: Option<Vec<u8>>| #[trigger]
                    call_ensures(write_value, (param_id, value), reply) && text_result(
                        param_id,
                        value,
                        buffer_view(reply),
                    ) == Ok::<Seq<char>, ParamsError<Seq<char>>>(written@),
                Err(error) => exists|reply: Option<Vec<u8>>| #[trigger]
                    call_ensures(write_value, (param_id, value), reply) && text_result(
                        param_id,
                        value,
                        buffer_view(reply),
                    ) == Err::<Seq<char>, ParamsError<Seq<char>>>(error@),
            },
            exists|reply: Option<Vec<u8>>| #[trigger]
                call_ensures(write_value, (param_id, value), reply) && match reply {
                    None => result matches Err(
                        ParamsError::NoText { param_id: asked, value: given },
                    ) && asked == param_id && given == value,
                    Some(buffer) => match result {
                        Ok(written) => exists|end: int|
                            0 <= end < buffer@.len() && #[trigger] buffer@[end] == 0 && (forall|
                                i: int,
                            |
                                0 <= i < end ==> buffer@[i] != 0) && vstd::utf8::encode_utf8(
                                written@,
                            ) == buffer@.take(end),
                        Err(error) => error matches ParamsError::UnreadableText {
                            param_id: asked,
                            value: given,
                            error: why,
                        } && asked == param_id && given == value && match why {
                            text::TextError::NotTerminated => forall|i: int|
                                0 <= i < buffer@.len() ==> buffer@[i] != 0,
                            text::TextError::NotUtf8 => exists|end: int|
                                0 <= end < buffer@.len() && #[trigger] buffer@[end] == 0 && (forall|
                                    i: int,
                                |
                                    0 <= i < end ==> buffer@[i] != 0) && !vstd::utf8::valid_utf8(
                                    buffer@.take(end),
                                ),
                        },
                    },
                },
    {
        let reply = write_value(param_id, value);
        Self::read_text(param_id, value, reply)
    }

    /// Turns the plugin's answer to the question for the value behind a text into a result.
    pub fn read_parsed(param_id: u32, text: &str, reply: Option<Double>) -> (result: Result<
        Double,
        ParamsError<String>,
    >)
        ensures
            match result {
                Ok(value) => parsed_result(param_id, text@, reply) == Ok::<
                    Double,
                    ParamsError<Seq<char>>,
                >(value),
                Err(error) => parsed_result(param_id, text@, reply) == Err::<
                    Double,
                    ParamsError<Seq<char>>,
                >(error@),
            },
            reply matches Some(value) ==> result == Ok::<Double, ParamsError<String>>(value),
            reply is None ==> (result matches Err(
                ParamsError::NoValueForText { param_id: asked, text: given },
            ) && asked == param_id && given@ == text@),
    {
        match reply {
            Some(value) => Ok(value),
            None => Err(ParamsError::NoValueForText { param_id, text: text.to_owned() }),
        }
    }

    /// Asks for the value behind a text. The plugin may not support this. It is not asked if the
    /// text has a zero byte in it.
    pub fn text_to_value<F: Fn(u32, Vec<u8>) -> Option<Double>>(
        param_id: u32,
        text: &str,
        parse_value: F,
    ) -> (result: Result<Double, ParamsError<String>>)
        requires
            forall|bytes: Vec<u8>|
                text::c_string(text@) == Ok::<Seq<u8>, int>(bytes@) ==> #[trigger] call_requires(
                    parse_value,
                    (param_id, bytes),
                ),
        ensures
            match text::c_string(text@) {
                Err(at) => result matches Err(error) && error@ is NulInText && error@->position
                    == at,
                Ok(bytes) => exists|argument: Vec<u8>, reply: Option<Double>|
                    argument@ == bytes && #[trigger] call_ensures(
                        parse_value,
                        (param_id, argument),
                        reply,
                    ) && match result {
                        Ok(value) => parsed_result(param_id, text@, reply) == Ok::<
                            Double,
                            ParamsError<Seq<char>>,
                        >(value),
                        Err(error) => parsed_result(param_id, text@, reply) == Err::<
                            Double,
                            ParamsError<Seq<char>>,
                        >(error@),
                    },
            },
            if forall|i: int|
                0 <= i < vstd::utf8::encode_utf8(text@).len() ==> vstd::utf8::encode_utf8(text@)[i]
                    != 0 {
                exists|argument: Vec<u8>, reply: Option<Double>|
                    argument@ == vstd::utf8::encode_utf8(text@).push(0u8) && #[trigger]
                    call_ensures(parse_value, (param_id, argument), reply) && match reply {
                        Some(value) => result == Ok::<Double, ParamsError<String>>(value),
                        None => result matches Err(
                            ParamsError::NoValueForText { param_id: asked, text: given },
                        ) && asked == param_id && given@ == text@,
                    }
            } else {
                result matches Err(ParamsError::NulInText { position }) && position
                    < vstd::utf8::encode_utf8(text@).len() && vstd::utf8::encode_utf8(
                    text@,
                )[position as int] == 0 && forall|i: int|
                    0 <= i < position ==> vstd::utf8::encode_utf8(text@)[i] != 0
            },
    {
        match text::string_to_c_string(text) {
            Err(position) => Err(ParamsError::NulInText { position }),
            Ok(bytes) => {
                let reply = parse_value(param_id, bytes);
                Self::read_parsed(param_id, text, reply)
            },
        }
    }

    /// Asks for information about all of a plugin's parameters. Gives an error if they are
    /// inconsistent, for instance if two parameters have the same stable ID, or if the minimum of
    /// a parameter is higher than its maximum. After the first thing that is wrong, the plugin is
    /// not asked any further.
    pub fn info<F: Fn(u32) -> Option<RawParamInfo>>(num_params: u32, get_info: F) -> (result:
        Result<HashMap<u32, ParamInfo>, ParamsError<String>>)
        requires
            forall|index: u32| index < num_params ==> #[trigger] call_requires(get_info, (index,)),
        ensures
            match result {
                Ok(params) => exists|answers: Seq<Option<RawParamInfo>>| #[trigger]
                    answered(get_info, answers) && answers.len() == num_params && (
                    crate::params::scan(answer_views(answers), num_params) matches Ok(gathered)
                        && crate::params::params_view(params@) == gathered.params),
                Err(error) => exists|answers: Seq<Option<RawParamInfo>>| #[trigger]
                    answered(get_info, answers) && 0 < answers.len() <= num_params
                        && crate::params::scan(answer_views(answers.drop_last()), num_params) is Ok
                        && crate::params::scan(answer_views(answers), num_params) == Err::<
                        crate::params::ScanView,
                        ParamsError<Seq<char>>,
                    >(error@),
            },
            result matches Ok(params) ==> exists|answers: Seq<Option<RawParamInfo>>| #[trigger]
                answered(get_info, answers) && answers.len() == num_params && params@.dom().len()
                    == num_params && forall|i: int|
                    0 <= i < num_params ==> ((#[trigger] answers[i]) matches Some(raw) && {
                        &&& params@.contains_key(raw.id)
                        &&& params@[raw.id].range.start == raw.min_value
                        &&& params@[raw.id].range.end == raw.max_value
                        &&& params@[raw.id].default == raw.default_value
                        &&& params@[raw.id].flags == raw.flags
                        &&& text::buffer_text(raw.name@) == Ok::<Seq<char>, text::TextError>(
                            params@[raw.id].name@,
                        )
                    }),
            result matches Ok(params) ==> forall|id: u32| #[trigger]
                params@.contains_key(id) ==> {
                    let info = params@[id];
                    &&& !info.range.start.is_nan() && !info.default.is_nan()
                        && !info.range.end.is_nan()
                    &&& info.range.start.units() <= info.default.units() <= info.range.end.units()
                },
            result matches Err(ParamsError::NoInfo { index, num_params: total }) ==> index
                < num_params && total == num_params && call_ensures(get_info, (index,), None),
    {
        let mut gathered = ParamScan::new();
        let ghost mut answers: Seq<Option<RawParamInfo>> = Seq::empty();
        let mut index: u32 = 0;
        assert(answer_views(answers) =~= Seq::empty());
        while index < num_params
            invariant
                index <= num_params,
                answers.len() == index,
                forall|i: u32| i < num_params ==> #[trigger] call_requires(get_info, (i,)),
                answered(get_info, answers),
                crate::params::scan(answer_views(answers), num_params) == Ok::<
                    crate::params::ScanView,
                    ParamsError<Seq<char>>,
                >(gathered@),
            decreases num_params - index,
        {
            let answer = get_info(index);
            let ghost before = answers;
            proof {
                answers = answers.push(answer);
                assert(answers.drop_last() =~= before);
                assert(answer_views(answers).drop_last() =~= answer_views(before));
                assert(answer_views(answers).last() == crate::params::answer_view(answer));
                assert(answered(get_info, answers));
            }
            match gathered.take_answer(index, num_params, answer) {
                Ok(()) => {},
                Err(error) => {
                    proof {
                        lemma_no_info(before, answer, num_params);
                    }
                    return Err(error);
                },
            }
            index = index + 1;
        }
        let params = gathered.finish();
        proof {
            lemma_gathered(answers, num_params, params@);
        }
        Ok(params)
    }
}

/// That the plugin gave no information is reported only of the last answer, and only if it has
/// none.
proof fn lemma_no_info(
    before: Seq<Option<RawParamInfo>>,
    answer: Option<RawParamInfo>,
    num_params: u32,
)
    requires
        before.len() < num_params,
        crate::params::scan(answer_views(before), num_params) is Ok,
    ensures
        crate::params::scan(answer_views(before.push(answer)), num_params) matches Err(
            ParamsError::NoInfo { index, num_params: total },
        ) ==> index == before.len() && total == num_params && answer is None,
{
    let views = answer_views(before);
    let view = crate::params::answer_view(answer);
    assert(answer_views(before.push(answer)) =~= views.push(view));
    crate::param_laws::law_answers_are_taken_in_order(views, view, num_params);
    if let Some(raw) = view {
        let gathered = crate::params::scan(views, num_params)->Ok_0;
        if gathered.after_param(raw) is Err {
            crate::param_laws::law_reported_problem_is_the_first(gathered, raw);
        }
    }
}

/// What is gathered from answers, said of the parameters themselves.
proof fn lemma_gathered(
    answers: Seq<Option<RawParamInfo>>,
    num_params: u32,
    params: Map<u32, ParamInfo>,
)
    requires
        crate::params::scan(answer_views(answers), num_params) matches Ok(gathered)
            && crate::params::params_view(params) == gathered.params,
    ensures
        params.dom().len() == answers.len(),
        forall|i: int|
            0 <= i < answers.len() ==> ((#[trigger] answers[i]) matches Some(raw) && {
                &&& params.contains_key(raw.id)
                &&& params[raw.id].range.start == raw.min_value
                &&& params[raw.id].range.end == raw.max_value
                &&& params[raw.id].default == raw.default_value
                &&& params[raw.id].flags == raw.flags
                &&& text::buffer_text(raw.name@) == Ok::<Seq<char>, text::TextError>(
                    params[raw.id].name@,
                )
            }),
        forall|id: u32| #[trigger]
            params.contains_key(id) ==> {
                let info = params[id];
                &&& !info.range.start.is_nan() && !info.default.is_nan() && !info.range.end.is_nan()
                &&& info.range.start.units() <= info.default.units() <= info.range.end.units()
            },
{
    let views = answer_views(answers);
    let gathered = crate::params::scan(views, num_params)->Ok_0;
    crate::param_laws::law_gathered_params_are_the_answers(views, num_params);
    assert(params.dom() =~= gathered.params.dom());
    assert forall|i: int| 0 <= i < answers.len() implies ((#[trigger] answers[i]) matches Some(raw)
        && {
        &&& params.contains_key(raw.id)
        &&& params[raw.id].range.start == raw.min_value
        &&& params[raw.id].range.end == raw.max_value
        &&& params[raw.id].default == raw.default_value
        &&& params[raw.id].flags == raw.flags
        &&& text::buffer_text(raw.name@) == Ok::<Seq<char>, text::TextError>(params[raw.id].name@)
    }) by {
        assert(views[i] == crate::params::answer_view(answers[i]));
        assert(gathered.params.contains_key(views[i]->0.id));
        assert(gathered.params[views[i]->0.id] == params[views[i]->0.id]@);
    }
    assert forall|id: u32| #[trigger] params.contains_key(id) implies ({
        let info = params[id];
        &&& !info.range.start.is_nan() && !info.default.is_nan() && !info.range.end.is_nan()
        &&& info.range.start.units() <= info.default.units() <= info.range.end.units()
    }) by {
        assert(gathered.params.contains_key(id));
        let i = choose|i: int| 0 <= i < views.len() && (#[trigger] views[i])->0.id == id;
        crate::param_laws::law_default_lies_between_minimum_and_maximum(views, num_params, i);
        assert(gathered.params[id] == params[id]@);
    }
}

} // verus!
