//! What holds of the parameters of a plugin as a whole.
use vstd::prelude::*;

use crate::params::{
    ParamInfo, ParamInfoView, ParamProblem, ParamReport, ParamsError, RawParamInfo, RawParamView,
    ScanView, ValueRange,
};

verus! {

/// Whether a parameter can be read and breaks no rule by itself.
pub open spec fn sound(raw: RawParamView) -> bool {
    &&& crate::text::buffer_text(raw.name) is Ok
    &&& crate::text::buffer_text(raw.module) matches Ok(module)
        && crate::params::first_problem(raw, module, None) is None
}

/// Whether a plugin answers for each parameter, every one of them is sound, no two have the same
/// stable ID, and no two are bypass parameters.
pub open spec fn consistent(answers: Seq<Option<RawParamView>>) -> bool {
    &&& forall|i: int| 0 <= i < answers.len() ==> #[trigger] answers[i] is Some
    &&& forall|i: int| 0 <= i < answers.len() ==> sound((#[trigger] answers[i])->0)
    &&& forall|i: int, j: int|
        0 <= i < j < answers.len() ==> (#[trigger] answers[i])->0.id != (#[trigger] answers[j])->0.id
    &&& forall|i: int, j: int|
        0 <= i < j < answers.len() ==> !(crate::params::is_bypass((#[trigger] answers[i])->0)
            && crate::params::is_bypass((#[trigger] answers[j])->0))
}

/// What is gathered about a sound parameter.
pub open spec fn info_of(raw: RawParamView) -> ParamInfoView {
    ParamInfoView {
        name: crate::text::buffer_text(raw.name)->Ok_0,
        range: ValueRange { start: raw.min_value, end: raw.max_value },
        default: raw.default_value,
        flags: raw.flags,
    }
}

/// Whether what was gathered is about exactly the parameters that were answered for.
pub open spec fn gathered_from(gathered: ScanView, answers: Seq<Option<RawParamView>>) -> bool {
    &&& forall|i: int|
        0 <= i < answers.len() ==> gathered.params.contains_key((#[trigger] answers[i])->0.id)
            && gathered.params[answers[i]->0.id] == info_of(answers[i]->0)
    &&& forall|id: u32| #[trigger]
        gathered.params.contains_key(id) ==> exists|i: int|
            0 <= i < answers.len() && (#[trigger] answers[i])->0.id == id
    &&& gathered.params.dom().finite()
    &&& gathered.params.dom().len() == answers.len()
    &&& forall|i: int|
        0 <= i < answers.len() && crate::params::is_bypass((#[trigger] answers[i])->0)
            ==> gathered.bypass == Some(answers[i]->0.id)
    &&& gathered.bypass is Some ==> exists|i: int|
        0 <= i < answers.len() && crate::params::is_bypass((#[trigger] answers[i])->0)
}

/// Asking for all parameters succeeds exactly if the plugin's answers are consistent. What is
/// gathered then is one entry for each parameter, under its stable ID.
pub proof fn law_exactly_consistent_answers_are_accepted(
    answers: Seq<Option<RawParamView>>,
    num_params: u32,
)
    ensures
        crate::params::scan(answers, num_params) is Ok <==> consistent(answers),
        crate::params::scan(answers, num_params) matches Ok(gathered) ==> gathered_from(
            gathered,
            answers,
        ),
    decreases answers.len(),
{
    if answers.len() == 0 {
        assert(ScanView::start().params.dom() =~= Set::empty());
    } else {
        let before = answers.drop_last();
        let last = answers.last();
        law_exactly_consistent_answers_are_accepted(before, num_params);
        assert(forall|i: int| 0 <= i < before.len() ==> before[i] == #[trigger] answers[i]);
        if consistent(answers) {
            assert(consistent(before)) by {
                assert forall|i: int| 0 <= i < before.len() implies #[trigger] before[i]
                    is Some by {
                    assert(answers[i] is Some);
                }
                assert forall|i: int| 0 <= i < before.len() implies sound(
                    (#[trigger] before[i])->0,
                ) by {
                    assert(sound(answers[i]->0));
                }
                assert forall|i: int, j: int| 0 <= i < j < before.len() implies (
                #[trigger] before[i])->0.id != (#[trigger] before[j])->0.id by {
                    assert(answers[i]->0.id != answers[j]->0.id);
                }
            }
        }
        match crate::params::scan(before, num_params) {
            Err(_) => {},
            Ok(gathered) => {
                lemma_last_answer(before, last, gathered, num_params);
                assert(before.push(last) =~= answers);
            },
        }
    }
}

/// The step of the induction over the answers.
proof fn lemma_last_answer(
    before: Seq<Option<RawParamView>>,
    last: Option<RawParamView>,
    gathered: ScanView,
    num_params: u32,
)
    requires
        consistent(before),
        gathered_from(gathered, before),
    ensures
        ({
            let index = before.len() as u32;
            let outcome = gathered.after_answer(index, num_params, last);
            &&& outcome is Ok <==> consistent(before.push(last))
            &&& outcome matches Ok(next) ==> gathered_from(next, before.push(last))
        }),
{
    let answers = before.push(last);
    let end = before.len() as int;
    let index = before.len() as u32;
    let outcome = gathered.after_answer(index, num_params, last);
    assert(answers[end] == last);
    assert(forall|i: int| 0 <= i < end ==> answers[i] == #[trigger] before[i]);
    if let Some(raw) = last {
        if consistent(answers) {
            assert(sound(answers[end]->0));
            assert(!gathered.params.contains_key(raw.id)) by {
                if gathered.params.contains_key(raw.id) {
                    let i = choose|i: int|
                        0 <= i < before.len() && (#[trigger] before[i])->0.id == raw.id;
                    assert(answers[i]->0.id != answers[end]->0.id);
                }
            }
            assert(crate::params::is_bypass(raw) ==> gathered.bypass is None) by {
                if crate::params::is_bypass(raw) && gathered.bypass is Some {
                    let i = choose|i: int|
                        0 <= i < before.len() && crate::params::is_bypass(
                            (#[trigger] before[i])->0,
                        );
                    assert(!(crate::params::is_bypass(answers[i]->0) && crate::params::is_bypass(
                        answers[end]->0,
                    )));
                }
            }
            assert(outcome is Ok);
        }
        if outcome is Ok {
            let next = outcome->Ok_0;
            assert(sound(raw));
            assert forall|i: int| 0 <= i < answers.len() implies #[trigger] answers[i] is Some by {
                if i < end {
                    assert(before[i] is Some);
                }
            }
            assert forall|i: int| 0 <= i < answers.len() implies sound(
                (#[trigger] answers[i])->0,
            ) by {
                if i < end {
                    assert(sound(before[i]->0));
                }
            }
            assert forall|i: int, j: int| 0 <= i < j < answers.len() implies (
            #[trigger] answers[i])->0.id != (#[trigger] answers[j])->0.id by {
                if j < end {
                    assert(before[i]->0.id != before[j]->0.id);
                } else {
                    assert(gathered.params.contains_key(before[i]->0.id));
                }
            }
            assert forall|i: int, j: int| 0 <= i < j < answers.len() implies !(
            crate::params::is_bypass((#[trigger] answers[i])->0) && crate::params::is_bypass(
                (#[trigger] answers[j])->0,
            )) by {
                if j < end {
                    assert(!(crate::params::is_bypass(before[i]->0) && crate::params::is_bypass(
                        before[j]->0,
                    )));
                } else {
                    assert(crate::params::is_bypass(before[i]->0) ==> gathered.bypass == Some(
                        before[i]->0.id,
                    ));
                }
            }
            assert(consistent(answers));
            assert forall|i: int| 0 <= i < answers.len() implies next.params.contains_key(
                (#[trigger] answers[i])->0.id,
            ) && next.params[answers[i]->0.id] == info_of(answers[i]->0) by {
                if i < end {
                    assert(gathered.params.contains_key(before[i]->0.id));
                    assert(answers[i]->0.id != answers[end]->0.id);
                }
            }
            assert forall|id: u32| #[trigger] next.params.contains_key(id) implies exists|i: int|
                0 <= i < answers.len() && (#[trigger] answers[i])->0.id == id by {
                if id == raw.id {
                    assert(answers[end]->0.id == id);
                } else {
                    assert(gathered.params.contains_key(id));
                    let i = choose|i: int|
                        0 <= i < before.len() && (#[trigger] before[i])->0.id == id;
                    assert(answers[i]->0.id == id);
                }
            }
            assert(next.params.dom() =~= gathered.params.dom().insert(raw.id));
            assert forall|i: int|
                0 <= i < answers.len() && crate::params::is_bypass(
                    (#[trigger] answers[i])->0,
                ) implies next.bypass == Some(answers[i]->0.id) by {
                if i < end {
                    assert(crate::params::is_bypass(before[i]->0));
                    assert(!(crate::params::is_bypass(answers[i]->0) && crate::params::is_bypass(
                        answers[end]->0,
                    )));
                }
            }
            if next.bypass is Some {
                if crate::params::is_bypass(raw) {
                    assert(crate::params::is_bypass(answers[end]->0));
                } else {
                    let i = choose|i: int|
                        0 <= i < before.len() && crate::params::is_bypass(
                            (#[trigger] before[i])->0,
                        );
                    assert(crate::params::is_bypass(answers[i]->0));
                }
            }
            assert(gathered_from(next, answers));
        }
    } else {
        assert(answers[end] is None);
    }
}

/// After something went wrong, further answers change nothing about it.
pub proof fn law_first_error_is_reported(
    answers: Seq<Option<RawParamView>>,
    more: Seq<Option<RawParamView>>,
    num_params: u32,
)
    requires
        crate::params::scan(answers, num_params) is Err,
    ensures
        crate::params::scan(answers + more, num_params) == crate::params::scan(answers, num_params),
    decreases more.len(),
{
    if more.len() == 0 {
        assert(answers + more =~= answers);
    } else {
        assert((answers + more).drop_last() =~= answers + more.drop_last());
        law_first_error_is_reported(answers, more.drop_last(), num_params);
    }
}

/// Two parameters with the same stable ID are refused.
pub proof fn law_duplicate_ids_are_refused(
    answers: Seq<Option<RawParamView>>,
    num_params: u32,
    first: int,
    second: int,
)
    requires
        0 <= first < second < answers.len(),
        answers[first] is Some,
        answers[second] is Some,
        answers[first]->0.id == answers[second]->0.id,
    ensures
        crate::params::scan(answers, num_params) is Err,
{
    law_exactly_consistent_answers_are_accepted(answers, num_params);
}

/// A parameter whose minimum is higher than its maximum is refused.
pub proof fn law_reversed_ranges_are_refused(
    answers: Seq<Option<RawParamView>>,
    num_params: u32,
    at: int,
)
    requires
        0 <= at < answers.len(),
        answers[at] is Some,
        answers[at]->0.min_value.is_above(answers[at]->0.max_value),
    ensures
        crate::params::scan(answers, num_params) is Err,
{
    law_exactly_consistent_answers_are_accepted(answers, num_params);
    if consistent(answers) {
        assert(sound(answers[at]->0));
    }
}

/// Whatever is gathered follows the rules: the default value lies in the range, a stepped
/// parameter has whole bounds, a bypass parameter is stepped, and a parameter that is automatable
/// or modulatable in parts is so as such.
pub proof fn law_gathered_params_follow_the_rules(
    answers: Seq<Option<RawParamView>>,
    num_params: u32,
    id: u32,
)
    requires
        crate::params::scan(answers, num_params) is Ok,
        crate::params::scan(answers, num_params)->Ok_0.params.contains_key(id),
    ensures
        ({
            let info = crate::params::scan(answers, num_params)->Ok_0.params[id];
            let bits = crate::clap::clap_param_flags();
            &&& info.range.holds(info.default)
            &&& info.range.start.is_at_most(info.range.end)
            &&& crate::params::flag_set(info.flags, bits.stepped) ==> info.range.start.is_whole()
                && info.range.end.is_whole()
            &&& crate::params::flag_set(info.flags, bits.bypass) ==> crate::params::flag_set(
                info.flags,
                bits.stepped,
            )
            &&& crate::params::flag_set(info.flags, crate::params::partly_automatable())
                ==> crate::params::flag_set(info.flags, bits.automatable)
            &&& crate::params::flag_set(info.flags, crate::params::partly_modulatable())
                ==> crate::params::flag_set(info.flags, bits.modulatable)
        }),
{
    law_exactly_consistent_answers_are_accepted(answers, num_params);
    let gathered = crate::params::scan(answers, num_params)->Ok_0;
    let i = choose|i: int| 0 <= i < answers.len() && (#[trigger] answers[i])->0.id == id;
    assert(sound(answers[i]->0));
    assert(gathered.params[id] == info_of(answers[i]->0));
}

/// At most one of the gathered parameters is a bypass parameter.
pub proof fn law_at_most_one_bypass_parameter(
    answers: Seq<Option<RawParamView>>,
    num_params: u32,
    left: u32,
    right: u32,
)
    requires
        crate::params::scan(answers, num_params) is Ok,
        crate::params::scan(answers, num_params)->Ok_0.params.contains_key(left),
        crate::params::scan(answers, num_params)->Ok_0.params.contains_key(right),
        ({
            let params = crate::params::scan(answers, num_params)->Ok_0.params;
            let bits = crate::clap::clap_param_flags();
            crate::params::flag_set(params[left].flags, bits.bypass) && crate::params::flag_set(
                params[right].flags,
                bits.bypass,
            )
        }),
    ensures
        left == right,
{
    law_exactly_consistent_answers_are_accepted(answers, num_params);
    let gathered = crate::params::scan(answers, num_params)->Ok_0;
    let i = choose|i: int| 0 <= i < answers.len() && (#[trigger] answers[i])->0.id == left;
    let j = choose|j: int| 0 <= j < answers.len() && (#[trigger] answers[j])->0.id == right;
    assert(gathered.params[left] == info_of(answers[i]->0));
    assert(gathered.params[right] == info_of(answers[j]->0));
    assert(crate::params::is_bypass(answers[i]->0));
    assert(crate::params::is_bypass(answers[j]->0));
}

/// Whatever is gathered has its default value between its minimum and its maximum, and all three
/// are numbers. This is so of the plugin's own answers, and of what is gathered from them.
pub proof fn law_default_lies_between_minimum_and_maximum(
    answers: Seq<Option<RawParamView>>,
    num_params: u32,
    at: int,
)
    requires
        0 <= at < answers.len(),
        crate::params::scan(answers, num_params) is Ok,
    ensures
        answers[at] matches Some(raw) && {
            let info = crate::params::scan(answers, num_params)->Ok_0.params[raw.id];
            &&& !raw.min_value.is_nan() && !raw.default_value.is_nan() && !raw.max_value.is_nan()
            &&& raw.min_value.units() <= raw.default_value.units() <= raw.max_value.units()
            &&& crate::params::scan(answers, num_params)->Ok_0.params.contains_key(raw.id)
            &&& info.range.start == raw.min_value
            &&& info.default == raw.default_value
            &&& info.range.end == raw.max_value
        },
{
    law_exactly_consistent_answers_are_accepted(answers, num_params);
    assert(sound(answers[at]->0));
}

/// A default value below the minimum or above the maximum is refused, and so is one that is no
/// number.
pub proof fn law_defaults_out_of_range_are_refused(
    answers: Seq<Option<RawParamView>>,
    num_params: u32,
    at: int,
)
    requires
        0 <= at < answers.len(),
        answers[at] matches Some(raw) && (raw.min_value.is_above(raw.default_value)
            || raw.default_value.is_above(raw.max_value) || raw.min_value.is_nan()
            || raw.default_value.is_nan() || raw.max_value.is_nan()),
    ensures
        crate::params::scan(answers, num_params) is Err,
{
    law_exactly_consistent_answers_are_accepted(answers, num_params);
    if consistent(answers) {
        assert(sound(answers[at]->0));
    }
}

/// A value lies in a range exactly if it is not below the start and not above the end, and all
/// three are numbers. A range that holds anything holds its own ends.
pub proof fn law_ranges_hold_what_lies_between(range: ValueRange, value: crate::double::Double)
    ensures
        range.holds(value) <==> !range.start.is_nan() && !value.is_nan() && !range.end.is_nan()
            && range.start.units() <= value.units() <= range.end.units(),
        range.holds(value) ==> !range.start.is_above(value) && !value.is_above(range.end),
        range.holds(value) ==> range.holds(range.start) && range.holds(range.end),
{
}

/// The bits of all the ways to be automatable or modulatable in parts.
proof fn lemma_partly_masks()
    ensures
        crate::params::partly_automatable() == 0x3c0,
        crate::params::partly_modulatable() == 0x7800,
{
    assert(0x40u32 | 0x80u32 | 0x100u32 | 0x200u32 == 0x3c0u32) by (bit_vector);
    assert(0x800u32 | 0x1000u32 | 0x2000u32 | 0x4000u32 == 0x7800u32) by (bit_vector);
}

/// When the next parameter is accepted: its texts can be read, its module path has no slash at
/// either end and no two in a row, its default value lies between its minimum and its maximum, it
/// has whole bounds if it is stepped, it is stepped and the only one of its kind if it is a bypass
/// parameter, whatever it is in parts it is as such, and no earlier parameter has its stable ID.
pub proof fn law_next_param_is_accepted(gathered: ScanView, raw: RawParamView)
    ensures
        gathered.after_param(raw) is Ok <==> {
            &&& crate::text::buffer_text(raw.name) is Ok
            &&& crate::text::buffer_text(raw.module) matches Ok(module) && {
                &&& module.len() > 0 ==> module[0] != '/' && module[module.len() - 1] != '/'
                &&& forall|i: int|
                    0 <= i < module.len() - 1 && #[trigger] module[i] == '/' ==> module[i + 1]
                        != '/'
            }
            &&& !raw.min_value.is_nan() && !raw.default_value.is_nan() && !raw.max_value.is_nan()
            &&& raw.min_value.units() <= raw.default_value.units() <= raw.max_value.units()
            &&& raw.flags & 0x1 != 0 ==> raw.min_value.is_whole() && raw.max_value.is_whole()
            &&& raw.flags & 0x10 != 0 ==> raw.flags & 0x1 != 0 && gathered.bypass is None
            &&& raw.flags & 0x3c0 != 0 ==> raw.flags & 0x20 != 0
            &&& raw.flags & 0x7800 != 0 ==> raw.flags & 0x400 != 0
            &&& !gathered.params.contains_key(raw.id)
        },
{
    lemma_partly_masks();
}

/// What becomes of a parameter that is accepted: it is added under its stable ID as the plugin
/// gave it, the other parameters stay, and a bypass parameter is remembered.
pub proof fn law_accepted_param_is_added(gathered: ScanView, raw: RawParamView)
    requires
        gathered.after_param(raw) is Ok,
    ensures
        ({
            let next = gathered.after_param(raw)->Ok_0;
            &&& next.params.contains_key(raw.id)
            &&& crate::text::buffer_text(raw.name) == Ok::<Seq<char>, crate::text::TextError>(
                next.params[raw.id].name,
            )
            &&& next.params[raw.id].range.start == raw.min_value
            &&& next.params[raw.id].range.end == raw.max_value
            &&& next.params[raw.id].default == raw.default_value
            &&& next.params[raw.id].flags == raw.flags
            &&& next.params.remove(raw.id) == gathered.params
            &&& raw.flags & 0x10 != 0 ==> next.bypass == Some(raw.id)
            &&& raw.flags & 0x10 == 0 ==> next.bypass == gathered.bypass
        }),
{
    assert(gathered.after_param(raw)->Ok_0.params.remove(raw.id) =~= gathered.params);
}

/// What is said about a parameter that is not accepted is so: it is about this parameter, with the
/// texts and values that the plugin gave, and the rule that it names is broken. Rules are looked at
/// in a fixed order, so that those before it are kept.
pub proof fn law_reported_problem_is_the_first(gathered: ScanView, raw: RawParamView)
    requires
        gathered.after_param(raw) is Err,
    ensures
        match gathered.after_param(raw)->Err_0 {
            ParamsError::UnreadableName { param_id, error } => param_id == raw.id
                && crate::text::buffer_text(raw.name) == Err::<Seq<char>, crate::text::TextError>(
                error,
            ),
            ParamsError::UnreadableModule { param_id, name, error } => param_id == raw.id
                && crate::text::buffer_text(raw.name) == Ok::<Seq<char>, crate::text::TextError>(
                name,
            ) && crate::text::buffer_text(raw.module) == Err::<Seq<char>, crate::text::TextError>(
                error,
            ),
            ParamsError::Inconsistent { param, problem } => {
                let module = param.module;
                let leading = module.len() > 0 && module[0] == '/';
                let trailing = module.len() > 0 && module[module.len() - 1] == '/';
                let repeated = exists|i: int|
                    0 <= i < module.len() - 1 && #[trigger] module[i] == '/' && module[i + 1]
                        == '/';
                let paths = !leading && !trailing && !repeated;
                let between = !raw.min_value.is_nan() && !raw.default_value.is_nan()
                    && !raw.max_value.is_nan() && raw.min_value.units()
                    <= raw.default_value.units() <= raw.max_value.units();
                let stepped = raw.flags & 0x1 != 0;
                let values = paths && between && (stepped ==> raw.min_value.is_whole()
                    && raw.max_value.is_whole());
                let bypass = raw.flags & 0x10 != 0;
                let bypasses = values && (bypass ==> stepped && gathered.bypass is None);
                let unautomatable = raw.flags & 0x3c0 != 0 && raw.flags & 0x20 == 0;
                let unmodulatable = raw.flags & 0x7800 != 0 && raw.flags & 0x400 == 0;
                &&& param.id == raw.id
                &&& crate::text::buffer_text(raw.name) == Ok::<Seq<char>, crate::text::TextError>(
                    param.name,
                )
                &&& crate::text::buffer_text(raw.module) == Ok::<Seq<char>, crate::text::TextError>(
                    module,
                )
                &&& param.min_value == raw.min_value
                &&& param.max_value == raw.max_value
                &&& param.default_value == raw.default_value
                &&& match problem {
                    ParamProblem::LeadingSlash => leading,
                    ParamProblem::TrailingSlash => !leading && trailing,
                    ParamProblem::RepeatedSlash => !leading && !trailing && repeated,
                    ParamProblem::MinimumAboveMaximum => paths && raw.min_value.is_above(
                        raw.max_value,
                    ),
                    ParamProblem::DefaultOutOfRange => paths && !raw.min_value.is_above(
                        raw.max_value,
                    ) && !between,
                    ParamProblem::MinimumNotWhole => paths && between && stepped
                        && !raw.min_value.is_whole(),
                    ParamProblem::MaximumNotWhole => paths && between && stepped
                        && raw.min_value.is_whole() && !raw.max_value.is_whole(),
                    ParamProblem::MultipleBypass { first } => values && bypass && gathered.bypass
                        == Some(first),
                    ParamProblem::BypassNotStepped => values && bypass && gathered.bypass is None
                        && !stepped,
                    ParamProblem::NotAutomatable => bypasses && unautomatable,
                    ParamProblem::NotModulatable => bypasses && !unautomatable && unmodulatable,
                    ParamProblem::DuplicateId => bypasses && !unautomatable && !unmodulatable
                        && gathered.params.contains_key(raw.id),
                }
            },
            _ => false,
        },
{
    lemma_partly_masks();
}

/// How the answers follow one another: without any there is nothing, a refused answer is reported
/// with its position and the number of parameters, and any other answer is taken with what was
/// gathered before it.
pub proof fn law_answers_are_taken_in_order(
    answers: Seq<Option<RawParamView>>,
    answer: Option<RawParamView>,
    num_params: u32,
)
    requires
        answers.len() <= u32::MAX,
    ensures
        crate::params::scan(Seq::empty(), num_params) == Ok::<ScanView, ParamsError<Seq<char>>>(
            ScanView { bypass: None, params: Map::empty() },
        ),
        match crate::params::scan(answers, num_params) {
            Err(error) => crate::params::scan(answers.push(answer), num_params) == Err::<
                ScanView,
                ParamsError<Seq<char>>,
            >(error),
            Ok(gathered) => match answer {
                None => crate::params::scan(answers.push(answer), num_params) matches Err(
                    ParamsError::NoInfo { index, num_params: total },
                ) && index == answers.len() && total == num_params,
                Some(raw) => crate::params::scan(answers.push(answer), num_params)
                    == gathered.after_param(raw),
            },
        },
{
    assert(answers.push(answer).drop_last() =~= answers);
}

/// Taking an answer is taking what the plugin says, or reporting that it said nothing.
pub proof fn law_one_answer(gathered: ScanView, index: u32, num_params: u32, raw: RawParamView)
    ensures
        gathered.after_answer(index, num_params, Some(raw)) == gathered.after_param(raw),
        gathered.after_answer(index, num_params, None) == Err::<ScanView, ParamsError<Seq<char>>>(
            ParamsError::NoInfo { index, num_params },
        ),
{
}

/// Which answers are accepted as a whole, in terms of nothing but the answers: there is one for
/// each parameter, each follows the rules by itself, no two have the same stable ID, and no two
/// are bypass parameters.
pub proof fn law_accepted_answers(answers: Seq<Option<RawParamView>>, num_params: u32)
    ensures
        crate::params::scan(answers, num_params) is Ok <==> {
            &&& forall|i: int|
                0 <= i < answers.len() ==> ((#[trigger] answers[i]) matches Some(raw) && {
                    &&& crate::text::buffer_text(raw.name) is Ok
                    &&& crate::text::buffer_text(raw.module) matches Ok(module) && {
                        &&& module.len() > 0 ==> module[0] != '/' && module[module.len() - 1] != '/'
                        &&& forall|k: int|
                            0 <= k < module.len() - 1 && #[trigger] module[k] == '/' ==> module[k
                                + 1] != '/'
                    }
                    &&& !raw.min_value.is_nan() && !raw.default_value.is_nan()
                        && !raw.max_value.is_nan()
                    &&& raw.min_value.units() <= raw.default_value.units() <= raw.max_value.units()
                    &&& raw.flags & 0x1 != 0 ==> raw.min_value.is_whole()
                        && raw.max_value.is_whole()
                    &&& raw.flags & 0x10 != 0 ==> raw.flags & 0x1 != 0
                    &&& raw.flags & 0x3c0 != 0 ==> raw.flags & 0x20 != 0
                    &&& raw.flags & 0x7800 != 0 ==> raw.flags & 0x400 != 0
                })
            &&& forall|i: int, j: int|
                0 <= i < j < answers.len() ==> (#[trigger] answers[i])->0.id != (
                #[trigger] answers[j])->0.id
            &&& forall|i: int, j: int|
                0 <= i < j < answers.len() ==> (#[trigger] answers[i])->0.flags & 0x10 == 0 || (
                #[trigger] answers[j])->0.flags & 0x10 == 0
        },
{
    law_exactly_consistent_answers_are_accepted(answers, num_params);
    lemma_partly_masks();
    if crate::params::scan(answers, num_params) is Ok {
        assert forall|i: int| 0 <= i < answers.len() implies sound(
            (#[trigger] answers[i])->0,
        ) by {}
        assert forall|i: int, j: int| 0 <= i < j < answers.len() implies (
        #[trigger] answers[i])->0.flags & 0x10 == 0 || (#[trigger] answers[j])->0.flags & 0x10
            == 0 by {
            assert(!(crate::params::is_bypass(answers[i]->0) && crate::params::is_bypass(
                answers[j]->0,
            )));
        }
    }
    if !consistent(answers) {
        if forall|i: int| 0 <= i < answers.len() ==> #[trigger] answers[i] is Some {
            if forall|i: int| 0 <= i < answers.len() ==> sound((#[trigger] answers[i])->0) {
            } else {
                let i = choose|i: int|
                    0 <= i < answers.len() && !sound((#[trigger] answers[i])->0);
                assert(answers[i] is Some);
                law_next_param_is_accepted(ScanView::start(), answers[i]->0);
            }
        }
    }
}

/// What is gathered from answers that are accepted: exactly one entry for each answer, under its
/// stable ID and as the plugin gave it.
pub proof fn law_gathered_params_are_the_answers(
    answers: Seq<Option<RawParamView>>,
    num_params: u32,
)
    requires
        crate::params::scan(answers, num_params) is Ok,
    ensures
        ({
            let params = crate::params::scan(answers, num_params)->Ok_0.params;
            &&& forall|i: int|
                0 <= i < answers.len() ==> ((#[trigger] answers[i]) matches Some(raw) && {
                    &&& params.contains_key(raw.id)
                    &&& crate::text::buffer_text(raw.name) == Ok::<
                        Seq<char>,
                        crate::text::TextError,
                    >(params[raw.id].name)
                    &&& params[raw.id].range.start == raw.min_value
                    &&& params[raw.id].range.end == raw.max_value
                    &&& params[raw.id].default == raw.default_value
                    &&& params[raw.id].flags == raw.flags
                })
            &&& forall|id: u32| #[trigger]
                params.contains_key(id) ==> exists|i: int|
                    0 <= i < answers.len() && (#[trigger] answers[i])->0.id == id
            &&& params.dom().len() == answers.len()
        }),
{
    law_exactly_consistent_answers_are_accepted(answers, num_params);
    assert forall|i: int| 0 <= i < answers.len() implies sound((#[trigger] answers[i])->0) by {}
}

/// What contracts say of parameters and of answers is about all that they hold.
pub proof fn law_views_hold_everything(
    info: ParamInfo,
    raw: RawParamInfo,
    report: ParamReport<String>,
    params: Map<u32, ParamInfo>,
    id: u32,
)
    ensures
        info@.name == info.name@,
        info@.range == info.range,
        info@.default == info.default,
        info@.flags == info.flags,
        raw@.id == raw.id,
        raw@.flags == raw.flags,
        raw@.name == raw.name@,
        raw@.module == raw.module@,
        raw@.min_value == raw.min_value,
        raw@.max_value == raw.max_value,
        raw@.default_value == raw.default_value,
        crate::params::answer_view(Some(raw)) == Some(raw@),
        crate::params::answer_view(None) is None,
        report@.id == report.id,
        report@.name == report.name@,
        report@.module == report.module@,
        report@.min_value == report.min_value,
        report@.max_value == report.max_value,
        report@.default_value == report.default_value,
        crate::params::params_view(params).contains_key(id) <==> params.contains_key(id),
        params.contains_key(id) ==> crate::params::params_view(params)[id] == params[id]@,
{
}

/// What contracts say of errors is about all that they hold.
pub proof fn law_error_views_hold_everything(error: ParamsError<String>)
    ensures
        match error {
            ParamsError::NoValue { param_id } => error@ matches ParamsError::NoValue {
                param_id: seen,
            } && seen == param_id,
            ParamsError::NoText { param_id, value } => error@ matches ParamsError::NoText {
                param_id: seen,
                value: asked,
            } && seen == param_id && asked == value,
            ParamsError::UnreadableText { param_id, value, error: why } => error@
                matches ParamsError::UnreadableText { param_id: seen, value: asked, error: reason }
                && seen == param_id && asked == value && reason == why,
            ParamsError::NulInText { position } => error@ matches ParamsError::NulInText {
                position: at,
            } && at == position,
            ParamsError::NoValueForText { param_id, text } => error@
                matches ParamsError::NoValueForText { param_id: seen, text: given } && seen
                == param_id && given == text@,
            ParamsError::NoInfo { index, num_params } => error@ matches ParamsError::NoInfo {
                index: at,
                num_params: total,
            } && at == index && total == num_params,
            ParamsError::UnreadableName { param_id, error: why } => error@
                matches ParamsError::UnreadableName { param_id: seen, error: reason } && seen
                == param_id && reason == why,
            ParamsError::UnreadableModule { param_id, name, error: why } => error@
                matches ParamsError::UnreadableModule {
                param_id: seen,
                name: called,
                error: reason,
            } && seen == param_id && called == name@ && reason == why,
            ParamsError::Inconsistent { param, problem } => error@
                matches ParamsError::Inconsistent { param: about, problem: rule } && about
                == param@ && rule == problem,
        },
{
}

/// A plugin's reply that holds a value is handed on as it is, bit for bit. Without one the error
/// names the parameter that was asked for, and the text.
pub proof fn law_replied_values_are_handed_on(
    param_id: u32,
    text: Seq<char>,
    value: crate::double::Double,
)
    ensures
        crate::plugin::value_result(param_id, Some(value)) == Ok::<
            crate::double::Double,
            ParamsError<Seq<char>>,
        >(value),
        crate::plugin::value_result(param_id, None) == Err::<
            crate::double::Double,
            ParamsError<Seq<char>>,
        >(ParamsError::NoValue { param_id }),
        crate::plugin::parsed_result(param_id, text, Some(value)) == Ok::<
            crate::double::Double,
            ParamsError<Seq<char>>,
        >(value),
        crate::plugin::parsed_result(param_id, text, None) == Err::<
            crate::double::Double,
            ParamsError<Seq<char>>,
        >(ParamsError::NoValueForText { param_id, text }),
{
}

/// A text that the plugin wrote to the buffer with a zero byte behind it comes out in full, all
/// characters of it, whatever its length and whatever else is in the buffer.
pub proof fn law_written_text_comes_out_in_full(
    param_id: u32,
    value: crate::double::Double,
    text: Seq<char>,
    buffer: Seq<u8>,
)
    requires
        forall|i: int|
            0 <= i < vstd::utf8::encode_utf8(text).len() ==> vstd::utf8::encode_utf8(text)[i] != 0,
        vstd::utf8::encode_utf8(text).push(0u8).is_prefix_of(buffer),
    ensures
        crate::plugin::text_result(param_id, value, Some(buffer)) == Ok::<
            Seq<char>,
            ParamsError<Seq<char>>,
        >(text),
{
    let encoded = vstd::utf8::encode_utf8(text);
    let end = encoded.len() as int;
    let written = encoded.push(0u8);
    assert(buffer.subrange(0, written.len() as int) =~= written);
    assert forall|i: int| 0 <= i <= end implies buffer[i] == written[i] by {
        assert(buffer.subrange(0, written.len() as int)[i] == buffer[i]);
    }
    assert(buffer.take(end) =~= encoded);
    crate::text::law_buffer_holds_what_was_written(buffer, text);
}

/// When a value does not come out as text: the plugin wrote nothing, its buffer has no zero byte,
/// or what stands before the first one is not UTF-8. The error names the parameter and the value.
pub proof fn law_unreadable_texts_are_refused(
    param_id: u32,
    value: crate::double::Double,
    buffer: Seq<u8>,
    end: int,
)
    ensures
        crate::plugin::text_result(param_id, value, None) == Err::<
            Seq<char>,
            ParamsError<Seq<char>>,
        >(ParamsError::NoText { param_id, value }),
        (forall|i: int| 0 <= i < buffer.len() ==> buffer[i] != 0) ==> crate::plugin::text_result(
            param_id,
            value,
            Some(buffer),
        ) == Err::<Seq<char>, ParamsError<Seq<char>>>(
            ParamsError::UnreadableText {
                param_id,
                value,
                error: crate::text::TextError::NotTerminated,
            },
        ),
        0 <= end < buffer.len() && buffer[end] == 0 && (forall|i: int|
            0 <= i < end ==> buffer[i] != 0) && !vstd::utf8::valid_utf8(buffer.take(end))
            ==> crate::plugin::text_result(param_id, value, Some(buffer)) == Err::<
            Seq<char>,
            ParamsError<Seq<char>>,
        >(
            ParamsError::UnreadableText {
                param_id,
                value,
                error: crate::text::TextError::NotUtf8,
            },
        ),
{
    crate::text::law_readable_buffers(buffer, end);
}

} // verus!
