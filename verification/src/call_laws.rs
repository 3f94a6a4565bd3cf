//! What holds of calls and of what they result in: of one call by itself, and of several calls in
//! relation to one another.
//!
//! A call stands in these laws as its function, its arguments and an outcome that it may have.
use std::collections::HashMap;
use std::sync::Arc;

use vstd::prelude::*;

use crate::double::Double;
use crate::host::{ClapHost, HostExtension, RegistrationError};
use crate::instance::{HostPluginInstance, PluginHandle, ThreadId};
use crate::messages::NumberTexts;
use crate::params::{ParamInfo, ParamScan, ParamsError, RawParamInfo, ValueRange};
use crate::plugin::Params;
use crate::text::TextError;

verus! {

/// A plugin's reply that holds a value is what comes out, bit for bit.
pub proof fn law_replies_come_out(
    param_id: u32,
    text: &str,
    value: Double,
    read: Result<Double, ParamsError<String>>,
    parsed: Result<Double, ParamsError<String>>,
)
    requires
        call_ensures(Params::read_value, (param_id, Some(value)), read),
        call_ensures(Params::read_parsed, (param_id, text, Some(value)), parsed),
    ensures
        read matches Ok(given) && given.bits == value.bits,
        parsed matches Ok(given) && given.bits == value.bits,
{
}

/// Without a reply nothing comes out, and the error says what was asked.
pub proof fn law_missing_replies_are_errors(
    param_id: u32,
    text: &str,
    value: Double,
    read: Result<Double, ParamsError<String>>,
    parsed: Result<Double, ParamsError<String>>,
    written: Result<String, ParamsError<String>>,
)
    requires
        call_ensures(Params::read_value, (param_id, None), read),
        call_ensures(Params::read_parsed, (param_id, text, None), parsed),
        call_ensures(Params::read_text, (param_id, value, None), written),
    ensures
        read matches Err(ParamsError::NoValue { param_id: asked }) && asked == param_id,
        parsed matches Err(ParamsError::NoValueForText { param_id: asked, text: given }) && asked
            == param_id && given@ == text@,
        written matches Err(ParamsError::NoText { param_id: asked, value: given }) && asked
            == param_id && given == value,
{
}

/// Asking a plugin that has a value for a parameter gives that value.
pub proof fn law_value_is_what_the_plugin_has<F: Fn(u32) -> Option<Double>>(
    param_id: u32,
    get_value: F,
    value: Double,
    result: Result<Double, ParamsError<String>>,
)
    requires
        call_ensures(Params::get::<F>, (param_id, get_value), result),
        forall|reply: Option<Double>| #[trigger]
            call_ensures(get_value, (param_id,), reply) ==> reply == Some(value),
    ensures
        result == Ok::<Double, ParamsError<String>>(value),
{
}

/// Asking a plugin for the value behind a text gives the value that it reads there, if the text has
/// no zero byte.
pub proof fn law_parsed_value_is_what_the_plugin_reads<F: Fn(u32, Vec<u8>) -> Option<Double>>(
    param_id: u32,
    text: &str,
    parse_value: F,
    value: Double,
    result: Result<Double, ParamsError<String>>,
)
    requires
        call_ensures(Params::text_to_value::<F>, (param_id, text, parse_value), result),
        forall|i: int|
            0 <= i < vstd::utf8::encode_utf8(text@).len() ==> vstd::utf8::encode_utf8(text@)[i]
                != 0,
        forall|argument: Vec<u8>, reply: Option<Double>|
            argument@ == vstd::utf8::encode_utf8(text@).push(0u8) && #[trigger] call_ensures(
                parse_value,
                (param_id, argument),
                reply,
            ) ==> reply == Some(value),
    ensures
        result == Ok::<Double, ParamsError<String>>(value),
{
}

/// A text that the plugin wrote with a zero byte behind it comes out in full, whatever its length
/// and whatever stands behind it in the buffer.
pub proof fn law_written_texts_come_out(
    param_id: u32,
    value: Double,
    text: Seq<char>,
    buffer: Vec<u8>,
    result: Result<String, ParamsError<String>>,
)
    requires
        call_ensures(Params::read_text, (param_id, value, Some(buffer)), result),
        forall|i: int|
            0 <= i < vstd::utf8::encode_utf8(text).len() ==> vstd::utf8::encode_utf8(text)[i] != 0,
        vstd::utf8::encode_utf8(text).push(0u8).is_prefix_of(buffer@),
    ensures
        result matches Ok(written) && written@ == text,
{
    crate::param_laws::law_written_text_comes_out_in_full(param_id, value, text, buffer@);
}

/// Asking a plugin for a value as text gives the text that it writes, in full.
pub proof fn law_text_is_what_the_plugin_writes<F: Fn(u32, Double) -> Option<Vec<u8>>>(
    param_id: u32,
    value: Double,
    write_value: F,
    text: Seq<char>,
    result: Result<String, ParamsError<String>>,
)
    requires
        call_ensures(Params::value_to_text::<F>, (param_id, value, write_value), result),
        forall|i: int|
            0 <= i < vstd::utf8::encode_utf8(text).len() ==> vstd::utf8::encode_utf8(text)[i] != 0,
        forall|reply: Option<Vec<u8>>| #[trigger]
            call_ensures(write_value, (param_id, value), reply) ==> (reply matches Some(buffer)
                && vstd::utf8::encode_utf8(text).push(0u8).is_prefix_of(buffer@)),
    ensures
        result matches Ok(written) && written@ == text,
{
    let reply = choose|reply: Option<Vec<u8>>| #[trigger]
        call_ensures(write_value, (param_id, value), reply) && match result {
            Ok(written) => crate::plugin::text_result(
                param_id,
                value,
                crate::plugin::buffer_view(reply),
            ) == Ok::<Seq<char>, ParamsError<Seq<char>>>(written@),
            Err(error) => crate::plugin::text_result(
                param_id,
                value,
                crate::plugin::buffer_view(reply),
            ) == Err::<Seq<char>, ParamsError<Seq<char>>>(error@),
        };
    crate::param_laws::law_written_text_comes_out_in_full(param_id, value, text, reply->0@);
}

/// A plugin that refuses to say anything about a parameter leads to an error, and so does one whose
/// default value for a parameter is not between the minimum and the maximum.
pub proof fn law_refused_or_wrong_answers_are_errors<F: Fn(u32) -> Option<RawParamInfo>>(
    num_params: u32,
    get_info: F,
    index: u32,
    result: Result<HashMap<u32, ParamInfo>, ParamsError<String>>,
)
    requires
        call_ensures(Params::info::<F>, (num_params, get_info), result),
        index < num_params,
        forall|answer: Option<RawParamInfo>| #[trigger]
            call_ensures(get_info, (index,), answer) ==> match answer {
                None => true,
                Some(raw) => raw.min_value.is_above(raw.default_value)
                    || raw.default_value.is_above(raw.max_value),
            },
    ensures
        result is Err,
{
    if let Ok(params) = result {
        let answers = choose|answers: Seq<Option<RawParamInfo>>| #[trigger]
            crate::plugin::answered(get_info, answers) && answers.len() == num_params
                && params@.dom().len() == num_params && forall|i: int|
                0 <= i < num_params ==> ((#[trigger] answers[i]) matches Some(raw) && {
                    &&& params@.contains_key(raw.id)
                    &&& params@[raw.id].range.start == raw.min_value
                    &&& params@[raw.id].range.end == raw.max_value
                    &&& params@[raw.id].default == raw.default_value
                    &&& params@[raw.id].flags == raw.flags
                    &&& crate::text::buffer_text(raw.name@) == Ok::<Seq<char>, TextError>(
                        params@[raw.id].name@,
                    )
                });
        assert(call_ensures(get_info, (index,), answers[index as int]));
        assert(params@.contains_key(answers[index as int]->0.id));
    }
}

/// The parameters that come out are as many as were asked for, and each of them has its default
/// value between its minimum and its maximum, none of the three being anything but a number.
pub proof fn law_info_has_every_parameter<F: Fn(u32) -> Option<RawParamInfo>>(
    num_params: u32,
    get_info: F,
    params: HashMap<u32, ParamInfo>,
    id: u32,
)
    requires
        call_ensures(
            Params::info::<F>,
            (num_params, get_info),
            Ok::<HashMap<u32, ParamInfo>, ParamsError<String>>(params),
        ),
    ensures
        params@.dom().len() == num_params,
        params@.contains_key(id) ==> {
            let info = params@[id];
            &&& !info.range.start.is_nan() && !info.default.is_nan() && !info.range.end.is_nan()
            &&& info.range.start.units() <= info.default.units() <= info.range.end.units()
        },
{
}

/// Taking a parameter that was taken before fails, and what was gathered stays as it is.
pub proof fn law_no_parameter_is_taken_twice(
    first: &mut ParamScan,
    second: &mut ParamScan,
    raw: RawParamInfo,
    again: RawParamInfo,
    result: Result<(), ParamsError<String>>,
)
    requires
        call_ensures(
            ParamScan::take_param,
            (first, raw),
            Ok::<(), ParamsError<String>>(()),
        ),
        final(first)@ == old(second)@,
        call_ensures(ParamScan::take_param, (second, again), result),
        raw.id == again.id,
    ensures
        result is Err,
        final(second)@ == final(first)@,
{
    crate::param_laws::law_accepted_param_is_added(old(first)@, raw@);
    crate::param_laws::law_next_param_is_accepted(old(second)@, again@);
}

/// What was taken can be had in the end, under its stable ID and as it was given.
pub proof fn law_taken_parameters_are_handed_out(
    gathered: &mut ParamScan,
    finished: ParamScan,
    raw: RawParamInfo,
    params: HashMap<u32, ParamInfo>,
)
    requires
        call_ensures(
            ParamScan::take_param,
            (gathered, raw),
            Ok::<(), ParamsError<String>>(()),
        ),
        final(gathered)@ == finished@,
        call_ensures(ParamScan::finish, (finished,), params),
    ensures
        params@.contains_key(raw.id),
        params@[raw.id].range.start == raw.min_value,
        params@[raw.id].range.end == raw.max_value,
        params@[raw.id].default == raw.default_value,
        params@[raw.id].flags == raw.flags,
        crate::text::buffer_text(raw.name@) == Ok::<Seq<char>, TextError>(params@[raw.id].name@),
        forall|id: u32|
            id != raw.id ==> (#[trigger] params@.contains_key(id)
                <==> old(gathered)@.params.contains_key(id)),
{
    crate::param_laws::law_accepted_param_is_added(old(gathered)@, raw@);
    let next = final(gathered)@.params;
    let view = crate::params::params_view(params@);
    assert(view.contains_key(raw.id));
    assert(view[raw.id] == params@[raw.id]@);
    assert forall|id: u32| id != raw.id implies (#[trigger] params@.contains_key(id)
        <==> old(gathered)@.params.contains_key(id)) by {
        assert(view.contains_key(id) <==> params@.contains_key(id));
        assert(next.remove(raw.id).contains_key(id) <==> next.contains_key(id));
    }
}

/// An answer that the plugin refuses is reported with its position, and nothing is gathered from
/// it. A scan starts with nothing.
pub proof fn law_refused_answers_are_reported(
    new: ParamScan,
    gathered: &mut ParamScan,
    index: u32,
    num_params: u32,
    result: Result<(), ParamsError<String>>,
)
    requires
        call_ensures(ParamScan::new, (), new),
        call_ensures(ParamScan::take_answer, (gathered, index, num_params, None), result),
    ensures
        new@.params.dom().is_empty(),
        new@.bypass is None,
        result matches Err(ParamsError::NoInfo { index: at, num_params: total }) && at == index
            && total == num_params,
        final(gathered)@ == old(gathered)@,
{
    assert(new@.params.dom() =~= Set::empty());
}

/// Taking an answer that holds something does what taking the parameter itself does.
pub proof fn law_answers_are_parameters(
    left: &mut ParamScan,
    right: &mut ParamScan,
    index: u32,
    num_params: u32,
    raw: RawParamInfo,
    taken: Result<(), ParamsError<String>>,
    answered: Result<(), ParamsError<String>>,
)
    requires
        old(left)@ == old(right)@,
        call_ensures(ParamScan::take_param, (left, raw), taken),
        call_ensures(ParamScan::take_answer, (right, index, num_params, Some(raw)), answered),
    ensures
        taken is Ok <==> answered is Ok,
        taken is Err ==> taken->Err_0@ == answered->Err_0@,
        final(left)@ == final(right)@,
{
}

/// Whether a value is in a range goes by both ends of the range. Whether a parameter is stepped goes
/// by one bit of its flags.
pub proof fn law_ranges_and_steps(
    range: ValueRange,
    value: Double,
    contained: bool,
    not_below: bool,
    not_above: bool,
    info: &ParamInfo,
    stepped: bool,
)
    requires
        call_ensures(ValueRange::contains, (range, value), contained),
        call_ensures(Double::at_most, (range.start, value), not_below),
        call_ensures(Double::at_most, (value, range.end), not_above),
        call_ensures(ParamInfo::stepped, (info,), stepped),
    ensures
        contained <==> not_below && not_above,
        stepped <==> info.flags & 0x1 != 0,
{
}

/// Numbers without a sign are ordered as their patterns are, numbers with one the other way round,
/// and those with a sign come before those without. The two zeros are equal.
pub proof fn law_order_of_numbers(left: Double, right: Double, above: bool, at_most: bool)
    requires
        call_ensures(Double::above, (left, right), above),
        call_ensures(Double::at_most, (left, right), at_most),
    ensures
        left.bits <= 0x7ff0_0000_0000_0000 && right.bits <= 0x7ff0_0000_0000_0000 ==> (above
            <==> left.bits > right.bits) && (at_most <==> left.bits <= right.bits),
        0x8000_0000_0000_0000 <= left.bits <= 0xfff0_0000_0000_0000 && 0x8000_0000_0000_0000
            <= right.bits <= 0xfff0_0000_0000_0000 ==> (above <==> left.bits < right.bits) && (
        at_most <==> left.bits >= right.bits),
        left.bits <= 0x7ff0_0000_0000_0000 && 0x8000_0000_0000_0000 <= right.bits
            <= 0xfff0_0000_0000_0000 ==> (above <==> left.bits != 0 || right.bits
            != 0x8000_0000_0000_0000) && (at_most <==> !above),
        right.bits <= 0x7ff0_0000_0000_0000 && 0x8000_0000_0000_0000 <= left.bits
            <= 0xfff0_0000_0000_0000 ==> !above && at_most,
        0x7ff0_0000_0000_0000 < left.bits < 0x8000_0000_0000_0000 || 0xfff0_0000_0000_0000
            < left.bits || 0x7ff0_0000_0000_0000 < right.bits < 0x8000_0000_0000_0000
            || 0xfff0_0000_0000_0000 < right.bits ==> !above && !at_most,
{
    let mine = left.magnitude();
    let theirs = right.magnitude();
    crate::double::law_pattern_order(mine, theirs);
    crate::double::law_pattern_order(theirs, mine);
    crate::double::law_pattern_order(0, mine);
    crate::double::law_pattern_order(0, theirs);
}

/// Whether a number is whole does not depend on its sign. It is so of zero and the infinities, and
/// of nothing that is no number.
pub proof fn law_whole_without_sign(number: Double, negated: Double, whole: bool, other: bool)
    requires
        number.bits < 0x8000_0000_0000_0000,
        negated.bits == number.bits + 0x8000_0000_0000_0000,
        call_ensures(Double::whole, (number,), whole),
        call_ensures(Double::whole, (negated,), other),
    ensures
        whole == other,
        number.bits == 0 || number.bits == 0x7ff0_0000_0000_0000 ==> whole,
        number.bits > 0x7ff0_0000_0000_0000 ==> !whole,
        whole && number.bits < 0x7ff0_0000_0000_0000 <==> number.bits < 0x7ff0_0000_0000_0000
            && exists|multiple: int|
            number.units() == #[trigger] (multiple * vstd::arithmetic::power2::pow2(1074)),
{
    crate::double::law_whole_numbers(number);
    crate::double::law_whole_numbers(negated);
    crate::double::law_units_of_patterns(number);
    let one = vstd::arithmetic::power2::pow2(1074) as int;
    if exists|multiple: int|
        number.units() == #[trigger] (multiple * vstd::arithmetic::power2::pow2(1074)) {
        let multiple = choose|multiple: int|
            number.units() == #[trigger] (multiple * vstd::arithmetic::power2::pow2(1074));
        assert((-multiple) * one == -(multiple * one)) by (nonlinear_arith);
        assert(negated.units() == (-multiple) * vstd::arithmetic::power2::pow2(1074));
    }
    if exists|multiple: int|
        negated.units() == #[trigger] (multiple * vstd::arithmetic::power2::pow2(1074)) {
        let multiple = choose|multiple: int|
            negated.units() == #[trigger] (multiple * vstd::arithmetic::power2::pow2(1074));
        assert((-multiple) * one == -(multiple * one)) by (nonlinear_arith);
        assert(number.units() == (-multiple) * vstd::arithmetic::power2::pow2(1074));
    }
    if number.bits == 0 {
        assert(0 * one == 0);
        assert(number.units() == 0int * vstd::arithmetic::power2::pow2(1074));
    }
}

/// Reading what was written gives the text back.
pub proof fn law_reading_undoes_writing(
    text: &str,
    bytes: Vec<u8>,
    slice: &[u8],
    read: Result<String, TextError>,
)
    requires
        call_ensures(
            crate::text::string_to_c_string,
            (text,),
            Ok::<Vec<u8>, usize>(bytes),
        ),
        bytes@.is_prefix_of(slice@),
        call_ensures(crate::text::c_char_slice_to_string, (slice,), read),
    ensures
        bytes@ == vstd::utf8::encode_utf8(text@).push(0u8),
        read matches Ok(again) && again@ == text@,
{
    let encoded = vstd::utf8::encode_utf8(text@);
    let end = encoded.len() as int;
    assert(slice@.subrange(0, bytes@.len() as int) =~= bytes@);
    assert forall|i: int| 0 <= i <= end implies slice@[i] == bytes@[i] by {
        assert(slice@.subrange(0, bytes@.len() as int)[i] == slice@[i]);
    }
    assert(slice@.take(end) =~= encoded);
    crate::text::law_buffer_holds_what_was_written(slice@, text@);
}

/// What is written of two numbers is the same only if the numbers are. The characters of a text
/// are all of them.
pub proof fn law_numbers_are_told_apart(
    left: u64,
    left_text: String,
    right: u64,
    right_text: String,
    text: &str,
    characters: Vec<char>,
)
    requires
        call_ensures(crate::text::decimal_text, (left,), left_text),
        call_ensures(crate::text::decimal_text, (right,), right_text),
        call_ensures(crate::text::characters, (text,), characters),
    ensures
        crate::text::decimal_value(left_text@) == left,
        left_text@ == right_text@ <==> left == right,
        characters@ == text@,
{
    crate::text::law_decimal_stands_for_the_number(left as nat);
    crate::text::law_decimal_stands_for_the_number(right as nat);
}

/// A host starts with the given main thread, no instances and no violation.
pub proof fn law_new_host(main_thread_id: ThreadId, host: ClapHost)
    requires
        call_ensures(ClapHost::new, (main_thread_id,), host),
    ensures
        host@.main_thread == main_thread_id,
        host@.error is None,
        forall|address: u64| !#[trigger] host@.instances.contains_key(address),
{
}

/// Registering succeeds for every plugin that is not registered yet, and for no other, whatever
/// else is registered.
pub proof fn law_registering(
    host: &mut ClapHost,
    handle: PluginHandle,
    instance: Arc<HostPluginInstance>,
    result: Result<(), RegistrationError>,
)
    requires
        call_ensures(ClapHost::register, (host, Some(handle), instance), result),
    ensures
        match result {
            Ok(()) => !old(host)@.instances.contains_key(handle.address) && final(host)@.instances
                == old(host)@.instances.insert(handle.address, instance),
            Err(error) => old(host)@.instances.contains_key(handle.address) && error
                == RegistrationError::AlreadyRegistered && final(host)@.instances
                == old(host)@.instances,
        },
        final(host)@.main_thread == old(host)@.main_thread,
        final(host)@.error == old(host)@.error,
{
}

/// Unregistering right after registering succeeds and brings the earlier state back.
pub proof fn law_unregistering_undoes_registering(
    host: &mut ClapHost,
    later: &mut ClapHost,
    handle: PluginHandle,
    instance: Arc<HostPluginInstance>,
    result: Result<(), RegistrationError>,
)
    requires
        call_ensures(
            ClapHost::register,
            (host, Some(handle), instance),
            Ok::<(), RegistrationError>(()),
        ),
        final(host)@ == old(later)@,
        call_ensures(ClapHost::unregister, (later, Some(handle)), result),
    ensures
        result is Ok,
        final(later)@ == old(host)@,
{
    assert(final(later)@.instances =~= old(host)@.instances);
}

/// Unregistering succeeds for every plugin that is registered, and for no other.
pub proof fn law_unregistering(
    host: &mut ClapHost,
    handle: PluginHandle,
    result: Result<(), RegistrationError>,
)
    requires
        call_ensures(ClapHost::unregister, (host, Some(handle)), result),
    ensures
        match result {
            Ok(()) => old(host)@.instances.contains_key(handle.address) && final(host)@.instances
                == old(host)@.instances.remove(handle.address),
            Err(error) => !old(host)@.instances.contains_key(handle.address) && error
                == RegistrationError::NotRegistered && final(host)@.instances
                == old(host)@.instances,
        },
        final(host)@.main_thread == old(host)@.main_thread,
        final(host)@.error == old(host)@.error,
{
}

/// An instance without a plugin can be neither registered nor unregistered.
pub proof fn law_no_plugin(
    host: &mut ClapHost,
    other: &mut ClapHost,
    instance: Arc<HostPluginInstance>,
    registered: Result<(), RegistrationError>,
    unregistered: Result<(), RegistrationError>,
)
    requires
        call_ensures(ClapHost::register, (host, None, instance), registered),
        call_ensures(ClapHost::unregister, (other, None), unregistered),
    ensures
        registered == Err::<(), RegistrationError>(RegistrationError::NoPlugin),
        unregistered == Err::<(), RegistrationError>(RegistrationError::NoPlugin),
        final(host)@ == old(host)@,
        final(other)@ == old(other)@,
{
}

/// An instance that can be read in one way only is registered under the plugin that is read.
pub proof fn law_instances_are_registered_for_what_is_read(
    host: &mut ClapHost,
    other: &mut ClapHost,
    instance: Arc<HostPluginInstance>,
    plugin: Option<PluginHandle>,
    result: Result<(), RegistrationError>,
    direct: Result<(), RegistrationError>,
)
    requires
        old(host)@ == old(other)@,
        forall|read: Option<PluginHandle>| #[trigger]
            call_ensures(
                crossbeam::atomic::AtomicCell::<Option<PluginHandle>>::load,
                (&instance.plugin,),
                read,
            ) ==> read == plugin,
        call_ensures(ClapHost::register_instance, (host, instance), result),
        call_ensures(ClapHost::register, (other, plugin, instance), direct),
    ensures
        result == direct,
        final(host)@ == final(other)@,
{
}

/// An instance that can be read in one way only is unregistered by the plugin that is read.
pub proof fn law_instances_are_unregistered_by_what_is_read(
    host: &mut ClapHost,
    other: &mut ClapHost,
    instance: Arc<HostPluginInstance>,
    plugin: Option<PluginHandle>,
    result: Result<(), RegistrationError>,
    direct: Result<(), RegistrationError>,
)
    requires
        old(host)@ == old(other)@,
        forall|read: Option<PluginHandle>| #[trigger]
            call_ensures(
                crossbeam::atomic::AtomicCell::<Option<PluginHandle>>::load,
                (&instance.plugin,),
                read,
            ) ==> read == plugin,
        call_ensures(ClapHost::unregister_instance, (host, instance), result),
        call_ensures(ClapHost::unregister, (other, plugin), direct),
    ensures
        result == direct,
        final(host)@ == final(other)@,
{
}

/// Asking for the violation hands it out once. Asking again right away gives nothing, and nothing
/// else about the host changes.
pub proof fn law_violation_is_handed_out_once(
    host: &mut ClapHost,
    later: &mut ClapHost,
    first: Result<(), String>,
    second: Result<(), String>,
)
    requires
        call_ensures(ClapHost::thread_safety_check, (host,), first),
        final(host)@ == old(later)@,
        call_ensures(ClapHost::thread_safety_check, (later,), second),
    ensures
        first is Ok <==> old(host)@.error is None,
        first matches Err(message) ==> old(host)@.error == Some(message@),
        second is Ok,
        final(later)@.error is None,
        final(later)@.main_thread == old(host)@.main_thread,
        final(later)@.instances == old(host)@.instances,
{
}

/// After a violation no call changes anything, whatever it is for and whichever thread makes it.
pub proof fn law_first_violation_stays(
    main: &mut ClapHost,
    audio: &mut ClapHost,
    not_audio: &mut ClapHost,
    function_name: &str,
    current_thread_id: ThreadId,
    audio_threads: &Vec<Option<ThreadId>>,
)
    requires
        old(main)@.error is Some,
        old(audio)@.error is Some,
        old(not_audio)@.error is Some,
        call_ensures(ClapHost::assert_main_thread, (main, function_name, current_thread_id), ()),
        call_ensures(
            ClapHost::check_audio_thread,
            (audio, function_name, current_thread_id, audio_threads),
            (),
        ),
        call_ensures(
            ClapHost::check_not_audio_thread,
            (not_audio, function_name, current_thread_id, audio_threads),
            (),
        ),
    ensures
        final(main)@ == old(main)@,
        final(audio)@ == old(audio)@,
        final(not_audio)@ == old(not_audio)@,
{
}

/// After a violation no call that looks the audio threads up changes anything either.
pub proof fn law_first_violation_stays_on_audio_threads(
    audio: &mut ClapHost,
    not_audio: &mut ClapHost,
    flush: &mut ClapHost,
    function_name: &str,
    current_thread_id: ThreadId,
)
    requires
        old(audio)@.error is Some,
        old(not_audio)@.error is Some,
        old(flush)@.error is Some,
        call_ensures(ClapHost::assert_audio_thread, (audio, function_name, current_thread_id), ()),
        call_ensures(
            ClapHost::assert_not_audio_thread,
            (not_audio, function_name, current_thread_id),
            (),
        ),
        call_ensures(ClapHost::ext_params_request_flush, (flush, current_thread_id), ()),
    ensures
        final(audio)@ == old(audio)@,
        final(not_audio)@ == old(not_audio)@,
        final(flush)@ == old(flush)@,
{
}

/// Without a violation, a call is recorded exactly if its thread may not make it, and whatever it
/// is, the main thread and the instances stay.
pub proof fn law_only_forbidden_calls_are_recorded(
    main: &mut ClapHost,
    audio: &mut ClapHost,
    not_audio: &mut ClapHost,
    function_name: &str,
    current_thread_id: ThreadId,
    audio_threads: &Vec<Option<ThreadId>>,
)
    requires
        old(main)@.error is None,
        old(audio)@.error is None,
        old(not_audio)@.error is None,
        call_ensures(ClapHost::assert_main_thread, (main, function_name, current_thread_id), ()),
        call_ensures(
            ClapHost::check_audio_thread,
            (audio, function_name, current_thread_id, audio_threads),
            (),
        ),
        call_ensures(
            ClapHost::check_not_audio_thread,
            (not_audio, function_name, current_thread_id, audio_threads),
            (),
        ),
    ensures
        final(main)@.error is Some <==> current_thread_id != old(main)@.main_thread,
        final(audio)@.error is Some <==> !audio_threads@.contains(Some(current_thread_id)),
        final(not_audio)@.error is Some <==> audio_threads@.contains(Some(current_thread_id)),
        final(main)@.main_thread == old(main)@.main_thread,
        final(main)@.instances == old(main)@.instances,
        final(audio)@.main_thread == old(audio)@.main_thread,
        final(audio)@.instances == old(audio)@.instances,
        final(not_audio)@.main_thread == old(not_audio)@.main_thread,
        final(not_audio)@.instances == old(not_audio)@.instances,
{
}

/// A call from a wrong thread is what the next question for a violation brings up, with the name of
/// the function and both threads.
pub proof fn law_wrong_thread_is_brought_up(
    host: &mut ClapHost,
    later: &mut ClapHost,
    function_name: &str,
    current_thread_id: ThreadId,
    result: Result<(), String>,
)
    requires
        old(host)@.error is None,
        current_thread_id != old(host)@.main_thread,
        call_ensures(ClapHost::assert_main_thread, (host, function_name, current_thread_id), ()),
        final(host)@ == old(later)@,
        call_ensures(ClapHost::thread_safety_check, (later,), result),
    ensures
        result matches Err(message) && message@ == "'"@ + function_name@
            + "' may only be called from the main thread (thread "@ + ("ThreadId("@
            + crate::text::decimal(old(host)@.main_thread.id as nat) + ")"@)
            + "), but it was called from thread "@ + ("ThreadId("@ + crate::text::decimal(
            current_thread_id.id as nat,
        ) + ")"@),
        final(later)@ == old(host)@,
{
}

/// What the host answers about threads: the main thread is the one that it was made with, and a
/// thread is found among audio threads exactly if it is one of them.
pub proof fn law_thread_questions(
    host: &ClapHost,
    thread_id: ThreadId,
    main: bool,
    audio_threads: &Vec<Option<ThreadId>>,
    found: bool,
)
    requires
        call_ensures(ClapHost::ext_thread_check_is_main_thread, (host, thread_id), main),
        call_ensures(crate::host::any_audio_thread, (audio_threads, thread_id), found),
    ensures
        main <==> thread_id == host@.main_thread,
        found <==> exists|i: int|
            0 <= i < audio_threads@.len() && #[trigger] audio_threads@[i] == Some(thread_id),
{
}

/// A thread that no registered instance can have as its audio thread is none, whichever way the
/// host is asked.
pub proof fn law_other_threads_are_no_audio_threads(
    host: &ClapHost,
    thread_id: ThreadId,
    result: bool,
    asked: bool,
)
    requires
        forall|from: u64| #[trigger]
            host@.instances.contains_key(from) ==> !call_ensures(
                crossbeam::atomic::AtomicCell::<Option<ThreadId>>::load,
                (&host@.instances[from].audio_thread,),
                Some(thread_id),
            ),
        call_ensures(ClapHost::is_audio_thread, (host, thread_id), result),
        call_ensures(ClapHost::ext_thread_check_is_audio_thread, (host, thread_id), asked),
    ensures
        !result,
        !asked,
{
    assert forall|threads: Seq<Option<ThreadId>>| #[trigger]
        host@.read_as(threads) implies !threads.contains(Some(thread_id)) by {
        if threads.contains(Some(thread_id)) {
            let at = threads.index_of(Some(thread_id));
            crate::host_laws::law_audio_threads_are_loads(host@, threads, at, 0);
        }
    }
}

/// A thread that some registered instance can only have as its audio thread is one, whichever way
/// the host is asked.
pub proof fn law_threads_of_instances_are_audio_threads(
    host: &ClapHost,
    thread_id: ThreadId,
    address: u64,
    result: bool,
    asked: bool,
)
    requires
        host@.instances.contains_key(address),
        forall|read: Option<ThreadId>| #[trigger]
            call_ensures(
                crossbeam::atomic::AtomicCell::<Option<ThreadId>>::load,
                (&host@.instances[address].audio_thread,),
                read,
            ) ==> read == Some(thread_id),
        call_ensures(ClapHost::is_audio_thread, (host, thread_id), result),
        call_ensures(ClapHost::ext_thread_check_is_audio_thread, (host, thread_id), asked),
    ensures
        result,
        asked,
{
    assert forall|threads: Seq<Option<ThreadId>>| #[trigger]
        host@.read_as(threads) implies threads.contains(Some(thread_id)) by {
        crate::host_laws::law_audio_threads_are_loads(host@, threads, 0, address);
    }
}

/// Each function that a plugin calls on the main thread checks for the main thread under its own
/// name, whatever else it is handed. What it answers does not depend on the thread.
pub proof fn law_callbacks_check_the_main_thread(
    rescan_flag: &mut ClapHost,
    audio_rescan: &mut ClapHost,
    dialects: &mut ClapHost,
    note_rescan: &mut ClapHost,
    params_rescan: &mut ClapHost,
    params_clear: &mut ClapHost,
    mark_dirty: &mut ClapHost,
    current_thread_id: ThreadId,
    flags: u32,
    param_id: u32,
    supported: bool,
    known: u32,
)
    requires
        call_ensures(
            ClapHost::ext_audio_ports_is_rescan_flag_supported,
            (rescan_flag, current_thread_id, flags),
            supported,
        ),
        call_ensures(
            ClapHost::ext_audio_ports_rescan,
            (audio_rescan, current_thread_id, flags),
            (),
        ),
        call_ensures(
            ClapHost::ext_note_ports_supported_dialects,
            (dialects, current_thread_id),
            known,
        ),
        call_ensures(
            ClapHost::ext_note_ports_rescan,
            (note_rescan, current_thread_id, flags),
            (),
        ),
        call_ensures(ClapHost::ext_params_rescan, (params_rescan, current_thread_id, flags), ()),
        call_ensures(
            ClapHost::ext_params_clear,
            (params_clear, current_thread_id, param_id, flags),
            (),
        ),
        call_ensures(ClapHost::ext_state_mark_dirty, (mark_dirty, current_thread_id), ()),
    ensures
        supported,
        known == 7,
        final(rescan_flag)@ == old(rescan_flag)@.after_main_thread_call(
            "clap_host_audio_ports::is_rescan_flag_supported()"@,
            current_thread_id,
        ),
        final(audio_rescan)@ == old(audio_rescan)@.after_main_thread_call(
            "clap_host_audio_ports::rescan()"@,
            current_thread_id,
        ),
        final(dialects)@ == old(dialects)@.after_main_thread_call(
            "clap_host_note_ports::supported_dialects()"@,
            current_thread_id,
        ),
        final(note_rescan)@ == old(note_rescan)@.after_main_thread_call(
            "clap_host_note_ports::rescan()"@,
            current_thread_id,
        ),
        final(params_rescan)@ == old(params_rescan)@.after_main_thread_call(
            "clap_host_params::rescan()"@,
            current_thread_id,
        ),
        final(params_clear)@ == old(params_clear)@.after_main_thread_call(
            "clap_host_params::clear()"@,
            current_thread_id,
        ),
        final(mark_dirty)@ == old(mark_dirty)@.after_main_thread_call(
            "clap_host_state::mark_dirty()"@,
            current_thread_id,
        ),
{
}

/// Asking for a flush is checked as a call that no audio thread may make, under its own name.
pub proof fn law_flush_is_not_for_audio_threads(host: &mut ClapHost, current_thread_id: ThreadId)
    requires
        old(host)@.error is None,
        call_ensures(ClapHost::ext_params_request_flush, (host, current_thread_id), ()),
    ensures
        final(host)@.main_thread == old(host)@.main_thread,
        final(host)@.instances == old(host)@.instances,
        final(host)@.error matches Some(message) ==> message
            == "'"@ + "clap_host_params::request_flush()"@
            + "' was called from an audio thread, this is not allowed"@,
        exists|threads: Seq<Option<ThreadId>>| #[trigger]
            old(host)@.read_as(threads) && (final(host)@.error is Some <==> threads.contains(
                Some(current_thread_id),
            )),
{
    let threads = choose|threads: Seq<Option<ThreadId>>| #[trigger]
        old(host)@.read_as(threads) && final(host)@ == old(host)@.after_not_audio_thread_call(
            "clap_host_params::request_flush()"@,
            current_thread_id,
            threads,
        );
    assert(old(host)@.read_as(threads));
}

/// The host has the same extensions whatever its state, each under its own identifier.
pub proof fn law_extensions_do_not_depend_on_the_host(
    host: &ClapHost,
    extension_id: &[u8],
    found: Option<HostExtension>,
)
    requires
        call_ensures(ClapHost::get_extension, (host, extension_id), found),
    ensures
        found == Some(HostExtension::AudioPorts) <==> extension_id@ == crate::clap::ascii(
            "clap.audio-ports"@,
        ),
        found == Some(HostExtension::NotePorts) <==> extension_id@ == crate::clap::ascii(
            "clap.note-ports"@,
        ),
        found == Some(HostExtension::Params) <==> extension_id@ == crate::clap::ascii(
            "clap.params"@,
        ),
        found == Some(HostExtension::State) <==> extension_id@ == crate::clap::ascii("clap.state"@),
        found == Some(HostExtension::ThreadCheck) <==> extension_id@ == crate::clap::ascii(
            "clap.thread-check"@,
        ),
{
    crate::host_laws::law_extensions_are_found_by_identifier(extension_id@);
}

/// The identifier by which the library finds a plugin's parameters is the one under which the host
/// offers its own part.
pub proof fn law_params_extension_is_offered(
    host: &ClapHost,
    id: Vec<u8>,
    extension_id: &[u8],
    found: Option<HostExtension>,
)
    requires
        call_ensures(Params::extension_id, (), id),
        extension_id@ == id@,
        call_ensures(ClapHost::get_extension, (host, extension_id), found),
    ensures
        found == Some(HostExtension::Params),
{
    crate::host_laws::law_extensions_are_found_by_identifier(extension_id@);
}

/// The message of an error says what the error holds, and nothing of how it came about.
pub proof fn law_messages_go_by_what_errors_hold(
    left: &ParamsError<String>,
    right: &ParamsError<String>,
    numbers: &NumberTexts,
    left_message: String,
    right_message: String,
)
    requires
        call_ensures(ParamsError::<String>::message, (left, numbers), left_message),
        call_ensures(ParamsError::<String>::message, (right, numbers), right_message),
        left@ == right@,
    ensures
        left_message@ == right_message@,
        left_message@ == crate::messages::error_message(left@, *numbers),
{
}

} // verus!
