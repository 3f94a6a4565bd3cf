//! The parameters of a plugin: what it says about them, the rules that they have to follow, and
//! what the answers for one parameter after the other lead to.
use std::collections::HashMap;

use vstd::prelude::*;

use crate::clap;
use crate::double::Double;
use crate::text;
use crate::text::TextError;

verus! {

broadcast use vstd::std_specs::hash::group_hash_axioms;

/// The values from one number to another one, both included.
#[derive(Debug, Clone, Copy, PartialEq, Eq, Structural)]
pub struct ValueRange {
    /// The smallest value.
    pub start: Double,
    /// The largest value.
    pub end: Double,
}

impl ValueRange {
    /// Whether a value lies in the range.
    pub open spec fn holds(self, value: Double) -> bool {
        self.start.is_at_most(value) && value.is_at_most(self.end)
    }

    /// Whether a value lies in the range.
    pub fn contains(self, value: Double) -> (result: bool)
        ensures
            result == self.holds(value),
            result == (!self.start.is_nan() && !value.is_nan() && !self.end.is_nan()
                && self.start.units() <= value.units() <= self.end.units()),
    {
        self.start.at_most(value) && value.at_most(self.end)
    }
}

/// Whether one of some flag bits is set.
pub open spec fn flag_set(flags: u32, mask: u32) -> bool {
    flags & mask != 0
}

/// Information about a parameter that follows the rules.
#[derive(Debug, Clone)]
pub struct ParamInfo {
    /// The name to show.
    pub name: String,
    /// The parameter's value range.
    pub range: ValueRange,
    /// The parameter's default value.
    pub default: Double,
    /// The raw parameter flags bit field.
    pub flags: u32,
}

/// A parameter with its name as a sequence of characters.
pub struct ParamInfoView {
    /// The name to show.
    pub name: Seq<char>,
    /// The parameter's value range.
    pub range: ValueRange,
    /// The parameter's default value.
    pub default: Double,
    /// The raw parameter flags bit field.
    pub flags: u32,
}

impl View for ParamInfo {
    type V = ParamInfoView;

    open spec fn view(&self) -> ParamInfoView {
        ParamInfoView {
            name: self.name@,
            range: self.range,
            default: self.default,
            flags: self.flags,
        }
    }
}

impl ParamInfo {
    /// Whether this parameter is stepped.
    pub fn stepped(&self) -> (result: bool)
        ensures
            result == flag_set(self.flags, clap::clap_param_flags().stepped),
            result == (self.flags & 0x1 != 0),
    {
        (self.flags & clap::param_flags().stepped) != 0
    }
}

/// What a plugin says about one of its parameters.
#[derive(Debug, Clone)]
pub struct RawParamInfo {
    /// The stable ID.
    pub id: u32,
    /// The flags.
    pub flags: u32,
    /// The buffer with the name.
    pub name: Vec<u8>,
    /// The buffer with the path of the module that the parameter belongs to.
    pub module: Vec<u8>,
    /// The smallest value.
    pub min_value: Double,
    /// The largest value.
    pub max_value: Double,
    /// The default value.
    pub default_value: Double,
}

/// What a plugin says about a parameter, with the buffers as sequences of bytes.
pub struct RawParamView {
    /// The stable ID.
    pub id: u32,
    /// The flags.
    pub flags: u32,
    /// The buffer with the name.
    pub name: Seq<u8>,
    /// The buffer with the module path.
    pub module: Seq<u8>,
    /// The smallest value.
    pub min_value: Double,
    /// The largest value.
    pub max_value: Double,
    /// The default value.
    pub default_value: Double,
}

impl View for RawParamInfo {
    type V = RawParamView;

    open spec fn view(&self) -> RawParamView {
        RawParamView {
            id: self.id,
            flags: self.flags,
            name: self.name@,
            module: self.module@,
            min_value: self.min_value,
            max_value: self.max_value,
            default_value: self.default_value,
        }
    }
}

/// What is inconsistent about a parameter.
#[derive(Debug, Clone, Copy, PartialEq, Eq, Structural)]
pub enum ParamProblem {
    /// The module path starts with a slash.
    LeadingSlash,
    /// The module path ends with a slash.
    TrailingSlash,
    /// The module path has two slashes in a row.
    RepeatedSlash,
    /// The minimum is higher than the maximum.
    MinimumAboveMaximum,
    /// The default value is not between the minimum and the maximum.
    DefaultOutOfRange,
    /// The parameter is stepped, but its minimum is not a whole number.
    MinimumNotWhole,
    /// The parameter is stepped, but its maximum is not a whole number.
    MaximumNotWhole,
    /// An earlier parameter is a bypass parameter, too.
    MultipleBypass {
        /// The stable ID of the earlier one.
        first: u32,
    },
    /// The parameter is a bypass parameter, but not stepped.
    BypassNotStepped,
    /// The parameter can be automated for notes, keys, channels or ports, but not as such.
    NotAutomatable,
    /// The parameter can be modulated for notes, keys, channels or ports, but not as such.
    NotModulatable,
    /// An earlier parameter has the same stable ID.
    DuplicateId,
}

/// A parameter with something inconsistent about it. `S` is the kind of text.
#[derive(Debug, Clone)]
pub struct ParamReport<S> {
    /// The stable ID.
    pub id: u32,
    /// The name.
    pub name: S,
    /// The module path.
    pub module: S,
    /// The smallest value.
    pub min_value: Double,
    /// The largest value.
    pub max_value: Double,
    /// The default value.
    pub default_value: Double,
}

/// What can go wrong with a plugin's parameters. `S` is the kind of text.
#[derive(Debug, Clone)]
pub enum ParamsError<S> {
    /// The plugin did not give a parameter's value.
    NoValue {
        /// The stable ID.
        param_id: u32,
    },
    /// The plugin did not write a value as text.
    NoText {
        /// The stable ID.
        param_id: u32,
        /// The value.
        value: Double,
    },
    /// The text that the plugin wrote for a value cannot be read.
    UnreadableText {
        /// The stable ID.
        param_id: u32,
        /// The value.
        value: Double,
        /// Why not.
        error: TextError,
    },
    /// The text to hand to the plugin has a zero byte in it.
    NulInText {
        /// Where the first one is.
        position: usize,
    },
    /// The plugin did not read a value from a text.
    NoValueForText {
        /// The stable ID.
        param_id: u32,
        /// The text.
        text: S,
    },
    /// The plugin gave no information about a parameter.
    NoInfo {
        /// The position of the parameter.
        index: u32,
        /// The number of parameters.
        num_params: u32,
    },
    /// A parameter's name cannot be read.
    UnreadableName {
        /// The stable ID.
        param_id: u32,
        /// Why not.
        error: TextError,
    },
    /// A parameter's module path cannot be read.
    UnreadableModule {
        /// The stable ID.
        param_id: u32,
        /// The name.
        name: S,
        /// Why not.
        error: TextError,
    },
    /// A parameter breaks a rule.
    Inconsistent {
        /// The parameter.
        param: ParamReport<S>,
        /// The rule.
        problem: ParamProblem,
    },
}

impl View for ParamReport<String> {
    type V = ParamReport<Seq<char>>;

    open spec fn view(&self) -> ParamReport<Seq<char>> {
        ParamReport {
            id: self.id,
            name: self.name@,
            module: self.module@,
            min_value: self.min_value,
            max_value: self.max_value,
            default_value: self.default_value,
        }
    }
}

impl View for ParamsError<String> {
    type V = ParamsError<Seq<char>>;

    open spec fn view(&self) -> ParamsError<Seq<char>> {
        match *self {
            ParamsError::NoValue { param_id } => ParamsError::NoValue { param_id },
            ParamsError::NoText { param_id, value } => ParamsError::NoText { param_id, value },
            ParamsError::UnreadableText { param_id, value, error } => ParamsError::UnreadableText {
                param_id,
                value,
                error,
            },
            ParamsError::NulInText { position } => ParamsError::NulInText { position },
            ParamsError::NoValueForText { param_id, text } => ParamsError::NoValueForText {
                param_id,
                text: text@,
            },
            ParamsError::NoInfo { index, num_params } => ParamsError::NoInfo { index, num_params },
            ParamsError::UnreadableName { param_id, error } => ParamsError::UnreadableName {
                param_id,
                error,
            },
            ParamsError::UnreadableModule { param_id, name, error } =>
                ParamsError::UnreadableModule { param_id, name: name@, error },
            ParamsError::Inconsistent { param, problem } => ParamsError::Inconsistent {
                param: param@,
                problem,
            },
        }
    }
}

/// Whether a text has two slashes in a row.
pub open spec fn has_repeated_slash(path: Seq<char>) -> bool {
    exists|i: int| 0 <= i < path.len() - 1 && #[trigger] path[i] == '/' && path[i + 1] == '/'
}

/// What is wrong with a module path, if anything is. Anything goes, as long as there are no
/// leading, trailing or repeated slashes.
pub open spec fn module_problem(module: Seq<char>) -> Option<ParamProblem> {
    if module.len() > 0 && module[0] == '/' {
        Some(ParamProblem::LeadingSlash)
    } else if module.len() > 0 && module.last() == '/' {
        Some(ParamProblem::TrailingSlash)
    } else if has_repeated_slash(module) {
        Some(ParamProblem::RepeatedSlash)
    } else {
        None
    }
}

/// What is wrong with a parameter's values, if anything is.
pub open spec fn value_problem(raw: RawParamView) -> Option<ParamProblem> {
    let range = ValueRange { start: raw.min_value, end: raw.max_value };
    if raw.min_value.is_above(raw.max_value) {
        Some(ParamProblem::MinimumAboveMaximum)
    } else if !range.holds(raw.default_value) {
        Some(ParamProblem::DefaultOutOfRange)
    } else if is_stepped(raw) && !raw.min_value.is_whole() {
        Some(ParamProblem::MinimumNotWhole)
    } else if is_stepped(raw) && !raw.max_value.is_whole() {
        Some(ParamProblem::MaximumNotWhole)
    } else {
        None
    }
}

/// Whether a parameter is stepped.
pub open spec fn is_stepped(raw: RawParamView) -> bool {
    flag_set(raw.flags, clap::clap_param_flags().stepped)
}

/// Whether a parameter is a bypass parameter.
pub open spec fn is_bypass(raw: RawParamView) -> bool {
    flag_set(raw.flags, clap::clap_param_flags().bypass)
}

/// The bits for being automatable in parts: for notes, keys, channels or ports.
pub open spec fn partly_automatable() -> u32 {
    clap::clap_param_flags().automatable_per_note_id | clap::clap_param_flags().automatable_per_key
        | clap::clap_param_flags().automatable_per_channel
        | clap::clap_param_flags().automatable_per_port
}

/// The bits for being modulatable in parts: for notes, keys, channels or ports.
pub open spec fn partly_modulatable() -> u32 {
    clap::clap_param_flags().modulatable_per_note_id | clap::clap_param_flags().modulatable_per_key
        | clap::clap_param_flags().modulatable_per_channel
        | clap::clap_param_flags().modulatable_per_port
}

/// What is wrong with a parameter's flags, if anything is, given the bypass parameter that came
/// before it.
pub open spec fn flag_problem(raw: RawParamView, bypass: Option<u32>) -> Option<ParamProblem> {
    if is_bypass(raw) && bypass is Some {
        Some(ParamProblem::MultipleBypass { first: bypass->0 })
    } else if is_bypass(raw) && !is_stepped(raw) {
        Some(ParamProblem::BypassNotStepped)
    } else if !flag_set(raw.flags, clap::clap_param_flags().automatable) && flag_set(
        raw.flags,
        partly_automatable(),
    ) {
        Some(ParamProblem::NotAutomatable)
    } else if !flag_set(raw.flags, clap::clap_param_flags().modulatable) && flag_set(
        raw.flags,
        partly_modulatable(),
    ) {
        Some(ParamProblem::NotModulatable)
    } else {
        None
    }
}

/// The first rule that a parameter breaks, if it breaks one.
pub open spec fn first_problem(
    raw: RawParamView,
    module: Seq<char>,
    bypass: Option<u32>,
) -> Option<ParamProblem> {
    if module_problem(module) is Some {
        module_problem(module)
    } else if value_problem(raw) is Some {
        value_problem(raw)
    } else {
        flag_problem(raw, bypass)
    }
}

/// The report on a parameter that breaks a rule.
pub open spec fn inconsistent(
    raw: RawParamView,
    name: Seq<char>,
    module: Seq<char>,
    problem: ParamProblem,
) -> ParamsError<Seq<char>> {
    ParamsError::Inconsistent {
        param: ParamReport {
            id: raw.id,
            name,
            module,
            min_value: raw.min_value,
            max_value: raw.max_value,
            default_value: raw.default_value,
        },
        problem,
    }
}

/// What has been gathered about a plugin's parameters.
#[verifier::ext_equal]
pub struct ScanView {
    /// The stable ID of the bypass parameter, if there was one.
    pub bypass: Option<u32>,
    /// The parameters by their stable IDs.
    pub params: Map<u32, ParamInfoView>,
}

impl ScanView {
    /// Before the first parameter.
    pub open spec fn start() -> ScanView {
        ScanView { bypass: None, params: Map::empty() }
    }

    /// With one more parameter that follows the rules.
    pub open spec fn with_param(self, raw: RawParamView, name: Seq<char>) -> ScanView {
        ScanView {
            bypass: if is_bypass(raw) {
                Some(raw.id)
            } else {
                self.bypass
            },
            params: self.params.insert(
                raw.id,
                ParamInfoView {
                    name,
                    range: ValueRange { start: raw.min_value, end: raw.max_value },
                    default: raw.default_value,
                    flags: raw.flags,
                },
            ),
        }
    }

    /// After what the plugin says about the next parameter.
    pub open spec fn after_param(self, raw: RawParamView) -> Result<
        ScanView,
        ParamsError<Seq<char>>,
    > {
        match text::buffer_text(raw.name) {
            Err(error) => Err(ParamsError::UnreadableName { param_id: raw.id, error }),
            Ok(name) => match text::buffer_text(raw.module) {
                Err(error) => Err(ParamsError::UnreadableModule { param_id: raw.id, name, error }),
                Ok(module) => match first_problem(raw, module, self.bypass) {
                    Some(problem) => Err(inconsistent(raw, name, module, problem)),
                    None => if self.params.contains_key(raw.id) {
                        Err(inconsistent(raw, name, module, ParamProblem::DuplicateId))
                    } else {
                        Ok(self.with_param(raw, name))
                    },
                },
            },
        }
    }

    /// After the plugin's answer to the question for the parameter at a position.
    pub open spec fn after_answer(
        self,
        index: u32,
        num_params: u32,
        answer: Option<RawParamView>,
    ) -> Result<ScanView, ParamsError<Seq<char>>> {
        match answer {
            None => Err(ParamsError::NoInfo { index, num_params }),
            Some(raw) => self.after_param(raw),
        }
    }
}

/// An answer with its buffers as sequences of bytes.
pub open spec fn answer_view(answer: Option<RawParamInfo>) -> Option<RawParamView> {
    match answer {
        Some(raw) => Some(raw@),
        None => None,
    }
}

/// What some answers in a row lead to: everything that was gathered, or what went wrong first.
pub open spec fn scan(answers: Seq<Option<RawParamView>>, num_params: u32) -> Result<
    ScanView,
    ParamsError<Seq<char>>,
>
    decreases answers.len(),
{
    if answers.len() == 0 {
        Ok(ScanView::start())
    } else {
        match scan(answers.drop_last(), num_params) {
            Err(error) => Err(error),
            Ok(gathered) => gathered.after_answer(
                (answers.len() - 1) as u32,
                num_params,
                answers.last(),
            ),
        }
    }
}

/// Parameters with their names as sequences of characters.
pub open spec fn params_view(params: Map<u32, ParamInfo>) -> Map<u32, ParamInfoView> {
    params.map_values(|info: ParamInfo| info@)
}

/// Whether a text has two slashes in a row.
fn repeated_slash(path: &Vec<char>) -> (result: bool)
    ensures
        result == has_repeated_slash(path@),
{
    let mut at: usize = 1;
    while at < path.len()
        invariant
            1 <= at,
            forall|i: int|
                0 <= i < at - 1 && i < path@.len() - 1 ==> !(#[trigger] path@[i] == '/' && path@[i
                    + 1] == '/'),
        decreases path@.len() - at,
    {
        if path[at - 1] == '/' && path[at] == '/' {
            assert(path@[at - 1] == '/' && path@[at - 1 + 1] == '/');
            return true;
        }
        at = at + 1;
    }
    false
}

/// Finds what is wrong with a module path.
fn check_module(module: &str) -> (problem: Option<ParamProblem>)
    ensures
        problem == module_problem(module@),
{
    let path = text::characters(module);
    if path.len() > 0 && path[0] == '/' {
        Some(ParamProblem::LeadingSlash)
    } else if path.len() > 0 && path[path.len() - 1] == '/' {
        Some(ParamProblem::TrailingSlash)
    } else if repeated_slash(&path) {
        Some(ParamProblem::RepeatedSlash)
    } else {
        None
    }
}

/// Finds what is wrong with a parameter's values.
fn check_values(raw: &RawParamInfo) -> (problem: Option<ParamProblem>)
    ensures
        problem == value_problem(raw@),
{
    let range = ValueRange { start: raw.min_value, end: raw.max_value };
    let stepped = (raw.flags & clap::param_flags().stepped) != 0;
    if raw.min_value.above(raw.max_value) {
        Some(ParamProblem::MinimumAboveMaximum)
    } else if !range.contains(raw.default_value) {
        Some(ParamProblem::DefaultOutOfRange)
    } else if stepped && !raw.min_value.whole() {
        Some(ParamProblem::MinimumNotWhole)
    } else if stepped && !raw.max_value.whole() {
        Some(ParamProblem::MaximumNotWhole)
    } else {
        None
    }
}

/// Finds what is wrong with a parameter's flags.
fn check_flags(raw: &RawParamInfo, bypass: Option<u32>) -> (problem: Option<ParamProblem>)
    ensures
        problem == flag_problem(raw@, bypass),
{
    let bits = clap::param_flags();
    if (raw.flags & bits.bypass) != 0 {
        match bypass {
            Some(first) => {
                return Some(ParamProblem::MultipleBypass { first });
            },
            None => {},
        }
        if (raw.flags & bits.stepped) == 0 {
            return Some(ParamProblem::BypassNotStepped);
        }
    }
    // Being automatable or modulatable only in parts is allowed, but almost certainly a mistake.
    if (raw.flags & bits.automatable) == 0 && (raw.flags & (bits.automatable_per_note_id
        | bits.automatable_per_key | bits.automatable_per_channel | bits.automatable_per_port))
        != 0 {
        return Some(ParamProblem::NotAutomatable);
    }
    if (raw.flags & bits.modulatable) == 0 && (raw.flags & (bits.modulatable_per_note_id
        | bits.modulatable_per_key | bits.modulatable_per_channel | bits.modulatable_per_port))
        != 0 {
        return Some(ParamProblem::NotModulatable);
    }
    None
}

/// Makes the report on a parameter that breaks a rule.
fn report(raw: &RawParamInfo, name: String, module: String, problem: ParamProblem) -> (error:
    ParamsError<String>)
    ensures
        error@ == inconsistent(raw@, name@, module@, problem),
{
    ParamsError::Inconsistent {
        param: ParamReport {
            id: raw.id,
            name,
            module,
            min_value: raw.min_value,
            max_value: raw.max_value,
            default_value: raw.default_value,
        },
        problem,
    }
}

/// Gathers a plugin's parameters, one after the other.
pub struct ParamScan {
    bypass: Option<u32>,
    params: HashMap<u32, ParamInfo>,
}

impl View for ParamScan {
    type V = ScanView;

    closed spec fn view(&self) -> ScanView {
        ScanView { bypass: self.bypass, params: params_view(self.params@) }
    }
}

impl ParamScan {
    /// Starts without any parameter.
    pub fn new() -> (gathered: ParamScan)
        ensures
            gathered@ == ScanView::start(),
    {
        let gathered = ParamScan { bypass: None, params: HashMap::new() };
        assert(gathered@.params =~= Map::empty());
        gathered
    }

    /// Takes what the plugin says about the next parameter. If something is wrong with it, then
    /// nothing is added.
    pub fn take_param(&mut self, raw: RawParamInfo) -> (result: Result<(), ParamsError<String>>)
        ensures
            match result {
                Ok(()) => old(self)@.after_param(raw@) == Ok::<ScanView, ParamsError<Seq<char>>>(
                    final(self)@,
                ),
                Err(error) => final(self)@ == old(self)@ && old(self)@.after_param(raw@) == Err::<
                    ScanView,
                    ParamsError<Seq<char>>,
                >(error@),
            },
    {
        let name = match text::c_char_slice_to_string(raw.name.as_slice()) {
            Ok(name) => name,
            Err(error) => {
                return Err(ParamsError::UnreadableName { param_id: raw.id, error });
            },
        };
        let module = match text::c_char_slice_to_string(raw.module.as_slice()) {
            Ok(module) => module,
            Err(error) => {
                return Err(ParamsError::UnreadableModule { param_id: raw.id, name, error });
            },
        };
        match check_module(module.as_str()) {
            Some(problem) => {
                return Err(report(&raw, name, module, problem));
            },
            None => {},
        }
        match check_values(&raw) {
            Some(problem) => {
                return Err(report(&raw, name, module, problem));
            },
            None => {},
        }
        match check_flags(&raw, self.bypass) {
            Some(problem) => {
                return Err(report(&raw, name, module, problem));
            },
            None => {},
        }
        if self.params.contains_key(&raw.id) {
            return Err(report(&raw, name, module, ParamProblem::DuplicateId));
        }
        if (raw.flags & clap::param_flags().bypass) != 0 {
            self.bypass = Some(raw.id);
        }
        let info = ParamInfo {
            name,
            range: ValueRange { start: raw.min_value, end: raw.max_value },
            default: raw.default_value,
            flags: raw.flags,
        };
        self.params.insert(raw.id, info);
        assert(self@.params =~= old(self)@.params.insert(raw.id, info@));
        Ok(())
    }

    /// Takes the plugin's answer to the question for the parameter at a position.
    pub fn take_answer(
        &mut self,
        index: u32,
        num_params: u32,
        answer: Option<RawParamInfo>,
    ) -> (result: Result<(), ParamsError<String>>)
        ensures
            match result {
                Ok(()) => old(self)@.after_answer(index, num_params, answer_view(answer)) == Ok::<
                    ScanView,
                    ParamsError<Seq<char>>,
                >(final(self)@),
                Err(error) => final(self)@ == old(self)@ && old(self)@.after_answer(
                    index,
                    num_params,
                    answer_view(answer),
                ) == Err::<ScanView, ParamsError<Seq<char>>>(error@),
            },
    {
        match answer {
            None => Err(ParamsError::NoInfo { index, num_params }),
            Some(raw) => self.take_param(raw),
        }
    }

    /// Hands out the gathered parameters.
    pub fn finish(self) -> (params: HashMap<u32, ParamInfo>)
        ensures
            params_view(params@) == self@.params,
    {
        self.params
    }
}

} // verus!
