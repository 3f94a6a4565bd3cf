use std::cell::RefCell;

use clap_validator::double::Double;
use clap_validator::messages::NumberTexts;
use clap_validator::params::{ParamProblem, ParamScan, ParamsError, RawParamInfo, ValueRange};
use clap_validator::plugin::Params;
use clap_validator::text::TextError;

const STEPPED: u32 = 1 << 0;
const BYPASS: u32 = 1 << 4;
const AUTOMATABLE: u32 = 1 << 5;
const MODULATABLE: u32 = 1 << 10;

fn double(value: f64) -> Double {
    Double {
        bits: value.to_bits(),
    }
}

fn buffer(text: &str) -> Vec<u8> {
    let mut bytes = text.as_bytes().to_vec();
    bytes.resize(64, 0);
    bytes
}

fn param(id: u32, flags: u32) -> RawParamInfo {
    RawParamInfo {
        id,
        flags,
        name: buffer("Gain"),
        module: buffer("main/output"),
        min_value: double(0.0),
        max_value: double(1.0),
        default_value: double(0.5),
    }
}

fn problem_of(raw: RawParamInfo) -> Option<ParamProblem> {
    match ParamScan::new().take_param(raw) {
        Ok(()) => None,
        Err(ParamsError::Inconsistent { problem, .. }) => Some(problem),
        Err(error) => panic!("{error:?}"),
    }
}

fn with_module(module: &str) -> RawParamInfo {
    RawParamInfo {
        module: buffer(module),
        ..param(1, 0)
    }
}

fn with_values(min: f64, max: f64, default: f64, flags: u32) -> RawParamInfo {
    RawParamInfo {
        min_value: double(min),
        max_value: double(max),
        default_value: double(default),
        ..param(1, flags)
    }
}

fn texts() -> NumberTexts {
    NumberTexts {
        value: "0.25".to_string(),
        minimum: "2.5".to_string(),
        maximum: "1".to_string(),
        default_value: "7".to_string(),
        range: "2.5..=1.0".to_string(),
    }
}

#[test]
fn all_parameters_are_gathered() {
    let params = Params::info(3, |index| {
        Some(RawParamInfo {
            name: buffer(&format!("P{index}")),
            ..param(10 * index, if index == 1 { BYPASS | STEPPED } else { 0 })
        })
    })
    .unwrap();
    assert_eq!(params.len(), 3);
    assert_eq!(params[&0].name, "P0");
    assert_eq!(params[&20].name, "P2");
    assert_eq!(
        params[&20].range,
        ValueRange {
            start: double(0.0),
            end: double(1.0)
        }
    );
    assert_eq!(params[&20].default, double(0.5));
    assert!(params[&10].stepped());
    assert!(!params[&20].stepped());
    assert_eq!(params[&10].flags, BYPASS | STEPPED);
}

#[test]
fn a_plugin_without_parameters_is_fine() {
    assert!(Params::info(0, |_| None).unwrap().is_empty());
}

#[test]
fn nothing_is_asked_after_the_first_error() {
    let asked = RefCell::new(Vec::new());
    let error = Params::info(5, |index| {
        asked.borrow_mut().push(index);
        if index < 2 {
            Some(param(index, 0))
        } else {
            None
        }
    })
    .unwrap_err();
    assert!(matches!(
        error,
        ParamsError::NoInfo {
            index: 2,
            num_params: 5
        }
    ));
    assert_eq!(
        error.message(&texts()),
        "Plugin returned an error when querying parameter 2 (5 total parameters)"
    );
    assert_eq!(*asked.borrow(), vec![0, 1, 2]);
}

#[test]
fn unreadable_names_are_refused() {
    let raw = RawParamInfo {
        name: vec![b'a'; 8],
        ..param(12, 0)
    };
    let error = ParamScan::new().take_param(raw).unwrap_err();
    assert!(matches!(
        error,
        ParamsError::UnreadableName {
            param_id: 12,
            error: TextError::NotTerminated
        }
    ));
    assert_eq!(
        error.message(&texts()),
        "Could not read the name for parameter with stable ID 12"
    );
}

#[test]
fn unreadable_modules_are_refused() {
    let raw = RawParamInfo {
        module: vec![0xff, 0],
        ..param(12, 0)
    };
    let error = ParamScan::new().take_param(raw).unwrap_err();
    assert!(matches!(
        error,
        ParamsError::UnreadableModule {
            param_id: 12,
            error: TextError::NotUtf8,
            ..
        }
    ));
    assert_eq!(
        error.message(&texts()),
        "Could not read the module name for parameter 'Gain' (stable ID 12)"
    );
}

#[test]
fn slashes_in_modules_are_checked() {
    assert_eq!(problem_of(with_module("")), None);
    assert_eq!(problem_of(with_module("a/b/c")), None);
    assert_eq!(
        problem_of(with_module("/a")),
        Some(ParamProblem::LeadingSlash)
    );
    assert_eq!(
        problem_of(with_module("/")),
        Some(ParamProblem::LeadingSlash)
    );
    assert_eq!(
        problem_of(with_module("a/")),
        Some(ParamProblem::TrailingSlash)
    );
    assert_eq!(
        problem_of(with_module("a//b")),
        Some(ParamProblem::RepeatedSlash)
    );
    assert_eq!(
        ParamScan::new()
            .take_param(with_module("a//b"))
            .unwrap_err()
            .message(&texts()),
        "The module name for parameter 'Gain' (stable ID 1) contains multiple subsequent slashes: \
         'a//b'"
    );
    assert_eq!(
        ParamScan::new()
            .take_param(with_module("/b"))
            .unwrap_err()
            .message(&texts()),
        "The module name for parameter 'Gain' (stable ID 1) starts with a leading slash: '/b'"
    );
    assert_eq!(
        ParamScan::new()
            .take_param(with_module("b/"))
            .unwrap_err()
            .message(&texts()),
        "The module name for parameter 'Gain' (stable ID 1) ends with a trailing slash: 'b/'"
    );
}

#[test]
fn ranges_are_checked() {
    assert_eq!(problem_of(with_values(-1.0, 1.0, -1.0, 0)), None);
    assert_eq!(problem_of(with_values(0.0, 0.0, -0.0, 0)), None);
    assert_eq!(
        problem_of(with_values(2.5, 1.0, 2.0, 0)),
        Some(ParamProblem::MinimumAboveMaximum)
    );
    assert_eq!(
        problem_of(with_values(0.0, 1.0, 1.5, 0)),
        Some(ParamProblem::DefaultOutOfRange)
    );
    assert_eq!(
        problem_of(with_values(0.0, 1.0, f64::NAN, 0)),
        Some(ParamProblem::DefaultOutOfRange)
    );
    assert_eq!(
        problem_of(with_values(f64::NAN, 1.0, 0.0, 0)),
        Some(ParamProblem::DefaultOutOfRange)
    );
    assert_eq!(
        ParamScan::new()
            .take_param(with_values(2.5, 1.0, 7.0, 0))
            .unwrap_err()
            .message(&texts()),
        "Parameter 'Gain' (stable ID 1) has a minimum value (2.5) that's higher than it's maximum \
         value (1)"
    );
    assert_eq!(
        ParamScan::new()
            .take_param(with_values(0.0, 1.0, 7.0, 0))
            .unwrap_err()
            .message(&texts()),
        "Parameter 'Gain' (stable ID 1) has a default value (7) that falls outside of its value \
         range (2.5..=1.0)"
    );
}

#[test]
fn stepped_parameters_have_whole_bounds() {
    assert_eq!(problem_of(with_values(0.0, 3.0, 1.5, STEPPED)), None);
    assert_eq!(
        problem_of(with_values(0.5, 3.0, 1.0, STEPPED)),
        Some(ParamProblem::MinimumNotWhole)
    );
    assert_eq!(
        problem_of(with_values(0.0, 3.25, 1.0, STEPPED)),
        Some(ParamProblem::MaximumNotWhole)
    );
    assert_eq!(problem_of(with_values(0.5, 3.25, 1.0, 0)), None);
    assert_eq!(
        ParamScan::new()
            .take_param(with_values(0.5, 3.0, 1.0, STEPPED))
            .unwrap_err()
            .message(&texts()),
        "Parameter 'Gain' (stable ID 1) is a stepped parameter, but its minimum value (2.5) is \
         not an integer"
    );
    assert_eq!(
        ParamScan::new()
            .take_param(with_values(0.0, 3.5, 1.0, STEPPED))
            .unwrap_err()
            .message(&texts()),
        "Parameter 'Gain' (stable ID 1) is a stepped parameter, but its maximum value (1) is not \
         an integer"
    );
}

#[test]
fn there_is_one_bypass_parameter() {
    let mut gathered = ParamScan::new();
    gathered.take_param(param(4, BYPASS | STEPPED)).unwrap();
    gathered.take_param(param(5, 0)).unwrap();
    let error = gathered.take_param(param(6, BYPASS | STEPPED)).unwrap_err();
    assert!(matches!(
        error,
        ParamsError::Inconsistent {
            problem: ParamProblem::MultipleBypass { first: 4 },
            ..
        }
    ));
    assert_eq!(
        error.message(&texts()),
        "The plugin has multiple bypass parameters (stable indices 4 and 6)"
    );
    // Nothing was added
    assert_eq!(gathered.finish().len(), 2);
}

#[test]
fn bypass_parameters_are_stepped() {
    assert_eq!(
        problem_of(param(1, BYPASS)),
        Some(ParamProblem::BypassNotStepped)
    );
    assert_eq!(
        ParamScan::new()
            .take_param(param(1, BYPASS))
            .unwrap_err()
            .message(&texts()),
        "Parameter 'Gain' (stable ID 1) is a bypass parameter, but it is not stepped"
    );
}

#[test]
fn partial_automation_needs_automation() {
    for bit in 6..10 {
        assert_eq!(
            problem_of(param(1, 1 << bit)),
            Some(ParamProblem::NotAutomatable)
        );
        assert_eq!(problem_of(param(1, AUTOMATABLE | 1 << bit)), None);
    }
    for bit in 11..15 {
        assert_eq!(
            problem_of(param(1, 1 << bit)),
            Some(ParamProblem::NotModulatable)
        );
        assert_eq!(problem_of(param(1, MODULATABLE | 1 << bit)), None);
    }
    assert_eq!(
        problem_of(param(1, MODULATABLE | 1 << 6)),
        Some(ParamProblem::NotAutomatable)
    );
    assert_eq!(
        ParamScan::new()
            .take_param(param(1, 1 << 6))
            .unwrap_err()
            .message(&texts()),
        "Parameter 'Gain' (stable ID 1) is automatable per note ID, key, channel, or port, but \
         does not have CLAP_PARAM_IS_AUTOMATABLE. This is likely a bug."
    );
    assert_eq!(
        ParamScan::new()
            .take_param(param(1, 1 << 14))
            .unwrap_err()
            .message(&texts()),
        "Parameter 'Gain' (stable ID 1) is modulatable per note ID, key, channel, or port, but \
         does not have CLAP_PARAM_IS_MODULATABLE. This is likely a bug."
    );
}

#[test]
fn stable_ids_are_unique() {
    let error = Params::info(2, |_| Some(param(9, 0))).unwrap_err();
    assert!(matches!(
        error,
        ParamsError::Inconsistent {
            problem: ParamProblem::DuplicateId,
            ..
        }
    ));
    assert_eq!(
        error.message(&texts()),
        "The plugin contains multiple parameters with stable ID 9"
    );
}

#[test]
fn earlier_rules_come_first() {
    let raw = RawParamInfo {
        module: buffer("/x"),
        ..with_values(2.0, 1.0, 5.0, BYPASS | 1 << 6)
    };
    assert_eq!(problem_of(raw), Some(ParamProblem::LeadingSlash));
    assert_eq!(
        problem_of(with_values(2.0, 1.0, 5.0, BYPASS | 1 << 6)),
        Some(ParamProblem::MinimumAboveMaximum)
    );
    assert_eq!(
        problem_of(with_values(0.0, 1.0, 0.0, BYPASS | 1 << 6)),
        Some(ParamProblem::BypassNotStepped)
    );
}

#[test]
fn values_are_read() {
    assert_eq!(
        Params::get(3, |id| Some(double(f64::from(id)))).unwrap(),
        double(3.0)
    );
    let error = Params::get(3, |_| None).unwrap_err();
    assert!(matches!(error, ParamsError::NoValue { param_id: 3 }));
    assert_eq!(
        error.message(&texts()),
        "'clap_plugin_params::get_value()' returned false for parameter ID 3"
    );
}

#[test]
fn values_are_written_as_text() {
    assert_eq!(
        Params::value_to_text(3, double(0.25), |_, _| Some(buffer("-12 dB \u{266b}"))).unwrap(),
        "-12 dB \u{266b}"
    );

    let error = Params::value_to_text(3, double(0.25), |_, _| None).unwrap_err();
    assert!(matches!(error, ParamsError::NoText { param_id: 3, .. }));
    assert_eq!(
        error.message(&texts()),
        "'clap_plugin_params::value_to_text()' returned false for parameter ID 3 and value 0.25"
    );

    let error = Params::value_to_text(3, double(0.25), |_, _| Some(vec![0xc3, 0])).unwrap_err();
    assert!(matches!(
        error,
        ParamsError::UnreadableText {
            param_id: 3,
            error: TextError::NotUtf8,
            ..
        }
    ));
    assert_eq!(
        error.message(&texts()),
        "Could not convert the string representation of 0.25 for parameter 3 to a UTF-8 string"
    );
}

#[test]
fn texts_are_parsed() {
    assert_eq!(
        Params::text_to_value(3, "1.5", |id, bytes| {
            assert_eq!(id, 3);
            assert_eq!(bytes, b"1.5\0");
            Some(double(1.5))
        })
        .unwrap(),
        double(1.5)
    );

    let error = Params::text_to_value(3, "loud", |_, _| None).unwrap_err();
    assert_eq!(
        error.message(&texts()),
        "'clap_plugin_params::text_to_value()' returned false for parameter ID 3 and string \
         representation 'loud'"
    );

    let error = Params::text_to_value(3, "a\0b", |_, _| panic!("not asked")).unwrap_err();
    assert!(matches!(error, ParamsError::NulInText { position: 1 }));
    assert_eq!(
        error.message(&texts()),
        "nul byte found in provided data at position: 1"
    );
}

#[test]
fn the_extension_has_an_identifier() {
    assert_eq!(Params::extension_id(), b"clap.params");
}
