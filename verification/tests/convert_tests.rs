//! Conversions between module text and binary, driven step by step.
//!
//! The native toolkit is not linked into these tests. `StandIn` takes its
//! place: it performs each step the conversion asks for, with the answers
//! the toolkit gives on the handful of inputs used here. What the tests
//! exercise is the library's side: which steps are asked for, in which
//! order and with which options, that the first failure ends the
//! conversion, which error a failure becomes, and that the output is handed
//! on as it is.

use wabt::convert::{
    check_file_name, compile_script, step_failure, text_of_output, Conversion, Step,
    WriteBinaryOptions, WriteTextOptions,
};
use wabt::{Error, ErrorKind, Features, ReadBinaryOptions, Wasm2Wat, Wat2Wasm};

const EMPTY_MODULE: [u8; 8] = [0, 97, 115, 109, 1, 0, 0, 0];

const FACTORIAL: [u8; 77] = [
    0, 97, 115, 109, 1, 0, 0, 0, 1, 6, 1, 96, 1, 124, 1, 124, 3, 2, 1, 0, 7, 7, 1, 3, 102, 97, 99,
    0, 0, 10, 46, 1, 44, 0, 32, 0, 68, 0, 0, 0, 0, 0, 0, 240, 63, 99, 4, 124, 68, 0, 0, 0, 0, 0,
    0, 240, 63, 5, 32, 0, 32, 0, 68, 0, 0, 0, 0, 0, 0, 240, 63, 161, 16, 0, 162, 11, 11,
];

const FACTORIAL_TEXT: &str = "(module\n  (type (;0;) (func (param f64) (result f64)))\n  (func (;0;) (type 0) (param f64) (result f64)\n    local.get 0\n    f64.const 0x1p+0 (;=1;)\n    f64.lt\n    if (result f64)  ;; label = @1\n      f64.const 0x1p+0 (;=1;)\n    else\n      local.get 0\n      local.get 0\n      f64.const 0x1p+0 (;=1;)\n      f64.sub\n      call 0\n      f64.mul\n    end)\n  (export \"fac\" (func 0)))\n";

/// The modules the stand-in knows.
#[derive(Clone, Copy, Debug, PartialEq)]
enum Known {
    Empty,
    Factorial,
}

/// Takes the place of the native toolkit.
struct StandIn {
    input: Vec<u8>,
    module: Option<Known>,
    output: Vec<u8>,
    performed: Vec<Step>,
}

impl StandIn {
    fn new(input: &[u8]) -> StandIn {
        StandIn { input: input.to_vec(), module: None, output: Vec::new(), performed: Vec::new() }
    }

    fn perform(&mut self, step: Step) -> Result<(), String> {
        self.performed.push(step);
        match step {
            Step::ParseWat => {
                let text = String::from_utf8(self.input.clone()).unwrap();
                let words: Vec<&str> = text.split_whitespace().collect();
                if words == ["(module)"] || words == ["(module", ")"] {
                    self.module = Some(Known::Empty);
                    Ok(())
                } else if text == FACTORIAL_TEXT {
                    self.module = Some(Known::Factorial);
                    Ok(())
                } else if text == "(modu" {
                    Err("test.wast:1:2: error: unexpected token \"modu\", expected a module field or a module.\n(modu\n ^^^^\n".to_string())
                } else {
                    Err("test.wast:1:1: error: the stand-in does not know this text\n".to_string())
                }
            }
            Step::ReadBinary(_) => {
                if self.input == EMPTY_MODULE {
                    self.module = Some(Known::Empty);
                    Ok(())
                } else if self.input == FACTORIAL {
                    self.module = Some(Known::Factorial);
                    Ok(())
                } else if self.input == [0, 97, 115, 109] {
                    Err("0000004: error: unable to read uint32_t: version\n".to_string())
                } else {
                    Err("0000000: error: the stand-in does not know this binary\n".to_string())
                }
            }
            Step::ResolveNames | Step::Validate => Ok(()),
            Step::WriteBinary(_) => {
                self.output = match self.module.unwrap() {
                    Known::Empty => EMPTY_MODULE.to_vec(),
                    Known::Factorial => FACTORIAL.to_vec(),
                };
                Ok(())
            }
            Step::WriteText(_) => {
                self.output = match self.module.unwrap() {
                    Known::Empty => b"(module)\n".to_vec(),
                    Known::Factorial => FACTORIAL_TEXT.as_bytes().to_vec(),
                };
                Ok(())
            }
            Step::ParseWast | Step::WriteScript(_) => {
                Err("the stand-in compiles no scripts".to_string())
            }
        }
    }
}

/// Drives a conversion to its end: performs each pending step and reports
/// how it went.
fn drive(mut conversion: Conversion, toolkit: &mut StandIn) -> Result<(), Error> {
    while let Some(step) = conversion.pending() {
        match toolkit.perform(step) {
            Ok(()) => conversion.step_done(),
            Err(message) => return Err(conversion.step_failed(message).unwrap()),
        }
    }
    Ok(())
}

fn wat2wasm<S: AsRef<[u8]>>(source: S) -> Result<Vec<u8>, Error> {
    check_file_name("test.wast")?;
    let mut toolkit = StandIn::new(source.as_ref());
    drive(Wat2Wasm::new().convert(), &mut toolkit)?;
    Ok(toolkit.output)
}

fn wasm2wat<S: AsRef<[u8]>>(wasm: S) -> Result<String, Error> {
    let mut toolkit = StandIn::new(wasm.as_ref());
    drive(Wasm2Wat::new().convert(), &mut toolkit)?;
    text_of_output(toolkit.output)
}

#[test]
fn test_wat2wasm() {
    assert_eq!(wat2wasm("(module)").unwrap(), &[0, 97, 115, 109, 1, 0, 0, 0]);

    assert_eq!(
        wat2wasm(
            r#"
            (module
            )"#
        )
        .unwrap(),
        &[0, 97, 115, 109, 1, 0, 0, 0]
    );

    assert_eq!(
        wat2wasm("(modu"),
        Err(Error::new(ErrorKind::Parse(
            r#"test.wast:1:2: error: unexpected token "modu", expected a module field or a module.
(modu
 ^^^^
"#
            .to_string()
        )))
    );
}

#[test]
fn test_wasm2wat() {
    assert_eq!(
        wasm2wat(&[
            0, 97, 115, 109, // \0ASM - magic
            1, 0, 0, 0 //    01 - version
        ]),
        Ok("(module)\n".to_owned()),
    );

    assert_eq!(
        wasm2wat(&[
            0, 97, 115, 109, // \0ASM - magic
        ]),
        Err(Error::new(ErrorKind::Deserialize(
            "0000004: error: unable to read uint32_t: version\n".to_owned()
        ))),
    );
}

#[test]
fn roundtrip() {
    let factorial: &[u8] = &[
        0, 97, 115, 109, 1, 0, 0, 0, 1, 6, 1, 96, 1, 124, 1, 124, 3, 2, 1, 0, 7, 7,
        1, 3, 102, 97, 99, 0, 0, 10, 46, 1, 44, 0, 32, 0, 68, 0, 0, 0, 0, 0, 0, 240,
        63, 99, 4, 124, 68, 0, 0, 0, 0, 0, 0, 240, 63, 5, 32, 0, 32, 0, 68, 0, 0, 0,
        0, 0, 0, 240, 63, 161, 16, 0, 162, 11, 11
    ];

    let text = wasm2wat(&factorial).unwrap();
    let binary = wat2wasm(&text).unwrap();

    assert_eq!(&*factorial, &*binary);
}

fn default_write_options() -> WriteBinaryOptions {
    WriteBinaryOptions {
        log: false,
        canonicalize_lebs: true,
        relocatable: false,
        write_debug_names: false,
    }
}

#[test]
fn wat2wasm_takes_four_steps_in_order() {
    let mut toolkit = StandIn::new(b"(module)");
    drive(Wat2Wasm::new().convert(), &mut toolkit).unwrap();
    assert_eq!(
        toolkit.performed,
        vec![
            Step::ParseWat,
            Step::ResolveNames,
            Step::Validate,
            Step::WriteBinary(default_write_options()),
        ]
    );
}

#[test]
fn wat2wasm_without_validation_skips_the_step() {
    let mut builder = Wat2Wasm::new();
    builder.validate(false).canonicalize_lebs(false).relocatable(true).write_debug_names(true);
    let mut toolkit = StandIn::new(b"(module)");
    drive(builder.convert(), &mut toolkit).unwrap();
    assert_eq!(
        toolkit.performed,
        vec![
            Step::ParseWat,
            Step::ResolveNames,
            Step::WriteBinary(WriteBinaryOptions {
                log: false,
                canonicalize_lebs: false,
                relocatable: true,
                write_debug_names: true,
            }),
        ]
    );
}

#[test]
fn wasm2wat_takes_two_steps_with_its_options() {
    let mut builder = Wasm2Wat::new();
    builder.read_debug_names(true).fold_exprs(true).inline_export(true);
    let mut toolkit = StandIn::new(&EMPTY_MODULE);
    drive(builder.convert(), &mut toolkit).unwrap();
    assert_eq!(
        toolkit.performed,
        vec![
            Step::ReadBinary(ReadBinaryOptions { read_debug_names: true }),
            Step::WriteText(WriteTextOptions { fold_exprs: true, inline_export: true }),
        ]
    );
    let mut plain = StandIn::new(&EMPTY_MODULE);
    drive(Wasm2Wat::new().convert(), &mut plain).unwrap();
    assert_eq!(
        plain.performed,
        vec![
            Step::ReadBinary(ReadBinaryOptions { read_debug_names: false }),
            Step::WriteText(WriteTextOptions { fold_exprs: false, inline_export: false }),
        ]
    );
}

#[test]
fn a_failed_step_ends_the_conversion() {
    let mut toolkit = StandIn::new(b"(modu");
    let outcome = drive(Wat2Wasm::new().convert(), &mut toolkit);
    assert!(outcome.is_err());
    assert_eq!(toolkit.performed, vec![Step::ParseWat]);
    assert!(toolkit.output.is_empty());
}

#[test]
fn each_step_fails_with_its_own_kind() {
    let msg = || "what the toolkit said".to_string();
    let options = default_write_options();
    let text = WriteTextOptions { fold_exprs: false, inline_export: false };
    let read = ReadBinaryOptions { read_debug_names: false };
    assert_eq!(step_failure(Step::ParseWat, msg()), Error::new(ErrorKind::Parse(msg())));
    assert_eq!(step_failure(Step::ParseWast, msg()), Error::new(ErrorKind::Parse(msg())));
    assert_eq!(
        step_failure(Step::ReadBinary(read), msg()),
        Error::new(ErrorKind::Deserialize(msg()))
    );
    assert_eq!(
        step_failure(Step::ResolveNames, msg()),
        Error::new(ErrorKind::ResolveNames(msg()))
    );
    assert_eq!(step_failure(Step::Validate, msg()), Error::new(ErrorKind::Validate(msg())));
    assert_eq!(step_failure(Step::WriteBinary(options), msg()), Error::new(ErrorKind::WriteBinary));
    assert_eq!(step_failure(Step::WriteScript(options), msg()), Error::new(ErrorKind::WriteBinary));
    assert_eq!(step_failure(Step::WriteText(text), msg()), Error::new(ErrorKind::WriteText));
}

#[test]
fn a_finished_conversion_has_nothing_pending() {
    let mut conversion = Wasm2Wat::new().convert();
    assert!(conversion.pending().is_some());
    conversion.step_done();
    conversion.step_done();
    assert_eq!(conversion.pending(), None);
    conversion.step_done();
    assert_eq!(conversion.pending(), None);
    assert_eq!(conversion.step_failed("late".to_string()), None);
}

#[test]
fn script_compilation_resolves_names_only_when_asked() {
    let write = Step::WriteScript(default_write_options());
    let mut with_names = compile_script(true);
    let mut seen = Vec::new();
    while let Some(step) = with_names.pending() {
        seen.push(step);
        with_names.step_done();
    }
    assert_eq!(seen, vec![Step::ParseWast, Step::ResolveNames, Step::Validate, write]);
    let mut without = compile_script(false);
    let mut seen = Vec::new();
    while let Some(step) = without.pending() {
        seen.push(step);
        without.step_done();
    }
    assert_eq!(seen, vec![Step::ParseWast, Step::Validate, write]);
    assert_eq!(wabt::script::wast2json().pending(), Some(Step::ParseWast));
    assert_eq!(wabt::runner::wast2json().pending(), Some(Step::ParseWast));
}

#[test]
fn output_that_is_not_utf8_is_reported() {
    assert_eq!(text_of_output(vec![0xff, 0xfe]), Err(Error::new(ErrorKind::NonUtf8Result)));
    assert_eq!(text_of_output(vec![0xc3, 0xa9]), Ok("\u{e9}".to_string()));
    assert_eq!(text_of_output(Vec::new()), Ok(String::new()));
}

#[test]
fn a_file_name_with_nul_is_refused() {
    assert_eq!(check_file_name("test.wast"), Ok(()));
    assert_eq!(check_file_name("te\0st.wast"), Err(Error::new(ErrorKind::Nul)));
    assert_eq!(check_file_name(""), Ok(()));
}

#[test]
fn error_descriptions() {
    assert_eq!(Error::new(ErrorKind::Nul).description(), "string contained nul-byte");
    assert_eq!(
        Error::new(ErrorKind::Deserialize(String::new())).description(),
        "failed to deserialize"
    );
    assert_eq!(Error::new(ErrorKind::Parse(String::new())).description(), "failed to parse");
    assert_eq!(Error::new(ErrorKind::WriteText).description(), "failed to write text");
    assert_eq!(
        Error::new(ErrorKind::NonUtf8Result).description(),
        "result is not a valid utf8"
    );
    assert_eq!(Error::new(ErrorKind::WriteBinary).description(), "failed to write binary");
    assert_eq!(
        Error::new(ErrorKind::ResolveNames(String::new())).description(),
        "failed to resolve names"
    );
    assert_eq!(
        Error::new(ErrorKind::Validate(String::new())).description(),
        "failed to validate"
    );
    assert_eq!(Error::new(ErrorKind::WriteText).kind(), &ErrorKind::WriteText);
    assert_eq!(Error::new(ErrorKind::Nul).into_kind(), ErrorKind::Nul);
}

#[test]
fn builder_features_are_kept() {
    let mut features = Features::new();
    features.enable_simd();
    let mut builder = Wat2Wasm::new();
    assert!(!builder.enabled_features().simd_enabled());
    builder.features(features);
    assert!(builder.enabled_features().simd_enabled());
    assert!(builder.enabled_features().mutable_globals_enabled());
}
