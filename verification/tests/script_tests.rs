use wabt::binary::{ModuleBinary, ModuleStore};
use wabt::json;
use wabt::script::{
    check_test_filename, normalize_command, parse_action, parse_tag, parse_value,
    parse_value_list, Action, Command, CommandKind, Error, FromBits, QuietF32, QuietF64,
    ScriptParser, Value, ValueDecodeError, ValueType,
};

fn val(ty: &str, text: &str) -> json::RuntimeValue {
    json::RuntimeValue { value_type: ty.to_string(), value: text.to_string() }
}

fn invoke(field: &str, args: Vec<json::RuntimeValue>) -> json::Action {
    json::Action::Invoke { module: None, field: field.to_string(), args }
}

fn store_with(name: &str, bytes: &[u8]) -> ModuleStore {
    let mut modules = ModuleStore::new();
    modules.insert(name.to_string(), bytes.to_vec());
    modules
}

fn spec_of(commands: Vec<json::Command>) -> json::Spec {
    json::Spec { source_filename: "test.wast".to_string(), commands }
}

fn raw(v: &json::RuntimeValue) -> Result<Value<u32, u64>, ValueDecodeError> {
    parse_value::<u32, u64>(v)
}

fn quiet(v: &json::RuntimeValue) -> Result<Value<QuietF32, QuietF64>, ValueDecodeError> {
    parse_value::<QuietF32, QuietF64>(v)
}

#[test]
fn sub_script_gives_module_then_assert_return() {
    let wasm: Vec<u8> = vec![0, 97, 115, 109, 1, 0, 0, 0];
    let modules = store_with("test.0.wasm", &wasm);
    let spec = spec_of(vec![
        json::Command::Module { line: 3, name: None, filename: "test.0.wasm".to_string() },
        json::Command::AssertReturn {
            line: 14,
            action: invoke("sub", vec![val("i32", "8"), val("i32", "3")]),
            expected: vec![val("i32", "5")],
        },
    ]);
    let mut parser: ScriptParser<u32, u64> = ScriptParser::from_compiled(spec, modules);
    assert_eq!(parser.remaining(), 2);
    let first = parser.next().unwrap().unwrap();
    match first {
        Command { line, kind: CommandKind::Module { module, name } } => {
            assert_eq!(line, 3);
            assert_eq!(name, None);
            let bytes = module.into_vec();
            assert_eq!(&bytes[0..4], &[0, 97, 115, 109]);
        }
        _ => panic!("the first command defines a module"),
    }
    let second = parser.next().unwrap().unwrap();
    assert_eq!(second.line, 14);
    match second.kind {
        CommandKind::AssertReturn { action, expected } => {
            assert_eq!(
                action,
                Action::Invoke {
                    module: None,
                    field: "sub".to_string(),
                    args: vec![Value::I32(8), Value::I32(3)],
                }
            );
            assert_eq!(expected, vec![Value::I32(5)]);
        }
        _ => panic!("the second command asserts a return value"),
    }
    assert_eq!(parser.remaining(), 0);
    assert_eq!(parser.next().unwrap(), None);
    assert_eq!(parser.next().unwrap(), None);
}

#[test]
fn empty_script_is_exhausted_at_once() {
    let mut parser: ScriptParser<u32, u64> =
        ScriptParser::from_compiled(spec_of(Vec::new()), ModuleStore::new());
    assert_eq!(parser.remaining(), 0);
    assert_eq!(parser.next(), Ok(None));
    assert_eq!(parser.next(), Ok(None));
}

#[test]
fn missing_module_is_a_malformed_intermediate_form() {
    let modules = store_with("test.0.wasm", &[0, 97, 115, 109]);
    let command =
        json::Command::AssertInvalid { line: 9, filename: "test.1.wasm".to_string(), text: "type mismatch".to_string() };
    let outcome = normalize_command::<u32, u64>(&command, &modules);
    let expected = Error::WithLineInfo {
        line: 9,
        error: Box::new(Error::MalformedIntermediateForm("test.1.wasm".to_string())),
    };
    assert_eq!(outcome, Err(expected));
    match outcome {
        Err(Error::WithLineInfo { error, .. }) => {
            assert!(matches!(*error, Error::MalformedIntermediateForm(_)));
            assert!(!matches!(*error, Error::ValueDecode(_)));
            assert!(!matches!(*error, Error::IoError(_)));
        }
        _ => panic!("the command must not decode"),
    }
}

#[test]
fn parser_moves_past_a_command_that_fails() {
    let spec = spec_of(vec![
        json::Command::Module { line: 1, name: None, filename: "gone.wasm".to_string() },
        json::Command::Register { line: 2, name: None, as_name: "m".to_string() },
    ]);
    let mut parser: ScriptParser<u32, u64> = ScriptParser::from_compiled(spec, ModuleStore::new());
    assert!(parser.next().is_err());
    assert_eq!(parser.remaining(), 1);
    assert_eq!(
        parser.next(),
        Ok(Some(Command {
            line: 2,
            kind: CommandKind::Register { name: None, as_name: "m".to_string() },
        }))
    );
    assert_eq!(parser.next(), Ok(None));
}

#[test]
fn every_kind_of_command_is_carried_over() {
    let wasm = [0u8, 97, 115, 109, 1, 0, 0, 0];
    let modules = store_with("m.wasm", &wasm);
    let binary = || ModuleBinary::from_vec(wasm.to_vec());
    let get = || json::Action::Get { module: Some("$m".to_string()), field: "g".to_string() };
    let got = || Action::<u32, u64>::Get { module: Some("$m".to_string()), field: "g".to_string() };
    let file = || "m.wasm".to_string();
    let text = || "why".to_string();
    let cases: Vec<(json::Command, CommandKind<u32, u64>)> = vec![
        (
            json::Command::Module { line: 1, name: Some("$m".to_string()), filename: file() },
            CommandKind::Module { module: binary(), name: Some("$m".to_string()) },
        ),
        (
            json::Command::AssertReturn { line: 1, action: get(), expected: vec![val("i64", "7")] },
            CommandKind::AssertReturn { action: got(), expected: vec![Value::I64(7)] },
        ),
        (
            json::Command::AssertReturnCanonicalNan { line: 1, action: get() },
            CommandKind::AssertReturnCanonicalNan { action: got() },
        ),
        (
            json::Command::AssertReturnArithmeticNan { line: 1, action: get() },
            CommandKind::AssertReturnArithmeticNan { action: got() },
        ),
        (
            json::Command::AssertTrap { line: 1, action: get(), text: text() },
            CommandKind::AssertTrap { action: got(), message: text() },
        ),
        (
            json::Command::AssertInvalid { line: 1, filename: file(), text: text() },
            CommandKind::AssertInvalid { module: binary(), message: text() },
        ),
        (
            json::Command::AssertMalformed { line: 1, filename: file(), text: text() },
            CommandKind::AssertMalformed { module: binary(), message: text() },
        ),
        (
            json::Command::AssertUninstantiable { line: 1, filename: file(), text: text() },
            CommandKind::AssertUninstantiable { module: binary(), message: text() },
        ),
        (
            json::Command::AssertExhaustion { line: 1, action: get() },
            CommandKind::AssertExhaustion { action: got() },
        ),
        (
            json::Command::AssertUnlinkable { line: 1, filename: file(), text: text() },
            CommandKind::AssertUnlinkable { module: binary(), message: text() },
        ),
        (
            json::Command::Register { line: 1, name: Some("$m".to_string()), as_name: "n".to_string() },
            CommandKind::Register { name: Some("$m".to_string()), as_name: "n".to_string() },
        ),
        (json::Command::Action { line: 1, action: get() }, CommandKind::PerformAction(got())),
    ];
    for (command, kind) in cases {
        assert_eq!(
            normalize_command::<u32, u64>(&command, &modules),
            Ok(Command { line: 1, kind })
        );
    }
}

#[test]
fn integers_are_reinterpreted_as_signed() {
    assert_eq!(raw(&val("i32", "0")), Ok(Value::I32(0)));
    assert_eq!(raw(&val("i32", "2147483647")), Ok(Value::I32(i32::MAX)));
    assert_eq!(raw(&val("i32", "2147483648")), Ok(Value::I32(i32::MIN)));
    assert_eq!(raw(&val("i32", "4294967295")), Ok(Value::I32(-1)));
    assert_eq!(raw(&val("i64", "9223372036854775807")), Ok(Value::I64(i64::MAX)));
    assert_eq!(raw(&val("i64", "9223372036854775808")), Ok(Value::I64(i64::MIN)));
    assert_eq!(raw(&val("i64", "18446744073709551615")), Ok(Value::I64(-1)));
    assert_eq!(raw(&val("i32", "+5")), Ok(Value::I32(5)));
    assert_eq!(raw(&val("i32", "007")), Ok(Value::I32(7)));
}

#[test]
fn raw_bits_keep_every_pattern() {
    assert_eq!(raw(&val("f32", "2139095041")), Ok(Value::F32(0x7f80_0001)));
    assert_eq!(raw(&val("f32", "1065353216")), Ok(Value::F32(0x3f80_0000)));
    assert_eq!(raw(&val("f64", "9218868437227405313")), Ok(Value::F64(0x7ff0_0000_0000_0001)));
    for (ty, text, bits) in [
        ("i32", "4294967295", 0xffff_ffffu64),
        ("i32", "2147483648", 0x8000_0000),
        ("i64", "18446744073709551615", u64::MAX),
        ("f32", "2139095041", 0x7f80_0001),
        ("f64", "9218868437227405313", 0x7ff0_0000_0000_0001),
        ("f64", "0", 0),
    ] {
        assert_eq!(raw(&val(ty, text)).unwrap().to_bits(), bits);
        assert_eq!(wabt::decimal::decimal_text(bits), text);
    }
}

#[test]
fn quiet_floats_lose_only_the_signaling_bit() {
    let f32_bits = |text: &str| match quiet(&val("f32", text)) {
        Ok(Value::F32(v)) => v.to_bits(),
        other => panic!("not a 32-bit float: {:?}", other),
    };
    let f64_bits = |text: &str| match quiet(&val("f64", text)) {
        Ok(Value::F64(v)) => v.to_bits(),
        other => panic!("not a 64-bit float: {:?}", other),
    };
    assert_eq!(f32_bits("2139095041"), 0x7fc0_0001);
    assert_eq!(f32_bits("4286578689"), 0xffc0_0001);
    assert_eq!(f32_bits("2143289344"), 0x7fc0_0000);
    assert_eq!(f32_bits("2139095040"), 0x7f80_0000);
    assert_eq!(f32_bits("1065353216"), 0x3f80_0000);
    assert_eq!(f64_bits("9218868437227405313"), 0x7ff8_0000_0000_0001);
    assert_eq!(f64_bits("9218868437227405312"), 0x7ff0_0000_0000_0000);
    assert_eq!(f64_bits("4607182418800017408"), 0x3ff0_0000_0000_0000);
    let once = QuietF32::from_bits(0x7f80_0001);
    assert_eq!(QuietF32::from_bits(once.to_bits()), once);
    let once = QuietF64::from_bits(0xfff0_0000_0000_0001);
    assert_eq!(once.to_bits(), 0xfff8_0000_0000_0001);
    assert_eq!(QuietF64::from_bits(once.to_bits()), once);
    assert_eq!(<u32 as FromBits<u32>>::from_bits(0x7f80_0001), 0x7f80_0001);
}

#[test]
fn text_that_is_no_number_of_the_width_is_refused() {
    let refused = |ty: &str, text: &str| {
        assert_eq!(
            raw(&val(ty, text)),
            Err(ValueDecodeError::ValueParse { text: text.to_string(), tag: ty.to_string() })
        );
    };
    refused("i32", "4294967296");
    refused("f32", "4294967296");
    refused("i64", "18446744073709551616");
    refused("f64", "99999999999999999999999999");
    refused("i32", "");
    refused("i32", "+");
    refused("i32", "-1");
    refused("i32", "0x10");
    refused("i32", "1 ");
    refused("i32", "\u{ff11}");
    refused("i64", "12a");
}

#[test]
fn unknown_type_is_reported_before_the_text_is_read() {
    assert_eq!(
        raw(&val("v128", "nonsense")),
        Err(ValueDecodeError::UnknownValueType { tag: "v128".to_string() })
    );
    assert_eq!(
        raw(&val("I32", "1")),
        Err(ValueDecodeError::UnknownValueType { tag: "I32".to_string() })
    );
    assert_eq!(parse_tag("i32"), Some(ValueType::I32));
    assert_eq!(parse_tag("i64"), Some(ValueType::I64));
    assert_eq!(parse_tag("f32"), Some(ValueType::F32));
    assert_eq!(parse_tag("f64"), Some(ValueType::F64));
    assert_eq!(parse_tag(""), None);
    assert_eq!(parse_tag("i3"), None);
    assert_eq!(parse_tag("i322"), None);
}

#[test]
fn a_list_fails_with_its_first_bad_element() {
    let vals = vec![val("i32", "1"), val("i32", "x"), val("nope", "2")];
    assert_eq!(
        parse_value_list::<u32, u64>(&vals),
        Err(ValueDecodeError::ValueParse { text: "x".to_string(), tag: "i32".to_string() })
    );
    let vals = vec![val("i32", "1"), val("f64", "2"), val("i64", "3")];
    assert_eq!(
        parse_value_list::<u32, u64>(&vals),
        Ok(vec![Value::I32(1), Value::F64(2), Value::I64(3)])
    );
    assert_eq!(parse_value_list::<u32, u64>(&Vec::new()), Ok(Vec::new()));
}

#[test]
fn field_names_are_decoded() {
    let action = json::Action::Get {
        module: Some("$M".to_string()),
        field: "\u{ef}\u{bb}\u{bf}".to_string(),
    };
    assert_eq!(
        parse_action::<u32, u64>(&action),
        Ok(Action::Get { module: Some("$M".to_string()), field: "\u{feff}".to_string() })
    );
    let bad = invoke("\u{ff}", vec![val("nope", "1")]);
    assert_eq!(
        parse_action::<u32, u64>(&bad),
        Err(Error::MalformedIntermediateForm("\u{ff}".to_string()))
    );
    let bad_arg = invoke("f", vec![val("nope", "1")]);
    assert_eq!(
        parse_action::<u32, u64>(&bad_arg),
        Err(Error::ValueDecode(ValueDecodeError::UnknownValueType { tag: "nope".to_string() }))
    );
}

#[test]
fn failures_carry_the_line_of_their_command() {
    let command = json::Command::AssertReturn {
        line: 42,
        action: invoke("f", Vec::new()),
        expected: vec![val("i32", "five")],
    };
    let failure = normalize_command::<u32, u64>(&command, &ModuleStore::new()).unwrap_err();
    assert_eq!(
        failure,
        Error::WithLineInfo {
            line: 42,
            error: Box::new(Error::ValueDecode(ValueDecodeError::ValueParse {
                text: "five".to_string(),
                tag: "i32".to_string(),
            })),
        }
    );
    assert_eq!(failure.message(), "At line 42: can't parse 'five' as 'i32'");
}

#[test]
fn error_messages() {
    assert_eq!(Error::IoError("gone".to_string()).message(), "IO error: gone");
    assert_eq!(
        Error::WabtError(wabt::Error::new(wabt::ErrorKind::Parse("x".to_string()))).message(),
        "wabt error: failed to parse"
    );
    assert_eq!(
        Error::MalformedIntermediateForm("a.wasm".to_string()).message(),
        "malformed intermediate form: a.wasm"
    );
    assert_eq!(
        Error::ValueDecode(ValueDecodeError::UnknownValueType { tag: "v128".to_string() })
            .message(),
        "Unknown type 'v128'"
    );
    assert_eq!(Error::Other("plain".to_string()).message(), "plain");
    assert_eq!(
        Error::WithLineInfo {
            line: 18446744073709551615,
            error: Box::new(Error::Other("late".to_string())),
        }
        .message(),
        "At line 18446744073709551615: late"
    );
}

#[test]
fn script_names_must_end_in_wast() {
    assert_eq!(check_test_filename("test.wast"), Ok(()));
    assert_eq!(check_test_filename(".wast"), Ok(()));
    assert_eq!(
        check_test_filename("test.wat"),
        Err(Error::Other("Provided test.wat should have .wast extension".to_string()))
    );
    assert_eq!(
        check_test_filename("wast"),
        Err(Error::Other("Provided wast should have .wast extension".to_string()))
    );
    assert_eq!(
        check_test_filename(""),
        Err(Error::Other("Provided  should have .wast extension".to_string()))
    );
    assert_eq!(
        check_test_filename("a.wast.bak"),
        Err(Error::Other("Provided a.wast.bak should have .wast extension".to_string()))
    );
}

#[test]
fn toolkit_errors_become_script_errors() {
    let converted: Error = wabt::Error::new(wabt::ErrorKind::WriteBinary).into();
    assert_eq!(converted, Error::WabtError(wabt::Error::new(wabt::ErrorKind::WriteBinary)));
}

#[test]
fn the_root_of_an_error_is_under_its_lines() {
    let plain = Error::Other("plain".to_string());
    assert_eq!(plain.root(), &Error::Other("plain".to_string()));
    let nested = Error::WithLineInfo {
        line: 1,
        error: Box::new(Error::WithLineInfo {
            line: 2,
            error: Box::new(Error::MalformedIntermediateForm("m.wasm".to_string())),
        }),
    };
    assert_eq!(nested.root(), &Error::MalformedIntermediateForm("m.wasm".to_string()));
    assert_eq!(nested.message(), "At line 1: At line 2: malformed intermediate form: m.wasm");
}
