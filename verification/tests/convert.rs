use edge_worker::convert::{
    compact_from_elements, convert_element, convert_json_to_compact, convert_json_to_stdin,
    elf_conversion, entry_conversion, keyset_in, read_elements, read_stdin, run, standard_input_conversion,
    stdin_from_elements, Cli, Commands, ConvertError, InputForm, Task,
};
use edge_worker::openvm_config::{
    held_limits, unparsable_config, unreadable_config, vm_config_source, VmConfigSource, VmLimits,
    EDGE_OPENVM_CONFIG_ENV, VM_MAX_CONSTRAINT_DEGREE, VM_NUM_PUBLIC_VALUES,
};
use edge_worker::uploads::{prepare_uploaded_input_bytes, UploadedInputFormat};
use openvm_sdk::StdIn;

fn message(r: Result<Vec<u8>, ConvertError>) -> String {
    match r {
        Err(e) => e.message(),
        Ok(_) => panic!("expected an error"),
    }
}

fn stdin_of(chunks: &[&[u8]]) -> Vec<u8> {
    let mut stdin: StdIn = StdIn::default();
    for chunk in chunks {
        stdin.write_bytes(chunk);
    }
    bincode::serialize(&stdin).unwrap()
}

#[test]
fn json_inputs_become_guest_inputs() {
    let json = r#"{"input": ["0x01aaBB", "ff00", "0x01", "0x"], "other": 3}"#;
    let expected = stdin_of(&[&[0xaa, 0xbb], &[0xff, 0x00], &[0x01], &[]]);
    assert_eq!(convert_json_to_stdin(json).ok().unwrap(), expected);
    assert_eq!(convert_json_to_stdin(r#"{"input": []}"#).ok().unwrap(), stdin_of(&[]));
}

#[test]
fn compact_bytes_are_the_element_itself() {
    let json = r#"{"input": ["0x0102030405"]}"#;
    let compact = convert_json_to_compact(json).ok().unwrap();
    assert_eq!(compact, vec![2, 3, 4, 5]);
    let staged =
        prepare_uploaded_input_bytes(UploadedInputFormat::CompactBytes, &compact).unwrap();
    assert_eq!(staged, convert_json_to_stdin(json).ok().unwrap());
}

#[test]
fn converted_inputs_are_read_back() {
    let json = r#"{"input": ["0x01ff00", "0x"]}"#;
    let bytes = convert_json_to_stdin(json).ok().unwrap();
    let input = read_stdin(&bytes).ok().unwrap();
    assert_eq!(input.chunks, vec![vec![255u32, 0], vec![]]);
    assert!(input.deferrals.is_empty());
    match read_stdin(&bytes[..bytes.len() - 1]) {
        Err(e) => {
            assert_eq!(e.message(), "Failed to deserialize StdIn from bincode");
            let cause = bincode::deserialize::<StdIn>(&bytes[..bytes.len() - 1]).err().unwrap();
            assert!(matches!(e, ConvertError::Deserialize(said) if said == cause.to_string()));
        }
        Ok(_) => panic!("a truncated input must be refused"),
    }
}

#[test]
fn unreadable_documents_are_refused() {
    assert_eq!(message(convert_json_to_stdin("{")), "Failed to parse JSON");
    assert_eq!(message(convert_json_to_stdin("[]")), "JSON missing 'input' field");
    assert_eq!(message(convert_json_to_stdin(r#"{"x": 1}"#)), "JSON missing 'input' field");
    assert_eq!(
        message(convert_json_to_compact(r#"{"input": "0x01"}"#)),
        "'input' field is not an array"
    );
    assert!(matches!(read_elements("nope"), Err(ConvertError::Parse(cause)) if !cause.is_empty()));
}

#[test]
fn the_first_bad_element_is_named() {
    assert_eq!(
        message(convert_json_to_stdin(r#"{"input": ["00", 5, "zz"]}"#)),
        "Input element 1 is not a string"
    );
    assert_eq!(
        message(convert_json_to_stdin(r#"{"input": ["00", "0g", 5]}"#)),
        "Failed to decode hex for element 1"
    );
    assert_eq!(
        message(convert_json_to_compact(r#"{"input": ["abc"]}"#)),
        "Failed to decode hex for element 0"
    );
    assert_eq!(
        message(convert_json_to_compact(r#"{"input": ["00", "01"]}"#)),
        "compact conversion supports exactly one input element, found 2 (use json-to-stdin for multi-element inputs)"
    );
    match convert_element(4, &Some("0x0".to_string())) {
        Err(ConvertError::ElementNotHex(4, cause)) => assert_eq!(cause, "Odd number of digits"),
        _ => panic!("an odd number of digits is refused"),
    }
}

#[test]
fn elements_are_decoded_and_stripped() {
    let text = |s: &str| Some(s.to_string());
    assert_eq!(convert_element(0, &text("0x01ff")).ok().unwrap(), vec![0xff]);
    assert_eq!(convert_element(0, &text("02ff")).ok().unwrap(), vec![2, 0xff]);
    assert_eq!(convert_element(0, &text("01")).ok().unwrap(), vec![1]);
    let elements = read_elements(r#"{"input": ["a", null]}"#).ok().unwrap();
    assert_eq!(elements, vec![text("a"), None]);
    assert_eq!(
        stdin_from_elements(&vec![text("0a")]).ok().unwrap(),
        stdin_of(&[&[10]])
    );
    assert_eq!(compact_from_elements(&vec![text("0a")]).ok().unwrap(), vec![10]);
}

#[test]
fn fixtures_keep_their_names() {
    let elf = elf_conversion("/f", "/o");
    assert_eq!(elf.from, "/f/openvm-client-eth.elf");
    assert_eq!(elf.to, "/o/program.vmexe");
    let entry = entry_conversion("/f/", "/o", "block.v1.json").unwrap();
    assert_eq!((entry.from.as_str(), entry.to.as_str()), ("/f/block.v1.json", "/o/block.v1.bin"));
    assert!(entry_conversion("/f", "/o", ".json").is_none());
    assert!(entry_conversion("/f", "/o", "notes.txt").is_none());
    assert!(entry_conversion("/f", "/o", "xjson").is_none());
    let standard = standard_input_conversion("/f", "/o");
    assert_eq!(standard.from, "/f/24000481.json");
    assert_eq!(standard.to, "/o/input.bin");
    let keys = keyset_in("/k");
    assert_eq!(keys.vmexe, "/k/program.vmexe");
    assert_eq!(keys.app_pk, "/k/app_pk");
    assert_eq!(keys.agg_stark_pk, "/k/agg_stark_pk");
    assert_eq!(keys.baseline, "/k/baseline.bin");
}

#[test]
fn commands_become_tasks() {
    let s = |t: &str| t.to_string();
    let task = run(Cli { command: Commands::JsonToCompact { json: s("j"), output: s("o") } });
    match task {
        Task::ConvertJson { files, form } => {
            assert_eq!((files.from.as_str(), files.to.as_str()), ("j", "o"));
            assert_eq!(form, InputForm::Compact);
        }
        _ => panic!("expected a conversion"),
    }
    let task = run(Cli { command: Commands::JsonToStdin { json: s("j"), output: s("o") } });
    assert!(matches!(task, Task::ConvertJson { form: InputForm::Stdin, .. }));
    let task = run(Cli { command: Commands::Keygen { elf: s("e"), output_dir: s("/d") } });
    match task {
        Task::Keygen { elf, output_dir, keyset } => {
            assert_eq!((elf.as_str(), output_dir.as_str()), ("e", "/d"));
            assert_eq!(keyset.app_pk, "/d/app_pk");
        }
        _ => panic!("expected key generation"),
    }
    let task = run(Cli {
        command: Commands::TestWithKeys { elf: s("e"), input: s("i"), artifacts_dir: s("/a") },
    });
    assert!(matches!(
        task,
        Task::TestWithKeys { input, keyset } if input == "i" && keyset.vmexe == "/a/program.vmexe"
    ));
    let task = run(Cli {
        command: Commands::ElfToVmexe {
            elf: s("e"),
            output: s("o"),
            deferral_cached_pk: Some(s("pk")),
        },
    });
    assert!(matches!(
        task,
        Task::ConvertElf { deferral_cached_pk: Some(pk), .. } if pk == "pk"
    ));
}

#[test]
fn a_blank_variable_selects_the_standard_extensions() {
    assert!(matches!(vm_config_source(None), VmConfigSource::Standard));
    assert!(matches!(vm_config_source(Some("  ")), VmConfigSource::Standard));
    assert!(matches!(
        vm_config_source(Some(" /c.toml")),
        VmConfigSource::File(p) if p == " /c.toml"
    ));
    assert_eq!(EDGE_OPENVM_CONFIG_ENV, "EDGE_OPENVM_CONFIG");
    assert_eq!((VM_MAX_CONSTRAINT_DEGREE, VM_NUM_PUBLIC_VALUES), (3, 32));
    for read in [
        VmLimits { max_constraint_degree: 9, num_public_values: 0 },
        VmLimits { max_constraint_degree: 3, num_public_values: 32 },
    ] {
        let held = held_limits(read);
        assert_eq!((held.max_constraint_degree, held.num_public_values), (3, 32));
    }
    assert_eq!(unreadable_config("/c", "x"), "Failed to read EDGE_OPENVM_CONFIG (/c): x");
    assert_eq!(
        unparsable_config("/c", "x"),
        "Failed to parse EDGE_OPENVM_CONFIG (/c) as openvm.toml: x"
    );
}
