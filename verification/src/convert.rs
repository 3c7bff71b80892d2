//! Conversion of test fixtures: guest inputs written as JSON, and the files that a
//! conversion reads and writes.

use vstd::prelude::*;
use vstd::string::*;

use crate::encoding::{
    decode_hex, decode_input, empty_input, encoded_input, guest_chunks, guest_encoding,
    guest_error, hex_bytes, hex_digit, hex_error, input_error, is_hex, plain_input,
    serialize_input, write_chunk,
};
use crate::execution_input::ExecutionInput;
use crate::json::{
    elements, json_elements, json_error, json_member, json_text, json_value, member, parse_json,
    string_text,
};
use crate::text::{begins_with, decimal, push_usize, strip_prefix};
use crate::uploads::{join_path, joined_path, prepared_input, UploadedInputFormat};

verus! {

/// A JSON input that cannot be converted.
pub enum ConvertError {
    /// The text is no JSON.
    Parse(String),
    MissingInput,
    InputNotAnArray,
    ElementNotAString(usize),
    /// An element is not hexadecimal, and what is said of it.
    ElementNotHex(usize, String),
    /// There is not exactly one element.
    NotSingle(usize),
    Serialize(String),
    /// The bytes are no serialized input, and what is said of them.
    Deserialize(String),
}

impl ConvertError {
    /// The text a reader is shown for the error.
    pub open spec fn text(self) -> Seq<char> {
        match self {
            ConvertError::Parse(_) => "Failed to parse JSON"@,
            ConvertError::MissingInput => "JSON missing 'input' field"@,
            ConvertError::InputNotAnArray => "'input' field is not an array"@,
            ConvertError::ElementNotAString(i) => "Input element "@ + decimal(i as nat)
                + " is not a string"@,
            ConvertError::ElementNotHex(i, _) => "Failed to decode hex for element "@ + decimal(
                i as nat,
            ),
            ConvertError::NotSingle(n) =>
                "compact conversion supports exactly one input element, found "@ + decimal(n as nat)
                + " (use json-to-stdin for multi-element inputs)"@,
            ConvertError::Serialize(_) => "Failed to serialize StdIn to bincode"@,
            ConvertError::Deserialize(_) => "Failed to deserialize StdIn from bincode"@,
        }
    }

    /// The text a reader is shown for the error.
    pub fn message(&self) -> (r: String)
        ensures
            r@ == self.text(),
    {
        match self {
            ConvertError::Parse(_) => "Failed to parse JSON".to_owned(),
            ConvertError::MissingInput => "JSON missing 'input' field".to_owned(),
            ConvertError::InputNotAnArray => "'input' field is not an array".to_owned(),
            ConvertError::ElementNotAString(i) => {
                let mut out = "Input element ".to_owned();
                push_usize(&mut out, *i);
                out.append(" is not a string");
                out
            },
            ConvertError::ElementNotHex(i, _) => {
                let mut out = "Failed to decode hex for element ".to_owned();
                push_usize(&mut out, *i);
                out
            },
            ConvertError::NotSingle(n) => {
                let mut out =
                    "compact conversion supports exactly one input element, found ".to_owned();
                push_usize(&mut out, *n);
                out.append(" (use json-to-stdin for multi-element inputs)");
                out
            },
            ConvertError::Serialize(_) => "Failed to serialize StdIn to bincode".to_owned(),
            ConvertError::Deserialize(_) => "Failed to deserialize StdIn from bincode".to_owned(),
        }
    }
}

/// Hexadecimal text without the `0x` before it, if there is one.
pub open spec fn bare_hex(text: Seq<char>) -> Seq<char> {
    if begins_with(text, "0x"@) {
        text.skip("0x"@.len() as int)
    } else {
        text
    }
}

/// Bytes without the version byte at their start. A lone byte is kept.
pub open spec fn without_version(bytes: Seq<u8>) -> Seq<u8> {
    if bytes.len() > 1 && bytes[0] == 1 {
        bytes.skip(1)
    } else {
        bytes
    }
}

/// The guest bytes of an element.
pub open spec fn element_data(text: Seq<char>) -> Seq<u8> {
    without_version(hex_bytes(bare_hex(text)))
}

/// Why the element at `idx` cannot be converted, if so. An element without a text is
/// no string.
pub open spec fn is_element_error(
    idx: usize,
    element: Option<Seq<char>>,
    e: ConvertError,
) -> bool {
    match element {
        None => e == ConvertError::ElementNotAString(idx),
        Some(text) => {
            &&& !is_hex(bare_hex(text))
            &&& e matches ConvertError::ElementNotHex(i, cause)
            &&& i == idx
            &&& cause@ == hex_error(bare_hex(text))
        },
    }
}

/// Whether an element can be converted.
pub open spec fn is_convertible(element: Option<Seq<char>>) -> bool {
    element matches Some(text) && is_hex(bare_hex(text))
}

/// The text of an element, where it is a string.
pub open spec fn element_text(element: Option<String>) -> Option<Seq<char>> {
    match element {
        Some(s) => Some(s@),
        None => None,
    }
}

/// Decode an element: hexadecimal text, with or without `0x`, whose version byte is
/// dropped.
pub fn convert_element(idx: usize, element: &Option<String>) -> (r: Result<Vec<u8>, ConvertError>)
    ensures
        is_convertible(element_text(*element)) ==> r is Ok && r->Ok_0@ == element_data(
            element_text(*element)->0,
        ),
        !is_convertible(element_text(*element)) ==> r is Err && is_element_error(
            idx,
            element_text(*element),
            r->Err_0,
        ),
{
    let text = match element {
        Some(s) => s.as_str(),
        None => return Err(ConvertError::ElementNotAString(idx)),
    };
    let hex = match strip_prefix(text, "0x") {
        Some(rest) => rest,
        None => text,
    };
    match decode_hex(hex) {
        Err(e) => Err(ConvertError::ElementNotHex(idx, e)),
        Ok(bytes) => {
            if bytes.len() > 1 && bytes[0] == 1 {
                let mut bytes = bytes;
                let ghost whole = bytes@;
                let version = bytes.remove(0);
                assert(bytes@ =~= whole.skip(1));
                Ok(bytes)
            } else {
                Ok(bytes)
            }
        },
    }
}

/// The texts of the elements, where they are strings.
pub open spec fn element_texts(elements: Seq<Option<String>>) -> Seq<Option<Seq<char>>> {
    Seq::new(elements.len(), |i: int| element_text(elements[i]))
}

/// Whether all elements can be converted.
pub open spec fn all_convertible(elements: Seq<Option<Seq<char>>>) -> bool {
    forall|i: int| 0 <= i < elements.len() ==> is_convertible(#[trigger] elements[i])
}

/// The guest bytes of the elements, in order.
pub open spec fn all_data(elements: Seq<Option<Seq<char>>>) -> Seq<Seq<u8>> {
    Seq::new(elements.len(), |i: int| element_data(elements[i]->0))
}

/// Whether `e` is said of the first element that cannot be converted.
pub open spec fn is_first_error(elements: Seq<Option<Seq<char>>>, e: ConvertError) -> bool {
    exists|k: int|
        0 <= k < elements.len() && is_element_error(k as usize, #[trigger] elements[k], e)
            && !is_convertible(elements[k]) && forall|i: int|
            0 <= i < k ==> is_convertible(#[trigger] elements[i])
}

/// Whether `r` is what the elements are converted to: a serialized guest input that
/// holds the bytes of each and is read back as such, or what is said of the first that
/// cannot be converted.
pub open spec fn converts_to_stdin(
    elements: Seq<Option<Seq<char>>>,
    r: Result<Vec<u8>, ConvertError>,
) -> bool {
    if all_convertible(elements) {
        match guest_encoding(all_data(elements)) {
            Some(bytes) => r is Ok && r->Ok_0@ == bytes && encoded_input(bytes) == Some(
                plain_input(all_data(elements)),
            ),
            None => r is Err && (r->Err_0 matches ConvertError::Serialize(e) && e@ == guest_error(
                all_data(elements),
            )),
        }
    } else {
        r is Err && is_first_error(elements, r->Err_0)
    }
}

/// Convert the elements of an input to a serialized guest input.
pub fn stdin_from_elements(elements: &Vec<Option<String>>) -> (r: Result<Vec<u8>, ConvertError>)
    ensures
        converts_to_stdin(element_texts(elements@), r),
{
    let ghost texts = element_texts(elements@);
    let mut input = empty_input();
    let mut i: usize = 0;
    while i < elements.len()
        invariant
            texts == element_texts(elements@),
            i <= elements@.len(),
            guest_chunks(input) == all_data(texts.take(i as int)),
            forall|k: int| 0 <= k < i ==> is_convertible(#[trigger] texts[k]),
        decreases elements@.len() - i,
    {
        match convert_element(i, &elements[i]) {
            Ok(data) => {
                write_chunk(&mut input, data.as_slice());
                assert(texts[i as int] == element_text(elements@[i as int]));
                assert(guest_chunks(input) =~= all_data(texts.take(i + 1)));
            },
            Err(e) => {
                assert(texts[i as int] == element_text(elements@[i as int]));
                assert(is_element_error(i as usize, texts[i as int], e));
                return Err(e);
            },
        }
        i = i + 1;
    }
    assert(texts.take(i as int) =~= texts);
    match serialize_input(&input) {
        Ok(bytes) => Ok(bytes),
        Err(e) => Err(ConvertError::Serialize(e)),
    }
}

/// Whether `r` is what the elements are converted to: the bytes of the only element.
/// More elements would run together, and the guest would misread them.
pub open spec fn converts_to_compact(
    elements: Seq<Option<Seq<char>>>,
    r: Result<Vec<u8>, ConvertError>,
) -> bool {
    if elements.len() != 1 {
        r == Err::<Vec<u8>, ConvertError>(ConvertError::NotSingle(elements.len() as usize))
    } else if is_convertible(elements[0]) {
        r is Ok && r->Ok_0@ == element_data(elements[0]->0)
    } else {
        r is Err && is_element_error(0, elements[0], r->Err_0)
    }
}

/// Convert the only element of an input to raw guest bytes.
pub fn compact_from_elements(elements: &Vec<Option<String>>) -> (r: Result<Vec<u8>, ConvertError>)
    ensures
        converts_to_compact(element_texts(elements@), r),
{
    if elements.len() != 1 {
        return Err(ConvertError::NotSingle(elements.len()));
    }
    convert_element(0, &elements[0])
}

/// What is under `input` in a JSON document, if it is an array.
pub open spec fn input_array(document: serde_json::Value) -> Option<Seq<serde_json::Value>> {
    match json_member(document, "input"@) {
        Some(input) => json_elements(input),
        None => None,
    }
}

/// The texts of JSON values, where they are strings.
pub open spec fn value_texts(values: Seq<serde_json::Value>) -> Seq<Option<Seq<char>>> {
    Seq::new(values.len(), |i: int| json_text(values[i]))
}

/// Why a JSON text holds no input, if so.
pub open spec fn is_document_error(text: Seq<char>, e: ConvertError) -> bool {
    match json_value(text) {
        None => e matches ConvertError::Parse(cause) && cause@ == json_error(text),
        Some(document) => match json_member(document, "input"@) {
            None => e == ConvertError::MissingInput,
            Some(input) => json_elements(input) is None && e == ConvertError::InputNotAnArray,
        },
    }
}

/// The elements of the input that a JSON text holds, if it holds one.
pub open spec fn document_elements(text: Seq<char>) -> Option<Seq<Option<Seq<char>>>> {
    match json_value(text) {
        None => None,
        Some(document) => match input_array(document) {
            None => None,
            Some(values) => Some(value_texts(values)),
        },
    }
}

/// Read the elements of the input that a JSON text holds.
pub fn read_elements(json: &str) -> (r: Result<Vec<Option<String>>, ConvertError>)
    ensures
        document_elements(json@) matches Some(texts) ==> r is Ok && element_texts(r->Ok_0@)
            == texts,
        document_elements(json@) is None ==> r is Err && is_document_error(json@, r->Err_0),
{
    let document = match parse_json(json) {
        Ok(document) => document,
        Err(e) => return Err(ConvertError::Parse(e)),
    };
    let input = match member(&document, "input") {
        Some(input) => input,
        None => return Err(ConvertError::MissingInput),
    };
    let values = match elements(input) {
        Some(values) => values,
        None => return Err(ConvertError::InputNotAnArray),
    };
    let mut out: Vec<Option<String>> = Vec::new();
    let mut i: usize = 0;
    while i < values.len()
        invariant
            i <= values@.len(),
            out@.len() == i,
            forall|k: int|
                0 <= k < i ==> element_text(#[trigger] out@[k]) == json_text(values@[k]),
        decreases values@.len() - i,
    {
        match string_text(&values[i]) {
            Some(s) => out.push(Some(s.to_owned())),
            None => out.push(None),
        }
        i = i + 1;
    }
    assert(element_texts(out@) =~= value_texts(values@));
    Ok(out)
}

/// Convert a JSON input to a serialized guest input.
pub fn convert_json_to_stdin(json: &str) -> (r: Result<Vec<u8>, ConvertError>)
    ensures
        document_elements(json@) matches Some(texts) ==> converts_to_stdin(texts, r),
        document_elements(json@) is None ==> r is Err && is_document_error(json@, r->Err_0),
{
    match read_elements(json) {
        Ok(elements) => stdin_from_elements(&elements),
        Err(e) => Err(e),
    }
}

/// Convert a JSON input of one element to the raw guest bytes of that element.
pub fn convert_json_to_compact(json: &str) -> (r: Result<Vec<u8>, ConvertError>)
    ensures
        document_elements(json@) matches Some(texts) ==> converts_to_compact(texts, r),
        document_elements(json@) is None ==> r is Err && is_document_error(json@, r->Err_0),
{
    match read_elements(json) {
        Ok(elements) => compact_from_elements(&elements),
        Err(e) => Err(e),
    }
}

/// The compact form is as good as the serialized one: where an input of one element
/// converts to both, the worker stages the same bytes for either upload.
pub proof fn compact_uploads_stage_the_same_input(
    elements: Seq<Option<Seq<char>>>,
    stdin: Vec<u8>,
    compact: Vec<u8>,
)
    requires
        elements.len() == 1,
        converts_to_stdin(elements, Ok(stdin)),
        converts_to_compact(elements, Ok(compact)),
    ensures
        prepared_input(UploadedInputFormat::CompactBytes, compact@) == prepared_input(
            UploadedInputFormat::BincodeStdin,
            stdin@,
        ),
{
    assert(all_convertible(elements));
    assert(all_data(elements) =~= seq![compact@]);
}

/// Read a serialized guest input, to prove a program on it.
pub fn read_stdin(bytes: &[u8]) -> (r: Result<ExecutionInput, ConvertError>)
    ensures
        match encoded_input(bytes@) {
            Some(input) => r is Ok && r->Ok_0@ == input,
            None => r is Err && (r->Err_0 matches ConvertError::Deserialize(e) && e@ == input_error(
                bytes@,
            )),
        },
{
    match decode_input(bytes) {
        Ok(input) => Ok(input),
        Err(e) => Err(ConvertError::Deserialize(e)),
    }
}

/// A file to be converted, and where its conversion goes.
pub struct Conversion {
    pub from: String,
    pub to: String,
}

/// Whether `c` converts `from` to `to`.
pub open spec fn converts(c: Conversion, from: Seq<char>, to: Seq<char>) -> bool {
    c.from@ == from && c.to@ == to
}

/// What to do with the guest program of a fixture directory: if it is there, it is
/// converted.
pub fn elf_conversion(fixtures_dir: &str, output_dir: &str) -> (r: Conversion)
    ensures
        converts(
            r,
            joined_path(fixtures_dir@, "openvm-client-eth.elf"@),
            joined_path(output_dir@, "program.vmexe"@),
        ),
{
    proof {
        reveal_strlit("openvm-client-eth.elf");
        reveal_strlit("program.vmexe");
    }
    Conversion {
        from: join_path(fixtures_dir, "openvm-client-eth.elf"),
        to: join_path(output_dir, "program.vmexe"),
    }
}

/// Whether a file name has the extension of JSON files and something before it.
pub open spec fn is_json_name(name: Seq<char>) -> bool {
    name.len() > 5 && name.skip(name.len() - 5) == ".json"@
}

/// The name of a JSON file without its extension.
pub open spec fn json_stem(name: Seq<char>) -> Seq<char> {
    name.take(name.len() - 5)
}

/// What to do with an entry of a fixture directory: a JSON file is converted to an
/// input of the same name.
pub fn entry_conversion(fixtures_dir: &str, output_dir: &str, name: &str) -> (r: Option<Conversion>)
    requires
        name@.len() > 0 ==> name@[0] != '/',
    ensures
        is_json_name(name@) ==> r is Some && converts(
            r->0,
            joined_path(fixtures_dir@, name@),
            joined_path(output_dir@, json_stem(name@) + ".bin"@),
        ),
        !is_json_name(name@) ==> r is None,
{
    let n = name.unicode_len();
    proof {
        reveal_strlit(".json");
    }
    if n <= 5 {
        return None;
    }
    let extension = name.substring_char(n - 5, n);
    assert(extension@ =~= name@.skip(name@.len() - 5));
    if !crate::text::same_text(extension, ".json") {
        return None;
    }
    let stem = name.substring_char(0, n - 5);
    assert(stem@ =~= json_stem(name@));
    let mut target = stem.to_owned();
    target.append(".bin");
    Some(
        Conversion {
            from: join_path(fixtures_dir, name),
            to: join_path(output_dir, target.as_str()),
        },
    )
}

/// The conversion of the reference block to the standard input. It is done last, if
/// the block is there and the standard input is not.
pub fn standard_input_conversion(fixtures_dir: &str, output_dir: &str) -> (r: Conversion)
    ensures
        converts(
            r,
            joined_path(fixtures_dir@, "24000481.json"@),
            joined_path(output_dir@, "input.bin"@),
        ),
{
    proof {
        reveal_strlit("24000481.json");
        reveal_strlit("input.bin");
    }
    Conversion {
        from: join_path(fixtures_dir, "24000481.json"),
        to: join_path(output_dir, "input.bin"),
    }
}

/// The command line of the converter.
pub struct Cli {
    pub command: Commands,
}

/// The commands of the converter.
pub enum Commands {
    /// Convert a guest program to its executable form, with the deferral extension if
    /// a cached key is given.
    ElfToVmexe { elf: String, output: String, deferral_cached_pk: Option<String> },
    /// Convert a JSON input to a serialized guest input.
    JsonToStdin { json: String, output: String },
    /// Convert a JSON input of one element to raw guest bytes.
    JsonToCompact { json: String, output: String },
    /// Convert all fixtures in a directory.
    All { fixtures_dir: String, output_dir: String },
    /// Generate proving keys from a guest program.
    Keygen { elf: String, output_dir: String },
    /// Run the whole pipeline in one process.
    TestPipeline { elf: String, input: String },
    /// Run the whole pipeline in one process, with keys loaded from disk.
    TestWithKeys { elf: String, input: String, artifacts_dir: String },
}

/// The files of a keyset.
pub struct Keyset {
    pub vmexe: String,
    pub app_pk: String,
    pub agg_stark_pk: String,
    pub baseline: String,
}

/// Whether `k` are the files of a keyset in `dir`.
pub open spec fn is_keyset_in(k: Keyset, dir: Seq<char>) -> bool {
    &&& k.vmexe@ == joined_path(dir, "program.vmexe"@)
    &&& k.app_pk@ == joined_path(dir, "app_pk"@)
    &&& k.agg_stark_pk@ == joined_path(dir, "agg_stark_pk"@)
    &&& k.baseline@ == joined_path(dir, "baseline.bin"@)
}

/// The files of a keyset in a directory.
pub fn keyset_in(dir: &str) -> (r: Keyset)
    ensures
        is_keyset_in(r, dir@),
{
    proof {
        reveal_strlit("program.vmexe");
        reveal_strlit("app_pk");
        reveal_strlit("agg_stark_pk");
        reveal_strlit("baseline.bin");
    }
    Keyset {
        vmexe: join_path(dir, "program.vmexe"),
        app_pk: join_path(dir, "app_pk"),
        agg_stark_pk: join_path(dir, "agg_stark_pk"),
        baseline: join_path(dir, "baseline.bin"),
    }
}

/// Into what a JSON input is converted.
#[derive(Debug, Clone, Copy, PartialEq, Eq, Structural)]
pub enum InputForm {
    Stdin,
    Compact,
}

/// What the converter does for a command.
pub enum Task {
    ConvertElf { files: Conversion, deferral_cached_pk: Option<String> },
    ConvertJson { files: Conversion, form: InputForm },
    ConvertAll { fixtures_dir: String, output_dir: String },
    /// Generate the keyset, in a directory that is made if it is missing.
    Keygen { elf: String, output_dir: String, keyset: Keyset },
    TestPipeline { elf: String, input: String },
    /// The guest program is not read: its executable is part of the keyset.
    TestWithKeys { input: String, keyset: Keyset },
}

/// What the converter does for a command.
pub fn run(cli: Cli) -> (r: Task)
    ensures
        match cli.command {
            Commands::ElfToVmexe { elf, output, deferral_cached_pk } => r == (Task::ConvertElf {
                files: Conversion { from: elf, to: output },
                deferral_cached_pk,
            }),
            Commands::JsonToStdin { json, output } => r == (Task::ConvertJson {
                files: Conversion { from: json, to: output },
                form: InputForm::Stdin,
            }),
            Commands::JsonToCompact { json, output } => r == (Task::ConvertJson {
                files: Conversion { from: json, to: output },
                form: InputForm::Compact,
            }),
            Commands::All { fixtures_dir, output_dir } => r == (Task::ConvertAll {
                fixtures_dir,
                output_dir,
            }),
            Commands::Keygen { elf: program, output_dir: dir } => {
                &&& r matches Task::Keygen { elf, output_dir, keyset }
                &&& elf == program
                &&& output_dir == dir
                &&& is_keyset_in(keyset, dir@)
            },
            Commands::TestPipeline { elf, input } => r == (Task::TestPipeline { elf, input }),
            Commands::TestWithKeys { input: read, artifacts_dir, .. } => {
                &&& r matches Task::TestWithKeys { input, keyset }
                &&& input == read
                &&& is_keyset_in(keyset, artifacts_dir@)
            },
        },
{
    match cli.command {
        Commands::ElfToVmexe { elf, output, deferral_cached_pk } => Task::ConvertElf {
            files: Conversion { from: elf, to: output },
            deferral_cached_pk,
        },
        Commands::JsonToStdin { json, output } => Task::ConvertJson {
            files: Conversion { from: json, to: output },
            form: InputForm::Stdin,
        },
        Commands::JsonToCompact { json, output } => Task::ConvertJson {
            files: Conversion { from: json, to: output },
            form: InputForm::Compact,
        },
        Commands::All { fixtures_dir, output_dir } => Task::ConvertAll { fixtures_dir, output_dir },
        Commands::Keygen { elf, output_dir } => {
            let keyset = keyset_in(output_dir.as_str());
            Task::Keygen { elf, output_dir, keyset }
        },
        Commands::TestPipeline { elf, input } => Task::TestPipeline { elf, input },
        Commands::TestWithKeys { elf, input, artifacts_dir } => Task::TestWithKeys {
            input,
            keyset: keyset_in(artifacts_dir.as_str()),
        },
    }
}

/// An element is its hexadecimal digits, with or without `0x` before them. A version byte
/// before its data, of whatever length, is dropped; data that does not begin with one, and
/// a lone byte, are kept whole.
pub proof fn elements_give_their_data(
    idx: usize,
    element: &Option<String>,
    digits: Seq<char>,
    r: Result<Vec<u8>, ConvertError>,
)
    requires
        call_ensures(convert_element, (idx, element), r),
        is_hex(digits),
        *element is Some,
        (*element)->0@ == digits || (*element)->0@ == "0x"@ + digits,
    ensures
        r is Ok,
        forall|data: Seq<u8>|
            data.len() > 0 && hex_bytes(digits) == #[trigger] (seq![1u8] + data) ==> r->Ok_0@
                == data,
        hex_bytes(digits).len() <= 1 || hex_bytes(digits)[0] != 1 ==> r->Ok_0@ == hex_bytes(
            digits,
        ),
        hex_bytes(digits).len() == digits.len() / 2,
{
    bare_digits(digits);
    let text = (*element)->0@;
    assert(element_text(*element) == Some(text));
    assert(bare_hex(text) == digits);
    assert forall|data: Seq<u8>|
        data.len() > 0 && hex_bytes(digits) == #[trigger] (seq![1u8] + data) implies r->Ok_0@
        == data by {
        assert(r->Ok_0@ =~= data);
    }
}

/// Hexadecimal digits, and the same with `0x` before them, are found without it.
proof fn bare_digits(digits: Seq<char>)
    requires
        is_hex(digits),
    ensures
        bare_hex(digits) == digits,
        bare_hex("0x"@ + digits) == digits,
{
    reveal_strlit("0x");
    if begins_with(digits, "0x"@) {
        assert(digits.take(2)[1] == 'x');
        assert(hex_digit(digits[1]) is Some);
    }
    assert(("0x"@ + digits).take(2) =~= "0x"@);
    assert(("0x"@ + digits).skip(2) =~= digits);
}

/// An element is refused exactly if it is no string, or not hexadecimal digits with or
/// without `0x` before them; the refusal says which element it was.
pub proof fn other_elements_are_refused(
    idx: usize,
    element: &Option<String>,
    r: Result<Vec<u8>, ConvertError>,
)
    requires
        call_ensures(convert_element, (idx, element), r),
    ensures
        *element is None <==> r == Err::<Vec<u8>, ConvertError>(
            ConvertError::ElementNotAString(idx),
        ),
        r is Ok <==> *element is Some && exists|digits: Seq<char>| #[trigger]
            is_hex(digits) && ((*element)->0@ == digits || (*element)->0@ == "0x"@ + digits),
        r is Err && *element is Some ==> (r->Err_0 matches ConvertError::ElementNotHex(i, _) && i
            == idx),
{
    if let Some(s) = *element {
        let text = s@;
        assert(element_text(*element) == Some(text));
        if r is Ok {
            let digits = bare_hex(text);
            assert(is_hex(digits));
            if begins_with(text, "0x"@) {
                assert(text =~= "0x"@ + digits);
            }
        }
        if exists|digits: Seq<char>| #[trigger]
            is_hex(digits) && (text == digits || text == "0x"@ + digits) {
            let digits = choose|digits: Seq<char>| #[trigger]
                is_hex(digits) && (text == digits || text == "0x"@ + digits);
            bare_digits(digits);
        }
    }
}

/// A guest input is made exactly if every element can be converted and the whole be
/// serialized. The guest then reads the data of each element, one after the other; else
/// the error is that of the first element that cannot be converted.
pub proof fn inputs_hold_what_their_elements_give(
    elements: &Vec<Option<String>>,
    parts: Seq<Result<Vec<u8>, ConvertError>>,
    r: Result<Vec<u8>, ConvertError>,
)
    requires
        call_ensures(stdin_from_elements, (elements,), r),
        parts.len() == elements@.len(),
        forall|i: int|
            0 <= i < elements@.len() ==> call_ensures(
                convert_element,
                (i as usize, &#[trigger] elements@[i]),
                parts[i],
            ),
    ensures
        r is Ok ==> {
            &&& encoded_input(r->Ok_0@) matches Some(input)
            &&& input.deferrals.len() == 0
            &&& input.chunks.len() == elements@.len()
            &&& forall|i: int|
                0 <= i < elements@.len() ==> (#[trigger] parts[i]) is Ok && input.chunks[i].len()
                    == parts[i]->Ok_0@.len() && forall|j: int|
                    0 <= j < parts[i]->Ok_0@.len() ==> #[trigger] input.chunks[i][j]
                        == parts[i]->Ok_0@[j]
        },
        r is Err && !(r->Err_0 is Serialize) ==> exists|k: int|
            {
                &&& 0 <= k < elements@.len()
                &&& (#[trigger] parts[k]) is Err
                &&& forall|i: int| 0 <= i < k ==> (#[trigger] parts[i]) is Ok
                &&& match parts[k]->Err_0 {
                    ConvertError::ElementNotAString(i) => i == k && r->Err_0 == parts[k]->Err_0,
                    ConvertError::ElementNotHex(i, cause) => i == k
                        && r->Err_0 is ElementNotHex && r->Err_0->ElementNotHex_0 == k
                        && r->Err_0->ElementNotHex_1@ == cause@,
                    _ => false,
                }
            },
        (exists|k: int| 0 <= k < parts.len() && (#[trigger] parts[k]) is Err) ==> r is Err && !(
        r->Err_0 is Serialize),
{
    let texts = element_texts(elements@);
    assert(elements@.len() == elements.len());
    assert forall|i: int| 0 <= i < elements@.len() implies ((#[trigger] parts[i]) is Ok
        <==> is_convertible(texts[i])) && (parts[i] is Ok ==> parts[i]->Ok_0@ == element_data(
        texts[i]->0,
    )) && (parts[i] is Err ==> is_element_error(i as usize, texts[i], parts[i]->Err_0)) by {
        assert(call_ensures(convert_element, (i as usize, &elements@[i]), parts[i]));
        assert(texts[i] == element_text(elements@[i]));
    }
    if all_convertible(texts) {
        assert forall|i: int| 0 <= i < elements@.len() implies (#[trigger] parts[i]) is Ok by {
            assert(is_convertible(texts[i]));
        }
    } else {
        let k = choose|k: int|
            0 <= k < texts.len() && is_element_error(k as usize, #[trigger] texts[k], r->Err_0)
                && !is_convertible(texts[k]) && forall|i: int|
                0 <= i < k ==> is_convertible(#[trigger] texts[i]);
        assert(parts[k] is Err);
        assert forall|i: int| 0 <= i < k implies (#[trigger] parts[i]) is Ok by {
            assert(is_convertible(texts[i]));
        }
    }
}

/// The compact form of an input is the data of its only element, and an input with none or
/// with more has no such form.
pub proof fn compact_inputs_are_their_only_element(
    elements: &Vec<Option<String>>,
    part: Result<Vec<u8>, ConvertError>,
    r: Result<Vec<u8>, ConvertError>,
)
    requires
        call_ensures(compact_from_elements, (elements,), r),
        elements@.len() == 1 ==> call_ensures(convert_element, (0usize, &elements@[0]), part),
    ensures
        elements@.len() != 1 ==> r == Err::<Vec<u8>, ConvertError>(
            ConvertError::NotSingle(elements@.len() as usize),
        ),
        elements@.len() == 1 ==> (r is Ok <==> part is Ok),
        elements@.len() == 1 && r is Ok ==> r->Ok_0@ == part->Ok_0@,
{
    if elements@.len() == 1 {
        assert(element_texts(elements@)[0] == element_text(elements@[0]));
    }
}

/// The elements of a JSON document are what its `input` array holds, in order, each as
/// its string or as none; a document without such an array is refused, and the refusal
/// says what is missing.
pub proof fn elements_are_read_in_order(json: &str, r: Result<Vec<Option<String>>, ConvertError>)
    requires
        call_ensures(read_elements, (json,), r),
    ensures
        ({
            let input = match json_value(json@) {
                Some(document) => json_member(document, "input"@),
                None => None,
            };
            let values = match input {
                Some(input) => json_elements(input),
                None => None,
            };
            &&& r is Ok <==> values is Some
            &&& r is Ok ==> r->Ok_0@.len() == values->0.len() && forall|i: int|
                0 <= i < values->0.len() ==> match #[trigger] r->Ok_0@[i] {
                    Some(s) => json_text(values->0[i]) == Some(s@),
                    None => json_text(values->0[i]) is None,
                }
            &&& r is Err ==> (r->Err_0 is Parse <==> json_value(json@) is None) && (
            r->Err_0 is MissingInput <==> json_value(json@) is Some && input is None) && (
            r->Err_0 is InputNotAnArray <==> input is Some)
        }),
{
    if r is Ok {
        let values = input_array(json_value(json@)->0)->0;
        assert(element_texts(r->Ok_0@) == value_texts(values));
        assert(element_texts(r->Ok_0@).len() == r->Ok_0@.len());
        assert(value_texts(values).len() == values.len());
        assert forall|i: int| 0 <= i < values.len() implies match #[trigger] r->Ok_0@[i] {
            Some(s) => json_text(values[i]) == Some(s@),
            None => json_text(values[i]) is None,
        } by {
            assert(element_texts(r->Ok_0@)[i] == element_text(r->Ok_0@[i]));
            assert(value_texts(values)[i] == json_text(values[i]));
        }
    }
}

/// Converting a document is converting its elements, to either form.
pub proof fn documents_are_converted_by_their_elements(
    json: &str,
    read: Result<Vec<Option<String>>, ConvertError>,
    stdin: Result<Vec<u8>, ConvertError>,
    compact: Result<Vec<u8>, ConvertError>,
    stdin_of_elements: Result<Vec<u8>, ConvertError>,
    compact_of_elements: Result<Vec<u8>, ConvertError>,
)
    requires
        call_ensures(read_elements, (json,), read),
        call_ensures(convert_json_to_stdin, (json,), stdin),
        call_ensures(convert_json_to_compact, (json,), compact),
        read is Ok ==> call_ensures(stdin_from_elements, (&read->Ok_0,), stdin_of_elements),
        read is Ok ==> call_ensures(compact_from_elements, (&read->Ok_0,), compact_of_elements),
    ensures
        read is Err ==> stdin is Err && compact is Err,
        read is Ok ==> (stdin is Ok <==> stdin_of_elements is Ok) && (compact is Ok
            <==> compact_of_elements is Ok),
        read is Ok && stdin is Ok ==> stdin->Ok_0@ == stdin_of_elements->Ok_0@,
        read is Ok && compact is Ok ==> compact->Ok_0@ == compact_of_elements->Ok_0@,
{
}

/// A serialized input is read back as what it holds.
pub proof fn written_inputs_are_read_back(
    elements: &Vec<Option<String>>,
    written: Vec<u8>,
    bytes: &[u8],
    r: Result<ExecutionInput, ConvertError>,
)
    requires
        call_ensures(stdin_from_elements, (elements,), Ok::<Vec<u8>, ConvertError>(written)),
        bytes@ == written@,
        call_ensures(read_stdin, (bytes,), r),
    ensures
        r is Ok,
        r->Ok_0.chunks@.len() == elements@.len(),
        r->Ok_0.deferrals@.len() == 0,
{
    let texts = element_texts(elements@);
    assert(r->Ok_0@.chunks.len() == r->Ok_0.chunks@.len());
    assert(r->Ok_0@.deferrals.len() == r->Ok_0.deferrals@.len());
}

/// Every JSON file of a fixture directory is converted to a file of the same name with
/// another extension, and no other entry is.
pub proof fn json_fixtures_keep_their_names(
    fixtures_dir: &str,
    output_dir: &str,
    name: &str,
    stem: Seq<char>,
    r: Option<Conversion>,
)
    requires
        call_ensures(entry_conversion, (fixtures_dir, output_dir, name), r),
    ensures
        stem.len() > 0 && name@ == stem + ".json"@ ==> {
            &&& r is Some
            &&& r->0.from@ == joined_path(fixtures_dir@, stem + ".json"@)
            &&& r->0.to@ == joined_path(output_dir@, stem + ".bin"@)
        },
        r is Some ==> exists|s: Seq<char>| s.len() > 0 && name@ == #[trigger] (s + ".json"@),
{
    reveal_strlit(".json");
    if stem.len() > 0 && name@ == stem + ".json"@ {
        assert(name@.skip(name@.len() - 5) =~= ".json"@);
        assert(json_stem(name@) =~= stem);
    }
    if r is Some {
        assert(name@ =~= json_stem(name@) + ".json"@);
    }
}

/// Each command leads to its own task, on the files that it names.
pub proof fn commands_lead_to_their_tasks(cli: Cli, r: Task)
    requires
        call_ensures(run, (cli,), r),
    ensures
        cli.command matches Commands::ElfToVmexe { elf, output, deferral_cached_pk } ==> (
        r matches Task::ConvertElf { files, deferral_cached_pk: pk } && files.from == elf
            && files.to == output && pk == deferral_cached_pk),
        cli.command matches Commands::JsonToStdin { json, output } ==> (
        r matches Task::ConvertJson { files, form } && files.from == json && files.to == output
            && form == InputForm::Stdin),
        cli.command matches Commands::JsonToCompact { json, output } ==> (
        r matches Task::ConvertJson { files, form } && files.from == json && files.to == output
            && form == InputForm::Compact),
        cli.command matches Commands::All { fixtures_dir, output_dir } ==> (
        r matches Task::ConvertAll { fixtures_dir: f, output_dir: o } && f == fixtures_dir && o
            == output_dir),
        cli.command matches Commands::Keygen { elf, output_dir } ==> (
        r matches Task::Keygen { elf: e, output_dir: o, keyset } && e == elf && o == output_dir
            && keyset.vmexe@ == joined_path(output_dir@, "program.vmexe"@) && keyset.app_pk@
            == joined_path(output_dir@, "app_pk"@) && keyset.agg_stark_pk@ == joined_path(
            output_dir@,
            "agg_stark_pk"@,
        ) && keyset.baseline@ == joined_path(output_dir@, "baseline.bin"@)),
        cli.command matches Commands::TestPipeline { elf, input } ==> (
        r matches Task::TestPipeline { elf: e, input: i } && e == elf && i == input),
        cli.command matches Commands::TestWithKeys { input, artifacts_dir, .. } ==> (
        r matches Task::TestWithKeys { input: i, keyset } && i == input && keyset.vmexe@
            == joined_path(artifacts_dir@, "program.vmexe"@) && keyset.app_pk@ == joined_path(
            artifacts_dir@,
            "app_pk"@,
        ) && keyset.agg_stark_pk@ == joined_path(artifacts_dir@, "agg_stark_pk"@)),
{
}

/// What is said of an input that cannot be converted holds the element it is about.
pub proof fn bad_inputs_are_told(e: &ConvertError, r: String)
    requires
        call_ensures(ConvertError::message, (e,), r),
    ensures
        e is Parse ==> r@ == "Failed to parse JSON"@,
        e is MissingInput ==> r@ == "JSON missing 'input' field"@,
        e is InputNotAnArray ==> r@ == "'input' field is not an array"@,
        e matches ConvertError::ElementNotAString(i) ==> r@ == "Input element "@ + decimal(
            i as nat,
        ) + " is not a string"@,
        e matches ConvertError::ElementNotHex(i, _) ==> r@
            == "Failed to decode hex for element "@ + decimal(i as nat),
        e matches ConvertError::NotSingle(n) ==> r@
            == "compact conversion supports exactly one input element, found "@ + decimal(n as nat)
            + " (use json-to-stdin for multi-element inputs)"@,
        e is Serialize ==> r@ == "Failed to serialize StdIn to bincode"@,
        e is Deserialize ==> r@ == "Failed to deserialize StdIn from bincode"@,
{
}

/// The fixtures have fixed names, and so have the files they are converted to.
pub proof fn fixtures_have_their_names(
    fixtures_dir: &str,
    output_dir: &str,
    elf: Conversion,
    input: Conversion,
    keyset: Keyset,
)
    requires
        call_ensures(elf_conversion, (fixtures_dir, output_dir), elf),
        call_ensures(standard_input_conversion, (fixtures_dir, output_dir), input),
        call_ensures(keyset_in, (output_dir,), keyset),
    ensures
        elf.from@ == joined_path(fixtures_dir@, "openvm-client-eth.elf"@),
        elf.to@ == joined_path(output_dir@, "program.vmexe"@),
        input.from@ == joined_path(fixtures_dir@, "24000481.json"@),
        input.to@ == joined_path(output_dir@, "input.bin"@),
        keyset.vmexe@ == elf.to@,
        keyset.app_pk@ == joined_path(output_dir@, "app_pk"@),
        keyset.agg_stark_pk@ == joined_path(output_dir@, "agg_stark_pk"@),
        keyset.baseline@ == joined_path(output_dir@, "baseline.bin"@),
{
}

/// An input with an element that cannot be converted is refused, whatever comes behind it,
/// and the refusal is about the first such element: it is no string, or no hexadecimal.
pub proof fn the_first_bad_element_is_told(
    elements: &Vec<Option<String>>,
    r: Result<Vec<u8>, ConvertError>,
    k: int,
)
    requires
        call_ensures(stdin_from_elements, (elements,), r),
        0 <= k < elements@.len() <= usize::MAX,
        forall|i: int|
            0 <= i < k ==> (#[trigger] elements@[i]) is Some && is_hex(
                bare_hex(elements@[i]->0@),
            ),
        elements@[k] is None || !is_hex(bare_hex(elements@[k]->0@)),
    ensures
        r is Err,
        elements@[k] is None ==> r->Err_0 is ElementNotAString && r->Err_0->ElementNotAString_0
            == k,
        elements@[k] is Some ==> r->Err_0 is ElementNotHex && r->Err_0->ElementNotHex_0 == k
            && r->Err_0->ElementNotHex_1@ == hex_error(bare_hex(elements@[k]->0@)),
{
    let texts = element_texts(elements@);
    assert(!is_convertible(texts[k]));
    let j = choose|j: int|
        0 <= j < texts.len() && is_element_error(j as usize, #[trigger] texts[j], r->Err_0)
            && !is_convertible(texts[j]) && forall|i: int|
            0 <= i < j ==> is_convertible(#[trigger] texts[i]);
    if j < k {
        assert(elements@[j] is Some);
        assert(is_convertible(texts[j]));
    }
    assert(j == k);
}

/// Where every element can be converted, nothing but the serialization of what they give
/// decides: its bytes are the input, and what it fails of is the error.
pub proof fn convertible_inputs_are_made(
    elements: &Vec<Option<String>>,
    parts: Seq<Vec<u8>>,
    r: Result<Vec<u8>, ConvertError>,
    data: Seq<Seq<u8>>,
)
    requires
        call_ensures(stdin_from_elements, (elements,), r),
        parts.len() == elements@.len(),
        data.len() == elements@.len(),
        forall|i: int|
            0 <= i < elements@.len() ==> call_ensures(
                convert_element,
                (i as usize, &#[trigger] elements@[i]),
                Ok(parts[i]),
            ),
        forall|i: int| 0 <= i < elements@.len() ==> (#[trigger] data[i]) == parts[i]@,
    ensures
        guest_encoding(data) is Some ==> r is Ok && r->Ok_0@ == guest_encoding(data)->0,
        guest_encoding(data) is None ==> r is Err && r->Err_0 is Serialize
            && r->Err_0->Serialize_0@ == guest_error(data),
{
    let texts = element_texts(elements@);
    assert forall|i: int| 0 <= i < texts.len() implies is_convertible(#[trigger] texts[i])
        && element_data(texts[i]->0) == data[i] by {
        assert(call_ensures(
            convert_element,
            (i as usize, &elements@[i]),
            Ok::<Vec<u8>, ConvertError>(parts[i]),
        ));
        assert(texts[i] == element_text(elements@[i]));
        assert(data[i] == parts[i]@);
    }
    assert(all_data(texts) =~= data);
}

} // verus!
