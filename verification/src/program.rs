//! Program identifier used to select which ELF to prove against.
//!
//! Programs are identified by `(name, version)` end-to-end. A deployment's loadout
//! is populated at runtime through registration requests, and is optionally seeded
//! by the `EDGE_PROGRAMS` environment variable with programs whose artifacts are
//! already on disk.

use vstd::prelude::*;
use vstd::string::*;

use crate::text::{decimal, is_blank, push_decimal, same_text, trim, trimmed};

verus! {

/// Environment variable carrying the deployment's program loadout as a JSON array
/// of `{name, version}` objects.
pub const ENV_PROGRAMS: &'static str = "EDGE_PROGRAMS";

/// Identifies a single program version in the deployment loadout.
#[derive(Debug, PartialEq, Eq, PartialOrd, Ord, Hash)]
pub struct ProgramRef {
    /// User-friendly program name (e.g. `"sha256"`).
    pub name: String,
    /// Monotonically increasing version, assigned per `name`.
    pub version: u32,
}

impl Clone for ProgramRef {
    fn clone(&self) -> (res: Self)
        ensures
            res == *self,
    {
        ProgramRef { name: self.name.clone(), version: self.version }
    }
}

impl ProgramRef {
    /// What identifies the program: its name and version.
    pub open spec fn id(self) -> (Seq<char>, u32) {
        (self.name@, self.version)
    }

    pub fn new(name: &str, version: u32) -> (r: Self)
        ensures
            r.id() == (name@, version),
    {
        ProgramRef { name: name.to_owned(), version }
    }

    /// The rendered form of the program with this id.
    pub open spec fn rendered(self) -> Seq<char> {
        self.name@ + "@v"@ + decimal(self.version as nat)
    }

    /// The program rendered as `name@vN`.
    pub fn render(&self) -> (r: String)
        ensures
            r@ == self.rendered(),
    {
        let mut out = self.name.clone();
        out.append("@v");
        push_decimal(&mut out, self.version as u64);
        out
    }

    /// Whether `self` and `other` are the same program version.
    pub fn same(&self, other: &ProgramRef) -> (r: bool)
        ensures
            r == (self.id() == other.id()),
    {
        self.version == other.version && same_text(self.name.as_str(), other.name.as_str())
    }
}

/// Error from parsing the `EDGE_PROGRAMS` variable.
#[derive(Debug)]
pub enum ParseProgramsError {
    /// The variable is not set or is empty.
    Missing,
    /// The variable did not parse as a JSON array of `ProgramRef`.
    InvalidJson(String),
    /// The program list is empty.
    Empty,
    /// Two entries share the same `(name, version)`.
    Duplicate(ProgramRef),
}

impl ParseProgramsError {
    /// The text a reader is shown for the error.
    pub open spec fn text(self) -> Seq<char> {
        match self {
            ParseProgramsError::Missing =>
                "EDGE_PROGRAMS is not set; expected a JSON array of {name, version} objects"@,
            ParseProgramsError::InvalidJson(e) => "EDGE_PROGRAMS is not valid JSON: "@ + e@,
            ParseProgramsError::Empty => "EDGE_PROGRAMS must contain at least one program"@,
            ParseProgramsError::Duplicate(p) => "EDGE_PROGRAMS contains duplicate program "@
                + p.rendered(),
        }
    }

    /// The text a reader is shown for the error.
    pub fn message(&self) -> (r: String)
        ensures
            r@ == self.text(),
    {
        match self {
            ParseProgramsError::Missing =>
                "EDGE_PROGRAMS is not set; expected a JSON array of {name, version} objects".to_owned(),
            ParseProgramsError::InvalidJson(e) => {
                let mut out = "EDGE_PROGRAMS is not valid JSON: ".to_owned();
                out.append(e.as_str());
                out
            },
            ParseProgramsError::Empty => "EDGE_PROGRAMS must contain at least one program".to_owned(),
            ParseProgramsError::Duplicate(p) => {
                let mut out = "EDGE_PROGRAMS contains duplicate program ".to_owned();
                let shown = p.render();
                out.append(shown.as_str());
                out
            },
        }
    }
}

/// Whether entry `j` repeats an earlier one.
pub open spec fn repeats(programs: Seq<ProgramRef>, j: int) -> bool {
    0 <= j < programs.len() && exists|i: int|
        0 <= i < j && (#[trigger] programs[i]).id() == programs[j].id()
}

/// Whether `j` is the first entry that repeats an earlier one.
pub open spec fn is_first_repeat(programs: Seq<ProgramRef>, j: int) -> bool {
    repeats(programs, j) && forall|k: int| 0 <= k < j ==> !#[trigger] repeats(programs, k)
}

/// Whether no `(name, version)` pair occurs twice.
pub open spec fn all_distinct(programs: Seq<ProgramRef>) -> bool {
    forall|i: int, j: int|
        0 <= i < j < programs.len() ==> (#[trigger] programs[i]).id() != (
        #[trigger] programs[j]).id()
}

/// What a decoded program list is turned into.
pub open spec fn accepts_programs(
    decoded: Result<Vec<ProgramRef>, String>,
    r: Result<Vec<ProgramRef>, ParseProgramsError>,
) -> bool {
    match decoded {
        Err(e) => r == Err::<Vec<ProgramRef>, ParseProgramsError>(
            ParseProgramsError::InvalidJson(e),
        ),
        Ok(programs) => if programs@.len() == 0 {
            r == Err::<Vec<ProgramRef>, ParseProgramsError>(ParseProgramsError::Empty)
        } else if all_distinct(programs@) {
            r == Ok::<Vec<ProgramRef>, ParseProgramsError>(programs)
        } else {
            exists|j: int|
                #[trigger] is_first_repeat(programs@, j) && r == Err::<
                    Vec<ProgramRef>,
                    ParseProgramsError,
                >(ParseProgramsError::Duplicate(programs@[j]))
        },
    }
}

/// Check a decoded program list: it must not be empty, and no `(name, version)`
/// pair may occur twice. The first repeated entry is the one reported.
pub fn check_programs(decoded: Result<Vec<ProgramRef>, String>) -> (r: Result<
    Vec<ProgramRef>,
    ParseProgramsError,
>)
    ensures
        accepts_programs(decoded, r),
{
    let programs = match decoded {
        Err(e) => return Err(ParseProgramsError::InvalidJson(e)),
        Ok(programs) => programs,
    };
    if programs.len() == 0 {
        return Err(ParseProgramsError::Empty);
    }
    let mut j: usize = 0;
    while j < programs.len()
        invariant
            j <= programs@.len(),
            programs@.len() > 0,
            decoded == Ok::<Vec<ProgramRef>, String>(programs),
            forall|k: int| 0 <= k < j ==> !#[trigger] repeats(programs@, k),
        decreases programs@.len() - j,
    {
        let mut i: usize = 0;
        while i < j
            invariant
                i <= j < programs@.len(),
                programs@.len() > 0,
                decoded == Ok::<Vec<ProgramRef>, String>(programs),
                forall|k: int| 0 <= k < j ==> !#[trigger] repeats(programs@, k),
                forall|k: int| 0 <= k < i ==> (#[trigger] programs@[k]).id() != programs@[j as int].id(),
            decreases j - i,
        {
            if programs[i].same(&programs[j]) {
                proof {
                    assert(programs@[i as int].id() == programs@[j as int].id());
                    assert(is_first_repeat(programs@, j as int));
                    assert(!all_distinct(programs@));
                }
                return Err(ParseProgramsError::Duplicate(programs[j].clone()));
            }
            i = i + 1;
        }
        assert(!repeats(programs@, j as int));
        j = j + 1;
    }
    proof {
        assert forall|a: int, b: int| 0 <= a < b < programs@.len() implies (
        #[trigger] programs@[a]).id() != (#[trigger] programs@[b]).id() by {
            assert(!repeats(programs@, b));
        }
    }
    Ok(programs)
}

/// Whether `r` is what the text of a loadout that is not blank is parsed to: `decode` is
/// handed the text without surrounding white space.
pub open spec fn parses_to<F: Fn(&str) -> Result<Vec<ProgramRef>, String>>(
    raw: Seq<char>,
    decode: F,
    r: Result<Vec<ProgramRef>, ParseProgramsError>,
) -> bool {
    exists|t: &str, d: Result<Vec<ProgramRef>, String>|
        t@ == trimmed(raw) && #[trigger] call_ensures(decode, (t,), d) && accepts_programs(d, r)
}

/// Whether `r` is what [`parse_programs_str`] may give for a text.
pub open spec fn text_gives<F: Fn(&str) -> Result<Vec<ProgramRef>, String>>(
    raw: Seq<char>,
    decode: F,
    r: Result<Vec<ProgramRef>, ParseProgramsError>,
) -> bool {
    if is_blank(raw) {
        r == Err::<Vec<ProgramRef>, ParseProgramsError>(ParseProgramsError::Missing)
    } else {
        parses_to(raw, decode, r)
    }
}

/// Whether `r` is what [`parse_programs_env`] may give for the value of the variable.
pub open spec fn variable_gives<F: Fn(&str) -> Result<Vec<ProgramRef>, String>>(
    value: Option<Seq<char>>,
    decode: F,
    r: Result<Vec<ProgramRef>, ParseProgramsError>,
) -> bool {
    if value is None || is_blank(value->0) {
        r is Ok && r->Ok_0@.len() == 0
    } else {
        parses_to(value->0, decode, r)
    }
}

/// Parse the loadout from a raw JSON string, with `decode` turning the JSON text
/// into programs or into the text of its error.
///
/// Surrounding white space is ignored. The programs come back in declaration order.
pub fn parse_programs_str<F: Fn(&str) -> Result<Vec<ProgramRef>, String>>(
    raw: &str,
    decode: F,
) -> (r: Result<Vec<ProgramRef>, ParseProgramsError>)
    requires
        forall|t: &str| #[trigger] call_requires(decode, (t,)),
    ensures
        text_gives(raw@, decode, r),
{
    let text = trim(raw);
    if text.is_empty() {
        return Err(ParseProgramsError::Missing);
    }
    let decoded = decode(text);
    let ghost d = decoded;
    let r = check_programs(decoded);
    assert(call_ensures(decode, (text,), d));
    r
}

/// Parse the loadout that the value of `EDGE_PROGRAMS` seeds the deployment with.
///
/// An unset or blank variable yields an empty loadout, which is the normal case for
/// a registration-driven deployment. One that is set but malformed is an error, so
/// a typo fails loudly instead of starting with no programs: what is not blank gives
/// what [`parse_programs_str`] gives for it.
pub fn parse_programs_env<F: Fn(&str) -> Result<Vec<ProgramRef>, String>>(
    value: Option<&str>,
    decode: F,
) -> (r: Result<Vec<ProgramRef>, ParseProgramsError>)
    requires
        forall|t: &str| #[trigger] call_requires(decode, (t,)),
    ensures
        variable_gives(
            match value {
                Some(raw) => Some(raw@),
                None => None,
            },
            decode,
            r,
        ),
        value is Some && !is_blank(value->0@) ==> call_ensures(
            parse_programs_str::<F>,
            (value->0, decode),
            r,
        ),
{
    match value {
        Some(raw) => {
            if trim(raw).is_empty() {
                Ok(Vec::new())
            } else {
                parse_programs_str(raw, decode)
            }
        },
        None => Ok(Vec::new()),
    }
}

/// A variable that is not blank is parsed as its text is, errors included: whatever
/// decoding does, it gives exactly the results that the text may give. Otherwise it
/// never gives an error.
pub proof fn a_set_variable_is_parsed_as_its_text<
    F: Fn(&str) -> Result<Vec<ProgramRef>, String>,
>(value: Option<Seq<char>>, decode: F, r: Result<Vec<ProgramRef>, ParseProgramsError>)
    ensures
        value is Some && !is_blank(value->0) ==> (variable_gives(value, decode, r) <==> text_gives(
            value->0,
            decode,
            r,
        )),
        value is None || is_blank(value->0) ==> (variable_gives(value, decode, r) ==> r is Ok),
{
}

/// What was decoded settles the outcome, from the variable as from the text.
pub proof fn one_decoding_has_one_outcome(
    decoded: Result<Vec<ProgramRef>, String>,
    from_variable: Result<Vec<ProgramRef>, ParseProgramsError>,
    from_text: Result<Vec<ProgramRef>, ParseProgramsError>,
)
    requires
        accepts_programs(decoded, from_variable),
        accepts_programs(decoded, from_text),
    ensures
        from_variable == from_text,
{
    if let Ok(programs) = decoded {
        if programs@.len() > 0 && !all_distinct(programs@) {
            let i = choose|j: int| #[trigger]
                is_first_repeat(programs@, j) && from_variable == Err::<
                    Vec<ProgramRef>,
                    ParseProgramsError,
                >(ParseProgramsError::Duplicate(programs@[j]));
            let j = choose|j: int| #[trigger]
                is_first_repeat(programs@, j) && from_text == Err::<
                    Vec<ProgramRef>,
                    ParseProgramsError,
                >(ParseProgramsError::Duplicate(programs@[j]));
            assert(repeats(programs@, i) && repeats(programs@, j));
            assert(i == j);
        } else if programs@.len() > 0 {
            assert(from_variable == Ok::<Vec<ProgramRef>, ParseProgramsError>(programs));
        }
    }
}

/// A loadout that was accepted is not empty, holds each program once, and is the
/// decoded list itself, in its order.
pub proof fn accepted_loadout_is_the_decoded_one(
    decoded: Result<Vec<ProgramRef>, String>,
    r: Result<Vec<ProgramRef>, ParseProgramsError>,
)
    requires
        accepts_programs(decoded, r),
        r is Ok,
    ensures
        decoded == Ok::<Vec<ProgramRef>, String>(r->Ok_0),
        r->Ok_0@.len() > 0,
        all_distinct(r->Ok_0@),
{
}

/// A guest program and the VM config to build it under, sent by a client to the
/// manager and fanned out to every worker.
#[derive(Debug)]
pub struct RegisterProgramRequest {
    /// Name and version this program is registered under.
    pub program: ProgramRef,
    /// Guest ELF bytes.
    pub elf: Vec<u8>,
    /// Serialized VM config, opaque to the manager.
    pub vm_config: String,
}

impl RegisterProgramRequest {
    /// Multipart field carrying the JSON-encoded [`ProgramRef`].
    pub const PART_PROGRAM: &'static str = "program";

    /// Multipart field carrying the raw ELF bytes.
    pub const PART_ELF: &'static str = "elf";

    /// Multipart field carrying the serialized VM config.
    pub const PART_VM_CONFIG: &'static str = "vm_config";
}

/// Programs are told apart by their name and their version, and by nothing else.
pub proof fn programs_are_known_by_name_and_version(a: &ProgramRef, b: &ProgramRef, r: bool)
    requires
        call_ensures(ProgramRef::same, (a, b), r),
    ensures
        r <==> a.name@ == b.name@ && a.version == b.version,
{
}

/// A program is rendered as its name, `@v` and its version.
pub proof fn programs_are_rendered(program: &ProgramRef, r: String)
    requires
        call_ensures(ProgramRef::render, (program,), r),
    ensures
        r@ == program.name@ + "@v"@ + decimal(program.version as nat),
{
}

/// A loadout is accepted, as it is, exactly if it was decoded, holds a program, and holds
/// none twice. The program that is reported as a duplicate is the first entry of which an
/// earlier one has the name and the version.
pub proof fn loadouts_hold_each_program_once(
    decoded: Result<Vec<ProgramRef>, String>,
    r: Result<Vec<ProgramRef>, ParseProgramsError>,
)
    requires
        call_ensures(check_programs, (decoded,), r),
    ensures
        decoded is Err ==> r is Err && r->Err_0 is InvalidJson && r->Err_0->InvalidJson_0
            == decoded->Err_0,
        decoded is Ok && decoded->Ok_0@.len() == 0 ==> r is Err && r->Err_0 is Empty,
        r is Ok ==> decoded is Ok && r->Ok_0 == decoded->Ok_0,
        decoded is Ok && decoded->Ok_0@.len() > 0 ==> (r is Ok <==> forall|i: int, j: int|
            0 <= i < j < decoded->Ok_0@.len() ==> (#[trigger] decoded->Ok_0@[i]).name@ != (
            #[trigger] decoded->Ok_0@[j]).name@ || decoded->Ok_0@[i].version
                != decoded->Ok_0@[j].version),
        decoded is Ok && decoded->Ok_0@.len() > 0 && r is Err ==> r->Err_0 is Duplicate
            && exists|i: int, j: int|
            {
                &&& 0 <= i < j < decoded->Ok_0@.len()
                &&& (#[trigger] decoded->Ok_0@[i]).name@ == (#[trigger] decoded->Ok_0@[j]).name@
                &&& decoded->Ok_0@[i].version == decoded->Ok_0@[j].version
                &&& r->Err_0->Duplicate_0 == decoded->Ok_0@[j]
                &&& forall|a: int, b: int|
                    0 <= a < b < j ==> (#[trigger] decoded->Ok_0@[a]).name@ != (
                    #[trigger] decoded->Ok_0@[b]).name@ || decoded->Ok_0@[a].version
                        != decoded->Ok_0@[b].version
            },
{
    if decoded is Ok && decoded->Ok_0@.len() > 0 {
        let programs = decoded->Ok_0@;
        if all_distinct(programs) {
            assert forall|i: int, j: int| 0 <= i < j < programs.len() implies (
            #[trigger] programs[i]).name@ != (#[trigger] programs[j]).name@ || programs[i].version
                != programs[j].version by {
                assert(programs[i].id() != programs[j].id());
            }
        } else {
            let j = choose|j: int|
                #[trigger] is_first_repeat(programs, j) && r == Err::<
                    Vec<ProgramRef>,
                    ParseProgramsError,
                >(ParseProgramsError::Duplicate(programs[j]));
            assert(repeats(programs, j));
            let i = choose|i: int| 0 <= i < j && (#[trigger] programs[i]).id() == programs[j].id();
            assert(programs[i].name@ == programs[j].name@);
            assert forall|a: int, b: int| 0 <= a < b < j implies (#[trigger] programs[a]).name@
                != (#[trigger] programs[b]).name@ || programs[a].version
                != programs[b].version by {
                assert(!repeats(programs, b));
                assert(programs[a].id() != programs[b].id());
            }
        }
    }
}

/// A text that is not blank is decoded without the white space around it, and gives what
/// was decoded, as it is, if that is a loadout. A blank text is no loadout; a blank or
/// missing variable is an empty one.
pub proof fn texts_are_decoded_trimmed<F: Fn(&str) -> Result<Vec<ProgramRef>, String>>(
    raw: &str,
    decode: F,
    r: Result<Vec<ProgramRef>, ParseProgramsError>,
    value: Option<&str>,
    seeded: Result<Vec<ProgramRef>, ParseProgramsError>,
)
    requires
        call_ensures(parse_programs_str::<F>, (raw, decode), r),
        call_ensures(parse_programs_env::<F>, (value, decode), seeded),
    ensures
        is_blank(raw@) ==> r is Err && r->Err_0 is Missing,
        !is_blank(raw@) ==> exists|t: &str, d: Result<Vec<ProgramRef>, String>|
            {
                &&& t@ == trimmed(raw@)
                &&& #[trigger] call_ensures(decode, (t,), d)
                &&& d is Err ==> r is Err && r->Err_0 is InvalidJson && r->Err_0->InvalidJson_0
                    == d->Err_0
                &&& d is Ok && d->Ok_0@.len() == 0 ==> r is Err && r->Err_0 is Empty
                &&& r is Ok ==> d is Ok && r->Ok_0 == d->Ok_0
                &&& d is Ok && d->Ok_0@.len() > 0 && r is Err ==> r->Err_0 is Duplicate
            },
        value is None ==> seeded is Ok && seeded->Ok_0@.len() == 0,
        value is Some && is_blank(value->0@) ==> seeded is Ok && seeded->Ok_0@.len() == 0,
        value is Some && !is_blank(value->0@) && seeded is Ok ==> seeded->Ok_0@.len() > 0,
{
}

/// What is said of a loadout that was refused holds the reason, or the program that
/// occurs twice.
pub proof fn refused_loadouts_are_told(e: &ParseProgramsError, r: String)
    requires
        call_ensures(ParseProgramsError::message, (e,), r),
    ensures
        e is Missing ==> r@
            == "EDGE_PROGRAMS is not set; expected a JSON array of {name, version} objects"@,
        e is InvalidJson ==> r@ == "EDGE_PROGRAMS is not valid JSON: "@ + e->InvalidJson_0@,
        e is Empty ==> r@ == "EDGE_PROGRAMS must contain at least one program"@,
        e is Duplicate ==> r@ == "EDGE_PROGRAMS contains duplicate program "@ + (
        e->Duplicate_0.name@ + "@v"@ + decimal(e->Duplicate_0.version as nat)),
{
}

} // verus!
