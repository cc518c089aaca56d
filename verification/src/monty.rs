//! A compiled program.
use std::sync::Arc;
use vstd::prelude::*;
use vstd::string::*;

use crate::codec::{decode_string, decode_strings, encode_string, encode_strings, Fault};
use crate::host::{raised, ErrorView, Host, PyError};
use crate::inputs::{list_str, Extraction};
use crate::object::MontyObject;
use crate::progress::Context;
use crate::save::{append_field, Decoded, Encoded};
use crate::text::{count_lines, debug_names, to_decimal};

verus! {

/// Compiled code, with its source.
pub struct Runner<H: Host> {
    pub state: H::Runner,
    pub code: String,
}

/// A program: parsed and compiled once, then run any number of times.
pub struct PyMonty<H: Host> {
    /// The compiled code, ready to execute.
    pub runner: Runner<H>,
    /// The artificial name of the file that holds the code.
    pub script_name: String,
    /// Names of input variables expected by the code.
    pub input_names: Vec<String>,
    /// Names of external functions the code can call.
    pub external_function_names: Vec<String>,
    /// Registry of dataclass types for reconstructing original types on output.
    pub dc_registry: Arc<H::Registry>,
}

/// The names that a program declares.
pub struct Declaration {
    /// Names of input variables expected by the code.
    pub input_names: Vec<String>,
    /// Names of external functions the code can call.
    pub external_function_names: Vec<String>,
}

/// A source file for the type checker.
pub struct SourceFile {
    pub source_code: String,
    pub path: String,
}

/// What the type checker is to check.
pub struct TypeCheck {
    pub source: SourceFile,
    /// Declarations that the source relies on.
    pub stubs: Option<SourceFile>,
}

/// A program to be compiled.
pub struct Compile {
    pub code: String,
    pub script_name: String,
    pub declaration: Declaration,
}

/// A program to be compiled once its code has passed a type check.
pub struct Unchecked {
    pub check: TypeCheck,
    pub compile: Compile,
}

/// The next step in the creation of a program.
pub enum Creation {
    TypeCheck(Unchecked),
    Compile(Compile),
}

/// How the use of resources is tracked.
pub enum Tracking<H: Host> {
    NoLimit,
    Limited(H::Limits),
}

/// A program ready to be started.
pub struct Start<'a, H: Host> {
    /// The compiled code.
    pub runner: &'a Runner<H>,
    /// The values of the inputs, in the order of their declaration.
    pub input_values: Vec<MontyObject<H>>,
    pub tracking: Tracking<H>,
    /// What the stages of the execution inherit.
    pub context: Context<H>,
}

impl Declaration {
    /// Reads the names of the inputs and then those of the external functions.
    ///
    /// `TypeError` if a name is no string.
    pub fn read<H: Host>(
        inputs: Option<&Vec<Result<String, String>>>,
        external_functions: Option<&Vec<Result<String, String>>>,
    ) -> (result: Result<Declaration, PyError<H>>)
        ensures
            match (
                declared::<H>(inputs, "inputs"@),
                declared::<H>(external_functions, "external_functions"@),
            ) {
                (Err(error), _) => crate::host::fails(result, error),
                (Ok(_), Err(error)) => crate::host::fails(result, error),
                (Ok(inputs), Ok(functions)) => result matches Ok(declaration)
                    && declaration.input_names@ == inputs
                    && declaration.external_function_names@ == functions,
            },
    {
        let input_names = list_str(inputs, "inputs")?;
        let external_function_names = list_str(external_functions, "external_functions")?;
        Ok(Declaration { input_names, external_function_names })
    }
}

/// The names that a list declares.
pub open spec fn declared<H: Host>(
    arg: Option<&Vec<Result<String, String>>>,
    name: Seq<char>,
) -> Result<Seq<String>, ErrorView<H>> {
    match arg {
        Some(items) => match crate::inputs::collected(items@) {
            Ok(names) => Ok(names),
            Err(error) => Err(ErrorView::TypeError(name + ": "@ + error@)),
        },
        None => Ok(seq![]),
    }
}

/// A source file as text.
pub struct SourceView {
    pub source_code: Seq<char>,
    pub path: Seq<char>,
}

/// What the type checker is asked, as text.
pub struct TypeCheckView {
    pub source: SourceView,
    pub stubs: Option<SourceView>,
}

impl View for SourceFile {
    type V = SourceView;

    open spec fn view(&self) -> SourceView {
        SourceView { source_code: self.source_code@, path: self.path@ }
    }
}

impl View for TypeCheck {
    type V = TypeCheckView;

    open spec fn view(&self) -> TypeCheckView {
        TypeCheckView {
            source: self.source@,
            stubs: match self.stubs {
                Some(stubs) => Some(stubs@),
                None => None,
            },
        }
    }
}

/// The check of `code` in the file `script_name`, with `type_stubs` as the
/// declarations that it relies on.
pub open spec fn asked(
    code: Seq<char>,
    script_name: Seq<char>,
    type_stubs: Option<&str>,
) -> TypeCheckView {
    TypeCheckView {
        source: SourceView { source_code: code, path: script_name },
        stubs: match type_stubs {
            Some(type_stubs) => Some(
                SourceView { source_code: type_stubs@, path: "type_stubs.pyi"@ },
            ),
            None => None,
        },
    }
}

/// What a type check comes to that found `found`.
pub open spec fn verdict<H: Host>(found: Result<Option<H::Diagnostic>, String>) -> Result<
    (),
    ErrorView<H>,
> {
    match found {
        Err(message) => Err(ErrorView::RuntimeError(message@)),
        Ok(Some(diagnostic)) => Err(ErrorView::Typing(diagnostic)),
        Ok(None) => Ok(()),
    }
}

/// Asks for a check of `code`, with the declarations that it relies on if there
/// are any.
pub fn py_type_check(code: &str, script_name: &str, type_stubs: Option<&str>) -> (check: TypeCheck)
    ensures
        check@ == asked(code@, script_name@, type_stubs),
{
    TypeCheck {
        source: SourceFile { source_code: code.to_owned(), path: script_name.to_owned() },
        stubs: match type_stubs {
            Some(type_stubs) => Some(
                SourceFile {
                    source_code: type_stubs.to_owned(),
                    path: "type_stubs.pyi".to_owned(),
                },
            ),
            None => None,
        },
    }
}

/// What a type check came to.
///
/// `RuntimeError` if the type checker failed, and its diagnostic if it found
/// type errors.
pub fn type_checked<H: Host>(found: Result<Option<H::Diagnostic>, String>) -> (result: Result<
    (),
    PyError<H>,
>)
    ensures
        crate::host::outcome(result) == verdict::<H>(found),
{
    match found {
        Err(message) => Err(PyError::RuntimeError(message)),
        Ok(Some(diagnostic)) => Err(PyError::Typing(diagnostic)),
        Ok(None) => Ok(()),
    }
}

impl Creation {
    /// The program that is created.
    pub open spec fn spec_compile(self) -> Compile {
        match self {
            Creation::TypeCheck(unchecked) => unchecked.compile,
            Creation::Compile(compile) => compile,
        }
    }

    /// Whether the program that is created has this code, this name and these
    /// names, and whether its code is type checked first if and only if there
    /// is to be a type check.
    pub open spec fn creates(
        self,
        code: Seq<char>,
        script_name: Seq<char>,
        input_names: Seq<String>,
        external_function_names: Seq<String>,
        type_check: bool,
        type_check_stubs: Option<&str>,
    ) -> bool {
        &&& self.spec_compile().code@ == code
        &&& self.spec_compile().script_name@ == script_name
        &&& self.spec_compile().declaration.input_names@ == input_names
        &&& self.spec_compile().declaration.external_function_names@ == external_function_names
        &&& match self {
            Creation::TypeCheck(unchecked) => type_check && unchecked.check@ == asked(
                code,
                script_name,
                type_check_stubs,
            ),
            Creation::Compile(_) => !type_check,
        }
    }
}

impl Unchecked {
    /// The program to be compiled, if its code has passed the type check.
    pub open spec fn passed<H: Host>(
        self,
        found: Result<Option<H::Diagnostic>, String>,
    ) -> Result<Compile, ErrorView<H>> {
        match verdict::<H>(found) {
            Ok(_) => Ok(self.compile),
            Err(error) => Err(error),
        }
    }

    /// Goes on if the code has passed the type check.
    ///
    /// `RuntimeError` if the type checker failed, and its diagnostic if it
    /// found type errors.
    pub fn checked<H: Host>(self, found: Result<Option<H::Diagnostic>, String>) -> (result: Result<
        Compile,
        PyError<H>,
    >)
        ensures
            crate::host::outcome(result) == self.passed::<H>(found),
    {
        type_checked::<H>(found)?;
        Ok(self.compile)
    }
}

impl Compile {
    /// The program, given its compiled code.
    pub open spec fn finished<H: Host>(
        self,
        runner: Result<Runner<H>, H::Exception>,
        dc_registry: Result<Arc<H::Registry>, H::Error>,
    ) -> Result<PyMonty<H>, ErrorView<H>> {
        match (runner, dc_registry) {
            (Err(exception), _) => Err(ErrorView::Monty(exception)),
            (Ok(_), Err(error)) => Err(ErrorView::Raised(error)),
            (Ok(runner), Ok(dc_registry)) => Ok(
                PyMonty {
                    runner,
                    script_name: self.script_name,
                    input_names: self.declaration.input_names,
                    external_function_names: self.declaration.external_function_names,
                    dc_registry,
                },
            ),
        }
    }

    /// The program, given its compiled code.
    ///
    /// An exception that compiling the code raised goes before one from the
    /// registry.
    pub fn finish<H: Host>(
        self,
        runner: Result<Runner<H>, H::Exception>,
        dc_registry: Result<Arc<H::Registry>, H::Error>,
    ) -> (result: Result<PyMonty<H>, PyError<H>>)
        ensures
            crate::host::outcome(result) == self.finished(runner, dc_registry),
    {
        let runner = match runner {
            Ok(runner) => runner,
            Err(exception) => return Err(PyError::Monty(exception)),
        };
        let dc_registry = raised::<_, H>(dc_registry)?;
        Ok(
            PyMonty {
                runner,
                script_name: self.script_name,
                input_names: self.declaration.input_names,
                external_function_names: self.declaration.external_function_names,
                dc_registry,
            },
        )
    }
}

/// How the use of resources is tracked, given the limits as they were read.
pub open spec fn tracked_by<H: Host>(limits: Option<Result<H::Limits, H::Error>>) -> Result<
    Tracking<H>,
    ErrorView<H>,
> {
    match limits {
        None => Ok(Tracking::NoLimit),
        Some(Ok(limits)) => Ok(Tracking::Limited(limits)),
        Some(Err(error)) => Err(ErrorView::Raised(error)),
    }
}

/// Chooses the tracker: one with limits if there are limits.
///
/// An exception that reading the limits raised is passed on.
pub fn tracking<H: Host>(limits: Option<Result<H::Limits, H::Error>>) -> (result: Result<
    Tracking<H>,
    PyError<H>,
>)
    ensures
        crate::host::outcome(result) == tracked_by::<H>(limits),
{
    match limits {
        None => Ok(Tracking::NoLimit),
        Some(Ok(limits)) => Ok(Tracking::Limited(limits)),
        Some(Err(error)) => Err(PyError::Raised(error)),
    }
}

/// The bytes of a program: its compiled code and its plain fields.
pub open spec fn program_bytes(
    runner: Seq<u8>,
    script_name: Seq<char>,
    input_names: Seq<Seq<char>>,
    external_function_names: Seq<Seq<char>>,
) -> Seq<u8> {
    runner + crate::codec::string_bytes(script_name) + crate::codec::strings_bytes(input_names)
        + crate::codec::strings_bytes(external_function_names)
}

/// The plain fields of a saved program, as they are read.
pub struct ProgramFields {
    pub script_name: Seq<char>,
    pub input_names: Seq<Seq<char>>,
    pub external_function_names: Seq<Seq<char>>,
}

/// Decodes the plain fields of a program. Bytes behind them are ignored.
pub open spec fn program_fields(bytes: Seq<u8>) -> Result<ProgramFields, Fault> {
    match crate::codec::string_taken(bytes) {
        Err(fault) => Err(fault),
        Ok((script_name, rest)) => match crate::codec::strings_taken(rest) {
            Err(fault) => Err(fault),
            Ok((input_names, rest)) => match crate::codec::strings_taken(rest) {
                Err(fault) => Err(fault),
                Ok((external_function_names, _)) => Ok(
                    ProgramFields { script_name, input_names, external_function_names },
                ),
            },
        },
    }
}

/// Loading what was saved gives back the program: behind the bytes of its
/// compiled code stand its plain fields.
pub proof fn saved_program_back(runner: Seq<u8>, fields: ProgramFields)
    requires
        crate::codec::fits(fields.script_name),
        crate::codec::all_fit(fields.input_names),
        crate::codec::all_fit(fields.external_function_names),
    ensures
        ({
            let bytes = program_bytes(
                runner,
                fields.script_name,
                fields.input_names,
                fields.external_function_names,
            );
            &&& bytes.take(runner.len() as int) == runner
            &&& program_fields(bytes.skip(runner.len() as int)) == Ok::<ProgramFields, Fault>(
                fields,
            )
        }),
{
    let name = crate::codec::string_bytes(fields.script_name);
    let inputs = crate::codec::strings_bytes(fields.input_names);
    let functions = crate::codec::strings_bytes(fields.external_function_names);
    let bytes = program_bytes(
        runner,
        fields.script_name,
        fields.input_names,
        fields.external_function_names,
    );
    crate::codec::lemma_append_assoc(runner + name, inputs, functions);
    crate::codec::lemma_append_assoc(runner, name, inputs + functions);
    assert(bytes.take(runner.len() as int) =~= runner);
    assert(bytes.skip(runner.len() as int) =~= name + (inputs + functions));
    crate::codec::string_back(fields.script_name, inputs + functions);
    crate::codec::strings_back(fields.input_names, functions);
    assert(functions + seq![] =~= functions);
    crate::codec::strings_back(fields.external_function_names, seq![]);
}

/// The printed form of a list of names behind its label, or nothing if the
/// list is empty.
pub open spec fn labelled(label: Seq<char>, names: Seq<String>) -> Seq<char> {
    if names.len() == 0 {
        seq![]
    } else {
        label + crate::text::debug_text(crate::text::texts(names))
    }
}

impl<H: Host> PyMonty<H> {
    /// Whether `result` is the start of the creation of this program.
    pub open spec fn is_created(
        code: Seq<char>,
        script_name: Seq<char>,
        inputs: Option<&Vec<Result<String, String>>>,
        external_functions: Option<&Vec<Result<String, String>>>,
        type_check: bool,
        type_check_stubs: Option<&str>,
        result: Result<Creation, PyError<H>>,
    ) -> bool {
        match (
            declared::<H>(inputs, "inputs"@),
            declared::<H>(external_functions, "external_functions"@),
        ) {
            (Err(error), _) => crate::host::fails(result, error),
            (Ok(_), Err(error)) => crate::host::fails(result, error),
            (Ok(inputs), Ok(functions)) => result matches Ok(creation) && creation.creates(
                code,
                script_name,
                inputs,
                functions,
                type_check,
                type_check_stubs,
            ),
        }
    }

    /// Starts to create a program out of its code: reads the names that it
    /// declares, and asks for a type check of the code if there is to be one.
    ///
    /// `TypeError` if a name is no string.
    pub fn new(
        code: String,
        script_name: &str,
        inputs: Option<&Vec<Result<String, String>>>,
        external_functions: Option<&Vec<Result<String, String>>>,
        type_check: bool,
        type_check_stubs: Option<&str>,
    ) -> (result: Result<Creation, PyError<H>>)
        ensures
            Self::is_created(
                code@,
                script_name@,
                inputs,
                external_functions,
                type_check,
                type_check_stubs,
                result,
            ),
    {
        let declaration = Declaration::read(inputs, external_functions)?;
        if type_check {
            let check = py_type_check(code.as_str(), script_name, type_check_stubs);
            let compile = Compile { code, script_name: script_name.to_owned(), declaration };
            Ok(Creation::TypeCheck(Unchecked { check, compile }))
        } else {
            Ok(
                Creation::Compile(
                    Compile { code, script_name: script_name.to_owned(), declaration },
                ),
            )
        }
    }

    /// Asks for a check of the code, with `prefix_code` as declarations of its
    /// inputs and external functions.
    pub fn type_check(&self, prefix_code: Option<&str>) -> (check: TypeCheck)
        ensures
            check@ == asked(self.runner.code@, self.script_name@, prefix_code),
    {
        py_type_check(self.runner.code.as_str(), self.script_name.as_str(), prefix_code)
    }

    /// Starts the extraction of the values of the declared inputs, given
    /// whether there is a dictionary of inputs.
    ///
    /// `TypeError` if there is one and no input is declared, or if there is
    /// none and inputs are declared.
    pub fn extract_input_values(&self, given: bool) -> (result: Result<
        Extraction<'_, H>,
        PyError<H>,
    >)
        ensures
            match crate::inputs::inputs_error::<H>(self.input_names@, given) {
                Some(error) => crate::host::fails(result, error),
                None => result matches Ok(extraction) && extraction.stands(
                    self.input_names@,
                    seq![],
                ),
            },
    {
        Extraction::begin(&self.input_names, given)
    }

    /// The program ready to be started.
    pub open spec fn readied_start(
        &self,
        input_values: Vec<MontyObject<H>>,
        limits: Option<Result<H::Limits, H::Error>>,
        print_callback: Option<Arc<H::Callback>>,
    ) -> Result<Start<'_, H>, ErrorView<H>> {
        match tracked_by::<H>(limits) {
            Ok(tracking) => Ok(
                Start {
                    runner: &self.runner,
                    input_values,
                    tracking,
                    context: Context {
                        script_name: self.script_name,
                        print_callback,
                        dc_registry: self.dc_registry,
                    },
                },
            ),
            Err(error) => Err(error),
        }
    }

    /// Readies the program to be started on the values of its inputs.
    ///
    /// An exception that reading the limits raised is passed on.
    pub fn start(
        &self,
        input_values: Vec<MontyObject<H>>,
        limits: Option<Result<H::Limits, H::Error>>,
        print_callback: Option<Arc<H::Callback>>,
    ) -> (result: Result<Start<'_, H>, PyError<H>>)
        ensures
            crate::host::outcome(result) == self.readied_start(
                input_values,
                limits,
                print_callback,
            ),
    {
        let tracking = tracking::<H>(limits)?;
        Ok(
            Start {
                runner: &self.runner,
                input_values,
                tracking,
                context: Context {
                    script_name: self.script_name.clone(),
                    print_callback,
                    dc_registry: Arc::clone(&self.dc_registry),
                },
            },
        )
    }

    /// What saving the program gives.
    pub open spec fn dumped(self, runner: Encoded) -> Result<Seq<u8>, ErrorView<H>> {
        match runner {
            Ok(runner) => Ok(
                program_bytes(
                    runner@,
                    self.script_name@,
                    crate::text::texts(self.input_names@),
                    crate::text::texts(self.external_function_names@),
                ),
            ),
            Err(message) => Err(ErrorView::ValueError(message@)),
        }
    }

    /// Saves the program, given its encoded code. The registry is not saved.
    ///
    /// `ValueError` if the code could not be encoded.
    pub fn dump(&self, runner: Encoded) -> (result: Result<Vec<u8>, PyError<H>>)
        ensures
            match self.dumped(runner) {
                Ok(expected) => result matches Ok(bytes) && bytes@ == expected,
                Err(error) => crate::host::fails(result, error),
            },
    {
        let mut bytes = match runner {
            Ok(runner) => runner,
            Err(message) => return Err(PyError::ValueError(message)),
        };
        append_field(&mut bytes, encode_string(self.script_name.as_str()))?;
        append_field(&mut bytes, encode_strings(&self.input_names))?;
        append_field(&mut bytes, encode_strings(&self.external_function_names))?;
        Ok(bytes)
    }

    /// Whether `result` is the program with this decoded code and the bytes
    /// behind it.
    pub open spec fn is_loaded(
        decoded: Result<(Runner<H>, Seq<u8>), Seq<char>>,
        dc_registry: Result<Arc<H::Registry>, H::Error>,
        result: Result<Self, PyError<H>>,
    ) -> bool {
        match decoded {
            Err(message) => crate::host::fails(result, ErrorView::ValueError(message)),
            Ok((runner, rest)) => match (program_fields(rest), dc_registry) {
                (Err(fault), _) => crate::host::fails(result, crate::save::fault_error(fault)),
                (Ok(_), Err(error)) => crate::host::fails(result, ErrorView::Raised(error)),
                (Ok(fields), Ok(dc_registry)) => {
                    &&& result matches Ok(loaded)
                    &&& loaded.runner == runner
                    &&& loaded.script_name@ == fields.script_name
                    &&& crate::text::texts(loaded.input_names@) == fields.input_names
                    &&& crate::text::texts(loaded.external_function_names@)
                        == fields.external_function_names
                    &&& loaded.dc_registry == dc_registry
                },
            },
        }
    }

    /// Restores a program from its decoded code and the bytes behind it.
    ///
    /// `ValueError` if the code could not be decoded or if the bytes do not
    /// start with the plain fields of a program; an exception from the registry
    /// is passed on.
    pub fn load(
        decoded: Decoded<'_, Runner<H>>,
        dc_registry: Result<Arc<H::Registry>, H::Error>,
    ) -> (result: Result<Self, PyError<H>>)
        ensures
            Self::is_loaded(crate::save::decoded_view(decoded), dc_registry, result),
    {
        let (runner, rest) = match decoded {
            Ok(decoded) => decoded,
            Err(message) => return Err(PyError::ValueError(message)),
        };
        let (script_name, rest) = match decode_string(rest) {
            Ok(decoded) => decoded,
            Err(message) => return Err(PyError::ValueError(message)),
        };
        let (input_names, rest) = match decode_strings(rest) {
            Ok(decoded) => decoded,
            Err(message) => return Err(PyError::ValueError(message)),
        };
        let (external_function_names, _) = match decode_strings(rest) {
            Ok(decoded) => decoded,
            Err(message) => return Err(PyError::ValueError(message)),
        };
        let dc_registry = raised::<_, H>(dc_registry)?;
        Ok(PyMonty { runner, script_name, input_names, external_function_names, dc_registry })
    }

    /// The printed form.
    pub open spec fn spec_repr(self) -> Seq<char> {
        let lines = crate::text::line_count(self.runner.code@);
        "Monty(<"@ + crate::text::decimal(lines) + " line"@ + (if lines == 1 {
            ""@
        } else {
            "s"@
        }) + " of code>, script_name='"@ + self.script_name@ + "'"@ + labelled(
            ", inputs="@,
            self.input_names@,
        ) + labelled(", external_functions="@, self.external_function_names@) + ")"@
    }

    /// The printed form.
    pub fn repr(&self) -> (text: String)
        ensures
            text@ == self.spec_repr(),
    {
        let lines: usize = count_lines(self.runner.code.as_str());
        let mut text: String = "Monty(<".to_owned();
        text.append(to_decimal(lines as u64).as_str());
        text.append(" line");
        text.append(
            if lines == 1 {
                ""
            } else {
                "s"
            },
        );
        text.append(" of code>, script_name='");
        text.append(self.script_name.as_str());
        text.append("'");
        append_labelled(&mut text, ", inputs=", &self.input_names);
        append_labelled(&mut text, ", external_functions=", &self.external_function_names);
        text.append(")");
        text
    }
}

/// Appends a list of names behind its label, unless the list is empty.
fn append_labelled(text: &mut String, label: &str, names: &Vec<String>)
    ensures
        final(text)@ == old(text)@ + labelled(label@, names@),
{
    if names.len() > 0 {
        text.append(label);
        text.append(debug_names(names).as_str());
        proof {
            let printed = crate::text::debug_text(crate::text::texts(names@));
            assert(old(text)@ + label@ + printed =~= old(text)@ + (label@ + printed));
        }
    } else {
        assert(old(text)@ + seq![] =~= old(text)@);
    }
}

/// Creating a program with a type check fails exactly where a type check of the
/// program fails that is created without one. Both ask the type checker the
/// same, and whatever it finds, both fail with the same exception or not at all.
pub proof fn creation_checks_as_type_check<H: Host>(
    code: Seq<char>,
    script_name: Seq<char>,
    input_names: Seq<String>,
    external_function_names: Seq<String>,
    stubs: Option<&str>,
    checked: Creation,
    plain: Creation,
    runner: Runner<H>,
    dc_registry: Arc<H::Registry>,
    program: PyMonty<H>,
    found: Result<Option<H::Diagnostic>, String>,
)
    requires
        checked.creates(code, script_name, input_names, external_function_names, true, stubs),
        plain.creates(code, script_name, input_names, external_function_names, false, stubs),
        runner.code@ == code,
        plain.spec_compile().finished(Ok(runner), Ok(dc_registry)) == Ok::<
            PyMonty<H>,
            ErrorView<H>,
        >(program),
    ensures
        plain is Compile,
        checked matches Creation::TypeCheck(unchecked) && {
            &&& unchecked.check@ == asked(program.runner.code@, program.script_name@, stubs)
            &&& unchecked.passed::<H>(found) is Ok <==> verdict::<H>(found) is Ok
            &&& unchecked.passed::<H>(found) is Err ==> unchecked.passed::<H>(found)->Err_0
                == verdict::<H>(found)->Err_0
        },
{
}

/// Type errors are reported by a type check only: neither reading the names
/// that a program declares nor finishing it reports any.
pub proof fn type_errors_come_from_type_checks<H: Host>(
    compile: Compile,
    runner: Result<Runner<H>, H::Exception>,
    dc_registry: Result<Arc<H::Registry>, H::Error>,
    arg: Option<&Vec<Result<String, String>>>,
    name: Seq<char>,
)
    ensures
        compile.finished(runner, dc_registry) matches Err(error) ==> !(error is Typing),
        declared::<H>(arg, name) matches Err(error) ==> error is TypeError,
{
}

/// A program can be saved if and only if its code can be encoded. One whose code
/// cannot be decoded, or behind whose code its plain fields cannot be read, is
/// refused with a `ValueError`, before the registry is looked at; an exception
/// from the registry is passed on.
pub proof fn program_is_saved_and_loaded_or_fails<H: Host>(
    program: PyMonty<H>,
    encoded: Encoded,
    runner: Runner<H>,
    behind: Seq<u8>,
    message: Seq<char>,
    dc_registry: Result<Arc<H::Registry>, H::Error>,
    result: Result<PyMonty<H>, PyError<H>>,
)
    ensures
        encoded is Ok <==> program.dumped(encoded) is Ok,
        encoded is Err ==> program.dumped(encoded)->Err_0 == ErrorView::<H>::ValueError(
            encoded->Err_0@,
        ),
        PyMonty::is_loaded(Err(message), dc_registry, result) ==> result is Err && result->Err_0@
            == ErrorView::<H>::ValueError(message),
        PyMonty::is_loaded(Ok((runner, behind)), dc_registry, result) ==> {
            let script = crate::codec::string_taken(behind);
            let inputs = crate::codec::strings_taken(script->Ok_0.1);
            let functions = crate::codec::strings_taken(inputs->Ok_0.1);
            if script is Err {
                result is Err && result->Err_0@ == ErrorView::<H>::ValueError(
                    crate::codec::fault_text(script->Err_0),
                )
            } else if inputs is Err {
                result is Err && result->Err_0@ == ErrorView::<H>::ValueError(
                    crate::codec::fault_text(inputs->Err_0),
                )
            } else if functions is Err {
                result is Err && result->Err_0@ == ErrorView::<H>::ValueError(
                    crate::codec::fault_text(functions->Err_0),
                )
            } else if dc_registry is Err {
                result is Err && result->Err_0@ == ErrorView::<H>::Raised(dc_registry->Err_0)
            } else {
                &&& result matches Ok(loaded)
                &&& loaded.runner == runner
                &&& loaded.script_name@ == script->Ok_0.0
                &&& crate::text::texts(loaded.input_names@) == inputs->Ok_0.0
                &&& crate::text::texts(loaded.external_function_names@) == functions->Ok_0.0
                &&& loaded.dc_registry == dc_registry->Ok_0
            }
        },
{
}

/// A list declares the names that it holds, in their order. Without a list
/// nothing is declared, and of the names that are no strings the first one
/// decides, with the label of the list in front of what is wrong with it.
pub proof fn lists_declare_their_names<H: Host>(
    items: &Vec<Result<String, String>>,
    at: int,
    name: Seq<char>,
)
    ensures
        declared::<H>(None, name) matches Ok(names) && names.len() == 0,
        (forall|i: int| 0 <= i < items@.len() ==> (#[trigger] items@[i]) is Ok) ==> {
            &&& declared::<H>(Some(items), name) matches Ok(names)
            &&& names.len() == items@.len()
            &&& forall|i: int|
                0 <= i < items@.len() ==> #[trigger] items@[i] == Ok::<String, String>(names[i])
        },
        0 <= at < items@.len() && items@[at] is Err && (forall|i: int|
            0 <= i < at ==> (#[trigger] items@[i]) is Ok) ==> declared::<H>(Some(items), name)
            == Err::<Seq<String>, ErrorView<H>>(
            ErrorView::TypeError(name + ": "@ + items@[at]->Err_0@),
        ),
{
    if forall|i: int| 0 <= i < items@.len() ==> (#[trigger] items@[i]) is Ok {
        crate::inputs::collected_in_order(items@);
        let names = items@.map_values(|item: Result<String, String>| item->Ok_0);
        assert forall|i: int| 0 <= i < items@.len() implies #[trigger] items@[i] == Ok::<
            String,
            String,
        >(names[i]) by {
            assert(items@[i] is Ok);
        }
    }
    if 0 <= at < items@.len() && items@[at] is Err && (forall|i: int|
        0 <= i < at ==> (#[trigger] items@[i]) is Ok) {
        crate::inputs::first_failure_decides(items@, at);
    }
}

/// The type checker is asked about the code under the name of its script, with
/// the declarations it relies on, if there are any, as a file of their own.
pub proof fn the_code_is_what_is_checked(
    code: Seq<char>,
    script_name: Seq<char>,
    type_stubs: &str,
    check: TypeCheck,
)
    ensures
        asked(code, script_name, None).source.source_code == code,
        asked(code, script_name, None).source.path == script_name,
        asked(code, script_name, None).stubs is None,
        asked(code, script_name, Some(type_stubs)).source == asked(code, script_name, None).source,
        asked(code, script_name, Some(type_stubs)).stubs matches Some(stubs) && stubs.source_code
            == type_stubs@ && stubs.path == "type_stubs.pyi"@,
        check@.source.source_code == check.source.source_code@,
        check@.source.path == check.source.path@,
        check@.stubs is Some <==> check.stubs is Some,
        check.stubs matches Some(stubs) ==> check@.stubs->Some_0.source_code == stubs.source_code@
            && check@.stubs->Some_0.path == stubs.path@,
{
}

/// A type check passes if and only if nothing was found. What was found, and a
/// failure of the type checker itself, end the creation of a program; a program
/// whose code has passed is compiled as it was to be.
pub proof fn type_checks_pass_or_fail<H: Host>(
    unchecked: Unchecked,
    diagnostic: H::Diagnostic,
    message: String,
)
    ensures
        verdict::<H>(Ok(None)) is Ok,
        verdict::<H>(Ok(Some(diagnostic))) == Err::<(), ErrorView<H>>(
            ErrorView::Typing(diagnostic),
        ),
        verdict::<H>(Err(message)) == Err::<(), ErrorView<H>>(ErrorView::RuntimeError(message@)),
        unchecked.passed::<H>(Ok(None)) == Ok::<Compile, ErrorView<H>>(unchecked.compile),
        unchecked.passed::<H>(Ok(Some(diagnostic))) == Err::<Compile, ErrorView<H>>(
            ErrorView::Typing(diagnostic),
        ),
        unchecked.passed::<H>(Err(message)) == Err::<Compile, ErrorView<H>>(
            ErrorView::RuntimeError(message@),
        ),
{
}

/// A program is created with what was declared for it: its code, its name, and
/// the names of its inputs and of its external functions, each as it was given.
/// A type check changes nothing of that: it is made if and only if it was asked
/// for, and the program behind it is the same.
pub proof fn created_as_declared(
    code: Seq<char>,
    script_name: Seq<char>,
    input_names: Seq<String>,
    external_function_names: Seq<String>,
    stubs: Option<&str>,
    other_stubs: Option<&str>,
    checked: Creation,
    plain: Creation,
)
    requires
        checked.creates(code, script_name, input_names, external_function_names, true, stubs),
        plain.creates(code, script_name, input_names, external_function_names, false, other_stubs),
    ensures
        checked matches Creation::TypeCheck(unchecked) && {
            &&& unchecked.compile.code@ == code
            &&& unchecked.compile.script_name@ == script_name
            &&& unchecked.compile.declaration.input_names@ == input_names
            &&& unchecked.compile.declaration.external_function_names@ == external_function_names
            &&& unchecked.check.source.source_code@ == code
            &&& unchecked.check.source.path@ == script_name
            &&& match (unchecked.check.stubs, stubs) {
                (Some(file), Some(stubs)) => file.source_code@ == stubs@ && file.path@
                    == "type_stubs.pyi"@,
                (None, None) => true,
                _ => false,
            }
        },
        plain matches Creation::Compile(compile) && {
            &&& compile.code@ == code
            &&& compile.script_name@ == script_name
            &&& compile.declaration.input_names@ == input_names
            &&& compile.declaration.external_function_names@ == external_function_names
        },
{
}

/// A program that is finished is the one that was to be compiled: it has the
/// compiled code and the registry that are given, and the name and the names
/// that were declared. An exception that compiling the code raised is reported
/// before one from the registry.
pub proof fn finished_as_declared<H: Host>(
    compile: Compile,
    runner: Runner<H>,
    dc_registry: Arc<H::Registry>,
    exception: H::Exception,
    error: H::Error,
    any_registry: Result<Arc<H::Registry>, H::Error>,
)
    ensures
        compile.finished(Ok(runner), Ok(dc_registry)) matches Ok(program) && {
            &&& program.runner == runner
            &&& program.script_name == compile.script_name
            &&& program.input_names == compile.declaration.input_names
            &&& program.external_function_names == compile.declaration.external_function_names
            &&& program.dc_registry == dc_registry
        },
        compile.finished(Err::<Runner<H>, H::Exception>(exception), any_registry) == Err::<
            PyMonty<H>,
            ErrorView<H>,
        >(ErrorView::Monty(exception)),
        compile.finished(Ok(runner), Err(error)) == Err::<PyMonty<H>, ErrorView<H>>(
            ErrorView::Raised(error),
        ),
{
}

/// The use of resources is limited if and only if limits are given, and then by
/// those.
pub proof fn limited_by_what_is_given<H: Host>(limits: H::Limits, error: H::Error)
    ensures
        tracked_by::<H>(None) == Ok::<Tracking<H>, ErrorView<H>>(Tracking::NoLimit),
        tracked_by::<H>(Some(Ok(limits))) == Ok::<Tracking<H>, ErrorView<H>>(
            Tracking::Limited(limits),
        ),
        tracked_by::<H>(Some(Err(error))) == Err::<Tracking<H>, ErrorView<H>>(
            ErrorView::Raised(error),
        ),
{
}

/// A program is started with what was given: its compiled code, the values of
/// its inputs, limits if and only if limits were given, and the print callback.
/// What follows inherits its name and its registry.
pub proof fn started_with_what_was_given<H: Host>(
    program: PyMonty<H>,
    input_values: Vec<MontyObject<H>>,
    limits: Option<Result<H::Limits, H::Error>>,
    print_callback: Option<Arc<H::Callback>>,
)
    ensures
        ({
            let readied = program.readied_start(input_values, limits, print_callback);
            match limits {
                Some(Err(error)) => readied is Err && readied->Err_0 == ErrorView::<H>::Raised(
                    error,
                ),
                _ => {
                    &&& readied matches Ok(start)
                    &&& *start.runner == program.runner
                    &&& start.input_values == input_values
                    &&& start.tracking == match limits {
                        Some(Ok(limits)) => Tracking::<H>::Limited(limits),
                        _ => Tracking::NoLimit,
                    }
                    &&& start.context.script_name == program.script_name
                    &&& start.context.print_callback == print_callback
                    &&& start.context.dc_registry == program.dc_registry
                },
            }
        }),
{
}

/// The printed form of a program tells how many lines its code has, in the
/// singular if and only if it is one, its name, and the names that it declares,
/// each list behind its label and left out if it is empty.
pub proof fn printed_form_tells_the_program<H: Host>(program: PyMonty<H>)
    ensures
        ({
            let lines = crate::text::line_count(program.runner.code@);
            let count = crate::text::decimal(lines);
            let head = "Monty(<"@ + count + " line"@ + if lines == 1 {
                ""@
            } else {
                "s"@
            } + " of code>, script_name='"@ + program.script_name@ + "'"@;
            let inputs = ", inputs="@ + crate::text::debug_text(
                crate::text::texts(program.input_names@),
            );
            let functions = ", external_functions="@ + crate::text::debug_text(
                crate::text::texts(program.external_function_names@),
            );
            match (
                program.input_names@.len() == 0,
                program.external_function_names@.len() == 0,
            ) {
                (true, true) => program.spec_repr() == head + ")"@,
                (false, true) => program.spec_repr() == head + inputs + ")"@,
                (true, false) => program.spec_repr() == head + functions + ")"@,
                (false, false) => program.spec_repr() == head + inputs + functions + ")"@,
            }
        }),
{
    let lines = crate::text::line_count(program.runner.code@);
    let count = crate::text::decimal(lines);
    let head = "Monty(<"@ + count + " line"@ + if lines == 1 {
        ""@
    } else {
        "s"@
    } + " of code>, script_name='"@ + program.script_name@ + "'"@;
    assert(head + seq![] =~= head);
    let inputs = head + labelled(", inputs="@, program.input_names@);
    assert(inputs + seq![] =~= inputs);
}

/// Asking for a type check changes nothing of the program that is created: with
/// it and without it, the program has the code and the name that were given, the
/// names that the first list holds as those of its inputs, and the names that
/// the second list holds as those of its external functions.
pub proof fn type_check_changes_no_program<H: Host>(
    code: Seq<char>,
    script_name: Seq<char>,
    inputs: Option<&Vec<Result<String, String>>>,
    external_functions: Option<&Vec<Result<String, String>>>,
    inputs_given: Seq<Result<String, String>>,
    functions_given: Seq<Result<String, String>>,
    stubs: Option<&str>,
    other_stubs: Option<&str>,
    checked: Result<Creation, PyError<H>>,
    plain: Result<Creation, PyError<H>>,
)
    requires
        inputs_given == match inputs {
            Some(items) => items@,
            None => seq![],
        },
        functions_given == match external_functions {
            Some(items) => items@,
            None => seq![],
        },
        PyMonty::is_created(
            code,
            script_name,
            inputs,
            external_functions,
            true,
            stubs,
            checked,
        ),
        PyMonty::is_created(
            code,
            script_name,
            inputs,
            external_functions,
            false,
            other_stubs,
            plain,
        ),
    ensures
        ({
            (forall|i: int| 0 <= i < inputs_given.len() ==> (#[trigger] inputs_given[i]) is Ok) && (
            forall|i: int|
                0 <= i < functions_given.len() ==> (#[trigger] functions_given[i]) is Ok) ==> {
                &&& checked matches Ok(Creation::TypeCheck(unchecked))
                &&& plain matches Ok(Creation::Compile(compile))
                &&& unchecked.compile.code@ == code
                &&& compile.code@ == code
                &&& unchecked.compile.script_name@ == script_name
                &&& compile.script_name@ == script_name
                &&& unchecked.compile.declaration.input_names@.len() == inputs_given.len()
                &&& forall|i: int|
                    0 <= i < inputs_given.len() ==> #[trigger] inputs_given[i] == Ok::<
                        String,
                        String,
                    >(unchecked.compile.declaration.input_names@[i])
                &&& unchecked.compile.declaration.external_function_names@.len()
                    == functions_given.len()
                &&& forall|i: int|
                    0 <= i < functions_given.len() ==> #[trigger] functions_given[i] == Ok::<
                        String,
                        String,
                    >(unchecked.compile.declaration.external_function_names@[i])
                &&& compile.declaration.input_names@.len() == inputs_given.len()
                &&& forall|i: int|
                    0 <= i < inputs_given.len() ==> #[trigger] inputs_given[i] == Ok::<
                        String,
                        String,
                    >(compile.declaration.input_names@[i])
                &&& compile.declaration.external_function_names@.len() == functions_given.len()
                &&& forall|i: int|
                    0 <= i < functions_given.len() ==> #[trigger] functions_given[i] == Ok::<
                        String,
                        String,
                    >(compile.declaration.external_function_names@[i])
            }
        }),
        checked is Err <==> plain is Err,
        checked is Err ==> checked->Err_0@ == plain->Err_0@,
{
    if inputs is Some {
        lists_declare_their_names::<H>(inputs->Some_0, 0, "inputs"@);
    }
    if external_functions is Some {
        lists_declare_their_names::<H>(external_functions->Some_0, 0, "external_functions"@);
    }
}

/// No program is created if a name is no string: the first such name among the
/// inputs is reported, or among the external functions if all inputs are right,
/// behind the argument that it stands in.
pub proof fn wrong_names_create_nothing<H: Host>(
    code: Seq<char>,
    script_name: Seq<char>,
    inputs: Option<&Vec<Result<String, String>>>,
    external_functions: Option<&Vec<Result<String, String>>>,
    type_check: bool,
    stubs: Option<&str>,
    at: int,
    result: Result<Creation, PyError<H>>,
)
    requires
        PyMonty::is_created(
            code,
            script_name,
            inputs,
            external_functions,
            type_check,
            stubs,
            result,
        ),
    ensures
        ({
            let wrong_input = match inputs {
                Some(items) => 0 <= at < items@.len() && items@[at] is Err && forall|i: int|
                    0 <= i < at ==> (#[trigger] items@[i]) is Ok,
                None => false,
            };
            wrong_input ==> result is Err && result->Err_0@ == ErrorView::<H>::TypeError(
                "inputs"@ + ": "@ + inputs->Some_0@[at]->Err_0@,
            )
        }),
        ({
            let inputs_are_right = match inputs {
                Some(items) => forall|i: int|
                    0 <= i < items@.len() ==> (#[trigger] items@[i]) is Ok,
                None => true,
            };
            let wrong_function = match external_functions {
                Some(items) => 0 <= at < items@.len() && items@[at] is Err && forall|i: int|
                    0 <= i < at ==> (#[trigger] items@[i]) is Ok,
                None => false,
            };
            inputs_are_right && wrong_function ==> result is Err && result->Err_0@ == ErrorView::<
                H,
            >::TypeError("external_functions"@ + ": "@ + external_functions->Some_0@[at]->Err_0@)
        }),
{
    if inputs is Some {
        lists_declare_their_names::<H>(inputs->Some_0, at, "inputs"@);
    }
    if external_functions is Some {
        lists_declare_their_names::<H>(external_functions->Some_0, at, "external_functions"@);
    }
}

} // verus!
