//! Declared names, and the values that the embedder gives for them.
use vstd::prelude::*;
use vstd::string::*;

use crate::host::{ErrorView, Host, PyError};
use crate::object::MontyObject;
use crate::text::debug_names;

verus! {

/// The values of `items`, or the first failure among them.
pub open spec fn collected<T, E>(items: Seq<Result<T, E>>) -> Result<Seq<T>, E>
    decreases items.len(),
{
    if items.len() == 0 {
        Ok(seq![])
    } else {
        match (collected(items.drop_last()), items.last()) {
            (Ok(values), Ok(value)) => Ok(values.push(value)),
            (Ok(_), Err(error)) => Err(error),
            (Err(error), _) => Err(error),
        }
    }
}

/// Items of which none fails are collected as they are, in their order.
pub proof fn collected_in_order<T, E>(items: Seq<Result<T, E>>)
    requires
        forall|i: int| 0 <= i < items.len() ==> (#[trigger] items[i]) is Ok,
    ensures
        collected(items) == Ok::<Seq<T>, E>(items.map_values(|item: Result<T, E>| item->Ok_0)),
    decreases items.len(),
{
    if items.len() == 0 {
        assert(items.map_values(|item: Result<T, E>| item->Ok_0) =~= seq![]);
    } else {
        assert forall|i: int| 0 <= i < items.drop_last().len() implies (
        #[trigger] items.drop_last()[i]) is Ok by {
            assert(items[i] is Ok);
        }
        collected_in_order(items.drop_last());
        assert(items.last() is Ok);
        assert(items.drop_last().map_values(|item: Result<T, E>| item->Ok_0).push(
            items.last()->Ok_0,
        ) =~= items.map_values(|item: Result<T, E>| item->Ok_0));
    }
}

/// The first item that fails decides, whatever stands behind it.
pub proof fn first_failure_decides<T, E>(items: Seq<Result<T, E>>, at: int)
    requires
        0 <= at < items.len(),
        items[at] is Err,
        forall|i: int| 0 <= i < at ==> (#[trigger] items[i]) is Ok,
    ensures
        collected(items) == Err::<Seq<T>, E>(items[at]->Err_0),
    decreases items.len(),
{
    let before = items.drop_last();
    if at < before.len() {
        assert forall|i: int| 0 <= i < at implies (#[trigger] before[i]) is Ok by {
            assert(items[i] is Ok);
        }
        first_failure_decides(before, at);
    } else {
        assert forall|i: int| 0 <= i < before.len() implies (#[trigger] before[i]) is Ok by {
            assert(items[i] is Ok);
        }
        collected_in_order(before);
    }
}

/// Reads a list of names, each of which is a string or the text of the
/// exception that reading it raised. An absent list is empty.
///
/// `TypeError` with the first such exception behind `name`.
pub fn list_str<H: Host>(arg: Option<&Vec<Result<String, String>>>, name: &str) -> (result: Result<
    Vec<String>,
    PyError<H>,
>)
    ensures
        match arg {
            Some(items) => match collected(items@) {
                Ok(names) => result matches Ok(listed) && listed@ == names,
                Err(error) => crate::host::fails(
                    result,
                    ErrorView::TypeError(name@ + ": "@ + error@),
                ),
            },
            None => result matches Ok(listed) && listed@ == Seq::<String>::empty(),
        },
{
    let mut listed: Vec<String> = Vec::new();
    let items = match arg {
        Some(items) => items,
        None => return Ok(listed),
    };
    let mut i: usize = 0;
    assert(items@.take(0) =~= Seq::<Result<String, String>>::empty());
    while i < items.len()
        invariant
            arg == Some(items),
            i <= items.len(),
            collected(items@.take(i as int)) == Ok::<Seq<String>, String>(listed@),
        decreases items.len() - i,
    {
        assert(items@.take(i + 1).drop_last() =~= items@.take(i as int));
        match &items[i] {
            Ok(item) => listed.push(item.clone()),
            Err(error) => {
                proof {
                    lemma_failure_stays(items@, i + 1);
                }
                let mut message: String = name.to_owned();
                message.append(": ");
                message.append(error.as_str());
                return Err(PyError::TypeError(message));
            },
        }
        i = i + 1;
    }
    assert(items@.take(items@.len() as int) =~= items@);
    Ok(listed)
}

/// A failure among the first `n` items is that of all of them.
proof fn lemma_failure_stays<T, E>(items: Seq<Result<T, E>>, n: int)
    requires
        0 <= n <= items.len(),
        collected(items.take(n)) is Err,
    ensures
        collected(items) == collected(items.take(n)),
    decreases items.len(),
{
    if n == items.len() {
        assert(items.take(n) =~= items);
    } else {
        assert(items.drop_last().take(n) =~= items.take(n));
        lemma_failure_stays(items.drop_last(), n);
    }
}

/// What the dictionary of inputs holds under a name.
pub enum Lookup<H: Host> {
    /// Looking the name up raised.
    Raised(H::Error),
    /// The name is missing.
    Missing,
    /// The value as an object, unless converting it raised.
    Found(Result<MontyObject<H>, H::Error>),
}

/// The value of the input `name`, or why there is none.
pub open spec fn input_value<H: Host>(name: Seq<char>, lookup: Lookup<H>) -> Result<
    MontyObject<H>,
    ErrorView<H>,
> {
    match lookup {
        Lookup::Raised(error) => Err(ErrorView::Raised(error)),
        Lookup::Missing => Err(ErrorView::KeyError("Missing required input: '"@ + name + "'"@)),
        Lookup::Found(Ok(value)) => Ok(value),
        Lookup::Found(Err(error)) => Err(ErrorView::Raised(error)),
    }
}

/// The values of the inputs `names`, where `lookups` holds what is found under
/// each.
pub open spec fn input_values<H: Host>(names: Seq<String>, lookups: Seq<Lookup<H>>) -> Result<
    Seq<MontyObject<H>>,
    ErrorView<H>,
> {
    collected(lookups.map(|i: int, lookup: Lookup<H>| input_value(names[i]@, lookup)))
}

/// What is wrong with a dictionary of inputs as a whole: it is there and no
/// input is declared, or the other way round.
pub open spec fn inputs_error<H: Host>(names: Seq<String>, given: bool) -> Option<ErrorView<H>> {
    if names.len() == 0 && given {
        Some(ErrorView::TypeError("No input variables declared but inputs dict was provided"@))
    } else if names.len() > 0 && !given {
        Some(
            ErrorView::TypeError(
                "Missing required inputs: "@ + crate::text::debug_text(crate::text::texts(names)),
            ),
        )
    } else {
        None
    }
}

/// The extraction of input values at a name that is to be looked up: the
/// declared names, and the values of those before it.
pub struct NameLookup<'a, H: Host> {
    pub names: &'a Vec<String>,
    pub values: Vec<MontyObject<H>>,
    /// What was found under the names before it.
    pub lookups: Ghost<Seq<Lookup<H>>>,
}

/// The extraction of input values after any number of names.
pub enum Extraction<'a, H: Host> {
    /// A name is to be looked up.
    Lookup(NameLookup<'a, H>),
    /// All values are there, in the order in which the names were declared.
    Ready(Vec<MontyObject<H>>),
}

impl<'a, H: Host> Extraction<'a, H> {
    /// Whether the extraction for `names` stands behind those under which
    /// `lookups` was found: it holds their values, and is ready once there is
    /// no name left.
    pub open spec fn stands(self, names: Seq<String>, lookups: Seq<Lookup<H>>) -> bool {
        match self {
            Extraction::Lookup(lookup) => lookup.wf() && lookup.names@ == names && lookup.lookups@
                == lookups,
            Extraction::Ready(values) => lookups.len() == names.len() && input_values(
                names,
                lookups,
            ) == Ok::<Seq<MontyObject<H>>, ErrorView<H>>(values@),
        }
    }

    /// Starts the extraction, given whether there is a dictionary of inputs.
    ///
    /// `TypeError` if there is one and no input is declared, or if there is
    /// none and inputs are declared.
    pub fn begin(names: &'a Vec<String>, given: bool) -> (result: Result<Self, PyError<H>>)
        ensures
            match inputs_error::<H>(names@, given) {
                Some(error) => crate::host::fails(result, error),
                None => result matches Ok(extraction) && extraction.stands(names@, seq![]),
            },
    {
        proof {
            no_input_values::<H>(names@);
        }
        if names.len() == 0 {
            if given {
                return Err(
                    PyError::TypeError(
                        "No input variables declared but inputs dict was provided".to_owned(),
                    ),
                );
            }
            return Ok(Extraction::Ready(Vec::new()));
        }
        if !given {
            let mut message: String = "Missing required inputs: ".to_owned();
            message.append(debug_names(names).as_str());
            return Err(PyError::TypeError(message));
        }
        let lookups = Ghost(Seq::empty());
        Ok(Extraction::Lookup(NameLookup { names, values: Vec::new(), lookups }))
    }
}

impl<'a, H: Host> NameLookup<'a, H> {
    /// Whether the values are those of the names before this one.
    pub open spec fn wf(self) -> bool {
        &&& self.values@.len() == self.lookups@.len() < self.names@.len()
        &&& input_values(self.names@, self.lookups@) == Ok::<
            Seq<MontyObject<H>>,
            ErrorView<H>,
        >(self.values@)
    }

    /// The name that is to be looked up.
    pub fn name(&self) -> (name: &String)
        requires
            self.wf(),
        ensures
            *name == self.names@[self.lookups@.len() as int],
    {
        &self.names[self.values.len()]
    }

    /// Goes on with what was found under the name.
    ///
    /// `KeyError` if the name is missing; an exception that looking it up or
    /// converting its value raised is passed on.
    pub fn supply(self, lookup: Lookup<H>) -> (result: Result<Extraction<'a, H>, PyError<H>>)
        requires
            self.wf(),
        ensures
            match input_values(self.names@, self.lookups@.push(lookup)) {
                Ok(_) => result matches Ok(extraction) && extraction.stands(
                    self.names@,
                    self.lookups@.push(lookup),
                ),
                Err(error) => crate::host::fails(result, error),
            },
    {
        let ghost found = self.lookups@.push(lookup);
        proof {
            input_values_grow(self.names@, found);
            assert(found.drop_last() =~= self.lookups@);
        }
        let value = match lookup {
            Lookup::Raised(error) => return Err(PyError::Raised(error)),
            Lookup::Missing => {
                let mut message: String = "Missing required input: '".to_owned();
                message.append(self.name().as_str());
                message.append("'");
                return Err(PyError::KeyError(message));
            },
            Lookup::Found(Ok(value)) => value,
            Lookup::Found(Err(error)) => return Err(PyError::Raised(error)),
        };
        let mut values = self.values;
        values.push(value);
        if values.len() < self.names.len() {
            Ok(Extraction::Lookup(NameLookup { names: self.names, values, lookups: Ghost(found) }))
        } else {
            Ok(Extraction::Ready(values))
        }
    }
}

/// No look-ups give no values.
proof fn no_input_values<H: Host>(names: Seq<String>)
    ensures
        input_values::<H>(names, seq![]) == Ok::<Seq<MontyObject<H>>, ErrorView<H>>(seq![]),
{
    let lookups: Seq<Lookup<H>> = seq![];
    assert(lookups.map(|i: int, lookup: Lookup<H>| input_value(names[i]@, lookup)) =~= seq![]);
}

/// Looking up one more name goes on from the values before it: the values of
/// all lookups are those of all but the last one with that of the last one
/// behind them, and a failure of the last one counts only if none went before.
pub proof fn input_values_grow<H: Host>(names: Seq<String>, lookups: Seq<Lookup<H>>)
    requires
        lookups.len() > 0,
    ensures
        input_values(names, lookups) == match (
            input_values(names, lookups.drop_last()),
            input_value(names[lookups.len() - 1]@, lookups.last()),
        ) {
            (Ok(values), Ok(value)) => Ok::<Seq<MontyObject<H>>, ErrorView<H>>(values.push(value)),
            (Ok(_), Err(error)) => Err(error),
            (Err(error), _) => Err(error),
        },
{
    let items = lookups.map(|i: int, lookup: Lookup<H>| input_value(names[i]@, lookup));
    assert(items.drop_last() =~= lookups.drop_last().map(
        |i: int, lookup: Lookup<H>| input_value(names[i]@, lookup),
    ));
}

/// Where every name that was looked up is found, the values come in the order in
/// which the names were declared: value `i` is what was found under name `i`.
pub proof fn inputs_in_declaration_order<H: Host>(
    names: Seq<String>,
    lookups: Seq<Lookup<H>>,
    values: Seq<MontyObject<H>>,
)
    requires
        lookups.len() <= names.len(),
        values.len() == lookups.len(),
        forall|i: int|
            0 <= i < lookups.len() ==> #[trigger] lookups[i] == Lookup::<H>::Found(Ok(values[i])),
    ensures
        input_values(names, lookups) == Ok::<Seq<MontyObject<H>>, ErrorView<H>>(values),
{
    let items = lookups.map(|i: int, lookup: Lookup<H>| input_value(names[i]@, lookup));
    assert forall|i: int| 0 <= i < items.len() implies (#[trigger] items[i]) is Ok by {
        assert(lookups[i] == Lookup::<H>::Found(Ok(values[i])));
    }
    collected_in_order(items);
    let found = items.map_values(|item: Result<MontyObject<H>, ErrorView<H>>| item->Ok_0);
    assert forall|i: int| 0 <= i < values.len() implies found[i] == values[i] by {
        assert(lookups[i] == Lookup::<H>::Found(Ok(values[i])));
    }
    assert(found =~= values);
}

/// The first declared name that is missing decides, whatever is found under
/// the names behind it.
pub proof fn first_missing_input_decides<H: Host>(
    names: Seq<String>,
    lookups: Seq<Lookup<H>>,
    at: int,
)
    requires
        lookups.len() <= names.len(),
        0 <= at < lookups.len(),
        lookups[at] is Missing,
        forall|i: int| 0 <= i < at ==> (#[trigger] lookups[i]) matches Lookup::Found(Ok(_)),
    ensures
        input_values(names, lookups) == Err::<Seq<MontyObject<H>>, ErrorView<H>>(
            ErrorView::KeyError("Missing required input: '"@ + names[at]@ + "'"@),
        ),
{
    let items = lookups.map(|i: int, lookup: Lookup<H>| input_value(names[i]@, lookup));
    assert forall|i: int| 0 <= i < at implies (#[trigger] items[i]) is Ok by {
        assert(lookups[i] matches Lookup::Found(Ok(_)));
    }
    first_failure_decides(items, at);
}

/// The first name whose look-up raised, or whose value could not be converted,
/// decides with that exception, whatever is found under the names behind it.
pub proof fn first_raised_input_decides<H: Host>(
    names: Seq<String>,
    lookups: Seq<Lookup<H>>,
    at: int,
    error: H::Error,
)
    requires
        lookups.len() <= names.len(),
        0 <= at < lookups.len(),
        lookups[at] == Lookup::<H>::Raised(error) || lookups[at] == Lookup::<H>::Found(Err(error)),
        forall|i: int| 0 <= i < at ==> (#[trigger] lookups[i]) matches Lookup::Found(Ok(_)),
    ensures
        input_values(names, lookups) == Err::<Seq<MontyObject<H>>, ErrorView<H>>(
            ErrorView::Raised(error),
        ),
{
    let items = lookups.map(|i: int, lookup: Lookup<H>| input_value(names[i]@, lookup));
    assert forall|i: int| 0 <= i < at implies (#[trigger] items[i]) is Ok by {
        assert(lookups[i] matches Lookup::Found(Ok(_)));
    }
    first_failure_decides(items, at);
}

/// The value of an input is what was found under its name.
pub proof fn found_value_is_the_input<H: Host>(
    name: Seq<char>,
    value: MontyObject<H>,
    error: H::Error,
)
    ensures
        input_value(name, Lookup::<H>::Found(Ok(value))) == Ok::<MontyObject<H>, ErrorView<H>>(
            value,
        ),
        input_value(name, Lookup::<H>::Found(Err(error))) == Err::<MontyObject<H>, ErrorView<H>>(
            ErrorView::Raised(error),
        ),
        input_value(name, Lookup::<H>::Raised(error)) == Err::<MontyObject<H>, ErrorView<H>>(
            ErrorView::Raised(error),
        ),
        input_value(name, Lookup::<H>::Missing) == Err::<MontyObject<H>, ErrorView<H>>(
            ErrorView::KeyError("Missing required input: '"@ + name + "'"@),
        ),
{
}

/// A dictionary of inputs is given if and only if inputs are declared; else
/// what is missing or too much is reported.
pub proof fn inputs_are_given_where_declared<H: Host>(names: Seq<String>)
    ensures
        names.len() == 0 ==> inputs_error::<H>(names, false) is None,
        names.len() == 0 ==> inputs_error::<H>(names, true) == Some(
            ErrorView::<H>::TypeError(
                "No input variables declared but inputs dict was provided"@,
            ),
        ),
        names.len() > 0 ==> inputs_error::<H>(names, true) is None,
        names.len() > 0 ==> inputs_error::<H>(names, false) == Some(
            ErrorView::<H>::TypeError(
                "Missing required inputs: "@ + crate::text::debug_text(
                    names.map_values(|name: String| name@),
                ),
            ),
        ),
{
}

/// Items that are collected are those that none failed of, one for one.
proof fn lemma_collected_one_for_one<T, E>(items: Seq<Result<T, E>>, values: Seq<T>)
    requires
        collected(items) == Ok::<Seq<T>, E>(values),
    ensures
        values.len() == items.len(),
        forall|i: int| 0 <= i < items.len() ==> #[trigger] items[i] == Ok::<T, E>(values[i]),
    decreases items.len(),
{
    if items.len() > 0 {
        let before = collected(items.drop_last())->Ok_0;
        lemma_collected_one_for_one(items.drop_last(), before);
        assert forall|i: int| 0 <= i < items.len() implies #[trigger] items[i] == Ok::<T, E>(
            values[i],
        ) by {
            if i < items.len() - 1 {
                assert(items.drop_last()[i] == items[i]);
            }
        }
    }
}

/// Values are extracted of the look-ups that found them, one for one: whatever
/// was looked up under a name is the value of that name.
pub proof fn values_are_what_was_found<H: Host>(
    names: Seq<String>,
    lookups: Seq<Lookup<H>>,
    values: Seq<MontyObject<H>>,
)
    requires
        input_values(names, lookups) == Ok::<Seq<MontyObject<H>>, ErrorView<H>>(values),
    ensures
        values.len() == lookups.len(),
        forall|i: int|
            0 <= i < lookups.len() ==> #[trigger] lookups[i] == Lookup::<H>::Found(Ok(values[i])),
{
    let items = lookups.map(|i: int, lookup: Lookup<H>| input_value(names[i]@, lookup));
    lemma_collected_one_for_one(items, values);
    assert forall|i: int| 0 <= i < lookups.len() implies #[trigger] lookups[i] == Lookup::<
        H,
    >::Found(Ok(values[i])) by {
        assert(items[i] == Ok::<MontyObject<H>, ErrorView<H>>(values[i]));
    }
}

/// An extraction is ready if and only if every declared name was looked up, and
/// then it holds for each name the value that was found under it. Until then
/// it holds those of the names that were looked up, and the next one is to be
/// looked up.
pub proof fn extraction_holds_what_was_found<H: Host>(
    extraction: Extraction<'_, H>,
    names: Seq<String>,
    lookups: Seq<Lookup<H>>,
)
    requires
        extraction.stands(names, lookups),
    ensures
        extraction is Ready <==> lookups.len() == names.len(),
        match extraction {
            Extraction::Ready(values) => {
                &&& values@.len() == names.len()
                &&& forall|i: int|
                    0 <= i < names.len() ==> #[trigger] lookups[i] == Lookup::<H>::Found(
                        Ok(values@[i]),
                    )
            },
            Extraction::Lookup(lookup) => {
                &&& lookup.wf()
                &&& lookup.names@ == names
                &&& lookup.lookups@ == lookups
                &&& lookup.values@.len() == lookups.len() < names.len()
                &&& forall|i: int|
                    0 <= i < lookups.len() ==> #[trigger] lookups[i] == Lookup::<H>::Found(
                        Ok(lookup.values@[i]),
                    )
            },
        },
{
    match extraction {
        Extraction::Ready(values) => values_are_what_was_found(names, lookups, values@),
        Extraction::Lookup(lookup) => values_are_what_was_found(names, lookups, lookup.values@),
    }
}

} // verus!
