use crate::devii::{
    first_under, position_of, removal_keeps_other_aliases, DeviiQueryResult, DeviiTrait,
};
use crate::error::{DeviiError, ErrorModel};
use crate::text::{decimal_text, decimal_text_reads_back, join, join_strings, u64_to_decimal};
use crate::value::{fields_model, items_model, keys_distinct, JsonModel, JsonValue};
use vstd::prelude::*;
use vstd::string::StringExecFns;

verus! {

/// What one record contributes to a batch: the name of its input type and
/// its mutation fragment.
pub struct BatchPart {
    pub input_type: String,
    pub insert_query: String,
}

/// The mathematical content of a `BatchPart`.
pub struct BatchPartModel {
    pub input_type: Seq<char>,
    pub insert_query: Seq<char>,
}

impl View for BatchPart {
    type V = BatchPartModel;

    open spec fn view(&self) -> BatchPartModel {
        BatchPartModel { input_type: self.input_type@, insert_query: self.insert_query@ }
    }
}

/// The content of the parts of a batch, in order.
pub open spec fn parts_model(parts: Seq<BatchPart>) -> Seq<BatchPartModel> {
    Seq::new(parts.len(), |i: int| parts[i]@)
}

/// The name of the variable that carries the record at `position`.
pub open spec fn batch_variable_text(position: nat) -> Seq<char> {
    "input_"@ + decimal_text(position)
}

/// The alias under which the record at `position` is inserted.
pub open spec fn batch_alias_text(position: nat) -> Seq<char> {
    "insert_"@ + decimal_text(position)
}

/// The declaration of the variable of the record at `position`.
pub open spec fn batch_declaration_text(position: nat, input_type: Seq<char>) -> Seq<char> {
    "$"@ + batch_variable_text(position) + ": "@ + input_type
}

/// The aliased field that inserts the record at `position`.
pub open spec fn batch_field_text(position: nat, insert_query: Seq<char>) -> Seq<char> {
    batch_alias_text(position) + ": "@ + insert_query
}

/// The variable declarations of a batch, in the order of its parts.
pub open spec fn batch_declarations(parts: Seq<BatchPartModel>) -> Seq<Seq<char>> {
    Seq::new(parts.len(), |i: int| batch_declaration_text(i as nat, parts[i].input_type))
}

/// The aliased fields of a batch, in the order of its parts.
pub open spec fn batch_fields(parts: Seq<BatchPartModel>) -> Seq<Seq<char>> {
    Seq::new(parts.len(), |i: int| batch_field_text(i as nat, parts[i].insert_query))
}

/// The one mutation that inserts all the records of a batch: the
/// declarations comma-joined in its header, the aliased fields comma-joined
/// in its body.
pub open spec fn batch_query_text(parts: Seq<BatchPartModel>) -> Seq<char> {
    "mutation insert("@ + join(batch_declarations(parts), ","@) + "){ "@ + join(
        batch_fields(parts),
        ","@,
    ) + " }"@
}

/// The variables of a batch: each record's input under the name of its
/// variable, in the order of the records.
pub open spec fn batch_payload_model(inputs: Seq<JsonModel>) -> Seq<(Seq<char>, JsonModel)> {
    Seq::new(inputs.len(), |i: int| (batch_variable_text(i as nat), inputs[i]))
}

/// Names the variable that carries the record at `position`.
pub fn batch_variable_name(position: usize) -> (r: String)
    ensures
        r@ == batch_variable_text(position as nat),
{
    let number = u64_to_decimal(position as u64);
    let mut out = String::from_str("input_");
    out.append(number.as_str());
    out
}

/// Names the alias under which the record at `position` is inserted, and
/// under which the response answers for it.
pub fn batch_alias(position: usize) -> (r: String)
    ensures
        r@ == batch_alias_text(position as nat),
{
    let number = u64_to_decimal(position as u64);
    let mut out = String::from_str("insert_");
    out.append(number.as_str());
    out
}

/// Writes the mutation that inserts the records whose contributions are
/// `parts`, in their order.
pub fn batch_query_string(parts: &Vec<BatchPart>) -> (r: String)
    ensures
        r@ == batch_query_text(parts_model(parts@)),
{
    let ghost model = parts_model(parts@);
    let mut declarations: Vec<String> = Vec::new();
    let mut fields: Vec<String> = Vec::new();
    let mut i: usize = 0;
    while i < parts.len()
        invariant
            i <= parts.len(),
            model == parts_model(parts@),
            declarations@.len() == i,
            fields@.len() == i,
            forall|j: int|
                0 <= j < i ==> (#[trigger] declarations@[j])@ == batch_declaration_text(
                    j as nat,
                    model[j].input_type,
                ),
            forall|j: int|
                0 <= j < i ==> (#[trigger] fields@[j])@ == batch_field_text(
                    j as nat,
                    model[j].insert_query,
                ),
        decreases parts.len() - i,
    {
        let variable = batch_variable_name(i);
        let mut declaration = String::from_str("$");
        declaration.append(variable.as_str());
        declaration.append(": ");
        declaration.append(parts[i].input_type.as_str());
        declarations.push(declaration);
        let mut field = batch_alias(i);
        field.append(": ");
        field.append(parts[i].insert_query.as_str());
        fields.push(field);
        i = i + 1;
    }
    let header = join_strings(&declarations, ",");
    let body = join_strings(&fields, ",");
    proof {
        assert(declarations@.map_values(|part: String| part@) == batch_declarations(model));
        assert(fields@.map_values(|part: String| part@) == batch_fields(model));
    }
    let mut out = String::from_str("mutation insert(");
    out.append(header.as_str());
    out.append("){ ");
    out.append(body.as_str());
    out.append(" }");
    out
}

/// Files each record's input under the name of its variable.
pub fn batch_payload(inputs: Vec<JsonValue>) -> (r: Vec<(String, JsonValue)>)
    ensures
        fields_model(r@) == batch_payload_model(items_model(inputs@)),
{
    let ghost all = items_model(inputs@);
    let mut entries: Vec<(String, JsonValue)> = Vec::new();
    for input in it: inputs
        invariant
            all == items_model(inputs@),
            entries@.len() == it.index(),
            forall|j: int|
                0 <= j < entries@.len() ==> (#[trigger] entries@[j]).0@ == batch_variable_text(
                    j as nat,
                ) && entries@[j].1@ == all[j],
    {
        let key = batch_variable_name(entries.len());
        entries.push((key, input));
    }
    proof {
        assert(fields_model(entries@) == batch_payload_model(all));
    }
    entries
}

/// Tells whether `part` is what `record` supplies at `position`: the input
/// type that it names, and the fragment that it gives when it is asked with
/// the variable of that position.
pub open spec fn supplies_part<T: DeviiTrait>(
    record: &T,
    position: nat,
    part: BatchPartModel,
) -> bool {
    &&& exists|input_type: String| #[trigger]
        call_ensures(T::input_type, (record,), input_type) && input_type@ == part.input_type
    &&& exists|param: String, insert_query: String| #[trigger]
        call_ensures(T::insert_query, (record, param), insert_query) && param@
            == batch_variable_text(position) && insert_query@ == part.insert_query
}

/// Tells whether `inputs` is the content of what `record` gives as its
/// input.
pub open spec fn supplies_inputs<T: DeviiTrait>(record: &T, inputs: JsonModel) -> bool {
    exists|value: JsonValue| #[trigger]
        call_ensures(T::graphql_inputs, (record,), value) && value@ == inputs
}

/// Asks each of `objects` for its input type and, with the variable of its
/// position, for its fragment.
pub fn collect_parts<T: DeviiTrait>(objects: &Vec<&T>) -> (r: Vec<BatchPart>)
    ensures
        r@.len() == objects@.len(),
        forall|i: int|
            0 <= i < objects@.len() ==> supplies_part(
                objects@[i],
                i as nat,
                (#[trigger] r@[i])@,
            ),
{
    let mut parts: Vec<BatchPart> = Vec::new();
    let mut i: usize = 0;
    while i < objects.len()
        invariant
            i <= objects.len(),
            parts@.len() == i,
            forall|j: int|
                0 <= j < i ==> supplies_part(objects@[j], j as nat, (#[trigger] parts@[j])@),
        decreases objects.len() - i,
    {
        let record: &T = objects[i];
        let input_type = record.input_type();
        let param = batch_variable_name(i);
        let ghost asked = param;
        let insert_query = record.insert_query(param);
        let part = BatchPart { input_type, insert_query };
        proof {
            assert(call_ensures(T::input_type, (record,), part.input_type));
            assert(call_ensures(T::insert_query, (record, asked), part.insert_query));
            assert(supplies_part(record, i as nat, part@));
        }
        parts.push(part);
        i = i + 1;
    }
    parts
}

/// Asks each of `objects` for its input.
pub fn collect_inputs<T: DeviiTrait>(objects: &Vec<&T>) -> (r: Vec<JsonValue>)
    ensures
        r@.len() == objects@.len(),
        forall|i: int|
            0 <= i < objects@.len() ==> supplies_inputs(objects@[i], (#[trigger] r@[i])@),
{
    let mut inputs: Vec<JsonValue> = Vec::new();
    let mut i: usize = 0;
    while i < objects.len()
        invariant
            i <= objects.len(),
            inputs@.len() == i,
            forall|j: int| 0 <= j < i ==> supplies_inputs(objects@[j], (#[trigger] inputs@[j])@),
        decreases objects.len() - i,
    {
        let record: &T = objects[i];
        let value = record.graphql_inputs();
        proof {
            assert(call_ensures(T::graphql_inputs, (record,), value));
            assert(supplies_inputs(record, value@));
        }
        inputs.push(value);
        i = i + 1;
    }
    inputs
}

/// Writes the mutation that inserts `objects` in their order, each under its
/// own alias, with the input type that it names and the fragment that it
/// gives for the variable of its position.
pub fn get_query_string_from_vec<T: DeviiTrait>(objects: &Vec<&T>) -> (r: String)
    ensures
        exists|parts: Seq<BatchPartModel>|
            parts.len() == objects@.len() && r@ == #[trigger] batch_query_text(parts) && forall|
                i: int,
            |
                0 <= i < objects@.len() ==> supplies_part(
                    objects@[i],
                    i as nat,
                    #[trigger] parts[i],
                ),
{
    let parts = collect_parts(objects);
    let out = batch_query_string(&parts);
    proof {
        let model = parts_model(parts@);
        assert forall|i: int| 0 <= i < objects@.len() implies supplies_part(
            objects@[i],
            i as nat,
            #[trigger] model[i],
        ) by {
            assert(model[i] == parts@[i]@);
        }
        assert(model.len() == objects@.len() && out@ == batch_query_text(model));
    }
    out
}

/// A batch of inserts: one mutation, and its variables.
pub struct BatchInsert {
    pub query: String,
    pub variables: Vec<(String, JsonValue)>,
}

/// Builds the batch that inserts `objects` in their order: the mutation,
/// and what each record gives as its input under the name of its variable.
pub fn build_batch_insert<T: DeviiTrait>(objects: &Vec<&T>) -> (r: BatchInsert)
    ensures
        exists|parts: Seq<BatchPartModel>|
            parts.len() == objects@.len() && r.query@ == #[trigger] batch_query_text(parts)
                && forall|i: int|
                0 <= i < objects@.len() ==> supplies_part(
                    objects@[i],
                    i as nat,
                    #[trigger] parts[i],
                ),
        exists|inputs: Seq<JsonModel>|
            inputs.len() == objects@.len() && fields_model(r.variables@)
                == #[trigger] batch_payload_model(inputs) && forall|i: int|
                0 <= i < objects@.len() ==> supplies_inputs(objects@[i], #[trigger] inputs[i]),
{
    let query = get_query_string_from_vec(objects);
    let inputs = collect_inputs(objects);
    let ghost given = items_model(inputs@);
    proof {
        assert forall|i: int| 0 <= i < objects@.len() implies supplies_inputs(
            objects@[i],
            #[trigger] given[i],
        ) by {
            assert(given[i] == inputs@[i]@);
        }
    }
    let variables = batch_payload(inputs);
    proof {
        assert(given.len() == objects@.len() && fields_model(variables@) == batch_payload_model(
            given,
        ));
    }
    BatchInsert { query, variables }
}

/// Records at different positions have different variables and different
/// aliases.
pub proof fn batch_names_are_distinct(first: nat, second: nat)
    requires
        first != second,
    ensures
        batch_variable_text(first) != batch_variable_text(second),
        batch_alias_text(first) != batch_alias_text(second),
{
    decimal_text_reads_back(first);
    decimal_text_reads_back(second);
    let a = decimal_text(first);
    let b = decimal_text(second);
    assert(a != b);
    assert(("input_"@ + a).skip("input_"@.len() as int) == a);
    assert(("input_"@ + b).skip("input_"@.len() as int) == b);
    assert(("insert_"@ + a).skip("insert_"@.len() as int) == a);
    assert(("insert_"@ + b).skip("insert_"@.len() as int) == b);
}

/// The variables of a batch are a mapping: no name stands in them twice.
pub proof fn batch_payload_keys_are_distinct(inputs: Seq<JsonModel>)
    ensures
        keys_distinct(batch_payload_model(inputs)),
{
    let payload = batch_payload_model(inputs);
    assert forall|i: int, j: int| 0 <= i < j < payload.len() implies payload[i].0
        != payload[j].0 by {
        batch_names_are_distinct(i as nat, j as nat);
    }
}

/// Tells whether `alias` is the alias of a position before `position`.
pub open spec fn is_earlier_alias(alias: Seq<char>, position: nat) -> bool {
    exists|k: nat| k < position && alias == #[trigger] batch_alias_text(k)
}

/// Takes the results of a batch of `count` inserts from the answer to it,
/// one for each position and in the order of the positions. An answer that
/// lacks an alias is a failure that names the first alias it lacks.
pub fn batch_inserted<T>(result: DeviiQueryResult<T>, count: usize) -> (r: Result<
    Vec<T>,
    DeviiError,
>)
    ensures
        match r {
            Ok(results) => results@.len() == count && forall|i: int|
                0 <= i < count ==> first_under(result.data@, batch_alias_text(i as nat)) == Some(
                    #[trigger] results@[i],
                ),
            Err(e) => exists|missing: nat|
                missing < count && e@ == ErrorModel::MissingKey(
                    #[trigger] batch_alias_text(missing),
                ) && first_under(result.data@, batch_alias_text(missing)) is None && forall|
                    i: nat,
                |
                    i < missing ==> first_under(
                        result.data@,
                        #[trigger] batch_alias_text(i),
                    ) is Some,
        },
{
    let ghost answer = result.data@;
    let mut data = result.data;
    let mut results: Vec<T> = Vec::new();
    let mut i: usize = 0;
    while i < count
        invariant
            i <= count,
            results@.len() == i,
            answer == result.data@,
            forall|k: int|
                0 <= k < i ==> first_under(answer, batch_alias_text(k as nat)) == Some(
                    #[trigger] results@[k],
                ),
            forall|alias: Seq<char>|
                !is_earlier_alias(alias, i as nat) ==> #[trigger] first_under(data@, alias)
                    == first_under(answer, alias),
        decreases count - i,
    {
        let alias = batch_alias(i);
        proof {
            assert forall|k: nat| k < i implies alias@ != #[trigger] batch_alias_text(k) by {
                batch_names_are_distinct(i as nat, k);
            }
            assert(!is_earlier_alias(alias@, i as nat));
            assert(first_under(data@, alias@) == first_under(answer, alias@));
        }
        match position_of(&data, alias.as_str()) {
            None => {
                proof {
                    assert forall|k: nat| k < i implies first_under(
                        answer,
                        #[trigger] batch_alias_text(k),
                    ) is Some by {
                        assert(first_under(answer, batch_alias_text(k)) == Some(results@[k as int]));
                    }
                }
                let error = DeviiError::MissingKey(alias);
                proof {
                    let missing = i as nat;
                    assert(error@ == ErrorModel::MissingKey(batch_alias_text(missing)));
                    assert(first_under(answer, batch_alias_text(missing)) is None);
                }
                return Err(error);
            },
            Some(place) => {
                let ghost before = data@;
                let entry = data.remove(place);
                proof {
                    assert forall|other: Seq<char>|
                        !is_earlier_alias(other, (i + 1) as nat) implies #[trigger] first_under(
                        data@,
                        other,
                    ) == first_under(answer, other) by {
                        if other == batch_alias_text(i as nat) {
                            assert(is_earlier_alias(other, (i + 1) as nat));
                        }
                        if is_earlier_alias(other, i as nat) {
                            let k = choose|k: nat| k < i && other == #[trigger] batch_alias_text(k);
                            assert(k < i + 1 && other == batch_alias_text(k));
                        }
                        removal_keeps_other_aliases(before, place as int, other);
                        assert(first_under(before, other) == first_under(answer, other));
                    }
                }
                results.push(entry.1);
            },
        }
        i = i + 1;
    }
    Ok(results)
}

} // verus!
