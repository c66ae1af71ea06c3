use crate::error::{DeviiError, ErrorModel};
use crate::naming::{
    create_operation, create_operation_text, input_type_name, input_type_text, snake_case,
    snake_name, update_operation, update_operation_text,
};
use crate::payload::{scalar_fields, strip_relations};
use crate::selection::{parse_value, selection_text};
use crate::text::{decimal_text, u64_to_decimal};
use crate::value::{JsonModel, JsonValue};
use vstd::prelude::*;
use vstd::string::StringExecFns;

verus! {

/// Marks a value that can be sent to the query endpoint.
pub trait GraphQLQuery {

}

/// Marks a value that the query endpoint can answer with.
pub trait DeviiQueryResultType {

}

/// What a record type supplies to take part in fetches and batch inserts.
pub trait DeviiTrait {
    /// The mutation fragment that inserts this record from the variable
    /// named `param`.
    fn insert_query(&self, param: String) -> String;

    /// The name of the record's input type.
    fn input_type(&self) -> String;

    /// The record as the backend takes it: serialized, without its relations.
    fn graphql_inputs(&self) -> JsonValue;

    /// The selection set that fetches a record of this type.
    fn fetch_fields() -> String;
}

/// The endpoints of one tenant.
pub struct DeviiRoutes {
    pub base: String,
    pub query: String,
    pub roles_pbac: String,
}

/// A session with the backend, as the handshake returns it.
pub struct DeviiClient {
    pub access_token: String,
    pub refresh_token: String,
    pub message: String,
    pub routes: DeviiRoutes,
}

/// The credentials that the handshake takes.
pub struct DeviiClientOptions {
    pub login: String,
    pub tenantid: u32,
    pub password: String,
    pub base: String,
}

/// The address of the handshake below the base address `base`.
pub open spec fn auth_url_text(base: Seq<char>) -> Seq<char> {
    base + "/auth"@
}

/// The value of the header that authorizes a request with `token`.
pub open spec fn bearer_text(token: Seq<char>) -> Seq<char> {
    "Bearer "@ + token
}

impl DeviiClientOptions {
    /// Collects the credentials of one tenant.
    pub fn new(login: String, password: String, base: String, tenantid: u32) -> (r: Self)
        ensures
            r.login == login,
            r.password == password,
            r.base == base,
            r.tenantid == tenantid,
    {
        DeviiClientOptions { login, tenantid, password, base }
    }

    /// The address to which the handshake is posted.
    pub fn auth_url(&self) -> (r: String)
        ensures
            r@ == auth_url_text(self.base@),
    {
        let mut out = String::from_str(self.base.as_str());
        out.append("/auth");
        out
    }
}

impl DeviiClient {
    /// The value of the `Authorization` header of every query.
    pub fn authorization(&self) -> (r: String)
        ensures
            r@ == bearer_text(self.access_token@),
    {
        let mut out = String::from_str("Bearer ");
        out.append(self.access_token.as_str());
        out
    }
}

/// The variables of a fetch.
pub struct FetchOptions {
    pub filter: Option<String>,
    pub offset: Option<u64>,
    pub ordering: Option<Vec<String>>,
    pub limit: Option<u64>,
}

impl Default for FetchOptions {
    /// The variables that restrict nothing.
    fn default() -> (r: Self)
        ensures
            r.filter is None,
            r.offset is None,
            r.ordering is None,
            r.limit is None,
    {
        FetchOptions { filter: None, offset: None, ordering: None, limit: None }
    }
}

/// Collects the variables of a fetch one by one; what is not set stays
/// unset.
pub struct FetchOptionsBuilder {
    pub filter: Option<String>,
    pub offset: Option<u64>,
    pub ordering: Option<Vec<String>>,
    pub limit: Option<u64>,
}

impl Default for FetchOptionsBuilder {
    /// A builder with nothing set.
    fn default() -> (r: Self)
        ensures
            r.filter is None,
            r.offset is None,
            r.ordering is None,
            r.limit is None,
    {
        FetchOptionsBuilder { filter: None, offset: None, ordering: None, limit: None }
    }
}

impl FetchOptionsBuilder {
    /// Sets the filter expression.
    pub fn filter(self, value: String) -> (r: Self)
        ensures
            r.filter == Some(value),
            r.offset == self.offset,
            r.ordering == self.ordering,
            r.limit == self.limit,
    {
        FetchOptionsBuilder {
            filter: Some(value),
            offset: self.offset,
            ordering: self.ordering,
            limit: self.limit,
        }
    }

    /// Sets the number of records to skip.
    pub fn offset(self, value: u64) -> (r: Self)
        ensures
            r.filter == self.filter,
            r.offset == Some(value),
            r.ordering == self.ordering,
            r.limit == self.limit,
    {
        FetchOptionsBuilder {
            filter: self.filter,
            offset: Some(value),
            ordering: self.ordering,
            limit: self.limit,
        }
    }

    /// Sets the fields to order by.
    pub fn ordering(self, value: Vec<String>) -> (r: Self)
        ensures
            r.filter == self.filter,
            r.offset == self.offset,
            r.ordering == Some(value),
            r.limit == self.limit,
    {
        FetchOptionsBuilder {
            filter: self.filter,
            offset: self.offset,
            ordering: Some(value),
            limit: self.limit,
        }
    }

    /// Sets the greatest number of records to return.
    pub fn limit(self, value: u64) -> (r: Self)
        ensures
            r.filter == self.filter,
            r.offset == self.offset,
            r.ordering == self.ordering,
            r.limit == Some(value),
    {
        FetchOptionsBuilder {
            filter: self.filter,
            offset: self.offset,
            ordering: self.ordering,
            limit: Some(value),
        }
    }

    /// The variables as they were set.
    pub fn build(self) -> (r: FetchOptions)
        ensures
            r.filter == self.filter,
            r.offset == self.offset,
            r.ordering == self.ordering,
            r.limit == self.limit,
    {
        FetchOptions {
            filter: self.filter,
            offset: self.offset,
            ordering: self.ordering,
            limit: self.limit,
        }
    }
}

/// A query with the variables of a fetch, or with none.
pub struct DeviiQueryOptions {
    pub query: String,
    pub variables: Option<FetchOptions>,
}

impl GraphQLQuery for DeviiQueryOptions {

}

/// The variables of an insert: the record under the key `input`.
pub struct Insert<T> {
    pub input: T,
}

/// The variables of an update: the record under the key `input`, and the
/// identifier of the record to change.
pub struct Update<T> {
    pub input: T,
    pub id: u64,
}

/// An insert mutation with its variables.
pub struct DeviiQueryInsertOptions<T> {
    pub query: String,
    pub variables: Insert<T>,
}

impl<T> GraphQLQuery for DeviiQueryInsertOptions<T> {

}

/// A batch mutation with its variables as serialized text.
pub struct DeviiQueryBatchInsertOptions {
    pub query: String,
    pub variables: String,
}

impl GraphQLQuery for DeviiQueryBatchInsertOptions {

}

/// An update mutation with its variables.
pub struct DeviiQueryUpdateOptions<T> {
    pub query: String,
    pub variables: Update<T>,
}

impl<T> GraphQLQuery for DeviiQueryUpdateOptions<T> {

}

/// The mutation that inserts one record of the type known as `name` and asks
/// for nothing but the identifier of the new record.
pub open spec fn insert_query_text(name: Seq<char>) -> Seq<char> {
    "mutation insert($input: "@ + input_type_text(name) + "){ "@ + create_operation_text(name)
        + "(input:$input){ id } }"@
}

/// The mutation that updates one record of the type known as `name` and asks
/// for `fetch_fields` of the changed record.
pub open spec fn update_query_text(name: Seq<char>, fetch_fields: Seq<char>) -> Seq<char> {
    "mutation update($input: "@ + input_type_text(name) + ", $id: ID!){ "@
        + update_operation_text(name) + "(id:$id, input:$input) "@ + fetch_fields + " }"@
}

/// The query that fetches `fetch_fields` of the records of the type known as
/// `name` that pass a filter.
pub open spec fn fetch_query_text(name: Seq<char>, fetch_fields: Seq<char>) -> Seq<char> {
    "query fetch($filter: String){ "@ + name + "(filter:$filter) "@ + fetch_fields + " }"@
}

/// The filter that passes the record with the identifier `id`.
pub open spec fn id_filter_text(id: nat) -> Seq<char> {
    "id = "@ + decimal_text(id)
}

/// Writes the insert mutation for the type known as `name`.
pub fn insert_query_string(name: &str) -> (r: String)
    ensures
        r@ == insert_query_text(name@),
{
    let input_type = input_type_name(name);
    let operation = create_operation(name);
    let mut out = String::from_str("mutation insert($input: ");
    out.append(input_type.as_str());
    out.append("){ ");
    out.append(operation.as_str());
    out.append("(input:$input){ id } }");
    out
}

/// Writes the update mutation for the type known as `name`.
pub fn update_query_string(name: &str, fetch_fields: &str) -> (r: String)
    ensures
        r@ == update_query_text(name@, fetch_fields@),
{
    let input_type = input_type_name(name);
    let operation = update_operation(name);
    let mut out = String::from_str("mutation update($input: ");
    out.append(input_type.as_str());
    out.append(", $id: ID!){ ");
    out.append(operation.as_str());
    out.append("(id:$id, input:$input) ");
    out.append(fetch_fields);
    out.append(" }");
    out
}

/// Writes the fetch query for the type known as `name`.
pub fn fetch_query_string(name: &str, fetch_fields: &str) -> (r: String)
    ensures
        r@ == fetch_query_text(name@, fetch_fields@),
{
    let mut out = String::from_str("query fetch($filter: String){ ");
    out.append(name);
    out.append("(filter:$filter) ");
    out.append(fetch_fields);
    out.append(" }");
    out
}

/// Writes the filter that passes the record with the identifier `id`.
pub fn id_filter(id: u64) -> (r: String)
    ensures
        r@ == id_filter_text(id as nat),
{
    let number = u64_to_decimal(id);
    let mut out = String::from_str("id = ");
    out.append(number.as_str());
    out
}

/// Builds the insert of `record`, a serialized value of the type
/// `short_type_name`: the mutation, and the record's scalar fields as its
/// variables. A record that is no object is refused.
pub fn build_insert(short_type_name: &str, record: JsonValue) -> (r: Result<
    DeviiQueryInsertOptions<JsonValue>,
    DeviiError,
>)
    ensures
        match record@ {
            JsonModel::Object(fields) => r matches Ok(options) && options.query@
                == insert_query_text(snake_case(short_type_name@)) && options.variables.input@
                == JsonModel::Object(scalar_fields(fields)),
            _ => r == Err::<DeviiQueryInsertOptions<JsonValue>, DeviiError>(DeviiError::Shape),
        },
{
    match record {
        JsonValue::Object(fields) => {
            let name = snake_name(short_type_name);
            let query = insert_query_string(name.as_str());
            let kept = strip_relations(fields);
            Ok(DeviiQueryInsertOptions { query, variables: Insert { input: JsonValue::Object(kept) } })
        },
        _ => Err(DeviiError::Shape),
    }
}

/// Builds the update of the record `id` to `object`: the mutation, which asks
/// for the selection that mirrors `default_value` with `id` at its front, and
/// the whole record with the identifier as its variables.
pub fn build_update<T>(short_type_name: &str, object: T, id: u64, default_value: &JsonValue) -> (r:
    DeviiQueryUpdateOptions<T>)
    ensures
        r.query@ == update_query_text(
            snake_case(short_type_name@),
            selection_text(default_value@, Some("id"@)),
        ),
        r.variables.input == object,
        r.variables.id == id,
{
    let name = snake_name(short_type_name);
    let fetch_fields = parse_value(default_value, Some(String::from_str("id")));
    let query = update_query_string(name.as_str(), fetch_fields.as_str());
    DeviiQueryUpdateOptions { query, variables: Update { input: object, id } }
}

/// Builds the fetch of the record `id` of the type `short_type_name`, asking
/// for `fetch_fields`.
pub fn build_fetch_with(short_type_name: &str, fetch_fields: &str, id: u64) -> (r:
    DeviiQueryOptions)
    ensures
        r.query@ == fetch_query_text(snake_case(short_type_name@), fetch_fields@),
        r.variables matches Some(variables) && variables.filter matches Some(filter) && filter@
            == id_filter_text(id as nat) && variables.offset is None && variables.ordering is None
            && variables.limit is None,
{
    let name = snake_name(short_type_name);
    let query = fetch_query_string(name.as_str(), fetch_fields);
    let variables = FetchOptionsBuilder::default().filter(id_filter(id)).build();
    DeviiQueryOptions { query, variables: Some(variables) }
}

/// Builds the fetch of the record `id` of the record type `T`, asking for the
/// fields that the type names.
pub fn build_fetch<T: DeviiTrait>(short_type_name: &str, id: u64) -> (r: DeviiQueryOptions)
    ensures
        exists|fetch_fields: String| #[trigger]
            call_ensures(T::fetch_fields, (), fetch_fields) && r.query@ == fetch_query_text(
                snake_case(short_type_name@),
                fetch_fields@,
            ),
        r.variables matches Some(variables) && variables.filter matches Some(filter) && filter@
            == id_filter_text(id as nat) && variables.offset is None && variables.ordering is None
            && variables.limit is None,
{
    let fetch_fields = T::fetch_fields();
    proof {
        assert(call_ensures(T::fetch_fields, (), fetch_fields));
    }
    build_fetch_with(short_type_name, fetch_fields.as_str(), id)
}

/// What the backend answers with: each operation's result under the alias
/// of the operation. No alias occurs twice in an answer that was decoded
/// from a response.
pub struct DeviiQueryResult<T> {
    pub data: Vec<(String, T)>,
}

/// The result that stands first under `alias` among `data`, if any does.
pub open spec fn first_under<T>(data: Seq<(String, T)>, alias: Seq<char>) -> Option<T>
    decreases data.len(),
{
    if data.len() == 0 {
        None
    } else if data[0].0@ == alias {
        Some(data[0].1)
    } else {
        first_under(data.drop_first(), alias)
    }
}

/// Tells whether no alias occurs twice in `data`.
pub open spec fn aliases_distinct<T>(data: Seq<(String, T)>) -> bool {
    forall|i: int, j: int|
        0 <= i < j < data.len() ==> (#[trigger] data[i]).0@ != (#[trigger] data[j]).0@
}

impl<T> DeviiQueryResult<T> {
    /// Takes the result of the operation that was issued under `alias`. An
    /// answer without that alias is a failure that names the alias.
    pub fn take(self, alias: &str) -> (r: Result<T, DeviiError>)
        ensures
            match first_under(self.data@, alias@) {
                Some(found) => r == Ok::<T, DeviiError>(found),
                None => r matches Err(e) && e@ == ErrorModel::MissingKey(alias@),
            },
    {
        let wanted = String::from_str(alias);
        let mut data = self.data;
        let mut i: usize = 0;
        proof {
            assert(data@.skip(0) == data@);
        }
        while i < data.len()
            invariant
                i <= data.len(),
                data == self.data,
                wanted@ == alias@,
                first_under(data@, alias@) == first_under(data@.skip(i as int), alias@),
            decreases data.len() - i,
        {
            proof {
                assert(data@.skip(i as int).drop_first() == data@.skip(i + 1));
            }
            if data[i].0 == wanted {
                let entry = data.swap_remove(i);
                return Ok(entry.1);
            }
            i = i + 1;
        }
        Err(DeviiError::MissingKey(wanted))
    }
}

/// Takes the result of an insert of the type `short_type_name` from the
/// answer to it.
pub fn created<T>(short_type_name: &str, result: DeviiQueryResult<T>) -> (r: Result<T, DeviiError>)
    ensures
        match first_under(result.data@, create_operation_text(snake_case(short_type_name@))) {
            Some(found) => r == Ok::<T, DeviiError>(found),
            None => r matches Err(e) && e@ == ErrorModel::MissingKey(
                create_operation_text(snake_case(short_type_name@)),
            ),
        },
{
    let name = snake_name(short_type_name);
    let alias = create_operation(name.as_str());
    result.take(alias.as_str())
}

/// Takes the changed record from the answer to an update of the type
/// `short_type_name`.
pub fn updated<T>(short_type_name: &str, result: DeviiQueryResult<T>) -> (r: Result<T, DeviiError>)
    ensures
        match first_under(result.data@, update_operation_text(snake_case(short_type_name@))) {
            Some(found) => r == Ok::<T, DeviiError>(found),
            None => r matches Err(e) && e@ == ErrorModel::MissingKey(
                update_operation_text(snake_case(short_type_name@)),
            ),
        },
{
    let name = snake_name(short_type_name);
    let alias = update_operation(name.as_str());
    result.take(alias.as_str())
}

/// The first of the records that a fetch was answered with. An empty
/// answer means that no record has the identifier.
pub fn first_record<T>(records: Vec<T>) -> (r: Result<T, DeviiError>)
    ensures
        records@.len() > 0 ==> r == Ok::<T, DeviiError>(records@[0]),
        records@.len() == 0 ==> r == Err::<T, DeviiError>(DeviiError::NotFound),
{
    let mut records = records;
    if records.len() > 0 {
        Ok(records.swap_remove(0))
    } else {
        Err(DeviiError::NotFound)
    }
}

/// Takes the fetched record from the answer to a fetch of the type
/// `short_type_name`: the first of the records under the type's name.
pub fn fetched<T>(short_type_name: &str, result: DeviiQueryResult<Vec<T>>) -> (r: Result<
    T,
    DeviiError,
>)
    ensures
        match first_under(result.data@, snake_case(short_type_name@)) {
            Some(records) => if records@.len() > 0 {
                r == Ok::<T, DeviiError>(records@[0])
            } else {
                r == Err::<T, DeviiError>(DeviiError::NotFound)
            },
            None => r matches Err(e) && e@ == ErrorModel::MissingKey(snake_case(short_type_name@)),
        },
{
    let name = snake_name(short_type_name);
    match result.take(name.as_str()) {
        Ok(records) => first_record(records),
        Err(e) => Err(e),
    }
}

/// In an answer whose aliases are distinct, the result that is taken under
/// an alias is the one that stands under it, wherever it stands.
pub proof fn distinct_alias_finds_its_result<T>(data: Seq<(String, T)>, position: int)
    requires
        aliases_distinct(data),
        0 <= position < data.len(),
    ensures
        first_under(data, data[position].0@) == Some(data[position].1),
    decreases data.len(),
{
    if position > 0 {
        let rest = data.drop_first();
        assert forall|i: int, j: int| 0 <= i < j < rest.len() implies (#[trigger] rest[i]).0@ != (
        #[trigger] rest[j]).0@ by {
            assert(rest[i] == data[i + 1]);
            assert(rest[j] == data[j + 1]);
        }
        assert(rest[position - 1] == data[position]);
        distinct_alias_finds_its_result(rest, position - 1);
        assert(data[0].0@ != data[position].0@);
    }
}

/// An alias that stands nowhere in an answer finds nothing, so that taking
/// it fails; and an alias that finds nothing stands nowhere.
pub proof fn absent_alias_finds_nothing<T>(data: Seq<(String, T)>, alias: Seq<char>)
    ensures
        first_under(data, alias) is None <==> forall|i: int|
            0 <= i < data.len() ==> (#[trigger] data[i]).0@ != alias,
    decreases data.len(),
{
    if data.len() > 0 {
        let rest = data.drop_first();
        absent_alias_finds_nothing(rest, alias);
        if first_under(data, alias) is None {
            assert forall|i: int| 0 <= i < data.len() implies (#[trigger] data[i]).0@ != alias by {
                if i > 0 {
                    assert(rest[i - 1] == data[i]);
                }
            }
        } else if data[0].0@ != alias {
            let i = choose|i: int| 0 <= i < rest.len() && (#[trigger] rest[i]).0@ == alias;
            assert(data[i + 1] == rest[i]);
        }
    }
}

/// Finds the place of the first result under `alias`.
pub fn position_of<T>(data: &Vec<(String, T)>, alias: &str) -> (r: Option<usize>)
    ensures
        match r {
            Some(place) => place < data@.len() && data@[place as int].0@ == alias@ && first_under(
                data@,
                alias@,
            ) == Some(data@[place as int].1),
            None => first_under(data@, alias@) is None,
        },
{
    let wanted = String::from_str(alias);
    let mut i: usize = 0;
    proof {
        assert(data@.skip(0) == data@);
    }
    while i < data.len()
        invariant
            i <= data.len(),
            wanted@ == alias@,
            first_under(data@, alias@) == first_under(data@.skip(i as int), alias@),
        decreases data.len() - i,
    {
        proof {
            assert(data@.skip(i as int).drop_first() == data@.skip(i + 1));
        }
        if data[i].0 == wanted {
            return Some(i);
        }
        i = i + 1;
    }
    None
}

/// Taking a result out of an answer changes nothing under the other
/// aliases.
pub proof fn removal_keeps_other_aliases<T>(data: Seq<(String, T)>, place: int, alias: Seq<char>)
    requires
        0 <= place < data.len(),
        data[place].0@ != alias,
    ensures
        first_under(data.remove(place), alias) == first_under(data, alias),
    decreases data.len(),
{
    let rest = data.remove(place);
    if place == 0 {
        assert(rest == data.drop_first());
    } else {
        assert(rest[0] == data[0]);
        assert(rest.drop_first() == data.drop_first().remove(place - 1));
        assert(data.drop_first()[place - 1] == data[place]);
        if data[0].0@ != alias {
            removal_keeps_other_aliases(data.drop_first(), place - 1, alias);
        }
    }
}

} // verus!
