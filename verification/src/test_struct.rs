use crate::devii::DeviiTrait;
use crate::text::{decimal_text, parse_digits, parse_u64, parsed_digits, parsed_u64, u64_to_decimal};
use crate::value::{fields_model, JsonModel, JsonValue};
use vstd::prelude::*;
use vstd::string::StringExecFns;

verus! {

/// A record that owns a collection of `TestManyToOne` records.
pub struct TestOneToMany {
    pub id: Option<u64>,
    pub value: String,
    pub test_many_to_one_collection: Option<Vec<TestManyToOne>>,
}

/// A record that belongs to one `TestOneToMany` record.
pub struct TestManyToOne {
    pub id: Option<u64>,
    pub test_one_to_many_id: Option<u64>,
    pub test_one_to_many: Option<TestOneToMany>,
    pub value: String,
}

/// An optional identifier as it is serialized: its decimal number, or null.
pub open spec fn id_model(id: Option<u64>) -> JsonModel {
    match id {
        Some(n) => JsonModel::Number(decimal_text(n as nat)),
        None => JsonModel::Null,
    }
}

/// Serializes an optional identifier.
pub fn id_value(id: Option<u64>) -> (r: JsonValue)
    ensures
        r@ == id_model(id),
{
    match id {
        Some(n) => JsonValue::Number(u64_to_decimal(n)),
        None => JsonValue::Null,
    }
}

/// The argument that names the record with the identifier `id`.
pub open spec fn delete_input_text(id: nat) -> Seq<char> {
    "id: "@ + decimal_text(id)
}

fn delete_input_of(id: u64) -> (r: String)
    ensures
        r@ == delete_input_text(id as nat),
{
    let number = u64_to_decimal(id);
    let mut out = String::from_str("id: ");
    out.append(number.as_str());
    out
}

/// The fragment that inserts a record through `operation` from the variable
/// named `param`.
pub open spec fn insert_fragment_text(operation: Seq<char>, param: Seq<char>) -> Seq<char> {
    operation + " (input: $"@ + param + " ){ id }"@
}

/// Writes the fragment that inserts a record through `operation` from the
/// variable named `param`.
pub fn insert_fragment(operation: &str, param: &str) -> (r: String)
    ensures
        r@ == insert_fragment_text(operation@, param@),
{
    let mut out = String::from_str(operation);
    out.append(" (input: $");
    out.append(param);
    out.append(" ){ id }");
    out
}

/// What is sent of a `TestOneToMany` record: its own fields, without the
/// collection.
pub open spec fn one_to_many_inputs(id: Option<u64>, value: Seq<char>) -> JsonModel {
    JsonModel::Object(seq![("id"@, id_model(id)), ("value"@, JsonModel::Text(value))])
}

/// What is sent of a `TestManyToOne` record: its own fields and the
/// identifier of its owner, without the owner.
pub open spec fn many_to_one_inputs(
    id: Option<u64>,
    test_one_to_many_id: Option<u64>,
    value: Seq<char>,
) -> JsonModel {
    JsonModel::Object(
        seq![
            ("id"@, id_model(id)),
            ("test_one_to_many_id"@, id_model(test_one_to_many_id)),
            ("value"@, JsonModel::Text(value)),
        ],
    )
}

impl DeviiTrait for TestOneToMany {
    fn fetch_fields() -> (r: String)
        ensures
            r@ == "{ id, value, test_many_to_one_collection "@
                + "{ id, value, test_one_to_many_id, test_one_to_many { id, value } }"@ + " }"@,
    {
        let nested = TestManyToOne::fetch_fields();
        let mut out = String::from_str("{ id, value, test_many_to_one_collection ");
        out.append(nested.as_str());
        out.append(" }");
        out
    }

    fn insert_query(&self, param: String) -> (r: String)
        ensures
            r@ == insert_fragment_text("create_test_one_to_many"@, param@),
    {
        insert_fragment("create_test_one_to_many", param.as_str())
    }

    fn input_type(&self) -> (r: String)
        ensures
            r@ == "test_one_to_manyInput"@,
    {
        String::from_str("test_one_to_manyInput")
    }

    fn graphql_inputs(&self) -> (r: JsonValue)
        ensures
            r@ == one_to_many_inputs(self.id, self.value@),
    {
        let mut fields: Vec<(String, JsonValue)> = Vec::new();
        fields.push((String::from_str("id"), id_value(self.id)));
        fields.push((String::from_str("value"), JsonValue::Text(self.value.clone())));
        proof {
            let got = fields_model(fields@);
            let wanted = one_to_many_inputs(self.id, self.value@)->Object_0;
            assert(got.len() == wanted.len());
            assert(got[0] == wanted[0]);
            assert(got[1] == wanted[1]);
            assert(got == wanted);
        }
        JsonValue::Object(fields)
    }
}

impl DeviiTrait for TestManyToOne {
    fn fetch_fields() -> (r: String)
        ensures
            r@ == "{ id, value, test_one_to_many_id, test_one_to_many { id, value } }"@,
    {
        String::from_str("{ id, value, test_one_to_many_id, test_one_to_many { id, value } }")
    }

    fn insert_query(&self, param: String) -> (r: String)
        ensures
            r@ == insert_fragment_text("create_test_many_to_one"@, param@),
    {
        insert_fragment("create_test_many_to_one", param.as_str())
    }

    fn input_type(&self) -> (r: String)
        ensures
            r@ == "test_many_to_oneInput"@,
    {
        String::from_str("test_many_to_oneInput")
    }

    fn graphql_inputs(&self) -> (r: JsonValue)
        ensures
            r@ == many_to_one_inputs(self.id, self.test_one_to_many_id, self.value@),
    {
        let mut fields: Vec<(String, JsonValue)> = Vec::new();
        fields.push((String::from_str("id"), id_value(self.id)));
        fields.push((String::from_str("test_one_to_many_id"), id_value(self.test_one_to_many_id)));
        fields.push((String::from_str("value"), JsonValue::Text(self.value.clone())));
        proof {
            let got = fields_model(fields@);
            let wanted = many_to_one_inputs(
                self.id,
                self.test_one_to_many_id,
                self.value@,
            )->Object_0;
            assert(got.len() == wanted.len());
            assert(got[0] == wanted[0]);
            assert(got[1] == wanted[1]);
            assert(got[2] == wanted[2]);
            assert(got == wanted);
        }
        JsonValue::Object(fields)
    }
}

impl TestOneToMany {
    /// A parent with two children that are not yet linked to it.
    pub fn new() -> (r: Self)
        ensures
            r.id is None,
            r.value@ == "OneToMany"@,
            r.test_many_to_one_collection matches Some(children) && children@.len() == 2
                && children@[0].value@ == "Hello World from Layer 2~"@ && children@[1].value@
                == "I wouldn't have said that..."@ && forall|i: int|
                0 <= i < 2 ==> (#[trigger] children@[i]).id is None
                    && children@[i].test_one_to_many_id is None
                    && children@[i].test_one_to_many is None,
    {
        let mut children: Vec<TestManyToOne> = Vec::new();
        children.push(
            TestManyToOne {
                id: None,
                test_one_to_many_id: None,
                value: String::from_str("Hello World from Layer 2~"),
                test_one_to_many: None,
            },
        );
        children.push(
            TestManyToOne {
                id: None,
                test_one_to_many_id: None,
                value: String::from_str("I wouldn't have said that..."),
                test_one_to_many: None,
            },
        );
        TestOneToMany {
            id: None,
            value: String::from_str("OneToMany"),
            test_many_to_one_collection: Some(children),
        }
    }

    /// The argument that names this record in a delete.
    pub fn delete_input(&self) -> (r: String)
        requires
            self.id is Some,
        ensures
            r@ == delete_input_text(self.id->0 as nat),
    {
        match self.id {
            Some(id) => delete_input_of(id),
            None => String::new(),
        }
    }
}

impl TestManyToOne {
    /// The argument that names this record in a delete.
    pub fn delete_input(&self) -> (r: String)
        requires
            self.id is Some,
        ensures
            r@ == delete_input_text(self.id->0 as nat),
    {
        match self.id {
            Some(id) => delete_input_of(id),
            None => String::new(),
        }
    }
}

impl Default for TestOneToMany {
    fn default() -> (r: Self)
        ensures
            r.id is None,
            r.value@ == Seq::<char>::empty(),
            r.test_many_to_one_collection is None,
    {
        TestOneToMany { id: None, value: String::new(), test_many_to_one_collection: None }
    }
}

impl Default for TestManyToOne {
    fn default() -> (r: Self)
        ensures
            r.id is None,
            r.test_one_to_many_id is None,
            r.test_one_to_many is None,
            r.value@ == Seq::<char>::empty(),
    {
        TestManyToOne {
            id: None,
            test_one_to_many_id: None,
            test_one_to_many: None,
            value: String::new(),
        }
    }
}

/// Why a value is no identifier.
#[derive(Debug, PartialEq, Eq)]
pub enum IdError {
    /// The value is a string that is no number.
    Unparsable,
    /// The value is neither a whole number that fits in 64 bits nor a
    /// string.
    Mismatch,
}

impl IdError {
    /// Reports the failure in one sentence.
    pub fn message(&self) -> (r: String)
        ensures
            r@ == match self {
                IdError::Unparsable => "Can't parse id!"@,
                IdError::Mismatch => "data did not match any variant of untagged enum StringOrU64"@,
            },
    {
        match self {
            IdError::Unparsable => String::from_str("Can't parse id!"),
            IdError::Mismatch => String::from_str(
                "data did not match any variant of untagged enum StringOrU64",
            ),
        }
    }
}

/// The identifier that a value of a response stands for: a whole number
/// stands for itself, a string for the number that it spells; nothing else
/// is an identifier.
pub open spec fn identifier_of(value: JsonModel) -> Result<Option<u64>, IdError> {
    match value {
        JsonModel::Number(text) => match parsed_digits(text) {
            Some(n) => Ok(Some(n)),
            None => Err(IdError::Mismatch),
        },
        JsonModel::Text(text) => match parsed_u64(text) {
            Some(n) => Ok(Some(n)),
            None => Err(IdError::Unparsable),
        },
        _ => Err(IdError::Mismatch),
    }
}

/// Reads an identifier that the backend sent as a number or as a string.
pub fn deserialize_u64_or_string(value: &JsonValue) -> (r: Result<Option<u64>, IdError>)
    ensures
        r == identifier_of(value@),
{
    match value {
        JsonValue::Number(text) => match parse_digits(text.as_str()) {
            Some(n) => Ok(Some(n)),
            None => Err(IdError::Mismatch),
        },
        JsonValue::Text(text) => match parse_u64(text.as_str()) {
            Some(n) => Ok(Some(n)),
            None => Err(IdError::Unparsable),
        },
        _ => Err(IdError::Mismatch),
    }
}

/// An identifier that was serialized is read back as it was.
pub proof fn serialized_identifier_reads_back(id: u64)
    ensures
        identifier_of(id_model(Some(id))) == Ok::<Option<u64>, IdError>(Some(id)),
{
    crate::text::decimal_text_reads_back(id as nat);
}

} // verus!
