use convert_case::{Case, Casing};
use vstd::prelude::*;
use vstd::string::StringExecFns;

verus! {

/// The snake-case form that `convert_case` gives an identifier: the words it
/// finds in `name`, in lower case, joined by underscores.
pub uninterp spec fn snake_case(name: Seq<char>) -> Seq<char>;

/// Calls `convert_case::Casing::to_case` with `Case::Snake`. The conversion
/// reads nothing but its argument and returns for every string, so its result
/// is a function of the text alone; which function is not stated here.
#[verifier::external_body]
fn to_snake_case(name: &str) -> (r: String)
    ensures
        r@ == snake_case(name@),
{
    name.to_case(Case::Snake)
}

/// The name of the input type that belongs to a record named `name`.
pub open spec fn input_type_text(name: Seq<char>) -> Seq<char> {
    name + "Input"@
}

/// The name of the operation that creates a record named `name`.
pub open spec fn create_operation_text(name: Seq<char>) -> Seq<char> {
    "create_"@ + name
}

/// The name of the operation that updates a record named `name`.
pub open spec fn update_operation_text(name: Seq<char>) -> Seq<char> {
    "update_"@ + name
}

/// Resolves a record's short type name to the name the backend knows it by.
pub fn snake_name(short_type_name: &str) -> (r: String)
    ensures
        r@ == snake_case(short_type_name@),
{
    to_snake_case(short_type_name)
}

/// Names the input type of the record called `name`.
pub fn input_type_name(name: &str) -> (r: String)
    ensures
        r@ == input_type_text(name@),
{
    let mut out = String::from_str(name);
    out.append("Input");
    out
}

/// Names the operation, and the response alias, of an insert.
pub fn create_operation(name: &str) -> (r: String)
    ensures
        r@ == create_operation_text(name@),
{
    let mut out = String::from_str("create_");
    out.append(name);
    out
}

/// Names the operation, and the response alias, of an update.
pub fn update_operation(name: &str) -> (r: String)
    ensures
        r@ == update_operation_text(name@),
{
    let mut out = String::from_str("update_");
    out.append(name);
    out
}

} // verus!
