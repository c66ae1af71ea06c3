/// The one mutation that inserts many records.
pub mod batch;
/// The session, the queries with their variables, and the answers.
pub mod devii;
/// The ways in which an operation fails.
pub mod error;
/// The steps of one query, from the call to its outcome.
pub mod executor;
/// The statistics of the chains: their update and their rows.
pub mod functions;
/// The names that the backend derives from the name of a record type.
pub mod naming;
/// What an insert sends of a record.
pub mod payload;
/// The selection set that mirrors the shape of a record.
pub mod selection;
/// Record types with a relation between them.
pub mod test_struct;
/// Joined texts and decimal numbers.
pub mod text;
/// Serialized values.
pub mod value;
