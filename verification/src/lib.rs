//! A small todo service core: a generic paginator, the todo entity with its
//! request/response shapes, an in-memory model of the persistent collection,
//! and the request-handling operations over it.

pub mod controller;
pub mod decimal;
pub mod laws;
pub mod paged_list;
pub mod store;
pub mod todo;

pub use todo::CreateTodoDto;
pub use todo::Todo;
pub use todo::TodoDto;
pub use todo::UpdateTodoDto;
