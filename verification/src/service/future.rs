//! The operations that the services of this module start.

pub use crate::service::and_then::AndThenFuture;
pub use crate::service::boxed::BoxFuture;
pub use crate::service::boxed_local::LocalBoxFuture;
pub use crate::service::map_err::MapErrFuture;
pub use crate::service::map_ok::MapOkFuture;
pub use crate::service::map_result::MapFuture;
pub use crate::service::or_else::OrElseFuture;
pub use crate::service::then::ThenFuture;
