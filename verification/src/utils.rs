pub mod error;

pub use error::AppError;
pub use error::AppResult;
