pub mod error;
pub mod index;
pub mod params;
pub mod query;
pub mod row;

pub use error::{serde_to_revicta_error, VectorStoreError};
pub use index::{payload_columns, LanceDbVectorIndex};
pub use params::{DistanceType, ParamsView, SerevictahParams, SerevictahType};
pub use query::{QueryEntry, QueryPlan, SettingsView};
pub use row::{FieldValue, Row};
