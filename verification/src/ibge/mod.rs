//! States and municipalities of Brazil, as the IBGE endpoints of BrasilAPI give them.

pub mod provider;
pub mod query;
pub mod records;
pub mod service;

pub use provider::MunicipalitiesProvider;
pub use query::find_municipality_by_name;
pub use records::{Municipality, MunicipalityView, State, StateRegion, StateRegionView, StateView};
pub use service::{IbgeService, Request};
