//! The cluster-facing surface in one place: the topology types and the
//! parameter builders of the run and stop commands.

pub use crate::run::Params as RunParams;
pub use crate::run::ParamsBuilder as RunParamsBuilder;
pub use crate::stop::Params as StopParams;
pub use crate::stop::ParamsBuilder as StopParamsBuilder;
pub use crate::topology::MigrationContextVar;
pub use crate::topology::Plugin;
pub use crate::topology::Service;
pub use crate::topology::Tier;
pub use crate::topology::Topology;
