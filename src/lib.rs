//! Ground-motion prediction support: the domain tags of the attenuation
//! models, the defaults applied to site records, the order-preserving batch
//! evaluator, the median rule of the statistics reducer and the named model
//! table.

pub mod gmm;
pub mod vectorized;
pub mod stats;
pub mod configs;
