//! The entities of the cost-estimation domain: their records, their listing
//! requests and their statements.

pub mod budget;
pub mod descomposition;
pub mod element;
pub mod measurement;
pub mod price;
pub mod project;
pub mod role;
pub mod token_claims;
pub mod user;
pub mod version;

pub use crate::filterable::Filterable;
pub use crate::paginable::Paginable;
pub use budget::Budget;
pub use budget::BudgetParams;
pub use budget::BudgetStatus;
pub use budget::NewBudget;
pub use descomposition::CalculationMode;
pub use descomposition::Descomposition;
pub use descomposition::DescompositionParams;
pub use descomposition::NewDescomposition;
pub use element::Element;
pub use element::ElementParams;
pub use element::ElementType;
pub use element::NewElement;
pub use measurement::Measurement;
pub use measurement::MeasurementParams;
pub use measurement::NewMeasurement;
pub use price::NewPrice;
pub use price::Price;
pub use price::PriceParams;
pub use price::PriceType;
pub use project::NewProject;
pub use project::Project;
pub use project::ProjectParams;
pub use role::Role;
pub use token_claims::TokenClaims;
pub use user::UserCreateDTO;
pub use user::UserRead;
pub use user::UserUpdateDTO;
pub use version::Version;

use vstd::prelude::*;

verus! {

/// A moment in time, in microseconds since the Unix epoch, UTC.
pub type UtcTimestamp = i64;

/// A copy of an optional text.
pub fn copy_text(value: &Option<String>) -> (copy: Option<String>)
    ensures
        copy.is_some() == value.is_some(),
        copy.is_some() ==> copy.unwrap()@ == value.unwrap()@,
{
    match value {
        Some(text) => Some(text.clone()),
        None => None,
    }
}

} // verus!
