pub mod bond;
pub mod saturn_group;
pub mod userstakeaccount;

pub use bond::SaturnBond;
pub use saturn_group::Treasury;
pub use userstakeaccount::UserStakeAccount;
