pub mod create_bond;
pub mod redeem_bond;
pub mod update_quote;
