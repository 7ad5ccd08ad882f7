pub mod deposit;
pub mod extend;
pub mod initialize_fee_vault;
pub mod initialize_vault;
pub mod withdraw;
