//! The program's instructions, grouped by the account they manage.
pub mod interest_depositor_manager;
pub mod savings_vault;
