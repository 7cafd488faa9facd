pub mod burn_tokens;
