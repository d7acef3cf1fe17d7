pub mod calculate_fee_amount;
pub mod fees_setting;
pub mod raw_amount_out;
pub mod swap_math;

pub use calculate_fee_amount::calculate_fee_amount;
pub use fees_setting::fees_setting;
pub use raw_amount_out::raw_amount_out;
pub use swap_math::{compute_swap_math, SwapMathResult};
