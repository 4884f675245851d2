pub mod graduate;
pub mod initialize_wrapper_authority;
pub mod simple_wrapped_swap;
pub mod wrapped_buy_with_extra_fee;

pub use graduate::Graduate;
pub use initialize_wrapper_authority::InitializeWrapperAuthority;
pub use simple_wrapped_swap::SimpleWrappedSwap;
pub use wrapped_buy_with_extra_fee::WrappedBuyWithExtraFee;
